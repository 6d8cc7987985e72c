//! Flux: its operator, the secrets it needs on AWS, and the instance that syncs the cluster.

use crate::aws::{optional_context, AwsContext, AwsContextModel};
use crate::cli::{Cli, CliModel};
use crate::cluster::{apply_call, apply_manifest, REGISTRY_NAME};
use crate::outside::decoded;
use crate::process::{
    after, call, capture, no_notes, outcome, plain_call, progress, progress_notes, run,
};
use crate::protocol::{Action, Call, CallModel, Reply, ReplyModel, Turn, TurnModel};
use crate::text::{string_texts, strings};
use vstd::prelude::*;

verus! {

/// How far installing the operator has come.
#[derive(Copy, Clone, Debug, PartialEq, Eq, Structural)]
pub enum OperatorPoint {
    Start,
    /// Installing it.
    Installed,
}

impl View for OperatorPoint {
    type V = OperatorPoint;

    open spec fn view(&self) -> OperatorPoint {
        *self
    }
}

/// Installs the operator, or brings an installed one up to date.
pub open spec fn install_operator(registry_config: Seq<char>) -> CallModel {
    plain_call(
        "helm"@,
        seq![
            "upgrade"@,
            "--install"@,
            "flux-operator"@,
            "oci://ghcr.io/controlplaneio-fluxcd/charts/flux-operator"@,
            "--namespace"@,
            "flux-system"@,
            "--create-namespace"@,
            "--wait"@,
            "--registry-config"@,
            registry_config,
        ],
    )
}

/// Installing the operator: what follows at each point.
pub open spec fn operator_turn(
    registry_config: Seq<char>,
    at: OperatorPoint,
    reply: ReplyModel,
) -> TurnModel<OperatorPoint, ()> {
    match at {
        OperatorPoint::Start => TurnModel::Ask(
            OperatorPoint::Installed,
            progress(seq![">>> Installing Flux Operator..."@]),
            Action::Run(install_operator(registry_config)),
        ),
        OperatorPoint::Installed => after(
            install_operator(registry_config),
            reply,
            TurnModel::Done(seq![], ()),
        ),
    }
}

fn operator_call(registry_config: &str) -> (r: Call)
    ensures
        r@ == install_operator(registry_config@),
{
    call(
        "helm",
        &[
            "upgrade",
            "--install",
            "flux-operator",
            "oci://ghcr.io/controlplaneio-fluxcd/charts/flux-operator",
            "--namespace",
            "flux-system",
            "--create-namespace",
            "--wait",
            "--registry-config",
            registry_config,
        ],
    )
}

/// Installs the operator: from the point that was reached and the last answer to what follows.
pub fn install_flux_operator(
    registry_config: &str,
    at: OperatorPoint,
    reply: &Reply<String, Vec<u8>>,
) -> (r: Turn<OperatorPoint, ()>)
    ensures
        r@ == operator_turn(registry_config@, at, reply@),
{
    match at {
        OperatorPoint::Start => Turn::Ask(
            OperatorPoint::Installed,
            progress_notes(&[">>> Installing Flux Operator..."]),
            Action::Run(operator_call(registry_config)),
        ),
        OperatorPoint::Installed => match run(operator_call(registry_config), reply) {
            Ok(()) => Turn::Done(no_notes(), ()),
            Err(failure) => Turn::Fail(no_notes(), failure),
        },
    }
}

/// How far creating the secrets has come.
#[derive(Copy, Clone, Debug, PartialEq, Eq, Structural)]
pub enum SecretsPoint {
    Start,
    /// Making the manifest of the GitHub credentials.
    TokenMade,
    /// Applying it.
    TokenApplied,
    /// Deleting an age key of an earlier run.
    KeyDeleted,
    /// Making the manifest of the age key.
    KeyMade,
    /// Applying it.
    KeyApplied,
}

impl View for SecretsPoint {
    type V = SecretsPoint;

    open spec fn view(&self) -> SecretsPoint {
        *self
    }
}

/// Makes the manifest of the GitHub credentials. The token is on the input, so that no list of
/// running programs shows it.
pub open spec fn make_token(aws: AwsContextModel) -> CallModel {
    plain_call(
        "kubectl"@,
        seq![
            "create"@,
            "secret"@,
            "generic"@,
            "flux-github-pat"@,
            "--namespace"@,
            "flux-system"@,
            "--from-literal"@,
            "username="@ + aws.github_user,
            "--from-file"@,
            "password=/dev/stdin"@,
            "--dry-run=client"@,
            "-o"@,
            "yaml"@,
        ],
    )
}

/// Deletes the age key of an earlier run.
pub open spec fn delete_key() -> CallModel {
    plain_call(
        "kubectl"@,
        seq![
            "delete"@,
            "secret"@,
            "sops-age"@,
            "-n"@,
            "flux-system"@,
            "--ignore-not-found"@,
        ],
    )
}

/// Makes the manifest of the age key, under the name by which Flux finds it.
pub open spec fn make_key(aws: AwsContextModel) -> CallModel {
    plain_call(
        "kubectl"@,
        seq![
            "create"@,
            "secret"@,
            "generic"@,
            "sops-age"@,
            "--namespace"@,
            "flux-system"@,
            "--from-file"@,
            "keys."@ + aws.age_pubkey + ".agekey="@ + aws.age_key_file,
            "--dry-run=client"@,
            "-o"@,
            "yaml"@,
        ],
    )
}

/// Applies a manifest that a call has made.
pub open spec fn applying(made: CallModel, reply: ReplyModel, next: SecretsPoint) -> TurnModel<
    SecretsPoint,
    (),
> {
    match outcome(made, reply) {
        Ok(manifest) => TurnModel::Ask(
            next,
            seq![],
            Action::RunWithStdin(apply_manifest(), decoded(manifest)),
        ),
        Err(failure) => TurnModel::Fail(seq![], failure),
    }
}

/// Creating the secrets: what follows at each point.
pub open spec fn secrets_turn(
    aws: AwsContextModel,
    at: SecretsPoint,
    reply: ReplyModel,
) -> TurnModel<SecretsPoint, ()> {
    match at {
        SecretsPoint::Start => TurnModel::Ask(
            SecretsPoint::TokenMade,
            progress(seq![">>> Creating GitHub PAT credentials secret in flux-system..."@]),
            Action::CaptureWithStdin(make_token(aws), aws.github_token),
        ),
        SecretsPoint::TokenMade => applying(make_token(aws), reply, SecretsPoint::TokenApplied),
        SecretsPoint::TokenApplied => after(
            apply_manifest(),
            reply,
            TurnModel::Ask(
                SecretsPoint::KeyDeleted,
                progress(seq![">>> Creating sops-age decryption secret in flux-system..."@]),
                Action::Run(delete_key()),
            ),
        ),
        SecretsPoint::KeyDeleted => after(
            delete_key(),
            reply,
            TurnModel::Ask(SecretsPoint::KeyMade, seq![], Action::Capture(make_key(aws))),
        ),
        SecretsPoint::KeyMade => applying(make_key(aws), reply, SecretsPoint::KeyApplied),
        SecretsPoint::KeyApplied => after(apply_manifest(), reply, TurnModel::Done(seq![], ())),
    }
}

fn token_call(aws: &AwsContext<String>) -> (r: Call)
    ensures
        r@ == make_token(aws@),
{
    let username = "username=".to_string().concat(aws.github_user.as_str());
    call(
        "kubectl",
        &[
            "create",
            "secret",
            "generic",
            "flux-github-pat",
            "--namespace",
            "flux-system",
            "--from-literal",
            username.as_str(),
            "--from-file",
            "password=/dev/stdin",
            "--dry-run=client",
            "-o",
            "yaml",
        ],
    )
}

fn delete_call() -> (r: Call)
    ensures
        r@ == delete_key(),
{
    call(
        "kubectl",
        &["delete", "secret", "sops-age", "-n", "flux-system", "--ignore-not-found"],
    )
}

fn key_call(aws: &AwsContext<String>) -> (r: Call)
    ensures
        r@ == make_key(aws@),
{
    let file = "keys.".to_string().concat(aws.age_pubkey.as_str()).concat(".agekey=").concat(
        aws.age_key_file.as_str(),
    );
    call(
        "kubectl",
        &[
            "create",
            "secret",
            "generic",
            "sops-age",
            "--namespace",
            "flux-system",
            "--from-file",
            file.as_str(),
            "--dry-run=client",
            "-o",
            "yaml",
        ],
    )
}

fn apply_made(made: Call, reply: &Reply<String, Vec<u8>>, next: SecretsPoint) -> (r: Turn<
    SecretsPoint,
    (),
>)
    ensures
        r@ == applying(made@, reply@, next),
{
    match capture(made, reply) {
        Ok(manifest) => Turn::Ask(
            next,
            no_notes(),
            Action::RunWithStdin(apply_call(), manifest),
        ),
        Err(failure) => Turn::Fail(no_notes(), failure),
    }
}

/// Creates the secrets that Flux clones the repository and decrypts its contents with: from the
/// point that was reached and the last answer to what follows.
pub fn create_aws_secrets(
    aws: &AwsContext<String>,
    at: SecretsPoint,
    reply: &Reply<String, Vec<u8>>,
) -> (r: Turn<SecretsPoint, ()>)
    ensures
        r@ == secrets_turn(aws@, at, reply@),
{
    match at {
        SecretsPoint::Start => Turn::Ask(
            SecretsPoint::TokenMade,
            progress_notes(&[">>> Creating GitHub PAT credentials secret in flux-system..."]),
            Action::CaptureWithStdin(token_call(aws), aws.github_token.clone()),
        ),
        SecretsPoint::TokenMade => apply_made(token_call(aws), reply, SecretsPoint::TokenApplied),
        SecretsPoint::TokenApplied => match run(apply_call(), reply) {
            Ok(()) => Turn::Ask(
                SecretsPoint::KeyDeleted,
                progress_notes(&[">>> Creating sops-age decryption secret in flux-system..."]),
                Action::Run(delete_call()),
            ),
            Err(failure) => Turn::Fail(no_notes(), failure),
        },
        SecretsPoint::KeyDeleted => match run(delete_call(), reply) {
            Ok(()) => Turn::Ask(
                SecretsPoint::KeyMade,
                no_notes(),
                Action::Capture(key_call(aws)),
            ),
            Err(failure) => Turn::Fail(no_notes(), failure),
        },
        SecretsPoint::KeyMade => apply_made(key_call(aws), reply, SecretsPoint::KeyApplied),
        SecretsPoint::KeyApplied => match run(apply_call(), reply) {
            Ok(()) => Turn::Done(no_notes(), ()),
            Err(failure) => Turn::Fail(no_notes(), failure),
        },
    }
}

/// How far installing the instance has come.
#[derive(Copy, Clone, Debug, PartialEq, Eq, Structural)]
pub enum InstancePoint {
    Start,
    /// Installing it.
    Installed,
    /// Waiting for it to have reconciled.
    Reconciled,
    /// Waiting for the controllers, which may take longer.
    ControllersReady,
}

impl View for InstancePoint {
    type V = InstancePoint;

    open spec fn view(&self) -> InstancePoint {
        *self
    }
}

/// The arguments that do not depend on where Flux syncs from. Helm's own wait would take the
/// instance's first steps for a failure, so it waits for the resources of the chart alone.
pub open spec fn instance_args(registry_config: Seq<char>) -> Seq<Seq<char>> {
    seq![
        "upgrade"@,
        "--install"@,
        "flux"@,
        "oci://ghcr.io/controlplaneio-fluxcd/charts/flux-instance"@,
        "--namespace"@,
        "flux-system"@,
        "--wait=legacy"@,
        "--timeout"@,
        "10m"@,
        "--set"@,
        "instance.cluster.type=kubernetes"@,
        "--set"@,
        "instance.cluster.size=small"@,
        "--set"@,
        "instance.cluster.multitenant=false"@,
        "--set"@,
        "instance.cluster.networkPolicy=true"@,
        "--set"@,
        "instance.cluster.domain=cluster.local"@,
        "--registry-config"@,
        registry_config,
    ]
}

/// The arguments that say where Flux syncs from: the repository, or the local registry.
pub open spec fn sync_args(cli: CliModel, aws: Option<AwsContextModel>) -> Seq<Seq<char>> {
    match aws {
        Some(aws) => seq![
            "--set"@,
            "instance.sync.kind=GitRepository"@,
            "--set"@,
            "instance.sync.url="@ + aws.git_repo_url,
            "--set"@,
            "instance.sync.ref=refs/heads/main"@,
            "--set"@,
            "instance.sync.path=mgmt/aws"@,
            "--set"@,
            "instance.sync.pullSecret=flux-github-pat"@,
        ],
        None => seq![
            "--set"@,
            "instance.sync.kind=OCIRepository"@,
            "--set"@,
            "instance.sync.url=oci://"@ + REGISTRY_NAME@ + ":5000/"@ + cli.oci_repository,
            "--set"@,
            "instance.sync.ref="@ + cli.oci_tag,
            "--set"@,
            "instance.sync.path=mgmt/local-host"@,
            "--set-json"@,
            "instance.kustomize.patches=[{\"patch\":\"- op: add\\n  path: /spec/insecure\\n  value: true\",\"target\":{\"kind\":\"OCIRepository\"}}]"@,
        ],
    }
}

/// Installs the instance, or brings an installed one up to date.
pub open spec fn install_instance(
    cli: CliModel,
    aws: Option<AwsContextModel>,
    registry_config: Seq<char>,
) -> CallModel {
    plain_call("helm"@, instance_args(registry_config) + sync_args(cli, aws))
}

/// Waits for the instance to have reconciled.
pub open spec fn wait_instance() -> CallModel {
    plain_call(
        "kubectl"@,
        seq![
            "wait"@,
            "fluxinstance/flux"@,
            "--namespace"@,
            "flux-system"@,
            "--for=condition=Ready"@,
            "--timeout=10m"@,
        ],
    )
}

/// Waits for the controllers of Flux.
pub open spec fn wait_controllers() -> CallModel {
    plain_call(
        "kubectl"@,
        seq![
            "wait"@,
            "--namespace"@,
            "flux-system"@,
            "--for=condition=ready"@,
            "pod"@,
            "--selector=app.kubernetes.io/part-of=flux"@,
            "--timeout=90s"@,
        ],
    )
}

/// Installing the instance: what follows at each point. That the controllers are late is no
/// failure.
pub open spec fn instance_turn(
    cli: CliModel,
    aws: Option<AwsContextModel>,
    registry_config: Seq<char>,
    at: InstancePoint,
    reply: ReplyModel,
) -> TurnModel<InstancePoint, ()> {
    match at {
        InstancePoint::Start => TurnModel::Ask(
            InstancePoint::Installed,
            progress(seq![">>> Installing FluxInstance via Helm..."@]),
            Action::Run(install_instance(cli, aws, registry_config)),
        ),
        InstancePoint::Installed => after(
            install_instance(cli, aws, registry_config),
            reply,
            TurnModel::Ask(
                InstancePoint::Reconciled,
                progress(seq![">>> Waiting for FluxInstance reconciliation to complete..."@]),
                Action::Run(wait_instance()),
            ),
        ),
        InstancePoint::Reconciled => after(
            wait_instance(),
            reply,
            TurnModel::Ask(
                InstancePoint::ControllersReady,
                progress(seq![">>> Waiting for Flux controllers to be ready..."@]),
                Action::Run(wait_controllers()),
            ),
        ),
        InstancePoint::ControllersReady => TurnModel::Done(seq![], ()),
    }
}

fn add_sync_args(args: Vec<String>, cli: &Cli<String>, aws: &Option<AwsContext<String>>) -> (r: Vec<
    String,
>)
    ensures
        string_texts(r@) == string_texts(args@) + sync_args(
            cli@,
            optional_context(*aws),
        ),
{
    let mut sync = match aws {
        Some(aws) => {
            let url = "instance.sync.url=".to_string().concat(aws.git_repo_url.as_str());
            strings(
                &[
                    "--set",
                    "instance.sync.kind=GitRepository",
                    "--set",
                    url.as_str(),
                    "--set",
                    "instance.sync.ref=refs/heads/main",
                    "--set",
                    "instance.sync.path=mgmt/aws",
                    "--set",
                    "instance.sync.pullSecret=flux-github-pat",
                ],
            )
        },
        None => {
            let url = "instance.sync.url=oci://".to_string().concat(REGISTRY_NAME).concat(
                ":5000/",
            ).concat(cli.oci_repository.as_str());
            let tag = "instance.sync.ref=".to_string().concat(cli.oci_tag.as_str());
            strings(
                &[
                    "--set",
                    "instance.sync.kind=OCIRepository",
                    "--set",
                    url.as_str(),
                    "--set",
                    tag.as_str(),
                    "--set",
                    "instance.sync.path=mgmt/local-host",
                    "--set-json",
                    "instance.kustomize.patches=[{\"patch\":\"- op: add\\n  path: /spec/insecure\\n  value: true\",\"target\":{\"kind\":\"OCIRepository\"}}]",
                ],
            )
        },
    };
    let mut all = args;
    let ghost first = all@;
    let ghost second = sync@;
    all.append(&mut sync);
    assert(string_texts(all@) =~= string_texts(first) + string_texts(second));
    all
}

fn instance_call(cli: &Cli<String>, aws: &Option<AwsContext<String>>, registry_config: &str) -> (r:
    Call)
    ensures
        r@ == install_instance(
            cli@,
            optional_context(*aws),
            registry_config@,
        ),
{
    let args = strings(
        &[
            "upgrade",
            "--install",
            "flux",
            "oci://ghcr.io/controlplaneio-fluxcd/charts/flux-instance",
            "--namespace",
            "flux-system",
            "--wait=legacy",
            "--timeout",
            "10m",
            "--set",
            "instance.cluster.type=kubernetes",
            "--set",
            "instance.cluster.size=small",
            "--set",
            "instance.cluster.multitenant=false",
            "--set",
            "instance.cluster.networkPolicy=true",
            "--set",
            "instance.cluster.domain=cluster.local",
            "--registry-config",
            registry_config,
        ],
    );
    Call { program: "helm".to_string(), args: add_sync_args(args, cli, aws), env: Vec::new() }
}

fn instance_wait() -> (r: Call)
    ensures
        r@ == wait_instance(),
{
    call(
        "kubectl",
        &[
            "wait",
            "fluxinstance/flux",
            "--namespace",
            "flux-system",
            "--for=condition=Ready",
            "--timeout=10m",
        ],
    )
}

fn controllers_wait() -> (r: Call)
    ensures
        r@ == wait_controllers(),
{
    call(
        "kubectl",
        &[
            "wait",
            "--namespace",
            "flux-system",
            "--for=condition=ready",
            "pod",
            "--selector=app.kubernetes.io/part-of=flux",
            "--timeout=90s",
        ],
    )
}

/// Installs the instance that syncs the cluster: from the point that was reached and the last
/// answer to what follows.
pub fn install_flux_instance(
    cli: &Cli<String>,
    aws: &Option<AwsContext<String>>,
    registry_config: &str,
    at: InstancePoint,
    reply: &Reply<String, Vec<u8>>,
) -> (r: Turn<InstancePoint, ()>)
    ensures
        r@ == instance_turn(
            cli@,
            optional_context(*aws),
            registry_config@,
            at,
            reply@,
        ),
{
    match at {
        InstancePoint::Start => Turn::Ask(
            InstancePoint::Installed,
            progress_notes(&[">>> Installing FluxInstance via Helm..."]),
            Action::Run(instance_call(cli, aws, registry_config)),
        ),
        InstancePoint::Installed => match run(instance_call(cli, aws, registry_config), reply) {
            Ok(()) => Turn::Ask(
                InstancePoint::Reconciled,
                progress_notes(&[">>> Waiting for FluxInstance reconciliation to complete..."]),
                Action::Run(instance_wait()),
            ),
            Err(failure) => Turn::Fail(no_notes(), failure),
        },
        InstancePoint::Reconciled => match run(instance_wait(), reply) {
            Ok(()) => Turn::Ask(
                InstancePoint::ControllersReady,
                progress_notes(&[">>> Waiting for Flux controllers to be ready..."]),
                Action::Run(controllers_wait()),
            ),
            Err(failure) => Turn::Fail(no_notes(), failure),
        },
        InstancePoint::ControllersReady => Turn::Done(no_notes(), ()),
    }
}

} // verus!
