//! The configuration of Helm, and Flux, as they are seen from outside.

use crate::aws::AwsContextModel;
use crate::bootstrap::{config_turn, ConfigPoint, ConfigPointModel};
use crate::cli::CliModel;
use crate::failure::Failure;
use crate::flux::{
    install_instance, instance_turn, operator_turn, secrets_turn, InstancePoint, OperatorPoint,
    SecretsPoint,
};
use crate::outside::decoded;
use crate::process::succeeded;
use crate::protocol::{Action, CallModel, Ending, Reply, ReplyModel, TurnModel};
use crate::scripts::{command, events, reached, Event};
use vstd::prelude::*;

verus! {

/// The operator is installed, or upgraded where it is there, with the registry configuration of
/// the run.
pub proof fn the_operator_is_installed(config: Seq<char>, answers: Seq<ReplyModel>)
    requires
        answers.len() == 1,
        succeeded(answers[0]),
    ensures
        ({
            let step = |at: OperatorPoint, reply: ReplyModel| operator_turn(config, at, reply);
            let first = operator_turn(config, OperatorPoint::Start, Reply::Begin);
            &&& events(step, first, answers) == seq![
                Event::Told(">>> Installing Flux Operator..."@),
                Event::Asked(
                    Action::Run(
                        command(
                            "helm"@,
                            seq![
                                "upgrade"@,
                                "--install"@,
                                "flux-operator"@,
                                "oci://ghcr.io/controlplaneio-fluxcd/charts/flux-operator"@,
                                "--namespace"@,
                                "flux-system"@,
                                "--create-namespace"@,
                                "--wait"@,
                                "--registry-config"@,
                                config,
                            ],
                        ),
                    ),
                ),
            ]
            &&& reached(step, first, answers) == TurnModel::<OperatorPoint, ()>::Done(seq![], ())
        }),
{
    reveal_with_fuel(events, 2);
    reveal_with_fuel(reached, 2);
}

/// The secrets are made of the user, the token and the key file, whole, and applied as they were
/// made: the token is handed over on the input, and the key is stored under the name of its public
/// key.
#[verifier::rlimit(50)]
pub proof fn the_secrets_are_applied(
    aws: AwsContextModel,
    answers: Seq<ReplyModel>,
    token: Seq<u8>,
    key: Seq<u8>,
)
    requires
        answers.len() == 5,
        answers[0] matches Reply::Ended(
            Ending::Exited { success, output, .. },
        ) && success && output == token,
        succeeded(answers[1]),
        succeeded(answers[2]),
        answers[3] matches Reply::Ended(
            Ending::Exited { success, output, .. },
        ) && success && output == key,
        succeeded(answers[4]),
    ensures
        ({
            let step = |at: SecretsPoint, reply: ReplyModel| secrets_turn(aws, at, reply);
            let first = secrets_turn(aws, SecretsPoint::Start, Reply::Begin);
            &&& events(step, first, answers) == seq![
                Event::Told(">>> Creating GitHub PAT credentials secret in flux-system..."@),
                Event::Asked(
                    Action::CaptureWithStdin(
                        command(
                            "kubectl"@,
                            seq![
                                "create"@,
                                "secret"@,
                                "generic"@,
                                "flux-github-pat"@,
                                "--namespace"@,
                                "flux-system"@,
                                "--from-literal"@,
                                "username="@ + aws.github_user,
                                "--from-file"@,
                                "password=/dev/stdin"@,
                                "--dry-run=client"@,
                                "-o"@,
                                "yaml"@,
                            ],
                        ),
                        aws.github_token,
                    ),
                ),
                Event::Asked(
                    Action::RunWithStdin(
                        command("kubectl"@, seq!["apply"@, "-f"@, "-"@]),
                        decoded(token),
                    ),
                ),
                Event::Told(">>> Creating sops-age decryption secret in flux-system..."@),
                Event::Asked(
                    Action::Run(
                        command(
                            "kubectl"@,
                            seq![
                                "delete"@,
                                "secret"@,
                                "sops-age"@,
                                "-n"@,
                                "flux-system"@,
                                "--ignore-not-found"@,
                            ],
                        ),
                    ),
                ),
                Event::Asked(
                    Action::Capture(
                        command(
                            "kubectl"@,
                            seq![
                                "create"@,
                                "secret"@,
                                "generic"@,
                                "sops-age"@,
                                "--namespace"@,
                                "flux-system"@,
                                "--from-file"@,
                                "keys."@ + aws.age_pubkey + ".agekey="@ + aws.age_key_file,
                                "--dry-run=client"@,
                                "-o"@,
                                "yaml"@,
                            ],
                        ),
                    ),
                ),
                Event::Asked(
                    Action::RunWithStdin(
                        command("kubectl"@, seq!["apply"@, "-f"@, "-"@]),
                        decoded(key),
                    ),
                ),
            ]
            &&& reached(step, first, answers) == TurnModel::<SecretsPoint, ()>::Done(seq![], ())
        }),
{
    reveal_with_fuel(events, 6);
    reveal_with_fuel(reached, 6);
}

/// The installation of Flux that syncs a repository, as Helm sees it.
pub open spec fn repository_sync(aws: AwsContextModel, config: Seq<char>) -> CallModel {
    command(
        "helm"@,
        seq![
            "upgrade"@,
            "--install"@,
            "flux"@,
            "oci://ghcr.io/controlplaneio-fluxcd/charts/flux-instance"@,
            "--namespace"@,
            "flux-system"@,
            "--wait=legacy"@,
            "--timeout"@,
            "10m"@,
            "--set"@,
            "instance.cluster.type=kubernetes"@,
            "--set"@,
            "instance.cluster.size=small"@,
            "--set"@,
            "instance.cluster.multitenant=false"@,
            "--set"@,
            "instance.cluster.networkPolicy=true"@,
            "--set"@,
            "instance.cluster.domain=cluster.local"@,
            "--registry-config"@,
            config,
            "--set"@,
            "instance.sync.kind=GitRepository"@,
            "--set"@,
            "instance.sync.url="@ + aws.git_repo_url,
            "--set"@,
            "instance.sync.ref=refs/heads/main"@,
            "--set"@,
            "instance.sync.path=mgmt/aws"@,
            "--set"@,
            "instance.sync.pullSecret=flux-github-pat"@,
        ],
    )
}

/// The installation of Flux that syncs an artifact of the local registry, as Helm sees it.
pub open spec fn artifact_sync(cli: CliModel, config: Seq<char>) -> CallModel {
    command(
        "helm"@,
        seq![
            "upgrade"@,
            "--install"@,
            "flux"@,
            "oci://ghcr.io/controlplaneio-fluxcd/charts/flux-instance"@,
            "--namespace"@,
            "flux-system"@,
            "--wait=legacy"@,
            "--timeout"@,
            "10m"@,
            "--set"@,
            "instance.cluster.type=kubernetes"@,
            "--set"@,
            "instance.cluster.size=small"@,
            "--set"@,
            "instance.cluster.multitenant=false"@,
            "--set"@,
            "instance.cluster.networkPolicy=true"@,
            "--set"@,
            "instance.cluster.domain=cluster.local"@,
            "--registry-config"@,
            config,
            "--set"@,
            "instance.sync.kind=OCIRepository"@,
            "--set"@,
            "instance.sync.url=oci://"@ + "knr-registry"@ + ":5000/"@ + cli.oci_repository,
            "--set"@,
            "instance.sync.ref="@ + cli.oci_tag,
            "--set"@,
            "instance.sync.path=mgmt/local-host"@,
            "--set-json"@,
            "instance.kustomize.patches=[{\"patch\":\"- op: add\\n  path: /spec/insecure\\n  value: true\",\"target\":{\"kind\":\"OCIRepository\"}}]"@,
        ],
    )
}

/// On AWS, Flux syncs the main branch of the repository, with the secret that holds the token. It
/// is waited for, and the controllers too, which may take longer than that.
pub proof fn flux_syncs_the_repository(
    cli: CliModel,
    aws: AwsContextModel,
    config: Seq<char>,
    answers: Seq<ReplyModel>,
)
    requires
        answers.len() == 3,
        succeeded(answers[0]),
        succeeded(answers[1]),
    ensures
        ({
            let step = |at: InstancePoint, reply: ReplyModel| instance_turn(
                cli,
                Some(aws),
                config,
                at,
                reply,
            );
            let first = instance_turn(cli, Some(aws), config, InstancePoint::Start, Reply::Begin);
            &&& events(step, first, answers) == seq![
                Event::Told(">>> Installing FluxInstance via Helm..."@),
                Event::Asked(Action::Run(repository_sync(aws, config))),
                Event::Told(">>> Waiting for FluxInstance reconciliation to complete..."@),
                Event::Asked(
                    Action::Run(
                        command(
                            "kubectl"@,
                            seq![
                                "wait"@,
                                "fluxinstance/flux"@,
                                "--namespace"@,
                                "flux-system"@,
                                "--for=condition=Ready"@,
                                "--timeout=10m"@,
                            ],
                        ),
                    ),
                ),
                Event::Told(">>> Waiting for Flux controllers to be ready..."@),
                Event::Asked(
                    Action::Run(
                        command(
                            "kubectl"@,
                            seq![
                                "wait"@,
                                "--namespace"@,
                                "flux-system"@,
                                "--for=condition=ready"@,
                                "pod"@,
                                "--selector=app.kubernetes.io/part-of=flux"@,
                                "--timeout=90s"@,
                            ],
                        ),
                    ),
                ),
            ]
            &&& reached(step, first, answers) == TurnModel::<InstancePoint, ()>::Done(seq![], ())
        }),
{
    assert(install_instance(cli, Some(aws), config) =~= repository_sync(aws, config));
    reveal_with_fuel(events, 4);
    reveal_with_fuel(reached, 4);
}

/// On the local host, Flux syncs the artifact of the settings from the local registry.
pub proof fn flux_syncs_the_artifact(cli: CliModel, config: Seq<char>, answers: Seq<ReplyModel>)
    requires
        answers.len() == 3,
        succeeded(answers[0]),
        succeeded(answers[1]),
    ensures
        ({
            let step = |at: InstancePoint, reply: ReplyModel| instance_turn(
                cli,
                None,
                config,
                at,
                reply,
            );
            let first = instance_turn(cli, None, config, InstancePoint::Start, Reply::Begin);
            &&& events(step, first, answers) == seq![
                Event::Told(">>> Installing FluxInstance via Helm..."@),
                Event::Asked(Action::Run(artifact_sync(cli, config))),
                Event::Told(">>> Waiting for FluxInstance reconciliation to complete..."@),
                Event::Asked(
                    Action::Run(
                        command(
                            "kubectl"@,
                            seq![
                                "wait"@,
                                "fluxinstance/flux"@,
                                "--namespace"@,
                                "flux-system"@,
                                "--for=condition=Ready"@,
                                "--timeout=10m"@,
                            ],
                        ),
                    ),
                ),
                Event::Told(">>> Waiting for Flux controllers to be ready..."@),
                Event::Asked(
                    Action::Run(
                        command(
                            "kubectl"@,
                            seq![
                                "wait"@,
                                "--namespace"@,
                                "flux-system"@,
                                "--for=condition=ready"@,
                                "pod"@,
                                "--selector=app.kubernetes.io/part-of=flux"@,
                                "--timeout=90s"@,
                            ],
                        ),
                    ),
                ),
            ]
            &&& reached(step, first, answers) == TurnModel::<InstancePoint, ()>::Done(seq![], ())
        }),
{
    assert(install_instance(cli, None, config) =~= artifact_sync(cli, config));
    reveal_with_fuel(events, 4);
    reveal_with_fuel(reached, 4);
}

/// The registry configuration is an empty object, in a file of its own whose path is handed on.
pub proof fn the_registry_configuration_is_empty(path: Seq<char>, answers: Seq<ReplyModel>)
    requires
        answers.len() == 2,
        answers[0] == Reply::<Seq<char>, Seq<u8>>::Text(Ok(path)),
        answers[1] == Reply::<Seq<char>, Seq<u8>>::Finished(Ok(())),
    ensures
        ({
            let step = |at: ConfigPointModel, reply: ReplyModel| config_turn(at, reply);
            let first = config_turn(ConfigPoint::Start, Reply::Begin);
            &&& events(step, first, answers) == seq![
                Event::Asked(Action::CreateTemp),
                Event::Asked(Action::WriteTemp { path, contents: "{}\n"@ }),
            ]
            &&& reached(step, first, answers) == TurnModel::<ConfigPointModel, Seq<char>>::Done(
                seq![],
                path,
            )
        }),
{
    reveal_with_fuel(events, 3);
    reveal_with_fuel(reached, 3);
}

/// Without a file there is no configuration, and the bootstrap fails with the cause.
pub proof fn no_file_no_configuration(cause: Seq<char>)
    ensures
        config_turn(ConfigPoint::Made, Reply::Text(Err(cause))) == TurnModel::<
            ConfigPointModel,
            Seq<char>,
        >::Fail(seq![], Failure::RegistryConfigNotCreated(cause)),
{
}

} // verus!
