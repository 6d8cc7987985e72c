//! The local container registry, and the first artifact in it.

use crate::cli::{Cli, CliModel};
use crate::cluster::{apply_call, apply_manifest, REGISTRY_NAME};
use crate::decimal::{numeral, write_number};
use crate::failure::Failure;
use crate::outside::{decoded, is_success, success_code};
use crate::process::{
    after, call, capture, capture_lossy, no_notes, outcome, output_text, plain_call, progress,
    progress_notes, run,
};
use crate::protocol::{
    precede, preceded, Action, Call, CallModel, Reply, ReplyModel, Turn, TurnModel, HTTP_LIMIT,
};
use crate::text::{has_entry, lists, strings};
use vstd::prelude::*;

verus! {

/// How far setting up the registry has come.
#[derive(Copy, Clone, Debug, PartialEq, Eq, Structural)]
pub enum RegistryPoint {
    Start,
    /// Asking for the container, whether it runs or not.
    Listed,
    /// Creating it.
    Created,
    /// Asking whether it runs.
    RunningListed,
    /// Starting it again.
    Restarted,
    /// Requesting its page; so many retries remain.
    Probed(u32),
    /// Sleeping after a request that failed; so many retries remain.
    Paused(u32),
    /// Making the manifest that tells the cluster about it.
    ConfigMade,
    /// Applying that manifest.
    ConfigApplied,
    /// Publishing the artifact.
    Published,
}

impl View for RegistryPoint {
    type V = RegistryPoint;

    open spec fn view(&self) -> RegistryPoint {
        *self
    }
}

/// What the container engine filters its list by.
pub open spec fn name_filter() -> Seq<char> {
    "name=^"@ + REGISTRY_NAME@ + "$"@
}

/// Where the registry is found on the host.
pub open spec fn host_address(cli: CliModel) -> Seq<char> {
    "localhost:"@ + numeral(cli.registry_port as nat)
}

/// Lists the container, whether it runs or not.
pub open spec fn list_all(engine: Seq<char>) -> CallModel {
    plain_call(
        engine,
        seq!["ps"@, "-a"@, "--filter"@, name_filter(), "--format"@, "{{.Names}}"@],
    )
}

/// Lists the container where it runs.
pub open spec fn list_running(engine: Seq<char>) -> CallModel {
    plain_call(engine, seq!["ps"@, "--filter"@, name_filter(), "--format"@, "{{.Names}}"@])
}

/// Creates the container.
pub open spec fn create_registry(cli: CliModel, engine: Seq<char>) -> CallModel {
    plain_call(
        engine,
        seq![
            "run"@,
            "-d"@,
            "--name"@,
            REGISTRY_NAME@,
            "--network"@,
            "kind"@,
            "-p"@,
            "127.0.0.1:"@ + numeral(cli.registry_port as nat) + ":5000"@,
            "registry:2"@,
        ],
    )
}

/// Starts the container again.
pub open spec fn start_registry(engine: Seq<char>) -> CallModel {
    plain_call(engine, seq!["start"@, REGISTRY_NAME@])
}

/// Makes the manifest that tells the cluster about the registry.
pub open spec fn make_config() -> CallModel {
    plain_call(
        "kubectl"@,
        seq![
            "create"@,
            "configmap"@,
            "local-registry-config"@,
            "--from-literal"@,
            "registry-url="@ + REGISTRY_NAME@ + ":5000"@,
            "--namespace"@,
            "kube-system"@,
            "--dry-run=client"@,
            "-o"@,
            "yaml"@,
        ],
    )
}

/// Publishes the artifact, with the knobs that also the publishing task reads.
pub open spec fn publish(cli: CliModel) -> CallModel {
    CallModel {
        program: "mise"@,
        args: seq!["-E"@, "local-host"@, "run"@, "oci-push"@],
        env: seq![
            ("REGISTRY_PORT"@, numeral(cli.registry_port as nat)),
            ("OCI_REPOSITORY"@, cli.oci_repository),
            ("OCI_TAG"@, cli.oci_tag),
        ],
    }
}

/// Requests the page of the registry.
pub open spec fn probing(cli: CliModel, retries: u32) -> TurnModel<RegistryPoint, ()> {
    TurnModel::Ask(
        RegistryPoint::Probed(retries),
        seq![],
        Action::Get { url: "http://"@ + host_address(cli) + "/v2/"@, limit: HTTP_LIMIT },
    )
}

/// The container is there: `line` says how it came to run. Its page is requested.
pub open spec fn running(cli: CliModel, line: Seq<char>) -> TurnModel<RegistryPoint, ()> {
    preceded(
        progress(
            seq![
                line + host_address(cli),
                ">>> Waiting for local registry API at "@ + host_address(cli) + "..."@,
            ],
        ),
        probing(cli, cli.registry_ready_retries),
    )
}

/// Whether the registry has answered its page with success.
pub open spec fn ready(reply: ReplyModel) -> bool {
    reply matches Reply::Status(Some(code)) && success_code(code)
}

/// Setting up the local registry: what follows at each point.
pub open spec fn registry_turn(
    cli: CliModel,
    engine: Seq<char>,
    at: RegistryPoint,
    reply: ReplyModel,
) -> TurnModel<RegistryPoint, ()> {
    match at {
        RegistryPoint::Start => TurnModel::Ask(
            RegistryPoint::Listed,
            progress(seq![">>> Bootstrapping local container registry..."@]),
            Action::CaptureLossy(list_all(engine)),
        ),
        RegistryPoint::Listed => if lists(output_text(reply), REGISTRY_NAME@) {
            TurnModel::Ask(
                RegistryPoint::RunningListed,
                seq![],
                Action::CaptureLossy(list_running(engine)),
            )
        } else {
            TurnModel::Ask(
                RegistryPoint::Created,
                progress(seq!["    Creating registry container '"@ + REGISTRY_NAME@ + "'..."@]),
                Action::Capture(create_registry(cli, engine)),
            )
        },
        RegistryPoint::Created => after(
            create_registry(cli, engine),
            reply,
            running(cli, "    Registry created and running: "@),
        ),
        RegistryPoint::RunningListed => if lists(output_text(reply), REGISTRY_NAME@) {
            running(cli, "    Registry already running: "@)
        } else {
            TurnModel::Ask(
                RegistryPoint::Restarted,
                progress(seq!["    Restarting stopped registry..."@]),
                Action::Capture(start_registry(engine)),
            )
        },
        RegistryPoint::Restarted => after(
            start_registry(engine),
            reply,
            running(cli, "    Registry restarted: "@),
        ),
        RegistryPoint::Probed(retries) => if ready(reply) {
            TurnModel::Ask(RegistryPoint::ConfigMade, seq![], Action::Capture(make_config()))
        } else if retries == 0 {
            TurnModel::Fail(seq![], Failure::RegistryNotReady(cli.registry_port))
        } else {
            TurnModel::Ask(RegistryPoint::Paused((retries - 1) as u32), seq![], Action::Sleep(1))
        },
        RegistryPoint::Paused(retries) => probing(cli, retries),
        RegistryPoint::ConfigMade => match outcome(make_config(), reply) {
            Ok(manifest) => TurnModel::Ask(
                RegistryPoint::ConfigApplied,
                seq![],
                Action::RunWithStdin(apply_manifest(), decoded(manifest)),
            ),
            Err(failure) => TurnModel::Fail(seq![], failure),
        },
        RegistryPoint::ConfigApplied => after(
            apply_manifest(),
            reply,
            TurnModel::Ask(
                RegistryPoint::Published,
                progress(
                    seq![">>> Publishing initial OCI artifact from the local Git checkout..."@],
                ),
                Action::Run(publish(cli)),
            ),
        ),
        RegistryPoint::Published => after(
            publish(cli),
            reply,
            TurnModel::Done(
                progress(
                    seq![
                        ">>> Initial OCI artifact is available at oci://"@ + host_address(cli)
                            + "/"@ + cli.oci_repository + ":"@ + cli.oci_tag,
                    ],
                ),
                (),
            ),
        ),
    }
}

fn filter() -> (r: String)
    ensures
        r@ == name_filter(),
{
    "name=^".to_string().concat(REGISTRY_NAME).concat("$")
}

fn address(cli: &Cli<String>) -> (r: String)
    ensures
        r@ == host_address(cli@),
{
    "localhost:".to_string().concat(write_number(cli.registry_port as u64).as_str())
}

fn all_call(engine: &str) -> (r: Call)
    ensures
        r@ == list_all(engine@),
{
    call(engine, &["ps", "-a", "--filter", filter().as_str(), "--format", "{{.Names}}"])
}

fn running_call(engine: &str) -> (r: Call)
    ensures
        r@ == list_running(engine@),
{
    call(engine, &["ps", "--filter", filter().as_str(), "--format", "{{.Names}}"])
}

fn create_call(cli: &Cli<String>, engine: &str) -> (r: Call)
    ensures
        r@ == create_registry(cli@, engine@),
{
    let published = "127.0.0.1:".to_string().concat(
        write_number(cli.registry_port as u64).as_str(),
    ).concat(":5000");
    call(
        engine,
        &[
            "run",
            "-d",
            "--name",
            REGISTRY_NAME,
            "--network",
            "kind",
            "-p",
            published.as_str(),
            "registry:2",
        ],
    )
}

fn start_call(engine: &str) -> (r: Call)
    ensures
        r@ == start_registry(engine@),
{
    call(engine, &["start", REGISTRY_NAME])
}

fn config_call() -> (r: Call)
    ensures
        r@ == make_config(),
{
    let literal = "registry-url=".to_string().concat(REGISTRY_NAME).concat(":5000");
    call(
        "kubectl",
        &[
            "create",
            "configmap",
            "local-registry-config",
            "--from-literal",
            literal.as_str(),
            "--namespace",
            "kube-system",
            "--dry-run=client",
            "-o",
            "yaml",
        ],
    )
}

fn publish_call(cli: &Cli<String>) -> (r: Call)
    ensures
        r@ == publish(cli@),
{
    let mut env: Vec<(String, String)> = Vec::new();
    env.push(("REGISTRY_PORT".to_string(), write_number(cli.registry_port as u64)));
    env.push(("OCI_REPOSITORY".to_string(), cli.oci_repository.clone()));
    env.push(("OCI_TAG".to_string(), cli.oci_tag.clone()));
    Call {
        program: "mise".to_string(),
        args: strings(&["-E", "local-host", "run", "oci-push"]),
        env,
    }
}

fn probe(cli: &Cli<String>, retries: u32) -> (r: Turn<RegistryPoint, ()>)
    ensures
        r@ == probing(cli@, retries),
{
    Turn::Ask(
        RegistryPoint::Probed(retries),
        no_notes(),
        Action::Get {
            url: "http://".to_string().concat(address(cli).as_str()).concat("/v2/"),
            limit: HTTP_LIMIT,
        },
    )
}

fn await_registry(cli: &Cli<String>, line: &str) -> (r: Turn<RegistryPoint, ()>)
    ensures
        r@ == running(cli@, line@),
{
    let state = line.to_string().concat(address(cli).as_str());
    let wait = ">>> Waiting for local registry API at ".to_string().concat(
        address(cli).as_str(),
    ).concat("...");
    precede(
        progress_notes(&[state.as_str(), wait.as_str()]),
        probe(cli, cli.registry_ready_retries),
    )
}

fn is_ready(reply: &Reply<String, Vec<u8>>) -> (r: bool)
    ensures
        r == ready(reply@),
{
    match reply {
        Reply::Status(Some(code)) => is_success(*code),
        _ => false,
    }
}

/// Sets up the local registry and publishes the first artifact in it: from the point that was
/// reached and the last answer to what follows.
pub fn bootstrap_local_registry(
    cli: &Cli<String>,
    engine: &str,
    at: RegistryPoint,
    reply: &Reply<String, Vec<u8>>,
) -> (r: Turn<RegistryPoint, ()>)
    ensures
        r@ == registry_turn(cli@, engine@, at, reply@),
{
    match at {
        RegistryPoint::Start => Turn::Ask(
            RegistryPoint::Listed,
            progress_notes(&[">>> Bootstrapping local container registry..."]),
            Action::CaptureLossy(all_call(engine)),
        ),
        RegistryPoint::Listed => if has_entry(capture_lossy(reply).as_str(), REGISTRY_NAME) {
            Turn::Ask(
                RegistryPoint::RunningListed,
                no_notes(),
                Action::CaptureLossy(running_call(engine)),
            )
        } else {
            let line = "    Creating registry container '".to_string().concat(
                REGISTRY_NAME,
            ).concat("'...");
            Turn::Ask(
                RegistryPoint::Created,
                progress_notes(&[line.as_str()]),
                Action::Capture(create_call(cli, engine)),
            )
        },
        RegistryPoint::Created => match run(create_call(cli, engine), reply) {
            Ok(()) => await_registry(cli, "    Registry created and running: "),
            Err(failure) => Turn::Fail(no_notes(), failure),
        },
        RegistryPoint::RunningListed => if has_entry(
            capture_lossy(reply).as_str(),
            REGISTRY_NAME,
        ) {
            await_registry(cli, "    Registry already running: ")
        } else {
            Turn::Ask(
                RegistryPoint::Restarted,
                progress_notes(&["    Restarting stopped registry..."]),
                Action::Capture(start_call(engine)),
            )
        },
        RegistryPoint::Restarted => match run(start_call(engine), reply) {
            Ok(()) => await_registry(cli, "    Registry restarted: "),
            Err(failure) => Turn::Fail(no_notes(), failure),
        },
        RegistryPoint::Probed(retries) => if is_ready(reply) {
            Turn::Ask(RegistryPoint::ConfigMade, no_notes(), Action::Capture(config_call()))
        } else if retries == 0 {
            Turn::Fail(no_notes(), Failure::RegistryNotReady(cli.registry_port))
        } else {
            Turn::Ask(RegistryPoint::Paused(retries - 1), no_notes(), Action::Sleep(1))
        },
        RegistryPoint::Paused(retries) => probe(cli, retries),
        RegistryPoint::ConfigMade => match capture(config_call(), reply) {
            Ok(manifest) => Turn::Ask(
                RegistryPoint::ConfigApplied,
                no_notes(),
                Action::RunWithStdin(apply_call(), manifest),
            ),
            Err(failure) => Turn::Fail(no_notes(), failure),
        },
        RegistryPoint::ConfigApplied => match run(apply_call(), reply) {
            Ok(()) => Turn::Ask(
                RegistryPoint::Published,
                progress_notes(
                    &[">>> Publishing initial OCI artifact from the local Git checkout..."],
                ),
                Action::Run(publish_call(cli)),
            ),
            Err(failure) => Turn::Fail(no_notes(), failure),
        },
        RegistryPoint::Published => match run(publish_call(cli), reply) {
            Ok(()) => {
                let line = ">>> Initial OCI artifact is available at oci://".to_string().concat(
                    address(cli).as_str(),
                ).concat("/").concat(cli.oci_repository.as_str()).concat(":").concat(
                    cli.oci_tag.as_str(),
                );
                Turn::Done(progress_notes(&[line.as_str()]), ())
            },
            Err(failure) => Turn::Fail(no_notes(), failure),
        },
    }
}

/// The first of these answers that shows the registry ready, or their number where none does.
pub open spec fn first_ready(answers: Seq<ReplyModel>) -> nat
    decreases answers.len(),
{
    if answers.len() == 0 || ready(answers[0]) {
        0
    } else {
        1 + first_ready(answers.skip(1))
    }
}

/// Where the registry stands when its page was answered like `answers`, one after the other, from
/// `turn` on; and the seconds spent asleep.
pub open spec fn probed(
    cli: CliModel,
    engine: Seq<char>,
    turn: TurnModel<RegistryPoint, ()>,
    answers: Seq<ReplyModel>,
) -> (TurnModel<RegistryPoint, ()>, nat)
    decreases answers.len(),
{
    match turn {
        TurnModel::Ask(RegistryPoint::Probed(retries), _, _) => if answers.len() == 0 {
            (turn, 0)
        } else {
            match registry_turn(cli, engine, RegistryPoint::Probed(retries), answers[0]) {
                TurnModel::Ask(pause, _, Action::Sleep(seconds)) => {
                    let (end, more) = probed(
                        cli,
                        engine,
                        registry_turn(cli, engine, pause, Reply::Done),
                        answers.skip(1),
                    );
                    (end, seconds as nat + more)
                },
                next => (next, 0),
            }
        },
        _ => (turn, 0),
    }
}

/// The registry is requested until it is ready, with a second after each request that fails. Its
/// page is requested once, and again for each retry; where none of these requests succeeds, the
/// bootstrap fails.
pub proof fn registry_is_retried(
    cli: CliModel,
    engine: Seq<char>,
    retries: u32,
    answers: Seq<ReplyModel>,
)
    requires
        answers.len() > retries,
    ensures
        ({
            let (end, seconds) = probed(cli, engine, probing(cli, retries), answers);
            if first_ready(answers) <= retries {
                &&& end == TurnModel::<RegistryPoint, ()>::Ask(
                    RegistryPoint::ConfigMade,
                    seq![],
                    Action::Capture(make_config()),
                )
                &&& seconds == first_ready(answers)
            } else {
                &&& end == TurnModel::<RegistryPoint, ()>::Fail(
                    seq![],
                    Failure::RegistryNotReady(cli.registry_port),
                )
                &&& seconds == retries
            }
        }),
    decreases retries,
{
    if !ready(answers[0]) && retries > 0 {
        registry_is_retried(cli, engine, (retries - 1) as u32, answers.skip(1));
    }
}

} // verus!
