//! Watching the local host until the management and the workload cluster have reconciled.

use crate::cli::{optional_text, Cli, CliModel};
use crate::decimal::{all_digits, is_numeral};
use crate::failure::Failure;
use crate::outside::decoded;
use crate::process::{
    after, call, capture, check_written, no_notes, outcome, plain_call, problem, problem_note,
    progress, progress_notes, run, run_quiet, succeeded, written,
};
use crate::protocol::{
    precede, preceded, Action, Call, CallModel, Reply, ReplyModel, Turn, TurnModel,
};
use crate::text::{
    after_last, bare, blank, is_white_space, last_field, line_feeds_end_lines, lines, split_lines,
    the_last_field_is_whole, trim, trimmed, trimming_leaves_the_inside,
};
use vstd::prelude::*;

verus! {

/// How far waiting for a resource has come. The number says how many attempts remain.
#[derive(Copy, Clone, Debug, PartialEq, Eq, Structural)]
pub enum Poll {
    /// Not yet begun.
    Start(u32),
    /// Looking for the resource.
    Trying(u32),
    /// Sleeping after an attempt that found nothing.
    Pausing(u32),
}

impl View for Poll {
    type V = Poll;

    open spec fn view(&self) -> Poll {
        *self
    }
}

/// The next attempt to find a resource, where any remain.
pub open spec fn attempt(get: CallModel, attempts: u32) -> TurnModel<Poll, bool> {
    if attempts == 0 {
        TurnModel::Done(seq![], false)
    } else {
        TurnModel::Ask(Poll::Trying((attempts - 1) as u32), seq![], Action::RunQuiet(get))
    }
}

/// Waiting for a resource: attempts to get it, with two seconds after each that fails.
pub open spec fn wait_turn(get: CallModel, at: Poll, reply: ReplyModel) -> TurnModel<Poll, bool> {
    match at {
        Poll::Start(attempts) => attempt(get, attempts),
        Poll::Trying(attempts) => if succeeded(reply) {
            TurnModel::Done(seq![], true)
        } else {
            TurnModel::Ask(Poll::Pausing(attempts), seq![], Action::Sleep(2))
        },
        Poll::Pausing(attempts) => attempt(get, attempts),
    }
}

/// Waits for a resource: gets it until that succeeds, or no attempts remain.
pub fn wait_for_resource(get: Call, at: Poll, reply: &Reply<String, Vec<u8>>) -> (r: Turn<
    Poll,
    bool,
>)
    ensures
        r@ == wait_turn(get@, at, reply@),
{
    match at {
        Poll::Start(attempts) | Poll::Pausing(attempts) => if attempts == 0 {
            Turn::Done(no_notes(), false)
        } else {
            Turn::Ask(Poll::Trying(attempts - 1), no_notes(), Action::RunQuiet(get))
        },
        Poll::Trying(attempts) => if run_quiet(reply) {
            Turn::Done(no_notes(), true)
        } else {
            Turn::Ask(Poll::Pausing(attempts), no_notes(), Action::Sleep(2))
        },
    }
}

/// The port in the first line of what the container engine tells about a published port.
pub open spec fn published_port(output: Seq<char>) -> Option<Seq<char>> {
    let found = lines(output);
    if found.len() == 0 {
        None
    } else {
        let port = trimmed(after_last(found[0], ':'));
        if is_numeral(port) {
            Some(port)
        } else {
            None
        }
    }
}

/// Finds the port in the first line of what the container engine tells about a published port.
pub fn find_port(output: &str) -> (r: Option<String>)
    ensures
        match r {
            Some(port) => published_port(output@) == Some(port@),
            None => published_port(output@) is None,
        },
{
    let found = split_lines(output);
    if found.len() == 0 {
        return None;
    }
    let port = trim(last_field(found[0], ':'));
    if all_digits(port) {
        Some(port.to_string())
    } else {
        None
    }
}

/// How far watching has come. A text is the path of the workload cluster's kubeconfig, a temporary
/// file that is there at the points that hold its path.
#[derive(Debug, PartialEq, Eq)]
#[verifier::ext_equal]
pub enum WatchPoint<S, C> {
    Start,
    /// Waiting for the Kustomization of the management cluster to appear.
    ManagementAppears(Poll),
    /// It did not appear: showing what there is.
    ManagementMissing,
    /// Waiting for it to be ready.
    ManagementReady,
    /// It did not become ready in time: showing what there is.
    ManagementLate,
    /// Making a file for the kubeconfig of the workload cluster.
    KubeconfigMade,
    /// Asking for the kubeconfig.
    KubeconfigFetched(S),
    /// Writing it down.
    KubeconfigWritten(S),
    /// Asking for the port of the workload cluster.
    PortFound(S),
    /// Putting that port into the kubeconfig.
    PortSet { kubeconfig: S, port: S },
    /// Waiting for the Kustomization of the workload cluster to appear.
    WorkloadAppears(S, Poll),
    /// It did not appear: showing what there is.
    WorkloadMissing(S),
    /// Waiting for the Flux controllers.
    ControllersReady(S),
    /// Starting to follow the Flux errors.
    LogsFollowed(S),
    /// Waiting for the Kustomization of the workload cluster to be ready.
    WorkloadReady(S),
    /// It did not become ready in time: showing what there is.
    WorkloadLate(S),
    /// Cleaning up after success.
    Released,
    /// Cleaning up after this failure.
    Abandoned(Failure<S, C>),
}

pub type WatchPointModel = WatchPoint<Seq<char>, CallModel>;

impl View for WatchPoint<String, Call> {
    type V = WatchPointModel;

    open spec fn view(&self) -> WatchPointModel {
        match self {
            WatchPoint::Start => WatchPoint::Start,
            WatchPoint::ManagementAppears(poll) => WatchPoint::ManagementAppears(*poll),
            WatchPoint::ManagementMissing => WatchPoint::ManagementMissing,
            WatchPoint::ManagementReady => WatchPoint::ManagementReady,
            WatchPoint::ManagementLate => WatchPoint::ManagementLate,
            WatchPoint::KubeconfigMade => WatchPoint::KubeconfigMade,
            WatchPoint::KubeconfigFetched(path) => WatchPoint::KubeconfigFetched(path@),
            WatchPoint::KubeconfigWritten(path) => WatchPoint::KubeconfigWritten(path@),
            WatchPoint::PortFound(path) => WatchPoint::PortFound(path@),
            WatchPoint::PortSet { kubeconfig, port } => WatchPoint::PortSet {
                kubeconfig: kubeconfig@,
                port: port@,
            },
            WatchPoint::WorkloadAppears(path, poll) => WatchPoint::WorkloadAppears(path@, *poll),
            WatchPoint::WorkloadMissing(path) => WatchPoint::WorkloadMissing(path@),
            WatchPoint::ControllersReady(path) => WatchPoint::ControllersReady(path@),
            WatchPoint::LogsFollowed(path) => WatchPoint::LogsFollowed(path@),
            WatchPoint::WorkloadReady(path) => WatchPoint::WorkloadReady(path@),
            WatchPoint::WorkloadLate(path) => WatchPoint::WorkloadLate(path@),
            WatchPoint::Released => WatchPoint::Released,
            WatchPoint::Abandoned(failure) => WatchPoint::Abandoned(failure@),
        }
    }
}

/// Gets the Kustomization of the management cluster.
pub open spec fn get_management() -> CallModel {
    plain_call(
        "kubectl"@,
        seq!["get"@, "kustomization"@, "flux-apps"@, "--namespace"@, "flux-system"@],
    )
}

/// Shows the Kustomizations of the management cluster.
pub open spec fn show_management() -> CallModel {
    plain_call("flux"@, seq!["get"@, "kustomizations"@])
}

/// Waits for the Kustomization of the management cluster.
pub open spec fn wait_management(timeout: Seq<char>) -> CallModel {
    plain_call(
        "kubectl"@,
        seq![
            "wait"@,
            "kustomization/flux-apps"@,
            "--namespace"@,
            "flux-system"@,
            "--for=condition=Ready"@,
            "--timeout="@ + timeout,
        ],
    )
}

/// Prints the kubeconfig of the workload cluster.
pub open spec fn get_kubeconfig() -> CallModel {
    plain_call("clusterctl"@, seq!["get"@, "kubeconfig"@, "local-workload"@])
}

/// Prints where the API server of the workload cluster is published.
pub open spec fn get_port(engine: Seq<char>) -> CallModel {
    plain_call(engine, seq!["port"@, "local-workload-lb"@, "6443/tcp"@])
}

/// Puts the address of the workload cluster into its kubeconfig.
pub open spec fn set_server(kubeconfig: Seq<char>, port: Seq<char>) -> CallModel {
    plain_call(
        "kubectl"@,
        seq![
            "config"@,
            "set-cluster"@,
            "local-workload"@,
            "--server=https://127.0.0.1:"@ + port,
            "--kubeconfig="@ + kubeconfig,
        ],
    )
}

/// Gets the Kustomization of the workload cluster.
pub open spec fn get_workload(kubeconfig: Seq<char>) -> CallModel {
    plain_call(
        "kubectl"@,
        seq![
            "--kubeconfig"@,
            kubeconfig,
            "get"@,
            "kustomization"@,
            "flux-system"@,
            "--namespace"@,
            "flux-system"@,
        ],
    )
}

/// Shows the pods of Flux in the workload cluster.
pub open spec fn show_pods(kubeconfig: Seq<char>) -> CallModel {
    plain_call(
        "kubectl"@,
        seq!["--kubeconfig"@, kubeconfig, "get"@, "pods"@, "--namespace"@, "flux-system"@],
    )
}

/// Waits for the pods of Flux in the workload cluster.
pub open spec fn wait_pods(kubeconfig: Seq<char>, timeout: Seq<char>) -> CallModel {
    plain_call(
        "kubectl"@,
        seq![
            "--kubeconfig"@,
            kubeconfig,
            "wait"@,
            "pod"@,
            "--namespace"@,
            "flux-system"@,
            "--selector=app.kubernetes.io/part-of=flux"@,
            "--for=condition=Ready"@,
            "--timeout="@ + timeout,
        ],
    )
}

/// Follows the errors of Flux in the workload cluster.
pub open spec fn follow_logs(kubeconfig: Seq<char>) -> CallModel {
    plain_call(
        "flux"@,
        seq![
            "logs"@,
            "--kubeconfig"@,
            kubeconfig,
            "--all-namespaces"@,
            "--follow"@,
            "--level=error"@,
            "--since=10m"@,
        ],
    )
}

/// Waits for the Kustomization of the workload cluster.
pub open spec fn wait_workload(kubeconfig: Seq<char>, timeout: Seq<char>) -> CallModel {
    plain_call(
        "kubectl"@,
        seq![
            "--kubeconfig"@,
            kubeconfig,
            "wait"@,
            "kustomization/flux-system"@,
            "--namespace"@,
            "flux-system"@,
            "--for=condition=Ready"@,
            "--timeout="@ + timeout,
        ],
    )
}

/// Shows the Kustomizations of the workload cluster.
pub open spec fn show_workload(kubeconfig: Seq<char>) -> CallModel {
    plain_call(
        "flux"@,
        seq!["get"@, "kustomizations"@, "--kubeconfig"@, kubeconfig, "--all-namespaces"@],
    )
}

/// The number of attempts to find a Kustomization.
pub const ATTEMPTS: u32 = 60;

/// While the Kustomization of the management cluster has not appeared.
pub open spec fn management_appears(cli: CliModel, poll: Poll, reply: ReplyModel) -> TurnModel<
    WatchPointModel,
    (),
> {
    match wait_turn(get_management(), poll, reply) {
        TurnModel::Ask(poll, notes, action) => TurnModel::Ask(
            WatchPoint::ManagementAppears(poll),
            notes,
            action,
        ),
        TurnModel::Done(_, true) => TurnModel::Ask(
            WatchPoint::ManagementReady,
            progress(
                seq![
                    ">>> Waiting until the local workload cluster and Flux addons are ready..."@,
                ],
            ),
            Action::Run(wait_management(cli.local_reconcile_timeout)),
        ),
        TurnModel::Done(_, false) => TurnModel::Ask(
            WatchPoint::ManagementMissing,
            problem("ERROR: flux-apps Kustomization was not created within 2 minutes"@),
            Action::Run(show_management()),
        ),
        TurnModel::Fail(notes, failure) => TurnModel::Fail(notes, failure),
    }
}

/// While the Kustomization of the workload cluster has not appeared.
pub open spec fn workload_appears(
    cli: CliModel,
    kubeconfig: Seq<char>,
    poll: Poll,
    reply: ReplyModel,
) -> TurnModel<WatchPointModel, ()> {
    match wait_turn(get_workload(kubeconfig), poll, reply) {
        TurnModel::Ask(poll, notes, action) => TurnModel::Ask(
            WatchPoint::WorkloadAppears(kubeconfig, poll),
            notes,
            action,
        ),
        TurnModel::Done(_, true) => TurnModel::Ask(
            WatchPoint::ControllersReady(kubeconfig),
            progress(seq![">>> Waiting for workload Flux controllers to be ready..."@]),
            Action::Run(wait_pods(kubeconfig, cli.local_reconcile_timeout)),
        ),
        TurnModel::Done(_, false) => TurnModel::Ask(
            WatchPoint::WorkloadMissing(kubeconfig),
            problem("ERROR: workload Flux Kustomization was not created within 2 minutes"@),
            Action::Run(show_pods(kubeconfig)),
        ),
        TurnModel::Fail(notes, failure) => TurnModel::Fail(notes, failure),
    }
}

/// Watching the local host: what follows at each point, apart from cleaning up after a failure.
pub open spec fn watch_step(
    cli: CliModel,
    engine: Seq<char>,
    at: WatchPointModel,
    reply: ReplyModel,
) -> TurnModel<WatchPointModel, ()> {
    match at {
        WatchPoint::Start => preceded(
            progress(seq![""@, ">>> Step 5: Flux reconciliation progress"@]),
            management_appears(cli, Poll::Start(ATTEMPTS), reply),
        ),
        WatchPoint::ManagementAppears(poll) => management_appears(cli, poll, reply),
        WatchPoint::ManagementMissing => TurnModel::Fail(seq![], Failure::ManagementFluxMissing),
        WatchPoint::ManagementReady => if succeeded(reply) {
            TurnModel::Ask(
                WatchPoint::KubeconfigMade,
                progress(seq![""@, ">>> Workload cluster Flux reconciliation errors"@]),
                Action::CreateTemp,
            )
        } else {
            TurnModel::Ask(
                WatchPoint::ManagementLate,
                problem(
                    "ERROR: local-host reconciliation did not complete within "@
                        + cli.local_reconcile_timeout,
                ),
                Action::Run(show_management()),
            )
        },
        WatchPoint::ManagementLate => TurnModel::Fail(seq![], Failure::ManagementTimedOut),
        WatchPoint::KubeconfigMade => match reply {
            Reply::Text(Ok(path)) => TurnModel::Ask(
                WatchPoint::KubeconfigFetched(path),
                seq![],
                Action::Capture(get_kubeconfig()),
            ),
            Reply::Text(Err(cause)) => TurnModel::Fail(
                seq![],
                Failure::KubeconfigNotCreated(cause),
            ),
            _ => TurnModel::Fail(seq![], Failure::UnexpectedReply),
        },
        WatchPoint::KubeconfigFetched(path) => match outcome(get_kubeconfig(), reply) {
            Ok(output) => TurnModel::Ask(
                WatchPoint::KubeconfigWritten(path),
                seq![],
                Action::WriteTemp { path, contents: decoded(output) },
            ),
            Err(failure) => TurnModel::Fail(seq![], failure),
        },
        WatchPoint::KubeconfigWritten(path) => match written(reply) {
            Ok(()) => TurnModel::Ask(
                WatchPoint::PortFound(path),
                seq![],
                Action::Capture(get_port(engine)),
            ),
            Err(failure) => TurnModel::Fail(seq![], failure),
        },
        WatchPoint::PortFound(path) => match outcome(get_port(engine), reply) {
            Ok(output) => match published_port(decoded(output)) {
                Some(port) => TurnModel::Ask(
                    WatchPoint::PortSet { kubeconfig: path, port },
                    seq![],
                    Action::Capture(set_server(path, port)),
                ),
                None => TurnModel::Fail(seq![], Failure::PortUnknown),
            },
            Err(failure) => TurnModel::Fail(seq![], failure),
        },
        WatchPoint::PortSet { kubeconfig, port } => after(
            set_server(kubeconfig, port),
            reply,
            workload_appears(cli, kubeconfig, Poll::Start(ATTEMPTS), reply),
        ),
        WatchPoint::WorkloadAppears(path, poll) => workload_appears(cli, path, poll, reply),
        WatchPoint::WorkloadMissing(_) => TurnModel::Fail(seq![], Failure::WorkloadFluxMissing),
        WatchPoint::ControllersReady(path) => after(
            wait_pods(path, cli.local_reconcile_timeout),
            reply,
            TurnModel::Ask(
                WatchPoint::LogsFollowed(path),
                seq![],
                Action::Follow(follow_logs(path)),
            ),
        ),
        WatchPoint::LogsFollowed(path) => match reply {
            Reply::Finished(Ok(())) => TurnModel::Ask(
                WatchPoint::WorkloadReady(path),
                seq![],
                Action::Run(wait_workload(path, cli.local_reconcile_timeout)),
            ),
            Reply::Finished(Err(cause)) => TurnModel::Fail(seq![], Failure::LogsNotStarted(cause)),
            _ => TurnModel::Fail(seq![], Failure::UnexpectedReply),
        },
        WatchPoint::WorkloadReady(path) => if succeeded(reply) {
            TurnModel::Ask(WatchPoint::Released, seq![], Action::Release(path))
        } else {
            TurnModel::Ask(
                WatchPoint::WorkloadLate(path),
                problem(
                    "ERROR: workload reconciliation did not complete within "@
                        + cli.local_reconcile_timeout,
                ),
                Action::Run(show_workload(path)),
            )
        },
        WatchPoint::WorkloadLate(_) => TurnModel::Fail(seq![], Failure::WorkloadTimedOut),
        WatchPoint::Released => TurnModel::Done(seq![], ()),
        WatchPoint::Abandoned(failure) => TurnModel::Fail(seq![], failure),
    }
}

/// The kubeconfig of the workload cluster, where there is one.
pub open spec fn kubeconfig_of(at: WatchPointModel) -> Option<Seq<char>> {
    match at {
        WatchPoint::KubeconfigFetched(path) => Some(path),
        WatchPoint::KubeconfigWritten(path) => Some(path),
        WatchPoint::PortFound(path) => Some(path),
        WatchPoint::PortSet { kubeconfig, .. } => Some(kubeconfig),
        WatchPoint::WorkloadAppears(path, _) => Some(path),
        WatchPoint::WorkloadMissing(path) => Some(path),
        WatchPoint::ControllersReady(path) => Some(path),
        WatchPoint::LogsFollowed(path) => Some(path),
        WatchPoint::WorkloadReady(path) => Some(path),
        WatchPoint::WorkloadLate(path) => Some(path),
        _ => None,
    }
}

/// Watching the local host: what follows at each point. A failure is reported after the kubeconfig
/// was removed, where there is one.
pub open spec fn watch_turn(
    cli: CliModel,
    engine: Seq<char>,
    at: WatchPointModel,
    reply: ReplyModel,
) -> TurnModel<WatchPointModel, ()> {
    match (watch_step(cli, engine, at, reply), kubeconfig_of(at)) {
        (TurnModel::Fail(notes, failure), Some(path)) => TurnModel::Ask(
            WatchPoint::Abandoned(failure),
            notes,
            Action::Release(path),
        ),
        (turn, _) => turn,
    }
}

fn management_call() -> (r: Call)
    ensures
        r@ == get_management(),
{
    call("kubectl", &["get", "kustomization", "flux-apps", "--namespace", "flux-system"])
}

fn management_list() -> (r: Call)
    ensures
        r@ == show_management(),
{
    call("flux", &["get", "kustomizations"])
}

fn management_wait(timeout: &str) -> (r: Call)
    ensures
        r@ == wait_management(timeout@),
{
    let limit = "--timeout=".to_string().concat(timeout);
    call(
        "kubectl",
        &[
            "wait",
            "kustomization/flux-apps",
            "--namespace",
            "flux-system",
            "--for=condition=Ready",
            limit.as_str(),
        ],
    )
}

fn kubeconfig_call() -> (r: Call)
    ensures
        r@ == get_kubeconfig(),
{
    call("clusterctl", &["get", "kubeconfig", "local-workload"])
}

fn port_call(engine: &str) -> (r: Call)
    ensures
        r@ == get_port(engine@),
{
    call(engine, &["port", "local-workload-lb", "6443/tcp"])
}

fn server_call(kubeconfig: &str, port: &str) -> (r: Call)
    ensures
        r@ == set_server(kubeconfig@, port@),
{
    let server = "--server=https://127.0.0.1:".to_string().concat(port);
    let file = "--kubeconfig=".to_string().concat(kubeconfig);
    call(
        "kubectl",
        &["config", "set-cluster", "local-workload", server.as_str(), file.as_str()],
    )
}

fn workload_call(kubeconfig: &str) -> (r: Call)
    ensures
        r@ == get_workload(kubeconfig@),
{
    call(
        "kubectl",
        &[
            "--kubeconfig",
            kubeconfig,
            "get",
            "kustomization",
            "flux-system",
            "--namespace",
            "flux-system",
        ],
    )
}

fn pods_list(kubeconfig: &str) -> (r: Call)
    ensures
        r@ == show_pods(kubeconfig@),
{
    call("kubectl", &["--kubeconfig", kubeconfig, "get", "pods", "--namespace", "flux-system"])
}

fn pods_wait(kubeconfig: &str, timeout: &str) -> (r: Call)
    ensures
        r@ == wait_pods(kubeconfig@, timeout@),
{
    let limit = "--timeout=".to_string().concat(timeout);
    call(
        "kubectl",
        &[
            "--kubeconfig",
            kubeconfig,
            "wait",
            "pod",
            "--namespace",
            "flux-system",
            "--selector=app.kubernetes.io/part-of=flux",
            "--for=condition=Ready",
            limit.as_str(),
        ],
    )
}

fn logs_call(kubeconfig: &str) -> (r: Call)
    ensures
        r@ == follow_logs(kubeconfig@),
{
    call(
        "flux",
        &[
            "logs",
            "--kubeconfig",
            kubeconfig,
            "--all-namespaces",
            "--follow",
            "--level=error",
            "--since=10m",
        ],
    )
}

fn workload_wait(kubeconfig: &str, timeout: &str) -> (r: Call)
    ensures
        r@ == wait_workload(kubeconfig@, timeout@),
{
    let limit = "--timeout=".to_string().concat(timeout);
    call(
        "kubectl",
        &[
            "--kubeconfig",
            kubeconfig,
            "wait",
            "kustomization/flux-system",
            "--namespace",
            "flux-system",
            "--for=condition=Ready",
            limit.as_str(),
        ],
    )
}

fn workload_list(kubeconfig: &str) -> (r: Call)
    ensures
        r@ == show_workload(kubeconfig@),
{
    call("flux", &["get", "kustomizations", "--kubeconfig", kubeconfig, "--all-namespaces"])
}

fn await_management(cli: &Cli<String>, poll: Poll, reply: &Reply<String, Vec<u8>>) -> (r: Turn<
    WatchPoint<String, Call>,
    (),
>)
    ensures
        r@ == management_appears(cli@, poll, reply@),
{
    match wait_for_resource(management_call(), poll, reply) {
        Turn::Ask(poll, notes, action) => Turn::Ask(
            WatchPoint::ManagementAppears(poll),
            notes,
            action,
        ),
        Turn::Done(_, true) => Turn::Ask(
            WatchPoint::ManagementReady,
            progress_notes(
                &[">>> Waiting until the local workload cluster and Flux addons are ready..."],
            ),
            Action::Run(management_wait(cli.local_reconcile_timeout.as_str())),
        ),
        Turn::Done(_, false) => Turn::Ask(
            WatchPoint::ManagementMissing,
            problem_note(
                "ERROR: flux-apps Kustomization was not created within 2 minutes".to_string(),
            ),
            Action::Run(management_list()),
        ),
        Turn::Fail(notes, failure) => Turn::Fail(notes, failure),
    }
}

fn await_workload(
    cli: &Cli<String>,
    kubeconfig: String,
    poll: Poll,
    reply: &Reply<String, Vec<u8>>,
) -> (r: Turn<WatchPoint<String, Call>, ()>)
    ensures
        r@ == workload_appears(cli@, kubeconfig@, poll, reply@),
{
    match wait_for_resource(workload_call(kubeconfig.as_str()), poll, reply) {
        Turn::Ask(poll, notes, action) => Turn::Ask(
            WatchPoint::WorkloadAppears(kubeconfig, poll),
            notes,
            action,
        ),
        Turn::Done(_, true) => {
            let wait = pods_wait(kubeconfig.as_str(), cli.local_reconcile_timeout.as_str());
            Turn::Ask(
                WatchPoint::ControllersReady(kubeconfig),
                progress_notes(&[">>> Waiting for workload Flux controllers to be ready..."]),
                Action::Run(wait),
            )
        },
        Turn::Done(_, false) => {
            let list = pods_list(kubeconfig.as_str());
            Turn::Ask(
                WatchPoint::WorkloadMissing(kubeconfig),
                problem_note(
                    "ERROR: workload Flux Kustomization was not created within 2 minutes".to_string(),
                ),
                Action::Run(list),
            )
        },
        Turn::Fail(notes, failure) => Turn::Fail(notes, failure),
    }
}

fn step(
    cli: &Cli<String>,
    engine: &str,
    at: WatchPoint<String, Call>,
    reply: &Reply<String, Vec<u8>>,
) -> (r: Turn<WatchPoint<String, Call>, ()>)
    ensures
        r@ == watch_step(cli@, engine@, at@, reply@),
{
    let timeout = cli.local_reconcile_timeout.as_str();
    match at {
        WatchPoint::Start => precede(
            progress_notes(&["", ">>> Step 5: Flux reconciliation progress"]),
            await_management(cli, Poll::Start(ATTEMPTS), reply),
        ),
        WatchPoint::ManagementAppears(poll) => await_management(cli, poll, reply),
        WatchPoint::ManagementMissing => Turn::Fail(no_notes(), Failure::ManagementFluxMissing),
        WatchPoint::ManagementReady => if run_quiet(reply) {
            Turn::Ask(
                WatchPoint::KubeconfigMade,
                progress_notes(&["", ">>> Workload cluster Flux reconciliation errors"]),
                Action::CreateTemp,
            )
        } else {
            Turn::Ask(
                WatchPoint::ManagementLate,
                problem_note(
                    "ERROR: local-host reconciliation did not complete within ".to_string().concat(
                        timeout,
                    ),
                ),
                Action::Run(management_list()),
            )
        },
        WatchPoint::ManagementLate => Turn::Fail(no_notes(), Failure::ManagementTimedOut),
        WatchPoint::KubeconfigMade => match reply {
            Reply::Text(Ok(path)) => Turn::Ask(
                WatchPoint::KubeconfigFetched(path.clone()),
                no_notes(),
                Action::Capture(kubeconfig_call()),
            ),
            Reply::Text(Err(cause)) => Turn::Fail(
                no_notes(),
                Failure::KubeconfigNotCreated(cause.clone()),
            ),
            _ => Turn::Fail(no_notes(), Failure::UnexpectedReply),
        },
        WatchPoint::KubeconfigFetched(path) => match capture(kubeconfig_call(), reply) {
            Ok(contents) => Turn::Ask(
                WatchPoint::KubeconfigWritten(path.clone()),
                no_notes(),
                Action::WriteTemp { path, contents },
            ),
            Err(failure) => Turn::Fail(no_notes(), failure),
        },
        WatchPoint::KubeconfigWritten(path) => match check_written(reply) {
            Ok(()) => Turn::Ask(
                WatchPoint::PortFound(path),
                no_notes(),
                Action::Capture(port_call(engine)),
            ),
            Err(failure) => Turn::Fail(no_notes(), failure),
        },
        WatchPoint::PortFound(path) => match capture(port_call(engine), reply) {
            Ok(output) => match find_port(output.as_str()) {
                Some(port) => {
                    let set = server_call(path.as_str(), port.as_str());
                    Turn::Ask(
                        WatchPoint::PortSet { kubeconfig: path, port },
                        no_notes(),
                        Action::Capture(set),
                    )
                },
                None => Turn::Fail(no_notes(), Failure::PortUnknown),
            },
            Err(failure) => Turn::Fail(no_notes(), failure),
        },
        WatchPoint::PortSet { kubeconfig, port } => match run(
            server_call(kubeconfig.as_str(), port.as_str()),
            reply,
        ) {
            Ok(()) => await_workload(cli, kubeconfig, Poll::Start(ATTEMPTS), reply),
            Err(failure) => Turn::Fail(no_notes(), failure),
        },
        WatchPoint::WorkloadAppears(path, poll) => await_workload(cli, path, poll, reply),
        WatchPoint::WorkloadMissing(_) => Turn::Fail(no_notes(), Failure::WorkloadFluxMissing),
        WatchPoint::ControllersReady(path) => match run(
            pods_wait(path.as_str(), timeout),
            reply,
        ) {
            Ok(()) => {
                let follow = logs_call(path.as_str());
                Turn::Ask(WatchPoint::LogsFollowed(path), no_notes(), Action::Follow(follow))
            },
            Err(failure) => Turn::Fail(no_notes(), failure),
        },
        WatchPoint::LogsFollowed(path) => match reply {
            Reply::Finished(Ok(())) => {
                let wait = workload_wait(path.as_str(), timeout);
                Turn::Ask(WatchPoint::WorkloadReady(path), no_notes(), Action::Run(wait))
            },
            Reply::Finished(Err(cause)) => Turn::Fail(
                no_notes(),
                Failure::LogsNotStarted(cause.clone()),
            ),
            _ => Turn::Fail(no_notes(), Failure::UnexpectedReply),
        },
        WatchPoint::WorkloadReady(path) => if run_quiet(reply) {
            Turn::Ask(WatchPoint::Released, no_notes(), Action::Release(path))
        } else {
            let list = workload_list(path.as_str());
            Turn::Ask(
                WatchPoint::WorkloadLate(path),
                problem_note(
                    "ERROR: workload reconciliation did not complete within ".to_string().concat(
                        timeout,
                    ),
                ),
                Action::Run(list),
            )
        },
        WatchPoint::WorkloadLate(_) => Turn::Fail(no_notes(), Failure::WorkloadTimedOut),
        WatchPoint::Released => Turn::Done(no_notes(), ()),
        WatchPoint::Abandoned(failure) => Turn::Fail(no_notes(), failure),
    }
}

fn kubeconfig_at(at: &WatchPoint<String, Call>) -> (r: Option<String>)
    ensures
        optional_text(r) == kubeconfig_of(at@),
{
    match at {
        WatchPoint::KubeconfigFetched(path) => Some(path.clone()),
        WatchPoint::KubeconfigWritten(path) => Some(path.clone()),
        WatchPoint::PortFound(path) => Some(path.clone()),
        WatchPoint::PortSet { kubeconfig, .. } => Some(kubeconfig.clone()),
        WatchPoint::WorkloadAppears(path, _) => Some(path.clone()),
        WatchPoint::WorkloadMissing(path) => Some(path.clone()),
        WatchPoint::ControllersReady(path) => Some(path.clone()),
        WatchPoint::LogsFollowed(path) => Some(path.clone()),
        WatchPoint::WorkloadReady(path) => Some(path.clone()),
        WatchPoint::WorkloadLate(path) => Some(path.clone()),
        _ => None,
    }
}

/// Watches the local host: from the point that was reached and the last answer to what follows.
pub fn watch_local_reconciliation(
    cli: &Cli<String>,
    engine: &str,
    at: WatchPoint<String, Call>,
    reply: &Reply<String, Vec<u8>>,
) -> (r: Turn<WatchPoint<String, Call>, ()>)
    ensures
        r@ == watch_turn(cli@, engine@, at@, reply@),
{
    let kubeconfig = kubeconfig_at(&at);
    match (step(cli, engine, at, reply), kubeconfig) {
        (Turn::Fail(notes, failure), Some(path)) => Turn::Ask(
            WatchPoint::Abandoned(failure),
            notes,
            Action::Release(path),
        ),
        (turn, _) => turn,
    }
}

/// The first of these attempts that succeeded, or their number where none did.
pub open spec fn first_success(tries: Seq<ReplyModel>) -> nat
    decreases tries.len(),
{
    if tries.len() == 0 || succeeded(tries[0]) {
        0
    } else {
        1 + first_success(tries.skip(1))
    }
}

/// What comes of waiting from `turn` on, where the attempts end like `tries`, one after the
/// other: the result, where they are enough for one, and the seconds spent asleep.
pub open spec fn waited(get: CallModel, turn: TurnModel<Poll, bool>, tries: Seq<ReplyModel>) -> (
    Option<bool>,
    nat,
)
    decreases tries.len(),
{
    match turn {
        TurnModel::Done(_, found) => (Some(found), 0),
        TurnModel::Ask(at, _, _) => if tries.len() == 0 {
            (None, 0)
        } else {
            match wait_turn(get, at, tries[0]) {
                TurnModel::Ask(pause, _, Action::Sleep(seconds)) => {
                    let (found, more) = waited(
                        get,
                        wait_turn(get, pause, Reply::Done),
                        tries.skip(1),
                    );
                    (found, seconds as nat + more)
                },
                next => waited(get, next, tries.skip(1)),
            }
        },
        TurnModel::Fail(_, _) => (None, 0),
    }
}

proof fn lemma_waited(get: CallModel, attempts: u32, tries: Seq<ReplyModel>)
    requires
        tries.len() >= attempts,
    ensures
        waited(get, attempt(get, attempts), tries) == (if first_success(tries) < attempts {
            (Some(true), 2 * first_success(tries))
        } else {
            (Some(false), (2 * attempts) as nat)
        }),
    decreases attempts,
{
    if attempts > 0 {
        if succeeded(tries[0]) {
            let done: TurnModel<Poll, bool> = TurnModel::Done(seq![], true);
            assert(waited(get, done, tries.skip(1)) == (Some(true), 0nat));
        } else {
            lemma_waited(get, (attempts - 1) as u32, tries.skip(1));
        }
    }
}

/// A resource is found if and only if one of the first `attempts` attempts succeeds, with two
/// seconds after each before it. It is given up after so many attempts, and twice as many seconds:
/// two minutes for sixty of them.
pub proof fn resources_are_waited_for(get: CallModel, attempts: u32, tries: Seq<ReplyModel>)
    requires
        tries.len() >= attempts,
    ensures
        waited(get, wait_turn(get, Poll::Start(attempts), Reply::Begin), tries) == (
        if first_success(tries) < attempts {
            (Some(true), 2 * first_success(tries))
        } else {
            (Some(false), (2 * attempts) as nat)
        }),
{
    lemma_waited(get, attempts, tries);
}

/// Tells whether the errors of the workload cluster are followed.
pub open spec fn follows_logs(at: WatchPointModel) -> bool {
    at is WorkloadReady || at is WorkloadLate
}

/// The kubeconfig of the workload cluster, where there is one after an answer.
pub open spec fn kubeconfig_after(at: WatchPointModel, reply: ReplyModel) -> Option<Seq<char>> {
    match (at, reply) {
        (WatchPoint::KubeconfigMade, Reply::Text(Ok(path))) => Some(path),
        _ => kubeconfig_of(at),
    }
}

/// Tells whether the errors of the workload cluster are followed after an answer.
pub open spec fn follows_after(at: WatchPointModel, reply: ReplyModel) -> bool {
    match (at, reply) {
        (WatchPoint::LogsFollowed(_), Reply::Finished(Ok(()))) => true,
        _ => follows_logs(at),
    }
}

/// The watch cleans up before it succeeds or fails. From the answer that names the kubeconfig on,
/// each turn asks for more: it keeps the kubeconfig, or it asks for its removal. From the answer
/// that the errors of the workload cluster are followed on, they are, until that removal, which
/// ends it.
pub proof fn watch_cleans_up(
    cli: CliModel,
    engine: Seq<char>,
    at: WatchPointModel,
    reply: ReplyModel,
)
    ensures
        match (watch_turn(cli, engine, at, reply), kubeconfig_after(at, reply)) {
            (TurnModel::Ask(next, _, Action::Release(removed)), Some(path)) => {
                &&& removed == path
                &&& kubeconfig_of(next) is None
                &&& !follows_logs(next)
            },
            (TurnModel::Ask(next, _, action), kept) => {
                &&& !(action is Release)
                &&& kubeconfig_of(next) == kept
                &&& follows_logs(next) == follows_after(at, reply)
            },
            (_, kept) => kept is None,
        },
        follows_after(at, reply) ==> kubeconfig_after(at, reply) is Some,
{
}

/// The port is all that follows the last colon of the first line, or all of that line where it has
/// no colon, without white space around it; and there is none where that is not digits alone.
#[verifier::spinoff_prover]
#[verifier::rlimit(50)]
pub proof fn the_port_is_in_the_first_line(
    host: Seq<char>,
    left: Seq<char>,
    port: Seq<char>,
    right: Seq<char>,
    after: Seq<char>,
)
    requires
        host.len() > 0 ==> host.last() == ':' && !host.contains('\n'),
        blank(left) && !left.contains('\n'),
        bare(port) && !port.contains('\n') && !port.contains(':'),
        blank(right) && !right.contains('\n'),
        after.len() > 0 ==> after[0] == '\n',
    ensures
        published_port(host + (left + port + right) + after) == (if is_numeral(port) {
            Some(port)
        } else {
            None
        }),
        published_port(Seq::<char>::empty()) is None,
{
    let field = left + port + right;
    let line = host + field;
    let whole = host + (left + port + right) + after;
    assert(is_white_space('\r') && !is_white_space(':'));
    assert forall|i: int| 0 <= i < field.len() implies field[i] != '\n' && field[i] != ':' by {
        if i < left.len() {
            assert(left.contains(left[i]));
            assert(is_white_space(left[i]));
        } else if i < left.len() + port.len() {
            assert(port.contains(port[i - left.len()]));
        } else {
            assert(right.contains(right[i - left.len() - port.len()]));
            assert(is_white_space(right[i - left.len() - port.len()]));
        }
    }
    assert(!line.contains('\n')) by {
        assert forall|i: int| 0 <= i < line.len() implies line[i] != '\n' by {
            if i < host.len() {
                assert(host.contains(host[i]));
            } else {
                assert(line[i] == field[i - host.len()]);
            }
        }
    }
    if after.len() > 0 {
        assert(whole =~= line + seq!['\n'] + after.skip(1));
        line_feeds_end_lines(line, after.skip(1));
    } else {
        assert(whole =~= line);
        line_feeds_end_lines(line, seq![]);
    }
    if line.len() > 0 || after.len() > 0 {
        if after.len() > 0 && line.len() > 0 && line.last() == '\r' {
            assert(field.len() > 0) by {
                if field.len() == 0 {
                    assert(line =~= host);
                }
            }
            assert(field.last() == '\r');
            if right.len() > 0 {
                lemma_port_field(host, left, port, right.drop_last());
                assert(line.drop_last() =~= host + (left + port + right.drop_last()));
            } else if port.len() > 0 {
                assert(field.last() == port.last());
            } else {
                lemma_port_field(host, left.drop_last(), port, right);
                assert(line.drop_last() =~= host + (left.drop_last() + port + right));
            }
        } else {
            lemma_port_field(host, left, port, right);
        }
    }
}

proof fn lemma_port_field(host: Seq<char>, left: Seq<char>, port: Seq<char>, right: Seq<char>)
    requires
        host.len() > 0 ==> host.last() == ':',
        blank(left),
        bare(port) && !port.contains(':'),
        blank(right),
    ensures
        trimmed(after_last(host + (left + port + right), ':')) == port,
{
    let field = left + port + right;
    assert(!is_white_space(':'));
    assert(!field.contains(':')) by {
        assert forall|i: int| 0 <= i < field.len() implies field[i] != ':' by {
            if i < left.len() {
                assert(is_white_space(left[i]));
            } else if i < left.len() + port.len() {
                assert(port.contains(port[i - left.len()]));
            } else {
                assert(is_white_space(right[i - left.len() - port.len()]));
            }
        }
    }
    if host.len() > 0 {
        assert(host + field =~= host.drop_last() + seq![':'] + field);
        the_last_field_is_whole(host.drop_last(), ':', field);
    } else {
        assert(host + field =~= field);
        the_last_field_is_whole(host, ':', field);
    }
    trimming_leaves_the_inside(left, port, right);
}

/// A point of watching is modelled as it is.
pub proof fn points_are_modelled_as_they_are(
    path: String,
    port: String,
    poll: Poll,
    failure: Failure<String, Call>,
)
    ensures
        WatchPoint::<String, Call>::Start@ == WatchPointModel::Start,
        WatchPoint::<String, Call>::ManagementAppears(poll)@ == WatchPointModel::ManagementAppears(
            poll,
        ),
        WatchPoint::<String, Call>::ManagementMissing@ == WatchPointModel::ManagementMissing,
        WatchPoint::<String, Call>::ManagementReady@ == WatchPointModel::ManagementReady,
        WatchPoint::<String, Call>::ManagementLate@ == WatchPointModel::ManagementLate,
        WatchPoint::<String, Call>::KubeconfigMade@ == WatchPointModel::KubeconfigMade,
        WatchPoint::<String, Call>::KubeconfigFetched(path)@ == WatchPointModel::KubeconfigFetched(
            path@,
        ),
        WatchPoint::<String, Call>::KubeconfigWritten(path)@ == WatchPointModel::KubeconfigWritten(
            path@,
        ),
        WatchPoint::<String, Call>::PortFound(path)@ == WatchPointModel::PortFound(path@),
        WatchPoint::<String, Call>::WorkloadMissing(path)@ == WatchPointModel::WorkloadMissing(
            path@,
        ),
        WatchPoint::<String, Call>::ControllersReady(path)@ == WatchPointModel::ControllersReady(
            path@,
        ),
        WatchPoint::<String, Call>::LogsFollowed(path)@ == WatchPointModel::LogsFollowed(path@),
        WatchPoint::<String, Call>::WorkloadReady(path)@ == WatchPointModel::WorkloadReady(path@),
        WatchPoint::<String, Call>::WorkloadLate(path)@ == WatchPointModel::WorkloadLate(path@),
        WatchPoint::<String, Call>::Released@ == WatchPointModel::Released,
        WatchPoint::<String, Call>::Abandoned(failure)@ == WatchPointModel::Abandoned(failure@),
        WatchPoint::<String, Call>::WorkloadAppears(path, poll)@
            == WatchPointModel::WorkloadAppears(path@, poll),
        (WatchPoint::<String, Call>::PortSet { kubeconfig: path, port })@
            == (WatchPointModel::PortSet { kubeconfig: path@, port: port@ }),
{
}

} // verus!
