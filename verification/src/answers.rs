//! Actions and their answers: each point waits for the answer to the action that led to it, and a
//! call that has to succeed ends the bootstrap where it does not.

use crate::aws::AwsPoint;
use crate::bootstrap::{
    bootstrap_turn, config_turn, from_cluster, from_config, from_instance, from_operator,
    from_preflight, from_registry, from_secrets, from_watch, ConfigPoint, ConfigPointModel, Stage,
    StageModel,
};
use crate::cli::CliModel;
use crate::cluster::{
    apply_manifest, choose_cluster, create_cluster, delete_cluster, wait_node, KindPoint,
};
use crate::failure::{Failure, FailureModel};
use crate::flux::{
    delete_key, install_instance, install_operator, make_key, make_token, wait_instance,
    InstancePoint, OperatorPoint, SecretsPoint,
};
use crate::preflight::{
    preflight_turn, EnginePoint, PreflightModel, PreflightPoint, PreflightPointModel,
};
use crate::process::outcome;
use crate::protocol::{
    Action, ActionModel, CallModel, NoteModel, Reply, ReplyModel, TurnModel, HTTP_LIMIT,
};
use crate::registry::{create_registry, make_config, publish, start_registry, RegistryPoint};
use crate::watch::{
    get_kubeconfig, get_port, set_server, wait_pods, Poll, WatchPoint, WatchPointModel,
};
use vstd::prelude::*;

verus! {

/// The kinds of answers.
pub enum Kind {
    Begin,
    Done,
    Found,
    Ended,
    Status,
    Text,
    Finished,
}

/// The kind of an answer.
pub open spec fn reply_kind(reply: ReplyModel) -> Kind {
    match reply {
        Reply::Begin => Kind::Begin,
        Reply::Done => Kind::Done,
        Reply::Found(_) => Kind::Found,
        Reply::Ended(_) => Kind::Ended,
        Reply::Status(_) => Kind::Status,
        Reply::Text(_) => Kind::Text,
        Reply::Finished(_) => Kind::Finished,
    }
}

/// The kind of answer that an action gets.
pub open spec fn action_kind(action: ActionModel) -> Kind {
    match action {
        Action::FindTool(_) => Kind::Found,
        Action::Run(_) => Kind::Ended,
        Action::RunQuiet(_) => Kind::Ended,
        Action::Capture(_) => Kind::Ended,
        Action::CaptureLossy(_) => Kind::Ended,
        Action::RunWithStdin(_, _) => Kind::Ended,
        Action::CaptureWithStdin(_, _) => Kind::Ended,
        Action::Follow(_) => Kind::Finished,
        Action::Release(_) => Kind::Done,
        Action::SetVar(_, _) => Kind::Done,
        Action::Get { .. } => Kind::Status,
        Action::GetAuthorized { .. } => Kind::Status,
        Action::Sleep(_) => Kind::Done,
        Action::CheckFile(_) => Kind::Found,
        Action::ReadFile(_) => Kind::Text,
        Action::CreateTemp => Kind::Text,
        Action::WriteTemp { .. } => Kind::Finished,
    }
}

/// The kind of answer that a point of waiting for a resource takes.
pub open spec fn poll_kind(at: Poll) -> Kind {
    match at {
        Poll::Start(_) => Kind::Begin,
        Poll::Trying(_) => Kind::Ended,
        Poll::Pausing(_) => Kind::Done,
    }
}

/// The kind of answer that a point of the watch takes.
pub open spec fn watch_kind(at: WatchPointModel) -> Kind {
    match at {
        WatchPoint::Start => Kind::Begin,
        WatchPoint::ManagementAppears(poll) => poll_kind(poll),
        WatchPoint::KubeconfigMade => Kind::Text,
        WatchPoint::KubeconfigWritten(_) => Kind::Finished,
        WatchPoint::WorkloadAppears(_, poll) => poll_kind(poll),
        WatchPoint::LogsFollowed(_) => Kind::Finished,
        WatchPoint::Released => Kind::Done,
        WatchPoint::Abandoned(_) => Kind::Done,
        _ => Kind::Ended,
    }
}

/// The kind of answer that a point of the checks takes.
pub open spec fn preflight_kind(at: PreflightPointModel) -> Kind {
    match at {
        PreflightPoint::Start => Kind::Begin,
        PreflightPoint::ToolFound(_) => Kind::Found,
        PreflightPoint::Aws(AwsPoint::Start) => Kind::Begin,
        PreflightPoint::Aws(AwsPoint::BranchFound) => Kind::Status,
        PreflightPoint::Aws(AwsPoint::KeyFileFound) => Kind::Found,
        PreflightPoint::Aws(AwsPoint::KeyFileRead) => Kind::Text,
        PreflightPoint::Engine(_, EnginePoint::Start) => Kind::Begin,
        PreflightPoint::Engine(_, EnginePoint::DockerFound) => Kind::Found,
        PreflightPoint::Engine(_, EnginePoint::PodmanFound) => Kind::Found,
        PreflightPoint::Engine(_, EnginePoint::ProviderSet) => Kind::Done,
        PreflightPoint::Engine(_, _) => Kind::Ended,
    }
}

/// The kind of answer that a point of the local registry takes.
pub open spec fn registry_kind(at: RegistryPoint) -> Kind {
    match at {
        RegistryPoint::Start => Kind::Begin,
        RegistryPoint::Probed(_) => Kind::Status,
        RegistryPoint::Paused(_) => Kind::Done,
        _ => Kind::Ended,
    }
}

/// The kind of answer that a stage takes.
pub open spec fn stage_kind(at: StageModel) -> Kind {
    match at {
        Stage::Preflight(at) => preflight_kind(at),
        Stage::Cluster(_, KindPoint::Start) => Kind::Begin,
        Stage::Registry(_, at) => registry_kind(at),
        Stage::Config(_, ConfigPoint::Start) => Kind::Begin,
        Stage::Config(_, ConfigPoint::Made) => Kind::Text,
        Stage::Config(_, ConfigPoint::Written(_)) => Kind::Finished,
        Stage::Config(_, ConfigPoint::Abandoned(_)) => Kind::Done,
        Stage::Operator(_, _, OperatorPoint::Start) => Kind::Begin,
        Stage::Secrets(_, _, SecretsPoint::Start) => Kind::Begin,
        Stage::Instance(_, _, InstancePoint::Start) => Kind::Begin,
        Stage::Watch(_, _, at) => watch_kind(at),
        Stage::Finished => Kind::Done,
        Stage::Abandoned(_) => Kind::Done,
        _ => Kind::Ended,
    }
}

/// The call that has to succeed for the bootstrap to go on from a stage.
pub open spec fn required_call(cli: CliModel, at: StageModel) -> Option<CallModel> {
    match at {
        Stage::Cluster(_, KindPoint::Deleted) => Some(delete_cluster()),
        Stage::Cluster(_, KindPoint::Created) => Some(create_cluster()),
        Stage::Cluster(_, KindPoint::Chosen) => Some(choose_cluster()),
        Stage::Cluster(_, KindPoint::Ready) => Some(wait_node()),
        Stage::Registry(found, RegistryPoint::Created) => Some(create_registry(cli, found.engine)),
        Stage::Registry(found, RegistryPoint::Restarted) => Some(start_registry(found.engine)),
        Stage::Registry(_, RegistryPoint::ConfigMade) => Some(make_config()),
        Stage::Registry(_, RegistryPoint::ConfigApplied) => Some(apply_manifest()),
        Stage::Registry(_, RegistryPoint::Published) => Some(publish(cli)),
        Stage::Operator(_, config, OperatorPoint::Installed) => Some(install_operator(config)),
        Stage::Secrets(found, _, at) => match (found.aws, at) {
            (Some(aws), SecretsPoint::TokenMade) => Some(make_token(aws)),
            (Some(_), SecretsPoint::TokenApplied) => Some(apply_manifest()),
            (Some(_), SecretsPoint::KeyDeleted) => Some(delete_key()),
            (Some(aws), SecretsPoint::KeyMade) => Some(make_key(aws)),
            (Some(_), SecretsPoint::KeyApplied) => Some(apply_manifest()),
            _ => None,
        },
        Stage::Instance(found, config, InstancePoint::Installed) => Some(
            install_instance(cli, found.aws, config),
        ),
        Stage::Instance(_, _, InstancePoint::Reconciled) => Some(wait_instance()),
        Stage::Watch(_, _, WatchPoint::KubeconfigFetched(_)) => Some(get_kubeconfig()),
        Stage::Watch(found, _, WatchPoint::PortFound(_)) => Some(get_port(found.engine)),
        Stage::Watch(_, _, WatchPoint::PortSet { kubeconfig, port }) => Some(
            set_server(kubeconfig, port),
        ),
        Stage::Watch(_, _, WatchPoint::ControllersReady(kubeconfig)) => Some(
            wait_pods(kubeconfig, cli.local_reconcile_timeout),
        ),
        _ => None,
    }
}

/// The call that an action makes.
pub open spec fn action_call(action: ActionModel) -> Option<CallModel> {
    match action {
        Action::Run(call) => Some(call),
        Action::RunQuiet(call) => Some(call),
        Action::Capture(call) => Some(call),
        Action::CaptureLossy(call) => Some(call),
        Action::RunWithStdin(call, _) => Some(call),
        Action::CaptureWithStdin(call, _) => Some(call),
        Action::Follow(call) => Some(call),
        _ => None,
    }
}

/// Tells whether a stage waits for the answer to an action: for one of its kind, and for the end
/// of its call where that has to succeed.
pub open spec fn awaits(cli: CliModel, at: StageModel, action: ActionModel) -> bool {
    &&& stage_kind(at) == action_kind(action)
    &&& required_call(cli, at) is Some ==> action_call(action) == required_call(cli, at)
}

/// The failure that a stage cleans up after.
pub open spec fn abandoned(at: StageModel) -> Option<FailureModel> {
    match at {
        Stage::Config(_, ConfigPoint::Abandoned(failure)) => Some(failure),
        Stage::Watch(_, _, WatchPoint::Abandoned(failure)) => Some(failure),
        Stage::Abandoned(failure) => Some(failure),
        _ => None,
    }
}

/// The failure that `turn` gives up with: it reports the failure, or cleans up before.
pub open spec fn given_up(turn: TurnModel<StageModel, ()>) -> Option<FailureModel> {
    match turn {
        TurnModel::Ask(next, _, Action::Release(_)) => abandoned(next),
        TurnModel::Fail(_, failure) => Some(failure),
        _ => None,
    }
}

/// The lines that `turn` shows.
pub open spec fn shown(turn: TurnModel<StageModel, ()>) -> Seq<NoteModel> {
    match turn {
        TurnModel::Ask(_, notes, _) => notes,
        TurnModel::Done(notes, ()) => notes,
        TurnModel::Fail(notes, _) => notes,
    }
}

/// Tells whether an action that requests a page has the limit on how long that may take.
pub open spec fn limited(action: ActionModel) -> bool {
    match action {
        Action::Get { limit, .. } => limit == HTTP_LIMIT,
        Action::GetAuthorized { limit, .. } => limit == HTTP_LIMIT,
        _ => true,
    }
}

/// What holds of each turn that an answer of the right kind leads to: the next stage waits for
/// the answer to the action, a request has its limit, and the answer was not unexpected.
spec fn fitting(cli: CliModel, right: bool, turn: TurnModel<StageModel, ()>) -> bool {
    &&& turn matches TurnModel::Ask(next, _, action) ==> awaits(cli, next, action) && limited(
        action,
    )
    &&& right ==> given_up(turn) != Some(Failure::<Seq<char>, CallModel>::UnexpectedReply)
}

proof fn lemma_watch(
    cli: CliModel,
    found: PreflightModel,
    config: Seq<char>,
    at: WatchPointModel,
    reply: ReplyModel,
)
    ensures
        fitting(
            cli,
            watch_kind(at) == reply_kind(reply) && !(at is Abandoned),
            from_watch(cli, found, config, at, reply),
        ),
{
}

proof fn lemma_instance(
    cli: CliModel,
    found: PreflightModel,
    config: Seq<char>,
    at: InstancePoint,
    reply: ReplyModel,
)
    ensures
        fitting(
            cli,
            stage_kind(Stage::Instance(found, config, at)) == reply_kind(reply),
            from_instance(cli, found, config, at, reply),
        ),
{
    lemma_watch(cli, found, config, WatchPoint::Start, Reply::Begin);
}

proof fn lemma_secrets(
    cli: CliModel,
    found: PreflightModel,
    config: Seq<char>,
    at: SecretsPoint,
    reply: ReplyModel,
)
    ensures
        fitting(
            cli,
            stage_kind(Stage::Secrets(found, config, at)) == reply_kind(reply),
            from_secrets(cli, found, config, at, reply),
        ),
{
    lemma_instance(cli, found, config, InstancePoint::Start, Reply::Begin);
}

proof fn lemma_operator(
    cli: CliModel,
    found: PreflightModel,
    config: Seq<char>,
    at: OperatorPoint,
    reply: ReplyModel,
)
    ensures
        fitting(
            cli,
            stage_kind(Stage::Operator(found, config, at)) == reply_kind(reply),
            from_operator(cli, found, config, at, reply),
        ),
{
    lemma_secrets(cli, found, config, SecretsPoint::Start, Reply::Begin);
}

proof fn lemma_config(cli: CliModel, found: PreflightModel, at: ConfigPointModel, reply: ReplyModel)
    ensures
        fitting(
            cli,
            stage_kind(Stage::Config(found, at)) == reply_kind(reply) && !(at is Abandoned),
            from_config(cli, found, at, reply),
        ),
{
    match config_turn(at, reply) {
        TurnModel::Done(_, config) => {
            lemma_operator(cli, found, config, OperatorPoint::Start, Reply::Begin);
        },
        _ => {},
    }
}

proof fn lemma_registry(cli: CliModel, found: PreflightModel, at: RegistryPoint, reply: ReplyModel)
    ensures
        fitting(
            cli,
            registry_kind(at) == reply_kind(reply),
            from_registry(cli, found, at, reply),
        ),
{
    lemma_config(cli, found, ConfigPoint::Start, Reply::Begin);
}

proof fn lemma_cluster(cli: CliModel, found: PreflightModel, at: KindPoint, reply: ReplyModel)
    ensures
        fitting(
            cli,
            stage_kind(Stage::Cluster(found, at)) == reply_kind(reply),
            from_cluster(cli, found, at, reply),
        ),
{
    lemma_registry(cli, found, RegistryPoint::Start, Reply::Begin);
    lemma_config(cli, found, ConfigPoint::Start, Reply::Begin);
}

/// The same as `fitting`, of the checks alone.
spec fn fitting_check(
    right: bool,
    turn: TurnModel<PreflightPointModel, PreflightModel>,
) -> bool {
    &&& turn matches TurnModel::Ask(next, _, action) ==> preflight_kind(next) == action_kind(action)
        && limited(action)
    &&& right && turn is Fail ==> !(turn->Fail_1 is UnexpectedReply)
}

proof fn lemma_checks(cli: CliModel, at: PreflightPointModel, reply: ReplyModel)
    ensures
        fitting_check(preflight_kind(at) == reply_kind(reply), preflight_turn(cli, at, reply)),
{
}

proof fn lemma_preflight(cli: CliModel, at: PreflightPointModel, reply: ReplyModel)
    ensures
        fitting(cli, preflight_kind(at) == reply_kind(reply), from_preflight(cli, at, reply)),
{
    lemma_checks(cli, at, reply);
    match preflight_turn(cli, at, reply) {
        TurnModel::Done(_, found) => {
            lemma_cluster(cli, found, KindPoint::Start, Reply::Begin);
        },
        _ => {},
    }
}

proof fn lemma_fitting(cli: CliModel, at: StageModel, reply: ReplyModel)
    ensures
        fitting(
            cli,
            stage_kind(at) == reply_kind(reply) && abandoned(at) is None,
            bootstrap_turn(cli, at, reply),
        ),
{
    match at {
        Stage::Preflight(at) => lemma_preflight(cli, at, reply),
        Stage::Cluster(found, at) => lemma_cluster(cli, found, at, reply),
        Stage::Registry(found, at) => lemma_registry(cli, found, at, reply),
        Stage::Config(found, at) => lemma_config(cli, found, at, reply),
        Stage::Operator(found, config, at) => lemma_operator(cli, found, config, at, reply),
        Stage::Secrets(found, config, at) => lemma_secrets(cli, found, config, at, reply),
        Stage::Instance(found, config, at) => lemma_instance(cli, found, config, at, reply),
        Stage::Watch(found, config, at) => lemma_watch(cli, found, config, at, reply),
        Stage::Finished => {},
        Stage::Abandoned(_) => {},
    }
}

/// Each action leads to a stage that waits for its answer: for an answer of its kind, and, where
/// the stage needs a call to have succeeded, for the end of that very call.
pub proof fn stages_await_their_actions(cli: CliModel, at: StageModel, reply: ReplyModel)
    ensures
        bootstrap_turn(cli, at, reply) matches TurnModel::Ask(next, _, action) ==> awaits(
            cli,
            next,
            action,
        ),
{
    lemma_fitting(cli, at, reply);
}

/// Every request has a limit on how long it may take.
pub proof fn requests_are_limited(cli: CliModel, at: StageModel, reply: ReplyModel)
    ensures
        bootstrap_turn(cli, at, reply) matches TurnModel::Ask(_, _, action) ==> limited(action),
{
    lemma_fitting(cli, at, reply);
}

/// An answer of the kind that a stage waits for is never refused as unexpected.
pub proof fn right_answers_are_taken(cli: CliModel, at: StageModel, reply: ReplyModel)
    requires
        reply_kind(reply) == stage_kind(at),
        abandoned(at) is None,
    ensures
        given_up(bootstrap_turn(cli, at, reply)) != Some(
            Failure::<Seq<char>, CallModel>::UnexpectedReply,
        ),
{
    lemma_fitting(cli, at, reply);
}

/// Where a call that has to succeed does not, the bootstrap gives up at once, with the failure of
/// that call and without another word.
pub proof fn failed_calls_end_the_bootstrap(
    cli: CliModel,
    at: StageModel,
    reply: ReplyModel,
    call: CallModel,
    failure: FailureModel,
)
    requires
        required_call(cli, at) == Some(call),
        outcome(call, reply) == Err::<Seq<u8>, FailureModel>(failure),
    ensures
        given_up(bootstrap_turn(cli, at, reply)) == Some(failure),
        shown(bootstrap_turn(cli, at, reply)) == Seq::<NoteModel>::empty(),
{
}

/// A bootstrap that has given up only cleans up: whatever the answers are, it comes to report the
/// very failure that it gave up with.
pub proof fn failures_are_final(cli: CliModel, at: StageModel, reply: ReplyModel)
    requires
        abandoned(at) is Some,
    ensures
        given_up(bootstrap_turn(cli, at, reply)) == abandoned(at),
        shown(bootstrap_turn(cli, at, reply)) == Seq::<NoteModel>::empty(),
{
}

} // verus!
