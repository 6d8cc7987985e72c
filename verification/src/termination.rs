//! Every bootstrap comes to an end: each answer brings it closer.

use crate::aws::AwsPoint;
use crate::bootstrap::{
    bootstrap_turn, config_turn, from_cluster, from_config, from_instance, from_operator,
    from_preflight, from_registry, from_secrets, from_watch, ConfigPoint, ConfigPointModel, Stage,
    StageModel,
};
use crate::cli::CliModel;
use crate::cluster::KindPoint;
use crate::flux::{InstancePoint, OperatorPoint, SecretsPoint};
use crate::preflight::{
    preflight_turn, tools, EnginePoint, PreflightModel, PreflightPoint, PreflightPointModel,
};
use crate::protocol::{Reply, ReplyModel, TurnModel};
use crate::registry::RegistryPoint;
use crate::watch::{Poll, WatchPoint, WatchPointModel};
use vstd::prelude::*;

verus! {

/// How many answers waiting for a resource takes at most, from here on.
pub open spec fn poll_left(at: Poll) -> nat {
    match at {
        Poll::Start(attempts) => (2 * attempts + 1) as nat,
        Poll::Trying(attempts) => (2 * attempts + 2) as nat,
        Poll::Pausing(attempts) => (2 * attempts + 1) as nat,
    }
}

/// How many answers the watch over the local host takes at most, from here on.
pub open spec fn watch_left(at: WatchPointModel) -> nat {
    match at {
        WatchPoint::Start => 253,
        WatchPoint::ManagementAppears(poll) => 132 + poll_left(poll),
        WatchPoint::ManagementMissing => 1,
        WatchPoint::ManagementReady => 132,
        WatchPoint::ManagementLate => 1,
        WatchPoint::KubeconfigMade => 131,
        WatchPoint::KubeconfigFetched(_) => 130,
        WatchPoint::KubeconfigWritten(_) => 129,
        WatchPoint::PortFound(_) => 128,
        WatchPoint::PortSet { .. } => 127,
        WatchPoint::WorkloadAppears(_, poll) => 5 + poll_left(poll),
        WatchPoint::WorkloadMissing(_) => 2,
        WatchPoint::ControllersReady(_) => 5,
        WatchPoint::LogsFollowed(_) => 4,
        WatchPoint::WorkloadReady(_) => 3,
        WatchPoint::WorkloadLate(_) => 2,
        WatchPoint::Released => 1,
        WatchPoint::Abandoned(_) => 1,
    }
}

/// How many answers the Flux instance takes at most, from here on.
pub open spec fn instance_left(at: InstancePoint) -> nat {
    match at {
        InstancePoint::Start => 4,
        InstancePoint::Installed => 3,
        InstancePoint::Reconciled => 2,
        InstancePoint::ControllersReady => 1,
    }
}

/// How many answers the secrets take at most, from here on.
pub open spec fn secrets_left(at: SecretsPoint) -> nat {
    match at {
        SecretsPoint::Start => 6,
        SecretsPoint::TokenMade => 5,
        SecretsPoint::TokenApplied => 4,
        SecretsPoint::KeyDeleted => 3,
        SecretsPoint::KeyMade => 2,
        SecretsPoint::KeyApplied => 1,
    }
}

/// How many answers the Flux operator takes at most, from here on.
pub open spec fn operator_left(at: OperatorPoint) -> nat {
    match at {
        OperatorPoint::Start => 2,
        OperatorPoint::Installed => 1,
    }
}

/// How many answers the registry configuration takes at most, from here on.
pub open spec fn config_left(at: ConfigPointModel) -> nat {
    match at {
        ConfigPoint::Start => 4,
        ConfigPoint::Made => 3,
        ConfigPoint::Written(_) => 2,
        ConfigPoint::Abandoned(_) => 1,
    }
}

/// How many answers the local registry takes at most, from here on.
pub open spec fn registry_left(cli: CliModel, at: RegistryPoint) -> nat {
    let retries = cli.registry_ready_retries;
    match at {
        RegistryPoint::Start => (2 * retries + 8) as nat,
        RegistryPoint::Listed => (2 * retries + 7) as nat,
        RegistryPoint::Created => (2 * retries + 5) as nat,
        RegistryPoint::RunningListed => (2 * retries + 6) as nat,
        RegistryPoint::Restarted => (2 * retries + 5) as nat,
        RegistryPoint::Probed(left) => (2 * left + 4) as nat,
        RegistryPoint::Paused(left) => (2 * left + 5) as nat,
        RegistryPoint::ConfigMade => 3,
        RegistryPoint::ConfigApplied => 2,
        RegistryPoint::Published => 1,
    }
}

/// How many answers the management cluster takes at most, from here on.
pub open spec fn kind_left(at: KindPoint) -> nat {
    match at {
        KindPoint::Start => 6,
        KindPoint::Listed => 5,
        KindPoint::Deleted => 4,
        KindPoint::Created => 3,
        KindPoint::Chosen => 2,
        KindPoint::Ready => 1,
    }
}

/// How many answers finding the container engine takes at most, from here on.
pub open spec fn engine_left(at: EnginePoint) -> nat {
    match at {
        EnginePoint::Start => 8,
        EnginePoint::DockerFound => 7,
        EnginePoint::DockerRuns => 6,
        EnginePoint::DockerNamed => 4,
        EnginePoint::PodmanFound => 5,
        EnginePoint::PodmanRuns => 4,
        EnginePoint::DockerChecked => 1,
        EnginePoint::PodmanChecked => 3,
        EnginePoint::ProviderSet => 2,
        EnginePoint::SocketFound => 1,
    }
}

/// How many answers the checks for AWS take at most, from here on.
pub open spec fn aws_left(at: AwsPoint) -> nat {
    match at {
        AwsPoint::Start => 4,
        AwsPoint::BranchFound => 3,
        AwsPoint::KeyFileFound => 2,
        AwsPoint::KeyFileRead => 1,
    }
}

/// How many answers the checks take at most, from here on.
pub open spec fn preflight_left(cli: CliModel, at: PreflightPointModel) -> nat {
    match at {
        PreflightPoint::Start => tools(cli.profile).len() + 13,
        PreflightPoint::ToolFound(place) => if place < tools(cli.profile).len() {
            (tools(cli.profile).len() - place + 12) as nat
        } else {
            12
        },
        PreflightPoint::Aws(at) => aws_left(at) + 8,
        PreflightPoint::Engine(_, at) => engine_left(at),
    }
}

/// How many answers the bootstrap takes at most, from here on.
pub open spec fn answers_left(cli: CliModel, at: StageModel) -> nat {
    let cleanup = 1nat;
    let watch = watch_left(WatchPoint::Start) + cleanup;
    let instance = instance_left(InstancePoint::Start) + watch;
    let secrets = secrets_left(SecretsPoint::Start) + instance;
    let operator = operator_left(OperatorPoint::Start) + secrets;
    let config = config_left(ConfigPoint::Start) + operator;
    let registry = registry_left(cli, RegistryPoint::Start) + config;
    let cluster = kind_left(KindPoint::Start) + registry;
    match at {
        Stage::Preflight(at) => preflight_left(cli, at) + cluster,
        Stage::Cluster(_, at) => kind_left(at) + registry,
        Stage::Registry(_, at) => registry_left(cli, at) + config,
        Stage::Config(_, at) => config_left(at) + operator,
        Stage::Operator(_, _, at) => operator_left(at) + secrets,
        Stage::Secrets(_, _, at) => secrets_left(at) + instance,
        Stage::Instance(_, _, at) => instance_left(at) + watch,
        Stage::Watch(_, _, at) => watch_left(at) + cleanup,
        Stage::Finished => cleanup,
        Stage::Abandoned(_) => cleanup,
    }
}

proof fn lemma_watch(
    cli: CliModel,
    found: PreflightModel,
    config: Seq<char>,
    at: WatchPointModel,
    reply: ReplyModel,
)
    ensures
        from_watch(cli, found, config, at, reply) matches TurnModel::Ask(next, _, _) ==> answers_left(
            cli,
            next,
        ) < watch_left(at) + 1,
{
}

proof fn lemma_instance(
    cli: CliModel,
    found: PreflightModel,
    config: Seq<char>,
    at: InstancePoint,
    reply: ReplyModel,
)
    ensures
        from_instance(cli, found, config, at, reply) matches TurnModel::Ask(
            next,
            _,
            _,
        ) ==> answers_left(cli, next) < answers_left(
            cli,
            Stage::Instance(found, config, at),
        ),
{
    lemma_watch(cli, found, config, WatchPoint::Start, Reply::Begin);
}

proof fn lemma_secrets(
    cli: CliModel,
    found: PreflightModel,
    config: Seq<char>,
    at: SecretsPoint,
    reply: ReplyModel,
)
    ensures
        from_secrets(cli, found, config, at, reply) matches TurnModel::Ask(
            next,
            _,
            _,
        ) ==> answers_left(cli, next) < answers_left(cli, Stage::Secrets(found, config, at)),
{
    lemma_instance(cli, found, config, InstancePoint::Start, Reply::Begin);
}

proof fn lemma_operator(
    cli: CliModel,
    found: PreflightModel,
    config: Seq<char>,
    at: OperatorPoint,
    reply: ReplyModel,
)
    ensures
        from_operator(cli, found, config, at, reply) matches TurnModel::Ask(
            next,
            _,
            _,
        ) ==> answers_left(cli, next) < answers_left(cli, Stage::Operator(found, config, at)),
{
    lemma_secrets(cli, found, config, SecretsPoint::Start, Reply::Begin);
}

proof fn lemma_config(cli: CliModel, found: PreflightModel, at: ConfigPointModel, reply: ReplyModel)
    ensures
        from_config(cli, found, at, reply) matches TurnModel::Ask(next, _, _) ==> answers_left(
            cli,
            next,
        ) < answers_left(cli, Stage::Config(found, at)),
{
    match config_turn(at, reply) {
        TurnModel::Done(_, config) => {
            lemma_operator(cli, found, config, OperatorPoint::Start, Reply::Begin);
        },
        _ => {},
    }
}

proof fn lemma_registry(cli: CliModel, found: PreflightModel, at: RegistryPoint, reply: ReplyModel)
    ensures
        from_registry(cli, found, at, reply) matches TurnModel::Ask(next, _, _) ==> answers_left(
            cli,
            next,
        ) < answers_left(cli, Stage::Registry(found, at)),
{
    lemma_config(cli, found, ConfigPoint::Start, Reply::Begin);
}

proof fn lemma_cluster(cli: CliModel, found: PreflightModel, at: KindPoint, reply: ReplyModel)
    ensures
        from_cluster(cli, found, at, reply) matches TurnModel::Ask(next, _, _) ==> answers_left(
            cli,
            next,
        ) < answers_left(cli, Stage::Cluster(found, at)),
{
    lemma_registry(cli, found, RegistryPoint::Start, Reply::Begin);
    lemma_config(cli, found, ConfigPoint::Start, Reply::Begin);
}

proof fn lemma_preflight_turn(cli: CliModel, at: PreflightPointModel, reply: ReplyModel)
    ensures
        preflight_turn(cli, at, reply) matches TurnModel::Ask(next, _, _) ==> preflight_left(
            cli,
            next,
        ) < preflight_left(cli, at),
{
}

proof fn lemma_preflight(cli: CliModel, at: PreflightPointModel, reply: ReplyModel)
    ensures
        from_preflight(cli, at, reply) matches TurnModel::Ask(next, _, _) ==> answers_left(
            cli,
            next,
        ) < answers_left(cli, Stage::Preflight(at)),
{
    lemma_preflight_turn(cli, at, reply);
    match preflight_turn(cli, at, reply) {
        TurnModel::Done(_, found) => {
            lemma_cluster(cli, found, KindPoint::Start, Reply::Begin);
        },
        _ => {},
    }
}

/// Each answer, whatever it says, brings the bootstrap closer to its end.
pub proof fn every_answer_counts(cli: CliModel, at: StageModel, reply: ReplyModel)
    ensures
        bootstrap_turn(cli, at, reply) matches TurnModel::Ask(next, _, _) ==> answers_left(cli, next)
            < answers_left(cli, at),
{
    match at {
        Stage::Preflight(at) => lemma_preflight(cli, at, reply),
        Stage::Cluster(found, at) => lemma_cluster(cli, found, at, reply),
        Stage::Registry(found, at) => lemma_registry(cli, found, at, reply),
        Stage::Config(found, at) => lemma_config(cli, found, at, reply),
        Stage::Operator(found, config, at) => lemma_operator(cli, found, config, at, reply),
        Stage::Secrets(found, config, at) => lemma_secrets(cli, found, config, at, reply),
        Stage::Instance(found, config, at) => lemma_instance(cli, found, config, at, reply),
        Stage::Watch(found, config, at) => lemma_watch(cli, found, config, at, reply),
        Stage::Finished => {},
        Stage::Abandoned(_) => {},
    }
}

/// Where the bootstrap stands when these answers have been given, one after the other, to `turn`
/// and what follows from it.
pub open spec fn played(
    cli: CliModel,
    turn: TurnModel<StageModel, ()>,
    answers: Seq<ReplyModel>,
) -> TurnModel<StageModel, ()>
    decreases answers.len(),
{
    match turn {
        TurnModel::Ask(at, _, _) => if answers.len() == 0 {
            turn
        } else {
            played(cli, bootstrap_turn(cli, at, answers[0]), answers.skip(1))
        },
        _ => turn,
    }
}

proof fn lemma_ends(cli: CliModel, turn: TurnModel<StageModel, ()>, answers: Seq<ReplyModel>)
    requires
        turn matches TurnModel::Ask(at, _, _) ==> answers_left(cli, at) <= answers.len(),
    ensures
        !(played(cli, turn, answers) is Ask),
    decreases answers.len(),
{
    match turn {
        TurnModel::Ask(at, _, _) => {
            every_answer_counts(cli, at, answers[0]);
            lemma_ends(cli, bootstrap_turn(cli, at, answers[0]), answers.skip(1));
        },
        _ => {},
    }
}

proof fn lemma_ends_after(
    cli: CliModel,
    at: StageModel,
    reply: ReplyModel,
    answers: Seq<ReplyModel>,
)
    requires
        answers_left(cli, at) <= answers.len(),
    ensures
        !(played(cli, bootstrap_turn(cli, at, reply), answers) is Ask),
{
    every_answer_counts(cli, at, reply);
    lemma_ends(cli, bootstrap_turn(cli, at, reply), answers);
}

/// The stage at which a bootstrap begins.
pub open spec fn opening() -> StageModel {
    Stage::Preflight(PreflightPoint::Start)
}

proof fn lemma_opening(cli: CliModel)
    ensures
        answers_left(cli, opening()) <= 304 + 2 * cli.registry_ready_retries,
{
}

/// Whatever the answers are, the bootstrap has succeeded or failed after three hundred and four
/// of them, and two more for each retry of the registry.
pub proof fn bootstrap_ends(cli: CliModel, answers: Seq<ReplyModel>)
    requires
        answers.len() >= 304 + 2 * cli.registry_ready_retries,
    ensures
        !(played(cli, bootstrap_turn(cli, opening(), Reply::Begin), answers) is Ask),
{
    lemma_opening(cli);
    lemma_ends_after(cli, opening(), Reply::Begin, answers);
}

} // verus!
