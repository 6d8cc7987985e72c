//! The order of the phases, and what each profile skips.

use crate::answers::abandoned;
use crate::aws::{repository, AwsContextModel};
use crate::bootstrap::{
    bootstrap_turn, config_turn, from_cluster, from_config, from_instance, from_operator,
    from_preflight, from_registry, from_secrets, from_watch, ConfigPoint, ConfigPointModel, Stage,
    StageModel,
};
use crate::cli::{CliModel, Profile};
use crate::cluster::KindPoint;
use crate::flux::{InstancePoint, OperatorPoint, SecretsPoint};
use crate::preflight::{
    engine_turn, preflight_turn, tools, EnginePoint, PreflightModel, PreflightPoint,
    PreflightPointModel,
};
use crate::protocol::{Reply, ReplyModel, TurnModel};
use crate::registry::RegistryPoint;
use crate::termination::opening;
use crate::watch::{WatchPoint, WatchPointModel};
use vstd::prelude::*;

verus! {

/// Tells whether a context for AWS holds what the settings say, of a repository on GitHub, and a
/// public key.
pub open spec fn context_suits(cli: CliModel, aws: AwsContextModel) -> bool {
    &&& cli.git_repo_url == Some(aws.git_repo_url)
    &&& cli.github_token == Some(aws.github_token)
    &&& cli.github_user == aws.github_user
    &&& cli.age_key_file == aws.age_key_file
    &&& repository(aws.git_repo_url) is Some
    &&& aws.age_pubkey.len() > 0
}

/// Tells whether there is a context exactly where the profile is the one for AWS.
pub open spec fn optional_context_suits(cli: CliModel, aws: Option<AwsContextModel>) -> bool {
    match cli.profile {
        Profile::Aws => aws is Some && context_suits(cli, aws->0),
        Profile::LocalHost => aws is None,
    }
}

/// Tells whether the checks have found what the profile needs, and an engine that is supported.
pub open spec fn found_suits(cli: CliModel, found: PreflightModel) -> bool {
    &&& optional_context_suits(cli, found.aws)
    &&& found.engine == "docker"@ || found.engine == "podman"@
    &&& found.engine_sock.len() > 0
}

/// Tells whether a point of the checks is one that the profile comes to: a tool that it looks for,
/// or what it needs.
pub open spec fn check_suits(cli: CliModel, at: PreflightPointModel) -> bool {
    match at {
        PreflightPoint::Start => true,
        PreflightPoint::ToolFound(place) => place < tools(cli.profile).len(),
        PreflightPoint::Aws(_) => cli.profile == Profile::Aws,
        PreflightPoint::Engine(aws, _) => optional_context_suits(cli, aws),
    }
}

/// Tells whether a stage is one that the profile comes to, with what it needs.
pub open spec fn stage_suits(cli: CliModel, at: StageModel) -> bool {
    match at {
        Stage::Preflight(at) => check_suits(cli, at),
        Stage::Cluster(found, _) => found_suits(cli, found),
        Stage::Registry(found, _) => found_suits(cli, found) && cli.profile == Profile::LocalHost,
        Stage::Config(found, _) => found_suits(cli, found),
        Stage::Operator(found, _, _) => found_suits(cli, found),
        Stage::Secrets(found, _, _) => found_suits(cli, found) && cli.profile == Profile::Aws,
        Stage::Instance(found, _, _) => found_suits(cli, found),
        Stage::Watch(found, _, _) => found_suits(cli, found) && cli.profile == Profile::LocalHost,
        Stage::Finished => true,
        Stage::Abandoned(_) => true,
    }
}

/// The phases of a bootstrap.
pub enum Phase {
    Preflight,
    Cluster,
    Registry,
    Config,
    Operator,
    Secrets,
    Instance,
    Watch,
    /// Cleaning up, after all others.
    Cleanup,
    /// Cleaning up after a failure.
    Abandoned,
}

/// The phase of a stage.
pub open spec fn phase(at: StageModel) -> Phase {
    match at {
        Stage::Preflight(_) => Phase::Preflight,
        Stage::Cluster(_, _) => Phase::Cluster,
        Stage::Registry(_, _) => Phase::Registry,
        Stage::Config(_, _) => Phase::Config,
        Stage::Operator(_, _, _) => Phase::Operator,
        Stage::Secrets(_, _, _) => Phase::Secrets,
        Stage::Instance(_, _, _) => Phase::Instance,
        Stage::Watch(_, _, _) => Phase::Watch,
        Stage::Finished => Phase::Cleanup,
        Stage::Abandoned(_) => Phase::Abandoned,
    }
}

/// The phase behind another one; `None` behind the last.
pub open spec fn following(profile: Profile, current: Phase) -> Option<Phase> {
    match (current, profile) {
        (Phase::Preflight, _) => Some(Phase::Cluster),
        (Phase::Cluster, Profile::LocalHost) => Some(Phase::Registry),
        (Phase::Cluster, Profile::Aws) => Some(Phase::Config),
        (Phase::Registry, _) => Some(Phase::Config),
        (Phase::Config, _) => Some(Phase::Operator),
        (Phase::Operator, Profile::LocalHost) => Some(Phase::Instance),
        (Phase::Operator, Profile::Aws) => Some(Phase::Secrets),
        (Phase::Secrets, _) => Some(Phase::Instance),
        (Phase::Instance, Profile::LocalHost) => Some(Phase::Watch),
        (Phase::Instance, Profile::Aws) => Some(Phase::Cleanup),
        (Phase::Watch, _) => Some(Phase::Cleanup),
        (Phase::Cleanup, _) => None,
        (Phase::Abandoned, _) => None,
    }
}

/// Tells whether `turn` stays in `current`, goes on to the phase behind it, ends the last one, or
/// gives up.
pub open spec fn in_order(cli: CliModel, current: Phase, turn: TurnModel<StageModel, ()>) -> bool {
    match turn {
        TurnModel::Ask(next, _, _) => {
            &&& stage_suits(cli, next)
            &&& phase(next) == current || following(cli.profile, current) == Some(phase(next))
                || abandoned(next) is Some
        },
        TurnModel::Done(_, ()) => current is Cleanup,
        TurnModel::Fail(_, _) => true,
    }
}

proof fn lemma_watch(
    cli: CliModel,
    found: PreflightModel,
    config: Seq<char>,
    at: WatchPointModel,
    reply: ReplyModel,
)
    requires
        stage_suits(cli, Stage::Watch(found, config, at)),
    ensures
        in_order(cli, Phase::Watch, from_watch(cli, found, config, at, reply)),
        at is Start ==> (from_watch(cli, found, config, at, reply) matches TurnModel::Ask(
            next,
            _,
            _,
        ) && next is Watch),
{
}

proof fn lemma_instance(
    cli: CliModel,
    found: PreflightModel,
    config: Seq<char>,
    at: InstancePoint,
    reply: ReplyModel,
)
    requires
        stage_suits(cli, Stage::Instance(found, config, at)),
    ensures
        in_order(cli, Phase::Instance, from_instance(cli, found, config, at, reply)),
        at is Start ==> (from_instance(cli, found, config, at, reply) matches TurnModel::Ask(
            next,
            _,
            _,
        ) && next is Instance),
{
    if cli.profile == Profile::LocalHost {
        lemma_watch(cli, found, config, WatchPoint::Start, Reply::Begin);
    }
}

proof fn lemma_secrets(
    cli: CliModel,
    found: PreflightModel,
    config: Seq<char>,
    at: SecretsPoint,
    reply: ReplyModel,
)
    requires
        stage_suits(cli, Stage::Secrets(found, config, at)),
    ensures
        in_order(cli, Phase::Secrets, from_secrets(cli, found, config, at, reply)),
        at is Start ==> (from_secrets(cli, found, config, at, reply) matches TurnModel::Ask(
            next,
            _,
            _,
        ) && next is Secrets),
{
    lemma_instance(cli, found, config, InstancePoint::Start, Reply::Begin);
}

proof fn lemma_operator(
    cli: CliModel,
    found: PreflightModel,
    config: Seq<char>,
    at: OperatorPoint,
    reply: ReplyModel,
)
    requires
        stage_suits(cli, Stage::Operator(found, config, at)),
    ensures
        in_order(cli, Phase::Operator, from_operator(cli, found, config, at, reply)),
        at is Start ==> (from_operator(cli, found, config, at, reply) matches TurnModel::Ask(
            next,
            _,
            _,
        ) && next is Operator),
{
    match cli.profile {
        Profile::Aws => {
            lemma_secrets(cli, found, config, SecretsPoint::Start, Reply::Begin);
        },
        Profile::LocalHost => {
            lemma_instance(cli, found, config, InstancePoint::Start, Reply::Begin);
        },
    }
}

proof fn lemma_config(cli: CliModel, found: PreflightModel, at: ConfigPointModel, reply: ReplyModel)
    requires
        stage_suits(cli, Stage::Config(found, at)),
    ensures
        in_order(cli, Phase::Config, from_config(cli, found, at, reply)),
        at is Start ==> (from_config(cli, found, at, reply) matches TurnModel::Ask(next, _, _)
            && next is Config),
{
    match config_turn(at, reply) {
        TurnModel::Done(_, config) => {
            lemma_operator(cli, found, config, OperatorPoint::Start, Reply::Begin);
        },
        _ => {},
    }
}

proof fn lemma_registry(cli: CliModel, found: PreflightModel, at: RegistryPoint, reply: ReplyModel)
    requires
        stage_suits(cli, Stage::Registry(found, at)),
    ensures
        in_order(cli, Phase::Registry, from_registry(cli, found, at, reply)),
        at is Start ==> (from_registry(cli, found, at, reply) matches TurnModel::Ask(next, _, _)
            && next is Registry),
{
    lemma_config(cli, found, ConfigPoint::Start, Reply::Begin);
}

proof fn lemma_cluster(cli: CliModel, found: PreflightModel, at: KindPoint, reply: ReplyModel)
    requires
        stage_suits(cli, Stage::Cluster(found, at)),
    ensures
        in_order(cli, Phase::Cluster, from_cluster(cli, found, at, reply)),
        at is Start ==> (from_cluster(cli, found, at, reply) matches TurnModel::Ask(next, _, _)
            && next is Cluster),
{
    match cli.profile {
        Profile::Aws => {
            lemma_config(cli, found, ConfigPoint::Start, Reply::Begin);
        },
        Profile::LocalHost => {
            lemma_registry(cli, found, RegistryPoint::Start, Reply::Begin);
        },
    }
}

proof fn lemma_engine(cli: CliModel, at: EnginePoint, reply: ReplyModel)
    ensures
        engine_turn(cli, at, reply) matches TurnModel::Done(_, engine) ==> (engine.name
            == "docker"@ || engine.name == "podman"@) && engine.sock.len() > 0,
{
    reveal_strlit("/var/run/docker.sock");
    reveal_strlit("/run/podman/podman.sock");
}

proof fn lemma_checks(cli: CliModel, at: PreflightPointModel, reply: ReplyModel)
    requires
        check_suits(cli, at),
    ensures
        match preflight_turn(cli, at, reply) {
            TurnModel::Ask(next, _, _) => check_suits(cli, next),
            TurnModel::Done(_, found) => found_suits(cli, found),
            TurnModel::Fail(_, _) => true,
        },
{
    match at {
        PreflightPoint::Start => {
            lemma_engine(cli, EnginePoint::Start, Reply::Begin);
        },
        PreflightPoint::ToolFound(_) => {
            lemma_engine(cli, EnginePoint::Start, Reply::Begin);
        },
        PreflightPoint::Aws(_) => {
            lemma_engine(cli, EnginePoint::Start, Reply::Begin);
        },
        PreflightPoint::Engine(_, at) => {
            lemma_engine(cli, at, reply);
        },
    }
}

proof fn lemma_preflight(cli: CliModel, at: PreflightPointModel, reply: ReplyModel)
    requires
        check_suits(cli, at),
    ensures
        in_order(cli, Phase::Preflight, from_preflight(cli, at, reply)),
{
    lemma_checks(cli, at, reply);
    match preflight_turn(cli, at, reply) {
        TurnModel::Done(_, found) => {
            lemma_cluster(cli, found, KindPoint::Start, Reply::Begin);
        },
        _ => {},
    }
}

/// The bootstrap goes through the phases of its profile in their order, leaves none out unless it
/// gives up, and succeeds only at the end of the last. No stage lacks what it needs: on AWS there
/// is the context that the checks made of the settings, on the local host there is none, and the
/// container engine is a supported one.
pub proof fn phases_follow_each_other(cli: CliModel, at: StageModel, reply: ReplyModel)
    requires
        stage_suits(cli, at),
    ensures
        in_order(cli, phase(at), bootstrap_turn(cli, at, reply)),
        stage_suits(cli, opening()),
{
    match at {
        Stage::Preflight(at) => lemma_preflight(cli, at, reply),
        Stage::Cluster(found, at) => lemma_cluster(cli, found, at, reply),
        Stage::Registry(found, at) => lemma_registry(cli, found, at, reply),
        Stage::Config(found, at) => lemma_config(cli, found, at, reply),
        Stage::Operator(found, config, at) => lemma_operator(cli, found, config, at, reply),
        Stage::Secrets(found, config, at) => lemma_secrets(cli, found, config, at, reply),
        Stage::Instance(found, config, at) => lemma_instance(cli, found, config, at, reply),
        Stage::Watch(found, config, at) => lemma_watch(cli, found, config, at, reply),
        Stage::Finished => {},
        Stage::Abandoned(_) => {},
    }
}

} // verus!
