//! When success is owed: exactly where the settings are usable and every answer is favourable.

use crate::answers::{preflight_kind, reply_kind, stage_kind, watch_kind};
use crate::aws::{missing_fields, nothing_missing, public_key, repository, AwsPoint};
use crate::bootstrap::{
    bootstrap_turn, config_turn, from_cluster, from_config, from_instance, from_operator,
    from_preflight, from_registry, from_secrets, from_watch, ConfigPoint, ConfigPointModel, Stage,
    StageModel,
};
use crate::cli::{given, CliModel, Profile};
use crate::cluster::KindPoint;
use crate::flux::{InstancePoint, OperatorPoint, SecretsPoint};
use crate::order::{check_suits, phases_follow_each_other, stage_suits};
use crate::preflight::{
    preflight_turn, EnginePoint, PreflightModel, PreflightPoint, PreflightPointModel,
};
use crate::process::{output_text, succeeded};
use crate::protocol::{Reply, ReplyModel, TurnModel};
use crate::registry::{ready, RegistryPoint};
use crate::termination::{bootstrap_ends, opening, played};
use crate::watch::{published_port, Poll, WatchPoint, WatchPointModel};
use vstd::prelude::*;

verus! {

/// Tells whether the settings hold what their profile needs, and name no engine that is not
/// supported.
pub open spec fn usable(cli: CliModel) -> bool {
    &&& cli.profile == Profile::Aws ==> {
        &&& given(cli.github_token) is Some
        &&& given(cli.git_repo_url) is Some
        &&& repository(given(cli.git_repo_url)->0) is Some
    }
    &&& given(cli.container_engine) matches Some(engine) ==> engine == "docker"@ || engine
        == "podman"@
}

/// Tells whether an answer reports success, in the way of its kind.
pub open spec fn reports_success(reply: ReplyModel) -> bool {
    match reply {
        Reply::Begin => true,
        Reply::Done => true,
        Reply::Found(found) => found,
        Reply::Ended(_) => succeeded(reply),
        Reply::Status(code) => code == Some(200u16),
        Reply::Text(text) => text is Ok,
        Reply::Finished(result) => result is Ok,
    }
}

/// Tells whether the search for the container engine may go on: where Docker is missing or does
/// not run, Podman is looked for, and what an engine tells about itself is taken as it is.
pub open spec fn good_for_engine(at: EnginePoint, reply: ReplyModel) -> bool {
    match at {
        EnginePoint::DockerFound => true,
        EnginePoint::DockerRuns => true,
        EnginePoint::DockerNamed => true,
        EnginePoint::SocketFound => true,
        _ => reports_success(reply),
    }
}

/// Tells whether an answer is a valid key file, with a public key or one in the settings.
pub open spec fn good_key_file(cli: CliModel, reply: ReplyModel) -> bool {
    &&& reply matches Reply::Text(Ok(contents))
    &&& nothing_missing(missing_fields(contents))
    &&& public_key(cli.age_public_key, contents) is Some
}

/// Tells whether an attempt to find a resource has succeeded, or is not the last.
pub open spec fn good_for_poll(at: Poll, reply: ReplyModel) -> bool {
    at matches Poll::Trying(attempts) ==> succeeded(reply) || attempts > 0
}

/// Tells whether the watch may go on: waiting for a resource does with any attempt but a last one
/// that fails, and the published port has to be a number.
pub open spec fn good_for_watch(at: WatchPointModel, reply: ReplyModel) -> bool {
    match at {
        WatchPoint::ManagementAppears(poll) => good_for_poll(poll, reply),
        WatchPoint::WorkloadAppears(_, poll) => good_for_poll(poll, reply),
        WatchPoint::PortFound(_) => succeeded(reply) && published_port(output_text(reply)) is Some,
        _ => reports_success(reply),
    }
}

/// Tells whether the bootstrap may go on from a stage with an answer of the kind that it waits for:
/// the answer reports success, or the stage can do without. A list of what there is already may be
/// any, the registry may be late while retries remain, and the Flux controllers may be late.
pub open spec fn favourable(cli: CliModel, at: StageModel, reply: ReplyModel) -> bool {
    match at {
        Stage::Preflight(PreflightPoint::Aws(AwsPoint::KeyFileRead)) => good_key_file(cli, reply),
        Stage::Preflight(PreflightPoint::Engine(_, at)) => good_for_engine(at, reply),
        Stage::Cluster(_, KindPoint::Listed) => true,
        Stage::Registry(_, RegistryPoint::Listed) => true,
        Stage::Registry(_, RegistryPoint::RunningListed) => true,
        Stage::Registry(_, RegistryPoint::Probed(retries)) => ready(reply) || retries > 0,
        Stage::Instance(_, _, InstancePoint::ControllersReady) => true,
        Stage::Watch(_, _, at) => good_for_watch(at, reply),
        _ => reports_success(reply),
    }
}

/// Tells whether waiting for a resource may still find it.
pub open spec fn hopeful_poll(at: Poll) -> bool {
    match at {
        Poll::Start(attempts) => attempts > 0,
        Poll::Trying(_) => true,
        Poll::Pausing(attempts) => attempts > 0,
    }
}

/// Tells whether the watch may still succeed.
pub open spec fn hopeful_watch(at: WatchPointModel) -> bool {
    match at {
        WatchPoint::ManagementAppears(poll) => hopeful_poll(poll),
        WatchPoint::ManagementMissing => false,
        WatchPoint::ManagementLate => false,
        WatchPoint::WorkloadAppears(_, poll) => hopeful_poll(poll),
        WatchPoint::WorkloadMissing(_) => false,
        WatchPoint::WorkloadLate(_) => false,
        WatchPoint::Abandoned(_) => false,
        _ => true,
    }
}

/// Tells whether the bootstrap may still succeed from a stage: it does not only tell any more why
/// it has failed, and has not given up.
pub open spec fn hopeful(at: StageModel) -> bool {
    match at {
        Stage::Config(_, at) => !(at is Abandoned),
        Stage::Watch(_, _, at) => hopeful_watch(at),
        Stage::Abandoned(_) => false,
        _ => true,
    }
}

/// Tells whether `turn` has not failed, and may still succeed.
pub open spec fn leads_on(turn: TurnModel<StageModel, ()>) -> bool {
    match turn {
        TurnModel::Ask(next, _, _) => hopeful(next),
        TurnModel::Done(_, ()) => true,
        TurnModel::Fail(_, _) => false,
    }
}

proof fn lemma_watch(
    cli: CliModel,
    found: PreflightModel,
    config: Seq<char>,
    at: WatchPointModel,
    reply: ReplyModel,
)
    requires
        reply_kind(reply) == watch_kind(at),
    ensures
        leads_on(from_watch(cli, found, config, at, reply)) <==> hopeful_watch(at)
            && good_for_watch(at, reply),
{
}

proof fn lemma_instance(
    cli: CliModel,
    found: PreflightModel,
    config: Seq<char>,
    at: InstancePoint,
    reply: ReplyModel,
)
    requires
        reply_kind(reply) == stage_kind(Stage::Instance(found, config, at)),
    ensures
        leads_on(from_instance(cli, found, config, at, reply)) <==> favourable(
            cli,
            Stage::Instance(found, config, at),
            reply,
        ),
{
    lemma_watch(cli, found, config, WatchPoint::Start, Reply::Begin);
}

proof fn lemma_secrets(
    cli: CliModel,
    found: PreflightModel,
    config: Seq<char>,
    at: SecretsPoint,
    reply: ReplyModel,
)
    requires
        reply_kind(reply) == stage_kind(Stage::Secrets(found, config, at)),
    ensures
        found.aws is Some ==> (leads_on(from_secrets(cli, found, config, at, reply))
            <==> favourable(cli, Stage::Secrets(found, config, at), reply)),
        at is Start ==> leads_on(from_secrets(cli, found, config, at, reply)),
{
    lemma_instance(cli, found, config, InstancePoint::Start, Reply::Begin);
}

proof fn lemma_operator(
    cli: CliModel,
    found: PreflightModel,
    config: Seq<char>,
    at: OperatorPoint,
    reply: ReplyModel,
)
    requires
        reply_kind(reply) == stage_kind(Stage::Operator(found, config, at)),
    ensures
        leads_on(from_operator(cli, found, config, at, reply)) <==> favourable(
            cli,
            Stage::Operator(found, config, at),
            reply,
        ),
{
    lemma_secrets(cli, found, config, SecretsPoint::Start, Reply::Begin);
}

proof fn lemma_config(cli: CliModel, found: PreflightModel, at: ConfigPointModel, reply: ReplyModel)
    requires
        reply_kind(reply) == stage_kind(Stage::Config(found, at)),
    ensures
        leads_on(from_config(cli, found, at, reply)) <==> hopeful(Stage::Config(found, at))
            && favourable(cli, Stage::Config(found, at), reply),
{
    match config_turn(at, reply) {
        TurnModel::Done(_, config) => {
            lemma_operator(cli, found, config, OperatorPoint::Start, Reply::Begin);
        },
        _ => {},
    }
}

proof fn lemma_registry(cli: CliModel, found: PreflightModel, at: RegistryPoint, reply: ReplyModel)
    requires
        reply_kind(reply) == stage_kind(Stage::Registry(found, at)),
    ensures
        leads_on(from_registry(cli, found, at, reply)) <==> favourable(
            cli,
            Stage::Registry(found, at),
            reply,
        ),
{
    lemma_config(cli, found, ConfigPoint::Start, Reply::Begin);
}

proof fn lemma_cluster(cli: CliModel, found: PreflightModel, at: KindPoint, reply: ReplyModel)
    requires
        reply_kind(reply) == stage_kind(Stage::Cluster(found, at)),
    ensures
        leads_on(from_cluster(cli, found, at, reply)) <==> favourable(
            cli,
            Stage::Cluster(found, at),
            reply,
        ),
{
    lemma_registry(cli, found, RegistryPoint::Start, Reply::Begin);
    lemma_config(cli, found, ConfigPoint::Start, Reply::Begin);
}

proof fn lemma_checks(cli: CliModel, at: PreflightPointModel, reply: ReplyModel)
    requires
        usable(cli),
        check_suits(cli, at),
        reply_kind(reply) == preflight_kind(at),
    ensures
        !(preflight_turn(cli, at, reply) is Fail) <==> favourable(
            cli,
            Stage::Preflight(at),
            reply,
        ),
{
}

proof fn lemma_preflight(cli: CliModel, at: PreflightPointModel, reply: ReplyModel)
    requires
        usable(cli),
        check_suits(cli, at),
        reply_kind(reply) == preflight_kind(at),
    ensures
        leads_on(from_preflight(cli, at, reply)) <==> favourable(cli, Stage::Preflight(at), reply),
{
    lemma_checks(cli, at, reply);
    match preflight_turn(cli, at, reply) {
        TurnModel::Done(_, found) => {
            lemma_cluster(cli, found, KindPoint::Start, Reply::Begin);
        },
        _ => {},
    }
}

/// With usable settings, an answer of the right kind leaves the bootstrap able to succeed if and
/// only if it was able to before, and the answer is favourable.
pub proof fn favourable_answers_lead_on(cli: CliModel, at: StageModel, reply: ReplyModel)
    requires
        usable(cli),
        stage_suits(cli, at),
        reply_kind(reply) == stage_kind(at),
    ensures
        leads_on(bootstrap_turn(cli, at, reply)) <==> hopeful(at) && favourable(cli, at, reply),
{
    match at {
        Stage::Preflight(at) => lemma_preflight(cli, at, reply),
        Stage::Cluster(found, at) => lemma_cluster(cli, found, at, reply),
        Stage::Registry(found, at) => lemma_registry(cli, found, at, reply),
        Stage::Config(found, at) => lemma_config(cli, found, at, reply),
        Stage::Operator(found, config, at) => lemma_operator(cli, found, config, at, reply),
        Stage::Secrets(found, config, at) => lemma_secrets(cli, found, config, at, reply),
        Stage::Instance(found, config, at) => lemma_instance(cli, found, config, at, reply),
        Stage::Watch(found, config, at) => lemma_watch(cli, found, config, at, reply),
        Stage::Finished => {},
        Stage::Abandoned(_) => {},
    }
}

/// Tells whether these answers, given one after the other to `turn` and what follows from it, are
/// all of the kinds that are waited for, as far as the bootstrap takes them.
pub open spec fn all_fitting(
    cli: CliModel,
    turn: TurnModel<StageModel, ()>,
    answers: Seq<ReplyModel>,
) -> bool
    decreases answers.len(),
{
    match turn {
        TurnModel::Ask(at, _, _) => answers.len() > 0 ==> {
            &&& reply_kind(answers[0]) == stage_kind(at)
            &&& all_fitting(cli, bootstrap_turn(cli, at, answers[0]), answers.skip(1))
        },
        _ => true,
    }
}

/// Tells whether these answers, given one after the other to `turn` and what follows from it, are
/// all favourable, as far as the bootstrap takes them.
pub open spec fn all_favourable(
    cli: CliModel,
    turn: TurnModel<StageModel, ()>,
    answers: Seq<ReplyModel>,
) -> bool
    decreases answers.len(),
{
    match turn {
        TurnModel::Ask(at, _, _) => answers.len() > 0 ==> {
            &&& favourable(cli, at, answers[0])
            &&& all_favourable(cli, bootstrap_turn(cli, at, answers[0]), answers.skip(1))
        },
        _ => true,
    }
}

proof fn lemma_outcome(cli: CliModel, turn: TurnModel<StageModel, ()>, answers: Seq<ReplyModel>)
    requires
        usable(cli),
        turn matches TurnModel::Ask(at, _, _) ==> stage_suits(cli, at),
        all_fitting(cli, turn, answers),
        !(played(cli, turn, answers) is Ask),
    ensures
        played(cli, turn, answers) is Done <==> leads_on(turn) && all_favourable(
            cli,
            turn,
            answers,
        ),
    decreases answers.len(),
{
    match turn {
        TurnModel::Ask(at, _, _) => {
            favourable_answers_lead_on(cli, at, answers[0]);
            phases_follow_each_other(cli, at, answers[0]);
            lemma_outcome(cli, bootstrap_turn(cli, at, answers[0]), answers.skip(1));
        },
        _ => {},
    }
}

/// Tells whether the checks have not come to the container engine.
spec fn before_engine(at: StageModel) -> bool {
    at matches Stage::Preflight(at) && !(at is Engine)
}

proof fn lemma_unusable_turn(cli: CliModel, at: StageModel, reply: ReplyModel)
    requires
        !usable(cli),
        stage_suits(cli, at),
        before_engine(at),
    ensures
        match bootstrap_turn(cli, at, reply) {
            TurnModel::Ask(next, _, _) => before_engine(next),
            TurnModel::Done(_, ()) => false,
            TurnModel::Fail(_, _) => true,
        },
{
}

proof fn lemma_unusable(cli: CliModel, turn: TurnModel<StageModel, ()>, answers: Seq<ReplyModel>)
    requires
        !usable(cli),
        turn matches TurnModel::Ask(at, _, _) ==> before_engine(at) && stage_suits(cli, at),
        !(turn is Done),
    ensures
        !(played(cli, turn, answers) is Done),
    decreases answers.len(),
{
    match turn {
        TurnModel::Ask(at, _, _) => if answers.len() > 0 {
            lemma_unusable_turn(cli, at, answers[0]);
            phases_follow_each_other(cli, at, answers[0]);
            lemma_unusable(cli, bootstrap_turn(cli, at, answers[0]), answers.skip(1));
        },
        _ => {},
    }
}

/// The bootstrap succeeds if and only if its settings are usable and all its answers favourable:
/// after three hundred and four answers at most, and two more for each retry of the registry.
pub proof fn bootstrap_succeeds(cli: CliModel, answers: Seq<ReplyModel>)
    requires
        all_fitting(cli, bootstrap_turn(cli, opening(), Reply::Begin), answers),
        answers.len() >= 304 + 2 * cli.registry_ready_retries,
    ensures
        ({
            let first = bootstrap_turn(cli, opening(), Reply::Begin);
            played(cli, first, answers) is Done <==> usable(cli) && all_favourable(
                cli,
                first,
                answers,
            )
        }),
{
    let first = bootstrap_turn(cli, opening(), Reply::Begin);
    bootstrap_ends(cli, answers);
    phases_follow_each_other(cli, opening(), Reply::Begin);
    if usable(cli) {
        favourable_answers_lead_on(cli, opening(), Reply::Begin);
        lemma_outcome(cli, first, answers);
    } else {
        lemma_unusable_turn(cli, opening(), Reply::Begin);
        lemma_unusable(cli, first, answers);
    }
}

} // verus!
