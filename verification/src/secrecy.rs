//! Secrets are shown to no one: the GitHub token reaches GitHub in a header, and `kubectl` on its
//! input; the secret age key stays in its file.

use crate::aws::{
    aws_turn, commented_key, missing_fields, AwsContext, AwsContextModel, AwsPoint,
};
use crate::bootstrap::{
    bootstrap_turn, config_turn, from_cluster, from_config, from_instance, from_operator,
    from_preflight, from_registry, from_secrets, from_watch, ConfigPoint, ConfigPointModel, Stage,
    StageModel,
};
use crate::cli::{given, Cli, CliModel};
use crate::cluster::KindPoint;
use crate::flux::{InstancePoint, OperatorPoint, SecretsPoint};
use crate::preflight::{
    from_aws, from_engine, preflight_turn, EnginePoint, Preflight, PreflightModel, PreflightPoint,
    PreflightPointModel,
};
use crate::protocol::{Action, ActionModel, Reply, ReplyModel, TurnModel};
use crate::registry::RegistryPoint;
use crate::watch::{WatchPoint, WatchPointModel};
use vstd::prelude::*;

verus! {

/// The settings with a token that is no secret, where they have one.
pub open spec fn without_token(cli: CliModel) -> CliModel {
    Cli {
        github_token: match given(cli.github_token) {
            Some(_) => Some(seq!['*']),
            None => None,
        },
        ..cli
    }
}

/// A context for AWS without the token.
pub open spec fn masked_context(aws: Option<AwsContextModel>) -> Option<AwsContextModel> {
    match aws {
        Some(aws) => Some(AwsContext { github_token: seq![], ..aws }),
        None => None,
    }
}

/// What the checks have found, without the token.
pub open spec fn masked_found(found: PreflightModel) -> PreflightModel {
    Preflight { aws: masked_context(found.aws), ..found }
}

/// A point of the checks, without the token.
pub open spec fn masked_check(at: PreflightPointModel) -> PreflightPointModel {
    match at {
        PreflightPoint::Engine(aws, at) => PreflightPoint::Engine(masked_context(aws), at),
        _ => at,
    }
}

/// A stage, without the token.
pub open spec fn masked_stage(at: StageModel) -> StageModel {
    match at {
        Stage::Preflight(at) => Stage::Preflight(masked_check(at)),
        Stage::Cluster(found, at) => Stage::Cluster(masked_found(found), at),
        Stage::Registry(found, at) => Stage::Registry(masked_found(found), at),
        Stage::Config(found, at) => Stage::Config(masked_found(found), at),
        Stage::Operator(found, config, at) => Stage::Operator(masked_found(found), config, at),
        Stage::Secrets(found, config, at) => Stage::Secrets(masked_found(found), config, at),
        Stage::Instance(found, config, at) => Stage::Instance(masked_found(found), config, at),
        Stage::Watch(found, config, at) => Stage::Watch(masked_found(found), config, at),
        Stage::Finished => at,
        Stage::Abandoned(_) => at,
    }
}

/// What others see of an action: all but the header of a request that says who asks, and the
/// input of a program whose output is kept.
pub open spec fn seen_action(action: ActionModel) -> ActionModel {
    match action {
        Action::GetAuthorized { url, accept, limit, .. } => Action::GetAuthorized {
            url,
            accept,
            authorization: seq![],
            limit,
        },
        Action::CaptureWithStdin(call, _) => Action::CaptureWithStdin(call, seq![]),
        _ => action,
    }
}

/// What others see of a turn.
pub open spec fn seen(turn: TurnModel<StageModel, ()>) -> TurnModel<StageModel, ()> {
    match turn {
        TurnModel::Ask(at, notes, action) => TurnModel::Ask(
            masked_stage(at),
            notes,
            seen_action(action),
        ),
        _ => turn,
    }
}

/// What others see of a turn of the checks.
spec fn seen_check(turn: TurnModel<PreflightPointModel, PreflightModel>) -> TurnModel<
    PreflightPointModel,
    PreflightModel,
> {
    match turn {
        TurnModel::Ask(at, notes, action) => TurnModel::Ask(
            masked_check(at),
            notes,
            seen_action(action),
        ),
        TurnModel::Done(notes, found) => TurnModel::Done(notes, masked_found(found)),
        TurnModel::Fail(_, _) => turn,
    }
}

proof fn lemma_watch(
    cli: CliModel,
    found: PreflightModel,
    config: Seq<char>,
    at: WatchPointModel,
    reply: ReplyModel,
)
    ensures
        seen(from_watch(cli, found, config, at, reply)) == seen(
            from_watch(without_token(cli), masked_found(found), config, at, reply),
        ),
{
}

proof fn lemma_instance(
    cli: CliModel,
    found: PreflightModel,
    config: Seq<char>,
    at: InstancePoint,
    reply: ReplyModel,
)
    ensures
        seen(from_instance(cli, found, config, at, reply)) == seen(
            from_instance(without_token(cli), masked_found(found), config, at, reply),
        ),
{
    lemma_watch(cli, found, config, WatchPoint::Start, Reply::Begin);
}

proof fn lemma_secrets(
    cli: CliModel,
    found: PreflightModel,
    config: Seq<char>,
    at: SecretsPoint,
    reply: ReplyModel,
)
    ensures
        seen(from_secrets(cli, found, config, at, reply)) == seen(
            from_secrets(without_token(cli), masked_found(found), config, at, reply),
        ),
{
    lemma_instance(cli, found, config, InstancePoint::Start, Reply::Begin);
}

proof fn lemma_operator(
    cli: CliModel,
    found: PreflightModel,
    config: Seq<char>,
    at: OperatorPoint,
    reply: ReplyModel,
)
    ensures
        seen(from_operator(cli, found, config, at, reply)) == seen(
            from_operator(without_token(cli), masked_found(found), config, at, reply),
        ),
{
    lemma_secrets(cli, found, config, SecretsPoint::Start, Reply::Begin);
}

proof fn lemma_config(cli: CliModel, found: PreflightModel, at: ConfigPointModel, reply: ReplyModel)
    ensures
        seen(from_config(cli, found, at, reply)) == seen(
            from_config(without_token(cli), masked_found(found), at, reply),
        ),
{
    match config_turn(at, reply) {
        TurnModel::Done(_, config) => {
            lemma_operator(cli, found, config, OperatorPoint::Start, Reply::Begin);
        },
        _ => {},
    }
}

proof fn lemma_registry(cli: CliModel, found: PreflightModel, at: RegistryPoint, reply: ReplyModel)
    ensures
        seen(from_registry(cli, found, at, reply)) == seen(
            from_registry(without_token(cli), masked_found(found), at, reply),
        ),
{
    lemma_config(cli, found, ConfigPoint::Start, Reply::Begin);
}

proof fn lemma_cluster(cli: CliModel, found: PreflightModel, at: KindPoint, reply: ReplyModel)
    ensures
        seen(from_cluster(cli, found, at, reply)) == seen(
            from_cluster(without_token(cli), masked_found(found), at, reply),
        ),
{
    lemma_registry(cli, found, RegistryPoint::Start, Reply::Begin);
    lemma_config(cli, found, ConfigPoint::Start, Reply::Begin);
}

proof fn lemma_engine(
    cli: CliModel,
    aws: Option<AwsContextModel>,
    at: EnginePoint,
    reply: ReplyModel,
)
    ensures
        seen_check(from_engine(cli, aws, at, reply)) == seen_check(
            from_engine(without_token(cli), masked_context(aws), at, reply),
        ),
{
}

proof fn lemma_aws(cli: CliModel, at: AwsPoint, reply: ReplyModel)
    ensures
        seen_check(from_aws(cli, at, reply)) == seen_check(
            from_aws(without_token(cli), at, reply),
        ),
{
    match aws_turn(cli, at, reply) {
        TurnModel::Done(_, aws) => {
            lemma_engine(cli, Some(aws), EnginePoint::Start, Reply::Begin);
            lemma_engine(
                without_token(cli),
                masked_context(Some(aws)),
                EnginePoint::Start,
                Reply::Begin,
            );
        },
        _ => {},
    }
}

proof fn lemma_checks(cli: CliModel, at: PreflightPointModel, reply: ReplyModel)
    ensures
        seen_check(preflight_turn(cli, at, reply)) == seen_check(
            preflight_turn(without_token(cli), masked_check(at), reply),
        ),
{
    lemma_aws(cli, AwsPoint::Start, Reply::Begin);
    lemma_engine(cli, None, EnginePoint::Start, Reply::Begin);
    match at {
        PreflightPoint::Start => {},
        PreflightPoint::ToolFound(_) => {},
        PreflightPoint::Aws(at) => lemma_aws(cli, at, reply),
        PreflightPoint::Engine(aws, at) => lemma_engine(cli, aws, at, reply),
    }
}

proof fn lemma_preflight(cli: CliModel, at: PreflightPointModel, reply: ReplyModel)
    ensures
        seen(from_preflight(cli, at, reply)) == seen(
            from_preflight(without_token(cli), masked_check(at), reply),
        ),
{
    lemma_checks(cli, at, reply);
    let masked = preflight_turn(without_token(cli), masked_check(at), reply);
    match preflight_turn(cli, at, reply) {
        TurnModel::Done(_, found) => {
            lemma_cluster(cli, found, KindPoint::Start, Reply::Begin);
            match masked {
                TurnModel::Done(_, other) => {
                    lemma_cluster(without_token(cli), other, KindPoint::Start, Reply::Begin);
                },
                _ => {},
            }
        },
        _ => {},
    }
}

proof fn lemma_masked(cli: CliModel, at: StageModel, reply: ReplyModel)
    ensures
        seen(bootstrap_turn(cli, at, reply)) == seen(
            bootstrap_turn(without_token(cli), masked_stage(at), reply),
        ),
{
    match at {
        Stage::Preflight(at) => lemma_preflight(cli, at, reply),
        Stage::Cluster(found, at) => lemma_cluster(cli, found, at, reply),
        Stage::Registry(found, at) => lemma_registry(cli, found, at, reply),
        Stage::Config(found, at) => lemma_config(cli, found, at, reply),
        Stage::Operator(found, config, at) => lemma_operator(cli, found, config, at, reply),
        Stage::Secrets(found, config, at) => lemma_secrets(cli, found, config, at, reply),
        Stage::Instance(found, config, at) => lemma_instance(cli, found, config, at, reply),
        Stage::Watch(found, config, at) => lemma_watch(cli, found, config, at, reply),
        Stage::Finished => {},
        Stage::Abandoned(_) => {},
    }
}

/// Two bootstraps that differ in their token alone look the same, answer by answer: the same
/// notes, the same failures, and the same actions with the same arguments and variables of each
/// program. The token is seen in no list of running programs and in no message.
pub proof fn token_stays_out_of_sight(
    cli: CliModel,
    at: StageModel,
    other_cli: CliModel,
    other_at: StageModel,
    reply: ReplyModel,
)
    requires
        without_token(cli) == without_token(other_cli),
        masked_stage(at) == masked_stage(other_at),
    ensures
        seen(bootstrap_turn(cli, at, reply)) == seen(bootstrap_turn(other_cli, other_at, reply)),
{
    lemma_masked(cli, at, reply);
    lemma_masked(other_cli, other_at, reply);
}

/// Of an age key file nothing is passed on but its public key: two files that lack the same fields
/// and name the same public key lead to the same, whatever secret key they hold.
pub proof fn secret_key_stays_in_its_file(
    cli: CliModel,
    at: AwsPoint,
    contents: Seq<char>,
    other: Seq<char>,
)
    requires
        missing_fields(contents) == missing_fields(other),
        commented_key(contents) == commented_key(other),
    ensures
        ({
            let stage: StageModel = Stage::Preflight(PreflightPoint::Aws(at));
            bootstrap_turn(cli, stage, Reply::Text(Ok(contents))) == bootstrap_turn(
                cli,
                stage,
                Reply::Text(Ok(other)),
            )
        }),
{
}

} // verus!
