//! Nothing is left behind: the temporary files are removed, and no program runs on, whether the
//! bootstrap succeeds or fails.

use crate::bootstrap::{
    bootstrap_turn, config_turn, from_cluster, from_config, from_instance, from_operator,
    from_preflight, from_registry, from_secrets, from_watch, ConfigPoint, ConfigPointModel, Stage,
    StageModel,
};
use crate::cli::CliModel;
use crate::cluster::KindPoint;
use crate::flux::{InstancePoint, OperatorPoint, SecretsPoint};
use crate::preflight::{preflight_turn, PreflightModel, PreflightPointModel};
use crate::protocol::{Action, Reply, ReplyModel, TurnModel};
use crate::registry::RegistryPoint;
use crate::termination::opening;
use crate::watch::{
    follows_after, follows_logs, kubeconfig_after, kubeconfig_of, watch_cleans_up, WatchPoint,
    WatchPointModel,
};
use vstd::prelude::*;

verus! {

/// The registry configuration, and the kubeconfig where there is one.
pub open spec fn both_files(config: Seq<char>, kubeconfig: Option<Seq<char>>) -> Seq<Seq<char>> {
    match kubeconfig {
        Some(path) => seq![config, path],
        None => seq![config],
    }
}

/// The temporary files that are there at a stage, in the order in which they were made.
pub open spec fn held(at: StageModel) -> Seq<Seq<char>> {
    match at {
        Stage::Config(_, ConfigPoint::Written(path)) => seq![path],
        Stage::Operator(_, config, _) => seq![config],
        Stage::Secrets(_, config, _) => seq![config],
        Stage::Instance(_, config, _) => seq![config],
        Stage::Watch(_, config, at) => both_files(config, kubeconfig_of(at)),
        _ => seq![],
    }
}

/// The temporary files that are there after an answer: one that was asked for is there once its
/// path is known.
pub open spec fn held_after(at: StageModel, reply: ReplyModel) -> Seq<Seq<char>> {
    match (at, reply) {
        (Stage::Config(_, ConfigPoint::Made), Reply::Text(Ok(path))) => seq![path],
        (Stage::Watch(_, config, at), _) => both_files(config, kubeconfig_after(at, reply)),
        _ => held(at),
    }
}

/// Tells whether a program runs on at a stage.
pub open spec fn runs_on(at: StageModel) -> bool {
    at matches Stage::Watch(_, _, at) && follows_logs(at)
}

/// Tells whether a program runs on after an answer.
pub open spec fn runs_on_after(at: StageModel, reply: ReplyModel) -> bool {
    at matches Stage::Watch(_, _, at) && follows_after(at, reply)
}

/// Tells whether `turn` accounts for these files, and for the program that runs on, where one
/// does: the last of the files is removed, which stops the program; or all files are kept, and the
/// program runs on; or there are none at the end.
pub open spec fn accounts_for(
    files: Seq<Seq<char>>,
    running: bool,
    turn: TurnModel<StageModel, ()>,
) -> bool {
    match turn {
        TurnModel::Ask(next, _, Action::Release(path)) => files == held(next).push(path)
            && !runs_on(next),
        TurnModel::Ask(next, _, _) => files == held(next) && running == runs_on(next),
        _ => files.len() == 0 && !running,
    }
}

proof fn lemma_watch(
    cli: CliModel,
    found: PreflightModel,
    config: Seq<char>,
    at: WatchPointModel,
    reply: ReplyModel,
)
    ensures
        accounts_for(
            both_files(config, kubeconfig_after(at, reply)),
            follows_after(at, reply),
            from_watch(cli, found, config, at, reply),
        ),
{
    watch_cleans_up(cli, found.engine, at, reply);
    assert forall|path: Seq<char>| #[trigger] seq![config].push(path) =~= seq![config, path] by {}
    assert(Seq::<Seq<char>>::empty().push(config) =~= seq![config]);
}

proof fn lemma_instance(
    cli: CliModel,
    found: PreflightModel,
    config: Seq<char>,
    at: InstancePoint,
    reply: ReplyModel,
)
    ensures
        accounts_for(seq![config], false, from_instance(cli, found, config, at, reply)),
{
    lemma_watch(cli, found, config, WatchPoint::Start, Reply::Begin);
    assert(Seq::<Seq<char>>::empty().push(config) =~= seq![config]);
}

proof fn lemma_secrets(
    cli: CliModel,
    found: PreflightModel,
    config: Seq<char>,
    at: SecretsPoint,
    reply: ReplyModel,
)
    ensures
        accounts_for(seq![config], false, from_secrets(cli, found, config, at, reply)),
{
    lemma_instance(cli, found, config, InstancePoint::Start, Reply::Begin);
    assert(Seq::<Seq<char>>::empty().push(config) =~= seq![config]);
}

proof fn lemma_operator(
    cli: CliModel,
    found: PreflightModel,
    config: Seq<char>,
    at: OperatorPoint,
    reply: ReplyModel,
)
    ensures
        accounts_for(seq![config], false, from_operator(cli, found, config, at, reply)),
{
    lemma_secrets(cli, found, config, SecretsPoint::Start, Reply::Begin);
    assert(Seq::<Seq<char>>::empty().push(config) =~= seq![config]);
}

proof fn lemma_config(cli: CliModel, found: PreflightModel, at: ConfigPointModel, reply: ReplyModel)
    ensures
        accounts_for(
            held_after(Stage::Config(found, at), reply),
            false,
            from_config(cli, found, at, reply),
        ),
{
    match config_turn(at, reply) {
        TurnModel::Done(_, config) => {
            lemma_operator(cli, found, config, OperatorPoint::Start, Reply::Begin);
        },
        TurnModel::Ask(_, _, Action::Release(path)) => {
            assert(Seq::<Seq<char>>::empty().push(path) =~= seq![path]);
        },
        _ => {},
    }
}

proof fn lemma_registry(cli: CliModel, found: PreflightModel, at: RegistryPoint, reply: ReplyModel)
    ensures
        accounts_for(seq![], false, from_registry(cli, found, at, reply)),
{
    lemma_config(cli, found, ConfigPoint::Start, Reply::Begin);
}

proof fn lemma_cluster(cli: CliModel, found: PreflightModel, at: KindPoint, reply: ReplyModel)
    ensures
        accounts_for(seq![], false, from_cluster(cli, found, at, reply)),
{
    lemma_registry(cli, found, RegistryPoint::Start, Reply::Begin);
    lemma_config(cli, found, ConfigPoint::Start, Reply::Begin);
}

proof fn lemma_preflight(cli: CliModel, at: PreflightPointModel, reply: ReplyModel)
    ensures
        accounts_for(seq![], false, from_preflight(cli, at, reply)),
{
    match preflight_turn(cli, at, reply) {
        TurnModel::Done(_, found) => {
            lemma_cluster(cli, found, KindPoint::Start, Reply::Begin);
        },
        _ => {},
    }
}

/// Every temporary file is removed, and every program that runs on is stopped, before the
/// bootstrap succeeds or fails. Each turn keeps the files that there are, or removes the one that
/// was made last; only that ends what runs on; and at the end there are no files, and nothing
/// runs.
pub proof fn nothing_is_left_behind(cli: CliModel, at: StageModel, reply: ReplyModel)
    ensures
        accounts_for(
            held_after(at, reply),
            runs_on_after(at, reply),
            bootstrap_turn(cli, at, reply),
        ),
        held(opening()) == Seq::<Seq<char>>::empty(),
{
    match at {
        Stage::Preflight(at) => lemma_preflight(cli, at, reply),
        Stage::Cluster(found, at) => lemma_cluster(cli, found, at, reply),
        Stage::Registry(found, at) => lemma_registry(cli, found, at, reply),
        Stage::Config(found, at) => lemma_config(cli, found, at, reply),
        Stage::Operator(found, config, at) => lemma_operator(cli, found, config, at, reply),
        Stage::Secrets(found, config, at) => lemma_secrets(cli, found, config, at, reply),
        Stage::Instance(found, config, at) => lemma_instance(cli, found, config, at, reply),
        Stage::Watch(found, config, at) => lemma_watch(cli, found, config, at, reply),
        Stage::Finished => {},
        Stage::Abandoned(_) => {},
    }
}

} // verus!
