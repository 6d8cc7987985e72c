//! Running the bootstrap again: what there is already is kept, and each step can be repeated.

use crate::answers::action_call;
use crate::aws::AwsContextModel;
use crate::bootstrap::{
    bootstrap_turn, config_turn, from_cluster, from_config, from_instance, from_operator,
    from_preflight, from_registry, from_secrets, from_watch, ConfigPoint, ConfigPointModel, Stage,
    StageModel,
};
use crate::cli::CliModel;
use crate::cluster::{
    apply_manifest, create_cluster, delete_cluster, KindPoint, REGISTRY_NAME,
};
use crate::failure::FailureModel;
use crate::flux::{
    delete_key, install_instance, install_operator, make_key, make_token, operator_turn,
    secrets_turn, InstancePoint, OperatorPoint, SecretsPoint,
};
use crate::order::stage_suits;
use crate::outside::decoded;
use crate::preflight::{preflight_turn, PreflightModel, PreflightPointModel};
use crate::process::{outcome, output_text, succeeded};
use crate::protocol::{
    Action, ActionModel, CallModel, Reply, ReplyModel, TurnModel, HTTP_LIMIT,
};
use crate::registry::{
    create_registry, host_address, list_all, list_running, make_config, publish, ready,
    registry_turn, RegistryPoint,
};
use crate::text::lists;
use crate::watch::{WatchPoint, WatchPointModel};
use vstd::prelude::*;

verus! {

/// Tells whether `turn` deletes the management cluster.
pub open spec fn deleting_cluster(turn: TurnModel<StageModel, ()>) -> bool {
    turn matches TurnModel::Ask(_, _, Action::Run(call)) && call == delete_cluster()
}

/// Tells whether `turn` creates the management cluster.
pub open spec fn making_cluster(turn: TurnModel<StageModel, ()>) -> bool {
    turn matches TurnModel::Ask(_, _, Action::RunWithStdin(call, _)) && call == create_cluster()
}

/// Tells whether `turn` creates the container of the registry.
pub open spec fn making_registry(cli: CliModel, turn: TurnModel<StageModel, ()>) -> bool {
    turn matches TurnModel::Ask(_, _, Action::Capture(call)) && call == create_registry(
        cli,
        call.program,
    )
}

/// Tells whether a call can be made again where it was made before: Helm upgrades what is installed
/// already, what `kubectl` creates is a manifest alone, and what it deletes may be gone.
pub open spec fn repeatable(call: CallModel) -> bool {
    &&& call.program == "helm"@ ==> call.args.take(2) == seq!["upgrade"@, "--install"@]
    &&& call.program == "kubectl"@ && call.args[0] == "create"@ ==> call.args.contains(
        "--dry-run=client"@,
    )
    &&& call.program == "kubectl"@ && call.args[0] == "delete"@ ==> call.args.contains(
        "--ignore-not-found"@,
    )
}

/// Tells whether a call of `turn` can be made again.
pub open spec fn can_be_repeated(turn: TurnModel<StageModel, ()>) -> bool {
    turn matches TurnModel::Ask(_, _, action) ==> (action_call(action) matches Some(call)
        ==> repeatable(call))
}

/// Tells whether the container engine is a supported one.
spec fn known_engine(found: PreflightModel) -> bool {
    found.engine == "docker"@ || found.engine == "podman"@
}

proof fn lemma_programs()
    ensures
        "kind"@ != "kubectl"@,
        "mise"@ != "kubectl"@,
        "flux"@ != "kubectl"@,
        "clusterctl"@ != "kubectl"@,
        "docker"@ != "kubectl"@,
        "podman"@ != "kubectl"@,
        "kubectl"@ != "helm"@,
        "kind"@ != "helm"@,
        "mise"@ != "helm"@,
        "flux"@ != "helm"@,
        "clusterctl"@ != "helm"@,
        "docker"@ != "helm"@,
        "podman"@ != "helm"@,
        "mise"@ != "kind"@,
        "flux"@ != "kind"@,
{
    reveal_strlit("kind");
    reveal_strlit("kubectl");
    reveal_strlit("mise");
    reveal_strlit("helm");
    reveal_strlit("flux");
    reveal_strlit("clusterctl");
    reveal_strlit("docker");
    reveal_strlit("podman");
    assert("kubectl"@.len() == 7 && "clusterctl"@.len() == 10);
    assert("kind"@[0] == 'k' && "mise"@[0] == 'm' && "flux"@[0] == 'f' && "helm"@[0] == 'h');
}

proof fn lemma_verbs()
    ensures
        "config"@ != "create"@,
        "wait"@ != "create"@,
        "apply"@ != "create"@,
        "get"@ != "create"@,
        "delete"@ != "create"@,
        "--kubeconfig"@ != "create"@,
        "config"@ != "delete"@,
        "wait"@ != "delete"@,
        "apply"@ != "delete"@,
        "get"@ != "delete"@,
        "--kubeconfig"@ != "delete"@,
{
    reveal_strlit("config");
    reveal_strlit("wait");
    reveal_strlit("apply");
    reveal_strlit("get");
    reveal_strlit("create");
    reveal_strlit("delete");
    reveal_strlit("--kubeconfig");
    assert("wait"@.len() == 4 && "apply"@.len() == 5 && "get"@.len() == 3);
    assert("config"@[1] == 'o' && "create"@[1] == 'r' && "delete"@[1] == 'e');
}

proof fn lemma_registry_call(cli: CliModel)
    ensures
        forall|engine: Seq<char>| (#[trigger] create_registry(cli, engine)).args.len() == 9,
{
}

proof fn lemma_manifests(aws: AwsContextModel)
    ensures
        repeatable(make_config()),
        repeatable(make_token(aws)),
        repeatable(make_key(aws)),
        repeatable(delete_key()),
{
    lemma_programs();
    lemma_verbs();
}

proof fn lemma_installs(cli: CliModel, aws: Option<AwsContextModel>, config: Seq<char>)
    ensures
        repeatable(install_operator(config)),
        repeatable(install_instance(cli, aws, config)),
{
    lemma_programs();
    let both = seq!["upgrade"@, "--install"@];
    assert(install_operator(config).args.take(2) =~= both);
    assert(install_instance(cli, aws, config).args.take(2) =~= both);
}

proof fn lemma_watch(
    cli: CliModel,
    found: PreflightModel,
    config: Seq<char>,
    at: WatchPointModel,
    reply: ReplyModel,
)
    ensures
        !deleting_cluster(from_watch(cli, found, config, at, reply)),
        !making_cluster(from_watch(cli, found, config, at, reply)),
        !making_registry(cli, from_watch(cli, found, config, at, reply)),
        known_engine(found) ==> can_be_repeated(from_watch(cli, found, config, at, reply)),
{
    lemma_registry_call(cli);
    lemma_programs();
    lemma_verbs();
}

proof fn lemma_instance(
    cli: CliModel,
    found: PreflightModel,
    config: Seq<char>,
    at: InstancePoint,
    reply: ReplyModel,
)
    ensures
        !deleting_cluster(from_instance(cli, found, config, at, reply)),
        !making_cluster(from_instance(cli, found, config, at, reply)),
        !making_registry(cli, from_instance(cli, found, config, at, reply)),
        known_engine(found) ==> can_be_repeated(from_instance(cli, found, config, at, reply)),
{
    lemma_programs();
    lemma_verbs();
    lemma_installs(cli, found.aws, config);
    lemma_watch(cli, found, config, WatchPoint::Start, Reply::Begin);
}

proof fn lemma_secrets(
    cli: CliModel,
    found: PreflightModel,
    config: Seq<char>,
    at: SecretsPoint,
    reply: ReplyModel,
)
    ensures
        !deleting_cluster(from_secrets(cli, found, config, at, reply)),
        !making_cluster(from_secrets(cli, found, config, at, reply)),
        !making_registry(cli, from_secrets(cli, found, config, at, reply)),
        known_engine(found) ==> can_be_repeated(from_secrets(cli, found, config, at, reply)),
{
    lemma_registry_call(cli);
    lemma_programs();
    lemma_verbs();
    if let Some(aws) = found.aws {
        lemma_manifests(aws);
    }
    lemma_instance(cli, found, config, InstancePoint::Start, Reply::Begin);
}

proof fn lemma_operator(
    cli: CliModel,
    found: PreflightModel,
    config: Seq<char>,
    at: OperatorPoint,
    reply: ReplyModel,
)
    ensures
        !deleting_cluster(from_operator(cli, found, config, at, reply)),
        !making_cluster(from_operator(cli, found, config, at, reply)),
        !making_registry(cli, from_operator(cli, found, config, at, reply)),
        known_engine(found) ==> can_be_repeated(from_operator(cli, found, config, at, reply)),
{
    lemma_programs();
    lemma_installs(cli, found.aws, config);
    lemma_secrets(cli, found, config, SecretsPoint::Start, Reply::Begin);
}

proof fn lemma_config(cli: CliModel, found: PreflightModel, at: ConfigPointModel, reply: ReplyModel)
    ensures
        !deleting_cluster(from_config(cli, found, at, reply)),
        !making_cluster(from_config(cli, found, at, reply)),
        !making_registry(cli, from_config(cli, found, at, reply)),
        known_engine(found) ==> can_be_repeated(from_config(cli, found, at, reply)),
{
    match config_turn(at, reply) {
        TurnModel::Done(_, config) => {
            lemma_operator(cli, found, config, OperatorPoint::Start, Reply::Begin);
        },
        _ => {},
    }
}

/// Tells whether the container of the registry is created next: there is none.
pub open spec fn creates_registry(at: StageModel, reply: ReplyModel) -> bool {
    &&& at matches Stage::Registry(_, RegistryPoint::Listed)
    &&& !lists(output_text(reply), REGISTRY_NAME@)
}

proof fn lemma_registry(cli: CliModel, found: PreflightModel, at: RegistryPoint, reply: ReplyModel)
    ensures
        !deleting_cluster(from_registry(cli, found, at, reply)),
        !making_cluster(from_registry(cli, found, at, reply)),
        making_registry(cli, from_registry(cli, found, at, reply)) <==> creates_registry(
            Stage::Registry(found, at),
            reply,
        ),
        known_engine(found) ==> can_be_repeated(from_registry(cli, found, at, reply)),
{
    lemma_registry_call(cli);
    lemma_programs();
    lemma_verbs();
    assert(repeatable(make_config()));
    lemma_config(cli, found, ConfigPoint::Start, Reply::Begin);
}

/// Tells whether the management cluster is deleted next: it was asked for, and there is one.
pub open spec fn deletes_cluster(cli: CliModel, at: StageModel, reply: ReplyModel) -> bool {
    &&& cli.recreate
    &&& at matches Stage::Cluster(_, KindPoint::Listed)
    &&& lists(output_text(reply), "mgmt"@)
}

/// Tells whether the management cluster is created next: there is none, or it was just deleted.
pub open spec fn creates_cluster(at: StageModel, reply: ReplyModel) -> bool {
    ||| at matches Stage::Cluster(_, KindPoint::Listed) && !lists(output_text(reply), "mgmt"@)
    ||| at matches Stage::Cluster(_, KindPoint::Deleted) && succeeded(reply)
}

proof fn lemma_cluster(cli: CliModel, found: PreflightModel, at: KindPoint, reply: ReplyModel)
    ensures
        deleting_cluster(from_cluster(cli, found, at, reply)) <==> deletes_cluster(
            cli,
            Stage::Cluster(found, at),
            reply,
        ),
        making_cluster(from_cluster(cli, found, at, reply)) <==> creates_cluster(
            Stage::Cluster(found, at),
            reply,
        ),
        !making_registry(cli, from_cluster(cli, found, at, reply)),
        known_engine(found) ==> can_be_repeated(from_cluster(cli, found, at, reply)),
{
    lemma_programs();
    lemma_verbs();
    lemma_registry(cli, found, RegistryPoint::Start, Reply::Begin);
    lemma_config(cli, found, ConfigPoint::Start, Reply::Begin);
}


proof fn lemma_preflight(cli: CliModel, at: PreflightPointModel, reply: ReplyModel)
    ensures
        !deleting_cluster(from_preflight(cli, at, reply)),
        !making_cluster(from_preflight(cli, at, reply)),
        !making_registry(cli, from_preflight(cli, at, reply)),
        can_be_repeated(from_preflight(cli, at, reply)),
{
    lemma_programs();
    match preflight_turn(cli, at, reply) {
        TurnModel::Done(_, found) => {
            lemma_cluster(cli, found, KindPoint::Start, Reply::Begin);
        },
        _ => {},
    }
}

proof fn lemma_turn(cli: CliModel, at: StageModel, reply: ReplyModel)
    ensures
        deleting_cluster(bootstrap_turn(cli, at, reply)) <==> deletes_cluster(cli, at, reply),
        making_cluster(bootstrap_turn(cli, at, reply)) <==> creates_cluster(at, reply),
        making_registry(cli, bootstrap_turn(cli, at, reply)) <==> creates_registry(at, reply),
        stage_suits(cli, at) ==> can_be_repeated(bootstrap_turn(cli, at, reply)),
{
    match at {
        Stage::Preflight(at) => lemma_preflight(cli, at, reply),
        Stage::Cluster(found, at) => lemma_cluster(cli, found, at, reply),
        Stage::Registry(found, at) => lemma_registry(cli, found, at, reply),
        Stage::Config(found, at) => lemma_config(cli, found, at, reply),
        Stage::Operator(found, config, at) => lemma_operator(cli, found, config, at, reply),
        Stage::Secrets(found, config, at) => lemma_secrets(cli, found, config, at, reply),
        Stage::Instance(found, config, at) => lemma_instance(cli, found, config, at, reply),
        Stage::Watch(found, config, at) => lemma_watch(cli, found, config, at, reply),
        Stage::Finished => {},
        Stage::Abandoned(_) => {},
    }
}

/// A rerun keeps the management cluster: it is deleted only where that was asked for and there is
/// one, and created only where there is none or it was just deleted.
pub proof fn existing_cluster_is_kept(cli: CliModel, at: StageModel, reply: ReplyModel)
    ensures
        deleting_cluster(bootstrap_turn(cli, at, reply)) <==> deletes_cluster(cli, at, reply),
        making_cluster(bootstrap_turn(cli, at, reply)) <==> creates_cluster(at, reply),
{
    lemma_turn(cli, at, reply);
}

/// A rerun keeps the registry, too: its container is created only where the container engine
/// lists none.
pub proof fn existing_registry_is_kept(cli: CliModel, at: StageModel, reply: ReplyModel)
    ensures
        making_registry(cli, bootstrap_turn(cli, at, reply)) <==> creates_registry(at, reply),
{
    lemma_turn(cli, at, reply);
}

/// Every call of the bootstrap can be made again by a rerun: Helm upgrades what is installed,
/// `kubectl` creates nothing but manifests, and it deletes nothing that has to be there.
pub proof fn steps_can_be_repeated(cli: CliModel, at: StageModel, reply: ReplyModel)
    requires
        stage_suits(cli, at),
    ensures
        can_be_repeated(bootstrap_turn(cli, at, reply)),
{
    lemma_turn(cli, at, reply);
}

/// The actions of a phase whose answers are these, one after the other, from `turn` on; and where
/// it stands behind them.
pub open spec fn performed<P>(
    step: spec_fn(P, ReplyModel) -> TurnModel<P, ()>,
    turn: TurnModel<P, ()>,
    answers: Seq<ReplyModel>,
) -> (Seq<ActionModel>, TurnModel<P, ()>)
    decreases answers.len(),
{
    match turn {
        TurnModel::Ask(at, _, action) => if answers.len() == 0 {
            (seq![action], turn)
        } else {
            let (more, end) = performed(step, step(at, answers[0]), answers.skip(1));
            (seq![action] + more, end)
        },
        _ => (seq![], turn),
    }
}

/// Setting up the registry again succeeds where the container is there, runs and answers, and where
/// the calls that follow do: it looks, creates no container, and applies the same configuration.
pub proof fn registry_can_be_set_up_again(
    cli: CliModel,
    engine: Seq<char>,
    answers: Seq<ReplyModel>,
    manifest: Seq<u8>,
)
    requires
        answers.len() == 6,
        lists(output_text(answers[0]), REGISTRY_NAME@),
        lists(output_text(answers[1]), REGISTRY_NAME@),
        ready(answers[2]),
        outcome(make_config(), answers[3]) == Ok::<Seq<u8>, FailureModel>(manifest),
        succeeded(answers[4]),
        succeeded(answers[5]),
    ensures
        ({
            let (actions, end) = performed(
                |at: RegistryPoint, reply: ReplyModel| registry_turn(cli, engine, at, reply),
                registry_turn(cli, engine, RegistryPoint::Start, Reply::Begin),
                answers,
            );
            &&& end is Done
            &&& actions == seq![
                Action::CaptureLossy(list_all(engine)),
                Action::CaptureLossy(list_running(engine)),
                Action::Get { url: "http://"@ + host_address(cli) + "/v2/"@, limit: HTTP_LIMIT },
                Action::Capture(make_config()),
                Action::RunWithStdin(apply_manifest(), decoded(manifest)),
                Action::Run(publish(cli)),
            ]
        }),
{
    reveal_with_fuel(performed, 7);
}

/// Creating the secrets again succeeds where its calls do, with the same calls as at first: nothing
/// is asked about what is there already, and what the manifests hold is applied.
pub proof fn secrets_can_be_created_again(
    aws: AwsContextModel,
    answers: Seq<ReplyModel>,
    token: Seq<u8>,
    key: Seq<u8>,
)
    requires
        answers.len() == 5,
        outcome(make_token(aws), answers[0]) == Ok::<Seq<u8>, FailureModel>(token),
        succeeded(answers[1]),
        succeeded(answers[2]),
        outcome(make_key(aws), answers[3]) == Ok::<Seq<u8>, FailureModel>(key),
        succeeded(answers[4]),
    ensures
        ({
            let (actions, end) = performed(
                |at: SecretsPoint, reply: ReplyModel| secrets_turn(aws, at, reply),
                secrets_turn(aws, SecretsPoint::Start, Reply::Begin),
                answers,
            );
            &&& end is Done
            &&& actions == seq![
                Action::CaptureWithStdin(make_token(aws), aws.github_token),
                Action::RunWithStdin(apply_manifest(), decoded(token)),
                Action::Run(delete_key()),
                Action::Capture(make_key(aws)),
                Action::RunWithStdin(apply_manifest(), decoded(key)),
            ]
        }),
{
    reveal_with_fuel(performed, 6);
}

/// Installing the operator again succeeds where its one call does, which upgrades what is installed
/// and is the same as at first.
pub proof fn operator_can_be_installed_again(registry_config: Seq<char>, answer: ReplyModel)
    requires
        succeeded(answer),
    ensures
        ({
            let (actions, end) = performed(
                |at: OperatorPoint, reply: ReplyModel| operator_turn(registry_config, at, reply),
                operator_turn(registry_config, OperatorPoint::Start, Reply::Begin),
                seq![answer],
            );
            &&& end is Done
            &&& actions == seq![
                Action::<Seq<char>, CallModel>::Run(install_operator(registry_config)),
            ]
        }),
{
    reveal_with_fuel(performed, 2);
}

} // verus!
