//! How the phases make up the bootstrap, as it is seen from outside.

use crate::answers::{given_up, shown};
use crate::aws::AwsContextModel;
use crate::bootstrap::{
    bootstrap_turn, config_turn, farewell, from_cluster, ConfigPoint, ConfigPointModel, Stage,
    StageModel,
};
use crate::cli::{CliModel, Profile};
use crate::cluster::{kind_turn, KindPoint};
use crate::decimal::numeral;
use crate::failure::FailureModel;
use crate::flux::{
    instance_turn, operator_turn, secrets_turn, InstancePoint, OperatorPoint, SecretsPoint,
};
use crate::preflight::{preflight_turn, PreflightModel, PreflightPointModel};
use crate::process::progress;
use crate::protocol::{preceded, Action, Note, NoteModel, Reply, ReplyModel, TurnModel};
use crate::registry::{registry_turn, RegistryPoint};
use crate::watch::{watch_turn, WatchPoint, WatchPointModel};
use vstd::prelude::*;

verus! {

/// Each stage of the bootstrap does what its phase does, with the settings of the run, the engine,
/// the socket and the context that the checks have found, and the one registry configuration: the
/// same lines, and the same action.
pub proof fn stages_do_what_their_phases_do(
    cli: CliModel,
    found: PreflightModel,
    config: Seq<char>,
    reply: ReplyModel,
    kind_at: KindPoint,
    registry_at: RegistryPoint,
    config_at: ConfigPointModel,
    operator_at: OperatorPoint,
    secrets_at: SecretsPoint,
    instance_at: InstancePoint,
    watch_at: WatchPointModel,
    check_at: PreflightPointModel,
)
    ensures
        preflight_turn(cli, check_at, reply) matches TurnModel::Ask(next, notes, action)
            ==> bootstrap_turn(cli, Stage::Preflight(check_at), reply) == TurnModel::<
            StageModel,
            (),
        >::Ask(Stage::Preflight(next), notes, action),
        kind_turn(cli, found.engine_sock, kind_at, reply) matches TurnModel::Ask(
            next,
            notes,
            action,
        ) ==> bootstrap_turn(cli, Stage::Cluster(found, kind_at), reply) == TurnModel::<
            StageModel,
            (),
        >::Ask(Stage::Cluster(found, next), notes, action),
        registry_turn(cli, found.engine, registry_at, reply) matches TurnModel::Ask(
            next,
            notes,
            action,
        ) ==> bootstrap_turn(cli, Stage::Registry(found, registry_at), reply) == TurnModel::<
            StageModel,
            (),
        >::Ask(Stage::Registry(found, next), notes, action),
        config_turn(config_at, reply) matches TurnModel::Ask(next, notes, action)
            ==> bootstrap_turn(cli, Stage::Config(found, config_at), reply) == TurnModel::<
            StageModel,
            (),
        >::Ask(Stage::Config(found, next), notes, action),
        operator_turn(config, operator_at, reply) matches TurnModel::Ask(next, notes, action)
            ==> bootstrap_turn(cli, Stage::Operator(found, config, operator_at), reply)
            == TurnModel::<StageModel, ()>::Ask(
            Stage::Operator(found, config, next),
            notes,
            action,
        ),
        found.aws is Some ==> (secrets_turn(
            found.aws->0,
            secrets_at,
            reply,
        ) matches TurnModel::Ask(
            next,
            notes,
            action,
        ) ==> bootstrap_turn(cli, Stage::Secrets(found, config, secrets_at), reply) == TurnModel::<
            StageModel,
            (),
        >::Ask(Stage::Secrets(found, config, next), notes, action)),
        instance_turn(cli, found.aws, config, instance_at, reply) matches TurnModel::Ask(
            next,
            notes,
            action,
        ) ==> bootstrap_turn(cli, Stage::Instance(found, config, instance_at), reply)
            == TurnModel::<StageModel, ()>::Ask(
            Stage::Instance(found, config, next),
            notes,
            action,
        ),
        watch_turn(cli, found.engine, watch_at, reply) matches TurnModel::Ask(next, notes, action)
            ==> bootstrap_turn(cli, Stage::Watch(found, config, watch_at), reply) == TurnModel::<
            StageModel,
            (),
        >::Ask(Stage::Watch(found, config, next), notes, action),
{
}

/// A failure of a phase is the failure of the bootstrap, with the same lines before it.
pub proof fn failures_of_phases_are_failures(
    cli: CliModel,
    found: PreflightModel,
    config: Seq<char>,
    reply: ReplyModel,
    kind_at: KindPoint,
    registry_at: RegistryPoint,
    config_at: ConfigPointModel,
    operator_at: OperatorPoint,
    secrets_at: SecretsPoint,
    instance_at: InstancePoint,
    watch_at: WatchPointModel,
    check_at: PreflightPointModel,
)
    ensures
        preflight_turn(cli, check_at, reply) matches TurnModel::Fail(notes, failure)
            ==> fails_with(bootstrap_turn(cli, Stage::Preflight(check_at), reply), notes, failure),
        kind_turn(cli, found.engine_sock, kind_at, reply) matches TurnModel::Fail(notes, failure)
            ==> fails_with(
            bootstrap_turn(cli, Stage::Cluster(found, kind_at), reply),
            notes,
            failure,
        ),
        registry_turn(cli, found.engine, registry_at, reply) matches TurnModel::Fail(notes, failure)
            ==> fails_with(
            bootstrap_turn(cli, Stage::Registry(found, registry_at), reply),
            notes,
            failure,
        ),
        config_turn(config_at, reply) matches TurnModel::Fail(notes, failure) ==> fails_with(
            bootstrap_turn(cli, Stage::Config(found, config_at), reply),
            notes,
            failure,
        ),
        operator_turn(config, operator_at, reply) matches TurnModel::Fail(notes, failure)
            ==> fails_with(
            bootstrap_turn(cli, Stage::Operator(found, config, operator_at), reply),
            notes,
            failure,
        ),
        found.aws is Some ==> (secrets_turn(
            found.aws->0,
            secrets_at,
            reply,
        ) matches TurnModel::Fail(
            notes,
            failure,
        ) ==> fails_with(
            bootstrap_turn(cli, Stage::Secrets(found, config, secrets_at), reply),
            notes,
            failure,
        )),
        instance_turn(cli, found.aws, config, instance_at, reply) matches TurnModel::Fail(
            notes,
            failure,
        ) ==> fails_with(
            bootstrap_turn(cli, Stage::Instance(found, config, instance_at), reply),
            notes,
            failure,
        ),
        watch_turn(cli, found.engine, watch_at, reply) matches TurnModel::Fail(notes, failure)
            ==> fails_with(
            bootstrap_turn(cli, Stage::Watch(found, config, watch_at), reply),
            notes,
            failure,
        ),
{
}

/// Tells whether `turn` shows these lines and gives up with this failure.
pub open spec fn fails_with(
    turn: TurnModel<StageModel, ()>,
    notes: Seq<NoteModel>,
    failure: FailureModel,
) -> bool {
    given_up(turn) == Some(failure) && shown(turn) == notes
}

/// Tells whether `turn` is what `other` is, with these lines before its own.
pub open spec fn begins_with(
    turn: TurnModel<StageModel, ()>,
    notes: Seq<NoteModel>,
    other: TurnModel<StageModel, ()>,
) -> bool {
    match (turn, other) {
        (TurnModel::Ask(next, all, action), TurnModel::Ask(same, more, same_action)) => {
            next == same && all == notes + more && action == same_action
        },
        (TurnModel::Fail(all, failure), TurnModel::Fail(more, same)) => {
            all == notes + more && failure == same
        },
        (TurnModel::Done(all, ()), TurnModel::Done(more, ())) => all == notes + more,
        _ => false,
    }
}

/// Behind the checks the management cluster comes, with what they have found, and with a line on
/// the engine and its socket.
pub proof fn the_cluster_comes_behind_the_checks(
    cli: CliModel,
    at: PreflightPointModel,
    reply: ReplyModel,
)
    ensures
        preflight_turn(cli, at, reply) matches TurnModel::Done(notes, found) ==> begins_with(
            bootstrap_turn(cli, Stage::Preflight(at), reply),
            notes.push(
                Note::Progress(
                    ">>> Using container engine: "@ + found.engine + " (socket: "@
                        + found.engine_sock + ")"@,
                ),
            ),
            bootstrap_turn(cli, Stage::Cluster(found, KindPoint::Start), Reply::Begin),
        ),
{
    if let TurnModel::Done(notes, found) = preflight_turn(cli, at, reply) {
        lemma_engine_line(cli, notes, found);
    }
}

proof fn lemma_engine_line(cli: CliModel, notes: Seq<NoteModel>, found: PreflightModel)
    ensures
        ({
            let words = ">>> Using container engine: "@ + found.engine + " (socket: "@
                + found.engine_sock + ")"@;
            begins_with(
                preceded(
                    notes,
                    preceded(
                        progress(seq![words]),
                        from_cluster(cli, found, KindPoint::Start, Reply::Begin),
                    ),
                ),
                notes.push(Note::Progress(words)),
                from_cluster(cli, found, KindPoint::Start, Reply::Begin),
            )
        }),
{
    let words = ">>> Using container engine: "@ + found.engine + " (socket: "@ + found.engine_sock
        + ")"@;
    let line: NoteModel = Note::Progress(words);
    assert(progress(seq![words]) =~= seq![line]);
    match from_cluster(cli, found, KindPoint::Start, Reply::Begin) {
        TurnModel::Ask(_, more, _) => {
            assert(notes.push(line) + more =~= notes + (seq![line] + more));
        },
        _ => {},
    }
}

/// Behind the management cluster the local registry comes, on the local host, and the registry
/// configuration of Helm on AWS.
pub proof fn the_registry_comes_behind_the_cluster(
    cli: CliModel,
    found: PreflightModel,
    at: KindPoint,
    reply: ReplyModel,
)
    ensures
        kind_turn(cli, found.engine_sock, at, reply) matches TurnModel::Done(notes, ())
            ==> begins_with(
            bootstrap_turn(cli, Stage::Cluster(found, at), reply),
            notes,
            if cli.profile == Profile::LocalHost {
                bootstrap_turn(cli, Stage::Registry(found, RegistryPoint::Start), Reply::Begin)
            } else {
                bootstrap_turn(cli, Stage::Config(found, ConfigPoint::Start), Reply::Begin)
            },
        ),
{
}

/// Behind the local registry the registry configuration of Helm comes.
pub proof fn the_configuration_comes_behind_the_registry(
    cli: CliModel,
    found: PreflightModel,
    at: RegistryPoint,
    reply: ReplyModel,
)
    ensures
        registry_turn(cli, found.engine, at, reply) matches TurnModel::Done(notes, ())
            ==> begins_with(
            bootstrap_turn(cli, Stage::Registry(found, at), reply),
            notes,
            bootstrap_turn(cli, Stage::Config(found, ConfigPoint::Start), Reply::Begin),
        ),
{
}

/// Behind the registry configuration the operator comes, with the path of that configuration.
pub proof fn the_operator_comes_behind_the_configuration(
    cli: CliModel,
    found: PreflightModel,
    at: ConfigPointModel,
    reply: ReplyModel,
)
    ensures
        config_turn(at, reply) matches TurnModel::Done(notes, path) ==> begins_with(
            bootstrap_turn(cli, Stage::Config(found, at), reply),
            notes,
            bootstrap_turn(cli, Stage::Operator(found, path, OperatorPoint::Start), Reply::Begin),
        ),
{
}

/// Behind the operator the secrets come, where the checks have found what they are made of, and
/// the instance where not.
pub proof fn the_secrets_come_behind_the_operator(
    cli: CliModel,
    found: PreflightModel,
    config: Seq<char>,
    at: OperatorPoint,
    reply: ReplyModel,
)
    ensures
        operator_turn(config, at, reply) matches TurnModel::Done(notes, ()) ==> begins_with(
            bootstrap_turn(cli, Stage::Operator(found, config, at), reply),
            notes,
            if found.aws is Some {
                bootstrap_turn(
                    cli,
                    Stage::Secrets(found, config, SecretsPoint::Start),
                    Reply::Begin,
                )
            } else {
                bootstrap_turn(
                    cli,
                    Stage::Instance(found, config, InstancePoint::Start),
                    Reply::Begin,
                )
            },
        ),
{
}

/// Behind the secrets the instance comes.
pub proof fn the_instance_comes_behind_the_secrets(
    cli: CliModel,
    found: PreflightModel,
    config: Seq<char>,
    at: SecretsPoint,
    reply: ReplyModel,
)
    requires
        found.aws is Some,
    ensures
        secrets_turn(found.aws->0, at, reply) matches TurnModel::Done(notes, ()) ==> begins_with(
            bootstrap_turn(cli, Stage::Secrets(found, config, at), reply),
            notes,
            bootstrap_turn(
                cli,
                Stage::Instance(found, config, InstancePoint::Start),
                Reply::Begin,
            ),
        ),
{
}

/// Behind the instance, whatever became of its controllers, the watch comes on the local host.
pub proof fn the_watch_comes_behind_the_instance(
    cli: CliModel,
    found: PreflightModel,
    config: Seq<char>,
    reply: ReplyModel,
)
    requires
        cli.profile == Profile::LocalHost,
    ensures
        begins_with(
            bootstrap_turn(
                cli,
                Stage::Instance(found, config, InstancePoint::ControllersReady),
                reply,
            ),
            seq![],
            bootstrap_turn(cli, Stage::Watch(found, config, WatchPoint::Start), Reply::Begin),
        ),
{
}

/// On AWS the bootstrap ends behind the instance: it says where Flux syncs from and how to watch
/// it, and removes the registry configuration.
pub proof fn aws_ends_with_these_words(
    cli: CliModel,
    aws: AwsContextModel,
    found: PreflightModel,
    config: Seq<char>,
    reply: ReplyModel,
)
    requires
        cli.profile == Profile::Aws,
        found.aws == Some(aws),
    ensures
        bootstrap_turn(
            cli,
            Stage::Instance(found, config, InstancePoint::ControllersReady),
            reply,
        ) == TurnModel::<StageModel, ()>::Ask(
            Stage::Finished,
            seq![
                Note::Progress(""@),
                Note::Progress(
                    ">>> Bootstrap complete! Flux is now reconciling from "@ + aws.git_repo_url,
                ),
                Note::Progress(">>> Watch progress with: flux get kustomizations --watch"@),
            ],
            Action::Release(config),
        ),
        bootstrap_turn(cli, Stage::Finished, reply) == TurnModel::<StageModel, ()>::Done(
            seq![],
            (),
        ),
{
}

proof fn lemma_last_words(cli: CliModel, found: PreflightModel)
    requires
        cli.profile == Profile::LocalHost,
    ensures
        farewell(cli, found) == local_words(cli),
{
}

/// The last words on the local host.
pub open spec fn local_words(cli: CliModel) -> Seq<NoteModel> {
    seq![
        Note::Progress(""@),
        Note::Progress(
            ">>> Local-host profile complete: Flux is reconciling from the local OCI artifact"@,
        ),
        Note::Progress(
            ">>> Local registry: localhost:"@ + numeral(cli.registry_port as nat)
                + " (cluster endpoint: "@ + "knr-registry"@ + ":5000)"@,
        ),
        Note::Progress(
            ">>> OCI source: oci://"@ + "knr-registry"@ + ":5000/"@ + cli.oci_repository + ":"@
                + cli.oci_tag + " (path: mgmt/local-host)"@,
        ),
        Note::Progress(">>> Watch progress with: flux get sources oci --watch"@),
        Note::Progress(">>> No AWS resources were provisioned"@),
    ]
}

/// On the local host the bootstrap ends behind the watch: it says where the registry is, where
/// Flux syncs from and how to watch it, and removes the registry configuration.
pub proof fn the_local_host_ends_with_these_words(
    cli: CliModel,
    found: PreflightModel,
    config: Seq<char>,
    reply: ReplyModel,
)
    requires
        cli.profile == Profile::LocalHost,
    ensures
        bootstrap_turn(cli, Stage::Watch(found, config, WatchPoint::Released), reply)
            == TurnModel::<StageModel, ()>::Ask(
            Stage::Finished,
            local_words(cli),
            Action::Release(config),
        ),
{
    let over = watch_turn(cli, found.engine, WatchPoint::Released, reply);
    assert(over == TurnModel::<WatchPointModel, ()>::Done(seq![], ()));
    lemma_last_words(cli, found);
    assert(Seq::<NoteModel>::empty() + farewell(cli, found) =~= farewell(cli, found));
}

} // verus!
