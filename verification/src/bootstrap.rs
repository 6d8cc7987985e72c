//! The bootstrap as a whole: its phases in their order.

use crate::cli::{Cli, CliModel, Profile};
use crate::cluster::{create_kind_cluster, kind_turn, KindPoint, REGISTRY_NAME};
use crate::decimal::{numeral, write_number};
use crate::failure::{Failure, FailureModel};
use crate::flux::{
    create_aws_secrets, install_flux_instance, install_flux_operator, instance_turn,
    operator_turn, secrets_turn, InstancePoint, OperatorPoint, SecretsPoint,
};
use crate::preflight::{
    preflight_checks, preflight_turn, Preflight, PreflightModel, PreflightPoint,
    PreflightPointModel,
};
use crate::process::{check_written, no_notes, progress, progress_notes, written};
use crate::protocol::{
    note_models, precede, preceded, Action, Call, CallModel, Note, NoteModel, Reply, ReplyModel,
    Turn, TurnModel,
};
use crate::registry::{bootstrap_local_registry, registry_turn, RegistryPoint};
use crate::watch::{watch_local_reconciliation, watch_turn, WatchPoint, WatchPointModel};
use vstd::prelude::*;

verus! {

/// How far making the registry configuration that Helm reads has come.
#[derive(Debug, PartialEq, Eq)]
#[verifier::ext_equal]
pub enum ConfigPoint<S, C> {
    Start,
    /// Making a file for it.
    Made,
    /// Writing it into the file of this path.
    Written(S),
    /// Removing the file after this failure.
    Abandoned(Failure<S, C>),
}

pub type ConfigPointModel = ConfigPoint<Seq<char>, CallModel>;

impl View for ConfigPoint<String, Call> {
    type V = ConfigPointModel;

    open spec fn view(&self) -> ConfigPointModel {
        match self {
            ConfigPoint::Start => ConfigPoint::Start,
            ConfigPoint::Made => ConfigPoint::Made,
            ConfigPoint::Written(path) => ConfigPoint::Written(path@),
            ConfigPoint::Abandoned(failure) => ConfigPoint::Abandoned(failure@),
        }
    }
}

/// Making the registry configuration: what follows at each point. It names no account, so Helm
/// pulls its charts without one. A file that could not be written is removed.
pub open spec fn config_turn(at: ConfigPointModel, reply: ReplyModel) -> TurnModel<
    ConfigPointModel,
    Seq<char>,
> {
    match at {
        ConfigPoint::Start => TurnModel::Ask(ConfigPoint::Made, seq![], Action::CreateTemp),
        ConfigPoint::Made => match reply {
            Reply::Text(Ok(path)) => TurnModel::Ask(
                ConfigPoint::Written(path),
                seq![],
                Action::WriteTemp { path, contents: "{}\n"@ },
            ),
            Reply::Text(Err(cause)) => TurnModel::Fail(
                seq![],
                Failure::RegistryConfigNotCreated(cause),
            ),
            _ => TurnModel::Fail(seq![], Failure::UnexpectedReply),
        },
        ConfigPoint::Written(path) => match written(reply) {
            Ok(()) => TurnModel::Done(seq![], path),
            Err(failure) => TurnModel::Ask(
                ConfigPoint::Abandoned(failure),
                seq![],
                Action::Release(path),
            ),
        },
        ConfigPoint::Abandoned(failure) => TurnModel::Fail(seq![], failure),
    }
}

/// Makes the registry configuration: from the point that was reached and the last answer to what
/// follows.
pub fn make_registry_config(
    at: ConfigPoint<String, Call>,
    reply: &Reply<String, Vec<u8>>,
) -> (r: Turn<ConfigPoint<String, Call>, String>)
    ensures
        r@ == config_turn(at@, reply@),
{
    match at {
        ConfigPoint::Start => Turn::Ask(ConfigPoint::Made, no_notes(), Action::CreateTemp),
        ConfigPoint::Made => match reply {
            Reply::Text(Ok(path)) => Turn::Ask(
                ConfigPoint::Written(path.clone()),
                no_notes(),
                Action::WriteTemp { path: path.clone(), contents: "{}\n".to_string() },
            ),
            Reply::Text(Err(cause)) => Turn::Fail(
                no_notes(),
                Failure::RegistryConfigNotCreated(cause.clone()),
            ),
            _ => Turn::Fail(no_notes(), Failure::UnexpectedReply),
        },
        ConfigPoint::Written(path) => match check_written(reply) {
            Ok(()) => Turn::Done(no_notes(), path),
            Err(failure) => Turn::Ask(
                ConfigPoint::Abandoned(failure),
                no_notes(),
                Action::Release(path),
            ),
        },
        ConfigPoint::Abandoned(failure) => Turn::Fail(no_notes(), failure),
    }
}

/// How far the bootstrap has come: the phase, the point in it, what the checks found out, and the
/// path of the registry configuration, a temporary file that is there at the stages that hold its
/// path.
#[derive(Debug, PartialEq, Eq)]
#[verifier::ext_equal]
pub enum Stage<S, C> {
    Preflight(PreflightPoint<S>),
    Cluster(Preflight<S>, KindPoint),
    Registry(Preflight<S>, RegistryPoint),
    Config(Preflight<S>, ConfigPoint<S, C>),
    Operator(Preflight<S>, S, OperatorPoint),
    Secrets(Preflight<S>, S, SecretsPoint),
    Instance(Preflight<S>, S, InstancePoint),
    Watch(Preflight<S>, S, WatchPoint<S, C>),
    /// All phases are over: removing the registry configuration.
    Finished,
    /// Removing the registry configuration after this failure.
    Abandoned(Failure<S, C>),
}

pub type StageModel = Stage<Seq<char>, CallModel>;

impl View for Stage<String, Call> {
    type V = StageModel;

    open spec fn view(&self) -> StageModel {
        match self {
            Stage::Preflight(at) => Stage::Preflight(at@),
            Stage::Cluster(found, at) => Stage::Cluster(found@, *at),
            Stage::Registry(found, at) => Stage::Registry(found@, *at),
            Stage::Config(found, at) => Stage::Config(found@, at@),
            Stage::Operator(found, config, at) => Stage::Operator(found@, config@, *at),
            Stage::Secrets(found, config, at) => Stage::Secrets(found@, config@, *at),
            Stage::Instance(found, config, at) => Stage::Instance(found@, config@, *at),
            Stage::Watch(found, config, at) => Stage::Watch(found@, config@, at@),
            Stage::Finished => Stage::Finished,
            Stage::Abandoned(failure) => Stage::Abandoned(failure@),
        }
    }
}

/// The last words of a bootstrap.
pub open spec fn farewell(cli: CliModel, found: PreflightModel) -> Seq<NoteModel> {
    match cli.profile {
        Profile::Aws => progress(
            seq![
                ""@,
                ">>> Bootstrap complete! Flux is now reconciling from "@ + (match found.aws {
                    Some(aws) => aws.git_repo_url,
                    None => seq![],
                }),
                ">>> Watch progress with: flux get kustomizations --watch"@,
            ],
        ),
        Profile::LocalHost => progress(
            seq![
                ""@,
                ">>> Local-host profile complete: Flux is reconciling from the local OCI artifact"@,
                ">>> Local registry: localhost:"@ + numeral(cli.registry_port as nat)
                    + " (cluster endpoint: "@ + REGISTRY_NAME@ + ":5000)"@,
                ">>> OCI source: oci://"@ + REGISTRY_NAME@ + ":5000/"@ + cli.oci_repository + ":"@
                    + cli.oci_tag + " (path: mgmt/local-host)"@,
                ">>> Watch progress with: flux get sources oci --watch"@,
                ">>> No AWS resources were provisioned"@,
            ],
        ),
    }
}

/// All phases are over: the last words, and the registry configuration is removed.
pub open spec fn ending(cli: CliModel, found: PreflightModel, config: Seq<char>) -> TurnModel<
    StageModel,
    (),
> {
    TurnModel::Ask(Stage::Finished, farewell(cli, found), Action::Release(config))
}

/// A phase has failed: the registry configuration is removed before that is reported.
pub open spec fn abandoning(
    config: Seq<char>,
    notes: Seq<NoteModel>,
    failure: FailureModel,
) -> TurnModel<StageModel, ()> {
    TurnModel::Ask(Stage::Abandoned(failure), notes, Action::Release(config))
}

/// The bootstrap from the watch over the local host on.
pub open spec fn from_watch(
    cli: CliModel,
    found: PreflightModel,
    config: Seq<char>,
    at: WatchPointModel,
    reply: ReplyModel,
) -> TurnModel<StageModel, ()> {
    match watch_turn(cli, found.engine, at, reply) {
        TurnModel::Ask(at, notes, action) => TurnModel::Ask(
            Stage::Watch(found, config, at),
            notes,
            action,
        ),
        TurnModel::Done(notes, ()) => preceded(notes, ending(cli, found, config)),
        TurnModel::Fail(notes, failure) => abandoning(config, notes, failure),
    }
}

/// The bootstrap from the Flux instance on.
pub open spec fn from_instance(
    cli: CliModel,
    found: PreflightModel,
    config: Seq<char>,
    at: InstancePoint,
    reply: ReplyModel,
) -> TurnModel<StageModel, ()> {
    match instance_turn(cli, found.aws, config, at, reply) {
        TurnModel::Ask(at, notes, action) => TurnModel::Ask(
            Stage::Instance(found, config, at),
            notes,
            action,
        ),
        TurnModel::Done(notes, ()) => preceded(
            notes,
            match cli.profile {
                Profile::LocalHost => from_watch(
                    cli,
                    found,
                    config,
                    WatchPoint::Start,
                    Reply::Begin,
                ),
                Profile::Aws => ending(cli, found, config),
            },
        ),
        TurnModel::Fail(notes, failure) => abandoning(config, notes, failure),
    }
}

/// The bootstrap from the secrets on; without a context for AWS there are none.
pub open spec fn from_secrets(
    cli: CliModel,
    found: PreflightModel,
    config: Seq<char>,
    at: SecretsPoint,
    reply: ReplyModel,
) -> TurnModel<StageModel, ()> {
    match found.aws {
        Some(aws) => match secrets_turn(aws, at, reply) {
            TurnModel::Ask(at, notes, action) => TurnModel::Ask(
                Stage::Secrets(found, config, at),
                notes,
                action,
            ),
            TurnModel::Done(notes, ()) => preceded(
                notes,
                from_instance(cli, found, config, InstancePoint::Start, Reply::Begin),
            ),
            TurnModel::Fail(notes, failure) => abandoning(config, notes, failure),
        },
        None => from_instance(cli, found, config, InstancePoint::Start, Reply::Begin),
    }
}

/// The bootstrap from the Flux operator on.
pub open spec fn from_operator(
    cli: CliModel,
    found: PreflightModel,
    config: Seq<char>,
    at: OperatorPoint,
    reply: ReplyModel,
) -> TurnModel<StageModel, ()> {
    match operator_turn(config, at, reply) {
        TurnModel::Ask(at, notes, action) => TurnModel::Ask(
            Stage::Operator(found, config, at),
            notes,
            action,
        ),
        TurnModel::Done(notes, ()) => preceded(
            notes,
            from_secrets(cli, found, config, SecretsPoint::Start, Reply::Begin),
        ),
        TurnModel::Fail(notes, failure) => abandoning(config, notes, failure),
    }
}

/// The bootstrap from the registry configuration on.
pub open spec fn from_config(
    cli: CliModel,
    found: PreflightModel,
    at: ConfigPointModel,
    reply: ReplyModel,
) -> TurnModel<StageModel, ()> {
    match config_turn(at, reply) {
        TurnModel::Ask(at, notes, action) => TurnModel::Ask(
            Stage::Config(found, at),
            notes,
            action,
        ),
        TurnModel::Done(notes, config) => preceded(
            notes,
            from_operator(cli, found, config, OperatorPoint::Start, Reply::Begin),
        ),
        TurnModel::Fail(notes, failure) => TurnModel::Fail(notes, failure),
    }
}

/// The bootstrap from the local registry on.
pub open spec fn from_registry(
    cli: CliModel,
    found: PreflightModel,
    at: RegistryPoint,
    reply: ReplyModel,
) -> TurnModel<StageModel, ()> {
    match registry_turn(cli, found.engine, at, reply) {
        TurnModel::Ask(at, notes, action) => TurnModel::Ask(
            Stage::Registry(found, at),
            notes,
            action,
        ),
        TurnModel::Done(notes, ()) => preceded(
            notes,
            from_config(cli, found, ConfigPoint::Start, Reply::Begin),
        ),
        TurnModel::Fail(notes, failure) => TurnModel::Fail(notes, failure),
    }
}

/// The bootstrap from the management cluster on.
pub open spec fn from_cluster(
    cli: CliModel,
    found: PreflightModel,
    at: KindPoint,
    reply: ReplyModel,
) -> TurnModel<StageModel, ()> {
    match kind_turn(cli, found.engine_sock, at, reply) {
        TurnModel::Ask(at, notes, action) => TurnModel::Ask(
            Stage::Cluster(found, at),
            notes,
            action,
        ),
        TurnModel::Done(notes, ()) => preceded(
            notes,
            match cli.profile {
                Profile::LocalHost => from_registry(
                    cli,
                    found,
                    RegistryPoint::Start,
                    Reply::Begin,
                ),
                Profile::Aws => from_config(cli, found, ConfigPoint::Start, Reply::Begin),
            },
        ),
        TurnModel::Fail(notes, failure) => TurnModel::Fail(notes, failure),
    }
}

/// The bootstrap from the checks on.
pub open spec fn from_preflight(
    cli: CliModel,
    at: PreflightPointModel,
    reply: ReplyModel,
) -> TurnModel<StageModel, ()> {
    match preflight_turn(cli, at, reply) {
        TurnModel::Ask(at, notes, action) => TurnModel::Ask(Stage::Preflight(at), notes, action),
        TurnModel::Done(notes, found) => preceded(
            notes,
            preceded(
                progress(
                    seq![
                        ">>> Using container engine: "@ + found.engine + " (socket: "@
                            + found.engine_sock + ")"@,
                    ],
                ),
                from_cluster(cli, found, KindPoint::Start, Reply::Begin),
            ),
        ),
        TurnModel::Fail(notes, failure) => TurnModel::Fail(notes, failure),
    }
}

/// The bootstrap: what follows at each stage.
pub open spec fn bootstrap_turn(cli: CliModel, at: StageModel, reply: ReplyModel) -> TurnModel<
    StageModel,
    (),
> {
    match at {
        Stage::Preflight(at) => from_preflight(cli, at, reply),
        Stage::Cluster(found, at) => from_cluster(cli, found, at, reply),
        Stage::Registry(found, at) => from_registry(cli, found, at, reply),
        Stage::Config(found, at) => from_config(cli, found, at, reply),
        Stage::Operator(found, config, at) => from_operator(cli, found, config, at, reply),
        Stage::Secrets(found, config, at) => from_secrets(cli, found, config, at, reply),
        Stage::Instance(found, config, at) => from_instance(cli, found, config, at, reply),
        Stage::Watch(found, config, at) => from_watch(cli, found, config, at, reply),
        Stage::Finished => TurnModel::Done(seq![], ()),
        Stage::Abandoned(failure) => TurnModel::Fail(seq![], failure),
    }
}

fn finish(cli: &Cli<String>, found: &Preflight<String>, config: String) -> (r: Turn<
    Stage<String, Call>,
    (),
>)
    ensures
        r@ == ending(cli@, found@, config@),
{
    let notes = match cli.profile {
        Profile::Aws => {
            let url = match &found.aws {
                Some(aws) => aws.git_repo_url.clone(),
                None => String::new(),
            };
            let line = ">>> Bootstrap complete! Flux is now reconciling from ".to_string().concat(
                url.as_str(),
            );
            progress_notes(
                &["", line.as_str(), ">>> Watch progress with: flux get kustomizations --watch"],
            )
        },
        Profile::LocalHost => {
            let registry = ">>> Local registry: localhost:".to_string().concat(
                write_number(cli.registry_port as u64).as_str(),
            ).concat(" (cluster endpoint: ").concat(REGISTRY_NAME).concat(":5000)");
            let source = ">>> OCI source: oci://".to_string().concat(REGISTRY_NAME).concat(
                ":5000/",
            ).concat(cli.oci_repository.as_str()).concat(":").concat(cli.oci_tag.as_str()).concat(
                " (path: mgmt/local-host)",
            );
            progress_notes(
                &[
                    "",
                    ">>> Local-host profile complete: Flux is reconciling from the local OCI artifact",
                    registry.as_str(),
                    source.as_str(),
                    ">>> Watch progress with: flux get sources oci --watch",
                    ">>> No AWS resources were provisioned",
                ],
            )
        },
    };
    Turn::Ask(Stage::Finished, notes, Action::Release(config))
}

fn abandon(config: String, notes: Vec<Note<String>>, failure: Failure<String, Call>) -> (r: Turn<
    Stage<String, Call>,
    (),
>)
    ensures
        r@ == abandoning(config@, note_models(notes@), failure@),
{
    Turn::Ask(Stage::Abandoned(failure), notes, Action::Release(config))
}

fn continue_watch(
    cli: &Cli<String>,
    found: Preflight<String>,
    config: String,
    at: WatchPoint<String, Call>,
    reply: &Reply<String, Vec<u8>>,
) -> (r: Turn<Stage<String, Call>, ()>)
    ensures
        r@ == from_watch(cli@, found@, config@, at@, reply@),
{
    match watch_local_reconciliation(cli, found.engine.as_str(), at, reply) {
        Turn::Ask(at, notes, action) => Turn::Ask(Stage::Watch(found, config, at), notes, action),
        Turn::Done(notes, ()) => precede(notes, finish(cli, &found, config)),
        Turn::Fail(notes, failure) => abandon(config, notes, failure),
    }
}

fn continue_instance(
    cli: &Cli<String>,
    found: Preflight<String>,
    config: String,
    at: InstancePoint,
    reply: &Reply<String, Vec<u8>>,
) -> (r: Turn<Stage<String, Call>, ()>)
    ensures
        r@ == from_instance(cli@, found@, config@, at, reply@),
{
    match install_flux_instance(cli, &found.aws, config.as_str(), at, reply) {
        Turn::Ask(at, notes, action) => Turn::Ask(
            Stage::Instance(found, config, at),
            notes,
            action,
        ),
        Turn::Done(notes, ()) => precede(
            notes,
            match cli.profile {
                Profile::LocalHost => continue_watch(
                    cli,
                    found,
                    config,
                    WatchPoint::Start,
                    &Reply::Begin,
                ),
                Profile::Aws => finish(cli, &found, config),
            },
        ),
        Turn::Fail(notes, failure) => abandon(config, notes, failure),
    }
}

fn continue_secrets(
    cli: &Cli<String>,
    found: Preflight<String>,
    config: String,
    at: SecretsPoint,
    reply: &Reply<String, Vec<u8>>,
) -> (r: Turn<Stage<String, Call>, ()>)
    ensures
        r@ == from_secrets(cli@, found@, config@, at, reply@),
{
    let turn = match &found.aws {
        Some(aws) => create_aws_secrets(aws, at, reply),
        None => return continue_instance(cli, found, config, InstancePoint::Start, &Reply::Begin),
    };
    match turn {
        Turn::Ask(at, notes, action) => Turn::Ask(
            Stage::Secrets(found, config, at),
            notes,
            action,
        ),
        Turn::Done(notes, ()) => precede(
            notes,
            continue_instance(cli, found, config, InstancePoint::Start, &Reply::Begin),
        ),
        Turn::Fail(notes, failure) => abandon(config, notes, failure),
    }
}

fn continue_operator(
    cli: &Cli<String>,
    found: Preflight<String>,
    config: String,
    at: OperatorPoint,
    reply: &Reply<String, Vec<u8>>,
) -> (r: Turn<Stage<String, Call>, ()>)
    ensures
        r@ == from_operator(cli@, found@, config@, at, reply@),
{
    match install_flux_operator(config.as_str(), at, reply) {
        Turn::Ask(at, notes, action) => Turn::Ask(
            Stage::Operator(found, config, at),
            notes,
            action,
        ),
        Turn::Done(notes, ()) => precede(
            notes,
            continue_secrets(cli, found, config, SecretsPoint::Start, &Reply::Begin),
        ),
        Turn::Fail(notes, failure) => abandon(config, notes, failure),
    }
}

fn continue_config(
    cli: &Cli<String>,
    found: Preflight<String>,
    at: ConfigPoint<String, Call>,
    reply: &Reply<String, Vec<u8>>,
) -> (r: Turn<Stage<String, Call>, ()>)
    ensures
        r@ == from_config(cli@, found@, at@, reply@),
{
    match make_registry_config(at, reply) {
        Turn::Ask(at, notes, action) => Turn::Ask(Stage::Config(found, at), notes, action),
        Turn::Done(notes, config) => precede(
            notes,
            continue_operator(cli, found, config, OperatorPoint::Start, &Reply::Begin),
        ),
        Turn::Fail(notes, failure) => Turn::Fail(notes, failure),
    }
}

fn continue_registry(
    cli: &Cli<String>,
    found: Preflight<String>,
    at: RegistryPoint,
    reply: &Reply<String, Vec<u8>>,
) -> (r: Turn<Stage<String, Call>, ()>)
    ensures
        r@ == from_registry(cli@, found@, at, reply@),
{
    match bootstrap_local_registry(cli, found.engine.as_str(), at, reply) {
        Turn::Ask(at, notes, action) => Turn::Ask(Stage::Registry(found, at), notes, action),
        Turn::Done(notes, ()) => precede(
            notes,
            continue_config(cli, found, ConfigPoint::Start, &Reply::Begin),
        ),
        Turn::Fail(notes, failure) => Turn::Fail(notes, failure),
    }
}

fn continue_cluster(
    cli: &Cli<String>,
    found: Preflight<String>,
    at: KindPoint,
    reply: &Reply<String, Vec<u8>>,
) -> (r: Turn<Stage<String, Call>, ()>)
    ensures
        r@ == from_cluster(cli@, found@, at, reply@),
{
    match create_kind_cluster(cli, found.engine_sock.as_str(), at, reply) {
        Turn::Ask(at, notes, action) => Turn::Ask(Stage::Cluster(found, at), notes, action),
        Turn::Done(notes, ()) => precede(
            notes,
            match cli.profile {
                Profile::LocalHost => continue_registry(
                    cli,
                    found,
                    RegistryPoint::Start,
                    &Reply::Begin,
                ),
                Profile::Aws => continue_config(cli, found, ConfigPoint::Start, &Reply::Begin),
            },
        ),
        Turn::Fail(notes, failure) => Turn::Fail(notes, failure),
    }
}

fn continue_preflight(
    cli: &Cli<String>,
    at: PreflightPoint<String>,
    reply: &Reply<String, Vec<u8>>,
) -> (r: Turn<Stage<String, Call>, ()>)
    ensures
        r@ == from_preflight(cli@, at@, reply@),
{
    match preflight_checks(cli, at, reply) {
        Turn::Ask(at, notes, action) => Turn::Ask(Stage::Preflight(at), notes, action),
        Turn::Done(notes, found) => {
            let line = ">>> Using container engine: ".to_string().concat(
                found.engine.as_str(),
            ).concat(" (socket: ").concat(found.engine_sock.as_str()).concat(")");
            precede(
                notes,
                precede(
                    progress_notes(&[line.as_str()]),
                    continue_cluster(cli, found, KindPoint::Start, &Reply::Begin),
                ),
            )
        },
        Turn::Fail(notes, failure) => Turn::Fail(notes, failure),
    }
}

/// The bootstrap: from the stage that was reached and the last answer to what follows. It begins
/// at `Stage::Preflight(PreflightPoint::Start)`, with `Reply::Begin`.
pub fn bootstrap(
    cli: &Cli<String>,
    at: Stage<String, Call>,
    reply: &Reply<String, Vec<u8>>,
) -> (r: Turn<Stage<String, Call>, ()>)
    ensures
        r@ == bootstrap_turn(cli@, at@, reply@),
{
    match at {
        Stage::Preflight(at) => continue_preflight(cli, at, reply),
        Stage::Cluster(found, at) => continue_cluster(cli, found, at, reply),
        Stage::Registry(found, at) => continue_registry(cli, found, at, reply),
        Stage::Config(found, at) => continue_config(cli, found, at, reply),
        Stage::Operator(found, config, at) => continue_operator(cli, found, config, at, reply),
        Stage::Secrets(found, config, at) => continue_secrets(cli, found, config, at, reply),
        Stage::Instance(found, config, at) => continue_instance(cli, found, config, at, reply),
        Stage::Watch(found, config, at) => continue_watch(cli, found, config, at, reply),
        Stage::Finished => Turn::Done(no_notes(), ()),
        Stage::Abandoned(failure) => Turn::Fail(no_notes(), failure),
    }
}

/// A stage is modelled as it is: the phase, what the phases before it found, and its point.
pub proof fn stages_are_modelled_as_they_are(
    found: Preflight<String>,
    config: String,
    checks: PreflightPoint<String>,
    making: ConfigPoint<String, Call>,
    watching: WatchPoint<String, Call>,
    kind: KindPoint,
    registry: RegistryPoint,
    operator: OperatorPoint,
    secrets: SecretsPoint,
    instance: InstancePoint,
    failure: Failure<String, Call>,
)
    ensures
        Stage::<String, Call>::Preflight(checks)@ == StageModel::Preflight(checks@),
        Stage::<String, Call>::Cluster(found, kind)@ == StageModel::Cluster(found@, kind),
        Stage::<String, Call>::Registry(found, registry)@ == StageModel::Registry(found@, registry),
        Stage::<String, Call>::Config(found, making)@ == StageModel::Config(found@, making@),
        Stage::<String, Call>::Operator(found, config, operator)@ == StageModel::Operator(
            found@,
            config@,
            operator,
        ),
        Stage::<String, Call>::Secrets(found, config, secrets)@ == StageModel::Secrets(
            found@,
            config@,
            secrets,
        ),
        Stage::<String, Call>::Instance(found, config, instance)@ == StageModel::Instance(
            found@,
            config@,
            instance,
        ),
        Stage::<String, Call>::Watch(found, config, watching)@ == StageModel::Watch(
            found@,
            config@,
            watching@,
        ),
        Stage::<String, Call>::Finished@ == StageModel::Finished,
        Stage::<String, Call>::Abandoned(failure)@ == StageModel::Abandoned(failure@),
        ConfigPoint::<String, Call>::Start@ == ConfigPointModel::Start,
        ConfigPoint::<String, Call>::Made@ == ConfigPointModel::Made,
        ConfigPoint::<String, Call>::Written(config)@ == ConfigPointModel::Written(config@),
        ConfigPoint::<String, Call>::Abandoned(failure)@ == ConfigPointModel::Abandoned(failure@),
{
}

} // verus!
