//! The checks before a bootstrap: the tools, the container engine, and what the profile needs.

use crate::aws::{
    aws_turn, optional_context, preflight_aws, AwsContext, AwsContextModel, AwsPoint,
};
use crate::cli::{given, knob_ref, Cli, CliModel, Profile};
use crate::failure::{Failure, FailureModel};
use crate::outside::lowercase;
use crate::process::{
    call, capture_lossy, no_notes, output_text, plain_call, problem, problem_note, run_quiet,
    succeeded,
};
use crate::protocol::{
    precede, preceded, Action, Call, CallModel, Note, Reply, ReplyModel, Turn, TurnModel,
};
use crate::text::{
    bare, blank, contains, has_part, has_prefix, parts_stand_anywhere, prefixes_are_taken_off_all,
    repeated, same, texts, trim, trim_start_matches, trimmed, trimming_leaves_the_inside,
    without_prefixes,
};
use vstd::prelude::*;

verus! {

/// What is known of who may do what with a file.
#[derive(Copy, Clone, Debug, PartialEq, Eq, Structural)]
pub enum Permissions {
    /// The mode bits of the file.
    Mode(u32),
    /// The mode bits could not be read.
    Unreadable,
    /// Files have no mode bits here.
    Unsupported,
}

/// What is known of a path.
#[derive(Copy, Clone, Debug, PartialEq, Eq, Structural)]
pub struct FileFacts {
    pub is_file: bool,
    pub permissions: Permissions,
}

/// Tells whether a path names a file that someone may execute.
pub open spec fn executable(file: FileFacts) -> bool {
    file.is_file && match file.permissions {
        Permissions::Mode(mode) => mode & 0o111 != 0,
        Permissions::Unreadable => false,
        Permissions::Unsupported => true,
    }
}

/// Tells whether a path names a file that someone may execute.
pub fn is_executable_file(file: FileFacts) -> (r: bool)
    ensures
        r == executable(file),
{
    file.is_file && match file.permissions {
        Permissions::Mode(mode) => mode & 0o111 != 0,
        Permissions::Unreadable => false,
        Permissions::Unsupported => true,
    }
}

/// A file with mode bits is executable if its owner, its group or anyone else may execute it.
pub proof fn executable_by_someone(mode: u32)
    ensures
        executable(FileFacts { is_file: true, permissions: Permissions::Mode(mode) }) <==> (mode
            & 0o100 != 0 || mode & 0o010 != 0 || mode & 0o001 != 0),
{
    assert(mode & 0o111 != 0 <==> (mode & 0o100 != 0 || mode & 0o010 != 0 || mode & 0o001 != 0))
        by (bit_vector);
}

/// Tells whether one of the paths names a file that someone may execute.
pub open spec fn some_executable(files: Seq<FileFacts>) -> bool {
    exists|i: int| 0 <= i < files.len() && executable(#[trigger] files[i])
}

/// Tells whether a command is in `PATH`: `candidates` are the paths it would have in each of its
/// directories, in order; there are none where `PATH` is not set.
pub fn command_exists(candidates: &Option<Vec<FileFacts>>) -> (r: bool)
    ensures
        match candidates {
            Some(files) => r == some_executable(files@),
            None => !r,
        },
{
    match candidates {
        None => false,
        Some(files) => {
            let mut i: usize = 0;
            while i < files.len()
                invariant
                    *candidates == Some(*files),
                    i <= files@.len(),
                    forall|j: int| 0 <= j < i ==> !executable(#[trigger] files@[j]),
                decreases files.len() - i,
            {
                if is_executable_file(files[i]) {
                    return true;
                }
                i = i + 1;
            }
            false
        },
    }
}

/// The tools that a profile needs, in the order in which they are looked up.
pub open spec fn tools(profile: Profile) -> Seq<Seq<char>> {
    let both = seq!["kind"@, "helm"@, "kubectl"@, "mise"@, "clusterctl"@];
    match profile {
        Profile::Aws => both,
        Profile::LocalHost => seq!["curl"@] + both + seq!["flux"@],
    }
}

/// The tools that a profile needs, in the order in which they are looked up.
pub fn required_tools(profile: Profile) -> (r: Vec<&'static str>)
    ensures
        texts(r@) == tools(profile),
{
    match profile {
        Profile::Aws => vec!["kind", "helm", "kubectl", "mise", "clusterctl"],
        Profile::LocalHost => vec![
            "curl",
            "kind",
            "helm",
            "kubectl",
            "mise",
            "clusterctl",
            "flux",
        ],
    }
}

/// The failure where a tool is missing.
pub open spec fn missing_tool(profile: Profile, tool: Seq<char>) -> FailureModel {
    if profile == Profile::LocalHost && tool == "mise"@ {
        Failure::PublisherMissing
    } else {
        Failure::ToolMissing(tool)
    }
}

/// The container engine of the run.
#[derive(Debug, PartialEq, Eq)]
#[verifier::ext_equal]
pub struct Engine<S> {
    pub name: S,
    /// The path of its socket.
    pub sock: S,
}

pub type EngineModel = Engine<Seq<char>>;

impl View for Engine<String> {
    type V = EngineModel;

    open spec fn view(&self) -> EngineModel {
        Engine { name: self.name@, sock: self.sock@ }
    }
}

/// How far finding the container engine has come.
#[derive(Copy, Clone, Debug, PartialEq, Eq, Structural)]
pub enum EnginePoint {
    Start,
    /// Looking for Docker.
    DockerFound,
    /// Asking whether it runs.
    DockerRuns,
    /// Asking what it is: it may be Podman under another name.
    DockerNamed,
    /// Looking for Podman.
    PodmanFound,
    /// Asking whether it runs.
    PodmanRuns,
    /// Docker is the engine: asking whether it runs.
    DockerChecked,
    /// Podman is the engine: asking whether it runs.
    PodmanChecked,
    /// Telling kind about Podman.
    ProviderSet,
    /// Asking for the socket of Podman.
    SocketFound,
}

impl View for EnginePoint {
    type V = EnginePoint;

    open spec fn view(&self) -> EnginePoint {
        *self
    }
}

/// Asks a container engine whether it runs.
pub open spec fn engine_info(engine: Seq<char>) -> CallModel {
    plain_call(engine, seq!["info"@])
}

/// Asks Docker what it is.
pub open spec fn docker_version() -> CallModel {
    plain_call("docker"@, seq!["--version"@])
}

/// Asks Podman for its socket.
pub open spec fn podman_socket() -> CallModel {
    plain_call("podman"@, seq!["info"@, "--format"@, "{{.Host.RemoteSocket.Path}}"@])
}

fn info_call(engine: &str) -> (r: Call)
    ensures
        r@ == engine_info(engine@),
{
    call(engine, &["info"])
}

fn version_call() -> (r: Call)
    ensures
        r@ == docker_version(),
{
    call("docker", &["--version"])
}

fn socket_call() -> (r: Call)
    ensures
        r@ == podman_socket(),
{
    call("podman", &["info", "--format", "{{.Host.RemoteSocket.Path}}"])
}

/// The engine that a `docker` command is, by what it tells about its version in lowercase.
pub open spec fn engine_of(version: Seq<char>) -> Seq<char> {
    if has_part(version, "podman"@) {
        "podman"@
    } else {
        "docker"@
    }
}

/// Tells which engine a `docker` command is, by what it tells about its version in lowercase.
pub fn engine_of_version(version: &str) -> (r: &'static str)
    ensures
        r@ == engine_of(version@),
{
    if contains(version, "podman") {
        "podman"
    } else {
        "docker"
    }
}

/// The path in what Podman tells about its socket; empty where it tells none.
pub open spec fn socket_path(output: Seq<char>) -> Seq<char> {
    without_prefixes(trimmed(output), "unix://"@)
}

/// The engine, after Podman has told about its socket.
pub open spec fn podman_turn(output: Seq<char>) -> TurnModel<EnginePoint, EngineModel> {
    if socket_path(output).len() == 0 {
        TurnModel::Done(
            problem(
                ">>> WARNING: Could not detect the podman API socket path; assuming /run/podman/podman.sock"@,
            ),
            Engine { name: "podman"@, sock: "/run/podman/podman.sock"@ },
        )
    } else {
        TurnModel::Done(seq![], Engine { name: "podman"@, sock: socket_path(output) })
    }
}

/// Settles the engine, after Podman has told about its socket.
pub fn choose_socket(output: &str) -> (r: Turn<EnginePoint, Engine<String>>)
    ensures
        r@ == podman_turn(output@),
{
    let path = trim_start_matches(trim(output), "unix://");
    if path.is_empty() {
        Turn::Done(
            problem_note(
                ">>> WARNING: Could not detect the podman API socket path; assuming /run/podman/podman.sock".to_string(),
            ),
            Engine { name: "podman".to_string(), sock: "/run/podman/podman.sock".to_string() },
        )
    } else {
        Turn::Done(
            no_notes(),
            Engine { name: "podman".to_string(), sock: path.to_string() },
        )
    }
}

/// The engine is chosen: the next thing is whether it runs.
pub open spec fn chosen_turn(engine: Seq<char>) -> TurnModel<EnginePoint, EngineModel> {
    if engine == "docker"@ {
        TurnModel::Ask(
            EnginePoint::DockerChecked,
            seq![],
            Action::RunQuiet(engine_info("docker"@)),
        )
    } else if engine == "podman"@ {
        TurnModel::Ask(
            EnginePoint::PodmanChecked,
            seq![],
            Action::RunQuiet(engine_info("podman"@)),
        )
    } else {
        TurnModel::Fail(seq![], Failure::UnsupportedEngine(engine))
    }
}

fn check_engine(engine: &str) -> (r: Turn<EnginePoint, Engine<String>>)
    ensures
        r@ == chosen_turn(engine@),
{
    if same(engine, "docker") {
        Turn::Ask(EnginePoint::DockerChecked, no_notes(), Action::RunQuiet(info_call("docker")))
    } else if same(engine, "podman") {
        Turn::Ask(EnginePoint::PodmanChecked, no_notes(), Action::RunQuiet(info_call("podman")))
    } else {
        Turn::Fail(no_notes(), Failure::UnsupportedEngine(engine.to_string()))
    }
}

/// Looks for Podman, where Docker will not do.
pub open spec fn look_for_podman() -> TurnModel<EnginePoint, EngineModel> {
    TurnModel::Ask(EnginePoint::PodmanFound, seq![], Action::FindTool("podman"@))
}

/// Finding the container engine: what follows at each point. It is looked for where the settings
/// name none, or an empty one.
pub open spec fn engine_turn(cli: CliModel, at: EnginePoint, reply: ReplyModel) -> TurnModel<
    EnginePoint,
    EngineModel,
> {
    match at {
        EnginePoint::Start => match given(cli.container_engine) {
            Some(engine) => chosen_turn(engine),
            None => TurnModel::Ask(
                EnginePoint::DockerFound,
                seq![],
                Action::FindTool("docker"@),
            ),
        },
        EnginePoint::DockerFound => match reply {
            Reply::Found(true) => TurnModel::Ask(
                EnginePoint::DockerRuns,
                seq![],
                Action::RunQuiet(engine_info("docker"@)),
            ),
            Reply::Found(false) => look_for_podman(),
            _ => TurnModel::Fail(seq![], Failure::UnexpectedReply),
        },
        EnginePoint::DockerRuns => if succeeded(reply) {
            TurnModel::Ask(
                EnginePoint::DockerNamed,
                seq![],
                Action::CaptureLossy(docker_version()),
            )
        } else {
            look_for_podman()
        },
        EnginePoint::DockerNamed => chosen_turn(engine_of(lowercase(output_text(reply)))),
        EnginePoint::PodmanFound => match reply {
            Reply::Found(true) => TurnModel::Ask(
                EnginePoint::PodmanRuns,
                seq![],
                Action::RunQuiet(engine_info("podman"@)),
            ),
            Reply::Found(false) => TurnModel::Fail(seq![], Failure::NoEngine),
            _ => TurnModel::Fail(seq![], Failure::UnexpectedReply),
        },
        EnginePoint::PodmanRuns => if succeeded(reply) {
            chosen_turn("podman"@)
        } else {
            TurnModel::Fail(seq![], Failure::NoEngine)
        },
        EnginePoint::DockerChecked => if succeeded(reply) {
            TurnModel::Done(seq![], Engine { name: "docker"@, sock: "/var/run/docker.sock"@ })
        } else {
            TurnModel::Fail(seq![], Failure::DockerDown)
        },
        EnginePoint::PodmanChecked => if succeeded(reply) {
            TurnModel::Ask(
                EnginePoint::ProviderSet,
                seq![],
                Action::SetVar("KIND_EXPERIMENTAL_PROVIDER"@, "podman"@),
            )
        } else {
            TurnModel::Fail(seq![], Failure::PodmanDown)
        },
        EnginePoint::ProviderSet => TurnModel::Ask(
            EnginePoint::SocketFound,
            seq![],
            Action::CaptureLossy(podman_socket()),
        ),
        EnginePoint::SocketFound => podman_turn(output_text(reply)),
    }
}

fn find_podman() -> (r: Turn<EnginePoint, Engine<String>>)
    ensures
        r@ == look_for_podman(),
{
    Turn::Ask(EnginePoint::PodmanFound, no_notes(), Action::FindTool("podman".to_string()))
}

/// Finds the container engine: from the point that was reached and the last answer to what
/// follows.
pub fn find_engine(cli: &Cli<String>, at: EnginePoint, reply: &Reply<String, Vec<u8>>) -> (r: Turn<
    EnginePoint,
    Engine<String>,
>)
    ensures
        r@ == engine_turn(cli@, at, reply@),
{
    match at {
        EnginePoint::Start => match knob_ref(&cli.container_engine) {
            Some(engine) => check_engine(engine.as_str()),
            None => Turn::Ask(
                EnginePoint::DockerFound,
                no_notes(),
                Action::FindTool("docker".to_string()),
            ),
        },
        EnginePoint::DockerFound => match reply {
            Reply::Found(true) => Turn::Ask(
                EnginePoint::DockerRuns,
                no_notes(),
                Action::RunQuiet(info_call("docker")),
            ),
            Reply::Found(false) => find_podman(),
            _ => Turn::Fail(no_notes(), Failure::UnexpectedReply),
        },
        EnginePoint::DockerRuns => if run_quiet(reply) {
            Turn::Ask(
                EnginePoint::DockerNamed,
                no_notes(),
                Action::CaptureLossy(version_call()),
            )
        } else {
            find_podman()
        },
        EnginePoint::DockerNamed => {
            let version = capture_lossy(reply).as_str().to_lowercase();
            check_engine(engine_of_version(version.as_str()))
        },
        EnginePoint::PodmanFound => match reply {
            Reply::Found(true) => Turn::Ask(
                EnginePoint::PodmanRuns,
                no_notes(),
                Action::RunQuiet(info_call("podman")),
            ),
            Reply::Found(false) => Turn::Fail(no_notes(), Failure::NoEngine),
            _ => Turn::Fail(no_notes(), Failure::UnexpectedReply),
        },
        EnginePoint::PodmanRuns => if run_quiet(reply) {
            check_engine("podman")
        } else {
            Turn::Fail(no_notes(), Failure::NoEngine)
        },
        EnginePoint::DockerChecked => if run_quiet(reply) {
            Turn::Done(
                no_notes(),
                Engine { name: "docker".to_string(), sock: "/var/run/docker.sock".to_string() },
            )
        } else {
            Turn::Fail(no_notes(), Failure::DockerDown)
        },
        EnginePoint::PodmanChecked => if run_quiet(reply) {
            Turn::Ask(
                EnginePoint::ProviderSet,
                no_notes(),
                Action::SetVar("KIND_EXPERIMENTAL_PROVIDER".to_string(), "podman".to_string()),
            )
        } else {
            Turn::Fail(no_notes(), Failure::PodmanDown)
        },
        EnginePoint::ProviderSet => Turn::Ask(
            EnginePoint::SocketFound,
            no_notes(),
            Action::CaptureLossy(socket_call()),
        ),
        EnginePoint::SocketFound => choose_socket(capture_lossy(reply).as_str()),
    }
}

/// What all checks together have found out.
#[derive(Debug, PartialEq, Eq)]
#[verifier::ext_equal]
pub struct Preflight<S> {
    pub engine: S,
    pub engine_sock: S,
    pub aws: Option<AwsContext<S>>,
}

pub type PreflightModel = Preflight<Seq<char>>;

impl View for Preflight<String> {
    type V = PreflightModel;

    open spec fn view(&self) -> PreflightModel {
        Preflight {
            engine: self.engine@,
            engine_sock: self.engine_sock@,
            aws: optional_context(self.aws),
        }
    }
}

/// How far the checks have come.
#[derive(Debug, PartialEq, Eq)]
#[verifier::ext_equal]
pub enum PreflightPoint<S> {
    Start,
    /// Looking for the tool at this place of the list.
    ToolFound(usize),
    /// Checking what a bootstrap on AWS needs.
    Aws(AwsPoint),
    /// Finding the container engine.
    Engine(Option<AwsContext<S>>, EnginePoint),
}

pub type PreflightPointModel = PreflightPoint<Seq<char>>;

impl View for PreflightPoint<String> {
    type V = PreflightPointModel;

    open spec fn view(&self) -> PreflightPointModel {
        match self {
            PreflightPoint::Start => PreflightPoint::Start,
            PreflightPoint::ToolFound(place) => PreflightPoint::ToolFound(*place),
            PreflightPoint::Aws(at) => PreflightPoint::Aws(*at),
            PreflightPoint::Engine(aws, at) => PreflightPoint::Engine(optional_context(*aws), *at),
        }
    }
}

/// The checks from the search for the container engine on.
pub open spec fn from_engine(
    cli: CliModel,
    aws: Option<AwsContextModel>,
    at: EnginePoint,
    reply: ReplyModel,
) -> TurnModel<PreflightPointModel, PreflightModel> {
    match engine_turn(cli, at, reply) {
        TurnModel::Ask(at, notes, action) => TurnModel::Ask(
            PreflightPoint::Engine(aws, at),
            notes,
            action,
        ),
        TurnModel::Done(notes, engine) => TurnModel::Done(
            notes,
            Preflight { engine: engine.name, engine_sock: engine.sock, aws },
        ),
        TurnModel::Fail(notes, failure) => TurnModel::Fail(notes, failure),
    }
}

/// The checks from those for AWS on.
pub open spec fn from_aws(cli: CliModel, at: AwsPoint, reply: ReplyModel) -> TurnModel<
    PreflightPointModel,
    PreflightModel,
> {
    match aws_turn(cli, at, reply) {
        TurnModel::Ask(at, notes, action) => TurnModel::Ask(PreflightPoint::Aws(at), notes, action),
        TurnModel::Done(notes, aws) => preceded(
            notes,
            from_engine(cli, Some(aws), EnginePoint::Start, Reply::Begin),
        ),
        TurnModel::Fail(notes, failure) => TurnModel::Fail(notes, failure),
    }
}

/// The checks from the tool at this place of the list on.
pub open spec fn from_tool(cli: CliModel, place: int) -> TurnModel<
    PreflightPointModel,
    PreflightModel,
> {
    if place < tools(cli.profile).len() {
        TurnModel::Ask(
            PreflightPoint::ToolFound(place as usize),
            seq![],
            Action::FindTool(tools(cli.profile)[place]),
        )
    } else {
        match cli.profile {
            Profile::Aws => from_aws(cli, AwsPoint::Start, Reply::Begin),
            Profile::LocalHost => from_engine(cli, None, EnginePoint::Start, Reply::Begin),
        }
    }
}

/// The checks before a bootstrap: what follows at each point.
pub open spec fn preflight_turn(
    cli: CliModel,
    at: PreflightPointModel,
    reply: ReplyModel,
) -> TurnModel<PreflightPointModel, PreflightModel> {
    match at {
        PreflightPoint::Start => from_tool(cli, 0),
        PreflightPoint::ToolFound(place) => if place >= tools(cli.profile).len() {
            from_tool(cli, place as int)
        } else {
            match reply {
                Reply::Found(true) => from_tool(cli, place + 1),
                Reply::Found(false) => TurnModel::Fail(
                    seq![],
                    missing_tool(cli.profile, tools(cli.profile)[place as int]),
                ),
                _ => TurnModel::Fail(seq![], Failure::UnexpectedReply),
            }
        },
        PreflightPoint::Aws(at) => from_aws(cli, at, reply),
        PreflightPoint::Engine(aws, at) => from_engine(cli, aws, at, reply),
    }
}

fn continue_engine(
    cli: &Cli<String>,
    aws: Option<AwsContext<String>>,
    at: EnginePoint,
    reply: &Reply<String, Vec<u8>>,
) -> (r: Turn<PreflightPoint<String>, Preflight<String>>)
    ensures
        r@ == from_engine(cli@, optional_context(aws), at, reply@),
{
    match find_engine(cli, at, reply) {
        Turn::Ask(at, notes, action) => Turn::Ask(PreflightPoint::Engine(aws, at), notes, action),
        Turn::Done(notes, engine) => Turn::Done(
            notes,
            Preflight { engine: engine.name, engine_sock: engine.sock, aws },
        ),
        Turn::Fail(notes, failure) => Turn::Fail(notes, failure),
    }
}

fn continue_aws(cli: &Cli<String>, at: AwsPoint, reply: &Reply<String, Vec<u8>>) -> (r: Turn<
    PreflightPoint<String>,
    Preflight<String>,
>)
    ensures
        r@ == from_aws(cli@, at, reply@),
{
    match preflight_aws(cli, at, reply) {
        Turn::Ask(at, notes, action) => Turn::Ask(PreflightPoint::Aws(at), notes, action),
        Turn::Done(notes, aws) => precede(
            notes,
            continue_engine(cli, Some(aws), EnginePoint::Start, &Reply::Begin),
        ),
        Turn::Fail(notes, failure) => Turn::Fail(notes, failure),
    }
}

fn continue_tools(cli: &Cli<String>, place: usize) -> (r: Turn<
    PreflightPoint<String>,
    Preflight<String>,
>)
    ensures
        r@ == from_tool(cli@, place as int),
{
    let needed = required_tools(cli.profile);
    if place < needed.len() {
        Turn::Ask(
            PreflightPoint::ToolFound(place),
            no_notes(),
            Action::FindTool(needed[place].to_string()),
        )
    } else {
        match cli.profile {
            Profile::Aws => continue_aws(cli, AwsPoint::Start, &Reply::Begin),
            Profile::LocalHost => continue_engine(cli, None, EnginePoint::Start, &Reply::Begin),
        }
    }
}

/// Checks the tools, what the profile needs, and the container engine: from the point that was
/// reached and the last answer to what follows.
pub fn preflight_checks(
    cli: &Cli<String>,
    at: PreflightPoint<String>,
    reply: &Reply<String, Vec<u8>>,
) -> (r: Turn<PreflightPoint<String>, Preflight<String>>)
    ensures
        r@ == preflight_turn(cli@, at@, reply@),
{
    match at {
        PreflightPoint::Start => continue_tools(cli, 0),
        PreflightPoint::ToolFound(place) => {
            let needed = required_tools(cli.profile);
            if place >= needed.len() {
                continue_tools(cli, place)
            } else {
                match reply {
                    Reply::Found(true) => continue_tools(cli, place + 1),
                    Reply::Found(false) => if cli.profile == Profile::LocalHost && same(
                        needed[place],
                        "mise",
                    ) {
                        Turn::Fail(no_notes(), Failure::PublisherMissing)
                    } else {
                        Turn::Fail(no_notes(), Failure::ToolMissing(needed[place].to_string()))
                    },
                    _ => Turn::Fail(no_notes(), Failure::UnexpectedReply),
                }
            }
        },
        PreflightPoint::Aws(at) => continue_aws(cli, at, reply),
        PreflightPoint::Engine(aws, at) => continue_engine(cli, aws, at, reply),
    }
}

/// The socket is the path that Podman tells, with or without a scheme before it and whatever white
/// space is around it. Only where no path is told, one is assumed, with a warning.
pub proof fn the_socket_is_what_podman_tells(
    before: Seq<char>,
    schemes: nat,
    path: Seq<char>,
    after: Seq<char>,
)
    requires
        blank(before),
        bare(repeated("unix://"@, schemes) + path),
        !has_prefix(path, "unix://"@),
        blank(after),
    ensures
        podman_turn(before + (repeated("unix://"@, schemes) + path) + after) == (if path.len() > 0 {
            TurnModel::<EnginePoint, EngineModel>::Done(
                seq![],
                Engine { name: "podman"@, sock: path },
            )
        } else {
            TurnModel::<EnginePoint, EngineModel>::Done(
                seq![
                    Note::Problem(
                        ">>> WARNING: Could not detect the podman API socket path; assuming /run/podman/podman.sock"@,
                    ),
                ],
                Engine { name: "podman"@, sock: "/run/podman/podman.sock"@ },
            )
        }),
{
    reveal_strlit("unix://");
    trimming_leaves_the_inside(before, repeated("unix://"@, schemes) + path, after);
    prefixes_are_taken_off_all("unix://"@, schemes, path);
}

/// A `docker` command is Podman exactly where that word is in what it tells about its version.
pub proof fn podman_tells_its_name(before: Seq<char>, after: Seq<char>, version: Seq<char>)
    ensures
        engine_of(before + "podman"@ + after) == "podman"@,
        engine_of(version) == "podman"@ || engine_of(version) == "docker"@,
        engine_of(version) == "podman"@ ==> exists|a: Seq<char>, b: Seq<char>|
            version == #[trigger] (a + "podman"@ + b),
{
    reveal_strlit("podman");
    reveal_strlit("docker");
    assert("podman"@[0] == 'p' && "docker"@[0] == 'd');
    parts_stand_anywhere(before + "podman"@ + after, before, "podman"@, after);
    parts_stand_anywhere(version, before, "podman"@, after);
}

/// A command is found exactly where one of its candidates can be executed, whichever it is and
/// however many there are.
pub proof fn any_candidate_will_do(files: Seq<FileFacts>, file: FileFacts)
    ensures
        !some_executable(Seq::<FileFacts>::empty()),
        some_executable(files.push(file)) <==> some_executable(files) || executable(file),
        executable(file) ==> file.is_file,
        file.permissions is Unreadable ==> !executable(file),
        file.permissions is Unsupported && file.is_file ==> executable(file),
{
    let more = files.push(file);
    assert(more[files.len() as int] == file);
    if some_executable(files) {
        let i = choose|i: int| 0 <= i < files.len() && executable(#[trigger] files[i]);
        assert(more[i] == files[i]);
    }
    if some_executable(more) {
        let i = choose|i: int| 0 <= i < more.len() && executable(#[trigger] more[i]);
        if i < files.len() {
            assert(files[i] == more[i]);
        }
    }
}

/// What the checks find is modelled as it is.
pub proof fn findings_are_modelled_as_they_are(found: Preflight<String>, engine: Engine<String>)
    ensures
        found@.engine == found.engine@,
        found@.engine_sock == found.engine_sock@,
        found@.aws is Some <==> found.aws is Some,
        found.aws is Some ==> found@.aws->0 == found.aws->0@,
        engine@.name == engine.name@,
        engine@.sock == engine.sock@,
{
}

/// A point of the checks is modelled as it is.
pub proof fn points_are_modelled_as_they_are(
    place: usize,
    aws: Option<AwsContext<String>>,
    settings: AwsPoint,
    engine: EnginePoint,
)
    ensures
        PreflightPoint::<String>::Start@ == PreflightPointModel::Start,
        PreflightPoint::<String>::ToolFound(place)@ == PreflightPointModel::ToolFound(place),
        PreflightPoint::<String>::Aws(settings)@ == PreflightPointModel::Aws(settings),
        PreflightPoint::<String>::Engine(aws, engine)@ == PreflightPointModel::Engine(
            optional_context(aws),
            engine,
        ),
{
}

} // verus!
