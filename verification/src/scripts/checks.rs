//! The checks before a bootstrap, as they are seen from outside.

use crate::aws::{
    aws_turn, branch_page, escaped, missing_fields, public_key, repository, AwsContext,
    AwsContextModel, AwsPoint,
};
use crate::cli::{CliModel, Profile};
use crate::failure::Failure;
use crate::outside::lowercase;
use crate::preflight::{
    engine_turn, podman_turn, preflight_turn, tools, Engine, EngineModel, EnginePoint, Preflight,
    PreflightModel, PreflightPoint, PreflightPointModel,
};
use crate::process::{output_text, succeeded};
use crate::protocol::{Action, Reply, ReplyModel, TurnModel};
use crate::scripts::{command, events, reached, Event};
use crate::text::has_part;
use vstd::prelude::*;

verus! {

/// On the local host, seven tools are looked for, one after the other, and then a container
/// engine.
#[verifier::rlimit(50)]
pub proof fn the_local_host_needs_its_tools(cli: CliModel, answers: Seq<ReplyModel>)
    requires
        cli.profile == Profile::LocalHost,
        cli.container_engine is None || cli.container_engine->0.len() == 0,
        answers.len() == 7,
        answers[0] == Reply::<Seq<char>, Seq<u8>>::Found(true),
        answers[1] == Reply::<Seq<char>, Seq<u8>>::Found(true),
        answers[2] == Reply::<Seq<char>, Seq<u8>>::Found(true),
        answers[3] == Reply::<Seq<char>, Seq<u8>>::Found(true),
        answers[4] == Reply::<Seq<char>, Seq<u8>>::Found(true),
        answers[5] == Reply::<Seq<char>, Seq<u8>>::Found(true),
        answers[6] == Reply::<Seq<char>, Seq<u8>>::Found(true),
    ensures
        ({
            let step = |at: PreflightPointModel, reply: ReplyModel| preflight_turn(cli, at, reply);
            let first = preflight_turn(cli, PreflightPoint::Start, Reply::Begin);
            &&& events(step, first, answers) == seq![
                Event::Asked(Action::FindTool("curl"@)),
                Event::Asked(Action::FindTool("kind"@)),
                Event::Asked(Action::FindTool("helm"@)),
                Event::Asked(Action::FindTool("kubectl"@)),
                Event::Asked(Action::FindTool("mise"@)),
                Event::Asked(Action::FindTool("clusterctl"@)),
                Event::Asked(Action::FindTool("flux"@)),
                Event::Asked(Action::FindTool("docker"@)),
            ]
            &&& reached(step, first, answers) is Ask
        }),
{
    reveal_with_fuel(events, 8);
    reveal_with_fuel(reached, 8);
}

/// On AWS, five tools are looked for, and then GitHub is asked for the main branch, with the
/// token.
#[verifier::rlimit(50)]
pub proof fn aws_needs_its_tools(
    cli: CliModel,
    token: Seq<char>,
    url: Seq<char>,
    repo: Seq<char>,
    answers: Seq<ReplyModel>,
)
    requires
        cli.profile == Profile::Aws,
        cli.github_token == Some(token),
        token.len() > 0,
        cli.git_repo_url == Some(url),
        repository(url) == Some(repo),
        answers.len() == 5,
        answers[0] == Reply::<Seq<char>, Seq<u8>>::Found(true),
        answers[1] == Reply::<Seq<char>, Seq<u8>>::Found(true),
        answers[2] == Reply::<Seq<char>, Seq<u8>>::Found(true),
        answers[3] == Reply::<Seq<char>, Seq<u8>>::Found(true),
        answers[4] == Reply::<Seq<char>, Seq<u8>>::Found(true),
    ensures
        ({
            let step = |at: PreflightPointModel, reply: ReplyModel| preflight_turn(cli, at, reply);
            let first = preflight_turn(cli, PreflightPoint::Start, Reply::Begin);
            &&& events(step, first, answers) == seq![
                Event::Asked(Action::FindTool("kind"@)),
                Event::Asked(Action::FindTool("helm"@)),
                Event::Asked(Action::FindTool("kubectl"@)),
                Event::Asked(Action::FindTool("mise"@)),
                Event::Asked(Action::FindTool("clusterctl"@)),
                Event::Asked(
                    Action::GetAuthorized {
                        url: "https://api.github.com/repos/"@ + repo + "/branches/main"@,
                        accept: "application/vnd.github+json"@,
                        authorization: "Bearer "@ + token,
                        limit: 10,
                    },
                ),
            ]
            &&& reached(step, first, answers) is Ask
        }),
{
    lemma_branch_page(repo);
    lemma_no_url_is_empty(url);
    reveal_with_fuel(events, 6);
    reveal_with_fuel(reached, 6);
}

proof fn lemma_branch_page(repo: Seq<char>)
    ensures
        branch_page(repo) == "https://api.github.com/repos/"@ + repo + "/branches/main"@,
{
    reveal_strlit("main");
    reveal_strlit("/branches/");
    reveal_strlit("/branches/main");
    reveal_with_fuel(escaped, 5);
    assert(escaped("main"@) =~= "main"@);
    assert("/branches/"@ + "main"@ =~= "/branches/main"@);
    assert(branch_page(repo) =~= "https://api.github.com/repos/"@ + repo + ("/branches/"@
        + "main"@));
}

proof fn lemma_no_url_is_empty(url: Seq<char>)
    requires
        repository(url) is Some,
    ensures
        url.len() > 0,
{
    reveal_strlit("https://github.com/");
}

/// A tool that is missing is named in the failure; `mise` on the local host with what it is for.
pub proof fn missing_tools_are_told(cli: CliModel, place: usize)
    requires
        place < tools(cli.profile).len(),
    ensures
        preflight_turn(cli, PreflightPoint::ToolFound(place), Reply::Found(false)) == TurnModel::<
            PreflightPointModel,
            PreflightModel,
        >::Fail(
            seq![],
            if cli.profile == Profile::LocalHost && place == 4 {
                Failure::PublisherMissing
            } else {
                Failure::ToolMissing(tools(cli.profile)[place as int])
            },
        ),
{
    reveal_strlit("mise");
    reveal_strlit("curl");
    reveal_strlit("kind");
    reveal_strlit("helm");
    reveal_strlit("kubectl");
    reveal_strlit("clusterctl");
    reveal_strlit("flux");
    assert("mise"@[0] == 'm' && "curl"@[0] == 'c' && "kind"@[0] == 'k' && "helm"@[0] == 'h');
    assert("kubectl"@[0] == 'k' && "clusterctl"@[0] == 'c' && "flux"@[0] == 'f');
}

/// A Docker that is there, runs and is no Podman is the engine, with the socket that it always
/// has.
pub proof fn docker_is_the_engine(cli: CliModel, answers: Seq<ReplyModel>)
    requires
        cli.container_engine is None || cli.container_engine->0.len() == 0,
        answers.len() == 4,
        answers[0] == Reply::<Seq<char>, Seq<u8>>::Found(true),
        succeeded(answers[1]),
        !has_part(lowercase(output_text(answers[2])), "podman"@),
        succeeded(answers[3]),
    ensures
        ({
            let step = |at: EnginePoint, reply: ReplyModel| engine_turn(cli, at, reply);
            let first = engine_turn(cli, EnginePoint::Start, Reply::Begin);
            &&& events(step, first, answers) == seq![
                Event::Asked(Action::FindTool("docker"@)),
                Event::Asked(Action::RunQuiet(command("docker"@, seq!["info"@]))),
                Event::Asked(Action::CaptureLossy(command("docker"@, seq!["--version"@]))),
                Event::Asked(Action::RunQuiet(command("docker"@, seq!["info"@]))),
            ]
            &&& reached(step, first, answers) == TurnModel::<EnginePoint, EngineModel>::Done(
                seq![],
                Engine { name: "docker"@, sock: "/var/run/docker.sock"@ },
            )
        }),
{
    reveal_with_fuel(events, 5);
    reveal_with_fuel(reached, 5);
}

/// A Docker that tells that it is Podman, in whatever case, is used as Podman: kind is told, and
/// Podman is asked for its socket.
#[verifier::rlimit(50)]
pub proof fn podman_behind_docker_is_the_engine(cli: CliModel, answers: Seq<ReplyModel>)
    requires
        cli.container_engine is None || cli.container_engine->0.len() == 0,
        answers.len() == 6,
        answers[0] == Reply::<Seq<char>, Seq<u8>>::Found(true),
        succeeded(answers[1]),
        has_part(lowercase(output_text(answers[2])), "podman"@),
        succeeded(answers[3]),
    ensures
        ({
            let step = |at: EnginePoint, reply: ReplyModel| engine_turn(cli, at, reply);
            let first = engine_turn(cli, EnginePoint::Start, Reply::Begin);
            &&& events(step, first, answers.drop_last()) == seq![
                Event::Asked(Action::FindTool("docker"@)),
                Event::Asked(Action::RunQuiet(command("docker"@, seq!["info"@]))),
                Event::Asked(Action::CaptureLossy(command("docker"@, seq!["--version"@]))),
                Event::Asked(Action::RunQuiet(command("podman"@, seq!["info"@]))),
                Event::Asked(Action::SetVar("KIND_EXPERIMENTAL_PROVIDER"@, "podman"@)),
                Event::Asked(
                    Action::CaptureLossy(
                        command(
                            "podman"@,
                            seq!["info"@, "--format"@, "{{.Host.RemoteSocket.Path}}"@],
                        ),
                    ),
                ),
            ]
            &&& reached(step, first, answers) == podman_turn(output_text(answers[5]))
        }),
{
    lemma_engines_differ();
    reveal_with_fuel(events, 7);
    reveal_with_fuel(reached, 7);
}

/// Without Docker, a Podman that runs is the engine.
#[verifier::rlimit(50)]
pub proof fn podman_without_docker_is_the_engine(cli: CliModel, answers: Seq<ReplyModel>)
    requires
        cli.container_engine is None || cli.container_engine->0.len() == 0,
        answers.len() == 6,
        answers[0] == Reply::<Seq<char>, Seq<u8>>::Found(false),
        answers[1] == Reply::<Seq<char>, Seq<u8>>::Found(true),
        succeeded(answers[2]),
        succeeded(answers[3]),
    ensures
        ({
            let step = |at: EnginePoint, reply: ReplyModel| engine_turn(cli, at, reply);
            let first = engine_turn(cli, EnginePoint::Start, Reply::Begin);
            &&& events(step, first, answers.drop_last()) == seq![
                Event::Asked(Action::FindTool("docker"@)),
                Event::Asked(Action::FindTool("podman"@)),
                Event::Asked(Action::RunQuiet(command("podman"@, seq!["info"@]))),
                Event::Asked(Action::RunQuiet(command("podman"@, seq!["info"@]))),
                Event::Asked(Action::SetVar("KIND_EXPERIMENTAL_PROVIDER"@, "podman"@)),
                Event::Asked(
                    Action::CaptureLossy(
                        command(
                            "podman"@,
                            seq!["info"@, "--format"@, "{{.Host.RemoteSocket.Path}}"@],
                        ),
                    ),
                ),
            ]
            &&& reached(step, first, answers) == podman_turn(output_text(answers[5]))
        }),
{
    lemma_engines_differ();
    reveal_with_fuel(events, 7);
    reveal_with_fuel(reached, 7);
}

/// Where Docker does not run, a Podman that runs is the engine.
#[verifier::rlimit(50)]
pub proof fn podman_beside_docker_is_the_engine(cli: CliModel, answers: Seq<ReplyModel>)
    requires
        cli.container_engine is None || cli.container_engine->0.len() == 0,
        answers.len() == 7,
        answers[0] == Reply::<Seq<char>, Seq<u8>>::Found(true),
        !succeeded(answers[1]),
        answers[2] == Reply::<Seq<char>, Seq<u8>>::Found(true),
        succeeded(answers[3]),
        succeeded(answers[4]),
    ensures
        ({
            let step = |at: EnginePoint, reply: ReplyModel| engine_turn(cli, at, reply);
            let first = engine_turn(cli, EnginePoint::Start, Reply::Begin);
            &&& events(step, first, answers.drop_last()) == seq![
                Event::Asked(Action::FindTool("docker"@)),
                Event::Asked(Action::RunQuiet(command("docker"@, seq!["info"@]))),
                Event::Asked(Action::FindTool("podman"@)),
                Event::Asked(Action::RunQuiet(command("podman"@, seq!["info"@]))),
                Event::Asked(Action::RunQuiet(command("podman"@, seq!["info"@]))),
                Event::Asked(Action::SetVar("KIND_EXPERIMENTAL_PROVIDER"@, "podman"@)),
                Event::Asked(
                    Action::CaptureLossy(
                        command(
                            "podman"@,
                            seq!["info"@, "--format"@, "{{.Host.RemoteSocket.Path}}"@],
                        ),
                    ),
                ),
            ]
            &&& reached(step, first, answers) == podman_turn(output_text(answers[6]))
        }),
{
    lemma_engines_differ();
    reveal_with_fuel(events, 8);
    reveal_with_fuel(reached, 8);
}

/// An engine that the settings name is not looked for, but has to run: this is Docker.
pub proof fn docker_in_the_settings_is_the_engine(cli: CliModel, answers: Seq<ReplyModel>)
    requires
        cli.container_engine == Some("docker"@),
        answers.len() == 1,
        succeeded(answers[0]),
    ensures
        ({
            let step = |at: EnginePoint, reply: ReplyModel| engine_turn(cli, at, reply);
            let first = engine_turn(cli, EnginePoint::Start, Reply::Begin);
            &&& events(step, first, answers) == seq![
                Event::Asked(Action::RunQuiet(command("docker"@, seq!["info"@]))),
            ]
            &&& reached(step, first, answers) == TurnModel::<EnginePoint, EngineModel>::Done(
                seq![],
                Engine { name: "docker"@, sock: "/var/run/docker.sock"@ },
            )
        }),
{
    lemma_engines_differ();
    reveal_with_fuel(events, 2);
    reveal_with_fuel(reached, 2);
}

/// An engine that the settings name is not looked for, but has to run: this is Podman.
pub proof fn podman_in_the_settings_is_the_engine(cli: CliModel, answers: Seq<ReplyModel>)
    requires
        cli.container_engine == Some("podman"@),
        answers.len() == 3,
        succeeded(answers[0]),
    ensures
        ({
            let step = |at: EnginePoint, reply: ReplyModel| engine_turn(cli, at, reply);
            let first = engine_turn(cli, EnginePoint::Start, Reply::Begin);
            &&& events(step, first, answers.drop_last()) == seq![
                Event::Asked(Action::RunQuiet(command("podman"@, seq!["info"@]))),
                Event::Asked(Action::SetVar("KIND_EXPERIMENTAL_PROVIDER"@, "podman"@)),
                Event::Asked(
                    Action::CaptureLossy(
                        command(
                            "podman"@,
                            seq!["info"@, "--format"@, "{{.Host.RemoteSocket.Path}}"@],
                        ),
                    ),
                ),
            ]
            &&& reached(step, first, answers) == podman_turn(output_text(answers[2]))
        }),
{
    lemma_engines_differ();
    reveal_with_fuel(events, 4);
    reveal_with_fuel(reached, 4);
}

proof fn lemma_engines_differ()
    ensures
        "docker"@ != "podman"@,
        "docker"@.len() > 0,
        "podman"@.len() > 0,
{
    reveal_strlit("podman");
    reveal_strlit("docker");
    assert("podman"@[0] == 'p' && "docker"@[0] == 'd');
}

/// Another engine is refused by its name, one that does not run by what it is, and none where
/// there is none.
pub proof fn engines_are_refused(cli: CliModel, name: Seq<char>, reply: ReplyModel)
    requires
        !succeeded(reply),
    ensures
        (cli.container_engine == Some(name) && name.len() > 0 && name != "docker"@ && name
            != "podman"@) ==> engine_turn(cli, EnginePoint::Start, Reply::Begin) == TurnModel::<
            EnginePoint,
            EngineModel,
        >::Fail(seq![], Failure::UnsupportedEngine(name)),
        engine_turn(cli, EnginePoint::DockerChecked, reply) == TurnModel::<
            EnginePoint,
            EngineModel,
        >::Fail(seq![], Failure::DockerDown),
        engine_turn(cli, EnginePoint::PodmanChecked, reply) == TurnModel::<
            EnginePoint,
            EngineModel,
        >::Fail(seq![], Failure::PodmanDown),
        engine_turn(cli, EnginePoint::PodmanRuns, reply) == TurnModel::<
            EnginePoint,
            EngineModel,
        >::Fail(seq![], Failure::NoEngine),
        engine_turn(cli, EnginePoint::PodmanFound, Reply::Found(false)) == TurnModel::<
            EnginePoint,
            EngineModel,
        >::Fail(seq![], Failure::NoEngine),
{
}

/// Where the branch is there and the key file is valid, all that the bootstrap needs is taken from
/// the settings as it is, and the public key.
pub proof fn aws_checks_hand_on_the_settings(
    cli: CliModel,
    token: Seq<char>,
    url: Seq<char>,
    contents: Seq<char>,
    key: Seq<char>,
    answers: Seq<ReplyModel>,
)
    requires
        cli.github_token == Some(token),
        token.len() > 0,
        cli.git_repo_url == Some(url),
        repository(url) is Some,
        answers.len() == 3,
        answers[0] == Reply::<Seq<char>, Seq<u8>>::Status(Some(200)),
        answers[1] == Reply::<Seq<char>, Seq<u8>>::Found(true),
        answers[2] == Reply::<Seq<char>, Seq<u8>>::Text(Ok(contents)),
        !missing_fields(contents).created,
        !missing_fields(contents).public_key,
        !missing_fields(contents).secret_key,
        public_key(cli.age_public_key, contents) == Some(key),
    ensures
        ({
            let step = |at: AwsPoint, reply: ReplyModel| aws_turn(cli, at, reply);
            let first = aws_turn(cli, AwsPoint::Start, Reply::Begin);
            &&& events(step, first, answers) == seq![
                Event::Asked(
                    Action::GetAuthorized {
                        url: "https://api.github.com/repos/"@ + repository(url)->0
                            + "/branches/main"@,
                        accept: "application/vnd.github+json"@,
                        authorization: "Bearer "@ + token,
                        limit: 10,
                    },
                ),
                Event::Asked(Action::CheckFile(cli.age_key_file)),
                Event::Asked(Action::ReadFile(cli.age_key_file)),
            ]
            &&& reached(step, first, answers) == TurnModel::<AwsPoint, AwsContextModel>::Done(
                seq![],
                AwsContext {
                    git_repo_url: url,
                    github_user: cli.github_user,
                    github_token: token,
                    age_key_file: cli.age_key_file,
                    age_pubkey: key,
                },
            )
        }),
{
    lemma_branch_page(repository(url)->0);
    lemma_no_url_is_empty(url);
    reveal_with_fuel(events, 4);
    reveal_with_fuel(reached, 4);
}

/// Each thing that a bootstrap on AWS lacks has its own failure, with what it is about: the status
/// that GitHub gave, or 0 where it gave none, the path of the key file, and the fields it lacks.
pub proof fn aws_checks_refuse(
    cli: CliModel,
    url: Seq<char>,
    code: u16,
    cause: Seq<char>,
    contents: Seq<char>,
)
    requires
        cli.github_token is Some && cli.github_token->0.len() > 0,
        cli.git_repo_url == Some(url),
        repository(url) is Some,
    ensures
        code != 200 ==> aws_turn(cli, AwsPoint::BranchFound, Reply::Status(Some(code)))
            == TurnModel::<AwsPoint, AwsContextModel>::Fail(
            seq![],
            Failure::BranchUnavailable { url, code },
        ),
        aws_turn(cli, AwsPoint::BranchFound, Reply::Status(None)) == TurnModel::<
            AwsPoint,
            AwsContextModel,
        >::Fail(seq![], Failure::BranchUnavailable { url, code: 0 }),
        aws_turn(cli, AwsPoint::KeyFileFound, Reply::Found(false)) == TurnModel::<
            AwsPoint,
            AwsContextModel,
        >::Fail(seq![], Failure::KeyFileMissing(cli.age_key_file)),
        aws_turn(cli, AwsPoint::KeyFileRead, Reply::Text(Err(cause))) == TurnModel::<
            AwsPoint,
            AwsContextModel,
        >::Fail(seq![], Failure::KeyFileUnreadable { path: cli.age_key_file, cause }),
        ({
            let missing = missing_fields(contents);
            let turn = aws_turn(cli, AwsPoint::KeyFileRead, Reply::Text(Ok(contents)));
            &&& missing.created || missing.public_key || missing.secret_key ==> turn
                == TurnModel::<AwsPoint, AwsContextModel>::Fail(
                seq![],
                Failure::KeyFileInvalid { path: cli.age_key_file, missing },
            )
            &&& !missing.created && !missing.public_key && !missing.secret_key && public_key(
                cli.age_public_key,
                contents,
            ) is None ==> turn == TurnModel::<AwsPoint, AwsContextModel>::Fail(
                seq![],
                Failure::PublicKeyUnknown(cli.age_key_file),
            )
        }),
{
    lemma_no_url_is_empty(url);
}

/// Without a token nothing else matters, and without a URL, or with one that names no repository,
/// nothing is asked.
pub proof fn aws_needs_a_token_and_a_url(
    cli: CliModel,
    url: Seq<char>,
    at: AwsPoint,
    reply: ReplyModel,
)
    ensures
        (cli.github_token is None || cli.github_token->0.len() == 0) ==> aws_turn(cli, at, reply)
            == TurnModel::<AwsPoint, AwsContextModel>::Fail(seq![], Failure::TokenMissing),
        cli.github_token is Some && cli.github_token->0.len() > 0 ==> {
            &&& (cli.git_repo_url is None || cli.git_repo_url->0.len() == 0) ==> aws_turn(
                cli,
                at,
                reply,
            ) == TurnModel::<AwsPoint, AwsContextModel>::Fail(seq![], Failure::RepoUrlMissing)
            &&& cli.git_repo_url == Some(url) && url.len() > 0 && repository(url) is None
                ==> aws_turn(cli, at, reply) == TurnModel::<AwsPoint, AwsContextModel>::Fail(
                seq![],
                Failure::RepoUrlInvalid,
            )
        },
{
}

/// The checks hand on what each of them has found: the context for AWS goes along unchanged while
/// the engine is looked for, and stands in the result beside the engine and its socket.
pub proof fn checks_hand_on_what_they_find(
    cli: CliModel,
    aws: Option<AwsContextModel>,
    at: EnginePoint,
    aws_at: AwsPoint,
    reply: ReplyModel,
)
    ensures
        match engine_turn(cli, at, reply) {
            TurnModel::Ask(next, notes, action) => preflight_turn(
                cli,
                PreflightPoint::Engine(aws, at),
                reply,
            ) == TurnModel::<PreflightPointModel, PreflightModel>::Ask(
                PreflightPoint::Engine(aws, next),
                notes,
                action,
            ),
            TurnModel::Done(notes, engine) => preflight_turn(
                cli,
                PreflightPoint::Engine(aws, at),
                reply,
            ) == TurnModel::<PreflightPointModel, PreflightModel>::Done(
                notes,
                Preflight { engine: engine.name, engine_sock: engine.sock, aws },
            ),
            TurnModel::Fail(notes, failure) => preflight_turn(
                cli,
                PreflightPoint::Engine(aws, at),
                reply,
            ) == TurnModel::<PreflightPointModel, PreflightModel>::Fail(notes, failure),
        },
        match aws_turn(cli, aws_at, reply) {
            TurnModel::Ask(next, notes, action) => preflight_turn(
                cli,
                PreflightPoint::Aws(aws_at),
                reply,
            ) == TurnModel::<PreflightPointModel, PreflightModel>::Ask(
                PreflightPoint::Aws(next),
                notes,
                action,
            ),
            TurnModel::Done(notes, context) => match (
                preflight_turn(cli, PreflightPoint::Aws(aws_at), reply),
                preflight_turn(
                    cli,
                    PreflightPoint::Engine(Some(context), EnginePoint::Start),
                    Reply::Begin,
                ),
            ) {
                (TurnModel::Ask(next, shown, action), TurnModel::Ask(other, more, same)) => {
                    next == other && shown == notes + more && action == same
                },
                (TurnModel::Done(shown, found), TurnModel::Done(more, same)) => {
                    shown == notes + more && found == same
                },
                (TurnModel::Fail(shown, failure), TurnModel::Fail(more, same)) => {
                    shown == notes + more && failure == same
                },
                _ => false,
            },
            TurnModel::Fail(notes, failure) => preflight_turn(
                cli,
                PreflightPoint::Aws(aws_at),
                reply,
            ) == TurnModel::<PreflightPointModel, PreflightModel>::Fail(notes, failure),
        },
{
}

/// Behind the last tool, the checks for AWS come on AWS, and the container engine on the local host.
pub proof fn the_checks_come_behind_the_tools(cli: CliModel)
    ensures
        cli.profile == Profile::Aws ==> preflight_turn(
            cli,
            PreflightPoint::ToolFound(4),
            Reply::Found(true),
        ) == preflight_turn(cli, PreflightPoint::Aws(AwsPoint::Start), Reply::Begin),
        cli.profile == Profile::LocalHost ==> preflight_turn(
            cli,
            PreflightPoint::ToolFound(6),
            Reply::Found(true),
        ) == preflight_turn(cli, PreflightPoint::Engine(None, EnginePoint::Start), Reply::Begin),
{
}

} // verus!
