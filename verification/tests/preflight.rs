use knr_bootstrap::aws::AwsPoint;
use knr_bootstrap::cli::{Cli, Profile};
use knr_bootstrap::failure::Failure;
use knr_bootstrap::preflight::{
    choose_socket, command_exists, engine_of_version, find_engine, is_executable_file,
    preflight_checks, required_tools, Engine, EnginePoint, FileFacts, Permissions, Preflight,
    PreflightPoint,
};
use knr_bootstrap::process::call;
use knr_bootstrap::protocol::{Action, Ending, Note, Reply, Turn};

type Answer = Reply<String, Vec<u8>>;
type EngineTurn = Turn<EnginePoint, Engine<String>>;

fn settings(profile: Profile, engine: Option<&str>) -> Cli<String> {
    Cli {
        profile,
        recreate: false,
        registry_port: 5001,
        registry_ready_retries: 120,
        local_reconcile_timeout: "15m".to_string(),
        container_engine: engine.map(str::to_string),
        git_repo_url: None,
        github_token: None,
        github_user: "git".to_string(),
        age_key_file: "age.agekey".to_string(),
        age_public_key: None,
        oci_repository: "knr-ops".to_string(),
        oci_tag: "latest".to_string(),
    }
}

fn file(mode: u32) -> FileFacts {
    FileFacts { is_file: true, permissions: Permissions::Mode(mode) }
}

fn exited(success: bool, output: &str) -> Answer {
    Reply::Ended(Ending::Exited {
        success,
        status: String::new(),
        output: output.as_bytes().to_vec(),
    })
}

fn at(point: EnginePoint, reply: Answer) -> EngineTurn {
    find_engine(&settings(Profile::LocalHost, None), point, &reply)
}

fn asks_info(point: EnginePoint, engine: &str) -> EngineTurn {
    Turn::Ask(point, vec![], Action::RunQuiet(call(engine, &["info"])))
}

#[test]
fn files_are_executable_by_any_of_their_bits() {
    for mode in [0o100755, 0o100100, 0o100010, 0o100001] {
        assert!(is_executable_file(file(mode)), "{mode:o}");
    }
    for mode in [0o100644, 0o100000, 0o100666, 0o107666] {
        assert!(!is_executable_file(file(mode)), "{mode:o}");
    }
    let unsupported = FileFacts { is_file: true, permissions: Permissions::Unsupported };
    assert!(is_executable_file(unsupported));
    let unreadable = FileFacts { is_file: true, permissions: Permissions::Unreadable };
    assert!(!is_executable_file(unreadable));
    let directory = FileFacts { is_file: false, permissions: Permissions::Mode(0o040755) };
    assert!(!is_executable_file(directory));
    let elsewhere = FileFacts { is_file: false, permissions: Permissions::Unsupported };
    assert!(!is_executable_file(elsewhere));
}

#[test]
fn commands_exist_where_one_candidate_is_executable() {
    assert!(!command_exists(&None));
    assert!(!command_exists(&Some(vec![])));
    assert!(!command_exists(&Some(vec![file(0o644), file(0o600)])));
    assert!(command_exists(&Some(vec![file(0o644), file(0o755)])));
    assert!(command_exists(&Some(vec![file(0o755), file(0o644)])));
}

#[test]
fn each_profile_needs_its_tools() {
    assert_eq!(
        required_tools(Profile::Aws),
        vec!["kind", "helm", "kubectl", "mise", "clusterctl"]
    );
    assert_eq!(
        required_tools(Profile::LocalHost),
        vec!["curl", "kind", "helm", "kubectl", "mise", "clusterctl", "flux"]
    );
}

#[test]
fn missing_tools_are_named() {
    for (profile, count) in [(Profile::Aws, 5), (Profile::LocalHost, 7)] {
        let cli = settings(profile, None);
        let mut point = PreflightPoint::Start;
        let mut reply: Answer = Reply::Begin;
        for place in 0..count {
            let tool = required_tools(profile)[place];
            assert_eq!(
                preflight_checks(&cli, point, &reply),
                Turn::Ask(
                    PreflightPoint::ToolFound(place),
                    vec![],
                    Action::FindTool(tool.to_string())
                )
            );
            let expected = if profile == Profile::LocalHost && tool == "mise" {
                Failure::PublisherMissing
            } else {
                Failure::ToolMissing(tool.to_string())
            };
            assert_eq!(
                preflight_checks(&cli, PreflightPoint::ToolFound(place), &Reply::Found(false)),
                Turn::Fail(vec![], expected)
            );
            point = PreflightPoint::ToolFound(place);
            reply = Reply::Found(true);
        }
    }
}

#[test]
fn the_first_missing_tool_is_named() {
    let first = |missing: &[&str]| {
        let cli = settings(Profile::LocalHost, None);
        let mut point = PreflightPoint::Start;
        let mut reply: Answer = Reply::Begin;
        loop {
            match preflight_checks(&cli, point, &reply) {
                Turn::Ask(next, _, Action::FindTool(name)) => {
                    reply = Reply::Found(!missing.contains(&name.as_str()));
                    point = next;
                }
                Turn::Fail(_, failure) => return failure.message(),
                turn => panic!("{turn:?}"),
            }
        }
    };
    assert_eq!(first(&["kind", "curl"]), "curl not found in PATH");
    assert_eq!(first(&["kubectl", "kind"]), "kind not found in PATH");
    assert_eq!(
        first(&["clusterctl", "mise"]),
        "mise not found in PATH (required to publish the initial OCI artifact)"
    );
    assert_eq!(first(&["flux", "clusterctl"]), "clusterctl not found in PATH");
}

#[test]
fn after_the_tools_come_the_checks_of_the_profile() {
    assert_eq!(
        preflight_checks(
            &settings(Profile::Aws, None),
            PreflightPoint::ToolFound(4),
            &Reply::Found(true)
        ),
        Turn::Fail(vec![], Failure::TokenMissing)
    );
    assert_eq!(
        preflight_checks(
            &settings(Profile::LocalHost, None),
            PreflightPoint::ToolFound(6),
            &Reply::Found(true)
        ),
        Turn::Ask(
            PreflightPoint::Engine(None, EnginePoint::DockerFound),
            vec![],
            Action::FindTool("docker".to_string())
        )
    );
    assert_eq!(
        preflight_checks(
            &settings(Profile::Aws, None),
            PreflightPoint::Aws(AwsPoint::Start),
            &Reply::Begin
        ),
        Turn::Fail(vec![], Failure::TokenMissing)
    );
}

#[test]
fn docker_is_tried_before_podman() {
    assert_eq!(
        at(EnginePoint::Start, Reply::Begin),
        Turn::Ask(EnginePoint::DockerFound, vec![], Action::FindTool("docker".to_string()))
    );
    assert_eq!(
        at(EnginePoint::DockerFound, Reply::Found(true)),
        asks_info(EnginePoint::DockerRuns, "docker")
    );
    let podman: EngineTurn =
        Turn::Ask(EnginePoint::PodmanFound, vec![], Action::FindTool("podman".to_string()));
    assert_eq!(at(EnginePoint::DockerFound, Reply::Found(false)), podman);
    assert_eq!(at(EnginePoint::DockerRuns, exited(false, "")), podman);
    assert_eq!(
        at(EnginePoint::DockerRuns, exited(true, "")),
        Turn::Ask(
            EnginePoint::DockerNamed,
            vec![],
            Action::CaptureLossy(call("docker", &["--version"]))
        )
    );
    assert_eq!(
        at(EnginePoint::PodmanFound, Reply::Found(true)),
        asks_info(EnginePoint::PodmanRuns, "podman")
    );
    assert_eq!(
        at(EnginePoint::PodmanRuns, exited(true, "")),
        asks_info(EnginePoint::PodmanChecked, "podman")
    );
}

#[test]
fn without_an_engine_the_checks_fail() {
    let none: EngineTurn = Turn::Fail(vec![], Failure::NoEngine);
    assert_eq!(at(EnginePoint::PodmanFound, Reply::Found(false)), none);
    assert_eq!(at(EnginePoint::PodmanRuns, exited(false, "")), none);
    assert_eq!(
        at(EnginePoint::DockerChecked, exited(false, "")),
        Turn::Fail(vec![], Failure::DockerDown)
    );
    assert_eq!(
        at(EnginePoint::PodmanChecked, exited(false, "")),
        Turn::Fail(vec![], Failure::PodmanDown)
    );
    assert_eq!(
        at(EnginePoint::DockerFound, Reply::Done),
        Turn::Fail(vec![], Failure::UnexpectedReply)
    );
}

#[test]
fn docker_may_be_podman() {
    assert_eq!(engine_of_version("docker version 27"), "docker");
    assert_eq!(engine_of_version("podman version 5"), "podman");
    assert_eq!(engine_of_version(""), "docker");
    assert_eq!(
        at(EnginePoint::DockerNamed, exited(true, "PodMan Version 5.0\n")),
        asks_info(EnginePoint::PodmanChecked, "podman")
    );
    assert_eq!(
        at(EnginePoint::DockerNamed, exited(true, "Docker version 27.0\n")),
        asks_info(EnginePoint::DockerChecked, "docker")
    );
    assert_eq!(
        at(EnginePoint::DockerNamed, exited(false, "")),
        asks_info(EnginePoint::DockerChecked, "docker")
    );
}

#[test]
fn settings_name_the_engine() {
    let start = |engine| {
        find_engine(
            &settings(Profile::LocalHost, Some(engine)),
            EnginePoint::Start,
            &Reply::Begin,
        )
    };
    assert_eq!(start("docker"), asks_info(EnginePoint::DockerChecked, "docker"));
    assert_eq!(start("podman"), asks_info(EnginePoint::PodmanChecked, "podman"));
    assert_eq!(
        start("Docker"),
        Turn::Fail(vec![], Failure::UnsupportedEngine("Docker".to_string()))
    );
}

#[test]
fn an_empty_engine_is_looked_for() {
    let cli = settings(Profile::LocalHost, Some(""));
    let mut point = PreflightPoint::ToolFound(6);
    let mut reply: Answer = Reply::Found(true);
    let found = loop {
        match preflight_checks(&cli, point, &reply) {
            Turn::Ask(next, _, action) => {
                reply = match action {
                    Action::FindTool(name) => Reply::Found(name == "docker"),
                    Action::RunQuiet(_) => exited(true, ""),
                    Action::CaptureLossy(_) => {
                        exited(true, "Docker version 27.0.3, build 7d4bcd8\n")
                    }
                    action => panic!("{action:?}"),
                };
                point = next;
            }
            Turn::Done(_, found) => break found,
            turn => panic!("{turn:?}"),
        }
    };
    assert_eq!(found.engine, "docker");
    assert_eq!(found.engine_sock, "/var/run/docker.sock");
}

#[test]
fn docker_has_its_socket() {
    assert_eq!(
        at(EnginePoint::DockerChecked, exited(true, "")),
        Turn::Done(
            vec![],
            Engine { name: "docker".to_string(), sock: "/var/run/docker.sock".to_string() }
        )
    );
}

#[test]
fn podman_tells_its_socket() {
    assert_eq!(
        at(EnginePoint::PodmanChecked, exited(true, "")),
        Turn::Ask(
            EnginePoint::ProviderSet,
            vec![],
            Action::SetVar("KIND_EXPERIMENTAL_PROVIDER".to_string(), "podman".to_string())
        )
    );
    assert_eq!(
        at(EnginePoint::ProviderSet, Reply::Done),
        Turn::Ask(
            EnginePoint::SocketFound,
            vec![],
            Action::CaptureLossy(call(
                "podman",
                &["info", "--format", "{{.Host.RemoteSocket.Path}}"]
            ))
        )
    );
    assert_eq!(
        at(EnginePoint::SocketFound, exited(true, " unix:///run/user/1000/podman.sock\n")),
        Turn::Done(
            vec![],
            Engine {
                name: "podman".to_string(),
                sock: "/run/user/1000/podman.sock".to_string()
            }
        )
    );
    assert_eq!(
        choose_socket("unix://\n"),
        Turn::Done(
            vec![Note::Problem(
                ">>> WARNING: Could not detect the podman API socket path; assuming /run/podman/podman.sock"
                    .to_string()
            )],
            Engine { name: "podman".to_string(), sock: "/run/podman/podman.sock".to_string() }
        )
    );
}

#[test]
fn the_checks_end_with_the_engine() {
    assert_eq!(
        preflight_checks(
            &settings(Profile::LocalHost, None),
            PreflightPoint::Engine(None, EnginePoint::DockerChecked),
            &exited(true, "")
        ),
        Turn::Done(
            vec![],
            Preflight {
                engine: "docker".to_string(),
                engine_sock: "/var/run/docker.sock".to_string(),
                aws: None,
            }
        )
    );
}
