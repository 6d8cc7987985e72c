use knr_bootstrap::cli::{Cli, Profile};
use knr_bootstrap::failure::Failure;
use knr_bootstrap::process::call;
use knr_bootstrap::protocol::{Action, Call, Ending, Note, Reply, Turn};
use knr_bootstrap::registry::{bootstrap_local_registry, RegistryPoint};

type Answer = Reply<String, Vec<u8>>;
type RegistryTurn = Turn<RegistryPoint, ()>;

fn settings(retries: u32) -> Cli<String> {
    Cli {
        profile: Profile::LocalHost,
        recreate: false,
        registry_port: 6001,
        registry_ready_retries: retries,
        local_reconcile_timeout: "15m".to_string(),
        container_engine: None,
        git_repo_url: None,
        github_token: None,
        github_user: "git".to_string(),
        age_key_file: "age.agekey".to_string(),
        age_public_key: None,
        oci_repository: "repo".to_string(),
        oci_tag: "v1".to_string(),
    }
}

fn exited(success: bool, output: &[u8]) -> Answer {
    Reply::Ended(Ending::Exited {
        success,
        status: "exit status: 1".to_string(),
        output: output.to_vec(),
    })
}

fn at(point: RegistryPoint, reply: Answer) -> RegistryTurn {
    bootstrap_local_registry(&settings(2), "podman", point, &reply)
}

fn line(text: &str) -> Note<String> {
    Note::Progress(text.to_string())
}

fn probes(state: &str) -> RegistryTurn {
    Turn::Ask(
        RegistryPoint::Probed(2),
        vec![line(state), line(">>> Waiting for local registry API at localhost:6001...")],
        Action::Get { url: "http://localhost:6001/v2/".to_string(), limit: 10 },
    )
}

fn publish() -> Call {
    let mut publish = call("mise", &["-E", "local-host", "run", "oci-push"]);
    publish.env = vec![
        ("REGISTRY_PORT".to_string(), "6001".to_string()),
        ("OCI_REPOSITORY".to_string(), "repo".to_string()),
        ("OCI_TAG".to_string(), "v1".to_string()),
    ];
    publish
}

fn make_config() -> Call {
    call(
        "kubectl",
        &[
            "create",
            "configmap",
            "local-registry-config",
            "--from-literal",
            "registry-url=knr-registry:5000",
            "--namespace",
            "kube-system",
            "--dry-run=client",
            "-o",
            "yaml",
        ],
    )
}

#[test]
fn the_registry_is_created_where_there_is_none() {
    assert_eq!(
        at(RegistryPoint::Start, Reply::Begin),
        Turn::Ask(
            RegistryPoint::Listed,
            vec![line(">>> Bootstrapping local container registry...")],
            Action::CaptureLossy(call(
                "podman",
                &["ps", "-a", "--filter", "name=^knr-registry$", "--format", "{{.Names}}"]
            )),
        )
    );
    let create = || {
        call(
            "podman",
            &[
                "run",
                "-d",
                "--name",
                "knr-registry",
                "--network",
                "kind",
                "-p",
                "127.0.0.1:6001:5000",
                "registry:2",
            ],
        )
    };
    assert_eq!(
        at(RegistryPoint::Listed, exited(true, b"other\n")),
        Turn::Ask(
            RegistryPoint::Created,
            vec![line("    Creating registry container 'knr-registry'...")],
            Action::Capture(create()),
        )
    );
    assert_eq!(
        at(RegistryPoint::Created, exited(true, b"id")),
        probes("    Registry created and running: localhost:6001")
    );
    assert_eq!(
        at(RegistryPoint::Created, exited(false, b"")),
        Turn::Fail(
            vec![],
            Failure::CommandFailed { call: create(), status: "exit status: 1".to_string() }
        )
    );
}

#[test]
fn a_stopped_registry_is_started_again() {
    assert_eq!(
        at(RegistryPoint::Listed, exited(true, b" knr-registry \n")),
        Turn::Ask(
            RegistryPoint::RunningListed,
            vec![],
            Action::CaptureLossy(call(
                "podman",
                &["ps", "--filter", "name=^knr-registry$", "--format", "{{.Names}}"]
            )),
        )
    );
    assert_eq!(
        at(RegistryPoint::RunningListed, exited(true, b"")),
        Turn::Ask(
            RegistryPoint::Restarted,
            vec![line("    Restarting stopped registry...")],
            Action::Capture(call("podman", &["start", "knr-registry"])),
        )
    );
    assert_eq!(
        at(RegistryPoint::Restarted, exited(true, b"")),
        probes("    Registry restarted: localhost:6001")
    );
    assert_eq!(
        at(RegistryPoint::RunningListed, exited(true, b"knr-registry\n")),
        probes("    Registry already running: localhost:6001")
    );
}

#[test]
fn success_is_a_status_from_200_to_299() {
    let ready: RegistryTurn =
        Turn::Ask(RegistryPoint::ConfigMade, vec![], Action::Capture(make_config()));
    let pause: RegistryTurn = Turn::Ask(RegistryPoint::Paused(1), vec![], Action::Sleep(1));
    for code in [200, 204, 299] {
        assert_eq!(at(RegistryPoint::Probed(2), Reply::Status(Some(code))), ready);
    }
    for code in [0, 99, 100, 199, 300, 404, 500, 999, 1000, 65535] {
        assert_eq!(at(RegistryPoint::Probed(2), Reply::Status(Some(code))), pause);
    }
    assert_eq!(at(RegistryPoint::Probed(2), Reply::Status(None)), pause);
}

#[test]
fn the_page_is_requested_once_and_again_for_each_retry() {
    for retries in [0, 1, 5] {
        let cli = settings(retries);
        let mut requests = 0;
        let mut seconds = 0;
        let mut point = RegistryPoint::RunningListed;
        let mut reply = exited(true, b"knr-registry\n");
        let failure = loop {
            match bootstrap_local_registry(&cli, "docker", point, &reply) {
                Turn::Ask(next, _, Action::Get { .. }) => {
                    requests += 1;
                    point = next;
                    reply = Reply::Status(Some(503));
                }
                Turn::Ask(next, _, Action::Sleep(time)) => {
                    seconds += time;
                    point = next;
                    reply = Reply::Done;
                }
                Turn::Fail(_, failure) => break failure,
                turn => panic!("{turn:?}"),
            }
        };
        assert_eq!(failure, Failure::RegistryNotReady(6001));
        assert_eq!(requests, u64::from(retries) + 1);
        assert_eq!(seconds, u64::from(retries));
    }
}

#[test]
fn the_cluster_is_told_about_the_registry() {
    let apply = || call("kubectl", &["apply", "-f", "-"]);
    assert_eq!(
        at(RegistryPoint::ConfigMade, exited(true, b"kind: ConfigMap\xff\n")),
        Turn::Ask(
            RegistryPoint::ConfigApplied,
            vec![],
            Action::RunWithStdin(apply(), "kind: ConfigMap\u{fffd}\n".to_string()),
        )
    );
    assert_eq!(
        at(RegistryPoint::ConfigMade, Reply::Ended(Ending::NotStarted("why".to_string()))),
        Turn::Fail(
            vec![],
            Failure::NotStarted { program: "kubectl".to_string(), cause: "why".to_string() }
        )
    );
    assert_eq!(
        at(RegistryPoint::ConfigApplied, Reply::Ended(Ending::NoInput)),
        Turn::Fail(vec![], Failure::NoInput)
    );
}

#[test]
fn the_artifact_is_published_with_the_knobs() {
    assert_eq!(
        at(RegistryPoint::ConfigApplied, exited(true, b"")),
        Turn::Ask(
            RegistryPoint::Published,
            vec![line(">>> Publishing initial OCI artifact from the local Git checkout...")],
            Action::Run(publish()),
        )
    );
    assert_eq!(
        at(RegistryPoint::Published, exited(true, b"")),
        Turn::Done(
            vec![line(
                ">>> Initial OCI artifact is available at oci://localhost:6001/repo:v1"
            )],
            ()
        )
    );
    assert_eq!(
        at(RegistryPoint::Published, exited(false, b"")),
        Turn::Fail(
            vec![],
            Failure::CommandFailed { call: publish(), status: "exit status: 1".to_string() }
        )
    );
}
