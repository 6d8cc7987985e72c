use knr_bootstrap::cli::{Cli, Profile};
use knr_bootstrap::failure::Failure;
use knr_bootstrap::process::call;
use knr_bootstrap::protocol::{Action, Call, Ending, Note, Reply, Turn};
use knr_bootstrap::watch::{
    find_port, wait_for_resource, watch_local_reconciliation, Poll, WatchPoint, ATTEMPTS,
};

type Answer = Reply<String, Vec<u8>>;
type WatchTurn = Turn<WatchPoint<String, Call>, ()>;

fn settings() -> Cli<String> {
    Cli {
        profile: Profile::LocalHost,
        recreate: false,
        registry_port: 5001,
        registry_ready_retries: 120,
        local_reconcile_timeout: "20m".to_string(),
        container_engine: None,
        git_repo_url: None,
        github_token: None,
        github_user: "git".to_string(),
        age_key_file: "age.agekey".to_string(),
        age_public_key: None,
        oci_repository: "knr-ops".to_string(),
        oci_tag: "latest".to_string(),
    }
}

fn exited(success: bool, output: &str) -> Answer {
    Reply::Ended(Ending::Exited {
        success,
        status: "exit status: 1".to_string(),
        output: output.as_bytes().to_vec(),
    })
}

fn line(text: &str) -> Note<String> {
    Note::Progress(text.to_string())
}

fn problem(text: &str) -> Note<String> {
    Note::Problem(text.to_string())
}

fn path() -> String {
    "/tmp/kc".to_string()
}

fn at(point: WatchPoint<String, Call>, reply: Answer) -> WatchTurn {
    watch_local_reconciliation(&settings(), "podman", point, &reply)
}

fn fails(failure: Failure<String, Call>) -> WatchTurn {
    Turn::Fail(vec![], failure)
}

/// Fails, after the kubeconfig was removed.
fn abandons(failure: Failure<String, Call>) -> WatchTurn {
    Turn::Ask(WatchPoint::Abandoned(failure), vec![], Action::Release(path()))
}

fn get_management() -> Call {
    call("kubectl", &["get", "kustomization", "flux-apps", "--namespace", "flux-system"])
}

fn get_workload() -> Call {
    call(
        "kubectl",
        &[
            "--kubeconfig",
            "/tmp/kc",
            "get",
            "kustomization",
            "flux-system",
            "--namespace",
            "flux-system",
        ],
    )
}

/// Waits for a resource that the attempt of this number finds: whether it was found, how many
/// attempts were made, and how many seconds passed.
fn wait(attempts: u32, found_at: u32) -> (bool, u32, u64) {
    let mut tries = 0;
    let mut seconds = 0;
    let mut point = Poll::Start(attempts);
    let mut reply: Answer = Reply::Begin;
    loop {
        match wait_for_resource(get_management(), point, &reply) {
            Turn::Ask(next, notes, Action::RunQuiet(call)) => {
                assert!(notes.is_empty());
                assert_eq!(call, get_management());
                tries += 1;
                point = next;
                reply = exited(tries == found_at, "");
            }
            Turn::Ask(next, _, Action::Sleep(time)) => {
                seconds += time;
                point = next;
                reply = Reply::Done;
            }
            Turn::Done(_, found) => return (found, tries, seconds),
            turn => panic!("{turn:?}"),
        }
    }
}

#[test]
fn resources_are_looked_for_every_two_seconds() {
    assert_eq!(ATTEMPTS, 60);
    assert_eq!(wait(60, 1), (true, 1, 0));
    assert_eq!(wait(60, 4), (true, 4, 6));
    assert_eq!(wait(60, 60), (true, 60, 118));
    assert_eq!(wait(60, 61), (false, 60, 120));
    assert_eq!(wait(1, 2), (false, 1, 2));
    assert_eq!(wait(0, 1), (false, 0, 0));
}

#[test]
fn ports_are_found_in_the_first_line() {
    assert_eq!(find_port("0.0.0.0:32771\n[::]:32772\n"), Some("32771".to_string()));
    assert_eq!(find_port("[::]: 0443 \n"), Some("0443".to_string()));
    assert_eq!(find_port("6443"), Some("6443".to_string()));
    assert_eq!(find_port("0.0.0.0:"), None);
    assert_eq!(find_port("0.0.0.0:64x\n"), None);
    assert_eq!(find_port("\n0.0.0.0:6443\n"), None);
    assert_eq!(find_port(""), None);
}

#[test]
fn the_management_cluster_is_watched_first() {
    assert_eq!(
        at(WatchPoint::Start, Reply::Begin),
        Turn::Ask(
            WatchPoint::ManagementAppears(Poll::Trying(59)),
            vec![line(""), line(">>> Step 5: Flux reconciliation progress")],
            Action::RunQuiet(get_management()),
        )
    );
    assert_eq!(
        at(WatchPoint::ManagementAppears(Poll::Trying(59)), exited(false, "")),
        Turn::Ask(
            WatchPoint::ManagementAppears(Poll::Pausing(59)),
            vec![],
            Action::Sleep(2)
        )
    );
    assert_eq!(
        at(WatchPoint::ManagementAppears(Poll::Trying(0)), exited(true, "")),
        Turn::Ask(
            WatchPoint::ManagementReady,
            vec![line(">>> Waiting until the local workload cluster and Flux addons are ready...")],
            Action::Run(call(
                "kubectl",
                &[
                    "wait",
                    "kustomization/flux-apps",
                    "--namespace",
                    "flux-system",
                    "--for=condition=Ready",
                    "--timeout=20m",
                ]
            )),
        )
    );
    assert_eq!(
        at(WatchPoint::ManagementReady, exited(true, "")),
        Turn::Ask(
            WatchPoint::KubeconfigMade,
            vec![line(""), line(">>> Workload cluster Flux reconciliation errors")],
            Action::CreateTemp,
        )
    );
}

#[test]
fn a_management_cluster_that_does_not_reconcile_is_shown() {
    let show = || call("flux", &["get", "kustomizations"]);
    assert_eq!(
        at(WatchPoint::ManagementAppears(Poll::Pausing(0)), Reply::Done),
        Turn::Ask(
            WatchPoint::ManagementMissing,
            vec![problem("ERROR: flux-apps Kustomization was not created within 2 minutes")],
            Action::Run(show()),
        )
    );
    assert_eq!(
        at(WatchPoint::ManagementReady, exited(false, "")),
        Turn::Ask(
            WatchPoint::ManagementLate,
            vec![problem("ERROR: local-host reconciliation did not complete within 20m")],
            Action::Run(show()),
        )
    );
    for success in [false, true] {
        assert_eq!(
            at(WatchPoint::ManagementMissing, exited(success, "")),
            fails(Failure::ManagementFluxMissing)
        );
        assert_eq!(
            at(WatchPoint::ManagementLate, exited(success, "")),
            fails(Failure::ManagementTimedOut)
        );
    }
}

#[test]
fn the_kubeconfig_of_the_workload_cluster_is_made() {
    let fetch = || call("clusterctl", &["get", "kubeconfig", "local-workload"]);
    assert_eq!(
        at(WatchPoint::KubeconfigMade, Reply::Text(Err("full".to_string()))),
        fails(Failure::KubeconfigNotCreated("full".to_string()))
    );
    assert_eq!(
        at(WatchPoint::KubeconfigMade, Reply::Text(Ok(path()))),
        Turn::Ask(WatchPoint::KubeconfigFetched(path()), vec![], Action::Capture(fetch()))
    );
    assert_eq!(
        at(WatchPoint::KubeconfigFetched(path()), exited(false, "")),
        abandons(Failure::CommandFailed { call: fetch(), status: "exit status: 1".to_string() })
    );
    assert_eq!(
        at(WatchPoint::KubeconfigFetched(path()), exited(true, "kind: Config\n")),
        Turn::Ask(
            WatchPoint::KubeconfigWritten(path()),
            vec![],
            Action::WriteTemp { path: path(), contents: "kind: Config\n".to_string() },
        )
    );
    assert_eq!(
        at(WatchPoint::KubeconfigWritten(path()), Reply::Finished(Err("full".to_string()))),
        abandons(Failure::Broken("full".to_string()))
    );
    assert_eq!(
        at(WatchPoint::KubeconfigWritten(path()), Reply::Finished(Ok(()))),
        Turn::Ask(
            WatchPoint::PortFound(path()),
            vec![],
            Action::Capture(call("podman", &["port", "local-workload-lb", "6443/tcp"])),
        )
    );
    assert_eq!(
        at(WatchPoint::PortFound(path()), exited(true, "none\n")),
        abandons(Failure::PortUnknown)
    );
    assert_eq!(
        at(WatchPoint::PortFound(path()), exited(true, "0.0.0.0:32771\n")),
        Turn::Ask(
            WatchPoint::PortSet { kubeconfig: path(), port: "32771".to_string() },
            vec![],
            Action::Capture(call(
                "kubectl",
                &[
                    "config",
                    "set-cluster",
                    "local-workload",
                    "--server=https://127.0.0.1:32771",
                    "--kubeconfig=/tmp/kc",
                ]
            )),
        )
    );
}

#[test]
fn the_workload_cluster_is_watched_next() {
    assert_eq!(
        at(
            WatchPoint::PortSet { kubeconfig: path(), port: "1".to_string() },
            exited(true, "")
        ),
        Turn::Ask(
            WatchPoint::WorkloadAppears(path(), Poll::Trying(59)),
            vec![],
            Action::RunQuiet(get_workload()),
        )
    );
    assert_eq!(
        at(WatchPoint::WorkloadAppears(path(), Poll::Trying(3)), exited(true, "")),
        Turn::Ask(
            WatchPoint::ControllersReady(path()),
            vec![line(">>> Waiting for workload Flux controllers to be ready...")],
            Action::Run(call(
                "kubectl",
                &[
                    "--kubeconfig",
                    "/tmp/kc",
                    "wait",
                    "pod",
                    "--namespace",
                    "flux-system",
                    "--selector=app.kubernetes.io/part-of=flux",
                    "--for=condition=Ready",
                    "--timeout=20m",
                ]
            )),
        )
    );
    assert_eq!(
        at(WatchPoint::ControllersReady(path()), exited(true, "")),
        Turn::Ask(
            WatchPoint::LogsFollowed(path()),
            vec![],
            Action::Follow(call(
                "flux",
                &[
                    "logs",
                    "--kubeconfig",
                    "/tmp/kc",
                    "--all-namespaces",
                    "--follow",
                    "--level=error",
                    "--since=10m",
                ]
            )),
        )
    );
    assert_eq!(
        at(WatchPoint::LogsFollowed(path()), Reply::Finished(Err("why".to_string()))),
        abandons(Failure::LogsNotStarted("why".to_string()))
    );
    assert_eq!(
        at(WatchPoint::LogsFollowed(path()), Reply::Finished(Ok(()))),
        Turn::Ask(
            WatchPoint::WorkloadReady(path()),
            vec![],
            Action::Run(call(
                "kubectl",
                &[
                    "--kubeconfig",
                    "/tmp/kc",
                    "wait",
                    "kustomization/flux-system",
                    "--namespace",
                    "flux-system",
                    "--for=condition=Ready",
                    "--timeout=20m",
                ]
            )),
        )
    );
}

#[test]
fn a_workload_cluster_that_does_not_reconcile_is_shown() {
    assert_eq!(
        at(WatchPoint::WorkloadAppears(path(), Poll::Pausing(0)), Reply::Done),
        Turn::Ask(
            WatchPoint::WorkloadMissing(path()),
            vec![problem("ERROR: workload Flux Kustomization was not created within 2 minutes")],
            Action::Run(call(
                "kubectl",
                &["--kubeconfig", "/tmp/kc", "get", "pods", "--namespace", "flux-system"]
            )),
        )
    );
    assert_eq!(
        at(WatchPoint::WorkloadMissing(path()), exited(true, "")),
        abandons(Failure::WorkloadFluxMissing)
    );
    assert_eq!(
        at(WatchPoint::WorkloadReady(path()), exited(false, "")),
        Turn::Ask(
            WatchPoint::WorkloadLate(path()),
            vec![problem("ERROR: workload reconciliation did not complete within 20m")],
            Action::Run(call(
                "flux",
                &["get", "kustomizations", "--kubeconfig", "/tmp/kc", "--all-namespaces"]
            )),
        )
    );
    assert_eq!(
        at(WatchPoint::WorkloadLate(path()), exited(true, "")),
        abandons(Failure::WorkloadTimedOut)
    );
}

#[test]
fn the_watch_cleans_up() {
    assert_eq!(
        at(WatchPoint::WorkloadReady(path()), exited(true, "")),
        Turn::Ask(WatchPoint::Released, vec![], Action::Release(path()))
    );
    assert_eq!(at(WatchPoint::Released, Reply::Done), Turn::Done(vec![], ()));
    assert_eq!(
        at(WatchPoint::Abandoned(Failure::PortUnknown), Reply::Done),
        fails(Failure::PortUnknown)
    );
}

#[test]
fn every_failure_with_a_kubeconfig_removes_it() {
    let points: Vec<fn() -> WatchPoint<String, Call>> = vec![
        || WatchPoint::KubeconfigFetched(path()),
        || WatchPoint::KubeconfigWritten(path()),
        || WatchPoint::PortFound(path()),
        || WatchPoint::PortSet { kubeconfig: path(), port: "1".to_string() },
        || WatchPoint::ControllersReady(path()),
        || WatchPoint::LogsFollowed(path()),
    ];
    for point in points {
        assert_eq!(at(point(), Reply::Begin), abandons(Failure::UnexpectedReply));
    }
    assert_eq!(
        at(WatchPoint::ControllersReady(path()), Reply::Ended(Ending::NoInput)),
        abandons(Failure::NoInput)
    );
    assert_eq!(at(WatchPoint::KubeconfigMade, Reply::Begin), fails(Failure::UnexpectedReply));
}
