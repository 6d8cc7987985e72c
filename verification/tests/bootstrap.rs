use knr_bootstrap::bootstrap::{bootstrap, make_registry_config, ConfigPoint, Stage};
use knr_bootstrap::cli::{Cli, Profile};
use knr_bootstrap::failure::Failure;
use knr_bootstrap::preflight::PreflightPoint;
use knr_bootstrap::protocol::{Action, Call, Ending, Note, Reply, Turn};

type Answer = Reply<String, Vec<u8>>;

const KEY_FILE: &str = "# created: now\n# public key: age1abc\nAGE-SECRET-KEY-1XYZ\n";

fn settings(profile: Profile) -> Cli<String> {
    Cli {
        profile,
        recreate: false,
        registry_port: 5001,
        registry_ready_retries: 3,
        local_reconcile_timeout: "15m".to_string(),
        container_engine: None,
        git_repo_url: Some("https://github.com/o/r".to_string()),
        github_token: Some("SECRET-TOKEN".to_string()),
        github_user: "git".to_string(),
        age_key_file: "age.agekey".to_string(),
        age_public_key: None,
        oci_repository: "knr-ops".to_string(),
        oci_tag: "latest".to_string(),
    }
}

fn exited(success: bool, output: &str) -> Answer {
    Reply::Ended(Ending::Exited {
        success,
        status: "exit status: 1".to_string(),
        output: output.as_bytes().to_vec(),
    })
}

/// What the programs of a host without any cluster print.
fn output(call: &Call) -> &'static str {
    let args: Vec<&str> = call.args.iter().map(String::as_str).collect();
    match (call.program.as_str(), &args[..]) {
        ("docker", ["--version"]) => "Docker version 27\n",
        ("docker", ["port", ..]) => "0.0.0.0:32771\n",
        ("kind", ["get", "clusters"]) => "No kind clusters found.\n",
        _ => "",
    }
}

/// The answers of a host on which everything succeeds.
fn good(action: &Action<String, Call>) -> Answer {
    match action {
        Action::FindTool(_) | Action::CheckFile(_) => Reply::Found(true),
        Action::Run(call)
        | Action::RunQuiet(call)
        | Action::Capture(call)
        | Action::CaptureLossy(call)
        | Action::RunWithStdin(call, _)
        | Action::CaptureWithStdin(call, _) => exited(true, output(call)),
        Action::Follow(_) | Action::WriteTemp { .. } => Reply::Finished(Ok(())),
        Action::Release(_) | Action::SetVar(..) | Action::Sleep(_) => Reply::Done,
        Action::Get { .. } | Action::GetAuthorized { .. } => Reply::Status(Some(200)),
        Action::ReadFile(_) => Reply::Text(Ok(KEY_FILE.to_string())),
        Action::CreateTemp => Reply::Text(Ok("/tmp/file".to_string())),
    }
}

struct Trace {
    actions: Vec<Action<String, Call>>,
    notes: Vec<Note<String>>,
    end: Result<(), Failure<String, Call>>,
}

fn play(cli: &Cli<String>, answer: impl Fn(&Action<String, Call>) -> Answer) -> Trace {
    let mut trace = Trace { actions: vec![], notes: vec![], end: Ok(()) };
    let mut at = Stage::Preflight(PreflightPoint::Start);
    let mut reply = Reply::Begin;
    loop {
        match bootstrap(cli, at, &reply) {
            Turn::Ask(next, mut notes, action) => {
                trace.notes.append(&mut notes);
                reply = answer(&action);
                trace.actions.push(action);
                at = next;
            }
            Turn::Done(mut notes, ()) => {
                trace.notes.append(&mut notes);
                return trace;
            }
            Turn::Fail(mut notes, failure) => {
                trace.notes.append(&mut notes);
                trace.end = Err(failure);
                return trace;
            }
        }
    }
}

fn call_of(action: &Action<String, Call>) -> Option<&Call> {
    match action {
        Action::Run(call)
        | Action::RunQuiet(call)
        | Action::Capture(call)
        | Action::CaptureLossy(call)
        | Action::RunWithStdin(call, _)
        | Action::CaptureWithStdin(call, _)
        | Action::Follow(call) => Some(call),
        _ => None,
    }
}

/// The programs that a trace ran, each with its first arguments.
fn programs(trace: &Trace) -> Vec<String> {
    trace
        .actions
        .iter()
        .filter_map(call_of)
        .map(|call| format!("{} {}", call.program, call.args[..call.args.len().min(3)].join(" ")))
        .collect()
}

fn texts(notes: &[Note<String>]) -> Vec<&str> {
    notes
        .iter()
        .map(|note| match note {
            Note::Progress(line) | Note::Problem(line) => line.as_str(),
        })
        .collect()
}

#[test]
fn a_bootstrap_on_aws() {
    let trace = play(&settings(Profile::Aws), good);
    assert_eq!(trace.end, Ok(()));
    assert_eq!(
        programs(&trace),
        vec![
            "docker info",
            "docker --version",
            "docker info",
            "kind get clusters",
            "kind create cluster --name",
            "kubectl config use-context kind-mgmt",
            "kubectl wait --for=condition=Ready node",
            "helm upgrade --install flux-operator",
            "kubectl create secret generic",
            "kubectl apply -f -",
            "kubectl delete secret sops-age",
            "kubectl create secret generic",
            "kubectl apply -f -",
            "helm upgrade --install flux",
            "kubectl wait fluxinstance/flux --namespace",
            "kubectl wait --namespace flux-system",
        ]
    );
    assert_eq!(
        texts(&trace.notes),
        vec![
            ">>> Using container engine: docker (socket: /var/run/docker.sock)",
            ">>> Creating kind cluster 'mgmt'...",
            ">>> Waiting for cluster node to be ready...",
            ">>> Installing Flux Operator...",
            ">>> Creating GitHub PAT credentials secret in flux-system...",
            ">>> Creating sops-age decryption secret in flux-system...",
            ">>> Installing FluxInstance via Helm...",
            ">>> Waiting for FluxInstance reconciliation to complete...",
            ">>> Waiting for Flux controllers to be ready...",
            "",
            ">>> Bootstrap complete! Flux is now reconciling from https://github.com/o/r",
            ">>> Watch progress with: flux get kustomizations --watch",
        ]
    );
}

#[test]
fn a_bootstrap_on_the_local_host() {
    let trace = play(&settings(Profile::LocalHost), good);
    assert_eq!(trace.end, Ok(()));
    assert_eq!(
        programs(&trace),
        vec![
            "docker info",
            "docker --version",
            "docker info",
            "kind get clusters",
            "kind create cluster --name",
            "kubectl config use-context kind-mgmt",
            "kubectl wait --for=condition=Ready node",
            "docker ps -a --filter",
            "docker run -d --name",
            "kubectl create configmap local-registry-config",
            "kubectl apply -f -",
            "mise -E local-host run",
            "helm upgrade --install flux-operator",
            "helm upgrade --install flux",
            "kubectl wait fluxinstance/flux --namespace",
            "kubectl wait --namespace flux-system",
            "kubectl get kustomization flux-apps",
            "kubectl wait kustomization/flux-apps --namespace",
            "clusterctl get kubeconfig local-workload",
            "docker port local-workload-lb 6443/tcp",
            "kubectl config set-cluster local-workload",
            "kubectl --kubeconfig /tmp/file get",
            "kubectl --kubeconfig /tmp/file wait",
            "flux logs --kubeconfig /tmp/file",
            "kubectl --kubeconfig /tmp/file wait",
        ]
    );
    let lines = texts(&trace.notes);
    assert_eq!(
        lines[lines.len() - 6..],
        [
            "",
            ">>> Local-host profile complete: Flux is reconciling from the local OCI artifact",
            ">>> Local registry: localhost:5001 (cluster endpoint: knr-registry:5000)",
            ">>> OCI source: oci://knr-registry:5000/knr-ops:latest (path: mgmt/local-host)",
            ">>> Watch progress with: flux get sources oci --watch",
            ">>> No AWS resources were provisioned",
        ]
    );
}

#[test]
fn the_token_goes_to_github_and_to_the_secret_alone() {
    let trace = play(&settings(Profile::Aws), good);
    let shown = |action: &Action<String, Call>| format!("{action:?}").contains("SECRET-TOKEN");
    let holders: Vec<&Action<String, Call>> =
        trace.actions.iter().filter(|action| shown(action)).collect();
    assert_eq!(holders.len(), 2);
    assert!(matches!(holders[0], Action::GetAuthorized { .. }));
    assert!(matches!(holders[1], Action::CaptureWithStdin(_, input) if input == "SECRET-TOKEN"));
    for action in &trace.actions {
        if let Some(call) = call_of(action) {
            assert!(!format!("{call:?}").contains("SECRET-TOKEN"));
        }
    }
    assert!(texts(&trace.notes).iter().all(|line| !line.contains("SECRET-TOKEN")));
}

#[test]
fn another_token_changes_nothing_else() {
    let mut other = settings(Profile::Aws);
    other.github_token = Some("OTHER".to_string());
    let first = play(&settings(Profile::Aws), good);
    let second = play(&other, good);
    assert_eq!(first.notes, second.notes);
    assert_eq!(first.actions.len(), second.actions.len());
    for (one, two) in first.actions.iter().zip(&second.actions) {
        assert_eq!(call_of(one), call_of(two));
        assert_eq!(format!("{one:?}").replace("SECRET-TOKEN", "OTHER"), format!("{two:?}"));
    }
}

#[test]
fn every_bootstrap_ends() {
    for profile in [Profile::Aws, Profile::LocalHost] {
        let cli = settings(profile);
        let limit = 304 + 2 * cli.registry_ready_retries as usize;
        assert!(play(&cli, good).actions.len() <= limit);
        let trace = play(&cli, |action| match action {
            Action::Get { .. } => Reply::Status(None),
            _ => good(action),
        });
        assert!(trace.actions.len() <= limit);
        let trace = play(&cli, |action| match action {
            Action::RunQuiet(call) if call.program == "kubectl" => exited(false, ""),
            _ => good(action),
        });
        assert!(trace.actions.len() <= limit);
    }
}

#[test]
fn failed_calls_end_the_bootstrap_early() {
    let trace = play(&settings(Profile::Aws), |action| match action {
        Action::Run(call) if call.program == "helm" => exited(false, ""),
        _ => good(action),
    });
    match &trace.end {
        Err(Failure::CommandFailed { call, status }) => {
            assert_eq!(call.args[2], "flux-operator");
            assert_eq!(status, "exit status: 1");
        }
        end => panic!("{end:?}"),
    }
    assert_eq!(programs(&trace).last().unwrap(), "helm upgrade --install flux-operator");
}

/// The temporary files that a trace made and did not remove, and whether a program runs on.
fn left_behind(trace: &Trace) -> (usize, bool) {
    let mut files = 0;
    let mut running = false;
    for action in &trace.actions {
        match action {
            Action::CreateTemp => files += 1,
            Action::Follow(_) => running = true,
            Action::Release(_) => {
                files -= 1;
                running = false;
            }
            _ => {}
        }
    }
    (files, running)
}

#[test]
fn a_bootstrap_leaves_nothing_behind() {
    for profile in [Profile::Aws, Profile::LocalHost] {
        let cli = settings(profile);
        let trace = play(&cli, good);
        assert_eq!(trace.end, Ok(()));
        assert_eq!(left_behind(&trace), (0, false));
        for failing in 0..trace.actions.len() {
            if matches!(trace.actions[failing], Action::CreateTemp | Action::Follow(_)) {
                continue;
            }
            let count = std::cell::Cell::new(0);
            let trace = play(&cli, |action| {
                count.set(count.get() + 1);
                match good(action) {
                    _ if count.get() != failing + 1 => good(action),
                    Reply::Ended(_) => exited(false, ""),
                    Reply::Finished(_) => Reply::Finished(Err("full".to_string())),
                    Reply::Found(_) => Reply::Found(false),
                    reply => reply,
                }
            });
            assert_eq!(left_behind(&trace), (0, false), "{failing}");
        }
    }
}

#[test]
fn a_late_workload_cluster_stops_the_log_follower() {
    let trace = play(&settings(Profile::LocalHost), |action| match action {
        Action::Run(call) if call.args.iter().any(|arg| arg == "kustomization/flux-system") => {
            exited(false, "")
        }
        _ => good(action),
    });
    assert_eq!(trace.end, Err(Failure::WorkloadTimedOut));
    assert_eq!(
        programs(&trace).last().unwrap(),
        "flux get kustomizations --kubeconfig"
    );
    let release = || Action::Release("/tmp/file".to_string());
    assert_eq!(trace.actions[trace.actions.len() - 2..], [release(), release()]);
}

#[test]
fn requests_have_a_limit() {
    for profile in [Profile::Aws, Profile::LocalHost] {
        let trace = play(&settings(profile), good);
        let limits: Vec<u64> = trace
            .actions
            .iter()
            .filter_map(|action| match action {
                Action::Get { limit, .. } | Action::GetAuthorized { limit, .. } => Some(*limit),
                _ => None,
            })
            .collect();
        assert_eq!(limits, vec![10]);
    }
}

#[test]
fn wrong_answers_end_the_bootstrap() {
    let trace = play(&settings(Profile::Aws), |_| Reply::Done);
    assert_eq!(trace.actions, vec![Action::FindTool("kind".to_string())]);
    assert_eq!(trace.end, Err(Failure::UnexpectedReply));
}

#[test]
fn nothing_is_changed_before_the_checks_have_passed() {
    let trace = play(&settings(Profile::Aws), |action| match action {
        Action::ReadFile(_) => Reply::Text(Ok(String::new())),
        _ => good(action),
    });
    assert!(matches!(trace.end, Err(Failure::KeyFileInvalid { .. })));
    assert!(programs(&trace).is_empty());
}

#[test]
fn a_rerun_keeps_the_cluster() {
    let existing = |action: &Action<String, Call>| match action {
        Action::CaptureLossy(call) if call.program == "kind" => exited(true, "mgmt\n"),
        _ => good(action),
    };
    let mut cli = settings(Profile::Aws);
    let trace = play(&cli, existing);
    assert_eq!(trace.end, Ok(()));
    assert!(programs(&trace)
        .iter()
        .all(|program| !program.starts_with("kind create") && !program.starts_with("kind delete")));
    cli.recreate = true;
    let trace = play(&cli, existing);
    assert_eq!(trace.end, Ok(()));
    assert_eq!(
        programs(&trace)[3..6],
        ["kind get clusters", "kind delete cluster --name", "kind create cluster --name"]
    );
}

#[test]
fn a_rerun_keeps_the_registry() {
    let trace = play(&settings(Profile::LocalHost), |action| match action {
        Action::CaptureLossy(call) if call.args[0] == "ps" => exited(true, "knr-registry\n"),
        _ => good(action),
    });
    assert_eq!(trace.end, Ok(()));
    assert_eq!(
        programs(&trace)[7..10],
        [
            "docker ps -a --filter",
            "docker ps --filter name=^knr-registry$",
            "kubectl create configmap local-registry-config",
        ]
    );
}

#[test]
fn every_step_can_be_repeated() {
    for profile in [Profile::Aws, Profile::LocalHost] {
        let trace = play(&settings(profile), good);
        for call in trace.actions.iter().filter_map(call_of) {
            let has = |word: &str| call.args.iter().any(|arg| arg == word);
            match (call.program.as_str(), call.args[0].as_str()) {
                ("helm", _) => assert_eq!(call.args[..2], ["upgrade", "--install"]),
                ("kubectl", "create") => assert!(has("--dry-run=client")),
                ("kubectl", "delete") => assert!(has("--ignore-not-found")),
                _ => {}
            }
        }
    }
}

#[test]
fn the_secret_key_stays_in_its_file() {
    let trace = play(&settings(Profile::Aws), good);
    assert!(trace.actions.iter().all(|action| !format!("{action:?}").contains("1XYZ")));
    let other = play(&settings(Profile::Aws), |action| match action {
        Action::ReadFile(_) => Reply::Text(Ok(KEY_FILE.replace("1XYZ", "1ABC"))),
        _ => good(action),
    });
    assert_eq!(trace.actions, other.actions);
    assert_eq!(trace.notes, other.notes);
}

#[test]
fn podman_is_found_where_docker_is_missing() {
    let trace = play(&settings(Profile::LocalHost), |action| match action {
        Action::FindTool(name) => Reply::Found(name != "docker"),
        Action::Capture(call) if call.args[0] == "port" => exited(true, "0.0.0.0:1\n"),
        _ => good(action),
    });
    assert_eq!(trace.end, Ok(()));
    assert!(trace.actions.contains(&Action::SetVar(
        "KIND_EXPERIMENTAL_PROVIDER".to_string(),
        "podman".to_string()
    )));
    assert_eq!(
        texts(&trace.notes)[..2],
        [
            ">>> WARNING: Could not detect the podman API socket path; assuming /run/podman/podman.sock",
            ">>> Using container engine: podman (socket: /run/podman/podman.sock)",
        ]
    );
}

#[test]
fn what_comes_late_is_waited_for() {
    let cli = settings(Profile::LocalHost);
    let count = std::cell::Cell::new(0);
    let trace = play(&cli, |action| match action {
        Action::Get { .. } => {
            count.set(count.get() + 1);
            Reply::Status(if count.get() > 3 { Some(204) } else { None })
        }
        _ => good(action),
    });
    assert_eq!(trace.end, Ok(()));
    assert_eq!(count.get(), 4);
    let count = std::cell::Cell::new(0);
    let trace = play(&cli, |action| match action {
        Action::RunQuiet(call) if call.program == "kubectl" => {
            count.set(count.get() + 1);
            exited(count.get() % 60 == 0, "")
        }
        _ => good(action),
    });
    assert_eq!(trace.end, Ok(()));
    assert_eq!(count.get(), 120);
    let trace = play(&cli, |action| match action {
        Action::Run(call) if call.args.last().unwrap() == "--timeout=90s" => exited(false, ""),
        _ => good(action),
    });
    assert_eq!(trace.end, Ok(()));
}

#[test]
fn the_last_attempt_decides() {
    let cli = settings(Profile::LocalHost);
    let trace = play(&cli, |action| match action {
        Action::Get { .. } => Reply::Status(Some(300)),
        _ => good(action),
    });
    assert_eq!(trace.end, Err(Failure::RegistryNotReady(5001)));
    let trace = play(&cli, |action| match action {
        Action::RunQuiet(call) if call.program == "kubectl" => exited(false, ""),
        _ => good(action),
    });
    assert_eq!(trace.end, Err(Failure::ManagementFluxMissing));
}

#[test]
fn unusable_settings_fail_before_anything_runs() {
    let mut cli = settings(Profile::Aws);
    cli.github_token = None;
    let trace = play(&cli, good);
    assert_eq!(trace.end, Err(Failure::TokenMissing));
    assert!(programs(&trace).is_empty());
    let mut cli = settings(Profile::LocalHost);
    cli.container_engine = Some("lxc".to_string());
    let trace = play(&cli, good);
    assert_eq!(trace.end, Err(Failure::UnsupportedEngine("lxc".to_string())));
    assert!(programs(&trace).is_empty());
}

#[test]
fn the_registry_configuration_names_no_account() {
    assert_eq!(
        make_registry_config(ConfigPoint::Start, &Reply::Begin),
        Turn::Ask(ConfigPoint::Made, vec![], Action::CreateTemp)
    );
    assert_eq!(
        make_registry_config(ConfigPoint::Made, &Reply::Text(Ok("/tmp/c".to_string()))),
        Turn::Ask(
            ConfigPoint::Written("/tmp/c".to_string()),
            vec![],
            Action::WriteTemp { path: "/tmp/c".to_string(), contents: "{}\n".to_string() },
        )
    );
    assert_eq!(
        make_registry_config(ConfigPoint::Made, &Reply::Text(Err("full".to_string()))),
        Turn::Fail(vec![], Failure::RegistryConfigNotCreated("full".to_string()))
    );
    assert_eq!(
        make_registry_config(
            ConfigPoint::Written("/tmp/c".to_string()),
            &Reply::Finished(Ok(()))
        ),
        Turn::Done(vec![], "/tmp/c".to_string())
    );
    assert_eq!(
        make_registry_config(
            ConfigPoint::Written("/tmp/c".to_string()),
            &Reply::Finished(Err("full".to_string()))
        ),
        Turn::Ask(
            ConfigPoint::Abandoned(Failure::Broken("full".to_string())),
            vec![],
            Action::Release("/tmp/c".to_string()),
        )
    );
    assert_eq!(
        make_registry_config(ConfigPoint::Abandoned(Failure::NoEngine), &Reply::Done),
        Turn::Fail(vec![], Failure::NoEngine)
    );
}

#[test]
fn the_bootstrap_starts_with_the_first_tool() {
    assert_eq!(
        bootstrap(
            &settings(Profile::Aws),
            Stage::Preflight(PreflightPoint::Start),
            &Reply::Begin
        ),
        Turn::Ask(
            Stage::Preflight(PreflightPoint::ToolFound(0)),
            vec![],
            Action::FindTool("kind".to_string())
        )
    );
}
