use knr_bootstrap::aws::AwsContext;
use knr_bootstrap::cli::{Cli, Profile};
use knr_bootstrap::failure::Failure;
use knr_bootstrap::flux::{
    create_aws_secrets, install_flux_instance, install_flux_operator, InstancePoint,
    OperatorPoint, SecretsPoint,
};
use knr_bootstrap::process::call;
use knr_bootstrap::protocol::{Action, Call, Ending, Note, Reply, Turn};

type Answer = Reply<String, Vec<u8>>;

fn settings() -> Cli<String> {
    Cli {
        profile: Profile::LocalHost,
        recreate: false,
        registry_port: 5001,
        registry_ready_retries: 120,
        local_reconcile_timeout: "15m".to_string(),
        container_engine: None,
        git_repo_url: None,
        github_token: None,
        github_user: "git".to_string(),
        age_key_file: "age.agekey".to_string(),
        age_public_key: None,
        oci_repository: "repo".to_string(),
        oci_tag: "v1".to_string(),
    }
}

fn context() -> AwsContext<String> {
    AwsContext {
        git_repo_url: "https://github.com/o/r".to_string(),
        github_user: "user".to_string(),
        github_token: "token".to_string(),
        age_key_file: "age.agekey".to_string(),
        age_pubkey: "age1abc".to_string(),
    }
}

fn exited(success: bool, output: &str) -> Answer {
    Reply::Ended(Ending::Exited {
        success,
        status: "exit status: 1".to_string(),
        output: output.as_bytes().to_vec(),
    })
}

fn line(text: &str) -> Note<String> {
    Note::Progress(text.to_string())
}

fn failed(call: Call) -> Failure<String, Call> {
    Failure::CommandFailed { call, status: "exit status: 1".to_string() }
}

fn apply() -> Call {
    call("kubectl", &["apply", "-f", "-"])
}

fn make_token() -> Call {
    call(
        "kubectl",
        &[
            "create",
            "secret",
            "generic",
            "flux-github-pat",
            "--namespace",
            "flux-system",
            "--from-literal",
            "username=user",
            "--from-file",
            "password=/dev/stdin",
            "--dry-run=client",
            "-o",
            "yaml",
        ],
    )
}

fn secrets(point: SecretsPoint, reply: Answer) -> Turn<SecretsPoint, ()> {
    create_aws_secrets(&context(), point, &reply)
}

#[test]
fn the_operator_is_installed_or_upgraded() {
    let install = || {
        call(
            "helm",
            &[
                "upgrade",
                "--install",
                "flux-operator",
                "oci://ghcr.io/controlplaneio-fluxcd/charts/flux-operator",
                "--namespace",
                "flux-system",
                "--create-namespace",
                "--wait",
                "--registry-config",
                "/tmp/config",
            ],
        )
    };
    assert_eq!(
        install_flux_operator("/tmp/config", OperatorPoint::Start, &Reply::Begin),
        Turn::Ask(
            OperatorPoint::Installed,
            vec![line(">>> Installing Flux Operator...")],
            Action::Run(install()),
        )
    );
    assert_eq!(
        install_flux_operator("/tmp/config", OperatorPoint::Installed, &exited(true, "")),
        Turn::Done(vec![], ())
    );
    assert_eq!(
        install_flux_operator("/tmp/config", OperatorPoint::Installed, &exited(false, "")),
        Turn::Fail(vec![], failed(install()))
    );
}

#[test]
fn the_token_is_handed_over_as_input() {
    assert_eq!(
        secrets(SecretsPoint::Start, Reply::Begin),
        Turn::Ask(
            SecretsPoint::TokenMade,
            vec![line(">>> Creating GitHub PAT credentials secret in flux-system...")],
            Action::CaptureWithStdin(make_token(), "token".to_string()),
        )
    );
    assert_eq!(
        secrets(SecretsPoint::TokenMade, exited(true, "kind: Secret\n")),
        Turn::Ask(
            SecretsPoint::TokenApplied,
            vec![],
            Action::RunWithStdin(apply(), "kind: Secret\n".to_string()),
        )
    );
    assert_eq!(
        secrets(SecretsPoint::TokenMade, exited(false, "kind: Secret\n")),
        Turn::Fail(vec![], failed(make_token()))
    );
    assert_eq!(
        secrets(SecretsPoint::TokenApplied, Reply::Ended(Ending::Broken("pipe".to_string()))),
        Turn::Fail(vec![], Failure::Broken("pipe".to_string()))
    );
}

#[test]
fn the_age_key_is_replaced() {
    assert_eq!(
        secrets(SecretsPoint::TokenApplied, exited(true, "")),
        Turn::Ask(
            SecretsPoint::KeyDeleted,
            vec![line(">>> Creating sops-age decryption secret in flux-system...")],
            Action::Run(call(
                "kubectl",
                &["delete", "secret", "sops-age", "-n", "flux-system", "--ignore-not-found"]
            )),
        )
    );
    assert_eq!(
        secrets(SecretsPoint::KeyDeleted, exited(true, "")),
        Turn::Ask(
            SecretsPoint::KeyMade,
            vec![],
            Action::Capture(call(
                "kubectl",
                &[
                    "create",
                    "secret",
                    "generic",
                    "sops-age",
                    "--namespace",
                    "flux-system",
                    "--from-file",
                    "keys.age1abc.agekey=age.agekey",
                    "--dry-run=client",
                    "-o",
                    "yaml",
                ]
            )),
        )
    );
    assert_eq!(
        secrets(SecretsPoint::KeyMade, exited(true, "kind: Secret\n")),
        Turn::Ask(
            SecretsPoint::KeyApplied,
            vec![],
            Action::RunWithStdin(apply(), "kind: Secret\n".to_string()),
        )
    );
    assert_eq!(secrets(SecretsPoint::KeyApplied, exited(true, "")), Turn::Done(vec![], ()));
    assert_eq!(
        secrets(SecretsPoint::KeyApplied, exited(false, "")),
        Turn::Fail(vec![], failed(apply()))
    );
}

#[test]
fn secrets_are_created_again_in_the_same_way() {
    let run = || {
        let mut actions = vec![];
        let mut point = SecretsPoint::Start;
        let mut reply: Answer = Reply::Begin;
        loop {
            match secrets(point, reply) {
                Turn::Ask(next, _, action) => {
                    actions.push(action);
                    point = next;
                    reply = exited(true, "kind: Secret\n");
                }
                Turn::Done(_, ()) => return actions,
                turn => panic!("{turn:?}"),
            }
        }
    };
    assert_eq!(run().len(), 5);
    assert_eq!(run(), run());
}

fn installed_args(aws: &Option<AwsContext<String>>) -> Vec<String> {
    match install_flux_instance(
        &settings(),
        aws,
        "/tmp/config",
        InstancePoint::Start,
        &Reply::Begin,
    ) {
        Turn::Ask(InstancePoint::Installed, notes, Action::Run(call)) => {
            assert_eq!(notes, vec![line(">>> Installing FluxInstance via Helm...")]);
            assert_eq!(call.program, "helm");
            assert!(call.env.is_empty());
            call.args
        }
        turn => panic!("{turn:?}"),
    }
}

const COMMON: [&str; 21] = [
    "upgrade",
    "--install",
    "flux",
    "oci://ghcr.io/controlplaneio-fluxcd/charts/flux-instance",
    "--namespace",
    "flux-system",
    "--wait=legacy",
    "--timeout",
    "10m",
    "--set",
    "instance.cluster.type=kubernetes",
    "--set",
    "instance.cluster.size=small",
    "--set",
    "instance.cluster.multitenant=false",
    "--set",
    "instance.cluster.networkPolicy=true",
    "--set",
    "instance.cluster.domain=cluster.local",
    "--registry-config",
    "/tmp/config",
];

#[test]
fn flux_syncs_from_the_repository_on_aws() {
    let args = installed_args(&Some(context()));
    assert_eq!(args[..21], COMMON);
    assert_eq!(
        args[21..],
        [
            "--set",
            "instance.sync.kind=GitRepository",
            "--set",
            "instance.sync.url=https://github.com/o/r",
            "--set",
            "instance.sync.ref=refs/heads/main",
            "--set",
            "instance.sync.path=mgmt/aws",
            "--set",
            "instance.sync.pullSecret=flux-github-pat",
        ]
    );
}

#[test]
fn flux_syncs_from_the_registry_on_the_local_host() {
    let args = installed_args(&None);
    assert_eq!(args[..21], COMMON);
    assert_eq!(
        args[21..],
        [
            "--set",
            "instance.sync.kind=OCIRepository",
            "--set",
            "instance.sync.url=oci://knr-registry:5000/repo",
            "--set",
            "instance.sync.ref=v1",
            "--set",
            "instance.sync.path=mgmt/local-host",
            "--set-json",
            r#"instance.kustomize.patches=[{"patch":"- op: add\n  path: /spec/insecure\n  value: true","target":{"kind":"OCIRepository"}}]"#,
        ]
    );
}

#[test]
fn late_controllers_are_no_failure() {
    let step = |point, reply: Answer| {
        install_flux_instance(&settings(), &None, "/tmp/config", point, &reply)
    };
    let wait = || {
        call(
            "kubectl",
            &[
                "wait",
                "fluxinstance/flux",
                "--namespace",
                "flux-system",
                "--for=condition=Ready",
                "--timeout=10m",
            ],
        )
    };
    assert_eq!(
        step(InstancePoint::Installed, exited(true, "")),
        Turn::Ask(
            InstancePoint::Reconciled,
            vec![line(">>> Waiting for FluxInstance reconciliation to complete...")],
            Action::Run(wait()),
        )
    );
    assert_eq!(
        step(InstancePoint::Reconciled, exited(false, "")),
        Turn::Fail(vec![], failed(wait()))
    );
    assert_eq!(
        step(InstancePoint::Reconciled, exited(true, "")),
        Turn::Ask(
            InstancePoint::ControllersReady,
            vec![line(">>> Waiting for Flux controllers to be ready...")],
            Action::Run(call(
                "kubectl",
                &[
                    "wait",
                    "--namespace",
                    "flux-system",
                    "--for=condition=ready",
                    "pod",
                    "--selector=app.kubernetes.io/part-of=flux",
                    "--timeout=90s",
                ]
            )),
        )
    );
    for reply in [exited(true, ""), exited(false, "")] {
        assert_eq!(step(InstancePoint::ControllersReady, reply), Turn::Done(vec![], ()));
    }
}
