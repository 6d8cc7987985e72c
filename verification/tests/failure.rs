use knr_bootstrap::failure::{list_fields, Failure, MissingFields};
use knr_bootstrap::process::call;
use knr_bootstrap::protocol::Call;

type F = Failure<String, Call>;

fn t(text: &str) -> String {
    text.to_string()
}

fn missing(created: bool, public_key: bool, secret_key: bool) -> MissingFields {
    MissingFields { created, public_key, secret_key }
}

#[test]
fn failures_read_like_this() {
    let cases: Vec<(F, &str)> = vec![
        (
            Failure::InvalidProfile(t("gcp")),
            "invalid profile 'gcp' (expected 'aws' or 'local-host')",
        ),
        (
            Failure::InvalidNumber { knob: t("REGISTRY_PORT"), value: t("x") },
            "invalid value 'x' for REGISTRY_PORT",
        ),
        (Failure::ToolMissing(t("helm")), "helm not found in PATH"),
        (
            Failure::PublisherMissing,
            "mise not found in PATH (required to publish the initial OCI artifact)",
        ),
        (Failure::NoEngine, "No running container engine found (tried docker and podman)"),
        (Failure::DockerDown, "Docker daemon not running"),
        (Failure::PodmanDown, "Podman is not running (is 'podman machine' started?)"),
        (
            Failure::UnsupportedEngine(t("lxc")),
            "Unsupported CONTAINER_ENGINE 'lxc' (expected 'docker' or 'podman')",
        ),
        (
            Failure::TokenMissing,
            "GITHUB_TOKEN must be set (a PAT with read access to the repo)",
        ),
        (Failure::RepoUrlMissing, "GIT_REPO_URL must be set"),
        (Failure::RepoUrlInvalid, "GIT_REPO_URL must be an HTTPS GitHub repository URL"),
        (
            Failure::BranchUnavailable { url: t("https://github.com/o/r"), code: 404 },
            "GitHub repository or branch 'main' is unavailable at 'https://github.com/o/r' (HTTP 404)",
        ),
        (
            Failure::KeyFileMissing(t("age.agekey")),
            "age key file not found at 'age.agekey'.\n       Generate one with:  mise run sops-keygen\n       and add its PUBLIC key to .sops.yaml. See docs/secrets.md.",
        ),
        (
            Failure::KeyFileUnreadable { path: t("k"), cause: t("denied") },
            "failed to read 'k'",
        ),
        (
            Failure::KeyFileInvalid { path: t("k"), missing: missing(true, false, true) },
            "'k' is not a valid age key file.\n       Missing: # created: header, AGE-SECRET-KEY- line",
        ),
        (
            Failure::PublicKeyUnknown(t("k")),
            "Cannot determine age public key from 'k' or from AGE_PUBLIC_KEY env var.\n       Set AGE_PUBLIC_KEY in .env, or regenerate the key with: mise run sops-keygen",
        ),
        (
            Failure::NotStarted { program: t("kind"), cause: t("no such file") },
            "failed to spawn 'kind'",
        ),
        (Failure::NoInput, "child stdin unavailable"),
        (Failure::Broken(t("broken pipe")), "broken pipe"),
        (
            Failure::CommandFailed {
                call: call("kubectl", &["apply", "-f", "-"]),
                status: t("exit status: 1"),
            },
            "'kubectl apply -f -' failed with exit status: 1",
        ),
        (
            Failure::RegistryNotReady(5001),
            "local registry did not become ready at localhost:5001",
        ),
        (
            Failure::RegistryConfigNotCreated(t("full")),
            "failed to create temp registry config",
        ),
        (Failure::ManagementFluxMissing, "flux-apps Kustomization missing"),
        (Failure::ManagementTimedOut, "local-host reconciliation timed out"),
        (Failure::KubeconfigNotCreated(t("full")), "failed to create temp kubeconfig"),
        (Failure::PortUnknown, "cannot determine the local-workload API server port"),
        (Failure::WorkloadFluxMissing, "workload Flux Kustomization missing"),
        (Failure::LogsNotStarted(t("no such file")), "failed to spawn 'flux logs'"),
        (Failure::WorkloadTimedOut, "workload reconciliation timed out"),
        (Failure::UnexpectedReply, "unexpected answer to an action"),
    ];
    for (failure, text) in cases {
        assert_eq!(failure.message(), text);
    }
}

#[test]
fn causes_are_told_apart_from_messages() {
    let cause = Some(t("why"));
    let f: F = Failure::NotStarted { program: t("kind"), cause: t("why") };
    assert_eq!(f.cause(), cause);
    let f: F = Failure::KeyFileUnreadable { path: t("k"), cause: t("why") };
    assert_eq!(f.cause(), cause);
    let f: F = Failure::RegistryConfigNotCreated(t("why"));
    assert_eq!(f.cause(), cause);
    let f: F = Failure::KubeconfigNotCreated(t("why"));
    assert_eq!(f.cause(), cause);
    let f: F = Failure::LogsNotStarted(t("why"));
    assert_eq!(f.cause(), cause);
    let f: F = Failure::Broken(t("why"));
    assert_eq!(f.cause(), None);
    let f: F = Failure::NoEngine;
    assert_eq!(f.cause(), None);
}

#[test]
fn missing_fields_are_listed_in_order() {
    assert!(list_fields(missing(false, false, false)).is_empty());
    assert_eq!(
        list_fields(missing(true, true, true)),
        vec!["# created: header", "# public key: comment", "AGE-SECRET-KEY- line"]
    );
    assert_eq!(list_fields(missing(false, true, false)), vec!["# public key: comment"]);
}
