//! The ways in which the bootstrap fails, and how each reads.

use crate::decimal::{numeral, write_number};
use crate::protocol::{Call, CallModel};
use crate::text::{join, joined, string_texts};
use vstd::prelude::*;

verus! {

/// The branch of the repository that Flux follows.
pub const GIT_BRANCH: &'static str = "main";

/// What an age key file lacks.
#[derive(Copy, Clone, Debug, PartialEq, Eq, Structural)]
pub struct MissingFields {
    pub created: bool,
    pub public_key: bool,
    pub secret_key: bool,
}

/// Why the bootstrap failed.
#[derive(Debug, PartialEq, Eq)]
#[verifier::ext_equal]
pub enum Failure<S, C> {
    /// A value that names no profile.
    InvalidProfile(S),
    /// A value of a knob that is no number within its bounds.
    InvalidNumber { knob: S, value: S },
    /// A required tool is not in `PATH`.
    ToolMissing(S),
    /// `mise` is not in `PATH`, and the local registry needs it.
    PublisherMissing,
    NoEngine,
    DockerDown,
    PodmanDown,
    UnsupportedEngine(S),
    TokenMissing,
    RepoUrlMissing,
    RepoUrlInvalid,
    BranchUnavailable { url: S, code: u16 },
    KeyFileMissing(S),
    KeyFileUnreadable { path: S, cause: S },
    KeyFileInvalid { path: S, missing: MissingFields },
    PublicKeyUnknown(S),
    /// A program did not start.
    NotStarted { program: S, cause: S },
    /// A program has no input to write to.
    NoInput,
    /// Reading or writing failed.
    Broken(S),
    /// A program reported failure.
    CommandFailed { call: C, status: S },
    RegistryNotReady(u16),
    RegistryConfigNotCreated(S),
    ManagementFluxMissing,
    ManagementTimedOut,
    KubeconfigNotCreated(S),
    PortUnknown,
    WorkloadFluxMissing,
    LogsNotStarted(S),
    WorkloadTimedOut,
    /// The answer does not belong to the action that was asked for.
    UnexpectedReply,
}

pub type FailureModel = Failure<Seq<char>, CallModel>;

impl View for Failure<String, Call> {
    type V = FailureModel;

    open spec fn view(&self) -> FailureModel {
        match self {
            Failure::InvalidProfile(value) => Failure::InvalidProfile(value@),
            Failure::InvalidNumber { knob, value } => Failure::InvalidNumber {
                knob: knob@,
                value: value@,
            },
            Failure::ToolMissing(tool) => Failure::ToolMissing(tool@),
            Failure::PublisherMissing => Failure::PublisherMissing,
            Failure::NoEngine => Failure::NoEngine,
            Failure::DockerDown => Failure::DockerDown,
            Failure::PodmanDown => Failure::PodmanDown,
            Failure::UnsupportedEngine(engine) => Failure::UnsupportedEngine(engine@),
            Failure::TokenMissing => Failure::TokenMissing,
            Failure::RepoUrlMissing => Failure::RepoUrlMissing,
            Failure::RepoUrlInvalid => Failure::RepoUrlInvalid,
            Failure::BranchUnavailable { url, code } => Failure::BranchUnavailable {
                url: url@,
                code: *code,
            },
            Failure::KeyFileMissing(path) => Failure::KeyFileMissing(path@),
            Failure::KeyFileUnreadable { path, cause } => Failure::KeyFileUnreadable {
                path: path@,
                cause: cause@,
            },
            Failure::KeyFileInvalid { path, missing } => Failure::KeyFileInvalid {
                path: path@,
                missing: *missing,
            },
            Failure::PublicKeyUnknown(path) => Failure::PublicKeyUnknown(path@),
            Failure::NotStarted { program, cause } => Failure::NotStarted {
                program: program@,
                cause: cause@,
            },
            Failure::NoInput => Failure::NoInput,
            Failure::Broken(cause) => Failure::Broken(cause@),
            Failure::CommandFailed { call, status } => Failure::CommandFailed {
                call: call@,
                status: status@,
            },
            Failure::RegistryNotReady(port) => Failure::RegistryNotReady(*port),
            Failure::RegistryConfigNotCreated(cause) => Failure::RegistryConfigNotCreated(cause@),
            Failure::ManagementFluxMissing => Failure::ManagementFluxMissing,
            Failure::ManagementTimedOut => Failure::ManagementTimedOut,
            Failure::KubeconfigNotCreated(cause) => Failure::KubeconfigNotCreated(cause@),
            Failure::PortUnknown => Failure::PortUnknown,
            Failure::WorkloadFluxMissing => Failure::WorkloadFluxMissing,
            Failure::LogsNotStarted(cause) => Failure::LogsNotStarted(cause@),
            Failure::WorkloadTimedOut => Failure::WorkloadTimedOut,
            Failure::UnexpectedReply => Failure::UnexpectedReply,
        }
    }
}

/// The names of the missing fields, in the order in which the file holds them.
pub open spec fn field_names(missing: MissingFields) -> Seq<Seq<char>> {
    (if missing.created {
        seq!["# created: header"@]
    } else {
        seq![]
    }) + (if missing.public_key {
        seq!["# public key: comment"@]
    } else {
        seq![]
    }) + (if missing.secret_key {
        seq!["AGE-SECRET-KEY- line"@]
    } else {
        seq![]
    })
}

/// The names of the missing fields, in the order in which the file holds them.
pub fn list_fields(missing: MissingFields) -> (names: Vec<String>)
    ensures
        string_texts(names@) == field_names(missing),
{
    let mut names: Vec<String> = Vec::new();
    if missing.created {
        names.push("# created: header".to_string());
    }
    if missing.public_key {
        names.push("# public key: comment".to_string());
    }
    if missing.secret_key {
        names.push("AGE-SECRET-KEY- line".to_string());
    }
    names
}

/// How a failure reads.
pub open spec fn failure_text(failure: FailureModel) -> Seq<char> {
    match failure {
        Failure::InvalidProfile(value) => "invalid profile '"@ + value
            + "' (expected 'aws' or 'local-host')"@,
        Failure::InvalidNumber { knob, value } => "invalid value '"@ + value + "' for "@ + knob,
        Failure::ToolMissing(tool) => tool + " not found in PATH"@,
        Failure::PublisherMissing =>
            "mise not found in PATH (required to publish the initial OCI artifact)"@,
        Failure::NoEngine => "No running container engine found (tried docker and podman)"@,
        Failure::DockerDown => "Docker daemon not running"@,
        Failure::PodmanDown => "Podman is not running (is 'podman machine' started?)"@,
        Failure::UnsupportedEngine(engine) => "Unsupported CONTAINER_ENGINE '"@ + engine
            + "' (expected 'docker' or 'podman')"@,
        Failure::TokenMissing => "GITHUB_TOKEN must be set (a PAT with read access to the repo)"@,
        Failure::RepoUrlMissing => "GIT_REPO_URL must be set"@,
        Failure::RepoUrlInvalid => "GIT_REPO_URL must be an HTTPS GitHub repository URL"@,
        Failure::BranchUnavailable { url, code } => "GitHub repository or branch '"@ + GIT_BRANCH@
            + "' is unavailable at '"@ + url + "' (HTTP "@ + numeral(code as nat) + ")"@,
        Failure::KeyFileMissing(path) => "age key file not found at '"@ + path
            + "'.\n       Generate one with:  mise run sops-keygen\n       and add its PUBLIC key to .sops.yaml. See docs/secrets.md."@,
        Failure::KeyFileUnreadable { path, .. } => "failed to read '"@ + path + "'"@,
        Failure::KeyFileInvalid { path, missing } => "'"@ + path
            + "' is not a valid age key file.\n       Missing: "@ + joined(
            field_names(missing),
            ", "@,
        ),
        Failure::PublicKeyUnknown(path) => "Cannot determine age public key from '"@ + path
            + "' or from AGE_PUBLIC_KEY env var.\n       Set AGE_PUBLIC_KEY in .env, or regenerate the key with: mise run sops-keygen"@,
        Failure::NotStarted { program, .. } => "failed to spawn '"@ + program + "'"@,
        Failure::NoInput => "child stdin unavailable"@,
        Failure::Broken(cause) => cause,
        Failure::CommandFailed { call, status } => "'"@ + call.program + " "@ + joined(
            call.args,
            " "@,
        ) + "' failed with "@ + status,
        Failure::RegistryNotReady(port) => "local registry did not become ready at localhost:"@
            + numeral(port as nat),
        Failure::RegistryConfigNotCreated(_) => "failed to create temp registry config"@,
        Failure::ManagementFluxMissing => "flux-apps Kustomization missing"@,
        Failure::ManagementTimedOut => "local-host reconciliation timed out"@,
        Failure::KubeconfigNotCreated(_) => "failed to create temp kubeconfig"@,
        Failure::PortUnknown => "cannot determine the local-workload API server port"@,
        Failure::WorkloadFluxMissing => "workload Flux Kustomization missing"@,
        Failure::LogsNotStarted(_) => "failed to spawn 'flux logs'"@,
        Failure::WorkloadTimedOut => "workload reconciliation timed out"@,
        Failure::UnexpectedReply => "unexpected answer to an action"@,
    }
}

/// What brought a failure about, where its own text does not say so.
pub open spec fn failure_cause(failure: FailureModel) -> Option<Seq<char>> {
    match failure {
        Failure::KeyFileUnreadable { cause, .. } => Some(cause),
        Failure::NotStarted { cause, .. } => Some(cause),
        Failure::RegistryConfigNotCreated(cause) => Some(cause),
        Failure::KubeconfigNotCreated(cause) => Some(cause),
        Failure::LogsNotStarted(cause) => Some(cause),
        _ => None,
    }
}

impl Failure<String, Call> {
    /// How the failure reads.
    pub fn message(&self) -> (r: String)
        ensures
            r@ == failure_text(self@),
    {
        match self {
            Failure::InvalidProfile(value) => "invalid profile '".to_string().concat(
                value.as_str(),
            ).concat("' (expected 'aws' or 'local-host')"),
            Failure::InvalidNumber { knob, value } => "invalid value '".to_string().concat(
                value.as_str(),
            ).concat("' for ").concat(knob.as_str()),
            Failure::ToolMissing(tool) => tool.clone().concat(" not found in PATH"),
            Failure::PublisherMissing =>
                "mise not found in PATH (required to publish the initial OCI artifact)".to_string(),
            Failure::NoEngine =>
                "No running container engine found (tried docker and podman)".to_string(),
            Failure::DockerDown => "Docker daemon not running".to_string(),
            Failure::PodmanDown =>
                "Podman is not running (is 'podman machine' started?)".to_string(),
            Failure::UnsupportedEngine(engine) => "Unsupported CONTAINER_ENGINE '".to_string().concat(
                engine.as_str(),
            ).concat("' (expected 'docker' or 'podman')"),
            Failure::TokenMissing =>
                "GITHUB_TOKEN must be set (a PAT with read access to the repo)".to_string(),
            Failure::RepoUrlMissing => "GIT_REPO_URL must be set".to_string(),
            Failure::RepoUrlInvalid =>
                "GIT_REPO_URL must be an HTTPS GitHub repository URL".to_string(),
            Failure::BranchUnavailable { url, code } => "GitHub repository or branch '".to_string().concat(
                GIT_BRANCH,
            ).concat("' is unavailable at '").concat(url.as_str()).concat("' (HTTP ").concat(
                write_number(*code as u64).as_str(),
            ).concat(")"),
            Failure::KeyFileMissing(path) => "age key file not found at '".to_string().concat(
                path.as_str(),
            ).concat(
                "'.\n       Generate one with:  mise run sops-keygen\n       and add its PUBLIC key to .sops.yaml. See docs/secrets.md.",
            ),
            Failure::KeyFileUnreadable { path, .. } => "failed to read '".to_string().concat(
                path.as_str(),
            ).concat("'"),
            Failure::KeyFileInvalid { path, missing } => "'".to_string().concat(
                path.as_str(),
            ).concat("' is not a valid age key file.\n       Missing: ").concat(
                join(&list_fields(*missing), ", ").as_str(),
            ),
            Failure::PublicKeyUnknown(path) => "Cannot determine age public key from '".to_string().concat(
                path.as_str(),
            ).concat(
                "' or from AGE_PUBLIC_KEY env var.\n       Set AGE_PUBLIC_KEY in .env, or regenerate the key with: mise run sops-keygen",
            ),
            Failure::NotStarted { program, .. } => "failed to spawn '".to_string().concat(
                program.as_str(),
            ).concat("'"),
            Failure::NoInput => "child stdin unavailable".to_string(),
            Failure::Broken(cause) => cause.clone(),
            Failure::CommandFailed { call, status } => "'".to_string().concat(
                call.program.as_str(),
            ).concat(" ").concat(join(&call.args, " ").as_str()).concat("' failed with ").concat(
                status.as_str(),
            ),
            Failure::RegistryNotReady(port) => "local registry did not become ready at localhost:".to_string().concat(
                write_number(*port as u64).as_str(),
            ),
            Failure::RegistryConfigNotCreated(_) =>
                "failed to create temp registry config".to_string(),
            Failure::ManagementFluxMissing => "flux-apps Kustomization missing".to_string(),
            Failure::ManagementTimedOut => "local-host reconciliation timed out".to_string(),
            Failure::KubeconfigNotCreated(_) => "failed to create temp kubeconfig".to_string(),
            Failure::PortUnknown =>
                "cannot determine the local-workload API server port".to_string(),
            Failure::WorkloadFluxMissing => "workload Flux Kustomization missing".to_string(),
            Failure::LogsNotStarted(_) => "failed to spawn 'flux logs'".to_string(),
            Failure::WorkloadTimedOut => "workload reconciliation timed out".to_string(),
            Failure::UnexpectedReply => "unexpected answer to an action".to_string(),
        }
    }

    /// What brought the failure about, where its own text does not say so.
    pub fn cause(&self) -> (r: Option<String>)
        ensures
            match r {
                Some(cause) => failure_cause(self@) == Some(cause@),
                None => failure_cause(self@) is None,
            },
    {
        match self {
            Failure::KeyFileUnreadable { cause, .. } => Some(cause.clone()),
            Failure::NotStarted { cause, .. } => Some(cause.clone()),
            Failure::RegistryConfigNotCreated(cause) => Some(cause.clone()),
            Failure::KubeconfigNotCreated(cause) => Some(cause.clone()),
            Failure::LogsNotStarted(cause) => Some(cause.clone()),
            _ => None,
        }
    }
}

/// A message that is about something holds all of it, as it is, between words that never change.
pub proof fn messages_name_what_they_are_about(
    text: Seq<char>,
    other: Seq<char>,
    number: u16,
    call: CallModel,
    missing: MissingFields,
)
    ensures
        failure_text(Failure::InvalidProfile(text)) == "invalid profile '"@ + text
            + "' (expected 'aws' or 'local-host')"@,
        failure_text(Failure::InvalidNumber { knob: text, value: other }) == "invalid value '"@
            + other + "' for "@ + text,
        failure_text(Failure::ToolMissing(text)) == text + " not found in PATH"@,
        failure_text(Failure::UnsupportedEngine(text)) == "Unsupported CONTAINER_ENGINE '"@ + text
            + "' (expected 'docker' or 'podman')"@,
        failure_text(Failure::BranchUnavailable { url: text, code: number })
            == "GitHub repository or branch '"@ + "main"@ + "' is unavailable at '"@ + text
            + "' (HTTP "@ + numeral(number as nat) + ")"@,
        failure_text(Failure::KeyFileMissing(text)) == "age key file not found at '"@ + text
            + "'.\n       Generate one with:  mise run sops-keygen\n       and add its PUBLIC key to .sops.yaml. See docs/secrets.md."@,
        failure_text(Failure::KeyFileUnreadable { path: text, cause: other })
            == "failed to read '"@ + text + "'"@,
        failure_text(Failure::KeyFileInvalid { path: text, missing }) == "'"@ + text
            + "' is not a valid age key file.\n       Missing: "@ + joined(
            field_names(missing),
            ", "@,
        ),
        failure_text(Failure::PublicKeyUnknown(text)) == "Cannot determine age public key from '"@
            + text
            + "' or from AGE_PUBLIC_KEY env var.\n       Set AGE_PUBLIC_KEY in .env, or regenerate the key with: mise run sops-keygen"@,
        failure_text(Failure::NotStarted { program: text, cause: other }) == "failed to spawn '"@
            + text + "'"@,
        failure_text(Failure::Broken(text)) == text,
        failure_text(Failure::CommandFailed { call, status: text }) == "'"@ + call.program + " "@
            + joined(call.args, " "@) + "' failed with "@ + text,
        failure_text(Failure::RegistryNotReady(number))
            == "local registry did not become ready at localhost:"@ + numeral(number as nat),
{
}

/// The other failures always read the same.
pub proof fn plain_failures_read_alike(failure: FailureModel)
    ensures
        failure is PublisherMissing ==> failure_text(failure)
            == "mise not found in PATH (required to publish the initial OCI artifact)"@,
        failure is NoEngine ==> failure_text(failure)
            == "No running container engine found (tried docker and podman)"@,
        failure is DockerDown ==> failure_text(failure) == "Docker daemon not running"@,
        failure is PodmanDown ==> failure_text(failure)
            == "Podman is not running (is 'podman machine' started?)"@,
        failure is TokenMissing ==> failure_text(failure)
            == "GITHUB_TOKEN must be set (a PAT with read access to the repo)"@,
        failure is RepoUrlMissing ==> failure_text(failure) == "GIT_REPO_URL must be set"@,
        failure is RepoUrlInvalid ==> failure_text(failure)
            == "GIT_REPO_URL must be an HTTPS GitHub repository URL"@,
        failure is NoInput ==> failure_text(failure) == "child stdin unavailable"@,
        failure is ManagementFluxMissing ==> failure_text(failure)
            == "flux-apps Kustomization missing"@,
        failure is ManagementTimedOut ==> failure_text(failure)
            == "local-host reconciliation timed out"@,
        failure is PortUnknown ==> failure_text(failure)
            == "cannot determine the local-workload API server port"@,
        failure is WorkloadFluxMissing ==> failure_text(failure)
            == "workload Flux Kustomization missing"@,
        failure is WorkloadTimedOut ==> failure_text(failure)
            == "workload reconciliation timed out"@,
{
}

/// A cause that a failure holds is told beside its message, whole; and the messages of these
/// failures do not depend on it.
pub proof fn causes_are_told(path: Seq<char>, cause: Seq<char>, other: Seq<char>)
    ensures
        failure_cause(Failure::KeyFileUnreadable { path, cause }) == Some(cause),
        failure_cause(Failure::NotStarted { program: path, cause }) == Some(cause),
        failure_cause(Failure::RegistryConfigNotCreated(cause)) == Some(cause),
        failure_cause(Failure::KubeconfigNotCreated(cause)) == Some(cause),
        failure_cause(Failure::LogsNotStarted(cause)) == Some(cause),
        failure_cause(Failure::Broken(cause)) is None,
        failure_text(Failure::RegistryConfigNotCreated(cause))
            == "failed to create temp registry config"@,
        failure_text(Failure::KubeconfigNotCreated(cause)) == "failed to create temp kubeconfig"@,
        failure_text(Failure::LogsNotStarted(cause)) == "failed to spawn 'flux logs'"@,
{
}

/// A field is named exactly where it is missing, and the named ones keep their order.
pub proof fn missing_fields_are_named(missing: MissingFields)
    ensures
        field_names(missing).contains("# created: header"@) <==> missing.created,
        field_names(missing).contains("# public key: comment"@) <==> missing.public_key,
        field_names(missing).contains("AGE-SECRET-KEY- line"@) <==> missing.secret_key,
        field_names(
            MissingFields { created: true, public_key: true, secret_key: true },
        ) == seq!["# created: header"@, "# public key: comment"@, "AGE-SECRET-KEY- line"@],
        field_names(
            MissingFields { created: true, public_key: false, secret_key: true },
        ) == seq!["# created: header"@, "AGE-SECRET-KEY- line"@],
        field_names(
            MissingFields { created: true, public_key: true, secret_key: false },
        ) == seq!["# created: header"@, "# public key: comment"@],
        field_names(
            MissingFields { created: false, public_key: true, secret_key: true },
        ) == seq!["# public key: comment"@, "AGE-SECRET-KEY- line"@],
        field_names(missing).no_duplicates(),
{
    reveal_strlit("# created: header");
    reveal_strlit("# public key: comment");
    reveal_strlit("AGE-SECRET-KEY- line");
    let created = "# created: header"@;
    let public_key = "# public key: comment"@;
    let secret_key = "AGE-SECRET-KEY- line"@;
    assert(created.len() == 17 && public_key.len() == 21 && secret_key.len() == 20);
    let names = field_names(missing);
    if missing.created {
        assert(names[0] == created);
    }
    if missing.public_key {
        let at: int = if missing.created {
            1
        } else {
            0
        };
        assert(names[at] == public_key);
    }
    if missing.secret_key {
        assert(names[names.len() - 1] == secret_key);
    }
}

/// No other failure has a cause beside its message.
pub proof fn few_failures_have_causes(failure: FailureModel)
    ensures
        failure_cause(failure) is Some ==> failure is KeyFileUnreadable || failure is NotStarted
            || failure is RegistryConfigNotCreated || failure is KubeconfigNotCreated
            || failure is LogsNotStarted,
{
}

/// A failure is modelled as it is, with all that it holds.
pub proof fn failures_are_modelled_as_they_are(
    a: String,
    b: String,
    number: u16,
    missing: MissingFields,
    call: Call,
)
    ensures
        Failure::<String, Call>::InvalidProfile(a)@ == FailureModel::InvalidProfile(a@),
        (Failure::<String, Call>::InvalidNumber { knob: a, value: b })@
            == (FailureModel::InvalidNumber { knob: a@, value: b@ }),
        Failure::<String, Call>::ToolMissing(a)@ == FailureModel::ToolMissing(a@),
        Failure::<String, Call>::UnsupportedEngine(a)@ == FailureModel::UnsupportedEngine(a@),
        (Failure::<String, Call>::BranchUnavailable { url: a, code: number })@
            == (FailureModel::BranchUnavailable { url: a@, code: number }),
        Failure::<String, Call>::KeyFileMissing(a)@ == FailureModel::KeyFileMissing(a@),
        (Failure::<String, Call>::KeyFileUnreadable { path: a, cause: b })@
            == (FailureModel::KeyFileUnreadable { path: a@, cause: b@ }),
        (Failure::<String, Call>::KeyFileInvalid { path: a, missing })@
            == (FailureModel::KeyFileInvalid { path: a@, missing }),
        Failure::<String, Call>::PublicKeyUnknown(a)@ == FailureModel::PublicKeyUnknown(a@),
        (Failure::<String, Call>::NotStarted { program: a, cause: b })@
            == (FailureModel::NotStarted { program: a@, cause: b@ }),
        Failure::<String, Call>::Broken(a)@ == FailureModel::Broken(a@),
        (Failure::<String, Call>::CommandFailed { call, status: a })@
            == (FailureModel::CommandFailed { call: call@, status: a@ }),
        Failure::<String, Call>::RegistryNotReady(number)@ == FailureModel::RegistryNotReady(
            number,
        ),
        Failure::<String, Call>::RegistryConfigNotCreated(a)@
            == FailureModel::RegistryConfigNotCreated(a@),
        Failure::<String, Call>::KubeconfigNotCreated(a)@ == FailureModel::KubeconfigNotCreated(
            a@,
        ),
        Failure::<String, Call>::LogsNotStarted(a)@ == FailureModel::LogsNotStarted(a@),
        Failure::<String, Call>::PublisherMissing@ == FailureModel::PublisherMissing,
        Failure::<String, Call>::NoEngine@ == FailureModel::NoEngine,
        Failure::<String, Call>::DockerDown@ == FailureModel::DockerDown,
        Failure::<String, Call>::PodmanDown@ == FailureModel::PodmanDown,
        Failure::<String, Call>::TokenMissing@ == FailureModel::TokenMissing,
        Failure::<String, Call>::RepoUrlMissing@ == FailureModel::RepoUrlMissing,
        Failure::<String, Call>::RepoUrlInvalid@ == FailureModel::RepoUrlInvalid,
        Failure::<String, Call>::NoInput@ == FailureModel::NoInput,
        Failure::<String, Call>::ManagementFluxMissing@ == FailureModel::ManagementFluxMissing,
        Failure::<String, Call>::ManagementTimedOut@ == FailureModel::ManagementTimedOut,
        Failure::<String, Call>::PortUnknown@ == FailureModel::PortUnknown,
        Failure::<String, Call>::WorkloadFluxMissing@ == FailureModel::WorkloadFluxMissing,
        Failure::<String, Call>::WorkloadTimedOut@ == FailureModel::WorkloadTimedOut,
        Failure::<String, Call>::UnexpectedReply@ == FailureModel::UnexpectedReply,
{
}

} // verus!
