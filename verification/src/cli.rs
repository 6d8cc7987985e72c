//! The settings of a run: the profile and the knobs, from the command line and the environment.

use crate::decimal::{
    digits_are_written_in_turn, number_survives_writing, number_up_to, numeral, read_number,
};
use crate::failure::{Failure, FailureModel};
use crate::protocol::Call;
use crate::text::same;
use vstd::prelude::*;

verus! {

/// Where the management cluster gets its workload from.
#[derive(Copy, Clone, Debug, PartialEq, Eq, Structural)]
pub enum Profile {
    LocalHost,
    Aws,
}

/// The name of a profile.
pub open spec fn profile_name(profile: Profile) -> Seq<char> {
    match profile {
        Profile::LocalHost => "local-host"@,
        Profile::Aws => "aws"@,
    }
}

/// The profile of this name.
pub open spec fn named_profile(name: Seq<char>) -> Option<Profile> {
    if name == profile_name(Profile::LocalHost) {
        Some(Profile::LocalHost)
    } else if name == profile_name(Profile::Aws) {
        Some(Profile::Aws)
    } else {
        None
    }
}

impl Profile {
    /// The name of the profile.
    pub fn to_string(&self) -> (name: String)
        ensures
            name@ == profile_name(*self),
    {
        match self {
            Profile::LocalHost => "local-host".to_string(),
            Profile::Aws => "aws".to_string(),
        }
    }

    /// The profile of this name.
    pub fn from_name(name: &str) -> (r: Option<Profile>)
        ensures
            r == named_profile(name@),
    {
        if same(name, "local-host") {
            Some(Profile::LocalHost)
        } else if same(name, "aws") {
            Some(Profile::Aws)
        } else {
            None
        }
    }
}

/// A profile is found again by its name, and no other name finds it.
pub proof fn profiles_have_distinct_names(profile: Profile, name: Seq<char>)
    ensures
        named_profile(name) == Some(profile) <==> name == profile_name(profile),
{
    reveal_strlit("local-host");
    reveal_strlit("aws");
    assert("local-host"@.len() != "aws"@.len());
}

/// The knobs of the environment as they were found; `None` where a variable is not set.
#[derive(Debug, PartialEq, Eq)]
#[verifier::ext_equal]
pub struct Environment<S> {
    /// `KNR_OPS_PROFILE`
    pub profile: Option<S>,
    /// `REGISTRY_PORT`
    pub registry_port: Option<S>,
    /// `REGISTRY_READY_RETRIES`
    pub registry_ready_retries: Option<S>,
    /// `LOCAL_RECONCILE_TIMEOUT`
    pub local_reconcile_timeout: Option<S>,
    /// `CONTAINER_ENGINE`
    pub container_engine: Option<S>,
    /// `GIT_REPO_URL`
    pub git_repo_url: Option<S>,
    /// `GITHUB_TOKEN`
    pub github_token: Option<S>,
    /// `GITHUB_USER`
    pub github_user: Option<S>,
    /// `AGE_KEY_FILE`
    pub age_key_file: Option<S>,
    /// `AGE_PUBLIC_KEY`
    pub age_public_key: Option<S>,
    /// `OCI_REPOSITORY`
    pub oci_repository: Option<S>,
    /// `OCI_TAG`
    pub oci_tag: Option<S>,
}

pub type EnvironmentModel = Environment<Seq<char>>;

/// The settings of a run, with their defaults where they have one. Of the others, an empty one
/// counts as not set wherever it is used.
#[derive(Debug, PartialEq, Eq)]
#[verifier::ext_equal]
pub struct Cli<S> {
    /// Deployment profile.
    pub profile: Profile,
    /// Whether an existing management cluster is deleted and made anew.
    pub recreate: bool,
    /// Host port of the local container registry.
    pub registry_port: u16,
    /// Retries, a second apart, while waiting for the local registry.
    pub registry_ready_retries: u32,
    /// How long reconciliation may take on the local host.
    pub local_reconcile_timeout: S,
    /// Container engine; detected where there is none.
    pub container_engine: Option<S>,
    /// HTTPS GitHub repository URL.
    pub git_repo_url: Option<S>,
    /// GitHub token with read access to the repository.
    pub github_token: Option<S>,
    /// User name in the secret that Flux clones the repository with.
    pub github_user: S,
    /// Path of the SOPS age key file.
    pub age_key_file: S,
    /// Public key to use in place of the one in the key file.
    pub age_public_key: Option<S>,
    /// Name of the local OCI artifact.
    pub oci_repository: S,
    /// Tag of the local OCI artifact.
    pub oci_tag: S,
}

pub type CliModel = Cli<Seq<char>>;

/// The text of an optional string.
pub open spec fn optional_text(value: Option<String>) -> Option<Seq<char>> {
    match value {
        Some(text) => Some(text@),
        None => None,
    }
}

impl View for Environment<String> {
    type V = EnvironmentModel;

    open spec fn view(&self) -> EnvironmentModel {
        Environment {
            profile: optional_text(self.profile),
            registry_port: optional_text(self.registry_port),
            registry_ready_retries: optional_text(self.registry_ready_retries),
            local_reconcile_timeout: optional_text(self.local_reconcile_timeout),
            container_engine: optional_text(self.container_engine),
            git_repo_url: optional_text(self.git_repo_url),
            github_token: optional_text(self.github_token),
            github_user: optional_text(self.github_user),
            age_key_file: optional_text(self.age_key_file),
            age_public_key: optional_text(self.age_public_key),
            oci_repository: optional_text(self.oci_repository),
            oci_tag: optional_text(self.oci_tag),
        }
    }
}

impl View for Cli<String> {
    type V = CliModel;

    open spec fn view(&self) -> CliModel {
        Cli {
            profile: self.profile,
            recreate: self.recreate,
            registry_port: self.registry_port,
            registry_ready_retries: self.registry_ready_retries,
            local_reconcile_timeout: self.local_reconcile_timeout@,
            container_engine: optional_text(self.container_engine),
            git_repo_url: optional_text(self.git_repo_url),
            github_token: optional_text(self.github_token),
            github_user: self.github_user@,
            age_key_file: self.age_key_file@,
            age_public_key: optional_text(self.age_public_key),
            oci_repository: self.oci_repository@,
            oci_tag: self.oci_tag@,
        }
    }
}

/// The value of a knob: an empty one counts as not set.
pub open spec fn given(value: Option<Seq<char>>) -> Option<Seq<char>> {
    match value {
        Some(text) => if text.len() > 0 {
            Some(text)
        } else {
            None
        },
        None => None,
    }
}

/// The value of a knob, or its default where it is not set or empty.
pub open spec fn given_or(value: Option<Seq<char>>, default: Seq<char>) -> Seq<char> {
    match given(value) {
        Some(text) => text,
        None => default,
    }
}

/// Drops the value of a knob where it is empty.
pub fn knob(value: Option<String>) -> (r: Option<String>)
    ensures
        optional_text(r) == given(optional_text(value)),
{
    match value {
        Some(text) => if text.as_str().is_empty() {
            None
        } else {
            Some(text)
        },
        None => None,
    }
}

/// The value of a knob, where it is set and not empty.
pub fn knob_ref(value: &Option<String>) -> (r: Option<&String>)
    ensures
        match r {
            Some(text) => given(optional_text(*value)) == Some(text@),
            None => given(optional_text(*value)) is None,
        },
{
    match value {
        Some(text) => if text.as_str().is_empty() {
            None
        } else {
            Some(text)
        },
        None => None,
    }
}

/// The value of a knob, or its default where it is not set or empty.
pub fn knob_or(value: Option<String>, default: &str) -> (r: String)
    ensures
        r@ == given_or(optional_text(value), default@),
{
    match knob(value) {
        Some(text) => text,
        None => default.to_string(),
    }
}

/// The name by which the profile is chosen: the variable, the argument, or the default.
pub open spec fn chosen_profile(
    variable: Option<Seq<char>>,
    argument: Option<Seq<char>>,
) -> Seq<char> {
    match (given(variable), argument) {
        (Some(name), _) => name,
        (None, Some(name)) => name,
        (None, None) => "aws"@,
    }
}

/// The profile of a run.
pub open spec fn profile_of(
    variable: Option<Seq<char>>,
    argument: Option<Seq<char>>,
) -> Result<Profile, FailureModel> {
    let name = chosen_profile(variable, argument);
    match named_profile(name) {
        Some(profile) => Ok(profile),
        None => Err(Failure::InvalidProfile(name)),
    }
}

/// Chooses the profile of a run.
pub fn choose_profile(variable: Option<String>, argument: Option<String>) -> (r: Result<
    Profile,
    Failure<String, Call>,
>)
    ensures
        match r {
            Ok(profile) => profile_of(optional_text(variable), optional_text(argument)) == Ok::<
                Profile,
                FailureModel,
            >(profile),
            Err(failure) => profile_of(optional_text(variable), optional_text(argument)) == Err::<
                Profile,
                FailureModel,
            >(failure@),
        },
{
    let name = match knob(variable) {
        Some(name) => name,
        None => match argument {
            Some(name) => name,
            None => "aws".to_string(),
        },
    };
    match Profile::from_name(name.as_str()) {
        Some(profile) => Ok(profile),
        None => Err(Failure::InvalidProfile(name)),
    }
}

/// The value of a knob that is a number up to `max`.
pub open spec fn number_of(
    knob: Seq<char>,
    value: Option<Seq<char>>,
    default: u32,
    max: u32,
) -> Result<u32, FailureModel> {
    match given(value) {
        Some(text) => match number_up_to(text, max) {
            Some(n) => Ok(n),
            None => Err(Failure::InvalidNumber { knob, value: text }),
        },
        None => Ok(default),
    }
}

/// Reads a knob that is a number up to `max`.
pub fn number_knob(name: &str, value: Option<String>, default: u32, max: u32) -> (r: Result<
    u32,
    Failure<String, Call>,
>)
    ensures
        match r {
            Ok(n) => number_of(name@, optional_text(value), default, max) == Ok::<
                u32,
                FailureModel,
            >(n),
            Err(failure) => number_of(name@, optional_text(value), default, max) == Err::<
                u32,
                FailureModel,
            >(failure@),
        },
{
    match knob(value) {
        Some(text) => match read_number(text.as_str(), max) {
            Some(n) => Ok(n),
            None => Err(Failure::InvalidNumber { knob: name.to_string(), value: text }),
        },
        None => Ok(default),
    }
}

/// The settings that a command line and an environment give.
pub open spec fn settings(
    argument: Option<Seq<char>>,
    recreate: bool,
    env: EnvironmentModel,
) -> Result<CliModel, FailureModel> {
    match (
        profile_of(env.profile, argument),
        number_of("REGISTRY_PORT"@, env.registry_port, 5001, 65535),
        number_of("REGISTRY_READY_RETRIES"@, env.registry_ready_retries, 120, 4294967295),
    ) {
        (Err(failure), _, _) => Err(failure),
        (_, Err(failure), _) => Err(failure),
        (_, _, Err(failure)) => Err(failure),
        (Ok(profile), Ok(port), Ok(retries)) => Ok(
            Cli {
                profile,
                recreate,
                registry_port: port as u16,
                registry_ready_retries: retries,
                local_reconcile_timeout: given_or(env.local_reconcile_timeout, "15m"@),
                container_engine: given(env.container_engine),
                git_repo_url: given(env.git_repo_url),
                github_token: given(env.github_token),
                github_user: given_or(env.github_user, "git"@),
                age_key_file: given_or(env.age_key_file, "age.agekey"@),
                age_public_key: given(env.age_public_key),
                oci_repository: given_or(env.oci_repository, "knr-ops"@),
                oci_tag: given_or(env.oci_tag, "latest"@),
            },
        ),
    }
}

impl Cli<String> {
    /// Makes the settings of a run out of the command line and the environment.
    pub fn new(
        argument: Option<String>,
        recreate: bool,
        env: Environment<String>,
    ) -> (r: Result<Cli<String>, Failure<String, Call>>)
        ensures
            match r {
                Ok(cli) => settings(optional_text(argument), recreate, env@) == Ok::<
                    CliModel,
                    FailureModel,
                >(cli@),
                Err(failure) => settings(optional_text(argument), recreate, env@) == Err::<
                    CliModel,
                    FailureModel,
                >(failure@),
            },
    {
        let profile = match choose_profile(env.profile, argument) {
            Ok(profile) => profile,
            Err(failure) => return Err(failure),
        };
        let port = match number_knob("REGISTRY_PORT", env.registry_port, 5001, 65535) {
            Ok(port) => port,
            Err(failure) => return Err(failure),
        };
        let retries = match number_knob(
            "REGISTRY_READY_RETRIES",
            env.registry_ready_retries,
            120,
            4294967295,
        ) {
            Ok(retries) => retries,
            Err(failure) => return Err(failure),
        };
        Ok(
            Cli {
                profile,
                recreate,
                registry_port: port as u16,
                registry_ready_retries: retries,
                local_reconcile_timeout: knob_or(env.local_reconcile_timeout, "15m"),
                container_engine: knob(env.container_engine),
                git_repo_url: knob(env.git_repo_url),
                github_token: knob(env.github_token),
                github_user: knob_or(env.github_user, "git"),
                age_key_file: knob_or(env.age_key_file, "age.agekey"),
                age_public_key: knob(env.age_public_key),
                oci_repository: knob_or(env.oci_repository, "knr-ops"),
                oci_tag: knob_or(env.oci_tag, "latest"),
            },
        )
    }
}

/// A variable that is set and empty gives the same settings as one that is not set.
pub proof fn empty_knobs_count_as_unset(
    argument: Option<Seq<char>>,
    recreate: bool,
    env: EnvironmentModel,
)
    ensures
        settings(argument, recreate, env) == settings(
            argument,
            recreate,
            (Environment {
                profile: given(env.profile),
                registry_port: given(env.registry_port),
                registry_ready_retries: given(env.registry_ready_retries),
                local_reconcile_timeout: given(env.local_reconcile_timeout),
                container_engine: given(env.container_engine),
                git_repo_url: given(env.git_repo_url),
                github_token: given(env.github_token),
                github_user: given(env.github_user),
                age_key_file: given(env.age_key_file),
                age_public_key: given(env.age_public_key),
                oci_repository: given(env.oci_repository),
                oci_tag: given(env.oci_tag),
            }),
        ),
{
}

/// A profile in the environment that is not empty decides, whatever the argument.
pub proof fn profile_variable_takes_precedence(
    name: Seq<char>,
    argument: Option<Seq<char>>,
    other: Option<Seq<char>>,
)
    requires
        name.len() > 0,
    ensures
        profile_of(Some(name), argument) == profile_of(Some(name), other),
        profile_of(Some(name), argument) matches Ok(profile) ==> name == profile_name(profile),
{
}

/// Tells whether a setting is the value of its knob, or the default where the knob is not set or
/// empty.
pub open spec fn decided_by(
    setting: Seq<char>,
    knob: Option<Seq<char>>,
    default: Seq<char>,
) -> bool {
    match knob {
        Some(value) => setting == (if value.len() > 0 {
            value
        } else {
            default
        }),
        None => setting == default,
    }
}

/// Tells whether an optional setting is the value of its knob where that is set and not empty.
pub open spec fn handed_on(setting: Option<Seq<char>>, knob: Option<Seq<char>>) -> bool {
    match knob {
        Some(value) => if value.len() > 0 {
            setting == Some(value)
        } else {
            setting is None
        },
        None => setting is None,
    }
}

/// Every setting is the value of its own knob, whole, or its default.
pub proof fn every_knob_has_its_setting(
    argument: Option<Seq<char>>,
    recreate: bool,
    env: EnvironmentModel,
)
    ensures
        settings(argument, recreate, env) matches Ok(cli) ==> {
            &&& cli.recreate == recreate
            &&& decided_by(cli.local_reconcile_timeout, env.local_reconcile_timeout, "15m"@)
            &&& decided_by(cli.github_user, env.github_user, "git"@)
            &&& decided_by(cli.age_key_file, env.age_key_file, "age.agekey"@)
            &&& decided_by(cli.oci_repository, env.oci_repository, "knr-ops"@)
            &&& decided_by(cli.oci_tag, env.oci_tag, "latest"@)
            &&& handed_on(cli.container_engine, env.container_engine)
            &&& handed_on(cli.git_repo_url, env.git_repo_url)
            &&& handed_on(cli.github_token, env.github_token)
            &&& handed_on(cli.age_public_key, env.age_public_key)
        },
{
}

/// A number in a variable is the number in the settings: any port and any number of retries, as
/// they are written. Without the variables the port is 5001, and there are 120 retries.
pub proof fn numbers_are_taken_from_their_knobs(
    argument: Option<Seq<char>>,
    recreate: bool,
    env: EnvironmentModel,
    port: u16,
    retries: u32,
)
    ensures
        settings(argument, recreate, env) matches Ok(cli) ==> {
            &&& env.registry_port == Some(numeral(port as nat)) ==> cli.registry_port == port
            &&& env.registry_ready_retries == Some(numeral(retries as nat))
                ==> cli.registry_ready_retries == retries
            &&& (env.registry_port is None || env.registry_port->0.len() == 0)
                ==> cli.registry_port == 5001
            &&& (env.registry_ready_retries is None || env.registry_ready_retries->0.len() == 0)
                ==> cli.registry_ready_retries == 120
            &&& env.registry_port is Some && env.registry_port->0.len() > 0
                ==> number_up_to(env.registry_port->0, 65535) == Some(cli.registry_port as u32)
            &&& env.registry_ready_retries is Some && env.registry_ready_retries->0.len() > 0
                ==> number_up_to(env.registry_ready_retries->0, u32::MAX) == Some(
                cli.registry_ready_retries,
            )
        },
{
    number_survives_writing(port as u32, 65535);
    number_survives_writing(retries, u32::MAX);
    digits_are_written_in_turn(port as nat, 0);
    digits_are_written_in_turn(retries as nat, 0);
}

/// The argument names the profile where the variable does not, and an argument that names none is
/// refused by its name.
pub proof fn the_argument_names_the_profile(name: Seq<char>, recreate: bool, env: EnvironmentModel)
    requires
        env.profile is None || env.profile->0.len() == 0,
    ensures
        settings(Some("local-host"@), recreate, env) matches Ok(cli) ==> cli.profile
            == Profile::LocalHost,
        settings(Some("aws"@), recreate, env) matches Ok(cli) ==> cli.profile == Profile::Aws,
        settings(None, recreate, env) matches Ok(cli) ==> cli.profile == Profile::Aws,
        name != "local-host"@ && name != "aws"@ ==> settings(Some(name), recreate, env) == Err::<
            CliModel,
            FailureModel,
        >(Failure::InvalidProfile(name)),
{
    profiles_have_distinct_names(Profile::Aws, "aws"@);
    profiles_have_distinct_names(Profile::LocalHost, "local-host"@);
}

/// The variable names the profile where it is set and not empty, whatever the argument; and a value
/// that names none is refused.
pub proof fn the_variable_names_the_profile(
    name: Seq<char>,
    argument: Option<Seq<char>>,
    recreate: bool,
    env: EnvironmentModel,
)
    requires
        env.profile == Some(name),
        name.len() > 0,
    ensures
        settings(argument, recreate, env) matches Ok(cli) ==> name == (match cli.profile {
            Profile::LocalHost => "local-host"@,
            Profile::Aws => "aws"@,
        }),
        name != "local-host"@ && name != "aws"@ ==> settings(argument, recreate, env) == Err::<
            CliModel,
            FailureModel,
        >(Failure::InvalidProfile(name)),
{
}

/// Settings are refused for one of three reasons alone: no such profile, no such port, or no such
/// number of retries. The last two name the knob and its value.
pub proof fn settings_are_refused_for_a_reason(
    argument: Option<Seq<char>>,
    recreate: bool,
    env: EnvironmentModel,
)
    ensures
        match settings(argument, recreate, env) {
            Ok(_) => true,
            Err(Failure::InvalidProfile(name)) => name != "local-host"@ && name != "aws"@ && (
            argument == Some(name) || env.profile == Some(name)),
            Err(Failure::InvalidNumber { knob, value }) => {
                ||| knob == "REGISTRY_PORT"@ && env.registry_port == Some(value) && number_up_to(
                    value,
                    65535,
                ) is None
                ||| knob == "REGISTRY_READY_RETRIES"@ && env.registry_ready_retries == Some(value)
                    && number_up_to(value, u32::MAX) is None && (env.registry_port matches Some(
                    port,
                ) ==> port.len() == 0 || number_up_to(port, 65535) is Some)
            },
            Err(_) => false,
        },
        argument is None && env.profile is None && env.registry_port is None
            && env.registry_ready_retries is None ==> settings(argument, recreate, env) is Ok,
{
    profiles_have_distinct_names(Profile::Aws, "aws"@);
}

/// A knob that is a number is read whole, or refused by its name and its value; and it has its
/// default where it is not set or empty.
pub proof fn number_knobs_are_read_or_refused(
    name: Seq<char>,
    text: Seq<char>,
    default: u32,
    max: u32,
)
    ensures
        number_of(name, None, default, max) == Ok::<u32, FailureModel>(default),
        number_of(name, Some(Seq::<char>::empty()), default, max) == Ok::<u32, FailureModel>(
            default,
        ),
        text.len() > 0 ==> match number_up_to(text, max) {
            Some(n) => number_of(name, Some(text), default, max) == Ok::<u32, FailureModel>(n),
            None => number_of(name, Some(text), default, max) == Err::<u32, FailureModel>(
                Failure::InvalidNumber { knob: name, value: text },
            ),
        },
{
}

/// The settings are modelled as they are, each by itself.
pub proof fn settings_are_modelled_as_they_are(cli: Cli<String>, text: String)
    ensures
        cli@.profile == cli.profile,
        cli@.recreate == cli.recreate,
        cli@.registry_port == cli.registry_port,
        cli@.registry_ready_retries == cli.registry_ready_retries,
        cli@.local_reconcile_timeout == cli.local_reconcile_timeout@,
        cli@.github_user == cli.github_user@,
        cli@.age_key_file == cli.age_key_file@,
        cli@.oci_repository == cli.oci_repository@,
        cli@.oci_tag == cli.oci_tag@,
        cli.container_engine == Some(text) ==> cli@.container_engine == Some(text@),
        cli.git_repo_url == Some(text) ==> cli@.git_repo_url == Some(text@),
        cli.github_token == Some(text) ==> cli@.github_token == Some(text@),
        cli.age_public_key == Some(text) ==> cli@.age_public_key == Some(text@),
        cli.container_engine is None ==> cli@.container_engine is None,
        cli.git_repo_url is None ==> cli@.git_repo_url is None,
        cli.github_token is None ==> cli@.github_token is None,
        cli.age_public_key is None ==> cli@.age_public_key is None,
{
}

/// The environment is modelled as it is: each variable by itself, and unset where it is unset.
pub proof fn variables_are_modelled_as_they_are(env: Environment<String>)
    ensures
        same_text(env@.profile, env.profile),
        same_text(env@.registry_port, env.registry_port),
        same_text(env@.registry_ready_retries, env.registry_ready_retries),
        same_text(env@.local_reconcile_timeout, env.local_reconcile_timeout),
        same_text(env@.container_engine, env.container_engine),
        same_text(env@.git_repo_url, env.git_repo_url),
        same_text(env@.github_token, env.github_token),
        same_text(env@.github_user, env.github_user),
        same_text(env@.age_key_file, env.age_key_file),
        same_text(env@.age_public_key, env.age_public_key),
        same_text(env@.oci_repository, env.oci_repository),
        same_text(env@.oci_tag, env.oci_tag),
{
}

/// Tells whether a model is the text of a value, or of none.
pub open spec fn same_text(model: Option<Seq<char>>, value: Option<String>) -> bool {
    match (model, value) {
        (Some(seen), Some(text)) => seen == text@,
        (None, None) => true,
        _ => false,
    }
}

} // verus!
