use knr_bootstrap::cli::{
    choose_profile, knob, knob_or, knob_ref, number_knob, Cli, Environment, Profile,
};
use knr_bootstrap::failure::Failure;

fn text(value: &str) -> Option<String> {
    Some(value.to_string())
}

fn unset() -> Environment<String> {
    Environment {
        profile: None,
        registry_port: None,
        registry_ready_retries: None,
        local_reconcile_timeout: None,
        container_engine: None,
        git_repo_url: None,
        github_token: None,
        github_user: None,
        age_key_file: None,
        age_public_key: None,
        oci_repository: None,
        oci_tag: None,
    }
}

fn empty() -> Environment<String> {
    Environment {
        profile: text(""),
        registry_port: text(""),
        registry_ready_retries: text(""),
        local_reconcile_timeout: text(""),
        container_engine: text(""),
        git_repo_url: text(""),
        github_token: text(""),
        github_user: text(""),
        age_key_file: text(""),
        age_public_key: text(""),
        oci_repository: text(""),
        oci_tag: text(""),
    }
}

fn defaults() -> Cli<String> {
    Cli {
        profile: Profile::Aws,
        recreate: false,
        registry_port: 5001,
        registry_ready_retries: 120,
        local_reconcile_timeout: "15m".to_string(),
        container_engine: None,
        git_repo_url: None,
        github_token: None,
        github_user: "git".to_string(),
        age_key_file: "age.agekey".to_string(),
        age_public_key: None,
        oci_repository: "knr-ops".to_string(),
        oci_tag: "latest".to_string(),
    }
}

#[test]
fn everything_has_its_default() {
    assert_eq!(Cli::new(None, false, unset()), Ok(defaults()));
}

#[test]
fn empty_variables_count_as_unset() {
    assert_eq!(Cli::new(None, false, empty()), Ok(defaults()));
    assert_eq!(knob(text("")), None);
    assert_eq!(knob(text(" ")), text(" "));
    assert_eq!(knob_ref(&text("")), None);
    assert_eq!(knob_ref(&text("v")), Some(&"v".to_string()));
    assert_eq!(knob_ref(&None), None);
    assert_eq!(knob_or(text(""), "d"), "d");
    assert_eq!(knob_or(text("v"), "d"), "v");
    assert_eq!(knob_or(None, "d"), "d");
}

#[test]
fn every_knob_is_taken_over() {
    let env = Environment {
        profile: text("local-host"),
        registry_port: text("6000"),
        registry_ready_retries: text("3"),
        local_reconcile_timeout: text("1h"),
        container_engine: text("podman"),
        git_repo_url: text("https://github.com/o/r"),
        github_token: text("t"),
        github_user: text("u"),
        age_key_file: text("k"),
        age_public_key: text("p"),
        oci_repository: text("repo"),
        oci_tag: text("v1"),
    };
    assert_eq!(
        Cli::new(None, true, env),
        Ok(Cli {
            profile: Profile::LocalHost,
            recreate: true,
            registry_port: 6000,
            registry_ready_retries: 3,
            local_reconcile_timeout: "1h".to_string(),
            container_engine: text("podman"),
            git_repo_url: text("https://github.com/o/r"),
            github_token: text("t"),
            github_user: "u".to_string(),
            age_key_file: "k".to_string(),
            age_public_key: text("p"),
            oci_repository: "repo".to_string(),
            oci_tag: "v1".to_string(),
        })
    );
}

#[test]
fn the_variable_takes_precedence_over_the_argument() {
    assert_eq!(choose_profile(text("local-host"), text("aws")), Ok(Profile::LocalHost));
    assert_eq!(choose_profile(text(""), text("local-host")), Ok(Profile::LocalHost));
    assert_eq!(choose_profile(None, text("aws")), Ok(Profile::Aws));
    assert_eq!(choose_profile(None, None), Ok(Profile::Aws));
    assert_eq!(
        choose_profile(text("gcp"), text("aws")),
        Err(Failure::InvalidProfile("gcp".to_string()))
    );
    assert_eq!(
        choose_profile(None, text("AWS")),
        Err(Failure::InvalidProfile("AWS".to_string()))
    );
    assert_eq!(choose_profile(None, text("")), Err(Failure::InvalidProfile(String::new())));
}

#[test]
fn profiles_are_found_by_their_names() {
    for profile in [Profile::LocalHost, Profile::Aws] {
        assert_eq!(Profile::from_name(&profile.to_string()), Some(profile));
    }
    assert_eq!(Profile::LocalHost.to_string(), "local-host");
    assert_eq!(Profile::Aws.to_string(), "aws");
    assert_eq!(Profile::from_name("local_host"), None);
}

#[test]
fn numbers_that_are_none_are_refused() {
    assert_eq!(number_knob("REGISTRY_PORT", text("70000"), 5001, 65535), Err(Failure::InvalidNumber {
        knob: "REGISTRY_PORT".to_string(),
        value: "70000".to_string(),
    }));
    let mut env = unset();
    env.registry_ready_retries = text("many");
    assert_eq!(
        Cli::new(None, false, env),
        Err(Failure::InvalidNumber {
            knob: "REGISTRY_READY_RETRIES".to_string(),
            value: "many".to_string(),
        })
    );
}
