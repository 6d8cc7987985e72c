use knr_bootstrap::aws::{
    check_fields, escape, find_commented_key, find_public_key, github_repo, preflight_aws,
    AwsContext, AwsPoint,
};
use knr_bootstrap::cli::{Cli, Profile};
use knr_bootstrap::failure::{Failure, MissingFields};
use knr_bootstrap::protocol::{Action, Reply, Turn};

type Answer = Reply<String, Vec<u8>>;
type AwsTurn = Turn<AwsPoint, AwsContext<String>>;

const URL: &str = "https://github.com/polarsquad/knr-ops.git";
const KEY_FILE: &str =
    "# created: 2024-01-01T00:00:00Z\n# public key: age1abc \nAGE-SECRET-KEY-1XYZ\n";

fn settings() -> Cli<String> {
    Cli {
        profile: Profile::Aws,
        recreate: false,
        registry_port: 5001,
        registry_ready_retries: 120,
        local_reconcile_timeout: "15m".to_string(),
        container_engine: None,
        git_repo_url: Some(URL.to_string()),
        github_token: Some("token".to_string()),
        github_user: "git".to_string(),
        age_key_file: "age.agekey".to_string(),
        age_public_key: None,
        oci_repository: "knr-ops".to_string(),
        oci_tag: "latest".to_string(),
    }
}

fn at(point: AwsPoint, reply: Answer) -> AwsTurn {
    preflight_aws(&settings(), point, &reply)
}

fn context(key: &str) -> AwsContext<String> {
    AwsContext {
        git_repo_url: URL.to_string(),
        github_user: "git".to_string(),
        github_token: "token".to_string(),
        age_key_file: "age.agekey".to_string(),
        age_pubkey: key.to_string(),
    }
}

#[test]
fn urls_name_repositories() {
    assert_eq!(github_repo("https://github.com/o/r"), Some("o/r"));
    assert_eq!(github_repo("https://github.com/o/r.git"), Some("o/r"));
    assert_eq!(github_repo("https://github.com/o/r.git.git//"), Some("o/r"));
    assert_eq!(github_repo("https://github.com/o/r/"), Some("o/r"));
    assert_eq!(github_repo("https://github.com/o/r/.git"), Some("o/r/"));
    assert_eq!(github_repo("https://github.com/o"), None);
    assert_eq!(github_repo("https://github.com/o/"), None);
    assert_eq!(github_repo("https://github.com/"), None);
    assert_eq!(github_repo("https://github.com"), None);
    assert_eq!(github_repo("http://github.com/o/r"), None);
    assert_eq!(github_repo("git@github.com:o/r.git"), None);
    assert_eq!(github_repo(""), None);
}

#[test]
fn slashes_and_git_at_the_end_of_a_url_do_not_matter() {
    for url in ["https://github.com/o/r", "https://github.com/o", "https://example.org/o/r"] {
        let plain = github_repo(url);
        assert_eq!(github_repo(&format!("{url}/")), plain);
        assert_eq!(github_repo(&format!("{url}///")), plain);
        assert_eq!(github_repo(&format!("{url}.git")), plain);
        assert_eq!(github_repo(&format!("{url}.git/")), plain);
    }
    assert_eq!(github_repo("https://github.com/o/r/.git"), Some("o/r/"));
}

#[test]
fn slashes_are_escaped_in_branches() {
    assert_eq!(escape("main"), "main");
    assert_eq!(escape("a/b//\u{e4}"), "a%2Fb%2F%2F\u{e4}");
    assert_eq!(escape(""), "");
}

#[test]
fn tokens_and_urls_are_required() {
    let mut cli = settings();
    cli.git_repo_url = Some("https://gitlab.com/o/r".to_string());
    assert_eq!(
        preflight_aws(&cli, AwsPoint::Start, &Reply::Begin),
        Turn::Fail(vec![], Failure::RepoUrlInvalid)
    );
    cli.git_repo_url = None;
    assert_eq!(
        preflight_aws(&cli, AwsPoint::Start, &Reply::Begin),
        Turn::Fail(vec![], Failure::RepoUrlMissing)
    );
    cli.github_token = None;
    assert_eq!(
        preflight_aws(&cli, AwsPoint::Start, &Reply::Begin),
        Turn::Fail(vec![], Failure::TokenMissing)
    );
}

#[test]
fn empty_tokens_and_urls_count_as_missing() {
    for url in [Some(URL.to_string()), Some(String::new()), None] {
        let mut cli = settings();
        cli.github_token = Some(String::new());
        cli.git_repo_url = url;
        for point in [
            AwsPoint::Start,
            AwsPoint::BranchFound,
            AwsPoint::KeyFileFound,
            AwsPoint::KeyFileRead,
        ] {
            assert_eq!(
                preflight_aws(&cli, point, &Reply::Begin),
                Turn::Fail(vec![], Failure::TokenMissing)
            );
        }
    }
    let mut cli = settings();
    cli.git_repo_url = Some(String::new());
    assert_eq!(
        preflight_aws(&cli, AwsPoint::Start, &Reply::Begin),
        Turn::Fail(vec![], Failure::RepoUrlMissing)
    );
}

#[test]
fn a_repository_may_have_more_than_one_slash() {
    assert_eq!(github_repo("https://github.com/o/r/x"), Some("o/r/x"));
}

#[test]
fn the_branch_is_requested() {
    assert_eq!(
        at(AwsPoint::Start, Reply::Begin),
        Turn::Ask(
            AwsPoint::BranchFound,
            vec![],
            Action::GetAuthorized {
                url: "https://api.github.com/repos/polarsquad/knr-ops/branches/main".to_string(),
                accept: "application/vnd.github+json".to_string(),
                authorization: "Bearer token".to_string(),
                limit: 10,
            }
        )
    );
    assert_eq!(
        at(AwsPoint::BranchFound, Reply::Status(Some(200))),
        Turn::Ask(AwsPoint::KeyFileFound, vec![], Action::CheckFile("age.agekey".to_string()))
    );
    for (answer, code) in [(Some(404), 404), (Some(201), 201), (None, 0)] {
        assert_eq!(
            at(AwsPoint::BranchFound, Reply::Status(answer)),
            Turn::Fail(vec![], Failure::BranchUnavailable { url: URL.to_string(), code })
        );
    }
    assert_eq!(
        at(AwsPoint::BranchFound, Reply::Done),
        Turn::Fail(vec![], Failure::UnexpectedReply)
    );
}

#[test]
fn the_key_file_is_read() {
    assert_eq!(
        at(AwsPoint::KeyFileFound, Reply::Found(false)),
        Turn::Fail(vec![], Failure::KeyFileMissing("age.agekey".to_string()))
    );
    assert_eq!(
        at(AwsPoint::KeyFileFound, Reply::Found(true)),
        Turn::Ask(AwsPoint::KeyFileRead, vec![], Action::ReadFile("age.agekey".to_string()))
    );
    assert_eq!(
        at(AwsPoint::KeyFileRead, Reply::Text(Err("denied".to_string()))),
        Turn::Fail(
            vec![],
            Failure::KeyFileUnreadable {
                path: "age.agekey".to_string(),
                cause: "denied".to_string(),
            }
        )
    );
    assert_eq!(
        at(AwsPoint::KeyFileRead, Reply::Text(Ok(KEY_FILE.to_string()))),
        Turn::Done(vec![], context("age1abc"))
    );
}

#[test]
fn fields_of_the_key_file_are_looked_for() {
    let missing =
        |created, public_key, secret_key| MissingFields { created, public_key, secret_key };
    assert_eq!(check_fields(KEY_FILE), missing(false, false, false));
    assert_eq!(check_fields(""), missing(true, true, true));
    assert_eq!(check_fields("# created:\r\n"), missing(false, true, true));
    assert_eq!(check_fields(" # created:\n#public key:\n"), missing(true, true, true));
    assert_eq!(check_fields("x\nAGE-SECRET-KEY-"), missing(true, true, false));
    assert_eq!(check_fields("# public key:k"), missing(true, false, true));
}

#[test]
fn only_valid_key_files_are_taken() {
    let mut cli = settings();
    cli.age_public_key = Some("age1set".to_string());
    assert_eq!(
        preflight_aws(
            &cli,
            AwsPoint::KeyFileRead,
            &Reply::Text(Ok("# public key: age1abc\n".to_string()))
        ),
        Turn::Fail(
            vec![],
            Failure::KeyFileInvalid {
                path: "age.agekey".to_string(),
                missing: MissingFields { created: true, public_key: false, secret_key: true },
            }
        )
    );
    assert_eq!(
        preflight_aws(&cli, AwsPoint::KeyFileRead, &Reply::Text(Ok(KEY_FILE.to_string()))),
        Turn::Done(vec![], context("age1set"))
    );
}

#[test]
fn the_first_comment_names_the_public_key() {
    assert_eq!(find_commented_key(KEY_FILE), Some("age1abc".to_string()));
    assert_eq!(
        find_commented_key("# public key:x\r\n# public key: \ty \r\n# public key: z"),
        Some("y".to_string())
    );
    assert_eq!(find_commented_key("# public key:  \n# public key: z\n"), None);
    assert_eq!(find_commented_key("public key: z"), None);
    assert_eq!(find_commented_key(""), None);
}

#[test]
fn the_settings_may_name_the_public_key() {
    let set = Some("age1set".to_string());
    assert_eq!(find_public_key(&set, KEY_FILE), set);
    assert_eq!(find_public_key(&set, ""), set);
    assert_eq!(find_public_key(&Some(String::new()), KEY_FILE), Some("age1abc".to_string()));
    assert_eq!(find_public_key(&None, ""), None);
    assert_eq!(
        at(
            AwsPoint::KeyFileRead,
            Reply::Text(Ok("# created: \n# public key:\nAGE-SECRET-KEY-1\n".to_string()))
        ),
        Turn::Fail(vec![], Failure::PublicKeyUnknown("age.agekey".to_string()))
    );
}
