//! The checks before a bootstrap on AWS: the GitHub repository and the age key file.

use crate::cli::{given, knob_ref, optional_text, Cli, CliModel};
use crate::failure::{Failure, MissingFields, GIT_BRANCH};
use crate::process::no_notes;
use crate::protocol::{Action, Reply, ReplyModel, Turn, TurnModel, HTTP_LIMIT};
use crate::text::{
    after_prefix, bare, blank, chars_of, contains, has_part, has_prefix, has_suffix,
    is_white_space, lemma_position_is_first, line_feeds_end_lines, lines, lines_are_put_together,
    occurs_at, position, prefixes_are_taken_off, repeated, split_lines, starts_with, strip_prefix,
    suffixes_are_taken_off_all, texts, trim, trim_end_matches, trimmed, trimming_leaves_the_inside,
    without_carriage_return, without_suffixes,
};
use vstd::prelude::*;

verus! {

/// What the checks have found out.
#[derive(Debug, PartialEq, Eq)]
#[verifier::ext_equal]
pub struct AwsContext<S> {
    pub git_repo_url: S,
    pub github_user: S,
    pub github_token: S,
    pub age_key_file: S,
    pub age_pubkey: S,
}

pub type AwsContextModel = AwsContext<Seq<char>>;

impl View for AwsContext<String> {
    type V = AwsContextModel;

    open spec fn view(&self) -> AwsContextModel {
        AwsContext {
            git_repo_url: self.git_repo_url@,
            github_user: self.github_user@,
            github_token: self.github_token@,
            age_key_file: self.age_key_file@,
            age_pubkey: self.age_pubkey@,
        }
    }
}

/// The model of an optional context.
pub open spec fn optional_context(aws: Option<AwsContext<String>>) -> Option<AwsContextModel> {
    match aws {
        Some(context) => Some(context@),
        None => None,
    }
}

/// What follows the host in a repository URL, without slashes and `.git` at its end.
pub open spec fn repository_path(rest: Seq<char>) -> Seq<char> {
    without_suffixes(without_suffixes(rest, "/"@), ".git"@)
}

/// The repository that an HTTPS GitHub URL names: what follows the host, without slashes and `.git`
/// at its end, wherever a slash is left in it. No more is asked of its form than that slash.
pub open spec fn repository(url: Seq<char>) -> Option<Seq<char>> {
    match after_prefix(url, "https://github.com/"@) {
        Some(rest) => if has_part(repository_path(rest), "/"@) {
            Some(repository_path(rest))
        } else {
            None
        },
        None => None,
    }
}

/// Finds the repository that an HTTPS GitHub URL names.
pub fn github_repo(url: &str) -> (r: Option<&str>)
    ensures
        match r {
            Some(repo) => repository(url@) == Some(repo@),
            None => repository(url@) is None,
        },
{
    match strip_prefix(url, "https://github.com/") {
        Some(rest) => {
            let repo = trim_end_matches(trim_end_matches(rest, "/"), ".git");
            if contains(repo, "/") {
                Some(repo)
            } else {
                None
            }
        },
        None => None,
    }
}

/// `text`, with each slash written as a URL path has it within a segment.
pub open spec fn escaped(text: Seq<char>) -> Seq<char>
    decreases text.len(),
{
    if text.len() == 0 {
        seq![]
    } else if text.last() == '/' {
        escaped(text.drop_last()) + "%2F"@
    } else {
        escaped(text.drop_last()).push(text.last())
    }
}

/// Writes each slash of `text` as a URL path has it within a segment.
pub fn escape(text: &str) -> (r: String)
    ensures
        r@ == escaped(text@),
{
    let chars = chars_of(text);
    let mut r = String::new();
    let mut i: usize = 0;
    while i < chars.len()
        invariant
            chars@ == text@,
            i <= chars@.len(),
            r@ == escaped(chars@.take(i as int)),
        decreases chars.len() - i,
    {
        assert(chars@.take(i + 1).drop_last() =~= chars@.take(i as int));
        if chars[i] == '/' {
            r.append("%2F");
        } else {
            r.append(text.substring_char(i, i + 1));
        }
        i = i + 1;
    }
    assert(chars@.take(i as int) =~= chars@);
    r
}

/// The page of the GitHub interface that tells about the branch.
pub open spec fn branch_page(repo: Seq<char>) -> Seq<char> {
    "https://api.github.com/repos/"@ + repo + "/branches/"@ + escaped(GIT_BRANCH@)
}

/// Tells whether a line of `text` starts with `prefix`.
pub open spec fn has_line(text: Seq<char>, prefix: Seq<char>) -> bool {
    exists|i: int| 0 <= i < lines(text).len() && has_prefix(#[trigger] lines(text)[i], prefix)
}

/// Tells whether one of `found` starts with `prefix`.
fn any_starts_with(found: &Vec<&str>, prefix: &str) -> (r: bool)
    ensures
        r == exists|i: int|
            0 <= i < texts(found@).len() && has_prefix(#[trigger] texts(found@)[i], prefix@),
{
    let mut i: usize = 0;
    while i < found.len()
        invariant
            i <= found@.len(),
            forall|j: int| 0 <= j < i ==> !has_prefix(#[trigger] texts(found@)[j], prefix@),
        decreases found.len() - i,
    {
        assert(texts(found@)[i as int] == found@[i as int]@);
        if starts_with(found[i], prefix) {
            return true;
        }
        i = i + 1;
    }
    false
}

/// The fields that an age key file with these contents lacks.
pub open spec fn missing_fields(contents: Seq<char>) -> MissingFields {
    MissingFields {
        created: !has_line(contents, "# created:"@),
        public_key: !has_line(contents, "# public key:"@),
        secret_key: !has_line(contents, "AGE-SECRET-KEY-"@),
    }
}

/// Tells whether nothing is missing.
pub open spec fn nothing_missing(missing: MissingFields) -> bool {
    !missing.created && !missing.public_key && !missing.secret_key
}

/// Finds the fields that an age key file with these contents lacks.
pub fn check_fields(contents: &str) -> (r: MissingFields)
    ensures
        r == missing_fields(contents@),
{
    let found = split_lines(contents);
    MissingFields {
        created: !any_starts_with(&found, "# created:"),
        public_key: !any_starts_with(&found, "# public key:"),
        secret_key: !any_starts_with(&found, "AGE-SECRET-KEY-"),
    }
}

/// What follows `prefix` in the first of `found` that starts with it.
pub open spec fn first_after(found: Seq<Seq<char>>, prefix: Seq<char>) -> Option<Seq<char>>
    decreases found.len(),
{
    if found.len() == 0 {
        None
    } else if has_prefix(found[0], prefix) {
        after_prefix(found[0], prefix)
    } else {
        first_after(found.skip(1), prefix)
    }
}

/// The public key in the comment of a key file with these contents.
pub open spec fn commented_key(contents: Seq<char>) -> Option<Seq<char>> {
    match first_after(lines(contents), "# public key: "@) {
        Some(rest) => if trimmed(rest).len() > 0 {
            Some(trimmed(rest))
        } else {
            None
        },
        None => None,
    }
}

/// Finds the public key in the comment of a key file with these contents.
pub fn find_commented_key(contents: &str) -> (r: Option<String>)
    ensures
        match r {
            Some(key) => commented_key(contents@) == Some(key@),
            None => commented_key(contents@) is None,
        },
{
    let found = split_lines(contents);
    let ghost all = texts(found@);
    let mut i: usize = 0;
    assert(all.skip(0) =~= all);
    while i < found.len()
        invariant
            all == texts(found@),
            all == lines(contents@),
            i <= found@.len(),
            first_after(all, "# public key: "@) == first_after(
                all.skip(i as int),
                "# public key: "@,
            ),
        decreases found.len() - i,
    {
        if let Some(rest) = strip_prefix(found[i], "# public key: ") {
            let key = trim(rest);
            return if key.is_empty() {
                None
            } else {
                Some(key.to_string())
            };
        }
        assert(all.skip(i as int).skip(1) =~= all.skip(i + 1));
        i = i + 1;
    }
    None
}

/// The public key of the run: the one in the settings, or the one in the key file.
pub open spec fn public_key(setting: Option<Seq<char>>, contents: Seq<char>) -> Option<Seq<char>> {
    match given(setting) {
        Some(key) => Some(key),
        None => commented_key(contents),
    }
}

/// Finds the public key of the run.
pub fn find_public_key(setting: &Option<String>, contents: &str) -> (r: Option<String>)
    ensures
        ({
            let key = public_key(optional_text(*setting), contents@);
            match r {
                Some(found) => key == Some(found@),
                None => key is None,
            }
        }),
{
    match knob_ref(setting) {
        Some(key) => Some(key.clone()),
        None => find_commented_key(contents),
    }
}

/// How far the checks have come.
#[derive(Copy, Clone, Debug, PartialEq, Eq, Structural)]
pub enum AwsPoint {
    Start,
    /// Asking GitHub for the branch.
    BranchFound,
    /// Looking for the key file.
    KeyFileFound,
    /// Reading the key file.
    KeyFileRead,
}

impl View for AwsPoint {
    type V = AwsPoint;

    open spec fn view(&self) -> AwsPoint {
        *self
    }
}

/// The end of the checks: the key file has these contents.
pub open spec fn key_file_turn(
    cli: CliModel,
    token: Seq<char>,
    url: Seq<char>,
    contents: Seq<char>,
) -> TurnModel<AwsPoint, AwsContextModel> {
    let missing = missing_fields(contents);
    if !nothing_missing(missing) {
        TurnModel::Fail(seq![], Failure::KeyFileInvalid { path: cli.age_key_file, missing })
    } else {
        match public_key(cli.age_public_key, contents) {
            Some(key) => TurnModel::Done(
                seq![],
                AwsContext {
                    git_repo_url: url,
                    github_user: cli.github_user,
                    github_token: token,
                    age_key_file: cli.age_key_file,
                    age_pubkey: key,
                },
            ),
            None => TurnModel::Fail(seq![], Failure::PublicKeyUnknown(cli.age_key_file)),
        }
    }
}

/// The checks for a token and the URL of a repository.
pub open spec fn repository_turn(
    cli: CliModel,
    token: Seq<char>,
    url: Seq<char>,
    repo: Seq<char>,
    at: AwsPoint,
    reply: ReplyModel,
) -> TurnModel<AwsPoint, AwsContextModel> {
    match (at, reply) {
        (AwsPoint::Start, _) => TurnModel::Ask(
            AwsPoint::BranchFound,
            seq![],
            Action::GetAuthorized {
                url: branch_page(repo),
                accept: "application/vnd.github+json"@,
                authorization: "Bearer "@ + token,
                limit: HTTP_LIMIT,
            },
        ),
        (AwsPoint::BranchFound, Reply::Status(Some(code))) => if code == 200 {
            TurnModel::Ask(AwsPoint::KeyFileFound, seq![], Action::CheckFile(cli.age_key_file))
        } else {
            TurnModel::Fail(seq![], Failure::BranchUnavailable { url, code })
        },
        (AwsPoint::BranchFound, Reply::Status(None)) => TurnModel::Fail(
            seq![],
            Failure::BranchUnavailable { url, code: 0 },
        ),
        (AwsPoint::KeyFileFound, Reply::Found(true)) => TurnModel::Ask(
            AwsPoint::KeyFileRead,
            seq![],
            Action::ReadFile(cli.age_key_file),
        ),
        (AwsPoint::KeyFileFound, Reply::Found(false)) => TurnModel::Fail(
            seq![],
            Failure::KeyFileMissing(cli.age_key_file),
        ),
        (AwsPoint::KeyFileRead, Reply::Text(Ok(contents))) => key_file_turn(
            cli,
            token,
            url,
            contents,
        ),
        (AwsPoint::KeyFileRead, Reply::Text(Err(cause))) => TurnModel::Fail(
            seq![],
            Failure::KeyFileUnreadable { path: cli.age_key_file, cause },
        ),
        _ => TurnModel::Fail(seq![], Failure::UnexpectedReply),
    }
}

/// The checks before a bootstrap on AWS: what follows at each point. An empty token or URL counts
/// as not set.
pub open spec fn aws_turn(cli: CliModel, at: AwsPoint, reply: ReplyModel) -> TurnModel<
    AwsPoint,
    AwsContextModel,
> {
    match (given(cli.github_token), given(cli.git_repo_url)) {
        (None, _) => TurnModel::Fail(seq![], Failure::TokenMissing),
        (Some(_), None) => TurnModel::Fail(seq![], Failure::RepoUrlMissing),
        (Some(token), Some(url)) => match repository(url) {
            Some(repo) => repository_turn(cli, token, url, repo, at, reply),
            None => TurnModel::Fail(seq![], Failure::RepoUrlInvalid),
        },
    }
}

fn check_key_file(cli: &Cli<String>, token: &String, url: &String, contents: &str) -> (r: Turn<
    AwsPoint,
    AwsContext<String>,
>)
    ensures
        r@ == key_file_turn(cli@, token@, url@, contents@),
{
    let missing = check_fields(contents);
    if missing.created || missing.public_key || missing.secret_key {
        return Turn::Fail(
            no_notes(),
            Failure::KeyFileInvalid { path: cli.age_key_file.clone(), missing },
        );
    }
    match find_public_key(&cli.age_public_key, contents) {
        Some(key) => Turn::Done(
            no_notes(),
            AwsContext {
                git_repo_url: url.clone(),
                github_user: cli.github_user.clone(),
                github_token: token.clone(),
                age_key_file: cli.age_key_file.clone(),
                age_pubkey: key,
            },
        ),
        None => Turn::Fail(no_notes(), Failure::PublicKeyUnknown(cli.age_key_file.clone())),
    }
}

fn check_repository(
    cli: &Cli<String>,
    token: &String,
    url: &String,
    repo: &str,
    at: AwsPoint,
    reply: &Reply<String, Vec<u8>>,
) -> (r: Turn<AwsPoint, AwsContext<String>>)
    ensures
        r@ == repository_turn(cli@, token@, url@, repo@, at, reply@),
{
    match (at, reply) {
        (AwsPoint::Start, _) => Turn::Ask(
            AwsPoint::BranchFound,
            no_notes(),
            Action::GetAuthorized {
                url: "https://api.github.com/repos/".to_string().concat(repo).concat(
                    "/branches/",
                ).concat(escape(GIT_BRANCH).as_str()),
                accept: "application/vnd.github+json".to_string(),
                authorization: "Bearer ".to_string().concat(token.as_str()),
                limit: HTTP_LIMIT,
            },
        ),
        (AwsPoint::BranchFound, Reply::Status(Some(code))) => if *code == 200 {
            Turn::Ask(
                AwsPoint::KeyFileFound,
                no_notes(),
                Action::CheckFile(cli.age_key_file.clone()),
            )
        } else {
            Turn::Fail(no_notes(), Failure::BranchUnavailable { url: url.clone(), code: *code })
        },
        (AwsPoint::BranchFound, Reply::Status(None)) => Turn::Fail(
            no_notes(),
            Failure::BranchUnavailable { url: url.clone(), code: 0 },
        ),
        (AwsPoint::KeyFileFound, Reply::Found(true)) => Turn::Ask(
            AwsPoint::KeyFileRead,
            no_notes(),
            Action::ReadFile(cli.age_key_file.clone()),
        ),
        (AwsPoint::KeyFileFound, Reply::Found(false)) => Turn::Fail(
            no_notes(),
            Failure::KeyFileMissing(cli.age_key_file.clone()),
        ),
        (AwsPoint::KeyFileRead, Reply::Text(Ok(contents))) => check_key_file(
            cli,
            token,
            url,
            contents.as_str(),
        ),
        (AwsPoint::KeyFileRead, Reply::Text(Err(cause))) => Turn::Fail(
            no_notes(),
            Failure::KeyFileUnreadable { path: cli.age_key_file.clone(), cause: cause.clone() },
        ),
        _ => Turn::Fail(no_notes(), Failure::UnexpectedReply),
    }
}

/// Checks the GitHub repository and the age key file: from the point that was reached and the
/// last answer to what follows.
pub fn preflight_aws(cli: &Cli<String>, at: AwsPoint, reply: &Reply<String, Vec<u8>>) -> (r: Turn<
    AwsPoint,
    AwsContext<String>,
>)
    ensures
        r@ == aws_turn(cli@, at, reply@),
{
    match (knob_ref(&cli.github_token), knob_ref(&cli.git_repo_url)) {
        (None, _) => Turn::Fail(no_notes(), Failure::TokenMissing),
        (Some(_), None) => Turn::Fail(no_notes(), Failure::RepoUrlMissing),
        (Some(token), Some(url)) => match github_repo(url.as_str()) {
            Some(repo) => check_repository(cli, token, url, repo, at, reply),
            None => Turn::Fail(no_notes(), Failure::RepoUrlInvalid),
        },
    }
}

proof fn lemma_one_more_suffix(text: Seq<char>, suffix: Seq<char>)
    ensures
        without_suffixes(text + suffix, suffix) == without_suffixes(text, suffix),
{
    let whole = text + suffix;
    assert(whole.skip(text.len() as int) =~= suffix);
    assert(whole.take(text.len() as int) =~= text);
}

/// Slashes at the end of a repository URL do not matter.
pub proof fn slashes_at_the_end_do_not_matter(url: Seq<char>)
    ensures
        repository(url + "/"@) == repository(url),
{
    let host = "https://github.com/"@;
    let whole = url + "/"@;
    reveal_strlit("https://github.com/");
    reveal_strlit("/");
    if url.len() >= host.len() {
        assert(whole.take(host.len() as int) =~= url.take(host.len() as int));
        let rest = url.skip(host.len() as int);
        assert(whole.skip(host.len() as int) =~= rest + "/"@);
        lemma_one_more_suffix(rest, "/"@);
    } else if has_prefix(whole, host) {
        let rest = whole.skip(host.len() as int);
        assert(repository_path(rest) =~= Seq::<char>::empty()) by {
            reveal_strlit(".git");
        }
    }
}

/// A `.git` at the end of a repository URL does not matter, unless a slash stands before it.
pub proof fn git_at_the_end_does_not_matter(url: Seq<char>)
    requires
        !has_suffix(url, "/"@),
    ensures
        repository(url + ".git"@) == repository(url),
{
    let host = "https://github.com/"@;
    let whole = url + ".git"@;
    reveal_strlit("https://github.com/");
    reveal_strlit("/");
    reveal_strlit(".git");
    if url.len() >= host.len() {
        assert(whole.take(host.len() as int) =~= url.take(host.len() as int));
        let rest = url.skip(host.len() as int);
        assert(whole.skip(host.len() as int) =~= rest + ".git"@);
        if has_suffix(rest, "/"@) {
            assert(url.skip(url.len() - 1) =~= rest.skip(rest.len() - 1));
        }
        assert("/"@[0] != 't');
        lemma_one_more_suffix(rest, ".git"@);
    } else if has_prefix(whole, host) {
        assert(whole.take(host.len() as int)[host.len() - 1] == whole[host.len() - 1]);
    }
}

/// The checks pass only with a key file that lacks none of its fields, even where the settings
/// name the public key themselves.
pub proof fn only_valid_key_files_pass(cli: CliModel, at: AwsPoint, reply: ReplyModel)
    ensures
        aws_turn(cli, at, reply) matches TurnModel::Done(_, aws) ==> {
            &&& reply matches Reply::Text(Ok(contents))
            &&& nothing_missing(missing_fields(contents))
            &&& public_key(cli.age_public_key, contents) == Some(aws.age_pubkey)
        },
{
}

/// A repository URL names all that follows the host, but for any `.git` and then any slashes at its
/// end; and nothing where no slash is left in it, or where it has another host.
pub proof fn urls_name_all_of_the_path(url: Seq<char>, path: Seq<char>, gits: nat, slashes: nat)
    requires
        !has_suffix(path, ".git"@),
        gits == 0 ==> !has_suffix(path, "/"@),
    ensures
        repository(
            "https://github.com/"@ + (path + repeated(".git"@, gits) + repeated("/"@, slashes)),
        ) == (if path.contains('/') {
            Some(path)
        } else {
            None
        }),
        (forall|rest: Seq<char>| url != #[trigger] ("https://github.com/"@ + rest)) ==> repository(
            url,
        ) is None,
{
    reveal_strlit("/");
    reveal_strlit(".git");
    let host = "https://github.com/"@;
    let stem = path + repeated(".git"@, gits);
    let rest = stem + repeated("/"@, slashes);
    prefixes_are_taken_off(host + rest, host, rest);
    if gits > 0 {
        assert(repeated(".git"@, gits).last() == 't');
        assert(stem.last() == 't');
        assert(stem.skip(stem.len() - 1)[0] == 't');
    } else {
        assert(stem =~= path);
    }
    assert("/"@[0] == '/');
    assert(!has_suffix(stem, "/"@));
    suffixes_are_taken_off_all(stem, "/"@, slashes);
    suffixes_are_taken_off_all(path, ".git"@, gits);
    if path.contains('/') {
        let at = choose|i: int| 0 <= i < path.len() && path[i] == '/';
        assert(path.subrange(at, at + 1) =~= "/"@);
        assert(occurs_at(path, "/"@, at));
    }
    if has_part(path, "/"@) {
        let at = choose|at: int| occurs_at(path, "/"@, at);
        assert(path.subrange(at, at + 1)[0] == path[at]);
        assert(path[at] == '/');
    }
    if has_prefix(url, host) {
        prefixes_are_taken_off(url, host, url.skip(host.len() as int));
        assert(url == host + url.skip(host.len() as int));
    }
}

/// Escaping goes character by character, and changes slashes alone.
pub proof fn slashes_alone_are_escaped(text: Seq<char>, c: char)
    ensures
        escaped(Seq::<char>::empty()) == Seq::<char>::empty(),
        escaped(text.push(c)) == escaped(text) + (if c == '/' {
            "%2F"@
        } else {
            seq![c]
        }),
{
    assert(text.push(c).drop_last() =~= text);
    assert(escaped(text) + seq![c] =~= escaped(text).push(c));
}

/// Tells whether `prefix` stands in `text` where a line starts.
pub open spec fn starts_some_line(text: Seq<char>, prefix: Seq<char>) -> bool {
    exists|at: int| #[trigger]
        occurs_at(text, prefix, at) && (at == 0 || text[at - 1] == '\n')
}

/// A line with a prefix is one where the prefix stands at the start of the text or right behind a
/// line feed.
#[verifier::spinoff_prover]
#[verifier::rlimit(50)]
pub proof fn lines_start_behind_line_feeds(text: Seq<char>, prefix: Seq<char>)
    requires
        prefix.len() > 0,
        !prefix.contains('\n'),
        prefix.last() != '\r',
    ensures
        has_line(text, prefix) <==> starts_some_line(text, prefix),
    decreases text.len(),
{
    let end = position(text, '\n') as int;
    lemma_position_is_first(text, '\n');
    if text.len() == 0 {
        assert(lines(text).len() == 0);
    } else if end >= text.len() {
        assert(lines(text)[0] == text);
        assert(text.subrange(0, prefix.len() as int) =~= text.take(prefix.len() as int));
        if has_line(text, prefix) {
            assert(occurs_at(text, prefix, 0));
        }
        if starts_some_line(text, prefix) {
            let at = choose|at: int| #[trigger]
                occurs_at(text, prefix, at) && (at == 0 || text[at - 1] == '\n');
            assert(at == 0);
        }
    } else {
        let raw = text.take(end);
        let first = without_carriage_return(raw);
        let rest = text.skip(end + 1);
        lines_start_behind_line_feeds(rest, prefix);
        assert(lines(text) =~= seq![first] + lines(rest));
        assert(lines(text)[0] == first);
        // The first line.
        if has_prefix(first, prefix) {
            assert(text.subrange(0, prefix.len() as int) =~= first.take(prefix.len() as int));
            assert(occurs_at(text, prefix, 0));
        }
        if occurs_at(text, prefix, 0) {
            let found = text.subrange(0, prefix.len() as int);
            if prefix.len() > end {
                assert(found[end] == '\n');
                assert(prefix.contains(prefix[end]));
            }
            assert(found.last() == text[prefix.len() - 1]);
            assert(prefix.len() <= first.len());
            assert(first.take(prefix.len() as int) =~= found);
        }
        // The others.
        if has_line(rest, prefix) {
            let at = choose|at: int| #[trigger]
                occurs_at(rest, prefix, at) && (at == 0 || rest[at - 1] == '\n');
            assert(text.subrange(at + end + 1, at + end + 1 + prefix.len()) =~= rest.subrange(
                at,
                at + prefix.len(),
            ));
            assert(occurs_at(text, prefix, at + end + 1));
            let i = choose|i: int|
                0 <= i < lines(rest).len() && has_prefix(#[trigger] lines(rest)[i], prefix);
            assert(lines(text)[i + 1] == lines(rest)[i]);
        }
        if has_line(text, prefix) {
            let i = choose|i: int|
                0 <= i < lines(text).len() && has_prefix(#[trigger] lines(text)[i], prefix);
            if i > 0 {
                assert(lines(rest)[i - 1] == lines(text)[i]);
            }
        }
        if starts_some_line(text, prefix) {
            let at = choose|at: int| #[trigger]
                occurs_at(text, prefix, at) && (at == 0 || text[at - 1] == '\n');
            if at > 0 {
                assert(at > end);
                let k = at - end - 1;
                assert(rest.subrange(k, k + prefix.len()) =~= text.subrange(at, at + prefix.len()));
                assert(occurs_at(rest, prefix, k));
            }
        }
    }
}

/// A field of a key file is missing exactly where its words start no line of the file.
pub proof fn fields_are_missing_where_no_line_has_them(contents: Seq<char>)
    ensures
        missing_fields(contents).created <==> !starts_some_line(contents, "# created:"@),
        missing_fields(contents).public_key <==> !starts_some_line(contents, "# public key:"@),
        missing_fields(contents).secret_key <==> !starts_some_line(contents, "AGE-SECRET-KEY-"@),
{
    reveal_strlit("# created:");
    reveal_strlit("# public key:");
    reveal_strlit("AGE-SECRET-KEY-");
    assert("# created:"@.last() == ':');
    assert("# public key:"@.last() == ':');
    assert("AGE-SECRET-KEY-"@.last() == '-');
    lines_start_behind_line_feeds(contents, "# created:"@);
    lines_start_behind_line_feeds(contents, "# public key:"@);
    lines_start_behind_line_feeds(contents, "AGE-SECRET-KEY-"@);
}

proof fn lemma_first_after(before: Seq<Seq<char>>, rest: Seq<Seq<char>>, prefix: Seq<char>)
    requires
        forall|i: int| 0 <= i < before.len() ==> !has_prefix(#[trigger] before[i], prefix),
    ensures
        first_after(before + rest, prefix) == first_after(rest, prefix),
    decreases before.len(),
{
    if before.len() == 0 {
        assert(before + rest =~= rest);
    } else {
        assert((before + rest)[0] == before[0]);
        assert((before + rest).skip(1) =~= before.skip(1) + rest);
        lemma_first_after(before.skip(1), rest, prefix);
    }
}

/// The public key is all of what the first comment about it says, of whatever length, without the
/// white space around it; and there is none where that comment says nothing, or where there is no
/// such comment.
#[verifier::spinoff_prover]
#[verifier::rlimit(50)]
pub proof fn the_first_comment_is_the_key(
    before: Seq<char>,
    left: Seq<char>,
    key: Seq<char>,
    right: Seq<char>,
    after: Seq<char>,
)
    requires
        before.len() > 0 ==> before.last() == '\n',
        !starts_some_line(before, "# public key: "@),
        blank(left) && !left.contains('\n'),
        bare(key) && !key.contains('\n'),
        blank(right) && !right.contains('\n'),
        after.len() > 0 ==> after[0] == '\n',
    ensures
        commented_key(before + ("# public key: "@ + left + key + right + after)) == (if key.len()
            > 0 {
            Some(key)
        } else {
            None
        }),
        commented_key(before) is None,
{
    reveal_strlit("# public key: ");
    let prefix = "# public key: "@;
    assert(prefix.last() == ' ');
    lines_start_behind_line_feeds(before, prefix);
    assert forall|i: int| 0 <= i < lines(before).len() implies !has_prefix(
        #[trigger] lines(before)[i],
        prefix,
    ) by {}
    assert(first_after(lines(before), prefix) is None) by {
        lemma_first_after(lines(before), seq![], prefix);
        assert(lines(before) + Seq::<Seq<char>>::empty() =~= lines(before));
    }
    let said = left + key + right;
    let line = prefix + said;
    let tail = "# public key: "@ + left + key + right + after;
    assert(tail =~= line + after);
    assert(!line.contains('\n')) by {
        assert forall|i: int| 0 <= i < line.len() implies line[i] != '\n' by {
            if i < prefix.len() {
                assert(line[i] == prefix[i]);
            } else if i < prefix.len() + left.len() {
                assert(left.contains(left[i - prefix.len()]));
            } else if i < prefix.len() + left.len() + key.len() {
                assert(key.contains(key[i - prefix.len() - left.len()]));
            } else {
                assert(right.contains(right[i - prefix.len() - left.len() - key.len()]));
            }
        }
    }
    lines_are_put_together(before, tail);
    lemma_first_after(lines(before), lines(tail), prefix);
    // The line as it is found: without a carriage return at its end.
    let ended = after.len() > 0 && line.last() == '\r';
    let found = if ended {
        line.drop_last()
    } else {
        line
    };
    if after.len() > 0 {
        assert(tail =~= line + seq!['\n'] + after.skip(1));
        line_feeds_end_lines(line, after.skip(1));
    } else {
        assert(tail =~= line);
        line_feeds_end_lines(line, seq![]);
    }
    assert(lines(tail)[0] == found);
    assert(is_white_space('\r'));
    if ended {
        assert(said.len() > 0);
        assert(said.last() == '\r');
        if right.len() > 0 {
            assert(said.drop_last() =~= left + key + right.drop_last());
            assert(found =~= prefix + (left + key + right.drop_last()));
            trimming_leaves_the_inside(left, key, right.drop_last());
            prefixes_are_taken_off(found, prefix, left + key + right.drop_last());
        } else if key.len() > 0 {
            assert(said.last() == key.last());
        } else {
            assert(said.drop_last() =~= left.drop_last() + key + right);
            assert(found =~= prefix + (left.drop_last() + key + right));
            trimming_leaves_the_inside(left.drop_last(), key, right);
            prefixes_are_taken_off(found, prefix, left.drop_last() + key + right);
        }
    } else {
        trimming_leaves_the_inside(left, key, right);
        prefixes_are_taken_off(found, prefix, said);
    }
}

/// A public key in the settings is used whole and as it is; without one, the key file decides
/// alone.
pub proof fn a_key_in_the_settings_is_used(key: Seq<char>, contents: Seq<char>)
    ensures
        key.len() > 0 ==> public_key(Some(key), contents) == Some(key),
        public_key(Some(Seq::<char>::empty()), contents) == commented_key(contents),
        public_key(None, contents) == commented_key(contents),
{
}

/// A context for AWS is modelled as it is.
pub proof fn contexts_are_modelled_as_they_are(aws: AwsContext<String>)
    ensures
        aws@.git_repo_url == aws.git_repo_url@,
        aws@.github_user == aws.github_user@,
        aws@.github_token == aws.github_token@,
        aws@.age_key_file == aws.age_key_file@,
        aws@.age_pubkey == aws.age_pubkey@,
        optional_context(Some(aws)) == Some(aws@),
        optional_context(None) is None,
{
}

} // verus!
