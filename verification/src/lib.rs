//! Enumerates the repositories of a GitHub user or organisation and plans
//! their concurrent cloning.
//!
//! The library decides; it performs no input or output. Whoever drives it
//! sends the requests and starts the processes that the library asks for, and
//! hands back what came of them.

pub mod client;
pub mod config;
pub mod config_error;
pub mod dispatch;

use crate::client::github::{
    authorization_text, base_url_text, header_value_accepted, text_of, GitHubUserType,
    GithubClient, PathParams, PathParamsBuilder, PathParamsView,
};
use crate::client::github_error::{ApiError, ApiErrorView};
use crate::client::models::{Commit, Repo};
use crate::config::CommandLineArgs;
use crate::dispatch::{clone_urls, CloneDispatcher, DispatchView, DEFAULT_CONCURRENCY};
use vstd::prelude::*;
use vstd::string::*;

verus! {

/// The name under which the tool presents itself to the API.
pub const APP_USER_AGENT: &'static str = "reapclone/0.1.0";

/// An optional string as an optional slice of it.
fn as_slice(s: &Option<String>) -> (slice: Option<&str>)
    ensures
        crate::client::github::slice_text(slice) == text_of(*s),
{
    match s {
        Some(s) => Some(s.as_str()),
        None => None,
    }
}

/// The client configuration that the arguments ask for: their credential,
/// host and port, under the tool's own name. Fails if and only if the
/// credential cannot stand in a header.
pub fn client(cli_args: &CommandLineArgs) -> (r: Result<GithubClient, ApiError>)
    ensures
        r is Ok <==> (cli_args.github_token matches Some(t) ==> header_value_accepted(
            authorization_text(t@),
        )),
        r matches Ok(client) ==> {
            &&& client.wf()
            &&& client.base_url@ == base_url_text(text_of(cli_args.host), text_of(cli_args.port))
            &&& client.user_agent@ == APP_USER_AGENT@
            &&& text_of(client.authorization) == match cli_args.github_token {
                Some(t) => Some(authorization_text(t@)),
                None => None,
            }
        },
        r matches Err(e) ==> e@ == ApiErrorView::Transport("failed to parse header value"@),
{
    GithubClient::new(
        as_slice(&cli_args.github_token),
        APP_USER_AGENT,
        as_slice(&cli_args.host),
        as_slice(&cli_args.port),
    )
}

/// The parameters of the listing of the repositories of the account
/// `owner`, which is of the kind `user_type`, for requests of `client`.
pub fn repository_listing_params(
    client: &GithubClient,
    owner: &str,
    user_type: GitHubUserType,
) -> (p: PathParams)
    ensures
        p@ == (PathParamsView {
            base_url: client.base_url@,
            owner: Some(owner@),
            repo: None,
            user_type: Some(user_type),
        }),
{
    PathParamsBuilder::new().base_url(client.base_url.as_str()).owner(owner).user_type(
        user_type,
    ).build()
}

/// The directory to clone into: the one the arguments name, or the current
/// directory.
pub fn output_directory(cli_args: &CommandLineArgs) -> (directory: String)
    ensures
        directory@ == match cli_args.output_directory {
            Some(d) => d@,
            None => "./"@,
        },
{
    match &cli_args.output_directory {
        Some(d) => d.clone(),
        None => String::from_str("./"),
    }
}

/// How many clones may run at once: as many as the arguments say, or
/// `DEFAULT_CONCURRENCY`.
pub fn concurrency_limit(cli_args: &CommandLineArgs) -> (limit: u32)
    ensures
        limit == match cli_args.concurrency_limit {
            Some(n) => n,
            None => DEFAULT_CONCURRENCY,
        },
{
    match cli_args.concurrency_limit {
        Some(n) => n,
        None => DEFAULT_CONCURRENCY,
    }
}

/// Whether a repository is cloned: every one is, but the archived ones
/// where they are to be ignored.
pub open spec fn wanted(ignore_archived: bool) -> spec_fn(Repo) -> bool {
    |repo: Repo| !(ignore_archived && repo.archived)
}

/// The repositories to clone among `repos`, in their order.
pub fn repositories_to_clone(repos: &Vec<Repo>, ignore_archived: bool) -> (kept: Vec<Repo>)
    ensures
        kept@ == repos@.filter(wanted(ignore_archived)),
{
    let mut kept: Vec<Repo> = Vec::new();
    let mut i: usize = 0;
    while i < repos.len()
        invariant
            i <= repos.len(),
            kept@ == repos@.take(i as int).filter(wanted(ignore_archived)),
        decreases repos.len() - i,
    {
        proof {
            assert(repos@.take(i + 1).drop_last() =~= repos@.take(i as int));
            reveal(Seq::filter);
        }
        if !(ignore_archived && repos[i].archived) {
            kept.push(repos[i].clone());
        }
        i = i + 1;
    }
    assert(repos@.take(i as int) =~= repos@);
    kept
}

/// The dispatcher for a clone of the account's repositories `repos`: it
/// clones those that the arguments want, into the directory and under the
/// limit that they name.
pub fn clone(cli_args: &CommandLineArgs, repos: &Vec<Repo>) -> (dispatcher: CloneDispatcher)
    ensures
        dispatcher@ == DispatchView::initial(
            clone_urls(repos@.filter(wanted(cli_args.ignore_archived))),
            match cli_args.output_directory {
                Some(d) => d@,
                None => "./"@,
            },
            match cli_args.concurrency_limit {
                Some(n) => n as nat,
                None => DEFAULT_CONCURRENCY as nat,
            },
        ),
{
    let kept = repositories_to_clone(repos, cli_args.ignore_archived);
    CloneDispatcher::new(kept, output_directory(cli_args), concurrency_limit(cli_args))
}

/// The line that names the author of a commit: the login of the account
/// that the commit is attributed to, a comma, and the e-mail address that
/// the commit itself records, if it records one. A commit that is
/// attributed to no account has no line.
pub open spec fn author_line_text(commit: Commit) -> Option<Seq<char>> {
    match commit.author {
        Some(author) => Some(
            match commit.commit.author {
                Some(git_user) => author.login@ + ","@ + git_user.email@,
                None => author.login@ + ","@,
            },
        ),
        None => None,
    }
}

/// The lines that name the authors of `commits`, in the order of the
/// commits.
pub open spec fn author_lines_text(commits: Seq<Commit>) -> Seq<Seq<char>>
    decreases commits.len(),
{
    if commits.len() == 0 {
        Seq::empty()
    } else {
        let before = author_lines_text(commits.drop_last());
        match author_line_text(commits.last()) {
            Some(line) => before.push(line),
            None => before,
        }
    }
}

/// The line that names the author of a commit. See `author_line_text`.
pub fn author_line(commit: &Commit) -> (line: Option<String>)
    ensures
        text_of(line) == author_line_text(*commit),
{
    match &commit.author {
        Some(author) => {
            let mut line = author.login.clone();
            line.append(",");
            match &commit.commit.author {
                Some(git_user) => {
                    line.append(git_user.email.as_str());
                },
                None => {},
            }
            Some(line)
        },
        None => None,
    }
}

/// The lines that name the authors of `commits`, in the order of the
/// commits.
pub fn author_lines(commits: &Vec<Commit>) -> (lines: Vec<String>)
    ensures
        lines.deep_view() == author_lines_text(commits@),
{
    let mut lines: Vec<String> = Vec::new();
    let mut i: usize = 0;
    assert(lines.deep_view() =~= author_lines_text(commits@.take(0)));
    while i < commits.len()
        invariant
            i <= commits.len(),
            lines.deep_view() == author_lines_text(commits@.take(i as int)),
        decreases commits.len() - i,
    {
        let ghost before = lines.deep_view();
        assert(commits@.take(i + 1).drop_last() =~= commits@.take(i as int));
        match author_line(&commits[i]) {
            Some(line) => {
                lines.push(line);
                assert(lines.deep_view() =~= before.push(line@));
            },
            None => {},
        }
        i = i + 1;
    }
    assert(commits@.take(i as int) =~= commits@);
    lines
}

} // verus!
