//! The client's configuration and the parameters that shape a request.

use crate::client::account::{OrgTypeProbe, ProbeView};
use crate::client::github_error::{ApiError, ApiErrorView};
use crate::client::listing::{ListAll, ListingView};
use crate::client::models::Repo;
use crate::client::page::{page_request, request_page, request_view};
use crate::dispatch::{clone_command, CloneCommand};
use vstd::prelude::*;
use vstd::string::*;

verus! {

/// The listings that the API offers.
#[derive(Clone, Copy, Debug, PartialEq, Eq, Structural)]
pub enum ApiEndpoints {
    ListCommits,
    ListRepos,
    ListBranches,
}

/// The two kinds of account that own repositories.
#[derive(Clone, Copy, Debug, PartialEq, Eq, Structural)]
pub enum GitHubUserType {
    User,
    Organisation,
}

/// A field of the path parameters that an endpoint may need.
#[derive(Clone, Copy, Debug, PartialEq, Eq, Structural)]
pub enum PathField {
    Owner,
    Repo,
    UserType,
}

impl ApiEndpoints {
    /// Whether a request to this endpoint cannot be formed without `field`.
    pub open spec fn requires_field(self, field: PathField) -> bool {
        match self {
            ApiEndpoints::ListRepos => field == PathField::UserType || field == PathField::Owner,
            ApiEndpoints::ListCommits => field == PathField::Owner || field == PathField::Repo,
            ApiEndpoints::ListBranches => field == PathField::Owner || field == PathField::Repo,
        }
    }
}

/// What shapes the path of a request, as plain text.
pub ghost struct PathParamsView {
    pub base_url: Seq<char>,
    pub owner: Option<Seq<char>>,
    pub repo: Option<Seq<char>>,
    pub user_type: Option<GitHubUserType>,
}

impl PathParamsView {
    /// Whether `field` has a value.
    pub open spec fn has_field(self, field: PathField) -> bool {
        match field {
            PathField::Owner => self.owner.is_some(),
            PathField::Repo => self.repo.is_some(),
            PathField::UserType => self.user_type.is_some(),
        }
    }
}

/// The text of an optional string.
pub open spec fn text_of(s: Option<String>) -> Option<Seq<char>> {
    match s {
        Some(s) => Some(s@),
        None => None,
    }
}

/// What shapes the path of a request. Each request builds its own.
#[derive(Debug, PartialEq, Eq)]
pub struct PathParams {
    pub base_url: String,
    pub owner: Option<String>,
    pub repo: Option<String>,
    pub user_type: Option<GitHubUserType>,
}

impl Clone for PathParams {
    fn clone(&self) -> (params: PathParams)
        ensures
            params == *self,
    {
        PathParams {
            base_url: self.base_url.clone(),
            owner: match &self.owner {
                Some(owner) => Some(owner.clone()),
                None => None,
            },
            repo: match &self.repo {
                Some(repo) => Some(repo.clone()),
                None => None,
            },
            user_type: self.user_type,
        }
    }
}

impl View for PathParams {
    type V = PathParamsView;

    open spec fn view(&self) -> PathParamsView {
        PathParamsView {
            base_url: self.base_url@,
            owner: text_of(self.owner),
            repo: text_of(self.repo),
            user_type: self.user_type,
        }
    }
}

/// Collects path parameters field by field.
#[derive(Clone, Debug, PartialEq, Eq)]
pub struct PathParamsBuilder {
    pub base_url: String,
    pub owner: Option<String>,
    pub repo: Option<String>,
    pub user_type: Option<GitHubUserType>,
}

impl View for PathParamsBuilder {
    type V = PathParamsView;

    open spec fn view(&self) -> PathParamsView {
        PathParamsView {
            base_url: self.base_url@,
            owner: text_of(self.owner),
            repo: text_of(self.repo),
            user_type: self.user_type,
        }
    }
}

impl PathParamsBuilder {
    /// A builder with an empty base URL and no other field set.
    pub fn new() -> (b: PathParamsBuilder)
        ensures
            b@ == (PathParamsView {
                base_url: Seq::<char>::empty(),
                owner: None,
                repo: None,
                user_type: None,
            }),
    {
        PathParamsBuilder { base_url: String::new(), owner: None, repo: None, user_type: None }
    }

    pub fn base_url(self, base_url: &str) -> (b: PathParamsBuilder)
        ensures
            b@ == (PathParamsView { base_url: base_url@, ..self@ }),
    {
        PathParamsBuilder {
            base_url: base_url.to_owned(),
            owner: self.owner,
            repo: self.repo,
            user_type: self.user_type,
        }
    }

    pub fn owner(self, owner: &str) -> (b: PathParamsBuilder)
        ensures
            b@ == (PathParamsView { owner: Some(owner@), ..self@ }),
    {
        PathParamsBuilder {
            base_url: self.base_url,
            owner: Some(owner.to_owned()),
            repo: self.repo,
            user_type: self.user_type,
        }
    }

    pub fn repo(self, repo: &str) -> (b: PathParamsBuilder)
        ensures
            b@ == (PathParamsView { repo: Some(repo@), ..self@ }),
    {
        PathParamsBuilder {
            base_url: self.base_url,
            owner: self.owner,
            repo: Some(repo.to_owned()),
            user_type: self.user_type,
        }
    }

    pub fn user_type(self, user_type: GitHubUserType) -> (b: PathParamsBuilder)
        ensures
            b@ == (PathParamsView { user_type: Some(user_type), ..self@ }),
    {
        PathParamsBuilder {
            base_url: self.base_url,
            owner: self.owner,
            repo: self.repo,
            user_type: Some(user_type),
        }
    }

    /// The parameters collected so far.
    pub fn build(self) -> (p: PathParams)
        ensures
            p@ == self@,
    {
        PathParams {
            base_url: self.base_url,
            owner: self.owner,
            repo: self.repo,
            user_type: self.user_type,
        }
    }
}

/// Whether an HTTP header value may hold this character: any but the
/// control characters, of which only the tab is let through.
pub open spec fn header_char_accepted(c: char) -> bool {
    (c as u32 >= 32 && c as u32 != 127) || c == '\t'
}

/// Whether a text can stand as the value of an HTTP header.
pub open spec fn header_value_accepted(s: Seq<char>) -> bool {
    forall|i: int| 0 <= i < s.len() ==> header_char_accepted(#[trigger] s[i])
}

/// Calls `reqwest::header::HeaderValue::from_str` (the `http` crate's) and
/// keeps only whether it accepted the text. It accepts a text unless one of
/// its bytes is a control character other than the tab; the bytes of a
/// character beyond ASCII are all accepted. Its error always reads the same.
#[verifier::external_body]
fn check_header_value(value: &str) -> (r: Result<(), String>)
    ensures
        r is Ok <==> header_value_accepted(value@),
        r matches Err(words) ==> words@ == "failed to parse header value"@,
{
    match reqwest::header::HeaderValue::from_str(value) {
        Ok(_) => Ok(()),
        Err(e) => Err(e.to_string()),
    }
}

/// The text of an optional string slice.
pub open spec fn slice_text(s: Option<&str>) -> Option<Seq<char>> {
    match s {
        Some(s) => Some(s@),
        None => None,
    }
}

/// The root of every request: the public API host, or, for another host,
/// that host with the path under which an enterprise installation serves
/// its API. A port, where one is given, follows the host.
pub open spec fn base_url_text(host: Option<Seq<char>>, port: Option<Seq<char>>) -> Seq<char> {
    let host_text = match host {
        Some(h) => h,
        None => "api.github.com"@,
    };
    let port_text = match port {
        Some(p) => ":"@ + p,
        None => Seq::<char>::empty(),
    };
    let path_text = match host {
        Some(_) => "/api/v3"@,
        None => Seq::<char>::empty(),
    };
    "https://"@ + host_text + port_text + path_text
}

/// The value of the authorization header for a token.
pub open spec fn authorization_text(token: Seq<char>) -> Seq<char> {
    "token "@ + token
}

/// The root of every request. See `base_url_text`.
pub fn api_base_url(host: Option<&str>, port: Option<&str>) -> (url: String)
    ensures
        url@ == base_url_text(slice_text(host), slice_text(port)),
{
    let mut url = String::from_str("https://");
    match host {
        Some(h) => url.append(h),
        None => url.append("api.github.com"),
    }
    let ghost with_host = url@;
    match port {
        Some(p) => {
            url.append(":");
            url.append(p);
            assert(url@ =~= with_host + (":"@ + p@));
        },
        None => {
            assert(url@ =~= with_host + Seq::<char>::empty());
        },
    }
    let ghost with_port = url@;
    match host {
        Some(_) => url.append("/api/v3"),
        None => {
            assert(url@ =~= with_port + Seq::<char>::empty());
        },
    }
    url
}

/// What every request of one run has in common. It does not change once it
/// is made, so any number of requests may read it.
#[derive(Clone, Debug, PartialEq, Eq)]
pub struct GithubClient {
    /// The name under which the tool presents itself.
    pub user_agent: String,
    /// The value of the authorization header, where a credential was given.
    pub authorization: Option<String>,
    pub base_url: String,
}

impl GithubClient {
    /// The authorization header, where there is one, is fit to be sent.
    pub open spec fn wf(&self) -> bool {
        self.authorization matches Some(value) ==> header_value_accepted(value@)
    }

    /// The configuration for a credential, a user agent, a host and a port.
    /// Fails if and only if the credential cannot stand in a header.
    pub fn new(
        auth_token: Option<&str>,
        user_agent: &str,
        host: Option<&str>,
        port: Option<&str>,
    ) -> (r: Result<GithubClient, ApiError>)
        ensures
            r is Ok <==> (auth_token matches Some(t) ==> header_value_accepted(
                authorization_text(t@),
            )),
            r matches Ok(client) ==> {
                &&& client.wf()
                &&& client.base_url@ == base_url_text(slice_text(host), slice_text(port))
                &&& client.user_agent@ == user_agent@
                &&& text_of(client.authorization) == match auth_token {
                    Some(t) => Some(authorization_text(t@)),
                    None => None,
                }
            },
            r matches Err(e) ==> e@ == ApiErrorView::Transport("failed to parse header value"@),
    {
        let base_url = api_base_url(host, port);
        match auth_token {
            Some(t) => {
                let mut value = String::from_str("token ");
                value.append(t);
                match check_header_value(value.as_str()) {
                    Ok(()) => Ok(
                        GithubClient {
                            user_agent: user_agent.to_owned(),
                            authorization: Some(value),
                            base_url,
                        },
                    ),
                    Err(words) => Err(ApiError::Transport(words)),
                }
            },
            None => Ok(
                GithubClient { user_agent: user_agent.to_owned(), authorization: None, base_url },
            ),
        }
    }

    /// Starts the search for the kind of the account `org`: whether it is
    /// an organisation or a user.
    pub fn determine_org_type(&self, org: &str) -> (probe: OrgTypeProbe)
        ensures
            probe@ == ProbeView::initial(self.base_url@, org@),
    {
        OrgTypeProbe::new(self.base_url.as_str(), org)
    }

    /// The address to send for one page of a listing, or why there is
    /// none: a missing parameter comes back as the routing error, an address
    /// that cannot be parsed as a failure with the words of the refusal.
    /// The page defaults to the first and its size to `DEFAULT_PER_PAGE`.
    /// Nothing is sent.
    pub fn generic_list_api(
        &self,
        api_endpoint: &ApiEndpoints,
        params: &PathParams,
        page: Option<u32>,
        per_page: Option<u32>,
    ) -> (r: Result<String, ApiError>)
        ensures
            request_view(r) == page_request(*api_endpoint, params@, page, per_page),
    {
        request_page(api_endpoint, params, page, per_page)
    }

    /// The command that clones `repo`, from its SSH address, inside
    /// `directory`.
    pub fn clone_repo(repo: &Repo, directory: String) -> (command: CloneCommand)
        ensures
            command.clones(repo.ssh_url@, directory@),
    {
        clone_command(repo, directory.as_str())
    }

    /// Starts a walk through all pages of the listing that `api_endpoint`
    /// and `params` name, below `max_pages` where one is given.
    pub fn generic_list_all_api<T>(
        &self,
        api_endpoint: &ApiEndpoints,
        params: &PathParams,
        max_pages: Option<u32>,
    ) -> (listing: ListAll<T>)
        ensures
            listing@ == ListingView::<T>::initial(*api_endpoint, params@, max_pages),
    {
        ListAll::new(*api_endpoint, params.clone(), max_pages)
    }
}

} // verus!
