//! The errors of the API layer.

use crate::client::url::RoutingError;
use vstd::prelude::*;
use vstd::string::*;

verus! {

/// A failure that the API reports about the resource that was asked for.
#[derive(Clone, Copy, Debug, PartialEq, Eq, Structural)]
pub enum GitHubErrorKind {
    /// The credential is missing, wrong or not sufficient.
    Unauthorized,
    /// No such resource or account.
    NotFound,
}

impl GitHubErrorKind {
    /// The words that describe this kind to a user.
    pub open spec fn text(self) -> Seq<char> {
        match self {
            GitHubErrorKind::Unauthorized => "unauthorized"@,
            GitHubErrorKind::NotFound => "not found"@,
        }
    }

    pub fn as_str(&self) -> (s: &'static str)
        ensures
            s@ == self.text(),
    {
        match *self {
            GitHubErrorKind::Unauthorized => "unauthorized",
            GitHubErrorKind::NotFound => "not found",
        }
    }
}

/// A failure reported by the API, with its kind.
#[derive(Clone, Copy, Debug, PartialEq, Eq, Structural)]
pub struct GitHubError {
    pub kind: GitHubErrorKind,
}

impl GitHubError {
    pub fn new(kind: GitHubErrorKind) -> (e: GitHubError)
        ensures
            e.kind == kind,
    {
        GitHubError { kind }
    }

    /// The line shown to a user for this error.
    pub open spec fn text(self) -> Seq<char> {
        "GitHubError: "@ + self.kind.text()
    }

    /// The line shown to a user for this error.
    pub fn message(&self) -> (s: String)
        ensures
            s@ == self.text(),
    {
        let mut s = String::from_str("GitHubError: ");
        s.append(self.kind.as_str());
        s
    }
}

/// Why a request to the API came to nothing.
#[derive(Clone, Debug, PartialEq, Eq)]
pub enum ApiError {
    /// No such resource or account.
    NotFound,
    /// The credential is missing, wrong or not sufficient.
    Unauthorized,
    /// The request could not be made, or the answer was not of the expected
    /// shape. Holds the words of the underlying failure.
    Transport(String),
    /// No request could be formed. Nothing was sent.
    Routing(RoutingError),
}

/// An `ApiError` with the words it holds as plain text.
pub ghost enum ApiErrorView {
    NotFound,
    Unauthorized,
    Transport(Seq<char>),
    Routing(RoutingError),
}

impl View for ApiError {
    type V = ApiErrorView;

    open spec fn view(&self) -> ApiErrorView {
        match *self {
            ApiError::NotFound => ApiErrorView::NotFound,
            ApiError::Unauthorized => ApiErrorView::Unauthorized,
            ApiError::Transport(words) => ApiErrorView::Transport(words@),
            ApiError::Routing(e) => ApiErrorView::Routing(e),
        }
    }
}

impl ApiError {
    /// The failure that the API reported, if it reported one.
    pub open spec fn github_kind(self) -> Option<GitHubErrorKind> {
        match self {
            ApiError::NotFound => Some(GitHubErrorKind::NotFound),
            ApiError::Unauthorized => Some(GitHubErrorKind::Unauthorized),
            ApiError::Transport(_) => None,
            ApiError::Routing(_) => None,
        }
    }

    /// The line shown to a user for this error.
    pub open spec fn text(self) -> Seq<char> {
        match self {
            ApiError::NotFound => (GitHubError { kind: GitHubErrorKind::NotFound }).text(),
            ApiError::Unauthorized => (GitHubError { kind: GitHubErrorKind::Unauthorized }).text(),
            ApiError::Transport(words) => words@,
            ApiError::Routing(e) => "RoutingError: "@ + e.text(),
        }
    }

    /// The failure that the API reported, if it reported one.
    pub fn kind(&self) -> (k: Option<GitHubErrorKind>)
        ensures
            k == self.github_kind(),
    {
        match self {
            ApiError::NotFound => Some(GitHubErrorKind::NotFound),
            ApiError::Unauthorized => Some(GitHubErrorKind::Unauthorized),
            ApiError::Transport(_) => None,
            ApiError::Routing(_) => None,
        }
    }

    /// The line shown to a user for this error: that of the reported failure
    /// or of the routing error, or the words of the underlying failure.
    pub fn message(&self) -> (s: String)
        ensures
            s@ == self.text(),
    {
        match self {
            ApiError::NotFound => GitHubError::new(GitHubErrorKind::NotFound).message(),
            ApiError::Unauthorized => GitHubError::new(GitHubErrorKind::Unauthorized).message(),
            ApiError::Transport(words) => words.clone(),
            ApiError::Routing(e) => {
                let mut s = String::from_str("RoutingError: ");
                s.append(e.as_str());
                s
            },
        }
    }
}

impl From<GitHubError> for ApiError {
    fn from(e: GitHubError) -> (r: ApiError) {
        match e.kind {
            GitHubErrorKind::NotFound => ApiError::NotFound,
            GitHubErrorKind::Unauthorized => ApiError::Unauthorized,
        }
    }
}

impl vstd::std_specs::convert::FromSpecImpl<GitHubError> for ApiError {
    open spec fn obeys_from_spec() -> bool {
        true
    }

    open spec fn from_spec(e: GitHubError) -> ApiError {
        match e.kind {
            GitHubErrorKind::NotFound => ApiError::NotFound,
            GitHubErrorKind::Unauthorized => ApiError::Unauthorized,
        }
    }
}

impl From<RoutingError> for ApiError {
    fn from(e: RoutingError) -> (r: ApiError) {
        ApiError::Routing(e)
    }
}

impl vstd::std_specs::convert::FromSpecImpl<RoutingError> for ApiError {
    open spec fn obeys_from_spec() -> bool {
        true
    }

    open spec fn from_spec(e: RoutingError) -> ApiError {
        ApiError::Routing(e)
    }
}

} // verus!
