//! The records that the listing endpoints return.

use vstd::prelude::*;

verus! {

/// A repository, as the repository listing describes it.
#[derive(Debug, PartialEq, Eq)]
pub struct Repo {
    /// The address to clone from, in SSH form.
    pub ssh_url: String,
    pub name: String,
    pub archived: bool,
}

impl Clone for Repo {
    fn clone(&self) -> (repo: Repo)
        ensures
            repo == *self,
    {
        Repo { ssh_url: self.ssh_url.clone(), name: self.name.clone(), archived: self.archived }
    }
}

/// The account that a commit is attributed to.
#[derive(Clone, Debug, PartialEq, Eq)]
pub struct Author {
    pub login: String,
}

/// The identity recorded inside a commit.
#[derive(Clone, Debug, PartialEq, Eq)]
pub struct GitUser {
    pub email: String,
}

/// The part of a commit that git itself records.
#[derive(Clone, Debug, PartialEq, Eq)]
pub struct CommitInfo {
    pub author: Option<GitUser>,
}

/// A commit, as the commit listing describes it.
#[derive(Clone, Debug, PartialEq, Eq)]
pub struct Commit {
    pub url: String,
    pub sha: String,
    pub node_id: String,
    pub author: Option<Author>,
    pub commit: CommitInfo,
}

/// A branch, as the branch listing describes it.
#[derive(Clone, Debug, PartialEq, Eq)]
pub struct ShortBranch {
    pub name: String,
}

} // verus!
