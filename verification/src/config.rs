//! What the command line asks for.

use vstd::prelude::*;

verus! {

/// The arguments of one run.
#[derive(Clone, Debug, PartialEq, Eq)]
pub struct CommandLineArgs {
    /// The organisation or user whose repositories are wanted.
    pub organisation: String,
    /// The host to ask. Without one, the public API is asked.
    pub host: Option<String>,
    /// The port to ask on. Without one, the default of HTTPS.
    pub port: Option<String>,
    /// The directory to clone into. Without one, the current directory.
    pub output_directory: Option<String>,
    /// A personal access token. Without one, only public repositories are
    /// found.
    pub github_token: Option<String>,
    /// Whether archived repositories are left out of a clone.
    pub ignore_archived: bool,
    /// How many clones may run at once. Without one, the default.
    pub concurrency_limit: Option<u32>,
    pub commands: SubCommands,
}

/// What a run is to do.
#[derive(Clone, Debug, PartialEq, Eq)]
pub enum SubCommands {
    /// Clone every repository of the account.
    Clone,
    /// Print the authors of the commits in the account's repositories.
    EnumerateUsers {
        /// The number of pages at which each listing stops. A low number
        /// makes the enumeration of a large organisation quicker.
        max_pages: Option<u32>,
    },
    /// Print the names of the account's repositories.
    ListRepos,
    /// Work on one repository of the account.
    Repo { repo: String, commands: RepoSubcommands },
}

/// What a run is to do with one repository.
#[derive(Clone, Copy, Debug, PartialEq, Eq, Structural)]
pub enum RepoSubcommands {
    /// Print the names of its branches.
    Branches,
}

} // verus!
