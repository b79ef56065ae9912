//! Access to the GitHub REST API: request targets, error classification and
//! the records that listings return.

pub mod account;
pub mod github;
pub mod github_error;
pub mod listing;
pub mod models;
pub mod page;
pub mod url;
