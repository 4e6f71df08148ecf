//! What the provider's API says of users, commits and pull requests, as far
//! as the server reads it.

use vstd::prelude::*;

verus! {

/// A user as the provider's API describes them.
#[derive(Debug, Clone, PartialEq)]
pub struct Author {
    pub id: u64,
    pub login: String,
    pub avatar_url: String,
}

/// A commit as the provider's API describes it.
#[derive(Debug, Clone, PartialEq)]
pub struct RepoCommit {
    pub sha: String,
    pub message: String,
    pub author: Option<Author>,
    pub committer: Option<Author>,
    /// The commit's parents in order, each by its hash where the provider
    /// gave one.
    pub parents: Vec<Option<String>>,
}

/// A file of a pull request as the provider's API describes it.
#[derive(Debug, Clone, PartialEq)]
pub struct DiffEntry {
    pub sha: String,
    pub filename: String,
    /// What happened to the file, in the provider's word: `added`, `removed`,
    /// `modified`, `renamed`, `copied`, `changed` or `unchanged`.
    pub status: String,
    pub additions: u64,
    pub deletions: u64,
    pub changes: u64,
    pub previous_filename: Option<String>,
}

/// A review comment as the provider's API describes it. `T` is the kind of
/// value in which the provider's client hands out instants.
#[derive(Debug, Clone, PartialEq)]
pub struct Comment<T> {
    pub id: u64,
    pub user: Option<Author>,
    pub body: String,
    pub commit_id: String,
    pub path: String,
    pub created_at: T,
    pub updated_at: T,
    /// The first line of the range that the comment applies to, for a
    /// comment on several lines.
    pub start_line: Option<u64>,
    /// The side of the diff that the first line is on.
    pub start_side: Option<String>,
    /// The line that the comment applies to: the last line of the range, for
    /// a comment on several lines.
    pub line: Option<u64>,
    /// The side of the diff that the line is on.
    pub side: Option<String>,
}

/// A pull request as the provider's API describes it.
#[derive(Debug, Clone, PartialEq)]
pub struct PullRequest {
    pub id: u64,
    pub number: u64,
    pub title: Option<String>,
    pub body: Option<String>,
    pub head_sha: String,
    pub head_label: Option<String>,
    pub base_sha: String,
    pub base_label: Option<String>,
    /// Login of the user who owns the base, where the provider names one.
    pub base_user_login: Option<String>,
    /// Name of the base's repository, where the provider names one.
    pub base_repo_name: Option<String>,
}

} // verus!
