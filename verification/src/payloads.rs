//! What the server tells its web client of a pull request.

use vstd::prelude::*;
use crate::scm_client::ScmUser;

verus! {

/// A pull request.
#[derive(Debug, Clone, PartialEq)]
pub struct KeaPullRequestDetails {
    pub id: u64,
    pub owner: String,
    pub repo: String,
    pub number: u64,
    pub title: Option<String>,
    pub body: Option<String>,
    /// The head commit of the PR - the commit that is being merged into the base branch.
    pub head: KeaPullRequestCommit,
    /// The base commit of the PR - the commit that the head commit is being merged into.
    pub base: KeaPullRequestCommit,
}

/// One end of a pull request.
#[derive(Debug, Clone, PartialEq)]
pub struct KeaPullRequestCommit {
    pub sha: String,
    pub label: String,
}

/// What happened to a file between the two ends of a pull request.
#[derive(Debug, Clone, Copy, PartialEq, Eq, Structural)]
pub enum KeaDiffEntryStatus {
    Added,
    Removed,
    Modified,
    Renamed,
    Copied,
    Changed,
    Unchanged,
}

/// A file that a pull request touches.
#[derive(Debug, Clone, PartialEq)]
pub struct KeaDiffEntry {
    pub sha: String,
    pub status: KeaDiffEntryStatus,
    pub additions: u64,
    pub deletions: u64,
    pub changes: u64,
    pub original_filename: Option<String>,
    pub current_filename: String,
}

/// A commit of a pull request.
#[derive(Debug, Clone, PartialEq)]
pub struct KeaCommit {
    pub sha: String,
    pub message: String,
    pub author: Option<ScmUser>,
    pub committer: Option<ScmUser>,
    pub parents: Vec<KeaParentCommit>,
}

/// A commit's parent.
#[derive(Debug, Clone, PartialEq)]
pub struct KeaParentCommit {
    pub sha: String,
}

/// The side of a diff that a review comment is on.
#[derive(Debug, Clone, Copy, PartialEq, Eq, Structural)]
pub enum KeaPullRequestReviewCommentSide {
    Left,
    Right,
}

/// A line of a diff that a review comment points at.
#[derive(Debug, Clone, Copy, PartialEq, Eq, Structural)]
pub struct KeaPullRequestReviewCommentPosition {
    pub line: u64,
    pub side: KeaPullRequestReviewCommentSide,
}

/// A comment of a review. `T` is the kind of value in which instants are
/// told.
#[derive(Debug, Clone, PartialEq)]
pub struct KeaPullRequestReviewComment<T> {
    pub id: u64,
    pub user: Option<ScmUser>,
    pub body: String,
    /// The hash of the commit that the comment applies to.
    pub commit_id: String,
    pub path: String,
    pub created_at: T,
    pub updated_at: T,
    /// Where the range that the comment applies to starts, for a comment on
    /// several lines.
    pub start_position: Option<KeaPullRequestReviewCommentPosition>,
    /// Where the comment applies, or where its range ends.
    pub end_position: Option<KeaPullRequestReviewCommentPosition>,
}

impl<T> KeaPullRequestReviewComment<T> {
    pub fn new(
        id: u64,
        user: Option<ScmUser>,
        body: String,
        commit_id: String,
        path: String,
        created_at: T,
        updated_at: T,
        start_position: Option<KeaPullRequestReviewCommentPosition>,
        end_position: Option<KeaPullRequestReviewCommentPosition>,
    ) -> (comment: KeaPullRequestReviewComment<T>)
        ensures
            comment == (KeaPullRequestReviewComment {
                id,
                user,
                body,
                commit_id,
                path,
                created_at,
                updated_at,
                start_position,
                end_position,
            }),
    {
        KeaPullRequestReviewComment {
            id,
            user,
            body,
            commit_id,
            path,
            created_at,
            updated_at,
            start_position,
            end_position,
        }
    }
}

impl KeaPullRequestDetails {
    pub fn new(
        id: u64,
        owner: String,
        repo: String,
        number: u64,
        title: Option<String>,
        body: Option<String>,
        head: KeaPullRequestCommit,
        base: KeaPullRequestCommit,
    ) -> (details: KeaPullRequestDetails)
        ensures
            details == (KeaPullRequestDetails { id, owner, repo, number, title, body, head, base }),
    {
        KeaPullRequestDetails { id, owner, repo, number, title, body, head, base }
    }
}

impl KeaPullRequestCommit {
    pub fn new(sha: String, label: String) -> (commit: KeaPullRequestCommit)
        ensures
            commit == (KeaPullRequestCommit { sha, label }),
    {
        KeaPullRequestCommit { sha, label }
    }
}

impl KeaDiffEntry {
    pub fn new(
        sha: String,
        status: KeaDiffEntryStatus,
        additions: u64,
        deletions: u64,
        changes: u64,
        original_filename: Option<String>,
        current_filename: String,
    ) -> (entry: KeaDiffEntry)
        ensures
            entry == (KeaDiffEntry {
                sha,
                status,
                additions,
                deletions,
                changes,
                original_filename,
                current_filename,
            }),
    {
        KeaDiffEntry {
            sha,
            status,
            additions,
            deletions,
            changes,
            original_filename,
            current_filename,
        }
    }
}

impl KeaCommit {
    pub fn new(
        sha: String,
        message: String,
        author: Option<ScmUser>,
        committer: Option<ScmUser>,
        parents: Vec<KeaParentCommit>,
    ) -> (commit: KeaCommit)
        ensures
            commit == (KeaCommit { sha, message, author, committer, parents }),
    {
        KeaCommit { sha, message, author, committer, parents }
    }
}

impl KeaParentCommit {
    pub fn new(sha: String) -> (parent: KeaParentCommit)
        ensures
            parent == (KeaParentCommit { sha }),
    {
        KeaParentCommit { sha }
    }
}

impl KeaPullRequestReviewCommentPosition {
    pub fn new(line: u64, side: KeaPullRequestReviewCommentSide) -> (position:
        KeaPullRequestReviewCommentPosition)
        ensures
            position == (KeaPullRequestReviewCommentPosition { line, side }),
    {
        KeaPullRequestReviewCommentPosition { line, side }
    }
}

} // verus!
