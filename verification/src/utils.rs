//! From what the provider's API says to what the server tells its client.

use vstd::prelude::*;
use vstd::std_specs::convert::FromSpecImpl;
use crate::models::{Author, Comment, DiffEntry, RepoCommit};
use crate::payloads::{
    KeaCommit,
    KeaDiffEntry,
    KeaDiffEntryStatus,
    KeaParentCommit,
    KeaPullRequestReviewComment,
    KeaPullRequestReviewCommentPosition,
    KeaPullRequestReviewCommentSide,
};
use crate::scm_client::ScmUser;
use crate::text::{clone_opt, decimal, opt_text, owned};

verus! {

/// The side that the provider names: `LEFT` is the left side, anything else
/// the right.
pub open spec fn side_of(name: Seq<char>) -> KeaPullRequestReviewCommentSide {
    if name == "LEFT"@ {
        KeaPullRequestReviewCommentSide::Left
    } else {
        KeaPullRequestReviewCommentSide::Right
    }
}

impl From<String> for KeaPullRequestReviewCommentSide {
    /// The side that the provider names: `LEFT` is the left side, anything
    /// else the right.
    fn from(side: String) -> (out: KeaPullRequestReviewCommentSide) {
        if same(side.as_str(), "LEFT") {
            KeaPullRequestReviewCommentSide::Left
        } else {
            KeaPullRequestReviewCommentSide::Right
        }
    }
}

impl FromSpecImpl<String> for KeaPullRequestReviewCommentSide {
    open spec fn obeys_from_spec() -> bool {
        true
    }

    open spec fn from_spec(side: String) -> KeaPullRequestReviewCommentSide {
        side_of(side@)
    }
}

/// The status that the provider names. A word that is none of the seven
/// counts as unchanged.
pub open spec fn status_of_name(name: Seq<char>) -> KeaDiffEntryStatus {
    if name == "added"@ {
        KeaDiffEntryStatus::Added
    } else if name == "removed"@ {
        KeaDiffEntryStatus::Removed
    } else if name == "modified"@ {
        KeaDiffEntryStatus::Modified
    } else if name == "renamed"@ {
        KeaDiffEntryStatus::Renamed
    } else if name == "copied"@ {
        KeaDiffEntryStatus::Copied
    } else if name == "changed"@ {
        KeaDiffEntryStatus::Changed
    } else {
        KeaDiffEntryStatus::Unchanged
    }
}

/// Whether `out` is the file that `entry` describes.
pub open spec fn diff_entry_of(entry: DiffEntry, out: KeaDiffEntry) -> bool {
    &&& out.sha@ == entry.sha@
    &&& out.status == status_of_name(entry.status@)
    &&& out.additions == entry.additions
    &&& out.deletions == entry.deletions
    &&& out.changes == entry.changes
    &&& opt_text(out.original_filename) == opt_text(entry.previous_filename)
    &&& out.current_filename@ == entry.filename@
}

fn same(a: &str, b: &str) -> (equal: bool)
    ensures
        equal == (a@ == b@),
{
    owned(a) == owned(b)
}

impl KeaDiffEntryStatus {
    /// The status that the provider names.
    pub fn from_name(name: &str) -> (status: KeaDiffEntryStatus)
        ensures
            status == status_of_name(name@),
    {
        if same(name, "added") {
            KeaDiffEntryStatus::Added
        } else if same(name, "removed") {
            KeaDiffEntryStatus::Removed
        } else if same(name, "modified") {
            KeaDiffEntryStatus::Modified
        } else if same(name, "renamed") {
            KeaDiffEntryStatus::Renamed
        } else if same(name, "copied") {
            KeaDiffEntryStatus::Copied
        } else if same(name, "changed") {
            KeaDiffEntryStatus::Changed
        } else {
            KeaDiffEntryStatus::Unchanged
        }
    }
}

impl KeaDiffEntry {
    /// The file that the provider describes.
    pub fn from_diff_entry(entry: &DiffEntry) -> (out: KeaDiffEntry)
        ensures
            diff_entry_of(*entry, out),
    {
        KeaDiffEntry::new(
            owned(entry.sha.as_str()),
            KeaDiffEntryStatus::from_name(entry.status.as_str()),
            entry.additions,
            entry.deletions,
            entry.changes,
            clone_opt(&entry.previous_filename),
            owned(entry.filename.as_str()),
        )
    }
}

/// The position that a line and a side stand for: both have to be there.
pub open spec fn position_of(line: Option<u64>, side: Option<String>) -> Option<
    KeaPullRequestReviewCommentPosition,
> {
    match (line, side) {
        (Some(line), Some(side)) => Some(
            KeaPullRequestReviewCommentPosition {
                line,
                side: side_of(side@),
            },
        ),
        _ => None,
    }
}

/// Where a review comment starts or ends, given the line and the side that
/// the provider names for that end.
pub fn comment_position(line: Option<u64>, side: Option<String>) -> (position: Option<
    KeaPullRequestReviewCommentPosition,
>)
    ensures
        position == position_of(line, side),
{
    match (line, side) {
        (Some(line), Some(side)) => Some(
            KeaPullRequestReviewCommentPosition::new(
                line,
                KeaPullRequestReviewCommentSide::from(side),
            ),
        ),
        _ => None,
    }
}

/// Whether `out` is the comment that `comment` describes: the start of its
/// range is made of the start line and its side, the end of the line and its
/// side; everything else is passed on.
pub open spec fn comment_of<T>(comment: Comment<T>, out: KeaPullRequestReviewComment<T>) -> bool {
    &&& out.id == comment.id
    &&& opt_user_of(comment.user, out.user)
    &&& out.body == comment.body
    &&& out.commit_id == comment.commit_id
    &&& out.path == comment.path
    &&& out.created_at == comment.created_at
    &&& out.updated_at == comment.updated_at
    &&& out.start_position == position_of(comment.start_line, comment.start_side)
    &&& out.end_position == position_of(comment.line, comment.side)
}

impl<T> KeaPullRequestReviewComment<T> {
    /// The comment that the provider describes.
    pub fn from_comment(comment: Comment<T>) -> (out: KeaPullRequestReviewComment<T>)
        ensures
            comment_of(comment, out),
    {
        let user = opt_user_from(&comment.user);
        let start_position = comment_position(comment.start_line, comment.start_side);
        let end_position = comment_position(comment.line, comment.side);
        KeaPullRequestReviewComment::new(
            comment.id,
            user,
            comment.body,
            comment.commit_id,
            comment.path,
            comment.created_at,
            comment.updated_at,
            start_position,
            end_position,
        )
    }
}

/// The user that the provider describes: the id as a decimal numeral, the
/// login and the picture's address as they are.
pub open spec fn user_of(author: Author, user: ScmUser) -> bool {
    &&& user.id@ == decimal(author.id as nat)
    &&& user.login@ == author.login@
    &&& user.avatar_url@ == author.avatar_url@
}

/// Whether `user` is the user that `author` describes, where there is one.
pub open spec fn opt_user_of(author: Option<Author>, user: Option<ScmUser>) -> bool {
    match (author, user) {
        (Some(a), Some(u)) => user_of(a, u),
        (None, None) => true,
        _ => false,
    }
}

/// The hashes that are there, in order.
pub open spec fn known(hashes: Seq<Option<String>>) -> Seq<Seq<char>>
    decreases hashes.len(),
{
    if hashes.len() == 0 {
        Seq::empty()
    } else {
        match hashes.last() {
            Some(hash) => known(hashes.drop_last()).push(hash@),
            None => known(hashes.drop_last()),
        }
    }
}

/// The hashes of a list of parents.
pub open spec fn parent_hashes(parents: Seq<KeaParentCommit>) -> Seq<Seq<char>> {
    parents.map_values(|p: KeaParentCommit| p.sha@)
}

/// Whether `out` is the commit that `commit` describes: hash and message as
/// they are, author and committer as users, and the parents that have a
/// hash, in order.
pub open spec fn commit_of(commit: RepoCommit, out: KeaCommit) -> bool {
    &&& out.sha@ == commit.sha@
    &&& out.message@ == commit.message@
    &&& opt_user_of(commit.author, out.author)
    &&& opt_user_of(commit.committer, out.committer)
    &&& parent_hashes(out.parents@) == known(commit.parents@)
}

fn user_from(author: &Author) -> (user: ScmUser)
    ensures
        user_of(*author, user),
{
    ScmUser::from_author(author.id, owned(author.login.as_str()), owned(author.avatar_url.as_str()))
}

fn opt_user_from(author: &Option<Author>) -> (user: Option<ScmUser>)
    ensures
        opt_user_of(*author, user),
{
    match author {
        Some(a) => Some(user_from(a)),
        None => None,
    }
}

impl KeaCommit {
    /// The commit that the provider describes. A parent without a hash is
    /// left out.
    pub fn from_repo_commit(commit: &RepoCommit) -> (out: KeaCommit)
        ensures
            commit_of(*commit, out),
    {
        let mut parents: Vec<KeaParentCommit> = Vec::new();
        let mut i: usize = 0;
        assert(commit.parents@.take(0) =~= Seq::<Option<String>>::empty());
        assert(parent_hashes(parents@) =~= Seq::<Seq<char>>::empty());
        while i < commit.parents.len()
            invariant
                i <= commit.parents.len(),
                parent_hashes(parents@) == known(commit.parents@.take(i as int)),
            decreases commit.parents.len() - i,
        {
            proof {
                let next = commit.parents@.take(i + 1);
                assert(next.drop_last() =~= commit.parents@.take(i as int));
                assert(next.last() == commit.parents@[i as int]);
            }
            let ghost before = parents@;
            match &commit.parents[i] {
                Some(hash) => {
                    parents.push(KeaParentCommit::new(owned(hash.as_str())));
                    assert(parent_hashes(parents@) =~= parent_hashes(before).push(hash@));
                },
                None => {},
            }
            i = i + 1;
        }
        assert(commit.parents@.take(i as int) =~= commit.parents@);
        KeaCommit::new(
            owned(commit.sha.as_str()),
            owned(commit.message.as_str()),
            opt_user_from(&commit.author),
            opt_user_from(&commit.committer),
            parents,
        )
    }
}

} // verus!
