//! What the server makes of the provider's answers about a pull request.

use vstd::prelude::*;
use axum_extra::extract::cookie::PrivateCookieJar;
use crate::client::GitHubClient;
use crate::error::{ApiFailure, ErrorView, KeaGitHubError};
use crate::models::{Comment, DiffEntry, PullRequest, RepoCommit};
use crate::payloads::{
    KeaCommit,
    KeaDiffEntry,
    KeaPullRequestCommit,
    KeaPullRequestDetails,
    KeaPullRequestReviewComment,
};
use crate::text::{clone_opt, opt_text, owned};
use crate::utils::{comment_of, commit_of, diff_entry_of};

verus! {

/// Number of commits asked for in one page.
pub const COMMIT_PAGE_SIZE: u8 = 250;

/// `preferred` where it is there, `fallback` otherwise.
pub open spec fn text_or(preferred: Option<Seq<char>>, fallback: Seq<char>) -> Seq<char> {
    match preferred {
        Some(t) => t,
        None => fallback,
    }
}

/// What is told of the pull request `pr` of the repository `repo` of
/// `owner`: both ends need their label, the head's is asked for first; the
/// owner and the repository are those of the base where the provider names
/// them.
pub open spec fn details_of(
    pr: PullRequest,
    owner: Seq<char>,
    repo: Seq<char>,
    res: Result<KeaPullRequestDetails, Box<KeaGitHubError>>,
) -> bool {
    match (pr.head_label, pr.base_label) {
        (None, _) => res matches Err(e) && e@ == ErrorView::PullRequestCommitHasNoLabel(
            pr.head_sha@,
        ),
        (Some(_), None) => res matches Err(e) && e@ == ErrorView::PullRequestCommitHasNoLabel(
            pr.base_sha@,
        ),
        (Some(head_label), Some(base_label)) => {
            &&& res matches Ok(details)
            &&& details.id == pr.id
            &&& details.number == pr.number
            &&& details.owner@ == text_or(opt_text(pr.base_user_login), owner)
            &&& details.repo@ == text_or(opt_text(pr.base_repo_name), repo)
            &&& opt_text(details.title) == opt_text(pr.title)
            &&& opt_text(details.body) == opt_text(pr.body)
            &&& details.head.sha@ == pr.head_sha@
            &&& details.head.label@ == head_label@
            &&& details.base.sha@ == pr.base_sha@
            &&& details.base.label@ == base_label@
        },
    }
}

fn text_or_owned(preferred: &Option<String>, fallback: &str) -> (out: String)
    ensures
        out@ == text_or(opt_text(*preferred), fallback@),
{
    match preferred {
        Some(t) => owned(t.as_str()),
        None => owned(fallback),
    }
}

impl GitHubClient {
    /// What is told of a pull request, given the provider's description.
    pub fn pull_request_details(pr: &PullRequest, owner: &str, repo: &str) -> (res: Result<
        KeaPullRequestDetails,
        Box<KeaGitHubError>,
    >)
        ensures
            details_of(*pr, owner@, repo@, res),
    {
        let head_label = match &pr.head_label {
            Some(label) => owned(label.as_str()),
            None => {
                return Err(
                    Box::new(
                        KeaGitHubError::PullRequestCommitHasNoLabel(owned(pr.head_sha.as_str())),
                    ),
                );
            },
        };
        let base_label = match &pr.base_label {
            Some(label) => owned(label.as_str()),
            None => {
                return Err(
                    Box::new(
                        KeaGitHubError::PullRequestCommitHasNoLabel(owned(pr.base_sha.as_str())),
                    ),
                );
            },
        };
        let head = KeaPullRequestCommit::new(owned(pr.head_sha.as_str()), head_label);
        let base = KeaPullRequestCommit::new(owned(pr.base_sha.as_str()), base_label);
        Ok(
            KeaPullRequestDetails::new(
                pr.id,
                text_or_owned(&pr.base_user_login, owner),
                text_or_owned(&pr.base_repo_name, repo),
                pr.number,
                clone_opt(&pr.title),
                clone_opt(&pr.body),
                head,
                base,
            ),
        )
    }

    /// The answer to a request for a pull request, given the jar that
    /// resolving the session left and what the provider's API answered. The
    /// jar comes back as it is.
    pub fn get_pull_request_details(
        jar: PrivateCookieJar,
        fetched: Result<PullRequest, ApiFailure>,
        owner: &str,
        repo: &str,
    ) -> (res: (PrivateCookieJar, Result<KeaPullRequestDetails, Box<KeaGitHubError>>))
        ensures
            res.0 == jar,
            match fetched {
                Err(failure) => res.1 matches Err(e) && e@ == ErrorView::Api(failure@),
                Ok(pr) => details_of(pr, owner@, repo@, res.1),
            },
    {
        match fetched {
            Err(failure) => (jar, Err(Box::new(KeaGitHubError::Api(failure)))),
            Ok(pr) => (jar, GitHubClient::pull_request_details(&pr, owner, repo)),
        }
    }

    /// The answer to a request for the commits of a pull request: each
    /// commit that the provider lists, in order. The jar comes back as it
    /// is.
    pub fn get_pull_request_commits(
        jar: PrivateCookieJar,
        fetched: Result<Vec<RepoCommit>, ApiFailure>,
    ) -> (res: (PrivateCookieJar, Result<Vec<KeaCommit>, Box<KeaGitHubError>>))
        ensures
            res.0 == jar,
            match fetched {
                Err(failure) => res.1 matches Err(e) && e@ == ErrorView::Api(failure@),
                Ok(commits) => res.1 matches Ok(listed) && listed@.len() == commits@.len()
                    && forall|i: int|
                    0 <= i < commits@.len() ==> commit_of(commits@[i], #[trigger] listed@[i]),
            },
    {
        match fetched {
            Err(failure) => (jar, Err(Box::new(KeaGitHubError::Api(failure)))),
            Ok(commits) => {
                let mut listed: Vec<KeaCommit> = Vec::new();
                let mut i: usize = 0;
                while i < commits.len()
                    invariant
                        i <= commits.len(),
                        listed@.len() == i,
                        forall|k: int|
                            0 <= k < i ==> commit_of(commits@[k], #[trigger] listed@[k]),
                    decreases commits.len() - i,
                {
                    let commit = KeaCommit::from_repo_commit(&commits[i]);
                    listed.push(commit);
                    i = i + 1;
                }
                (jar, Ok(listed))
            },
        }
    }

    /// The answer to a request for the files of a pull request: each file
    /// that the provider lists, in order. The jar comes back as it is.
    pub fn get_pull_request_files(
        jar: PrivateCookieJar,
        fetched: Result<Vec<DiffEntry>, ApiFailure>,
    ) -> (res: (PrivateCookieJar, Result<Vec<KeaDiffEntry>, Box<KeaGitHubError>>))
        ensures
            res.0 == jar,
            match fetched {
                Err(failure) => res.1 matches Err(e) && e@ == ErrorView::Api(failure@),
                Ok(files) => res.1 matches Ok(listed) && listed@.len() == files@.len()
                    && forall|i: int|
                    0 <= i < files@.len() ==> diff_entry_of(files@[i], #[trigger] listed@[i]),
            },
    {
        match fetched {
            Err(failure) => (jar, Err(Box::new(KeaGitHubError::Api(failure)))),
            Ok(files) => {
                let mut listed: Vec<KeaDiffEntry> = Vec::new();
                let mut i: usize = 0;
                while i < files.len()
                    invariant
                        i <= files.len(),
                        listed@.len() == i,
                        forall|k: int|
                            0 <= k < i ==> diff_entry_of(files@[k], #[trigger] listed@[k]),
                    decreases files.len() - i,
                {
                    let file = KeaDiffEntry::from_diff_entry(&files[i]);
                    listed.push(file);
                    i = i + 1;
                }
                (jar, Ok(listed))
            },
        }
    }

    /// The answer to a request for the review comments of a pull request:
    /// each comment that the provider lists, in order. The jar comes back as
    /// it is.
    pub fn get_pull_request_timeline_review_comments<T>(
        jar: PrivateCookieJar,
        fetched: Result<Vec<Comment<T>>, ApiFailure>,
    ) -> (res: (
        PrivateCookieJar,
        Result<Vec<KeaPullRequestReviewComment<T>>, Box<KeaGitHubError>>,
    ))
        ensures
            res.0 == jar,
            match fetched {
                Err(failure) => res.1 matches Err(e) && e@ == ErrorView::Api(failure@),
                Ok(comments) => res.1 matches Ok(listed) && listed@.len() == comments@.len()
                    && forall|i: int|
                    0 <= i < comments@.len() ==> comment_of(
                        comments@[i],
                        #[trigger] listed@[i],
                    ),
            },
    {
        match fetched {
            Err(failure) => (jar, Err(Box::new(KeaGitHubError::Api(failure)))),
            Ok(comments) => {
                let ghost all = comments@;
                let mut rest = comments;
                let mut reversed: Vec<KeaPullRequestReviewComment<T>> = Vec::new();
                while rest.len() > 0
                    invariant
                        rest@.len() + reversed@.len() == all.len(),
                        rest@ == all.take(rest@.len() as int),
                        forall|k: int|
                            0 <= k < reversed@.len() ==> comment_of(
                                all[all.len() - 1 - k],
                                #[trigger] reversed@[k],
                            ),
                    decreases rest.len(),
                {
                    match rest.pop() {
                        Some(comment) => {
                            reversed.push(KeaPullRequestReviewComment::from_comment(comment));
                        },
                        None => {},
                    }
                }
                let mut listed: Vec<KeaPullRequestReviewComment<T>> = Vec::new();
                while reversed.len() > 0
                    invariant
                        reversed@.len() + listed@.len() == all.len(),
                        forall|k: int|
                            0 <= k < reversed@.len() ==> comment_of(
                                all[all.len() - 1 - k],
                                #[trigger] reversed@[k],
                            ),
                        forall|k: int|
                            0 <= k < listed@.len() ==> comment_of(all[k], #[trigger] listed@[k]),
                    decreases reversed.len(),
                {
                    match reversed.pop() {
                        Some(comment) => {
                            listed.push(comment);
                        },
                        None => {},
                    }
                }
                (jar, Ok(listed))
            },
        }
    }

    /// The answer to a request for a file's content, given the decoded
    /// content of each item that the provider found under the path: the
    /// first item's content, if it has one. The jar comes back as it is.
    pub fn get_file_content(
        jar: PrivateCookieJar,
        fetched: Result<Vec<Option<String>>, ApiFailure>,
        git_ref: &str,
        path: &str,
    ) -> (res: (PrivateCookieJar, Result<String, Box<KeaGitHubError>>))
        ensures
            res.0 == jar,
            match fetched {
                Err(failure) => res.1 matches Err(e) && e@ == ErrorView::Api(failure@),
                Ok(items) => if items@.len() > 0 && items@[0] is Some {
                    res.1 matches Ok(content) && content@ == items@[0]->Some_0@
                } else {
                    res.1 matches Err(e) && e@ == ErrorView::FileNotFound(path@, git_ref@)
                },
            },
    {
        match fetched {
            Err(failure) => (jar, Err(Box::new(KeaGitHubError::Api(failure)))),
            Ok(items) => {
                if items.len() > 0 {
                    match &items[0] {
                        Some(content) => {
                            return (jar, Ok(owned(content.as_str())));
                        },
                        None => {},
                    }
                }
                (jar, Err(Box::new(KeaGitHubError::FileNotFound(owned(path), owned(git_ref)))))
            },
        }
    }
}

} // verus!
