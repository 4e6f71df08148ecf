//! What can go wrong between the provider, the session cookie and the
//! caller, and how each failure is reported over HTTP.

use vstd::prelude::*;
use crate::text::{decimal, decimal_string, join, owned};

verus! {

/// Status of a response that tells the client it is not authorized.
pub const STATUS_UNAUTHORIZED: u16 = 401;

/// Status of a response that reports a fault on the server's side.
pub const STATUS_INTERNAL_SERVER_ERROR: u16 = 500;

/// What the provider's API answered when it refused a request.
#[derive(Debug)]
pub struct GitHubFailure {
    /// The status of the answer, code and reason, such as `404 Not Found`.
    pub status: String,
    pub message: String,
}

/// A failed call of the provider's API.
#[derive(Debug)]
pub struct ApiFailure {
    /// The failure in words.
    pub description: String,
    /// The provider's own status and message, where the provider answered.
    pub github: Option<GitHubFailure>,
}

/// A failure of the session and token lifecycle.
#[derive(Debug)]
pub enum KeaGitHubError {
    /// The provider refused the authorization and said why.
    Auth { error: String, error_description: String, error_url: String },
    /// A token response could not be turned into a token record.
    TokenCookieConstruction(String),
    /// The exchange with the provider's token endpoint failed.
    OAuth2Error(String),
    /// The provider granted a token that is not a bearer token.
    InvalidTokenType,
    /// The request carries no session cookie.
    NoTokenCookie,
    /// The session cookie does not hold a token record.
    TokenCookieDeserialization,
    /// No handle for the provider's API could be made of a token.
    ClientConstruction(String),
    /// A call of the provider's API failed.
    Api(ApiFailure),
    /// There is no usable session.
    NotAuthenticated,
    /// The user of that id has no email address.
    UserHasNoEmail(u64),
    /// The commit of that hash, one end of a pull request, has no label.
    PullRequestCommitHasNoLabel(String),
    /// There is no file of that path at that git reference.
    FileNotFound(String, String),
}

/// The mathematical content of an [`ApiFailure`].
pub ghost struct ApiFailureView {
    pub description: Seq<char>,
    /// The status and the message of the provider's answer.
    pub github: Option<(Seq<char>, Seq<char>)>,
}

/// The mathematical content of a [`KeaGitHubError`].
pub ghost enum ErrorView {
    Auth { error: Seq<char>, error_description: Seq<char>, error_url: Seq<char> },
    TokenCookieConstruction(Seq<char>),
    OAuth2Error(Seq<char>),
    InvalidTokenType,
    NoTokenCookie,
    TokenCookieDeserialization,
    ClientConstruction(Seq<char>),
    Api(ApiFailureView),
    NotAuthenticated,
    UserHasNoEmail(int),
    PullRequestCommitHasNoLabel(Seq<char>),
    FileNotFound(Seq<char>, Seq<char>),
}

impl View for ApiFailure {
    type V = ApiFailureView;

    open spec fn view(&self) -> ApiFailureView {
        ApiFailureView {
            description: self.description@,
            github: match self.github {
                Some(g) => Some((g.status@, g.message@)),
                None => None,
            },
        }
    }
}

impl View for KeaGitHubError {
    type V = ErrorView;

    open spec fn view(&self) -> ErrorView {
        match *self {
            KeaGitHubError::Auth { error, error_description, error_url } => ErrorView::Auth {
                error: error@,
                error_description: error_description@,
                error_url: error_url@,
            },
            KeaGitHubError::TokenCookieConstruction(m) => ErrorView::TokenCookieConstruction(m@),
            KeaGitHubError::OAuth2Error(m) => ErrorView::OAuth2Error(m@),
            KeaGitHubError::InvalidTokenType => ErrorView::InvalidTokenType,
            KeaGitHubError::NoTokenCookie => ErrorView::NoTokenCookie,
            KeaGitHubError::TokenCookieDeserialization => ErrorView::TokenCookieDeserialization,
            KeaGitHubError::ClientConstruction(m) => ErrorView::ClientConstruction(m@),
            KeaGitHubError::Api(failure) => ErrorView::Api(failure@),
            KeaGitHubError::NotAuthenticated => ErrorView::NotAuthenticated,
            KeaGitHubError::UserHasNoEmail(id) => ErrorView::UserHasNoEmail(id as int),
            KeaGitHubError::PullRequestCommitHasNoLabel(sha) => {
                ErrorView::PullRequestCommitHasNoLabel(sha@)
            },
            KeaGitHubError::FileNotFound(path, git_ref) => ErrorView::FileNotFound(
                path@,
                git_ref@,
            ),
        }
    }
}

/// The HTTP status that reports `e`: unauthorized where the provider refused
/// the authorization, a server fault for everything else.
pub open spec fn status_of(e: ErrorView) -> int {
    if e is Auth {
        401
    } else {
        500
    }
}

/// The failure `e` in one line of words.
pub open spec fn message_of(e: ErrorView) -> Seq<char> {
    match e {
        ErrorView::Auth { error_description, .. } => "GitHub authentication error: "@
            + error_description,
        ErrorView::TokenCookieConstruction(m) => "GitHub token cookie construction error: "@ + m,
        ErrorView::OAuth2Error(m) => "OAuth2 error: "@ + m,
        ErrorView::InvalidTokenType => "Invalid token type received from GitHub, expected 'bearer'"@,
        ErrorView::NoTokenCookie => "No GitHub token cookie found in request"@,
        ErrorView::TokenCookieDeserialization => "Failed to deserialize GitHub token cookie"@,
        ErrorView::ClientConstruction(m) => "GitHub client construction error: "@ + m,
        ErrorView::Api(failure) => "GitHub API error: "@ + failure.description,
        ErrorView::NotAuthenticated => "User not authenticated"@,
        ErrorView::UserHasNoEmail(id) => "GitHub user with id "@ + decimal(id as nat)
            + " has no email"@,
        ErrorView::PullRequestCommitHasNoLabel(sha) => "Pull request commit "@ + sha
            + " has no label"@,
        ErrorView::FileNotFound(path, git_ref) => "File "@ + path + " not found at "@ + git_ref,
    }
}

/// The body of the response that reports `e`. A refusal by the provider is
/// passed on word for word; a refusal by the provider's API is given with
/// the provider's status and message.
pub open spec fn body_of(e: ErrorView) -> Seq<char> {
    match e {
        ErrorView::Auth { error, error_description, error_url } => error + ": "@
            + error_description + "\n"@ + error_url,
        ErrorView::Api(failure) => match failure.github {
            Some((status, message)) => status + ": "@ + message,
            None => failure.description,
        },
        _ => message_of(e),
    }
}

impl KeaGitHubError {
    /// The HTTP status of the response that reports this failure.
    pub fn status_code(&self) -> (status: u16)
        ensures
            status == status_of(self@),
    {
        match self {
            KeaGitHubError::Auth { .. } => STATUS_UNAUTHORIZED,
            _ => STATUS_INTERNAL_SERVER_ERROR,
        }
    }

    /// This failure in one line of words.
    pub fn message(&self) -> (text: String)
        ensures
            text@ == message_of(self@),
    {
        match self {
            KeaGitHubError::Auth { error_description, .. } => join(
                "GitHub authentication error: ",
                error_description.as_str(),
            ),
            KeaGitHubError::TokenCookieConstruction(m) => join(
                "GitHub token cookie construction error: ",
                m.as_str(),
            ),
            KeaGitHubError::OAuth2Error(m) => join("OAuth2 error: ", m.as_str()),
            KeaGitHubError::InvalidTokenType => owned(
                "Invalid token type received from GitHub, expected 'bearer'",
            ),
            KeaGitHubError::NoTokenCookie => owned("No GitHub token cookie found in request"),
            KeaGitHubError::TokenCookieDeserialization => owned(
                "Failed to deserialize GitHub token cookie",
            ),
            KeaGitHubError::ClientConstruction(m) => join(
                "GitHub client construction error: ",
                m.as_str(),
            ),
            KeaGitHubError::Api(failure) => join("GitHub API error: ", failure.description.as_str()),
            KeaGitHubError::NotAuthenticated => owned("User not authenticated"),
            KeaGitHubError::UserHasNoEmail(id) => {
                let id_text = decimal_string(*id);
                let head = join("GitHub user with id ", id_text.as_str());
                join(head.as_str(), " has no email")
            },
            KeaGitHubError::PullRequestCommitHasNoLabel(sha) => {
                let head = join("Pull request commit ", sha.as_str());
                join(head.as_str(), " has no label")
            },
            KeaGitHubError::FileNotFound(path, git_ref) => {
                let a = join("File ", path.as_str());
                let b = join(a.as_str(), " not found at ");
                join(b.as_str(), git_ref.as_str())
            },
        }
    }

    /// The body of the response that reports this failure.
    pub fn body(&self) -> (text: String)
        ensures
            text@ == body_of(self@),
    {
        match self {
            KeaGitHubError::Auth { error, error_description, error_url } => {
                let a = join(error.as_str(), ": ");
                let b = join(a.as_str(), error_description.as_str());
                let c = join(b.as_str(), "\n");
                join(c.as_str(), error_url.as_str())
            },
            KeaGitHubError::Api(failure) => match &failure.github {
                Some(g) => {
                    let head = join(g.status.as_str(), ": ");
                    join(head.as_str(), g.message.as_str())
                },
                None => owned(failure.description.as_str()),
            },
            _ => self.message(),
        }
    }
}

} // verus!
