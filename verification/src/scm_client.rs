//! What a source-control provider hands back to the server: the callback of
//! an authorization, and the user behind a session.

use vstd::prelude::*;
use crate::text::{decimal, decimal_string, opt_text};

verus! {

/// The query parameters of the provider's callback, as they arrived.
#[derive(Debug)]
pub struct Params {
    pub code: Option<String>,
    pub error: Option<String>,
    pub error_description: Option<String>,
    /// The parameter `error_uri`.
    pub error_url: Option<String>,
}

/// The provider's answer to an authorization request.
#[derive(Debug)]
pub enum AuthResponse {
    Success { code: String },
    Failure { error: String, error_description: String, error_url: String },
}

/// Why a callback's parameters are no answer.
#[derive(Debug, Clone, Copy, PartialEq, Eq, Structural)]
pub enum ParamsError {
    /// Neither `code` nor `error` is there.
    Missing,
    /// Both `code` and `error` are there.
    Conflicting,
}

/// The mathematical content of an [`AuthResponse`].
pub ghost enum AuthResponseView {
    Success { code: Seq<char> },
    Failure { error: Seq<char>, error_description: Seq<char>, error_url: Seq<char> },
}

impl View for AuthResponse {
    type V = AuthResponseView;

    open spec fn view(&self) -> AuthResponseView {
        match *self {
            AuthResponse::Success { code } => AuthResponseView::Success { code: code@ },
            AuthResponse::Failure { error, error_description, error_url } => {
                AuthResponseView::Failure {
                    error: error@,
                    error_description: error_description@,
                    error_url: error_url@,
                }
            },
        }
    }
}

/// The text of an optional parameter, empty where it is absent.
pub open spec fn text_or_empty(s: Option<Seq<char>>) -> Seq<char> {
    match s {
        Some(t) => t,
        None => Seq::empty(),
    }
}

/// The answer that a callback's parameters stand for: exactly one of `code`
/// and `error` has to be there.
pub open spec fn answer_of(
    code: Option<Seq<char>>,
    error: Option<Seq<char>>,
    error_description: Option<Seq<char>>,
    error_url: Option<Seq<char>>,
) -> Result<AuthResponseView, ParamsError> {
    match (code, error) {
        (Some(code), None) => Ok(AuthResponseView::Success { code }),
        (None, Some(error)) => Ok(
            AuthResponseView::Failure {
                error,
                error_description: text_or_empty(error_description),
                error_url: text_or_empty(error_url),
            },
        ),
        (None, None) => Err(ParamsError::Missing),
        (Some(_), Some(_)) => Err(ParamsError::Conflicting),
    }
}

fn unwrap_or_default(s: Option<String>) -> (out: String)
    ensures
        out@ == text_or_empty(opt_text(s)),
{
    match s {
        Some(t) => t,
        None => String::new(),
    }
}

impl ParamsError {
    /// The error in words.
    pub fn message(&self) -> (text: &'static str)
        ensures
            text@ == match *self {
                ParamsError::Missing => "missing both code and error"@,
                ParamsError::Conflicting => "both code and error are present"@,
            },
    {
        match self {
            ParamsError::Missing => "missing both code and error",
            ParamsError::Conflicting => "both code and error are present",
        }
    }
}

impl AuthResponse {
    /// Reads the provider's answer from the parameters of its callback.
    pub fn deserialize(params: Params) -> (res: Result<AuthResponse, ParamsError>)
        ensures
            match answer_of(
                opt_text(params.code),
                opt_text(params.error),
                opt_text(params.error_description),
                opt_text(params.error_url),
            ) {
                Ok(answer) => res matches Ok(r) && r@ == answer,
                Err(e) => res == Err::<AuthResponse, ParamsError>(e),
            },
    {
        let Params { code, error, error_description, error_url } = params;
        match (code, error) {
            (Some(code), None) => Ok(AuthResponse::Success { code }),
            (None, Some(error)) => Ok(
                AuthResponse::Failure {
                    error,
                    error_description: unwrap_or_default(error_description),
                    error_url: unwrap_or_default(error_url),
                },
            ),
            (None, None) => Err(ParamsError::Missing),
            (Some(_), Some(_)) => Err(ParamsError::Conflicting),
        }
    }

    /// The answer in a request's parameters, or `None` where they hold none:
    /// such a request starts a sign-in.
    pub fn from_request_parts(params: Params) -> (res: Option<AuthResponse>)
        ensures
            match answer_of(
                opt_text(params.code),
                opt_text(params.error),
                opt_text(params.error_description),
                opt_text(params.error_url),
            ) {
                Ok(answer) => res matches Some(r) && r@ == answer,
                Err(_) => res is None,
            },
    {
        match AuthResponse::deserialize(params) {
            Ok(answer) => Some(answer),
            Err(_) => None,
        }
    }
}

/// Status of a redirect that keeps the request's method.
pub const STATUS_TEMPORARY_REDIRECT: u16 = 307;

/// The answer to a request that needs the provider's callback and has none:
/// the client is sent to the sign-in.
#[derive(Debug, Clone, Copy)]
pub struct AuthRedirect;

impl AuthRedirect {
    /// Where the client is sent.
    pub fn location(&self) -> (path: &'static str)
        ensures
            path@ == "/github/signin"@,
    {
        "/github/signin"
    }

    /// The status with which it is sent there.
    pub fn status_code(&self) -> (status: u16)
        ensures
            status == STATUS_TEMPORARY_REDIRECT,
    {
        STATUS_TEMPORARY_REDIRECT
    }
}

/// The user behind a session, as the server shows them.
#[derive(Debug, Clone, PartialEq)]
pub struct ScmUser {
    /// The user's unique ID.
    pub id: String,
    /// The user's login. This is typically the user's username.
    pub login: String,
    /// Address of the user's picture.
    pub avatar_url: String,
}

impl ScmUser {
    pub fn new(id: String, login: String, avatar_url: String) -> (user: ScmUser)
        ensures
            user.id == id,
            user.login == login,
            user.avatar_url == avatar_url,
    {
        ScmUser { id, login, avatar_url }
    }

    /// The user that the provider describes by a numeric id, a login and the
    /// address of a picture.
    pub fn from_author(id: u64, login: String, avatar_url: String) -> (user: ScmUser)
        ensures
            user.id@ == decimal(id as nat),
            user.login == login,
            user.avatar_url == avatar_url,
    {
        ScmUser { id: decimal_string(id), login, avatar_url }
    }
}

} // verus!
