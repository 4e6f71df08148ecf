//! The three flows a client goes through: signing in, signing out, and
//! asking who is signed in. Each is a decision over what the request
//! carries; the exchanges with the provider lie with the caller, between
//! two steps.

use vstd::prelude::*;
use axum_extra::extract::cookie::PrivateCookieJar;
use crate::client::{
    granted,
    session_attributes,
    session_stored,
    GitHubClient,
    OAuthClient,
    GITHUB_COOKIE,
};
use crate::clock::{now_timestamp, representable};
use crate::error::{ApiFailure, ErrorView, KeaGitHubError};
use crate::jar::{jar_add, jar_cookies, jar_remove, StoredCookie};
use crate::models::Author;
use crate::scm_client::{AuthResponse, ScmUser};
use crate::state::{server_url, AppContext};
use crate::text::{decimal, owned};
use crate::token::TokenResponse;

verus! {

/// The next step of a sign-in. Whatever the step, the jar goes with it as
/// it was.
#[derive(Debug)]
pub enum SignInStep {
    /// The client is sent to the provider to authorize the application.
    Redirect { jar: PrivateCookieJar, location: String },
    /// The provider has authorized the application. The caller exchanges the
    /// code at the provider's token endpoint and hands the outcome, with the
    /// jar, to [`GitHubClient::complete_sign_in`].
    Exchange { jar: PrivateCookieJar, code: String },
    /// The sign-in has failed.
    Failed { jar: PrivateCookieJar, error: Box<KeaGitHubError> },
}

/// Who is signed in, provider by provider.
#[derive(Debug, Clone, PartialEq)]
pub struct MeClients {
    pub github: Option<ScmUser>,
}

/// Whether `address` is a URL: whether `url::Url::parse`, by which `oauth2`
/// reads the addresses it is given, accepts it.
pub uninterp spec fn address_parses(address: Seq<char>) -> bool;

/// The address at which the user authorizes the application, with a fresh
/// anti-forgery token in it, or the words of why there is none.
///
/// Trusted: makes an `oauth2::basic::BasicClient` of the client id, the
/// authorization endpoint and the redirect address, and calls its
/// `authorize_url` with `oauth2::CsrfToken::new_random`. An endpoint or a
/// redirect address that `oauth2::AuthUrl::new` or `oauth2::RedirectUrl::new`
/// refuses gives the refusal's words; both hand the address to
/// `url::Url::parse` and refuse what it refuses. The contract claims that an
/// address comes back exactly when both addresses parse. The address that
/// comes back holds a random token, so the contract claims nothing of it.
#[verifier::external_body]
pub(crate) fn authorize_url(client: &OAuthClient) -> (res: Result<String, String>)
    ensures
        res.is_ok() == (address_parses(client.auth_url@) && address_parses(
            client.redirect_url@,
        )),
{
    let auth_url = oauth2::AuthUrl::new(client.auth_url.clone()).map_err(|e| e.to_string())?;
    let redirect_url = oauth2::RedirectUrl::new(client.redirect_url.clone()).map_err(
        |e| e.to_string(),
    )?;
    let id = oauth2::ClientId::new(client.client_id.clone());
    let oauth = oauth2::basic::BasicClient::new(id, None, auth_url, None).set_redirect_uri(
        redirect_url,
    );
    let (url, _state) = oauth.authorize_url(oauth2::CsrfToken::new_random).url();
    Ok(url.to_string())
}

impl GitHubClient {
    /// The step that starts a sign-in, given the address at which the user
    /// authorizes the application, or the words of why there is none.
    pub fn authorize_step(jar: PrivateCookieJar, address: Result<String, String>) -> (step:
        SignInStep)
        ensures
            match address {
                Ok(location) => step matches SignInStep::Redirect { jar: j, location: l } && j
                    == jar && l == location,
                Err(message) => step matches SignInStep::Failed { jar: j, error } && j == jar
                    && error@ == ErrorView::OAuth2Error(message@),
            },
    {
        match address {
            Ok(location) => SignInStep::Redirect { jar, location },
            Err(message) => SignInStep::Failed {
                jar,
                error: Box::new(KeaGitHubError::OAuth2Error(message)),
            },
        }
    }

    /// The first step of a sign-in. A request without the provider's answer
    /// starts the flow: the client is sent to the provider, where the
    /// provider's authorization endpoint and the server's own sign-in route
    /// are addresses that parse. A refusal by the provider ends it, with the
    /// provider's words as they came. An authorization asks for the exchange
    /// of its code.
    pub fn sign_in(
        &self,
        auth_response: Option<AuthResponse>,
        jar: PrivateCookieJar,
        ctx: &AppContext,
    ) -> (step: SignInStep)
        ensures
            match auth_response {
                None => if sign_in_can_start(self.config().auth_url@, ctx.domain@, ctx.port as int) {
                    step matches SignInStep::Redirect { jar: j, .. } && j == jar
                } else {
                    step matches SignInStep::Failed { jar: j, error } && j == jar && error@
                        is OAuth2Error
                },
                Some(AuthResponse::Failure { error, error_description, error_url }) => step
                    matches SignInStep::Failed { jar: j, error: e } && j == jar && e@
                    == (ErrorView::Auth {
                    error: error@,
                    error_description: error_description@,
                    error_url: error_url@,
                }),
                Some(AuthResponse::Success { code }) => step matches SignInStep::Exchange {
                    jar: j,
                    code: c,
                } && j == jar && c == code,
            },
    {
        match auth_response {
            None => {
                let client = self.create_oauth_client(ctx);
                GitHubClient::authorize_step(jar, authorize_url(&client))
            },
            Some(AuthResponse::Failure { error, error_description, error_url }) => {
                SignInStep::Failed {
                    jar,
                    error: Box::new(
                        KeaGitHubError::Auth { error, error_description, error_url },
                    ),
                }
            },
            Some(AuthResponse::Success { code }) => SignInStep::Exchange { jar, code },
        }
    }

    /// The last step of a sign-in, once the exchange of the code met
    /// `exchange` at the instant `now`: the granted record is stored in the
    /// jar and the client is sent to the web client, whose address comes
    /// back. An exchange that failed, a token that is no bearer token and a
    /// token without a lifetime end the sign-in with the jar as it was.
    pub fn complete_sign_in_at(
        &self,
        jar: PrivateCookieJar,
        exchange: Result<TokenResponse, String>,
        ctx: &AppContext,
        now: i64,
    ) -> (res: (PrivateCookieJar, Result<String, Box<KeaGitHubError>>))
        ensures
            signed_in(jar, exchange, ctx.domain@, ctx.client_url@, now as int, res),
    {
        let (out, stored) = self.store_grant_at(jar, exchange, ctx, now);
        match stored {
            Ok(_) => (out, Ok(owned(ctx.client_url.as_str()))),
            Err(e) => (out, Err(e)),
        }
    }

    /// The last step of a sign-in, where the outcome of the exchange has
    /// arrived now.
    pub fn complete_sign_in(
        &self,
        jar: PrivateCookieJar,
        exchange: Result<TokenResponse, String>,
        ctx: &AppContext,
    ) -> (res: (PrivateCookieJar, Result<String, Box<KeaGitHubError>>))
        ensures
            exists|now: int|
                representable(now) && #[trigger] signed_in(
                    jar,
                    exchange,
                    ctx.domain@,
                    ctx.client_url@,
                    now,
                    res,
                ),
    {
        let now = now_timestamp();
        let res = self.complete_sign_in_at(jar, exchange, ctx, now);
        assert(signed_in(jar, exchange, ctx.domain@, ctx.client_url@, now as int, res));
        res
    }

    /// Ends the session, whether or not there was one: the session cookie
    /// is overwritten with an empty value that has already expired, and the
    /// client is sent to the web client, whose address comes back.
    pub fn sign_out(&self, jar: PrivateCookieJar, ctx: &AppContext) -> (res: (
        PrivateCookieJar,
        Result<String, Box<KeaGitHubError>>,
    ))
        ensures
            signed_out(jar_cookies(jar), jar_cookies(res.0), ctx.domain@),
            res.1 matches Ok(location) && location@ == ctx.client_url@,
    {
        let removed = jar_remove(jar, GITHUB_COOKIE);
        // A cookie with an expiry time in the past makes the browser delete it.
        let cookie = GitHubClient::session_cookie(String::new(), ctx.domain.as_str(), -1);
        let out = jar_add(removed, &cookie);
        assert(jar_cookies(out).remove(GITHUB_COOKIE@) =~= jar_cookies(jar).remove(
            GITHUB_COOKIE@,
        ));
        (out, Ok(owned(ctx.client_url.as_str())))
    }

    /// The user behind a session, given the jar that resolving the session
    /// left and what the provider's API answered when asked who the token's
    /// user is. The jar comes back as it is, with the user or with the
    /// failure.
    pub fn get_cookie_user(&self, jar: PrivateCookieJar, fetched: Result<Author, ApiFailure>) -> (res:
        (PrivateCookieJar, Result<ScmUser, Box<KeaGitHubError>>))
        ensures
            res.0 == jar,
            match fetched {
                Ok(author) => res.1 matches Ok(user) && user.id@ == decimal(author.id as nat)
                    && user.login == author.login && user.avatar_url == author.avatar_url,
                Err(failure) => res.1 matches Err(e) && e@ == ErrorView::Api(failure@),
            },
    {
        match fetched {
            Ok(author) => {
                let user = ScmUser::from_author(author.id, author.login, author.avatar_url);
                (jar, Ok(user))
            },
            Err(failure) => (jar, Err(Box::new(KeaGitHubError::Api(failure)))),
        }
    }
}

/// Whether a sign-in can start on the server at `domain` and `port`: whether
/// the provider's authorization endpoint and the server's sign-in route, to
/// which the provider sends the user back, are addresses that parse.
pub open spec fn sign_in_can_start(auth_url: Seq<char>, domain: Seq<char>, port: int) -> bool {
    address_parses(auth_url) && address_parses(server_url(domain, port) + "/github/signin"@)
}

/// Whether `res` is how a sign-in on the server at `domain` ends once the
/// exchange of the code met `exchange` at the instant `now`.
pub open spec fn signed_in(
    jar: PrivateCookieJar,
    exchange: Result<TokenResponse, String>,
    domain: Seq<char>,
    client_url: Seq<char>,
    now: int,
    res: (PrivateCookieJar, Result<String, Box<KeaGitHubError>>),
) -> bool {
    match granted(exchange, now) {
        Ok(record) => {
            &&& res.1 matches Ok(location) && location@ == client_url
            &&& session_stored(jar_cookies(jar), jar_cookies(res.0), record, domain, now)
        },
        Err(failure) => res.0 == jar && (res.1 matches Err(e) && e@ == failure),
    }
}

/// Whether `after` is `before` with the session cookie overwritten for
/// deletion: an empty value, the attributes of a session cookie, and a
/// lifetime that has already run out.
pub open spec fn signed_out(
    before: Map<Seq<char>, StoredCookie>,
    after: Map<Seq<char>, StoredCookie>,
    domain: Seq<char>,
) -> bool {
    &&& after.contains_key(GITHUB_COOKIE@)
    &&& after[GITHUB_COOKIE@].value == Seq::<char>::empty()
    &&& session_attributes(after[GITHUB_COOKIE@], domain, -1)
    &&& after.remove(GITHUB_COOKIE@) == before.remove(GITHUB_COOKIE@)
}

/// Signing out leaves a session cookie whose lifetime is not positive,
/// whatever the jar held before.
pub proof fn lemma_signed_out_cookie_has_expired(
    before: Map<Seq<char>, StoredCookie>,
    after: Map<Seq<char>, StoredCookie>,
    domain: Seq<char>,
)
    requires
        signed_out(before, after, domain),
    ensures
        after[GITHUB_COOKIE@].max_age matches Some(lifetime) && lifetime <= 0,
{
}

/// Who is signed in, for a caller to whom no session is an answer like any
/// other: the user that resolving the session found, or nobody. The jar that
/// resolving the session left goes back either way.
pub fn me(resolved: (PrivateCookieJar, Result<ScmUser, Box<KeaGitHubError>>)) -> (res: (
    PrivateCookieJar,
    MeClients,
))
    ensures
        res.0 == resolved.0,
        match resolved.1 {
            Ok(user) => res.1.github == Some(user),
            Err(_) => res.1.github is None,
        },
{
    let (jar, found) = resolved;
    match found {
        Ok(user) => (jar, MeClients { github: Some(user) }),
        Err(_) => (jar, MeClients { github: None }),
    }
}

} // verus!
