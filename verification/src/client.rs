//! The provider's client: its configuration, the session cookie it keeps in
//! the jar, and the decision whether a stored token can be used, must be
//! renewed first, or is no session.

use vstd::prelude::*;
use axum_extra::extract::cookie::PrivateCookieJar;
use crate::clock::{now_timestamp, representable, timestamp_after, MAX_TIMESTAMP, MIN_TIMESTAMP};
use crate::error::{ErrorView, KeaGitHubError};
use crate::jar::{jar_add, jar_cookies, jar_get, SessionCookie, StoredCookie};
use crate::state::{server_url, AppContext};
use crate::text::{clone_opt, join, opt_text, owned};
use crate::token::{
    decoded,
    encoded,
    minted,
    token_state,
    TokenCookie,
    TokenRecord,
    TokenResponse,
    TokenState,
    TokenType,
    REFRESH_THRESHOLD_SECS,
};

verus! {

/// Name of the cookie that carries the session's token record.
pub const GITHUB_COOKIE: &'static str = "github-tokens";

/// Where the provider asks the user to authorize the application.
pub const GITHUB_AUTH_URL: &'static str = "https://github.com/login/oauth/authorize";

/// Where the provider exchanges codes and refresh tokens for access tokens.
pub const GITHUB_TOKEN_URL: &'static str = "https://github.com/login/oauth/access_token";

/// The application's credentials and the provider's two endpoints.
#[derive(Clone)]
pub struct GitHubConfig {
    pub client_id: String,
    pub client_secret: String,
    pub auth_url: String,
    pub token_url: String,
}

/// What an OAuth client for this server is made of.
#[derive(Clone)]
pub struct OAuthClient {
    pub client_id: String,
    pub client_secret: String,
    pub auth_url: String,
    pub token_url: String,
    /// Where the provider sends the user back to.
    pub redirect_url: String,
}

/// The provider's client.
#[derive(Clone)]
pub struct GitHubClient {
    config: GitHubConfig,
}

/// A handle for calls of the provider's API on behalf of one user: it carries
/// one bearer token, for one request.
pub struct ApiHandle {
    access_token: String,
}

impl View for ApiHandle {
    type V = Seq<char>;

    closed spec fn view(&self) -> Seq<char> {
        self.access_token@
    }
}

/// Whether `c` may stand in the value of an HTTP header.
pub open spec fn header_char(c: char) -> bool {
    (c as u32 >= 32 && c as u32 != 127) || c == '\t'
}

/// Whether `s` can be sent as the value of an HTTP header.
pub open spec fn header_text(s: Seq<char>) -> bool {
    forall|i: int| 0 <= i < s.len() ==> header_char(#[trigger] s[i])
}

/// The failure of a token that cannot be sent in a header: no handle can be
/// made of it. It is a failure to make the handle, not of any call of the
/// provider.
pub open spec fn malformed_token() -> ErrorView {
    ErrorView::ClientConstruction("failed to parse header value"@)
}

/// Whether `s` can be sent as the value of an HTTP header.
///
/// Trusted: calls `http::HeaderValue::from_str`, the test that the
/// provider's client puts a bearer token to. The contract claims what its
/// source checks: every byte is at least 32 and not 127, or is a tab. Of a
/// string's characters that is `header_text`, as the bytes of a character
/// above 127 are all above 127.
#[verifier::external_body]
pub(crate) fn is_header_value(s: &str) -> (ok: bool)
    ensures
        ok == header_text(s@),
{
    http::HeaderValue::from_str(s).is_ok()
}

/// What the jar holds as the session: the record in the session cookie, or
/// why there is none.
pub open spec fn stored_record(cookies: Map<Seq<char>, StoredCookie>) -> Result<
    TokenRecord,
    ErrorView,
> {
    if !cookies.contains_key(GITHUB_COOKIE@) {
        Err(ErrorView::NoTokenCookie)
    } else {
        match decoded(cookies[GITHUB_COOKIE@].value) {
            Some(record) => Ok(record),
            None => Err(ErrorView::TokenCookieDeserialization),
        }
    }
}

/// Whether `cookie` is a session cookie as the server writes one: scoped
/// to `domain` and to the path `/`, for secure connections only, out of
/// reach of scripts, to live `max_age` seconds.
pub open spec fn session_attributes(cookie: StoredCookie, domain: Seq<char>, max_age: int) -> bool {
    &&& cookie.domain == Some(domain)
    &&& cookie.path == Some("/"@)
    &&& cookie.secure == Some(true)
    &&& cookie.http_only == Some(true)
    &&& cookie.max_age == Some(max_age)
}

/// Whether `after` is `before` with the session cookie set to `record` for
/// the server at `domain`, to live until the record expires as seen from
/// the instant `now`.
pub open spec fn session_stored(
    before: Map<Seq<char>, StoredCookie>,
    after: Map<Seq<char>, StoredCookie>,
    record: TokenRecord,
    domain: Seq<char>,
    now: int,
) -> bool {
    &&& after.contains_key(GITHUB_COOKIE@)
    &&& after[GITHUB_COOKIE@].value == encoded(record)
    &&& decoded(after[GITHUB_COOKIE@].value) == Some(record)
    &&& session_attributes(after[GITHUB_COOKIE@], domain, record.expires_at - now)
    &&& after.remove(GITHUB_COOKIE@) == before.remove(GITHUB_COOKIE@)
}

/// What is to be done with the session that a jar holds.
pub ghost enum Resolution {
    /// The access token is used as it is.
    Use { access_token: Seq<char> },
    /// The token is renewed with this refresh token before it is used.
    Refresh { refresh_token: Seq<char> },
    /// There is no usable session.
    NotAuthenticated,
}

/// The decision on a stored session at the instant `now`. A fresh token is
/// used; a stale one is renewed where it has a refresh token; an expired one,
/// a stale one without a refresh token, and a jar without a record are no
/// session.
pub open spec fn resolution(stored: Result<TokenRecord, ErrorView>, now: int) -> Resolution {
    match stored {
        Err(_) => Resolution::NotAuthenticated,
        Ok(record) => match token_state(record.expires_at, now) {
            TokenState::Fresh => Resolution::Use { access_token: record.access_token },
            TokenState::Stale => match record.refresh_token {
                Some(refresh_token) => Resolution::Refresh { refresh_token },
                None => Resolution::NotAuthenticated,
            },
            TokenState::Expired => Resolution::NotAuthenticated,
        },
    }
}

/// How many exchanges with the provider's token endpoint resolving a stored
/// session takes.
pub open spec fn refresh_calls(stored: Result<TokenRecord, ErrorView>, now: int) -> nat {
    if resolution(stored, now) is Refresh {
        1
    } else {
        0
    }
}

/// The next step towards a handle for the provider's API.
pub enum ClientStep {
    /// The stored token is good: here is the handle, and the jar as it was.
    Ready { jar: PrivateCookieJar, client: ApiHandle },
    /// The stored token is about to expire. The caller exchanges the refresh
    /// token at the provider's token endpoint and hands the outcome, with
    /// the jar, to [`GitHubClient::finish_refresh`].
    Refresh { jar: PrivateCookieJar, refresh_token: String },
    /// There is no handle to be had. The jar is as it was.
    Failed { jar: PrivateCookieJar, error: Box<KeaGitHubError> },
}

/// What follows the resolution of a session.
pub enum SessionStep {
    /// There is a session: the provider is asked, with this handle.
    Ask { jar: PrivateCookieJar, client: ApiHandle },
    /// There is none: the provider is not asked, and the failure is the
    /// answer.
    Done { jar: PrivateCookieJar, error: Box<KeaGitHubError> },
}

/// Whether `step` is the step that the jar's session calls for at `now`.
/// Whatever the step, the jar goes with it as it was.
pub open spec fn client_step_of(jar: PrivateCookieJar, now: int, step: ClientStep) -> bool {
    match resolution(stored_record(jar_cookies(jar)), now) {
        Resolution::Use { access_token } => if header_text(access_token) {
            step matches ClientStep::Ready { jar: j, client } && j == jar && client@
                == access_token
        } else {
            step matches ClientStep::Failed { jar: j, error } && j == jar && error@
                == malformed_token()
        },
        Resolution::Refresh { refresh_token } => step matches ClientStep::Refresh {
            jar: j,
            refresh_token: t,
        } && j == jar && t@ == refresh_token,
        Resolution::NotAuthenticated => step matches ClientStep::Failed { jar: j, error } && j
            == jar && error@ == ErrorView::NotAuthenticated,
    }
}

/// The record that the outcome of an exchange with the token endpoint
/// grants at the instant `now`, or why it grants none. The outcome is the
/// provider's answer, or the words of what went wrong on the way.
pub open spec fn granted(exchange: Result<TokenResponse, String>, now: int) -> Result<
    TokenRecord,
    ErrorView,
> {
    match exchange {
        Err(message) => Err(ErrorView::OAuth2Error(message@)),
        Ok(response) => if !(response.token_type is Bearer) {
            Err(ErrorView::InvalidTokenType)
        } else {
            minted(
                response.access_token@,
                opt_text(response.refresh_token),
                response.expires_in,
                now,
            )
        },
    }
}

/// Whether `res` is what an exchange with the token endpoint that met
/// `exchange` at the instant `now` leaves: the granted record, stored in the
/// jar, or the failure and the jar as it was.
pub open spec fn grant_stored(
    jar: PrivateCookieJar,
    exchange: Result<TokenResponse, String>,
    domain: Seq<char>,
    now: int,
    res: (PrivateCookieJar, Result<TokenCookie, Box<KeaGitHubError>>),
) -> bool {
    match granted(exchange, now) {
        Ok(record) => {
            &&& res.1 matches Ok(cookie) && cookie@ == record
            &&& session_stored(jar_cookies(jar), jar_cookies(res.0), record, domain, now)
        },
        Err(failure) => res.0 == jar && (res.1 matches Err(e) && e@ == failure),
    }
}

/// Whether `res` is how resolving a session ends once the refresh met
/// `exchange` at the instant `now`. A refresh that granted a record leaves
/// it in the jar, with a handle on the new token where that can be sent; a
/// refresh that failed leaves the jar as it was, and no session.
pub open spec fn refresh_finished(
    jar: PrivateCookieJar,
    exchange: Result<TokenResponse, String>,
    domain: Seq<char>,
    now: int,
    res: (PrivateCookieJar, Result<ApiHandle, Box<KeaGitHubError>>),
) -> bool {
    match granted(exchange, now) {
        Ok(record) => {
            &&& session_stored(jar_cookies(jar), jar_cookies(res.0), record, domain, now)
            &&& if header_text(record.access_token) {
                res.1 matches Ok(client) && client@ == record.access_token
            } else {
                res.1 matches Err(e) && e@ == malformed_token()
            }
        },
        Err(_) => res.0 == jar && (res.1 matches Err(e) && e@ == ErrorView::NotAuthenticated),
    }
}

/// A token with at least the refresh threshold left is used as it is:
/// resolving the session takes no exchange with the token endpoint.
pub proof fn lemma_fresh_token_used_as_is(record: TokenRecord, now: int)
    requires
        record.expires_at >= now + REFRESH_THRESHOLD_SECS,
    ensures
        resolution(Ok(record), now) == (Resolution::Use { access_token: record.access_token }),
        refresh_calls(Ok(record), now) == 0,
{
}

/// A token that has not expired but has less than the refresh threshold
/// left, and that came with a refresh token, is renewed by exactly one
/// exchange of that refresh token. Where the exchange grants a record at the
/// instant `later`, and the granted lifetime ends after the old token's
/// expiry, the new record expires strictly later than the old one.
pub proof fn lemma_stale_token_refreshed_once(
    record: TokenRecord,
    now: int,
    exchange: Result<TokenResponse, String>,
    later: int,
)
    requires
        0 < record.expires_at - now < REFRESH_THRESHOLD_SECS,
        record.refresh_token is Some,
        granted(exchange, later) is Ok,
        exchange matches Ok(response) && response.expires_in matches Some(secs) && later + secs
            > record.expires_at,
    ensures
        resolution(Ok(record), now) == (Resolution::Refresh {
            refresh_token: record.refresh_token->Some_0,
        }),
        refresh_calls(Ok(record), now) == 1,
        granted(exchange, later) matches Ok(renewed) && renewed.expires_at > record.expires_at,
{
}

/// A refresh that is answered no earlier than it was decided on, and that
/// grants a lifetime of at least the refresh threshold, always extends the
/// session: the new record expires strictly later than the stale one.
pub proof fn lemma_refresh_extends_session(
    record: TokenRecord,
    now: int,
    exchange: Result<TokenResponse, String>,
    later: int,
)
    requires
        0 < record.expires_at - now < REFRESH_THRESHOLD_SECS,
        record.refresh_token is Some,
        now <= later,
        granted(exchange, later) is Ok,
        exchange matches Ok(response) && response.expires_in matches Some(secs) && secs
            >= REFRESH_THRESHOLD_SECS,
    ensures
        granted(exchange, later) matches Ok(renewed) && renewed.expires_at > record.expires_at,
{
    lemma_stale_token_refreshed_once(record, now, exchange, later);
}

/// A fresh token that can be sent in a header gives a handle on that token,
/// with the jar as it was and no exchange with the token endpoint. A fresh
/// token that cannot be sent gives the failure to make a handle.
pub proof fn lemma_fresh_token_gives_handle(
    jar: PrivateCookieJar,
    record: TokenRecord,
    now: int,
    step: ClientStep,
)
    requires
        stored_record(jar_cookies(jar)) == Ok::<TokenRecord, ErrorView>(record),
        record.expires_at >= now + REFRESH_THRESHOLD_SECS,
        client_step_of(jar, now, step),
    ensures
        refresh_calls(stored_record(jar_cookies(jar)), now) == 0,
        header_text(record.access_token) ==> (step matches ClientStep::Ready { jar: j, client }
            && j == jar && client@ == record.access_token),
        !header_text(record.access_token) ==> (step matches ClientStep::Failed { jar: j, error }
            && j == jar && error@ == malformed_token()),
{
}

/// A token with less than the refresh threshold left and no refresh token
/// is no session, and resolving it takes no exchange with the token
/// endpoint.
pub proof fn lemma_no_refresh_token_no_session(record: TokenRecord, now: int)
    requires
        record.expires_at - now < REFRESH_THRESHOLD_SECS,
        record.refresh_token is None,
    ensures
        resolution(Ok(record), now) == Resolution::NotAuthenticated,
        refresh_calls(Ok(record), now) == 0,
{
}

/// An expired token is no session, with or without a refresh token.
pub proof fn lemma_expired_token_no_session(record: TokenRecord, now: int)
    requires
        record.expires_at - now <= 0,
    ensures
        resolution(Ok(record), now) == Resolution::NotAuthenticated,
        refresh_calls(Ok(record), now) == 0,
{
}

/// A jar without a session cookie that it can open, or with one that holds
/// no record, holds no session, whatever the instant.
pub proof fn lemma_no_record_no_session(
    cookies: Map<Seq<char>, StoredCookie>,
    now: int,
)
    requires
        !cookies.contains_key(GITHUB_COOKIE@) || decoded(cookies[GITHUB_COOKIE@].value) is None,
    ensures
        resolution(stored_record(cookies), now) == Resolution::NotAuthenticated,
        refresh_calls(stored_record(cookies), now) == 0,
{
}

/// A jar in which a record was stored as the session holds that record:
/// what is written to the session cookie is what is read from it.
pub proof fn lemma_stored_session_is_read(
    before: Map<Seq<char>, StoredCookie>,
    after: Map<Seq<char>, StoredCookie>,
    record: TokenRecord,
    domain: Seq<char>,
    now: int,
)
    requires
        session_stored(before, after, record, domain, now),
    ensures
        stored_record(after) == Ok::<TokenRecord, ErrorView>(record),
{
}

proof fn lemma_bearer_prefix(token: Seq<char>)
    ensures
        header_text("Bearer "@ + token) == header_text(token),
{
    reveal_strlit("Bearer ");
    let prefix = "Bearer "@;
    let whole = prefix + token;
    assert(prefix.len() == 7);
    if header_text(token) {
        assert forall|i: int| 0 <= i < whole.len() implies header_char(#[trigger] whole[i]) by {
            if i >= 7 {
                assert(whole[i] == token[i - 7]);
            }
        }
    }
    if header_text(whole) {
        assert forall|i: int| 0 <= i < token.len() implies header_char(#[trigger] token[i]) by {
            assert(whole[i + 7] == token[i]);
        }
    }
}

impl ApiHandle {
    /// The bearer token that the handle presents.
    pub fn access_token(&self) -> (token: &String)
        ensures
            token@ == self@,
    {
        &self.access_token
    }
}

impl GitHubClient {
    /// The client of an application with these credentials.
    pub fn new(client_id: String, client_secret: String) -> (client: GitHubClient)
        ensures
            client.config().client_id == client_id,
            client.config().client_secret == client_secret,
            client.config().auth_url@ == GITHUB_AUTH_URL@,
            client.config().token_url@ == GITHUB_TOKEN_URL@,
    {
        GitHubClient {
            config: GitHubConfig {
                client_id,
                client_secret,
                auth_url: owned(GITHUB_AUTH_URL),
                token_url: owned(GITHUB_TOKEN_URL),
            },
        }
    }

    /// The configuration the client was made with.
    pub closed spec fn config(&self) -> GitHubConfig {
        self.config
    }

    /// What an OAuth client of this application on this server is made of:
    /// the credentials, the endpoints, and the server's sign-in route as the
    /// place the provider sends the user back to.
    pub fn create_oauth_client(&self, ctx: &AppContext) -> (client: OAuthClient)
        ensures
            client.client_id@ == self.config().client_id@,
            client.client_secret@ == self.config().client_secret@,
            client.auth_url@ == self.config().auth_url@,
            client.token_url@ == self.config().token_url@,
            client.redirect_url@ == server_url(ctx.domain@, ctx.port as int) + "/github/signin"@,
    {
        let server = ctx.get_server_url();
        OAuthClient {
            client_id: owned(self.config.client_id.as_str()),
            client_secret: owned(self.config.client_secret.as_str()),
            auth_url: owned(self.config.auth_url.as_str()),
            token_url: owned(self.config.token_url.as_str()),
            redirect_url: join(server.as_str(), "/github/signin"),
        }
    }

    /// Mints the token record of a token response received at the instant
    /// `now`: the token expires `expires_in` seconds after `now`. A response
    /// without a lifetime, or with one that leads out of the calendar, gives
    /// no record.
    pub fn create_token_cookie_at(token_result: &TokenResponse, now: i64) -> (res: Result<
        TokenCookie,
        Box<KeaGitHubError>,
    >)
        ensures
            match minted(
                token_result.access_token@,
                opt_text(token_result.refresh_token),
                token_result.expires_in,
                now as int,
            ) {
                Ok(record) => res matches Ok(cookie) && cookie@ == record,
                Err(failure) => res matches Err(e) && e@ == failure,
            },
    {
        let expires_in = match token_result.expires_in {
            Some(secs) => secs,
            None => {
                return Err(
                    Box::new(
                        KeaGitHubError::TokenCookieConstruction(owned("No expiry time received")),
                    ),
                );
            },
        };
        if expires_in > i64::MAX as u64 {
            return Err(
                Box::new(
                    KeaGitHubError::TokenCookieConstruction(owned("Token expiry time too large")),
                ),
            );
        }
        let expires_at = match timestamp_after(now, expires_in as i64) {
            Some(t) => t,
            None => {
                return Err(
                    Box::new(
                        KeaGitHubError::TokenCookieConstruction(
                            owned("Failed to calculate expiry time"),
                        ),
                    ),
                );
            },
        };
        Ok(
            TokenCookie::new(
                owned(token_result.access_token.as_str()),
                clone_opt(&token_result.refresh_token),
                expires_at,
            ),
        )
    }

    /// Create a token cookie from a token response received now.
    pub fn create_token_cookie(token_result: &TokenResponse) -> (res: Result<
        TokenCookie,
        Box<KeaGitHubError>,
    >)
        ensures
            exists|now: int|
                representable(now) && #[trigger] minted(
                    token_result.access_token@,
                    opt_text(token_result.refresh_token),
                    token_result.expires_in,
                    now,
                ) == (match res {
                    Ok(cookie) => Ok::<TokenRecord, ErrorView>(cookie@),
                    Err(e) => Err::<TokenRecord, ErrorView>(e@),
                }),
    {
        let now = now_timestamp();
        let res = GitHubClient::create_token_cookie_at(token_result, now);
        assert(minted(
            token_result.access_token@,
            opt_text(token_result.refresh_token),
            token_result.expires_in,
            now as int,
        ) == (match res {
            Ok(cookie) => Ok::<TokenRecord, ErrorView>(cookie@),
            Err(e) => Err::<TokenRecord, ErrorView>(e@),
        }));
        res
    }

    /// Create a handle for the provider's API that presents a user's access
    /// token. Nothing is sent anywhere. A token that cannot be sent in a
    /// header gives no handle: that is the one way in which making a handle
    /// fails.
    pub fn create_github_user_client(&self, user_access_token: String) -> (res: Result<
        ApiHandle,
        Box<KeaGitHubError>,
    >)
        ensures
            header_text(user_access_token@) ==> (res matches Ok(client) && client@
                == user_access_token@),
            !header_text(user_access_token@) ==> (res matches Err(e) && e@ == malformed_token()),
    {
        let header = join("Bearer ", user_access_token.as_str());
        proof {
            lemma_bearer_prefix(user_access_token@);
        }
        if is_header_value(header.as_str()) {
            Ok(ApiHandle { access_token: user_access_token })
        } else {
            Err(
                Box::new(
                    KeaGitHubError::ClientConstruction(owned("failed to parse header value")),
                ),
            )
        }
    }

    /// The session cookie for a token record: named [`GITHUB_COOKIE`], scoped
    /// to `domain` and the path `/`, sent over secure connections only, out
    /// of reach of scripts, to live `max_age` seconds.
    pub fn session_cookie(value: String, domain: &str, max_age: i64) -> (cookie: SessionCookie)
        ensures
            cookie.name@ == GITHUB_COOKIE@,
            cookie.value == value,
            cookie.domain@ == domain@,
            cookie.path@ == "/"@,
            cookie.secure,
            cookie.http_only,
            cookie.max_age == max_age,
    {
        SessionCookie {
            name: owned(GITHUB_COOKIE),
            value,
            domain: owned(domain),
            path: owned("/"),
            secure: true,
            http_only: true,
            max_age,
        }
    }

    /// Stores the record in the jar as the session cookie, to live until the
    /// record expires as seen from the instant `now`. The time that is left
    /// has to be a number of seconds of 64 bits.
    pub fn add_cookie_at(
        &self,
        jar: PrivateCookieJar,
        token_cookie: &TokenCookie,
        ctx: &AppContext,
        now: i64,
    ) -> (out: PrivateCookieJar)
        requires
            i64::MIN <= token_cookie@.expires_at - now <= i64::MAX,
        ensures
            session_stored(
                jar_cookies(jar),
                jar_cookies(out),
                token_cookie@,
                ctx.domain@,
                now as int,
            ),
    {
        let max_age = token_cookie.expires_at() - now;
        let cookie = GitHubClient::session_cookie(
            token_cookie.encode(),
            ctx.domain.as_str(),
            max_age,
        );
        let out = jar_add(jar, &cookie);
        assert(jar_cookies(out).remove(GITHUB_COOKIE@) =~= jar_cookies(jar).remove(
            GITHUB_COOKIE@,
        ));
        out
    }

    /// Stores the record in the jar as the session cookie, to live until the
    /// record expires as seen from now. The time that is left has to be a
    /// number of seconds of 64 bits, whatever instant the clock shows.
    pub fn add_cookie(
        &self,
        jar: PrivateCookieJar,
        token_cookie: &TokenCookie,
        ctx: &AppContext,
    ) -> (out: PrivateCookieJar)
        requires
            i64::MIN + MAX_TIMESTAMP <= token_cookie@.expires_at <= i64::MAX + MIN_TIMESTAMP,
        ensures
            exists|now: int|
                representable(now) && #[trigger] session_stored(
                    jar_cookies(jar),
                    jar_cookies(out),
                    token_cookie@,
                    ctx.domain@,
                    now,
                ),
    {
        let now = now_timestamp();
        let out = self.add_cookie_at(jar, token_cookie, ctx, now);
        assert(session_stored(
            jar_cookies(jar),
            jar_cookies(out),
            token_cookie@,
            ctx.domain@,
            now as int,
        ));
        out
    }

    /// What an exchange with the provider's token endpoint leaves, of a code
    /// or of a refresh token alike. `exchange` is the provider's answer to
    /// the grant at the instant `now`, or the words of what went wrong on
    /// the way. The answer has to grant a bearer token with a lifetime; the
    /// record it grants is stored in the jar.
    pub fn store_grant_at(
        &self,
        jar: PrivateCookieJar,
        exchange: Result<TokenResponse, String>,
        ctx: &AppContext,
        now: i64,
    ) -> (res: (PrivateCookieJar, Result<TokenCookie, Box<KeaGitHubError>>))
        ensures
            grant_stored(jar, exchange, ctx.domain@, now as int, res),
    {
        let token_result = match exchange {
            Ok(response) => response,
            Err(message) => {
                return (jar, Err(Box::new(KeaGitHubError::OAuth2Error(message))));
            },
        };
        match token_result.token_type {
            TokenType::Bearer => (),
            _ => {
                return (jar, Err(Box::new(KeaGitHubError::InvalidTokenType)));
            },
        }
        let token_cookie = match GitHubClient::create_token_cookie_at(&token_result, now) {
            Ok(cookie) => cookie,
            Err(e) => {
                return (jar, Err(e));
            },
        };
        let out = self.add_cookie_at(jar, &token_cookie, ctx, now);
        (out, Ok(token_cookie))
    }

    /// What the exchange of a refresh token at the instant `now` leaves: the
    /// new record, stored in the jar, or the failure and the jar as it was.
    pub fn refresh_token_at(
        &self,
        jar: PrivateCookieJar,
        exchange: Result<TokenResponse, String>,
        ctx: &AppContext,
        now: i64,
    ) -> (res: (PrivateCookieJar, Result<TokenCookie, Box<KeaGitHubError>>))
        ensures
            grant_stored(jar, exchange, ctx.domain@, now as int, res),
    {
        self.store_grant_at(jar, exchange, ctx, now)
    }

    /// What the exchange of a refresh token leaves, where the answer has
    /// arrived now.
    pub fn refresh_token(
        &self,
        jar: PrivateCookieJar,
        exchange: Result<TokenResponse, String>,
        ctx: &AppContext,
    ) -> (res: (PrivateCookieJar, Result<TokenCookie, Box<KeaGitHubError>>))
        ensures
            exists|now: int|
                representable(now) && #[trigger] grant_stored(
                    jar,
                    exchange,
                    ctx.domain@,
                    now,
                    res,
                ),
    {
        let now = now_timestamp();
        let res = self.refresh_token_at(jar, exchange, ctx, now);
        assert(grant_stored(jar, exchange, ctx.domain@, now as int, res));
        res
    }

    /// Extract the record of the session cookie from the cookie jar.
    pub fn extract_token_cookie(&self, jar: &PrivateCookieJar) -> (res: Result<
        TokenCookie,
        Box<KeaGitHubError>,
    >)
        ensures
            match stored_record(jar_cookies(*jar)) {
                Ok(record) => res matches Ok(cookie) && cookie@ == record,
                Err(failure) => res matches Err(e) && e@ == failure,
            },
    {
        let value = match jar_get(jar, GITHUB_COOKIE) {
            Some(value) => value,
            None => {
                return Err(Box::new(KeaGitHubError::NoTokenCookie));
            },
        };
        match TokenCookie::decode(value.as_str()) {
            Some(cookie) => Ok(cookie),
            None => Err(Box::new(KeaGitHubError::TokenCookieDeserialization)),
        }
    }

    /// Check if the token is still valid given the current time.
    pub fn is_token_valid(&self, token_cookie: &TokenCookie) -> (valid: bool)
        ensures
            exists|now: int| #[trigger]
                representable(now) && valid == (now < token_cookie@.expires_at),
    {
        let now = now_timestamp();
        let valid = token_cookie.is_valid_at(now);
        assert(representable(now as int) && valid == (now < token_cookie@.expires_at));
        valid
    }

    /// Decides at the instant `now` what the session in the jar is good for:
    /// a handle on its token, a refresh first, or nothing.
    pub fn get_client_with_token_at(&self, jar: PrivateCookieJar, now: i64) -> (step: ClientStep)
        ensures
            client_step_of(jar, now as int, step),
    {
        let token_cookie = match self.extract_token_cookie(&jar) {
            Ok(cookie) => cookie,
            Err(_) => {
                return ClientStep::Failed {
                    jar,
                    error: Box::new(KeaGitHubError::NotAuthenticated),
                };
            },
        };
        match token_cookie.state_at(now) {
            TokenState::Expired => ClientStep::Failed {
                jar,
                error: Box::new(KeaGitHubError::NotAuthenticated),
            },
            TokenState::Stale => match clone_opt(token_cookie.refresh_token()) {
                Some(refresh_token) => ClientStep::Refresh { jar, refresh_token },
                None => ClientStep::Failed {
                    jar,
                    error: Box::new(KeaGitHubError::NotAuthenticated),
                },
            },
            TokenState::Fresh => {
                let access_token = owned(token_cookie.access_token().as_str());
                match self.create_github_user_client(access_token) {
                    Ok(client) => ClientStep::Ready { jar, client },
                    Err(error) => ClientStep::Failed { jar, error },
                }
            },
        }
    }

    /// Get a client with a valid token, or the refresh that has to come
    /// first, as things stand now.
    pub fn get_client_with_token(&self, jar: PrivateCookieJar) -> (step: ClientStep)
        ensures
            exists|now: int| representable(now) && #[trigger] client_step_of(jar, now, step),
    {
        let now = now_timestamp();
        let step = self.get_client_with_token_at(jar, now);
        assert(client_step_of(jar, now as int, step));
        step
    }

    /// What follows the resolution of a session, once it has come to a
    /// handle or to a failure: with a handle the provider is asked; a failure
    /// is handed on as it is, and the provider is not asked. The jar goes
    /// with either.
    pub fn session_step(resolved: (PrivateCookieJar, Result<ApiHandle, Box<KeaGitHubError>>)) -> (next:
        SessionStep)
        ensures
            match resolved.1 {
                Ok(handle) => next matches SessionStep::Ask { jar, client } && jar == resolved.0
                    && client == handle,
                Err(e) => next matches SessionStep::Done { jar, error } && jar == resolved.0
                    && error == e,
            },
    {
        let (jar, found) = resolved;
        match found {
            Ok(client) => SessionStep::Ask { jar, client },
            Err(error) => SessionStep::Done { jar, error },
        }
    }

    /// Ends the resolution of a session whose token had to be renewed, once
    /// the refresh grant met `exchange` at the instant `now`. A refresh that
    /// failed leaves no session. The jar comes back on every path, so that a
    /// record that was stored reaches the client.
    pub fn finish_refresh_at(
        &self,
        jar: PrivateCookieJar,
        exchange: Result<TokenResponse, String>,
        ctx: &AppContext,
        now: i64,
    ) -> (res: (PrivateCookieJar, Result<ApiHandle, Box<KeaGitHubError>>))
        ensures
            refresh_finished(jar, exchange, ctx.domain@, now as int, res),
    {
        let (out, refreshed) = self.refresh_token_at(jar, exchange, ctx, now);
        match refreshed {
            Ok(token_cookie) => {
                let access_token = owned(token_cookie.access_token().as_str());
                (out, self.create_github_user_client(access_token))
            },
            Err(_) => (out, Err(Box::new(KeaGitHubError::NotAuthenticated))),
        }
    }

    /// Ends the resolution of a session whose token had to be renewed, where
    /// the outcome of the refresh grant has arrived now.
    pub fn finish_refresh(
        &self,
        jar: PrivateCookieJar,
        exchange: Result<TokenResponse, String>,
        ctx: &AppContext,
    ) -> (res: (PrivateCookieJar, Result<ApiHandle, Box<KeaGitHubError>>))
        ensures
            exists|now: int|
                representable(now) && #[trigger] refresh_finished(
                    jar,
                    exchange,
                    ctx.domain@,
                    now,
                    res,
                ),
    {
        let now = now_timestamp();
        let res = self.finish_refresh_at(jar, exchange, ctx, now);
        assert(refresh_finished(jar, exchange, ctx.domain@, now as int, res));
        res
    }
}

} // verus!
