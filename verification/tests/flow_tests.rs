use axum::http::header::SET_COOKIE;
use axum::response::IntoResponse;
use axum_extra::extract::cookie::{Cookie, Key, PrivateCookieJar};
use kea_server::auth::{me, SignInStep};
use kea_server::client::{ApiHandle, ClientStep, GitHubClient, SessionStep, GITHUB_COOKIE};
use kea_server::error::{ApiFailure, GitHubFailure, KeaGitHubError};
use kea_server::models::Author;
use kea_server::scm_client::{AuthResponse, Params, ScmUser};
use kea_server::state::AppContext;
use kea_server::token::{TokenCookie, TokenResponse, TokenType};

const NOW: i64 = 1_700_000_000;

fn key() -> Key {
    Key::from(&[3u8; 64])
}

fn context() -> AppContext {
    AppContext {
        domain: "kea.example".to_string(),
        port: 8080,
        client_url: "https://app.example/home".to_string(),
        cookie_timeout_secs: 30,
    }
}

fn client() -> GitHubClient {
    GitHubClient::new("client-id".to_string(), "client-secret".to_string())
}

/// A jar that holds one cookie beside the session, by which it is known
/// again.
fn marked_jar() -> PrivateCookieJar {
    PrivateCookieJar::new(key()).add(Cookie::new("theme", "dark"))
}

fn marked(jar: &PrivateCookieJar) -> bool {
    jar.get("theme").map(|c| c.value().to_string()) == Some("dark".to_string())
}

fn jar_with(record: &TokenCookie, now: i64) -> PrivateCookieJar {
    client().add_cookie_at(marked_jar(), record, &context(), now)
}

fn bearer(expires_in: Option<u64>, refresh_token: Option<&str>) -> TokenResponse {
    TokenResponse {
        access_token: "gho_new".to_string(),
        token_type: TokenType::Bearer,
        expires_in,
        refresh_token: refresh_token.map(|t| t.to_string()),
    }
}

fn stored_record(jar: &PrivateCookieJar) -> TokenCookie {
    match client().extract_token_cookie(jar) {
        Ok(record) => record,
        Err(e) => panic!("no record: {:?}", e),
    }
}

fn ready(step: ClientStep) -> (PrivateCookieJar, ApiHandle) {
    match step {
        ClientStep::Ready { jar, client } => (jar, client),
        ClientStep::Refresh { .. } => panic!("a refresh is asked for"),
        ClientStep::Failed { error, .. } => panic!("failed: {:?}", error),
    }
}

fn refresh(step: ClientStep) -> (PrivateCookieJar, String) {
    match step {
        ClientStep::Refresh { jar, refresh_token } => (jar, refresh_token),
        ClientStep::Ready { .. } => panic!("the token is used as it is"),
        ClientStep::Failed { error, .. } => panic!("failed: {:?}", error),
    }
}

fn failed(step: ClientStep) -> (PrivateCookieJar, KeaGitHubError) {
    match step {
        ClientStep::Failed { jar, error } => (jar, *error),
        ClientStep::Ready { .. } => panic!("the token is used as it is"),
        ClientStep::Refresh { .. } => panic!("a refresh is asked for"),
    }
}

fn went<T>(res: Result<T, Box<KeaGitHubError>>) -> T {
    match res {
        Ok(value) => value,
        Err(e) => panic!("failed: {:?}", e),
    }
}

fn refusal<T>(res: Result<T, Box<KeaGitHubError>>) -> KeaGitHubError {
    match res {
        Ok(_) => panic!("it went through"),
        Err(e) => *e,
    }
}

fn set_cookies(jar: PrivateCookieJar) -> Vec<String> {
    jar.into_response()
        .headers()
        .get_all(SET_COOKIE)
        .iter()
        .map(|v| v.to_str().unwrap_or("").to_string())
        .collect()
}

// Resolving a session.

#[test]
fn a_fresh_token_is_used_without_a_refresh() {
    let record = TokenCookie::new("gho_fresh".to_string(), Some("ghr".to_string()), NOW + 301);
    let (jar, handle) = ready(client().get_client_with_token_at(jar_with(&record, NOW), NOW));
    assert_eq!(handle.access_token().as_str(), "gho_fresh");
    assert_eq!(stored_record(&jar).expires_at(), NOW + 301);
    assert!(marked(&jar));
}

#[test]
fn a_token_with_exactly_the_threshold_left_is_used_without_a_refresh() {
    let record = TokenCookie::new("gho_fresh".to_string(), None, NOW + 300);
    let (_, handle) = ready(client().get_client_with_token_at(jar_with(&record, NOW), NOW));
    assert_eq!(handle.access_token().as_str(), "gho_fresh");
}

#[test]
fn a_stale_token_with_a_refresh_token_asks_for_one_refresh() {
    let record = TokenCookie::new("gho_stale".to_string(), Some("ghr_once".to_string()), NOW + 299);
    let (jar, refresh_token) = refresh(client().get_client_with_token_at(jar_with(&record, NOW), NOW));
    assert_eq!(refresh_token, "ghr_once");
    assert_eq!(stored_record(&jar).access_token().as_str(), "gho_stale");
    assert!(marked(&jar));
}

#[test]
fn a_refreshed_token_expires_later_than_the_stale_one() {
    let record = TokenCookie::new("gho_stale".to_string(), Some("ghr_once".to_string()), NOW + 120);
    let (jar, _) = refresh(client().get_client_with_token_at(jar_with(&record, NOW), NOW));
    let (jar, res) = client().finish_refresh_at(jar, Ok(bearer(Some(28_800), Some("ghr_next"))), &context(), NOW + 1);
    assert_eq!(went(res).access_token().as_str(), "gho_new");
    let renewed = stored_record(&jar);
    assert_eq!(renewed.expires_at(), NOW + 1 + 28_800);
    assert!(renewed.expires_at() > record.expires_at());
    assert_eq!(renewed.refresh_token().as_deref(), Some("ghr_next"));
    let age = jar.get(GITHUB_COOKIE).and_then(|c| c.max_age()).map(|d| d.whole_seconds());
    assert_eq!(age, Some(28_800));
    assert!(marked(&jar));
}

#[test]
fn a_refresh_with_a_short_lifetime_may_expire_earlier() {
    let record = TokenCookie::new("gho_stale".to_string(), Some("ghr_once".to_string()), NOW + 200);
    let (jar, _) = refresh(client().get_client_with_token_at(jar_with(&record, NOW), NOW));
    let (jar, res) = client().finish_refresh_at(jar, Ok(bearer(Some(100), None)), &context(), NOW);
    assert!(res.is_ok());
    assert_eq!(stored_record(&jar).expires_at(), NOW + 100);
}

#[test]
fn a_refreshed_token_needs_no_second_refresh() {
    let record = TokenCookie::new("gho_stale".to_string(), Some("ghr_once".to_string()), NOW + 1);
    let (jar, _) = refresh(client().get_client_with_token_at(jar_with(&record, NOW), NOW));
    let (jar, res) = client().finish_refresh_at(jar, Ok(bearer(Some(3600), Some("ghr_next"))), &context(), NOW);
    assert!(res.is_ok());
    let (_, handle) = ready(client().get_client_with_token_at(jar, NOW + 1));
    assert_eq!(handle.access_token().as_str(), "gho_new");
}

#[test]
fn a_stale_token_without_a_refresh_token_is_no_session() {
    let record = TokenCookie::new("gho_stale".to_string(), None, NOW + 299);
    let (jar, failure) = failed(client().get_client_with_token_at(jar_with(&record, NOW), NOW));
    assert!(matches!(failure, KeaGitHubError::NotAuthenticated));
    assert!(marked(&jar));
}

#[test]
fn an_expired_token_is_no_session_even_with_a_refresh_token() {
    for expires_at in [NOW, NOW - 1, NOW - 100_000] {
        let record = TokenCookie::new("gho_old".to_string(), Some("ghr".to_string()), expires_at);
        let (_, failure) = failed(client().get_client_with_token_at(jar_with(&record, NOW - 200_000), NOW));
        assert!(matches!(failure, KeaGitHubError::NotAuthenticated));
    }
}

#[test]
fn an_expired_token_without_a_refresh_token_is_no_session() {
    let record = TokenCookie::new("gho_old".to_string(), None, NOW - 5);
    let (_, failure) = failed(client().get_client_with_token_at(jar_with(&record, NOW - 10), NOW));
    assert!(matches!(failure, KeaGitHubError::NotAuthenticated));
}

#[test]
fn a_request_without_a_cookie_is_no_session() {
    let (jar, failure) = failed(client().get_client_with_token_at(marked_jar(), NOW));
    assert!(matches!(failure, KeaGitHubError::NotAuthenticated));
    assert!(marked(&jar));
}

#[test]
fn a_cookie_without_a_record_is_no_session() {
    let jar = PrivateCookieJar::new(key()).add(Cookie::new(GITHUB_COOKIE, "{\"access_token\":\"half\"}"));
    let (_, failure) = failed(client().get_client_with_token_at(jar, NOW));
    assert!(matches!(failure, KeaGitHubError::NotAuthenticated));
}

#[test]
fn a_fresh_token_that_cannot_be_sent_gives_no_handle() {
    let record = TokenCookie::new("gho_\nbroken".to_string(), None, NOW + 1000);
    match failed(client().get_client_with_token_at(jar_with(&record, NOW), NOW)) {
        (jar, KeaGitHubError::ClientConstruction(words)) => {
            assert_eq!(words, "failed to parse header value");
            assert!(marked(&jar));
        }
        (_, other) => panic!("unexpected failure: {:?}", other),
    }
}

#[test]
fn a_session_is_resolved_as_things_stand_now() {
    let now = time::OffsetDateTime::now_utc().unix_timestamp();
    let fresh = TokenCookie::new("gho_fresh".to_string(), None, now + 10_000);
    let (_, handle) = ready(client().get_client_with_token(jar_with(&fresh, now)));
    assert_eq!(handle.access_token().as_str(), "gho_fresh");
    let stale = TokenCookie::new("gho_stale".to_string(), Some("ghr".to_string()), now + 100);
    let (_, refresh_token) = refresh(client().get_client_with_token(jar_with(&stale, now)));
    assert_eq!(refresh_token, "ghr");
    let old = TokenCookie::new("gho_old".to_string(), Some("ghr".to_string()), now - 100);
    let (_, failure) = failed(client().get_client_with_token(jar_with(&old, now - 200)));
    assert!(matches!(failure, KeaGitHubError::NotAuthenticated));
}

// The handle.

#[test]
fn a_handle_carries_the_token_it_was_made_of() {
    let handle = went(client().create_github_user_client("SECRET-REDACTED".to_string()));
    assert_eq!(handle.access_token().as_str(), "SECRET-REDACTED");
}

#[test]
fn a_handle_takes_a_token_of_printable_text_tabs_and_letters_beyond_ascii() {
    for token in ["", " spaced out ", "tab\there", "caf\u{e9}", "~!@#$%^&*()"] {
        assert!(client().create_github_user_client(token.to_string()).is_ok(), "refused {:?}", token);
    }
}

#[test]
fn a_handle_is_refused_to_a_token_with_control_characters() {
    for token in ["line\nbreak", "carriage\rreturn", "nul\u{0}", "delete\u{7f}", "escape\u{1b}"] {
        match refusal(client().create_github_user_client(token.to_string())) {
            KeaGitHubError::ClientConstruction(words) => assert_eq!(words, "failed to parse header value"),
            other => panic!("unexpected failure: {:?}", other),
        }
    }
}

// The refresh.

#[test]
fn a_refresh_stores_the_new_record() {
    let record = TokenCookie::new("gho_stale".to_string(), Some("ghr_once".to_string()), NOW + 10);
    let (jar, res) = client().refresh_token_at(jar_with(&record, NOW), Ok(bearer(Some(600), None)), &context(), NOW + 5);
    let renewed = went(res);
    assert_eq!(renewed.access_token().as_str(), "gho_new");
    assert_eq!(renewed.expires_at(), NOW + 605);
    assert_eq!(*renewed.refresh_token(), None);
    assert_eq!(stored_record(&jar).expires_at(), NOW + 605);
    assert!(marked(&jar));
}

#[test]
fn a_refresh_that_failed_on_the_way_reports_the_words() {
    let (jar, res) = client().refresh_token_at(
        marked_jar(),
        Err("Server returned error response: bad_refresh_token".to_string()),
        &context(),
        NOW,
    );
    match refusal(res) {
        KeaGitHubError::OAuth2Error(message) => {
            assert_eq!(message, "Server returned error response: bad_refresh_token")
        }
        other => panic!("unexpected failure: {:?}", other),
    }
    assert!(marked(&jar));
    assert!(jar.get(GITHUB_COOKIE).is_none());
}

#[test]
fn a_refresh_that_grants_another_kind_of_token_is_refused() {
    let mut response = bearer(Some(600), None);
    response.token_type = TokenType::Extension("dpop".to_string());
    let (jar, res) = client().refresh_token_at(marked_jar(), Ok(response), &context(), NOW);
    assert!(matches!(refusal(res), KeaGitHubError::InvalidTokenType));
    assert!(jar.get(GITHUB_COOKIE).is_none());
}

#[test]
fn a_refresh_without_a_lifetime_is_refused() {
    let (jar, res) = client().refresh_token_at(marked_jar(), Ok(bearer(None, None)), &context(), NOW);
    match refusal(res) {
        KeaGitHubError::TokenCookieConstruction(message) => assert_eq!(message, "No expiry time received"),
        other => panic!("unexpected failure: {:?}", other),
    }
    assert!(jar.get(GITHUB_COOKIE).is_none());
}

#[test]
fn a_refresh_that_failed_leaves_no_session_and_the_jar_as_it_was() {
    let failures: Vec<Result<TokenResponse, String>> = vec![
        Err("timed out".to_string()),
        Ok(bearer(None, Some("ghr"))),
        Ok(TokenResponse {
            access_token: "x".to_string(),
            token_type: TokenType::Mac,
            expires_in: Some(600),
            refresh_token: None,
        }),
    ];
    for exchange in failures {
        let record = TokenCookie::new("gho_stale".to_string(), Some("ghr_once".to_string()), NOW + 10);
        let (jar, res) = client().finish_refresh_at(jar_with(&record, NOW), exchange, &context(), NOW);
        assert!(matches!(refusal(res), KeaGitHubError::NotAuthenticated));
        assert_eq!(stored_record(&jar).access_token().as_str(), "gho_stale");
        assert!(marked(&jar));
    }
}

#[test]
fn a_refreshed_token_that_cannot_be_sent_is_stored_all_the_same() {
    let mut response = bearer(Some(600), Some("ghr_next"));
    response.access_token = "gho_\u{7}bell".to_string();
    let (jar, res) = client().finish_refresh_at(marked_jar(), Ok(response), &context(), NOW);
    assert!(matches!(refusal(res), KeaGitHubError::ClientConstruction(_)));
    assert_eq!(stored_record(&jar).expires_at(), NOW + 600);
}

#[test]
fn a_refresh_answered_now_expires_a_lifetime_from_now() {
    let before = time::OffsetDateTime::now_utc().unix_timestamp();
    let (_, res) = client().refresh_token(marked_jar(), Ok(bearer(Some(900), None)), &context());
    let after = time::OffsetDateTime::now_utc().unix_timestamp();
    let renewed = went(res);
    assert!(before + 900 <= renewed.expires_at() && renewed.expires_at() <= after + 900);
    let (jar, res) = client().finish_refresh(marked_jar(), Ok(bearer(Some(900), None)), &context());
    assert_eq!(went(res).access_token().as_str(), "gho_new");
    assert!(stored_record(&jar).expires_at() >= before + 900);
}

// Signing in.

#[test]
fn a_request_without_an_answer_is_sent_to_the_provider() {
    let (jar, location) = match client().sign_in(None, marked_jar(), &context()) {
        SignInStep::Redirect { jar, location } => (jar, location),
        other => panic!("unexpected step: {:?}", other),
    };
    assert!(location.starts_with("https://github.com/login/oauth/authorize?"));
    assert!(location.contains("response_type=code"));
    assert!(location.contains("client_id=client-id"));
    assert!(location.contains("redirect_uri=http%3A%2F%2Fkea.example%3A8080%2Fgithub%2Fsignin"));
    assert!(location.contains("state="));
    assert!(!location.contains("client-secret"));
    assert!(marked(&jar));
    assert!(jar.get(GITHUB_COOKIE).is_none());
}

#[test]
fn each_sign_in_carries_a_token_of_its_own() {
    let state_of = |step: SignInStep| match step {
        SignInStep::Redirect { location, .. } => location
            .split('&')
            .find(|pair| pair.starts_with("state="))
            .map(|pair| pair.to_string()),
        other => panic!("unexpected step: {:?}", other),
    };
    let first = state_of(client().sign_in(None, marked_jar(), &context()));
    let second = state_of(client().sign_in(None, marked_jar(), &context()));
    assert!(first.is_some());
    assert_ne!(first, second);
}

#[test]
fn a_server_without_a_sound_address_cannot_start_a_sign_in() {
    let mut ctx = context();
    ctx.domain = "not a host".to_string();
    match client().sign_in(None, marked_jar(), &ctx) {
        SignInStep::Failed { jar, error } => {
            assert!(matches!(*error, KeaGitHubError::OAuth2Error(_)));
            assert!(marked(&jar));
        }
        other => panic!("unexpected step: {:?}", other),
    }
}

#[test]
fn the_step_that_starts_a_sign_in_follows_the_address() {
    match GitHubClient::authorize_step(marked_jar(), Ok("https://provider.example/authorize?state=x".to_string())) {
        SignInStep::Redirect { jar, location } => {
            assert_eq!(location, "https://provider.example/authorize?state=x");
            assert!(marked(&jar));
        }
        other => panic!("unexpected step: {:?}", other),
    }
    match GitHubClient::authorize_step(marked_jar(), Err("relative URL without a base".to_string())) {
        SignInStep::Failed { jar, error } => {
            match *error {
                KeaGitHubError::OAuth2Error(message) => assert_eq!(message, "relative URL without a base"),
                other => panic!("unexpected failure: {:?}", other),
            }
            assert!(marked(&jar));
        }
        other => panic!("unexpected step: {:?}", other),
    }
}

#[test]
fn a_refusal_by_the_provider_is_passed_on_word_for_word() {
    let params = Params {
        code: None,
        error: Some("access_denied".to_string()),
        error_description: Some("The user has denied your application access.".to_string()),
        error_url: Some("https://docs.github.com/apps/troubleshooting".to_string()),
    };
    let answer = AuthResponse::from_request_parts(params);
    let (jar, failure) = match client().sign_in(answer, marked_jar(), &context()) {
        SignInStep::Failed { jar, error } => (jar, *error),
        other => panic!("unexpected step: {:?}", other),
    };
    assert_eq!(failure.status_code(), 401);
    assert_eq!(
        failure.body(),
        "access_denied: The user has denied your application access.\nhttps://docs.github.com/apps/troubleshooting"
    );
    match failure {
        KeaGitHubError::Auth { error, error_description, error_url } => {
            assert_eq!(error, "access_denied");
            assert_eq!(error_description, "The user has denied your application access.");
            assert_eq!(error_url, "https://docs.github.com/apps/troubleshooting");
        }
        other => panic!("unexpected failure: {:?}", other),
    }
    assert!(jar.get(GITHUB_COOKIE).is_none());
    assert!(set_cookies(jar).iter().all(|set| !set.starts_with("github-tokens=")));
}

#[test]
fn an_authorization_asks_for_the_exchange_of_its_code() {
    let answer = Some(AuthResponse::Success { code: "abc123".to_string() });
    match client().sign_in(answer, marked_jar(), &context()) {
        SignInStep::Exchange { jar, code } => {
            assert_eq!(code, "abc123");
            assert!(marked(&jar));
            assert!(jar.get(GITHUB_COOKIE).is_none());
        }
        other => panic!("unexpected step: {:?}", other),
    }
}

#[test]
fn a_granted_bearer_token_is_stored_and_the_client_sent_home() {
    let exchange = Ok(TokenResponse {
        access_token: "gho_granted".to_string(),
        token_type: TokenType::Bearer,
        expires_in: Some(3600),
        refresh_token: Some("r1".to_string()),
    });
    let (jar, res) = client().complete_sign_in_at(PrivateCookieJar::new(key()), exchange, &context(), NOW);
    assert_eq!(went(res), "https://app.example/home");
    let record = stored_record(&jar);
    assert_eq!(record.expires_at(), NOW + 3600);
    assert_eq!(record.access_token().as_str(), "gho_granted");
    assert_eq!(record.refresh_token().as_deref(), Some("r1"));
    let age = jar.get(GITHUB_COOKIE).and_then(|c| c.max_age()).map(|d| d.whole_seconds());
    assert_eq!(age, Some(3600));
    assert_eq!(set_cookies(jar).len(), 1);
}

#[test]
fn a_sign_in_completed_now_expires_a_lifetime_from_now() {
    let before = time::OffsetDateTime::now_utc().unix_timestamp();
    let (jar, res) = client().complete_sign_in(marked_jar(), Ok(bearer(Some(3600), Some("r1"))), &context());
    let after = time::OffsetDateTime::now_utc().unix_timestamp();
    let record = stored_record(&jar);
    assert!(before + 3600 <= record.expires_at() && record.expires_at() <= after + 3600);
    assert_eq!(went(res), "https://app.example/home");
}

#[test]
fn a_granted_mac_token_is_refused_and_no_cookie_set() {
    let exchange = Ok(TokenResponse {
        access_token: "mac_granted".to_string(),
        token_type: TokenType::Mac,
        expires_in: Some(3600),
        refresh_token: Some("r1".to_string()),
    });
    let (jar, res) = client().complete_sign_in_at(PrivateCookieJar::new(key()), exchange, &context(), NOW);
    let failure = refusal(res);
    assert!(matches!(failure, KeaGitHubError::InvalidTokenType));
    assert_eq!(failure.status_code(), 500);
    assert!(jar.get(GITHUB_COOKIE).is_none());
    assert!(set_cookies(jar).is_empty());
}

#[test]
fn a_granted_token_without_a_lifetime_is_refused() {
    let (jar, res) = client().complete_sign_in_at(marked_jar(), Ok(bearer(None, Some("r1"))), &context(), NOW);
    match refusal(res) {
        KeaGitHubError::TokenCookieConstruction(message) => assert_eq!(message, "No expiry time received"),
        other => panic!("unexpected failure: {:?}", other),
    }
    assert!(jar.get(GITHUB_COOKIE).is_none());
}

#[test]
fn an_exchange_that_failed_ends_the_sign_in() {
    let (jar, res) = client().complete_sign_in_at(
        marked_jar(),
        Err("Request failed: connection refused".to_string()),
        &context(),
        NOW,
    );
    match refusal(res) {
        KeaGitHubError::OAuth2Error(message) => assert_eq!(message, "Request failed: connection refused"),
        other => panic!("unexpected failure: {:?}", other),
    }
    assert!(marked(&jar));
    assert!(jar.get(GITHUB_COOKIE).is_none());
}

// Signing out.

#[test]
fn signing_out_overwrites_the_session_with_an_expired_cookie() {
    let record = TokenCookie::new("gho_live".to_string(), Some("ghr".to_string()), NOW + 5000);
    let (jar, res) = client().sign_out(jar_with(&record, NOW), &context());
    assert_eq!(went(res), "https://app.example/home");
    let cookie = match jar.get(GITHUB_COOKIE) {
        Some(cookie) => cookie,
        None => panic!("no cookie"),
    };
    assert_eq!(cookie.value(), "");
    assert_eq!(cookie.max_age().map(|d| d.whole_seconds()), Some(-1));
    assert_eq!(cookie.domain(), Some("kea.example"));
    assert_eq!(cookie.path(), Some("/"));
    assert_eq!(cookie.secure(), Some(true));
    assert_eq!(cookie.http_only(), Some(true));
}

#[test]
fn signing_out_without_a_session_sets_the_same_expired_cookie() {
    let (jar, res) = client().sign_out(PrivateCookieJar::new(key()), &context());
    assert!(res.is_ok());
    let age = jar.get(GITHUB_COOKIE).and_then(|c| c.max_age()).map(|d| d.whole_seconds());
    assert_eq!(age, Some(-1));
    assert!(age.map(|a| a <= 0).unwrap_or(false));
    let set = set_cookies(jar);
    assert_eq!(set.len(), 1);
    assert!(set[0].starts_with("github-tokens="));
    assert!(set[0].contains("Max-Age=-1") || set[0].contains("Max-Age=0"));
}

#[test]
fn signing_out_over_an_unreadable_cookie_works_too() {
    let jar = PrivateCookieJar::new(key()).add(Cookie::new(GITHUB_COOKIE, "rubbish"));
    let (jar, res) = client().sign_out(jar, &context());
    assert!(res.is_ok());
    let cookie = jar.get(GITHUB_COOKIE);
    assert_eq!(cookie.as_ref().map(|c| c.value().to_string()), Some(String::new()));
    assert_eq!(cookie.and_then(|c| c.max_age()).map(|d| d.whole_seconds()), Some(-1));
}

#[test]
fn signing_out_leaves_other_cookies_alone() {
    let (jar, _) = client().sign_out(marked_jar(), &context());
    assert!(marked(&jar));
}

#[test]
fn after_signing_out_there_is_no_session() {
    let record = TokenCookie::new("gho_live".to_string(), Some("ghr".to_string()), NOW + 5000);
    let (jar, _) = client().sign_out(jar_with(&record, NOW), &context());
    let (_, failure) = failed(client().get_client_with_token_at(jar, NOW));
    assert!(matches!(failure, KeaGitHubError::NotAuthenticated));
}

// Who is signed in.

#[test]
fn the_user_behind_a_session_is_the_one_the_provider_describes() {
    let author = Author {
        id: 583231,
        login: "octocat".to_string(),
        avatar_url: "https://avatars.githubusercontent.com/u/583231?v=4".to_string(),
    };
    let (jar, res) = client().get_cookie_user(marked_jar(), Ok(author));
    assert_eq!(
        went(res),
        ScmUser {
            id: "583231".to_string(),
            login: "octocat".to_string(),
            avatar_url: "https://avatars.githubusercontent.com/u/583231?v=4".to_string(),
        }
    );
    assert!(marked(&jar));
}

#[test]
fn a_failed_call_for_the_user_is_reported_as_the_providers() {
    let failure = ApiFailure {
        description: "Bad credentials".to_string(),
        github: Some(GitHubFailure { status: "401 Unauthorized".to_string(), message: "Bad credentials".to_string() }),
    };
    let (jar, res) = client().get_cookie_user(marked_jar(), Err(failure));
    let failure = refusal(res);
    assert_eq!(failure.status_code(), 500);
    assert_eq!(failure.body(), "401 Unauthorized: Bad credentials");
    assert_eq!(failure.message(), "GitHub API error: Bad credentials");
    assert!(marked(&jar));
}

#[test]
fn nobody_is_signed_in_where_resolving_failed() {
    let (jar, who) = me((marked_jar(), Err(Box::new(KeaGitHubError::NotAuthenticated))));
    assert_eq!(who.github, None);
    assert!(marked(&jar));
}

#[test]
fn the_resolved_user_is_signed_in_and_the_jar_goes_back() {
    let user = ScmUser::new("1".to_string(), "octocat".to_string(), "https://a.example/1".to_string());
    let (jar, who) = me((marked_jar(), Ok(user.clone())));
    assert_eq!(who.github, Some(user));
    assert!(marked(&jar));
}

#[test]
fn a_refresh_reaches_the_client_though_the_call_for_the_user_failed() {
    let record = TokenCookie::new("gho_stale".to_string(), Some("ghr_once".to_string()), NOW + 10);
    let (jar, _) = refresh(client().get_client_with_token_at(jar_with(&record, NOW), NOW));
    let (jar, res) = client().finish_refresh_at(jar, Ok(bearer(Some(3600), None)), &context(), NOW);
    assert!(res.is_ok());
    let failure = ApiFailure { description: "boom".to_string(), github: None };
    let (jar, who) = me(client().get_cookie_user(jar, Err(failure)));
    assert_eq!(who.github, None);
    assert_eq!(stored_record(&jar).access_token().as_str(), "gho_new");
    let set = set_cookies(jar);
    assert!(set.iter().any(|s| s.starts_with("github-tokens=") && s.contains("Max-Age=3600")));
}

// What follows the resolution.

#[test]
fn a_failure_to_make_a_handle_is_no_failure_of_the_provider() {
    let failure = refusal(client().create_github_user_client("bad\ntoken".to_string()));
    assert!(!matches!(failure, KeaGitHubError::Api(_)));
    assert_eq!(failure.status_code(), 500);
    assert_eq!(failure.message(), "GitHub client construction error: failed to parse header value");
    assert_eq!(failure.body(), failure.message());
}

#[test]
fn two_handles_share_nothing() {
    let first = went(client().create_github_user_client("gho_one".to_string()));
    let second = went(client().create_github_user_client("gho_two".to_string()));
    assert_eq!(first.access_token().as_str(), "gho_one");
    assert_eq!(second.access_token().as_str(), "gho_two");
}

#[test]
fn with_a_handle_the_provider_is_asked() {
    let handle = went(client().create_github_user_client("gho_fresh".to_string()));
    match GitHubClient::session_step((marked_jar(), Ok(handle))) {
        SessionStep::Ask { jar, client } => {
            assert_eq!(client.access_token().as_str(), "gho_fresh");
            assert!(marked(&jar));
        }
        SessionStep::Done { error, .. } => panic!("done: {:?}", error),
    }
}

#[test]
fn without_a_session_the_provider_is_not_asked_and_the_failure_handed_on() {
    let failures = vec![
        KeaGitHubError::NotAuthenticated,
        KeaGitHubError::ClientConstruction("failed to parse header value".to_string()),
        KeaGitHubError::OAuth2Error("timed out".to_string()),
    ];
    for failure in failures {
        let words = failure.message();
        match GitHubClient::session_step((marked_jar(), Err(Box::new(failure)))) {
            SessionStep::Done { jar, error } => {
                assert_eq!(error.message(), words);
                assert!(marked(&jar));
            }
            SessionStep::Ask { .. } => panic!("the provider is asked"),
        }
    }
}

#[test]
fn an_absent_session_ends_before_the_provider_is_asked() {
    let step = client().get_client_with_token_at(marked_jar(), NOW);
    let (jar, failure) = failed(step);
    match GitHubClient::session_step((jar, Err(Box::new(failure)))) {
        SessionStep::Done { jar, error } => {
            assert!(matches!(*error, KeaGitHubError::NotAuthenticated));
            let (jar, who) = me((jar, Err(error)));
            assert_eq!(who.github, None);
            assert!(marked(&jar));
        }
        SessionStep::Ask { .. } => panic!("the provider is asked"),
    }
}
