//! The token record of a session and how one is minted from the provider's
//! token response.

use vstd::prelude::*;
use crate::clock::instant_after;
use crate::error::ErrorView;
use crate::json::{json_field, json_member, json_object, json_text, JsonField, JsonMember};
use crate::text::opt_text;

verus! {

/// The scheme under which the provider says a token is to be presented.
#[derive(Debug, Clone, PartialEq)]
pub enum TokenType {
    Bearer,
    Mac,
    Extension(String),
}

/// What the provider's token endpoint answered to a grant.
pub struct TokenResponse {
    pub access_token: String,
    pub token_type: TokenType,
    /// Lifetime of the access token in seconds, where the provider gave one.
    pub expires_in: Option<u64>,
    pub refresh_token: Option<String>,
}

/// The unit of session state: the tokens and the instant they expire.
pub struct TokenCookie {
    access_token: String,
    refresh_token: Option<String>,
    /// The expiry time of the token in seconds since the Unix epoch.
    expires_at: i64,
}

/// Seconds of remaining lifetime under which a token is renewed before it is
/// used.
pub const REFRESH_THRESHOLD_SECS: i64 = 300;

/// How far a token is from its expiry.
#[derive(Debug, Clone, Copy, PartialEq, Eq, Structural)]
pub enum TokenState {
    /// At least the refresh threshold is left: the token is used as it is.
    Fresh,
    /// Less than the refresh threshold is left: the token is renewed first.
    Stale,
    /// Nothing is left: the token is no longer a session.
    Expired,
}

/// The state at the instant `now` of a token that expires at `expires_at`.
pub open spec fn token_state(expires_at: int, now: int) -> TokenState {
    if expires_at - now <= 0 {
        TokenState::Expired
    } else if expires_at - now < REFRESH_THRESHOLD_SECS {
        TokenState::Stale
    } else {
        TokenState::Fresh
    }
}

/// How old a state is: a fresh token is the youngest, an expired one the
/// oldest.
pub open spec fn age(state: TokenState) -> int {
    match state {
        TokenState::Fresh => 0,
        TokenState::Stale => 1,
        TokenState::Expired => 2,
    }
}

/// A token only ages: as time goes on it passes from fresh to stale to
/// expired, and never back.
pub proof fn lemma_token_only_ages(expires_at: int, earlier: int, later: int)
    requires
        earlier <= later,
    ensures
        age(token_state(expires_at, earlier)) <= age(token_state(expires_at, later)),
{
}

/// The mathematical content of a [`TokenCookie`].
pub ghost struct TokenRecord {
    pub access_token: Seq<char>,
    pub refresh_token: Option<Seq<char>>,
    pub expires_at: int,
}

impl View for TokenCookie {
    type V = TokenRecord;

    closed spec fn view(&self) -> TokenRecord {
        TokenRecord {
            access_token: self.access_token@,
            refresh_token: opt_text(self.refresh_token),
            expires_at: self.expires_at as int,
        }
    }
}

/// What minting a record from a token response at the instant `now` gives.
pub open spec fn minted(
    access_token: Seq<char>,
    refresh_token: Option<Seq<char>>,
    expires_in: Option<u64>,
    now: int,
) -> Result<TokenRecord, ErrorView> {
    match expires_in {
        None => Err(ErrorView::TokenCookieConstruction("No expiry time received"@)),
        Some(secs) => if secs > i64::MAX {
            Err(ErrorView::TokenCookieConstruction("Token expiry time too large"@))
        } else {
            match instant_after(now, secs as int) {
                None => Err(ErrorView::TokenCookieConstruction("Failed to calculate expiry time"@)),
                Some(expires_at) => Ok(TokenRecord { access_token, refresh_token, expires_at }),
            }
        },
    }
}

/// The record that three members of a JSON object stand for: the access
/// token must be a string, the refresh token a string, `null` or absent, the
/// expiry an integer.
pub open spec fn record_of_members(
    access_token: JsonMember,
    refresh_token: JsonMember,
    expires_at: JsonMember,
) -> Option<TokenRecord> {
    match (access_token, refresh_token, expires_at) {
        (JsonMember::Text(a), JsonMember::Text(r), JsonMember::Integer(e)) => Some(
            TokenRecord { access_token: a, refresh_token: Some(r), expires_at: e },
        ),
        (JsonMember::Text(a), JsonMember::Null, JsonMember::Integer(e)) => Some(
            TokenRecord { access_token: a, refresh_token: None, expires_at: e },
        ),
        (JsonMember::Text(a), JsonMember::Missing, JsonMember::Integer(e)) => Some(
            TokenRecord { access_token: a, refresh_token: None, expires_at: e },
        ),
        _ => None,
    }
}

/// The cookie value of a record: a JSON object of its three fields.
pub open spec fn encoded(record: TokenRecord) -> Seq<char> {
    json_text(
        "access_token"@,
        record.access_token,
        "refresh_token"@,
        record.refresh_token,
        "expires_at"@,
        record.expires_at,
    )
}

/// The record that a cookie value decodes to, if it is one.
pub open spec fn decoded(text: Seq<char>) -> Option<TokenRecord> {
    record_of_members(
        json_member(text, "access_token"@),
        json_member(text, "refresh_token"@),
        json_member(text, "expires_at"@),
    )
}

/// The view of an optional record.
pub open spec fn opt_record(cookie: Option<TokenCookie>) -> Option<TokenRecord> {
    match cookie {
        Some(c) => Some(c@),
        None => None,
    }
}

proof fn lemma_keys_differ()
    ensures
        "access_token"@ != "refresh_token"@,
        "access_token"@ != "expires_at"@,
        "refresh_token"@ != "expires_at"@,
{
    reveal_strlit("access_token");
    reveal_strlit("refresh_token");
    reveal_strlit("expires_at");
    assert("access_token"@.len() == 12);
    assert("refresh_token"@.len() == 13);
    assert("expires_at"@.len() == 10);
}

impl TokenCookie {
    /// The record of these tokens, to expire at the instant `expires_at`.
    pub fn new(access_token: String, refresh_token: Option<String>, expires_at: i64) -> (cookie:
        TokenCookie)
        ensures
            cookie@ == (TokenRecord {
                access_token: access_token@,
                refresh_token: opt_text(refresh_token),
                expires_at: expires_at as int,
            }),
    {
        TokenCookie { access_token, refresh_token, expires_at }
    }

    /// How far the token is from its expiry at the instant `now`.
    pub fn state_at(&self, now: i64) -> (state: TokenState)
        ensures
            state == token_state(self@.expires_at, now as int),
    {
        if self.expires_at <= now {
            TokenState::Expired
        } else {
            match self.expires_at.checked_sub(now) {
                Some(left) => if left < REFRESH_THRESHOLD_SECS {
                    TokenState::Stale
                } else {
                    TokenState::Fresh
                },
                None => TokenState::Fresh,
            }
        }
    }

    /// Whether the token has not yet expired at the instant `now`.
    pub fn is_valid_at(&self, now: i64) -> (valid: bool)
        ensures
            valid == (now < self@.expires_at),
            valid == (token_state(self@.expires_at, now as int) != TokenState::Expired),
    {
        now < self.expires_at
    }

    /// The record that three members read from a cookie value stand for.
    pub fn from_fields(access_token: JsonField, refresh_token: JsonField, expires_at: JsonField) -> (res:
        Option<TokenCookie>)
        ensures
            opt_record(res) == record_of_members(access_token@, refresh_token@, expires_at@),
    {
        let access_token = match access_token {
            JsonField::Text(s) => s,
            _ => { return None; },
        };
        let refresh_token = match refresh_token {
            JsonField::Text(s) => Some(s),
            JsonField::Null => None,
            JsonField::Missing => None,
            _ => { return None; },
        };
        let expires_at = match expires_at {
            JsonField::Integer(i) => i,
            _ => { return None; },
        };
        Some(TokenCookie { access_token, refresh_token, expires_at })
    }

    /// The cookie value of the record. Decoding it gives the record back.
    pub fn encode(&self) -> (text: String)
        ensures
            text@ == encoded(self@),
            decoded(text@) == Some(self@),
    {
        proof {
            lemma_keys_differ();
        }
        json_object(
            "access_token",
            self.access_token.as_str(),
            "refresh_token",
            &self.refresh_token,
            "expires_at",
            self.expires_at,
        )
    }

    /// The record that a cookie value holds, or `None` where it holds none:
    /// never part of one.
    pub fn decode(text: &str) -> (res: Option<TokenCookie>)
        ensures
            opt_record(res) == decoded(text@),
    {
        let access_token = json_field(text, "access_token");
        let refresh_token = json_field(text, "refresh_token");
        let expires_at = json_field(text, "expires_at");
        TokenCookie::from_fields(access_token, refresh_token, expires_at)
    }

    /// The token that is presented to the provider's API.
    pub fn access_token(&self) -> (s: &String)
        ensures
            s@ == self@.access_token,
    {
        &self.access_token
    }

    /// The token by which the access token is renewed, where the provider
    /// granted one.
    pub fn refresh_token(&self) -> (s: &Option<String>)
        ensures
            opt_text(*s) == self@.refresh_token,
    {
        &self.refresh_token
    }

    /// The instant at which the access token expires, in seconds since the
    /// Unix epoch.
    pub fn expires_at(&self) -> (t: i64)
        ensures
            t == self@.expires_at,
    {
        self.expires_at
    }
}

} // verus!
