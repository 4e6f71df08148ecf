//! The encrypted cookie jar of a request, and the session cookie in it.

use vstd::prelude::*;
use axum_extra::extract::cookie::PrivateCookieJar;
use cookie::{Cookie, Key};

verus! {

/// The key of a jar, `cookie::Key`. Nothing is claimed of it.
#[verifier::external_type_specification]
#[verifier::external_body]
pub struct ExKey(Key);

/// The jar of encrypted cookies, `axum_extra::extract::cookie::PrivateCookieJar`.
/// What one holds is named by [`jar_cookies`].
#[verifier::external_type_specification]
#[verifier::external_body]
#[verifier::reject_recursive_types(K)]
pub struct ExPrivateCookieJar<K>(PrivateCookieJar<K>);

/// A cookie as a jar holds it: the plaintext value, and each attribute that
/// the cookie was given. A cookie that came with the request has a value
/// only.
pub ghost struct StoredCookie {
    pub value: Seq<char>,
    pub domain: Option<Seq<char>>,
    pub path: Option<Seq<char>>,
    pub secure: Option<bool>,
    pub http_only: Option<bool>,
    /// `Max-Age` in whole seconds.
    pub max_age: Option<int>,
}

/// What a jar holds: each cookie that the jar can open, by its name. A
/// cookie that was removed, or whose value does not authenticate under the
/// jar's key, is not in the map.
pub uninterp spec fn jar_cookies(jar: PrivateCookieJar) -> Map<Seq<char>, StoredCookie>;

/// A cookie as the library writes it.
pub struct SessionCookie {
    pub name: String,
    pub value: String,
    pub domain: String,
    pub path: String,
    pub secure: bool,
    pub http_only: bool,
    /// Lifetime in seconds; the browser drops the cookie at once where it is
    /// not positive.
    pub max_age: i64,
}

/// What the jar holds once `cookie` was written to it.
pub open spec fn written(cookie: SessionCookie) -> StoredCookie {
    StoredCookie {
        value: cookie.value@,
        domain: Some(cookie.domain@),
        path: Some(cookie.path@),
        secure: Some(cookie.secure),
        http_only: Some(cookie.http_only),
        max_age: Some(cookie.max_age as int),
    }
}

/// The plaintext value of the cookie `name`, where the jar holds one.
///
/// Trusted: calls `PrivateCookieJar::get`, which looks the name up and
/// decrypts what it finds. The contract claims that the value comes back
/// exactly for the names in `jar_cookies`.
#[verifier::external_body]
pub(crate) fn jar_get(jar: &PrivateCookieJar, name: &str) -> (value: Option<String>)
    ensures
        value.is_some() == jar_cookies(*jar).contains_key(name@),
        value matches Some(v) ==> jar_cookies(*jar)[name@].value == v@,
{
    jar.get(name).map(|cookie| cookie.value().to_owned())
}

/// The jar without the cookie `name`.
///
/// Trusted: calls `PrivateCookieJar::remove` with a cookie of that name,
/// made by `cookie::Cookie::build`. The contract claims that the name leaves
/// `jar_cookies` and the others stay.
#[verifier::external_body]
pub(crate) fn jar_remove(jar: PrivateCookieJar, name: &str) -> (out: PrivateCookieJar)
    ensures
        jar_cookies(out) == jar_cookies(jar).remove(name@),
{
    jar.remove(Cookie::build(name.to_owned()))
}

/// The jar with `cookie` added under its name.
///
/// Trusted: builds the cookie with `cookie::Cookie::build` and hands it to
/// `PrivateCookieJar::add`, which encrypts the value under a fresh nonce and
/// leaves the attributes as they are. The contract claims that the jar then
/// opens the cookie to the value that was given, holds it with the
/// attributes that were given, and that the other names stay as they were.
#[verifier::external_body]
pub(crate) fn jar_add(jar: PrivateCookieJar, cookie: &SessionCookie) -> (out: PrivateCookieJar)
    ensures
        jar_cookies(out) == jar_cookies(jar).insert(cookie.name@, written(*cookie)),
{
    jar.add(
        Cookie::build((cookie.name.clone(), cookie.value.clone()))
            .domain(cookie.domain.clone())
            .path(cookie.path.clone())
            .secure(cookie.secure)
            .http_only(cookie.http_only)
            .max_age(time::Duration::seconds(cookie.max_age)),
    )
}

} // verus!
