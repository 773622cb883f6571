//! The checks that run on every request before it is routed: the optional
//! artificial delay and the API token.

use vstd::prelude::*;
use crate::text::str_eq;

verus! {

/// The shortest delay, in seconds, that a request may ask for.
pub const MIN_DELAY_SECS: u64 = 1;

/// The longest delay, in seconds, that a request may ask for.
pub const MAX_DELAY_SECS: u64 = 10;

/// The paths that the checks apply to start with this.
pub open spec fn api_prefix() -> Seq<char> {
    "/api"@
}

/// Whether `prefix` is a prefix of `s`.
pub fn has_prefix(s: &str, prefix: &str) -> (r: bool)
    ensures
        r == prefix@.is_prefix_of(s@),
{
    let n = prefix.unicode_len();
    let m = s.unicode_len();
    if n > m {
        return false;
    }
    let mut i: usize = 0;
    while i < n
        invariant
            n == prefix@.len(),
            m == s@.len(),
            n <= m,
            i <= n,
            forall|j: int| 0 <= j < i ==> prefix@[j] == s@[j],
        decreases n - i,
    {
        if s.get_char(i) != prefix.get_char(i) {
            return false;
        }
        i = i + 1;
    }
    true
}

/// Whether the checks apply to a request for `path`.
pub fn is_api_path(path: &str) -> (r: bool)
    ensures
        r == api_prefix().is_prefix_of(path@),
{
    has_prefix(path, "/api")
}

/// How long a request for `path` that asks for `delay` seconds waits: only
/// API requests wait, and only for a delay from 1 to 10 seconds; any other
/// delay is ignored.
pub open spec fn spec_request_delay(path: Seq<char>, delay: Option<u64>) -> Option<u64> {
    match delay {
        Some(v) => if api_prefix().is_prefix_of(path) && MIN_DELAY_SECS <= v && v <= MAX_DELAY_SECS {
            Some(v)
        } else {
            None
        },
        None => None,
    }
}

/// The number of seconds to wait before serving a request for `path` whose
/// `delay` query value is `delay` (`None` when absent or not a number).
pub fn request_delay(path: &str, delay: Option<u64>) -> (r: Option<u64>)
    ensures
        r == spec_request_delay(path@, delay),
{
    if !is_api_path(path) {
        return None;
    }
    match delay {
        Some(val) => if val < MIN_DELAY_SECS {
            None
        } else if val > MAX_DELAY_SECS {
            None
        } else {
            Some(val)
        },
        None => None,
    }
}

/// What becomes of a request after the token check.
#[derive(PartialEq, Eq, Structural, Clone, Copy, Debug)]
pub enum TokenCheck {
    /// The request goes on to its route.
    Pass,
    /// The request is turned into a `GET` of [`not_authorized_path`].
    Redirect,
}

/// Whether a request for `path` that carries the `Token` header `supplied`
/// passes when the service expects the token `expected`: requests outside
/// the API pass, every request passes when no token is configured, and an
/// API request passes only with exactly the expected token.
pub open spec fn spec_check_token(path: Seq<char>, expected: Option<Seq<char>>, supplied: Option<Seq<char>>) -> TokenCheck {
    if !api_prefix().is_prefix_of(path) {
        TokenCheck::Pass
    } else {
        match expected {
            None => TokenCheck::Pass,
            Some(token) => match supplied {
                Some(value) => if value == token {
                    TokenCheck::Pass
                } else {
                    TokenCheck::Redirect
                },
                None => TokenCheck::Redirect,
            },
        }
    }
}

/// Checks the `Token` header of a request for `path`.
pub fn check_token(path: &str, expected: Option<&str>, supplied: Option<&str>) -> (r: TokenCheck)
    ensures
        r == spec_check_token(
            path@,
            match expected {
                Some(t) => Some(t@),
                None => None,
            },
            match supplied {
                Some(v) => Some(v@),
                None => None,
            },
        ),
{
    if !is_api_path(path) {
        return TokenCheck::Pass;
    }
    match expected {
        None => TokenCheck::Pass,
        Some(token) => match supplied {
            Some(val) => if str_eq(val, token) {
                TokenCheck::Pass
            } else {
                TokenCheck::Redirect
            },
            None => TokenCheck::Redirect,
        },
    }
}

/// The path that a request with a bad token is sent to.
pub fn not_authorized_path() -> (p: &'static str)
    ensures
        p@ == "/api/not_authorized"@,
{
    "/api/not_authorized"
}

/// A request waits only when it is an API request, and then from 1 to 10
/// seconds, never longer.
pub proof fn lemma_delay_bounded(path: Seq<char>, delay: Option<u64>)
    ensures
        spec_request_delay(path, delay) matches Some(secs) ==> {
            &&& api_prefix().is_prefix_of(path)
            &&& MIN_DELAY_SECS <= secs <= MAX_DELAY_SECS
            &&& delay == Some(secs)
        },
{
}

/// The token check never turns away a request outside the API, nor any
/// request when no token is configured, and always lets through a request
/// with the configured token.
pub proof fn lemma_token_check_passes(path: Seq<char>, expected: Option<Seq<char>>, supplied: Option<Seq<char>>)
    ensures
        !api_prefix().is_prefix_of(path) ==> spec_check_token(path, expected, supplied) == TokenCheck::Pass,
        expected is None ==> spec_check_token(path, expected, supplied) == TokenCheck::Pass,
        expected is Some && supplied == expected ==> spec_check_token(path, expected, supplied)
            == TokenCheck::Pass,
{
}

/// An API request is turned away exactly when a token is configured and the
/// request does not carry it.
pub proof fn lemma_token_check_redirects(path: Seq<char>, expected: Option<Seq<char>>, supplied: Option<Seq<char>>)
    requires
        api_prefix().is_prefix_of(path),
    ensures
        (spec_check_token(path, expected, supplied) == TokenCheck::Redirect) <==> (expected is Some
            && supplied != expected),
{
}

/// Every request whose path starts with `/api` and that asks for a delay
/// from 1 to 10 seconds waits exactly that long; any other request does not
/// wait.
pub proof fn lemma_api_delay_applied(path: Seq<char>, delay: Option<u64>)
    ensures
        forall|v: u64| "/api"@.is_prefix_of(path) && delay == Some(v) && 1 <= v <= 10 ==> spec_request_delay(path, delay) == delay,
        !"/api"@.is_prefix_of(path) ==> spec_request_delay(path, delay) is None,
        forall|v: u64| delay == Some(v) && (v < 1 || v > 10) ==> spec_request_delay(path, delay) is None,
        delay is None ==> spec_request_delay(path, delay) is None,
{
}

/// Over the path itself: a request outside `/api` always passes the token
/// check, and an `/api` request is turned away exactly when a token is
/// configured and the request does not carry exactly it.
pub proof fn lemma_token_check_meaning(path: Seq<char>, expected: Option<Seq<char>>, supplied: Option<Seq<char>>)
    ensures
        !"/api"@.is_prefix_of(path) ==> spec_check_token(path, expected, supplied) == TokenCheck::Pass,
        "/api"@.is_prefix_of(path) ==> ((spec_check_token(path, expected, supplied) == TokenCheck::Redirect)
            <==> (expected is Some && supplied != expected)),
{
}

} // verus!
