//! Validation of account requests, construction of the stores and of the
//! configuration, and session tokens.

use vstd::prelude::*;
use vstd::string::StringSliceAdditionalSpecFns;
use vstd::utf8::encode_utf8;
use rand::distributions::Alphanumeric;
use rand::{thread_rng, Rng};
use crate::entities::{Context, Data, LoginCache, LoginMap};
use crate::misc::MsgCode;
use crate::text::{decimal_bytes, lemma_parse_decimal, parse_usize, spec_parse_usize};

verus! {

/// The shortest password, in bytes, that an account request may carry.
pub const MIN_PASSWORD_LEN: usize = 8;

/// The longest password, in bytes, that an account request may carry.
pub const MAX_PASSWORD_LEN: usize = 128;

/// The page size used when none is configured or the configured one is not
/// a number.
pub const DEFAULT_PAGE_SIZE: usize = 5;

/// The length of the session token handed out on register and login.
pub const SESSION_LEN: usize = 24;

/// Why an account request is refused.
#[derive(PartialEq, Eq, Structural, Clone, Copy, Debug)]
pub enum AccountError {
    EmailEmpty,
    PasswordEmpty,
    PasswordShort,
    PasswordLong,
    EmailTaken,
    BadCredentials,
}

impl AccountError {
    /// The message code that the refusal is answered with.
    pub fn msg_code(&self) -> (c: MsgCode)
        ensures
            c == account_error_code(*self),
    {
        match self {
            AccountError::EmailEmpty => MsgCode::ErrEmailEmpty,
            AccountError::PasswordEmpty => MsgCode::ErrPasswordEmpty,
            AccountError::PasswordShort => MsgCode::ErrPasswordShort,
            AccountError::PasswordLong => MsgCode::ErrPasswordLong,
            AccountError::EmailTaken => MsgCode::ErrEmailTaken,
            AccountError::BadCredentials => MsgCode::ErrBadCredentials,
        }
    }
}

/// The message code of each refusal.
pub open spec fn account_error_code(e: AccountError) -> MsgCode {
    match e {
        AccountError::EmailEmpty => MsgCode::ErrEmailEmpty,
        AccountError::PasswordEmpty => MsgCode::ErrPasswordEmpty,
        AccountError::PasswordShort => MsgCode::ErrPasswordShort,
        AccountError::PasswordLong => MsgCode::ErrPasswordLong,
        AccountError::EmailTaken => MsgCode::ErrEmailTaken,
        AccountError::BadCredentials => MsgCode::ErrBadCredentials,
    }
}

/// The length in bytes of the UTF-8 encoding of a text (what `str::len`
/// returns).
pub open spec fn byte_len(s: Seq<char>) -> usize {
    encode_utf8(s).len() as usize
}

/// The checks that register and login share, in the order they are made:
/// an empty address, an empty password, a password shorter than 8 bytes or
/// longer than 128 bytes.
pub open spec fn credentials_error(email: Seq<char>, password: Seq<char>) -> Option<AccountError> {
    if email.len() == 0 {
        Some(AccountError::EmailEmpty)
    } else if password.len() == 0 {
        Some(AccountError::PasswordEmpty)
    } else if byte_len(password) < MIN_PASSWORD_LEN {
        Some(AccountError::PasswordShort)
    } else if byte_len(password) > MAX_PASSWORD_LEN {
        Some(AccountError::PasswordLong)
    } else {
        None
    }
}

/// Why a registration is refused, if it is: the shared checks, then an
/// address that already has an account.
pub open spec fn reg_error(email: Seq<char>, password: Seq<char>, cache: Set<Seq<char>>) -> Option<
    AccountError,
> {
    match credentials_error(email, password) {
        Some(e) => Some(e),
        None => if cache.contains(email) {
            Some(AccountError::EmailTaken)
        } else {
            None
        },
    }
}

/// Why a login is refused before any profile is looked at, if it is: the
/// shared checks, then an address that has no account.
pub open spec fn login_error(email: Seq<char>, password: Seq<char>, cache: Set<Seq<char>>) -> Option<
    AccountError,
> {
    match credentials_error(email, password) {
        Some(e) => Some(e),
        None => if !cache.contains(email) {
            Some(AccountError::BadCredentials)
        } else {
            None
        },
    }
}

fn credentials_have_error(data: &Data) -> (r: Option<AccountError>)
    ensures
        r == credentials_error(data.email@, data.password@),
{
    let email = data.email.as_str();
    let password = data.password.as_str();
    if email.is_empty() {
        Some(AccountError::EmailEmpty)
    } else if password.is_empty() {
        Some(AccountError::PasswordEmpty)
    } else if password.len() < MIN_PASSWORD_LEN {
        Some(AccountError::PasswordShort)
    } else if password.len() > MAX_PASSWORD_LEN {
        Some(AccountError::PasswordLong)
    } else {
        None
    }
}

/// Checks a registration request: `None` when it may go ahead, else the
/// first reason to refuse it.
pub fn reg_data_has_error(data: &Data, login_cache: &LoginCache) -> (r: Option<AccountError>)
    ensures
        r == reg_error(data.email@, data.password@, login_cache@),
{
    match credentials_have_error(data) {
        Some(e) => Some(e),
        None => if login_cache.contains(data.email.as_str()) {
            Some(AccountError::EmailTaken)
        } else {
            None
        },
    }
}

/// Checks a login request: `None` when its address has an account and its
/// credentials are well formed, else the first reason to refuse it.
pub fn login_data_has_error(data: &Data, login_cache: &LoginCache) -> (r: Option<AccountError>)
    ensures
        r == login_error(data.email@, data.password@, login_cache@),
{
    match credentials_have_error(data) {
        Some(e) => Some(e),
        None => if !login_cache.contains(data.email.as_str()) {
            Some(AccountError::BadCredentials)
        } else {
            None
        },
    }
}

/// An empty profile store.
pub fn get_login_storage() -> (m: LoginMap)
    ensures
        m@ == Map::<Seq<char>, crate::entities::ProfileView>::empty(),
{
    LoginMap::new()
}

/// An empty address cache.
pub fn get_login_cache() -> (c: LoginCache)
    ensures
        c@ == Set::<Seq<char>>::empty(),
{
    LoginCache::new()
}

/// An ASCII letter or digit.
pub open spec fn is_alphanumeric(c: char) -> bool {
    ('A' <= c && c <= 'Z') || ('a' <= c && c <= 'z') || ('0' <= c && c <= '9')
}

/// A session token of `n` characters, each an ASCII letter or digit.
pub open spec fn is_session_token(s: Seq<char>, n: nat) -> bool {
    &&& s.len() == n
    &&& forall|i: int| 0 <= i < s.len() ==> is_alphanumeric(#[trigger] s[i])
}

/// A fresh random session token of `n` characters, drawn with rand's
/// `Alphanumeric` distribution from the thread-local generator.
///
/// Trusted: `rand::Rng::sample_iter` over `rand::distributions::Alphanumeric`
/// on `rand::thread_rng()`. The contract claims only what holds of every
/// draw: `take(n)` yields `n` characters and `Alphanumeric` samples from
/// `A-Z`, `a-z`, `0-9`. Which characters come out is left unsaid.
#[verifier::external_body]
pub fn new_session(n: usize) -> (s: String)
    ensures
        is_session_token(s@, n as nat),
{
    thread_rng().sample_iter(&Alphanumeric).take(n).collect()
}

/// The text of the documentation link in the configuration.
pub open spec fn docs_url_text() -> Seq<char> {
    "https://github.com/kittyandrew/Kitty-API/tree/master/docs/DOCS.md"@
}

/// The page size that a configured value gives: the value when it parses as
/// a `usize`, else the default of 5; the default when nothing is configured.
pub open spec fn configured_page_size(var: Option<Seq<u8>>) -> usize {
    match var {
        Some(bytes) => match spec_parse_usize(bytes) {
            Some(n) => n,
            None => DEFAULT_PAGE_SIZE,
        },
        None => DEFAULT_PAGE_SIZE,
    }
}

/// The service configuration, from the value of the `PAGE_SIZE` setting if
/// it is set.
pub fn get_context(page_size_var: Option<&str>) -> (c: Context)
    ensures
        c.page_size == configured_page_size(
            match page_size_var {
                Some(v) => Some(v.spec_bytes()),
                None => None,
            },
        ),
        c.docs_url@ == docs_url_text(),
{
    let page_size = match page_size_var {
        Some(v) => match parse_usize(v) {
            Some(num) => num,
            None => DEFAULT_PAGE_SIZE,
        },
        None => DEFAULT_PAGE_SIZE,
    };
    Context {
        page_size,
        docs_url: String::from_str("https://github.com/kittyandrew/Kitty-API/tree/master/docs/DOCS.md"),
    }
}

/// What refuses a registration, over the request itself: an empty address,
/// else an empty password, else a password of fewer than 8 or more than 128
/// UTF-8 bytes, else an address already registered; every other request,
/// whatever its password of 8 to 128 bytes, goes ahead.
pub proof fn lemma_registration_refusals(email: Seq<char>, password: Seq<char>, cache: Set<Seq<char>>)
    requires
        encode_utf8(password).len() <= usize::MAX,
    ensures
        (reg_error(email, password, cache) == Some(AccountError::EmailEmpty)) <==> email.len() == 0,
        (reg_error(email, password, cache) == Some(AccountError::PasswordEmpty)) <==> (email.len() > 0
            && password.len() == 0),
        (reg_error(email, password, cache) == Some(AccountError::PasswordShort)) <==> (email.len() > 0
            && password.len() > 0 && encode_utf8(password).len() < 8),
        (reg_error(email, password, cache) == Some(AccountError::PasswordLong)) <==> (email.len() > 0
            && password.len() > 0 && encode_utf8(password).len() > 128),
        (reg_error(email, password, cache) == Some(AccountError::EmailTaken)) <==> (email.len() > 0
            && password.len() > 0 && 8 <= encode_utf8(password).len() <= 128 && cache.contains(email)),
        (reg_error(email, password, cache) is None) <==> (email.len() > 0 && password.len() > 0 && 8
            <= encode_utf8(password).len() <= 128 && !cache.contains(email)),
        reg_error(email, password, cache) != Some(AccountError::BadCredentials),
{
}

/// What refuses a login before any profile is looked at, over the request
/// itself: the same checks as a registration, except that the address must
/// already be registered; every registered address with a password of 8 to
/// 128 bytes goes on to the profile lookup.
pub proof fn lemma_login_refusals(email: Seq<char>, password: Seq<char>, cache: Set<Seq<char>>)
    requires
        encode_utf8(password).len() <= usize::MAX,
    ensures
        (login_error(email, password, cache) == Some(AccountError::EmailEmpty)) <==> email.len() == 0,
        (login_error(email, password, cache) == Some(AccountError::PasswordEmpty)) <==> (email.len() > 0
            && password.len() == 0),
        (login_error(email, password, cache) == Some(AccountError::PasswordShort)) <==> (email.len() > 0
            && password.len() > 0 && encode_utf8(password).len() < 8),
        (login_error(email, password, cache) == Some(AccountError::PasswordLong)) <==> (email.len() > 0
            && password.len() > 0 && encode_utf8(password).len() > 128),
        (login_error(email, password, cache) == Some(AccountError::BadCredentials)) <==> (email.len() > 0
            && password.len() > 0 && 8 <= encode_utf8(password).len() <= 128 && !cache.contains(email)),
        (login_error(email, password, cache) is None) <==> (email.len() > 0 && password.len() > 0 && 8
            <= encode_utf8(password).len() <= 128 && cache.contains(email)),
        login_error(email, password, cache) != Some(AccountError::EmailTaken),
{
}

/// A configured page size that is a number is used as it is, whatever the
/// number: every `usize` written in decimal is taken as itself; a value that
/// is not a number, or no value, gives 5.
pub proof fn lemma_configured_page_size(bytes: Seq<u8>, n: nat)
    ensures
        forall|v: usize| spec_parse_usize(bytes) == Some(v) ==> configured_page_size(Some(bytes)) == v,
        spec_parse_usize(bytes) is None ==> configured_page_size(Some(bytes)) == 5,
        configured_page_size(None) == 5,
        n <= usize::MAX ==> configured_page_size(Some(decimal_bytes(n))) == n,
{
    if n <= usize::MAX {
        lemma_parse_decimal(n);
    }
}

} // verus!
