//! Registering and logging into accounts.
//!
//! A registration records the address in the [`LoginCache`] and stores a
//! profile under the BLAKE3 digest of the password; a login looks the
//! profile up by that digest and gives it a new session token.

use vstd::prelude::*;
use crate::entities::{Data, LoginCache, LoginMap, Profile, ProfileView};
use crate::utils::{
    AccountError, SESSION_LEN, is_session_token, login_data_has_error, login_error, new_session,
    reg_data_has_error, reg_error,
};

verus! {

/// The lowercase hexadecimal BLAKE3 digest of the UTF-8 bytes of a text.
pub uninterp spec fn blake3_hex(text: Seq<char>) -> Seq<char>;

/// A lowercase hexadecimal digit.
pub open spec fn is_lower_hex(c: char) -> bool {
    ('0' <= c && c <= '9') || ('a' <= c && c <= 'f')
}

/// The hex digest under which a password's profile is stored.
///
/// Trusted: `blake3::hash` on the password's bytes, then `Hash::to_hex`.
/// The contract names the digest, and states what blake3's source shows of
/// its form: 32 bytes written as 64 lowercase hex digits.
#[verifier::external_body]
fn password_hash(password: &str) -> (h: String)
    ensures
        h@ == blake3_hex(password@),
        h@.len() == 64,
        forall|i: int| 0 <= i < h@.len() ==> is_lower_hex(#[trigger] h@[i]),
{
    blake3::hash(password.as_bytes()).to_hex().to_string()
}

/// The profile store after a registration of `email` that went ahead with
/// the password digest `digest`.
pub open spec fn store_profile(
    profiles: Map<Seq<char>, ProfileView>,
    email: Seq<char>,
    digest: Seq<char>,
    session: Seq<char>,
) -> Map<Seq<char>, ProfileView> {
    profiles.insert(digest, ProfileView { login: email, password: digest, session })
}

/// The profile store after a registration that went ahead.
pub open spec fn after_register(
    profiles: Map<Seq<char>, ProfileView>,
    email: Seq<char>,
    password: Seq<char>,
    session: Seq<char>,
) -> Map<Seq<char>, ProfileView> {
    store_profile(profiles, email, blake3_hex(password), session)
}

/// Why a login whose password has the digest `digest` is refused, if it
/// is: the checks of [`login_error`], then no profile stored under `digest`.
pub open spec fn digest_login_outcome(
    profiles: Map<Seq<char>, ProfileView>,
    cache: Set<Seq<char>>,
    email: Seq<char>,
    password: Seq<char>,
    digest: Seq<char>,
) -> Option<AccountError> {
    match login_error(email, password, cache) {
        Some(e) => Some(e),
        None => if profiles.contains_key(digest) {
            None
        } else {
            Some(AccountError::BadCredentials)
        },
    }
}

/// Why a login is refused, if it is: the checks of [`login_error`], then no
/// profile stored under the digest of the password.
pub open spec fn login_outcome(
    profiles: Map<Seq<char>, ProfileView>,
    cache: Set<Seq<char>>,
    email: Seq<char>,
    password: Seq<char>,
) -> Option<AccountError> {
    digest_login_outcome(profiles, cache, email, password, blake3_hex(password))
}

/// The profile store after a login that went ahead for the digest `digest`:
/// the profile under `digest` gets the new session, and nothing else
/// changes.
pub open spec fn refresh_session(
    profiles: Map<Seq<char>, ProfileView>,
    digest: Seq<char>,
    session: Seq<char>,
) -> Map<Seq<char>, ProfileView> {
    profiles.insert(
        digest,
        ProfileView { login: profiles[digest].login, password: profiles[digest].password, session },
    )
}

/// The profile store after a login that went ahead: the profile under the
/// password's digest gets the new session, and nothing else changes.
pub open spec fn after_login(
    profiles: Map<Seq<char>, ProfileView>,
    password: Seq<char>,
    session: Seq<char>,
) -> Map<Seq<char>, ProfileView> {
    refresh_session(profiles, blake3_hex(password), session)
}

/// Registers the credentials of `data`, whose password has the digest
/// `digest`, with the session token `session`.
pub fn register_with_digest(
    data: &Data,
    digest: String,
    session: String,
    login_map: &mut LoginMap,
    login_cache: &mut LoginCache,
) -> (r: Result<String, AccountError>)
    ensures
        match reg_error(data.email@, data.password@, old(login_cache)@) {
            Some(e) => {
                &&& r == Err::<String, AccountError>(e)
                &&& final(login_map)@ == old(login_map)@
                &&& final(login_cache)@ == old(login_cache)@
            },
            None => {
                &&& r matches Ok(s) && s@ == session@
                &&& final(login_cache)@ == old(login_cache)@.insert(data.email@)
                &&& final(login_map)@ == store_profile(
                    old(login_map)@,
                    data.email@,
                    digest@,
                    session@,
                )
            },
        },
{
    if let Some(error) = reg_data_has_error(data, login_cache) {
        return Err(error);
    }
    login_cache.insert(data.email.clone());
    login_map.insert(
        digest.clone(),
        Profile { login: data.email.clone(), password: digest, session: session.clone() },
    );
    Ok(session)
}

/// Logs in with the credentials of `data`, whose password has the digest
/// `digest`, giving the profile stored under `digest` the session token
/// `session`.
pub fn login_with_digest(
    data: &Data,
    digest: String,
    session: String,
    login_map: &mut LoginMap,
    login_cache: &LoginCache,
) -> (r: Result<String, AccountError>)
    ensures
        match digest_login_outcome(old(login_map)@, login_cache@, data.email@, data.password@, digest@) {
            Some(e) => {
                &&& r == Err::<String, AccountError>(e)
                &&& final(login_map)@ == old(login_map)@
            },
            None => {
                &&& r matches Ok(s) && s@ == session@
                &&& final(login_map)@ == refresh_session(old(login_map)@, digest@, session@)
            },
        },
{
    if let Some(error) = login_data_has_error(data, login_cache) {
        return Err(error);
    }
    let updated = match login_map.get(digest.as_str()) {
        Some(profile) => Profile {
            login: profile.login.clone(),
            password: profile.password.clone(),
            session: session.clone(),
        },
        None => {
            return Err(AccountError::BadCredentials);
        },
    };
    login_map.insert(digest, updated);
    Ok(session)
}

/// Registers the credentials of `data` with the session token `session`.
pub fn register_profile(
    data: &Data,
    session: String,
    login_map: &mut LoginMap,
    login_cache: &mut LoginCache,
) -> (r: Result<String, AccountError>)
    ensures
        match reg_error(data.email@, data.password@, old(login_cache)@) {
            Some(e) => {
                &&& r == Err::<String, AccountError>(e)
                &&& final(login_map)@ == old(login_map)@
                &&& final(login_cache)@ == old(login_cache)@
            },
            None => {
                &&& r matches Ok(s) && s@ == session@
                &&& final(login_cache)@ == old(login_cache)@.insert(data.email@)
                &&& final(login_map)@ == after_register(
                    old(login_map)@,
                    data.email@,
                    data.password@,
                    session@,
                )
            },
        },
{
    if let Some(error) = reg_data_has_error(data, login_cache) {
        return Err(error);
    }
    let digest = password_hash(data.password.as_str());
    register_with_digest(data, digest, session, login_map, login_cache)
}

/// Registers the credentials of `data` with a fresh session token, which it
/// returns.
pub fn account_register(data: &Data, login_map: &mut LoginMap, login_cache: &mut LoginCache) -> (r:
    Result<String, AccountError>)
    ensures
        match reg_error(data.email@, data.password@, old(login_cache)@) {
            Some(e) => {
                &&& r == Err::<String, AccountError>(e)
                &&& final(login_map)@ == old(login_map)@
                &&& final(login_cache)@ == old(login_cache)@
            },
            None => {
                &&& r matches Ok(s) && is_session_token(s@, SESSION_LEN as nat)
                    && final(login_map)@ == after_register(
                    old(login_map)@,
                    data.email@,
                    data.password@,
                    s@,
                )
                &&& final(login_cache)@ == old(login_cache)@.insert(data.email@)
            },
        },
{
    if let Some(error) = reg_data_has_error(data, login_cache) {
        return Err(error);
    }
    let session = new_session(SESSION_LEN);
    register_profile(data, session, login_map, login_cache)
}

/// Logs in with the credentials of `data`, giving the profile stored under
/// the password's digest the session token `session`.
pub fn login_profile(data: &Data, session: String, login_map: &mut LoginMap, login_cache: &LoginCache) -> (r:
    Result<String, AccountError>)
    ensures
        match login_outcome(old(login_map)@, login_cache@, data.email@, data.password@) {
            Some(e) => {
                &&& r == Err::<String, AccountError>(e)
                &&& final(login_map)@ == old(login_map)@
            },
            None => {
                &&& r matches Ok(s) && s@ == session@
                &&& final(login_map)@ == after_login(old(login_map)@, data.password@, session@)
            },
        },
{
    if let Some(error) = login_data_has_error(data, login_cache) {
        return Err(error);
    }
    let digest = password_hash(data.password.as_str());
    login_with_digest(data, digest, session, login_map, login_cache)
}

/// Logs in with the credentials of `data` and a fresh session token, which
/// it returns.
pub fn account_login(data: &Data, login_map: &mut LoginMap, login_cache: &LoginCache) -> (r: Result<
    String,
    AccountError,
>)
    ensures
        match login_outcome(old(login_map)@, login_cache@, data.email@, data.password@) {
            Some(e) => {
                &&& r == Err::<String, AccountError>(e)
                &&& final(login_map)@ == old(login_map)@
            },
            None => {
                &&& r matches Ok(s) && is_session_token(s@, SESSION_LEN as nat)
                    && final(login_map)@ == after_login(old(login_map)@, data.password@, s@)
            },
        },
{
    if let Some(error) = login_data_has_error(data, login_cache) {
        return Err(error);
    }
    let session = new_session(SESSION_LEN);
    login_profile(data, session, login_map, login_cache)
}

/// The account stores agree: every profile is stored under its own
/// password digest, and its login is an address of the cache.
pub open spec fn accounts_consistent(profiles: Map<Seq<char>, ProfileView>, cache: Set<Seq<char>>) -> bool {
    forall|key: Seq<char>|
        #[trigger] profiles.contains_key(key) ==> profiles[key].password == key && cache.contains(
            profiles[key].login,
        )
}

/// Empty stores agree.
pub proof fn lemma_empty_accounts_consistent()
    ensures
        accounts_consistent(Map::<Seq<char>, ProfileView>::empty(), Set::<Seq<char>>::empty()),
{
}

/// A registration that goes ahead keeps the stores in agreement.
pub proof fn lemma_register_keeps_consistent(
    profiles: Map<Seq<char>, ProfileView>,
    cache: Set<Seq<char>>,
    email: Seq<char>,
    password: Seq<char>,
    session: Seq<char>,
)
    requires
        accounts_consistent(profiles, cache),
        reg_error(email, password, cache) is None,
    ensures
        accounts_consistent(after_register(profiles, email, password, session), cache.insert(email)),
{
    let after = after_register(profiles, email, password, session);
    assert forall|key: Seq<char>| #[trigger] after.contains_key(key) implies after[key].password
        == key && cache.insert(email).contains(after[key].login) by {
        if key != blake3_hex(password) {
            assert(profiles.contains_key(key));
        }
    }
}

/// A login that goes ahead keeps the stores in agreement.
pub proof fn lemma_login_keeps_consistent(
    profiles: Map<Seq<char>, ProfileView>,
    cache: Set<Seq<char>>,
    email: Seq<char>,
    password: Seq<char>,
    session: Seq<char>,
)
    requires
        accounts_consistent(profiles, cache),
        login_outcome(profiles, cache, email, password) is None,
    ensures
        accounts_consistent(after_login(profiles, password, session), cache),
{
    let after = after_login(profiles, password, session);
    assert forall|key: Seq<char>| #[trigger] after.contains_key(key) implies after[key].password
        == key && cache.contains(after[key].login) by {
        assert(profiles.contains_key(key));
    }
}

/// Whoever has just registered can log in with the same credentials, and
/// the login gives the registered profile the new session and nothing else.
pub proof fn lemma_register_then_login(
    profiles: Map<Seq<char>, ProfileView>,
    cache: Set<Seq<char>>,
    email: Seq<char>,
    password: Seq<char>,
    first_session: Seq<char>,
    second_session: Seq<char>,
)
    requires
        reg_error(email, password, cache) is None,
    ensures
        login_outcome(
            after_register(profiles, email, password, first_session),
            cache.insert(email),
            email,
            password,
        ) is None,
        after_login(after_register(profiles, email, password, first_session), password, second_session)
            == after_register(profiles, email, password, second_session),
{
    let registered = after_register(profiles, email, password, first_session);
    assert(after_login(registered, password, second_session) =~= after_register(
        profiles,
        email,
        password,
        second_session,
    ));
}

/// A login leaves one session per profile: the profile found by the
/// password's digest keeps its login and digest and now holds only the new
/// session, and no profile is added or removed.
pub proof fn lemma_login_replaces_session(
    profiles: Map<Seq<char>, ProfileView>,
    cache: Set<Seq<char>>,
    email: Seq<char>,
    password: Seq<char>,
    session: Seq<char>,
)
    requires
        login_outcome(profiles, cache, email, password) is None,
    ensures
        after_login(profiles, password, session).dom() == profiles.dom(),
        after_login(profiles, password, session)[blake3_hex(password)] == (ProfileView {
            login: profiles[blake3_hex(password)].login,
            password: profiles[blake3_hex(password)].password,
            session,
        }),
{
    assert(after_login(profiles, password, session).dom() =~= profiles.dom());
}

/// An address registers once: registering the same credentials again is
/// refused because the address is taken.
pub proof fn lemma_register_twice_refused(
    email: Seq<char>,
    password: Seq<char>,
    cache: Set<Seq<char>>,
)
    requires
        reg_error(email, password, cache) is None,
    ensures
        reg_error(email, password, cache.insert(email)) == Some(AccountError::EmailTaken),
{
}

/// A login with a password that no profile was registered with is refused,
/// whatever the address.
pub proof fn lemma_login_unknown_password_refused(
    profiles: Map<Seq<char>, ProfileView>,
    cache: Set<Seq<char>>,
    email: Seq<char>,
    password: Seq<char>,
)
    requires
        !profiles.contains_key(blake3_hex(password)),
    ensures
        login_outcome(profiles, cache, email, password) is Some,
{
}

} // verus!
