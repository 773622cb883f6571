//! The records the service stores and serves, and the in-memory account
//! stores: the profiles keyed by password digest and the set of registered
//! e-mail addresses.

use vstd::prelude::*;
use vstd::hash_map::StringHashMap;
use vstd::hash_set::StringHashSet;

verus! {

/// A user record as stored in the `users` table.
#[derive(Clone, Debug)]
pub struct User {
    pub id: u32,
    pub username: String,
    pub first_name: String,
    pub last_name: String,
    pub email: String,
    pub age: u32,
    pub active: bool,
    pub picture: String,
}

/// A cat record as stored in the `cats` table; `weight` is in grams.
#[derive(Clone, Debug)]
pub struct Cat {
    pub id: u32,
    pub name: String,
    pub breed: String,
    pub age: u32,
    pub weight: u32,
    pub picture: String,
}

/// A text record as stored in the `textcats` table.
#[derive(Clone, Debug)]
pub struct TextCat {
    pub id: u32,
    pub text: String,
    pub is_ascii: bool,
    pub length: u32,
}

/// An account: its login (the e-mail address), the digest of its password
/// and its current session token.
pub struct Profile {
    pub login: String,
    pub password: String,
    pub session: String,
}

/// The abstract value of a [`Profile`].
pub struct ProfileView {
    pub login: Seq<char>,
    pub password: Seq<char>,
    pub session: Seq<char>,
}

impl View for Profile {
    type V = ProfileView;

    open spec fn view(&self) -> ProfileView {
        ProfileView { login: self.login@, password: self.password@, session: self.session@ }
    }
}

/// The credentials that a register or login request carries.
pub struct Data {
    pub email: String,
    pub password: String,
}

/// Service configuration handed to the home page and the handlers.
pub struct Context {
    pub page_size: usize,
    pub docs_url: String,
}

/// Storage for all profiles, keyed by the digest of their password.
pub struct LoginMap {
    profiles: StringHashMap<Profile>,
}

impl View for LoginMap {
    type V = Map<Seq<char>, ProfileView>;

    closed spec fn view(&self) -> Map<Seq<char>, ProfileView> {
        self.profiles@.map_values(|p: Profile| p@)
    }
}

impl LoginMap {
    /// A store with no profile.
    pub fn new() -> (m: LoginMap)
        ensures
            m@ == Map::<Seq<char>, ProfileView>::empty(),
    {
        let m = LoginMap { profiles: StringHashMap::new() };
        assert(m@ =~= Map::<Seq<char>, ProfileView>::empty());
        m
    }

    /// Stores `profile` under `key`, replacing what was stored there.
    pub fn insert(&mut self, key: String, profile: Profile)
        ensures
            final(self)@ == old(self)@.insert(key@, profile@),
    {
        self.profiles.insert(key, profile);
        assert(self@ =~= old(self)@.insert(key@, profile@));
    }

    /// The profile stored under `key`, if any.
    pub fn get(&self, key: &str) -> (r: Option<&Profile>)
        ensures
            match r {
                Some(p) => self@.contains_key(key@) && p@ == self@[key@],
                None => !self@.contains_key(key@),
            },
    {
        self.profiles.get(key)
    }

    /// The number of stored profiles.
    pub fn len(&self) -> (n: usize)
        ensures
            n == self@.len(),
    {
        proof {
            assert(self@.dom() =~= self.profiles@.dom());
        }
        self.profiles.len()
    }
}

/// The set of all e-mail addresses that have an account.
pub struct LoginCache {
    emails: StringHashSet,
}

impl View for LoginCache {
    type V = Set<Seq<char>>;

    closed spec fn view(&self) -> Set<Seq<char>> {
        self.emails@
    }
}

impl LoginCache {
    /// A cache with no address.
    pub fn new() -> (c: LoginCache)
        ensures
            c@ == Set::<Seq<char>>::empty(),
    {
        LoginCache { emails: StringHashSet::new() }
    }

    /// Adds `email` to the cache.
    pub fn insert(&mut self, email: String)
        ensures
            final(self)@ == old(self)@.insert(email@),
    {
        self.emails.insert(email);
    }

    /// Whether `email` has an account.
    pub fn contains(&self, email: &str) -> (b: bool)
        ensures
            b == self@.contains(email@),
    {
        self.emails.contains(email)
    }

    /// The number of addresses in the cache.
    pub fn len(&self) -> (n: usize)
        ensures
            n == self@.len(),
    {
        self.emails.len()
    }
}

} // verus!
