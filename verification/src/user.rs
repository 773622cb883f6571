//! The in-memory user store: users read from a list are numbered from 1 and
//! kept in a map by their number.

use vstd::prelude::*;
use std::collections::HashMap;

verus! {

/// The number that identifies a user in the store.
pub type ID = usize;

/// A user as the in-memory store keeps it.
#[derive(Clone)]
pub struct User {
    pub id: ID,
    pub username: String,
    pub first_name: String,
    pub last_name: String,
    pub email: String,
    pub age: u8,
    pub active: bool,
    pub picture: String,
}

/// Storage for all users, by id.
pub type UserMap = HashMap<ID, User>;

/// One page of users.
pub struct UserPage {
    pub page: usize,
    pub page_size: usize,
    pub returned_size: usize,
    pub next_exist: bool,
    pub data: Vec<User>,
}

/// The same user under the id `id`.
pub open spec fn renumbered(u: User, id: ID) -> User {
    User {
        id,
        username: u.username,
        first_name: u.first_name,
        last_name: u.last_name,
        email: u.email,
        age: u.age,
        active: u.active,
        picture: u.picture,
    }
}

/// The store of a list of users: the user at position `i` of the list is
/// kept under id `i + 1`, with that id.
pub open spec fn numbered_users(users: Seq<User>) -> Map<ID, User> {
    Map::new(
        |k: ID| 1 <= k <= users.len(),
        |k: ID| renumbered(users[k - 1], k),
    )
}

/// Users are numbered from 1 in list order: the store holds exactly the ids
/// 1 to the number of users, and id `i + 1` holds the `i`-th user, carrying
/// that id and otherwise unchanged.
pub proof fn lemma_numbered_users(users: Seq<User>)
    ensures
        forall|k: ID| #[trigger] numbered_users(users).contains_key(k) <==> 1 <= k && k <= users.len(),
        forall|i: int|
            0 <= i < users.len() && i + 1 <= usize::MAX ==> {
                let u = #[trigger] numbered_users(users)[(i + 1) as ID];
                &&& u.id == i + 1
                &&& u.username == users[i].username
                &&& u.first_name == users[i].first_name
                &&& u.last_name == users[i].last_name
                &&& u.email == users[i].email
                &&& u.age == users[i].age
                &&& u.active == users[i].active
                &&& u.picture == users[i].picture
            },
{
}

/// Numbers the users of `users_arr` from 1, in order, and stores each under
/// its number.
pub fn generate_users(users_arr: Vec<User>) -> (map: UserMap)
    requires
        users_arr.len() < usize::MAX,
    ensures
        map@ == numbered_users(users_arr@),
{
    broadcast use vstd::std_specs::hash::group_hash_axioms;

    let ghost all = users_arr@;
    let mut map: HashMap<ID, User> = HashMap::new();
    let mut users = users_arr;
    while users.len() > 0
        invariant
            users@ == all.take(users@.len() as int),
            users@.len() <= all.len(),
            all.len() < usize::MAX,
            map@ == Map::new(
                |k: ID| users@.len() < k <= all.len(),
                |k: ID| renumbered(all[k - 1], k),
            ),
        decreases users@.len(),
    {
        let mut u = users.pop().unwrap();
        let k = users.len() + 1;
        assert(users@ =~= all.take(users@.len() as int));
        assert(u == all[k - 1]);
        u.id = k;
        map.insert(k, u);
        assert(map@ =~= Map::new(
            |j: ID| users@.len() < j <= all.len(),
            |j: ID| renumbered(all[j - 1], j),
        ));
    }
    assert(map@ =~= numbered_users(all));
    map
}

} // verus!
