//! The rules of the `/api/users` endpoints: which page of rows a paginated
//! request reads, the id a stored record takes, and which message code
//! answers each outcome.

use vstd::prelude::*;
use crate::entities::User;
use crate::misc::MsgCode;

verus! {

/// The number of rows before page `page` of `page_size` rows.
pub open spec fn page_offset(page: nat, page_size: nat) -> nat {
    page * page_size
}

/// Pages tile the table: each page starts where the one before it ends,
/// and page 0 starts at the first row.
pub proof fn lemma_pages_adjacent(page: nat, page_size: nat)
    ensures
        page_offset(0, page_size) == 0,
        page_offset(page + 1, page_size) == page_offset(page, page_size) + page_size,
{
    assert((page + 1) * page_size == page * page_size + page_size) by (nonlinear_arith);
}

/// The `LIMIT` and `OFFSET` of the query that reads page `page` of
/// `page_size` rows: pages are numbered from 0.
pub fn page_window(page: usize, page_size: usize) -> (r: (i64, i64))
    requires
        page_size <= i64::MAX,
        page * page_size <= i64::MAX,
        page * page_size <= usize::MAX,
    ensures
        r.0 == page_size,
        r.1 == page_offset(page as nat, page_size as nat),
        r.1 == page * page_size,
{
    let offset = page * page_size;
    (page_size as i64, offset as i64)
}

/// The code that answers a request for one user: `no_info` when the user
/// exists, else `err_user_not_exist`.
pub fn lookup_code(found: bool) -> (c: MsgCode)
    ensures
        c == if found {
            MsgCode::NoInfo
        } else {
            MsgCode::ErrUserNotExist
        },
{
    if found {
        MsgCode::NoInfo
    } else {
        MsgCode::ErrUserNotExist
    }
}

/// The code that answers a request to remove one user:
/// `info_remove_user_ok` when a row was removed, else `err_user_not_exist`.
pub fn removal_code(removed: bool) -> (c: MsgCode)
    ensures
        c == if removed {
            MsgCode::InfoRemoveUserOk
        } else {
            MsgCode::ErrUserNotExist
        },
{
    if removed {
        MsgCode::InfoRemoveUserOk
    } else {
        MsgCode::ErrUserNotExist
    }
}

/// The code that answers a request to create a user under a given id:
/// `info_new_user_ok` when the row was inserted, else `err_user_exists`.
pub fn creation_code(created: bool) -> (c: MsgCode)
    ensures
        c == if created {
            MsgCode::InfoNewUserOk
        } else {
            MsgCode::ErrUserExists
        },
{
    if created {
        MsgCode::InfoNewUserOk
    } else {
        MsgCode::ErrUserExists
    }
}

impl User {
    /// The same record under the id `id`, as a request for `/<id>` stores it.
    pub fn with_id(self, id: u32) -> (u: User)
        ensures
            u.id == id,
            u.username == self.username,
            u.first_name == self.first_name,
            u.last_name == self.last_name,
            u.email == self.email,
            u.age == self.age,
            u.active == self.active,
            u.picture == self.picture,
    {
        let mut u = self;
        u.id = id;
        u
    }
}

} // verus!
