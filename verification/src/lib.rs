//! The request-handling rules of a small REST service for users and
//! accounts: input validation, account registration and login, paging
//! arithmetic, header and query handling, and the SQL that each data item
//! table is served with.

pub mod text;
pub mod entities;
pub mod misc;
pub mod utils;
pub mod accounts;
pub mod headers;
pub mod data_item;
pub mod gate;
pub mod users;
pub mod user;
pub mod preparation;
