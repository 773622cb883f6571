//! The message codes that every reply carries, and the fixed replies for a
//! refused token and for an unknown resource.

use vstd::prelude::*;

verus! {

/// The `msg_code` of a reply.
#[derive(PartialEq, Eq, Structural, Clone, Copy, Debug)]
pub enum MsgCode {
    NoMessage,
    NoInfo,
    InfoUsersRemoved,
    InfoNewUserOk,
    ErrUserNotExist,
    InfoRemoveUserOk,
    ErrUserExists,
    InfoUserPutOk,
    ErrEmailEmpty,
    ErrPasswordEmpty,
    ErrPasswordShort,
    ErrPasswordLong,
    ErrEmailTaken,
    ErrBadCredentials,
    InfoRegOk,
    InfoLoginOk,
    ErrAccessDenied,
    ErrResNotFound,
}

/// The text of each message code, as it appears in a reply.
pub open spec fn msg_code_text(code: MsgCode) -> Seq<char> {
    match code {
        MsgCode::NoMessage => "no_message"@,
        MsgCode::NoInfo => "no_info"@,
        MsgCode::InfoUsersRemoved => "info_users_removed"@,
        MsgCode::InfoNewUserOk => "info_new_user_ok"@,
        MsgCode::ErrUserNotExist => "err_user_not_exist"@,
        MsgCode::InfoRemoveUserOk => "info_remove_user_ok"@,
        MsgCode::ErrUserExists => "err_user_exists"@,
        MsgCode::InfoUserPutOk => "info_user_put_ok"@,
        MsgCode::ErrEmailEmpty => "err_email_empty"@,
        MsgCode::ErrPasswordEmpty => "err_password_empty"@,
        MsgCode::ErrPasswordShort => "err_password_short"@,
        MsgCode::ErrPasswordLong => "err_password_long"@,
        MsgCode::ErrEmailTaken => "err_email_taken"@,
        MsgCode::ErrBadCredentials => "err_bad_credentials"@,
        MsgCode::InfoRegOk => "info_reg_ok"@,
        MsgCode::InfoLoginOk => "info_login_ok"@,
        MsgCode::ErrAccessDenied => "err_access_denied"@,
        MsgCode::ErrResNotFound => "err_res_not_found"@,
    }
}

impl MsgCode {
    /// The code's text.
    pub fn as_str(&self) -> (s: &'static str)
        ensures
            s@ == msg_code_text(*self),
    {
        match self {
            MsgCode::NoMessage => "no_message",
            MsgCode::NoInfo => "no_info",
            MsgCode::InfoUsersRemoved => "info_users_removed",
            MsgCode::InfoNewUserOk => "info_new_user_ok",
            MsgCode::ErrUserNotExist => "err_user_not_exist",
            MsgCode::InfoRemoveUserOk => "info_remove_user_ok",
            MsgCode::ErrUserExists => "err_user_exists",
            MsgCode::InfoUserPutOk => "info_user_put_ok",
            MsgCode::ErrEmailEmpty => "err_email_empty",
            MsgCode::ErrPasswordEmpty => "err_password_empty",
            MsgCode::ErrPasswordShort => "err_password_short",
            MsgCode::ErrPasswordLong => "err_password_long",
            MsgCode::ErrEmailTaken => "err_email_taken",
            MsgCode::ErrBadCredentials => "err_bad_credentials",
            MsgCode::InfoRegOk => "info_reg_ok",
            MsgCode::InfoLoginOk => "info_login_ok",
            MsgCode::ErrAccessDenied => "err_access_denied",
            MsgCode::ErrResNotFound => "err_res_not_found",
        }
    }
}

/// A reply that carries a code and a human-readable message.
pub struct Notice {
    pub msg_code: MsgCode,
    pub message: String,
}

/// The reply to an API request whose token is wrong or missing.
pub fn catch_not_auth() -> (n: Notice)
    ensures
        n.msg_code == MsgCode::ErrAccessDenied,
        n.message@ == "Access denied! Authorization token is wrong or missing."@,
{
    Notice {
        msg_code: MsgCode::ErrAccessDenied,
        message: String::from_str("Access denied! Authorization token is wrong or missing."),
    }
}

/// The reply to a request for a path that nothing serves.
pub fn not_found() -> (n: Notice)
    ensures
        n.msg_code == MsgCode::ErrResNotFound,
        n.message@ == "Resource not found! Make you sure your request path and data are correct."@,
{
    Notice {
        msg_code: MsgCode::ErrResNotFound,
        message: String::from_str(
            "Resource not found! Make you sure your request path and data are correct.",
        ),
    }
}

} // verus!
