use kitty_api::gate::{check_token, has_prefix, is_api_path, not_authorized_path, request_delay, TokenCheck};
use kitty_api::headers::{HeaderError, PageSize};
use kitty_api::misc::{catch_not_auth, not_found, MsgCode};
use kitty_api::text::{parse_usize, push_decimal, str_eq};
use kitty_api::utils::get_context;

#[test]
fn parse_usize_accepts_decimal() {
    assert_eq!(parse_usize("0"), Some(0));
    assert_eq!(parse_usize("42"), Some(42));
    assert_eq!(parse_usize("+7"), Some(7));
    assert_eq!(parse_usize("007"), Some(7));
    assert_eq!(parse_usize(&usize::MAX.to_string()), Some(usize::MAX));
}

#[test]
fn parse_usize_refuses_other_text() {
    assert_eq!(parse_usize(""), None);
    assert_eq!(parse_usize("+"), None);
    assert_eq!(parse_usize("-1"), None);
    assert_eq!(parse_usize("-0"), None);
    assert_eq!(parse_usize(" 5"), None);
    assert_eq!(parse_usize("5 "), None);
    assert_eq!(parse_usize("12a"), None);
    assert_eq!(parse_usize("++1"), None);
    assert_eq!(parse_usize("٣"), None);
    let too_big = format!("{}0", usize::MAX);
    assert_eq!(parse_usize(&too_big), None);
    assert_eq!(parse_usize(&format!("{}x", too_big)), None);
}

#[test]
fn parse_usize_agrees_with_std() {
    for s in ["", "1", "+1", "-1", "99999999999999999999", "12 ", "x", "+", "0000", "18446744073709551615"] {
        assert_eq!(parse_usize(s), s.parse::<usize>().ok(), "{}", s);
    }
}

#[test]
fn push_decimal_writes_digits() {
    let mut s = "$".to_string();
    push_decimal(&mut s, 0);
    assert_eq!(s, "$0");
    let mut t = String::new();
    push_decimal(&mut t, 1234567890);
    assert_eq!(t, "1234567890");
    let mut u = String::new();
    push_decimal(&mut u, usize::MAX);
    assert_eq!(u, usize::MAX.to_string());
}

#[test]
fn str_eq_compares_text() {
    assert!(str_eq("abc", "abc"));
    assert!(!str_eq("abc", "abd"));
    assert!(!str_eq("abc", "ab"));
    assert!(str_eq("", ""));
}

#[test]
fn context_page_size() {
    assert_eq!(get_context(None).page_size, 5);
    assert_eq!(get_context(Some("12")).page_size, 12);
    assert_eq!(get_context(Some("0")).page_size, 0);
    assert_eq!(get_context(Some("twelve")).page_size, 5);
    assert_eq!(get_context(Some("")).page_size, 5);
    assert_eq!(
        get_context(None).docs_url,
        "https://github.com/kittyandrew/Kitty-API/tree/master/docs/DOCS.md"
    );
}

#[test]
fn page_size_header() {
    assert_eq!(PageSize::from_request(None), Ok(PageSize(5)));
    assert_eq!(PageSize::from_request(Some("20")), Ok(PageSize(20)));
    assert_eq!(PageSize::from_request(Some("+3")), Ok(PageSize(3)));
    assert_eq!(PageSize::from_request(Some("0")), Err(HeaderError::PageSizeBad));
    assert_eq!(PageSize::from_request(Some("ten")), Err(HeaderError::PageSizeBad));
    assert_eq!(PageSize::from_request(Some("-5")), Err(HeaderError::PageSizeBad));
    assert_eq!(PageSize::from_request(Some("")), Err(HeaderError::PageSizeBad));
    assert_eq!(HeaderError::PageSizeBad.status(), 412);
}

#[test]
fn page_size_never_zero() {
    for h in [None, Some("0"), Some("1"), Some("00"), Some("+0"), Some("5")] {
        if let Ok(p) = PageSize::from_request(h) {
            assert!(p.0 > 0);
        }
    }
}

#[test]
fn prefix_tests() {
    assert!(has_prefix("/api/users", "/api"));
    assert!(has_prefix("/api", "/api"));
    assert!(!has_prefix("/ap", "/api"));
    assert!(!has_prefix("/static/x", "/api"));
    assert!(has_prefix("x", ""));
    assert!(is_api_path("/api/accounts/login"));
    assert!(is_api_path("/apiary"));
    assert!(!is_api_path("/"));
}

#[test]
fn delay_only_on_api_from_one_to_ten() {
    assert_eq!(request_delay("/api/users", Some(1)), Some(1));
    assert_eq!(request_delay("/api/users", Some(10)), Some(10));
    assert_eq!(request_delay("/api/users", Some(0)), None);
    assert_eq!(request_delay("/api/users", Some(11)), None);
    assert_eq!(request_delay("/api/users", None), None);
    assert_eq!(request_delay("/static/a.css", Some(3)), None);
    assert_eq!(request_delay("/", Some(5)), None);
}

#[test]
fn token_check() {
    assert_eq!(check_token("/", Some("secret"), None), TokenCheck::Pass);
    assert_eq!(check_token("/static/x", Some("secret"), Some("bad")), TokenCheck::Pass);
    assert_eq!(check_token("/api/users", None, None), TokenCheck::Pass);
    assert_eq!(check_token("/api/users", None, Some("anything")), TokenCheck::Pass);
    assert_eq!(check_token("/api/users", Some("secret"), Some("secret")), TokenCheck::Pass);
    assert_eq!(check_token("/api/users", Some("secret"), Some("Secret")), TokenCheck::Redirect);
    assert_eq!(check_token("/api/users", Some("secret"), None), TokenCheck::Redirect);
    assert_eq!(check_token("/api/users", Some(""), Some("")), TokenCheck::Pass);
    assert_eq!(not_authorized_path(), "/api/not_authorized");
}

#[test]
fn fixed_notices() {
    let n = catch_not_auth();
    assert_eq!(n.msg_code, MsgCode::ErrAccessDenied);
    assert_eq!(n.msg_code.as_str(), "err_access_denied");
    assert_eq!(n.message, "Access denied! Authorization token is wrong or missing.");
    let m = not_found();
    assert_eq!(m.msg_code.as_str(), "err_res_not_found");
    assert_eq!(m.message, "Resource not found! Make you sure your request path and data are correct.");
}

#[test]
fn msg_code_texts() {
    let all = [
        (MsgCode::NoMessage, "no_message"),
        (MsgCode::NoInfo, "no_info"),
        (MsgCode::InfoUsersRemoved, "info_users_removed"),
        (MsgCode::InfoNewUserOk, "info_new_user_ok"),
        (MsgCode::ErrUserNotExist, "err_user_not_exist"),
        (MsgCode::InfoRemoveUserOk, "info_remove_user_ok"),
        (MsgCode::ErrUserExists, "err_user_exists"),
        (MsgCode::InfoUserPutOk, "info_user_put_ok"),
        (MsgCode::InfoRegOk, "info_reg_ok"),
        (MsgCode::InfoLoginOk, "info_login_ok"),
    ];
    for (code, text) in all {
        assert_eq!(code.as_str(), text);
    }
}
