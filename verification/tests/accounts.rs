use kitty_api::accounts::{login_with_digest, register_with_digest};
use kitty_api::accounts::{account_login, account_register, login_profile, register_profile};
use kitty_api::entities::{Data, LoginCache, LoginMap};
use kitty_api::misc::MsgCode;
use kitty_api::utils::{
    get_login_cache, get_login_storage, login_data_has_error, new_session, reg_data_has_error,
    AccountError,
};

fn data(email: &str, password: &str) -> Data {
    Data { email: email.to_string(), password: password.to_string() }
}

fn digest(password: &str) -> String {
    blake3::hash(password.as_bytes()).to_hex().to_string()
}

fn is_token(s: &str, n: usize) -> bool {
    s.chars().count() == n && s.chars().all(|c| c.is_ascii_alphanumeric())
}

fn stores() -> (LoginMap, LoginCache) {
    (get_login_storage(), get_login_cache())
}

#[test]
fn empty_stores_are_empty() {
    let (map, cache) = stores();
    assert_eq!(map.len(), 0);
    assert_eq!(cache.len(), 0);
}

#[test]
fn reg_errors_in_order() {
    let (_, mut cache) = stores();
    assert_eq!(reg_data_has_error(&data("", ""), &cache), Some(AccountError::EmailEmpty));
    assert_eq!(reg_data_has_error(&data("a@b.c", ""), &cache), Some(AccountError::PasswordEmpty));
    assert_eq!(reg_data_has_error(&data("a@b.c", "1234567"), &cache), Some(AccountError::PasswordShort));
    assert_eq!(reg_data_has_error(&data("a@b.c", "12345678"), &cache), None);
    let long = "x".repeat(129);
    assert_eq!(reg_data_has_error(&data("a@b.c", &long), &cache), Some(AccountError::PasswordLong));
    let max = "x".repeat(128);
    assert_eq!(reg_data_has_error(&data("a@b.c", &max), &cache), None);
    cache.insert("a@b.c".to_string());
    assert_eq!(reg_data_has_error(&data("a@b.c", "12345678"), &cache), Some(AccountError::EmailTaken));
    assert_eq!(reg_data_has_error(&data("a@b.c", "1234"), &cache), Some(AccountError::PasswordShort));
}

#[test]
fn password_length_counts_bytes() {
    let (_, cache) = stores();
    // four characters, eight bytes
    assert_eq!(reg_data_has_error(&data("a@b.c", "éééé"), &cache), None);
    // seven characters, seven bytes
    assert_eq!(reg_data_has_error(&data("a@b.c", "abcdefg"), &cache), Some(AccountError::PasswordShort));
    // 65 characters, 130 bytes
    let long = "é".repeat(65);
    assert_eq!(reg_data_has_error(&data("a@b.c", &long), &cache), Some(AccountError::PasswordLong));
}

#[test]
fn login_errors_in_order() {
    let (_, mut cache) = stores();
    assert_eq!(login_data_has_error(&data("", "x"), &cache), Some(AccountError::EmailEmpty));
    assert_eq!(login_data_has_error(&data("a@b.c", ""), &cache), Some(AccountError::PasswordEmpty));
    assert_eq!(login_data_has_error(&data("a@b.c", "short"), &cache), Some(AccountError::PasswordShort));
    assert_eq!(
        login_data_has_error(&data("a@b.c", &"y".repeat(200)), &cache),
        Some(AccountError::PasswordLong)
    );
    assert_eq!(login_data_has_error(&data("a@b.c", "12345678"), &cache), Some(AccountError::BadCredentials));
    cache.insert("a@b.c".to_string());
    assert_eq!(login_data_has_error(&data("a@b.c", "12345678"), &cache), None);
}

#[test]
fn error_codes() {
    assert_eq!(AccountError::EmailEmpty.msg_code().as_str(), "err_email_empty");
    assert_eq!(AccountError::PasswordEmpty.msg_code().as_str(), "err_password_empty");
    assert_eq!(AccountError::PasswordShort.msg_code().as_str(), "err_password_short");
    assert_eq!(AccountError::PasswordLong.msg_code().as_str(), "err_password_long");
    assert_eq!(AccountError::EmailTaken.msg_code().as_str(), "err_email_taken");
    assert_eq!(AccountError::BadCredentials.msg_code(), MsgCode::ErrBadCredentials);
}

#[test]
fn new_session_is_alphanumeric() {
    for n in [0usize, 1, 24, 100] {
        let s = new_session(n);
        assert!(is_token(&s, n));
    }
}

#[test]
fn register_stores_profile_under_digest() {
    let (mut map, mut cache) = stores();
    let r = register_profile(&data("kitty@cat.io", "meowmeow"), "SESSION".to_string(), &mut map, &mut cache);
    assert_eq!(r, Ok("SESSION".to_string()));
    assert!(cache.contains("kitty@cat.io"));
    assert_eq!(cache.len(), 1);
    assert_eq!(map.len(), 1);
    assert!(map.get("meowmeow").is_none());
    let key = digest("meowmeow");
    assert_eq!(key.len(), 64);
    let p = map.get(&key).unwrap();
    assert_eq!(p.login, "kitty@cat.io");
    assert_eq!(p.password, key);
    assert_eq!(p.session, "SESSION");
}

#[test]
fn refused_register_changes_nothing() {
    let (mut map, mut cache) = stores();
    let r = register_profile(&data("kitty@cat.io", "meow"), "S".to_string(), &mut map, &mut cache);
    assert_eq!(r, Err(AccountError::PasswordShort));
    assert_eq!(map.len(), 0);
    assert_eq!(cache.len(), 0);
}

#[test]
fn register_twice_is_refused() {
    let (mut map, mut cache) = stores();
    let d = data("kitty@cat.io", "meowmeow");
    assert!(account_register(&d, &mut map, &mut cache).is_ok());
    assert_eq!(account_register(&d, &mut map, &mut cache), Err(AccountError::EmailTaken));
    assert_eq!(map.len(), 1);
    assert_eq!(cache.len(), 1);
}

#[test]
fn register_then_login() {
    let (mut map, mut cache) = stores();
    let d = data("kitty@cat.io", "meowmeow");
    let first = account_register(&d, &mut map, &mut cache).unwrap();
    assert!(is_token(&first, 24));
    let second = account_login(&d, &mut map, &cache).unwrap();
    assert!(is_token(&second, 24));
    let p = map.get(&digest("meowmeow")).unwrap();
    assert_eq!(p.session, second);
    assert_eq!(p.login, "kitty@cat.io");
    assert_eq!(map.len(), 1);
}

#[test]
fn login_sets_given_session() {
    let (mut map, mut cache) = stores();
    let d = data("kitty@cat.io", "meowmeow");
    register_profile(&d, "FIRST".to_string(), &mut map, &mut cache).unwrap();
    assert_eq!(login_profile(&d, "SECOND".to_string(), &mut map, &cache), Ok("SECOND".to_string()));
    let p = map.get(&digest("meowmeow")).unwrap();
    assert_eq!(p.session, "SECOND");
    assert_eq!(p.password, digest("meowmeow"));
}

#[test]
fn login_with_unknown_password_is_refused() {
    let (mut map, mut cache) = stores();
    register_profile(&data("kitty@cat.io", "meowmeow"), "S".to_string(), &mut map, &mut cache).unwrap();
    let r = login_profile(&data("kitty@cat.io", "purrpurr"), "T".to_string(), &mut map, &cache);
    assert_eq!(r, Err(AccountError::BadCredentials));
    assert_eq!(map.get(&digest("meowmeow")).unwrap().session, "S");
}

#[test]
fn login_with_unknown_email_is_refused() {
    let (mut map, mut cache) = stores();
    register_profile(&data("kitty@cat.io", "meowmeow"), "S".to_string(), &mut map, &mut cache).unwrap();
    let r = account_login(&data("dog@dog.io", "meowmeow"), &mut map, &cache);
    assert_eq!(r, Err(AccountError::BadCredentials));
}

#[test]
fn login_goes_by_password_digest_only() {
    // The profile is found by the password's digest, whatever registered
    // address the request names.
    let (mut map, mut cache) = stores();
    register_profile(&data("a@cat.io", "meowmeow"), "A".to_string(), &mut map, &mut cache).unwrap();
    register_profile(&data("b@cat.io", "purrpurr"), "B".to_string(), &mut map, &mut cache).unwrap();
    let r = login_profile(&data("b@cat.io", "meowmeow"), "C".to_string(), &mut map, &cache);
    assert_eq!(r, Ok("C".to_string()));
    let p = map.get(&digest("meowmeow")).unwrap();
    assert_eq!(p.login, "a@cat.io");
    assert_eq!(p.session, "C");
    assert_eq!(map.get(&digest("purrpurr")).unwrap().session, "B");
}

#[test]
fn stores_stay_consistent() {
    let (mut map, mut cache) = stores();
    let creds = [("a@cat.io", "meowmeow"), ("b@cat.io", "purrpurr"), ("c@cat.io", "meowmeow")];
    for (e, p) in creds {
        let _ = account_register(&data(e, p), &mut map, &mut cache);
        let _ = account_login(&data(e, p), &mut map, &cache);
    }
    for (_, p) in creds {
        let key = digest(p);
        let profile = map.get(&key).unwrap();
        assert_eq!(profile.password, key);
        assert!(cache.contains(&profile.login));
    }
    // the same password overwrites the earlier profile
    assert_eq!(map.get(&digest("meowmeow")).unwrap().login, "c@cat.io");
    assert_eq!(map.len(), 2);
    assert_eq!(cache.len(), 3);
}

#[test]
fn register_and_login_with_given_digest() {
    let (mut map, mut cache) = stores();
    let d = data("kitty@cat.io", "meowmeow");
    let r = register_with_digest(&d, "D1".to_string(), "S1".to_string(), &mut map, &mut cache);
    assert_eq!(r, Ok("S1".to_string()));
    let p = map.get("D1").unwrap();
    assert_eq!(p.login, "kitty@cat.io");
    assert_eq!(p.password, "D1");
    assert_eq!(p.session, "S1");
    assert!(cache.contains("kitty@cat.io"));
    assert_eq!(
        login_with_digest(&d, "D2".to_string(), "S2".to_string(), &mut map, &cache),
        Err(AccountError::BadCredentials)
    );
    assert_eq!(login_with_digest(&d, "D1".to_string(), "S2".to_string(), &mut map, &cache), Ok("S2".to_string()));
    assert_eq!(map.get("D1").unwrap().session, "S2");
    assert_eq!(
        register_with_digest(&d, "D3".to_string(), "S3".to_string(), &mut map, &mut cache),
        Err(AccountError::EmailTaken)
    );
    assert_eq!(map.len(), 1);
}
