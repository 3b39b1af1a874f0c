use rust_ci::db::{admin_seed_needed, database_url, default_admin};
use rust_ci::handlers::auth::{
    check_login, hash_password, login_page, prepare_user, users_page, LoginCheck, UserPayload,
};

#[test]
fn hashed_password_logs_in() {
    let hash = hash_password("s3cret");
    assert_ne!(hash, "s3cret");
    assert!(hash.starts_with("$argon2id$"));
    assert_eq!(check_login(Some(&hash), "s3cret"), LoginCheck::Accepted);
}

#[test]
fn wrong_password_is_rejected() {
    let hash = hash_password("s3cret");
    assert_eq!(check_login(Some(&hash), "s3cret!"), LoginCheck::Rejected);
    assert_eq!(check_login(Some(&hash), ""), LoginCheck::Rejected);
}

#[test]
fn unknown_user_is_rejected() {
    assert_eq!(check_login(None, "anything"), LoginCheck::Rejected);
}

#[test]
fn malformed_hash_is_reported() {
    assert_eq!(check_login(Some("not a hash"), "x"), LoginCheck::MalformedHash);
    assert_eq!(check_login(Some(""), "x"), LoginCheck::MalformedHash);
}

#[test]
fn salts_differ_between_hashes() {
    assert_ne!(hash_password("same"), hash_password("same"));
}

#[test]
fn default_admin_logs_in_with_admin456() {
    let admin = default_admin();
    assert_eq!(admin.username, "admin");
    assert!(admin.is_admin);
    assert_eq!(check_login(Some(&admin.password_hash), "admin456"), LoginCheck::Accepted);
    assert_eq!(check_login(Some(&admin.password_hash), "admin"), LoginCheck::Rejected);
}

#[test]
fn admin_is_seeded_only_once() {
    assert!(admin_seed_needed(0));
    assert!(!admin_seed_needed(1));
}

#[test]
fn database_url_defaults_to_local_file() {
    assert_eq!(database_url(None), "sqlite:rust_ci.db");
    assert_eq!(database_url(Some("sqlite::memory:".to_string())), "sqlite::memory:");
}

#[test]
fn login_page_messages() {
    let (page, missing) = login_page("en".to_string(), true);
    assert_eq!(page.error_msg.as_deref(), Some("Invalid username or password"));
    assert!(!page.is_logged_in);
    assert!(!missing);
    let (page, missing) = login_page("fr".to_string(), true);
    assert_eq!(page.error_msg.as_deref(), Some("UNKNOWN"));
    assert!(missing);
    let (page, missing) = login_page("fr".to_string(), false);
    assert_eq!(page.error_msg, None);
    assert!(!missing);
    let (page, _) = login_page("zh".to_string(), false);
    assert_eq!(page.error_msg, None);
    assert_eq!(page.success_msg, None);
    assert_eq!(page.lang, "zh");
}

#[test]
fn user_form_is_prepared() {
    let payload = UserPayload {
        username: "bob".to_string(),
        password: "pw".to_string(),
        is_admin: Some("on".to_string()),
    };
    let user = prepare_user(&payload);
    assert_eq!(user.username, "bob");
    assert!(user.is_admin);
    assert_eq!(check_login(Some(&user.password_hash), "pw"), LoginCheck::Accepted);
    let payload = UserPayload { username: "eve".to_string(), password: "pw".to_string(), is_admin: None };
    assert!(!prepare_user(&payload).is_admin);
}

#[test]
fn users_page_messages() {
    let (page, missing) = users_page("en".to_string(), Vec::new(), Some(Ok(())));
    assert_eq!(page.success_msg.as_deref(), Some("User saved successfully."));
    assert_eq!(page.error_msg, None);
    assert!(!missing);
    let (page, missing) = users_page("fr".to_string(), Vec::new(), Some(Ok(())));
    assert_eq!(page.success_msg.as_deref(), Some("UNKNOWN"));
    assert!(missing);
    let (page, missing) = users_page("fr".to_string(), Vec::new(), Some(Err("e".to_string())));
    assert_eq!(page.error_msg.as_deref(), Some("Error: e"));
    assert_eq!(page.success_msg, None);
    assert!(!missing);
    let (page, _) = users_page("zh".to_string(), Vec::new(), Some(Err("UNIQUE constraint failed".to_string())));
    assert_eq!(page.error_msg.as_deref(), Some("Error: UNIQUE constraint failed"));
    assert_eq!(page.success_msg, None);
    let (page, _) = users_page("zh".to_string(), Vec::new(), None);
    assert_eq!((page.error_msg, page.success_msg), (None, None));
    assert!(page.is_logged_in);
}
