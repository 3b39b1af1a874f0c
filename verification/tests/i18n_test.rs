use rust_ci::i18n::{catalog_lookup, t};

#[test]
fn looks_up_english_and_chinese() {
    assert_eq!(t("nav_dashboard", "en"), "Dashboard");
    assert_eq!(t("nav_dashboard", "zh"), "控制台");
    assert_eq!(t("login_err", "en"), "Invalid username or password");
    assert_eq!(t("login_err", "zh"), "用户名或密码错误");
    assert_eq!(t("proj_saved", "zh"), "项目保存成功。");
    assert_eq!(t("btn_tailf", "en"), "tail -f -n 5000");
}

#[test]
fn last_catalog_entry_is_found() {
    assert_eq!(t("users_saved", "en"), "User saved successfully.");
    assert_eq!(t("proj_saved", "en"), "Project saved successfully.");
}

#[test]
fn unknown_key_or_language_is_unknown() {
    assert_eq!(t("no_such_key", "en"), "UNKNOWN");
    assert_eq!(t("nav_dashboard", "fr"), "UNKNOWN");
    assert_eq!(t("nav_dashboard", ""), "UNKNOWN");
    assert_eq!(t("", "zh"), "UNKNOWN");
    assert_eq!(t("NAV_DASHBOARD", "en"), "UNKNOWN");
}

#[test]
fn catalog_lookup_reports_missing_texts() {
    assert_eq!(catalog_lookup("btn_save", "en"), Some("Save Changes"));
    assert_eq!(catalog_lookup("btn_save", "zh"), Some("保存更改"));
    assert_eq!(catalog_lookup("btn_save", "de"), None);
    assert_eq!(catalog_lookup("no_such_key", "zh"), None);
}
