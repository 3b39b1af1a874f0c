//! Lightweight bilingual (Chinese / English) message catalog.

use vstd::prelude::*;
use crate::text::str_equal;

verus! {

/// One catalog row: a message key with its English and Chinese texts.
pub type CatalogEntry = (Seq<char>, Seq<char>, Seq<char>);

/// The message catalog, one row per key, in lookup order.
pub open spec fn catalog() -> Seq<CatalogEntry> {
    seq![
        ("nav_dashboard"@, "Dashboard"@, "控制台"@),
        ("nav_projects"@, "Projects"@, "项目管理"@),
        ("nav_users"@, "Users"@, "用户管理"@),
        ("nav_logout"@, "Logout"@, "退出登录"@),
        ("login_title"@, "Login to Rust CI"@, "登录 Rust CI"@),
        ("username"@, "Username"@, "用户名"@),
        ("password"@, "Password"@, "密码"@),
        ("login_btn"@, "Sign In"@, "登 录"@),
        ("dash_recent_builds"@, "Recent Builds"@, "最近构建"@),
        ("dash_no_builds"@, "No builds found."@, "暂无构建记录。"@),
        ("col_id"@, "ID"@, "ID"@),
        ("col_project"@, "Project"@, "项目"@),
        ("col_status"@, "Status"@, "状态"@),
        ("col_started_at"@, "Started At"@, "开始时间"@),
        ("col_finished_at"@, "Finished At"@, "结束时间"@),
        ("col_action"@, "Action"@, "操作"@),
        ("btn_view"@, "View"@, "查看"@),
        ("proj_add_title"@, "Add New Project"@, "添加新项目"@),
        ("proj_name"@, "Project Name"@, "项目名称"@),
        ("proj_script"@, "Shell Script Path"@, "Shell脚本路径"@),
        ("proj_log_dir"@, "Runtime Log Directory"@, "运行日志目录"@),
        ("btn_add_proj"@, "Add Project"@, "添加项目"@),
        ("proj_list_title"@, "Projects"@, "项目列表"@),
        ("col_webhook_key"@, "Webhook Key"@, "Webhook Key"@),
        ("col_webhook_url"@, "Webhook URL"@, "触发地址 (Webhook)"@),
        ("btn_edit"@, "Edit"@, "编辑"@),
        ("btn_logs"@, "Logs"@, "运行日志"@),
        ("proj_no_projects"@, "No projects found."@, "暂无项目。"@),
        ("proj_edit_title"@, "Edit Project"@, "编辑项目"@),
        ("btn_save"@, "Save Changes"@, "保存更改"@),
        ("btn_cancel"@, "Cancel"@, "取消"@),
        ("logs_title"@, "Runtime Logs"@, "运行日志"@),
        ("logs_dir"@, "Directory"@, "所在目录"@),
        ("col_filename"@, "Filename"@, "文件名"@),
        ("col_size"@, "Size (Bytes)"@, "大小 (字节)"@),
        ("btn_tailf"@, "tail -f -n 5000"@, "tail -f -n 5000"@),
        ("logs_no_files"@, "No files found in directory."@, "目录中没有找到日志文件。"@),
        ("btn_back_proj"@, "Back to Projects"@, "返回项目列表"@),
        ("build_viewer_title"@, "Build Log"@, "构建日志"@),
        ("log_loading"@, "Loading logs..."@, "正在加载日志..."@),
        ("btn_back_dash"@, "Back to Dashboard"@, "返回控制台"@),
        ("btn_back_logs"@, "Back to Logs"@, "返回日志列表"@),
        ("users_add_title"@, "Add/Edit User"@, "添加/修改用户"@),
        ("users_is_admin"@, "Is Admin"@, "是否管理员"@),
        ("btn_save_user"@, "Save User"@, "保存用户"@),
        ("users_list_title"@, "Users"@, "用户列表"@),
        ("users_no_users"@, "No users found."@, "暂无用户。"@),
        ("login_err"@, "Invalid username or password"@, "用户名或密码错误"@),
        ("users_saved"@, "User saved successfully."@, "用户保存成功。"@),
        ("proj_saved"@, "Project saved successfully."@, "项目保存成功。"@),
    ]
}

/// The English and Chinese texts of the first row of `cat` whose key is `key`.
pub open spec fn lookup(cat: Seq<CatalogEntry>, key: Seq<char>) -> Option<(Seq<char>, Seq<char>)>
    decreases cat.len(),
{
    if cat.len() == 0 {
        None
    } else if cat[0].0 == key {
        Some((cat[0].1, cat[0].2))
    } else {
        lookup(cat.drop_first(), key)
    }
}

/// The catalog text for `key` in `lang`, for the two supported languages
/// "en" and "zh"; `None` for a missing key or any other language.
pub open spec fn catalog_text(key: Seq<char>, lang: Seq<char>) -> Option<Seq<char>> {
    match lookup(catalog(), key) {
        Some((en, zh)) => if lang == "en"@ {
            Some(en)
        } else if lang == "zh"@ {
            Some(zh)
        } else {
            None
        },
        None => None,
    }
}

/// The text shown for `key` in language `lang`: the catalog text, or
/// "UNKNOWN" when the catalog has none.
pub open spec fn localized_text(key: Seq<char>, lang: Seq<char>) -> Seq<char> {
    match catalog_text(key, lang) {
        Some(text) => text,
        None => "UNKNOWN"@,
    }
}

proof fn lemma_lookup_at(cat: Seq<CatalogEntry>, key: Seq<char>, i: int)
    requires
        0 <= i < cat.len(),
        cat[i].0 == key,
        forall|j: int| 0 <= j < i ==> (#[trigger] cat[j]).0 != key,
    ensures
        lookup(cat, key) == Some((cat[i].1, cat[i].2)),
    decreases i,
{
    if i > 0 {
        assert forall|j: int| 0 <= j < i - 1 implies (#[trigger] cat.drop_first()[j]).0 != key by {
            assert(cat.drop_first()[j] == cat[j + 1]);
        }
        lemma_lookup_at(cat.drop_first(), key, i - 1);
    }
}

proof fn lemma_texts_of_nav_dashboard()
    ensures
        catalog_text("nav_dashboard"@, "en"@) == Some("Dashboard"@),
        catalog_text("nav_dashboard"@, "zh"@) == Some("控制台"@),
{
    reveal_strlit("nav_dashboard");
    reveal_strlit("en");
    reveal_strlit("zh");
    assert("en"@[0] != "zh"@[0]);
    assert(catalog()[0] == ("nav_dashboard"@, "Dashboard"@, "控制台"@));
    lemma_lookup_at(catalog(), "nav_dashboard"@, 0);
}

proof fn lemma_texts_of_nav_projects()
    ensures
        catalog_text("nav_projects"@, "en"@) == Some("Projects"@),
        catalog_text("nav_projects"@, "zh"@) == Some("项目管理"@),
{
    reveal_strlit("nav_projects");
    reveal_strlit("en");
    reveal_strlit("zh");
    assert("en"@[0] != "zh"@[0]);
    reveal_strlit("nav_dashboard");
    assert("nav_dashboard"@.len() != "nav_projects"@.len());
    assert(catalog()[0].0 == "nav_dashboard"@);
    assert(catalog()[1] == ("nav_projects"@, "Projects"@, "项目管理"@));
    lemma_lookup_at(catalog(), "nav_projects"@, 1);
}

proof fn lemma_texts_of_nav_users()
    ensures
        catalog_text("nav_users"@, "en"@) == Some("Users"@),
        catalog_text("nav_users"@, "zh"@) == Some("用户管理"@),
{
    reveal_strlit("nav_users");
    reveal_strlit("en");
    reveal_strlit("zh");
    assert("en"@[0] != "zh"@[0]);
    reveal_strlit("nav_dashboard");
    assert("nav_dashboard"@.len() != "nav_users"@.len());
    assert(catalog()[0].0 == "nav_dashboard"@);
    reveal_strlit("nav_projects");
    assert("nav_projects"@.len() != "nav_users"@.len());
    assert(catalog()[1].0 == "nav_projects"@);
    assert(catalog()[2] == ("nav_users"@, "Users"@, "用户管理"@));
    lemma_lookup_at(catalog(), "nav_users"@, 2);
}

proof fn lemma_texts_of_nav_logout()
    ensures
        catalog_text("nav_logout"@, "en"@) == Some("Logout"@),
        catalog_text("nav_logout"@, "zh"@) == Some("退出登录"@),
{
    reveal_strlit("nav_logout");
    reveal_strlit("en");
    reveal_strlit("zh");
    assert("en"@[0] != "zh"@[0]);
    reveal_strlit("nav_dashboard");
    assert("nav_dashboard"@.len() != "nav_logout"@.len());
    assert(catalog()[0].0 == "nav_dashboard"@);
    reveal_strlit("nav_projects");
    assert("nav_projects"@.len() != "nav_logout"@.len());
    assert(catalog()[1].0 == "nav_projects"@);
    reveal_strlit("nav_users");
    assert("nav_users"@.len() != "nav_logout"@.len());
    assert(catalog()[2].0 == "nav_users"@);
    assert(catalog()[3] == ("nav_logout"@, "Logout"@, "退出登录"@));
    lemma_lookup_at(catalog(), "nav_logout"@, 3);
}

proof fn lemma_texts_of_login_title()
    ensures
        catalog_text("login_title"@, "en"@) == Some("Login to Rust CI"@),
        catalog_text("login_title"@, "zh"@) == Some("登录 Rust CI"@),
{
    reveal_strlit("login_title");
    reveal_strlit("en");
    reveal_strlit("zh");
    assert("en"@[0] != "zh"@[0]);
    reveal_strlit("nav_dashboard");
    assert("nav_dashboard"@.len() != "login_title"@.len());
    assert(catalog()[0].0 == "nav_dashboard"@);
    reveal_strlit("nav_projects");
    assert("nav_projects"@.len() != "login_title"@.len());
    assert(catalog()[1].0 == "nav_projects"@);
    reveal_strlit("nav_users");
    assert("nav_users"@.len() != "login_title"@.len());
    assert(catalog()[2].0 == "nav_users"@);
    reveal_strlit("nav_logout");
    assert("nav_logout"@.len() != "login_title"@.len());
    assert(catalog()[3].0 == "nav_logout"@);
    assert(catalog()[4] == ("login_title"@, "Login to Rust CI"@, "登录 Rust CI"@));
    lemma_lookup_at(catalog(), "login_title"@, 4);
}

proof fn lemma_texts_of_username()
    ensures
        catalog_text("username"@, "en"@) == Some("Username"@),
        catalog_text("username"@, "zh"@) == Some("用户名"@),
{
    reveal_strlit("username");
    reveal_strlit("en");
    reveal_strlit("zh");
    assert("en"@[0] != "zh"@[0]);
    reveal_strlit("nav_dashboard");
    assert("nav_dashboard"@.len() != "username"@.len());
    assert(catalog()[0].0 == "nav_dashboard"@);
    reveal_strlit("nav_projects");
    assert("nav_projects"@.len() != "username"@.len());
    assert(catalog()[1].0 == "nav_projects"@);
    reveal_strlit("nav_users");
    assert("nav_users"@.len() != "username"@.len());
    assert(catalog()[2].0 == "nav_users"@);
    reveal_strlit("nav_logout");
    assert("nav_logout"@.len() != "username"@.len());
    assert(catalog()[3].0 == "nav_logout"@);
    reveal_strlit("login_title");
    assert("login_title"@.len() != "username"@.len());
    assert(catalog()[4].0 == "login_title"@);
    assert(catalog()[5] == ("username"@, "Username"@, "用户名"@));
    lemma_lookup_at(catalog(), "username"@, 5);
}

proof fn lemma_texts_of_password()
    ensures
        catalog_text("password"@, "en"@) == Some("Password"@),
        catalog_text("password"@, "zh"@) == Some("密码"@),
{
    reveal_strlit("password");
    reveal_strlit("en");
    reveal_strlit("zh");
    assert("en"@[0] != "zh"@[0]);
    reveal_strlit("nav_dashboard");
    assert("nav_dashboard"@.len() != "password"@.len());
    assert(catalog()[0].0 == "nav_dashboard"@);
    reveal_strlit("nav_projects");
    assert("nav_projects"@.len() != "password"@.len());
    assert(catalog()[1].0 == "nav_projects"@);
    reveal_strlit("nav_users");
    assert("nav_users"@.len() != "password"@.len());
    assert(catalog()[2].0 == "nav_users"@);
    reveal_strlit("nav_logout");
    assert("nav_logout"@.len() != "password"@.len());
    assert(catalog()[3].0 == "nav_logout"@);
    reveal_strlit("login_title");
    assert("login_title"@.len() != "password"@.len());
    assert(catalog()[4].0 == "login_title"@);
    reveal_strlit("username");
    assert("username"@[0] != "password"@[0]);
    assert(catalog()[5].0 == "username"@);
    assert(catalog()[6] == ("password"@, "Password"@, "密码"@));
    lemma_lookup_at(catalog(), "password"@, 6);
}

proof fn lemma_texts_of_login_btn()
    ensures
        catalog_text("login_btn"@, "en"@) == Some("Sign In"@),
        catalog_text("login_btn"@, "zh"@) == Some("登 录"@),
{
    reveal_strlit("login_btn");
    reveal_strlit("en");
    reveal_strlit("zh");
    assert("en"@[0] != "zh"@[0]);
    reveal_strlit("nav_dashboard");
    assert("nav_dashboard"@.len() != "login_btn"@.len());
    assert(catalog()[0].0 == "nav_dashboard"@);
    reveal_strlit("nav_projects");
    assert("nav_projects"@.len() != "login_btn"@.len());
    assert(catalog()[1].0 == "nav_projects"@);
    reveal_strlit("nav_users");
    assert("nav_users"@[0] != "login_btn"@[0]);
    assert(catalog()[2].0 == "nav_users"@);
    reveal_strlit("nav_logout");
    assert("nav_logout"@.len() != "login_btn"@.len());
    assert(catalog()[3].0 == "nav_logout"@);
    reveal_strlit("login_title");
    assert("login_title"@.len() != "login_btn"@.len());
    assert(catalog()[4].0 == "login_title"@);
    reveal_strlit("username");
    assert("username"@.len() != "login_btn"@.len());
    assert(catalog()[5].0 == "username"@);
    reveal_strlit("password");
    assert("password"@.len() != "login_btn"@.len());
    assert(catalog()[6].0 == "password"@);
    assert(catalog()[7] == ("login_btn"@, "Sign In"@, "登 录"@));
    lemma_lookup_at(catalog(), "login_btn"@, 7);
}

proof fn lemma_texts_of_dash_recent_builds()
    ensures
        catalog_text("dash_recent_builds"@, "en"@) == Some("Recent Builds"@),
        catalog_text("dash_recent_builds"@, "zh"@) == Some("最近构建"@),
{
    reveal_strlit("dash_recent_builds");
    reveal_strlit("en");
    reveal_strlit("zh");
    assert("en"@[0] != "zh"@[0]);
    reveal_strlit("nav_dashboard");
    assert("nav_dashboard"@.len() != "dash_recent_builds"@.len());
    assert(catalog()[0].0 == "nav_dashboard"@);
    reveal_strlit("nav_projects");
    assert("nav_projects"@.len() != "dash_recent_builds"@.len());
    assert(catalog()[1].0 == "nav_projects"@);
    reveal_strlit("nav_users");
    assert("nav_users"@.len() != "dash_recent_builds"@.len());
    assert(catalog()[2].0 == "nav_users"@);
    reveal_strlit("nav_logout");
    assert("nav_logout"@.len() != "dash_recent_builds"@.len());
    assert(catalog()[3].0 == "nav_logout"@);
    reveal_strlit("login_title");
    assert("login_title"@.len() != "dash_recent_builds"@.len());
    assert(catalog()[4].0 == "login_title"@);
    reveal_strlit("username");
    assert("username"@.len() != "dash_recent_builds"@.len());
    assert(catalog()[5].0 == "username"@);
    reveal_strlit("password");
    assert("password"@.len() != "dash_recent_builds"@.len());
    assert(catalog()[6].0 == "password"@);
    reveal_strlit("login_btn");
    assert("login_btn"@.len() != "dash_recent_builds"@.len());
    assert(catalog()[7].0 == "login_btn"@);
    assert(catalog()[8] == ("dash_recent_builds"@, "Recent Builds"@, "最近构建"@));
    lemma_lookup_at(catalog(), "dash_recent_builds"@, 8);
}

proof fn lemma_texts_of_dash_no_builds()
    ensures
        catalog_text("dash_no_builds"@, "en"@) == Some("No builds found."@),
        catalog_text("dash_no_builds"@, "zh"@) == Some("暂无构建记录。"@),
{
    reveal_strlit("dash_no_builds");
    reveal_strlit("en");
    reveal_strlit("zh");
    assert("en"@[0] != "zh"@[0]);
    reveal_strlit("nav_dashboard");
    assert("nav_dashboard"@.len() != "dash_no_builds"@.len());
    assert(catalog()[0].0 == "nav_dashboard"@);
    reveal_strlit("nav_projects");
    assert("nav_projects"@.len() != "dash_no_builds"@.len());
    assert(catalog()[1].0 == "nav_projects"@);
    reveal_strlit("nav_users");
    assert("nav_users"@.len() != "dash_no_builds"@.len());
    assert(catalog()[2].0 == "nav_users"@);
    reveal_strlit("nav_logout");
    assert("nav_logout"@.len() != "dash_no_builds"@.len());
    assert(catalog()[3].0 == "nav_logout"@);
    reveal_strlit("login_title");
    assert("login_title"@.len() != "dash_no_builds"@.len());
    assert(catalog()[4].0 == "login_title"@);
    reveal_strlit("username");
    assert("username"@.len() != "dash_no_builds"@.len());
    assert(catalog()[5].0 == "username"@);
    reveal_strlit("password");
    assert("password"@.len() != "dash_no_builds"@.len());
    assert(catalog()[6].0 == "password"@);
    reveal_strlit("login_btn");
    assert("login_btn"@.len() != "dash_no_builds"@.len());
    assert(catalog()[7].0 == "login_btn"@);
    reveal_strlit("dash_recent_builds");
    assert("dash_recent_builds"@.len() != "dash_no_builds"@.len());
    assert(catalog()[8].0 == "dash_recent_builds"@);
    assert(catalog()[9] == ("dash_no_builds"@, "No builds found."@, "暂无构建记录。"@));
    lemma_lookup_at(catalog(), "dash_no_builds"@, 9);
}

proof fn lemma_texts_of_col_id()
    ensures
        catalog_text("col_id"@, "en"@) == Some("ID"@),
        catalog_text("col_id"@, "zh"@) == Some("ID"@),
{
    reveal_strlit("col_id");
    reveal_strlit("en");
    reveal_strlit("zh");
    assert("en"@[0] != "zh"@[0]);
    reveal_strlit("nav_dashboard");
    assert("nav_dashboard"@.len() != "col_id"@.len());
    assert(catalog()[0].0 == "nav_dashboard"@);
    reveal_strlit("nav_projects");
    assert("nav_projects"@.len() != "col_id"@.len());
    assert(catalog()[1].0 == "nav_projects"@);
    reveal_strlit("nav_users");
    assert("nav_users"@.len() != "col_id"@.len());
    assert(catalog()[2].0 == "nav_users"@);
    reveal_strlit("nav_logout");
    assert("nav_logout"@.len() != "col_id"@.len());
    assert(catalog()[3].0 == "nav_logout"@);
    reveal_strlit("login_title");
    assert("login_title"@.len() != "col_id"@.len());
    assert(catalog()[4].0 == "login_title"@);
    reveal_strlit("username");
    assert("username"@.len() != "col_id"@.len());
    assert(catalog()[5].0 == "username"@);
    reveal_strlit("password");
    assert("password"@.len() != "col_id"@.len());
    assert(catalog()[6].0 == "password"@);
    reveal_strlit("login_btn");
    assert("login_btn"@.len() != "col_id"@.len());
    assert(catalog()[7].0 == "login_btn"@);
    reveal_strlit("dash_recent_builds");
    assert("dash_recent_builds"@.len() != "col_id"@.len());
    assert(catalog()[8].0 == "dash_recent_builds"@);
    reveal_strlit("dash_no_builds");
    assert("dash_no_builds"@.len() != "col_id"@.len());
    assert(catalog()[9].0 == "dash_no_builds"@);
    assert(catalog()[10] == ("col_id"@, "ID"@, "ID"@));
    lemma_lookup_at(catalog(), "col_id"@, 10);
}

proof fn lemma_texts_of_col_project()
    ensures
        catalog_text("col_project"@, "en"@) == Some("Project"@),
        catalog_text("col_project"@, "zh"@) == Some("项目"@),
{
    reveal_strlit("col_project");
    reveal_strlit("en");
    reveal_strlit("zh");
    assert("en"@[0] != "zh"@[0]);
    reveal_strlit("nav_dashboard");
    assert("nav_dashboard"@.len() != "col_project"@.len());
    assert(catalog()[0].0 == "nav_dashboard"@);
    reveal_strlit("nav_projects");
    assert("nav_projects"@.len() != "col_project"@.len());
    assert(catalog()[1].0 == "nav_projects"@);
    reveal_strlit("nav_users");
    assert("nav_users"@.len() != "col_project"@.len());
    assert(catalog()[2].0 == "nav_users"@);
    reveal_strlit("nav_logout");
    assert("nav_logout"@.len() != "col_project"@.len());
    assert(catalog()[3].0 == "nav_logout"@);
    reveal_strlit("login_title");
    assert("login_title"@[0] != "col_project"@[0]);
    assert(catalog()[4].0 == "login_title"@);
    reveal_strlit("username");
    assert("username"@.len() != "col_project"@.len());
    assert(catalog()[5].0 == "username"@);
    reveal_strlit("password");
    assert("password"@.len() != "col_project"@.len());
    assert(catalog()[6].0 == "password"@);
    reveal_strlit("login_btn");
    assert("login_btn"@.len() != "col_project"@.len());
    assert(catalog()[7].0 == "login_btn"@);
    reveal_strlit("dash_recent_builds");
    assert("dash_recent_builds"@.len() != "col_project"@.len());
    assert(catalog()[8].0 == "dash_recent_builds"@);
    reveal_strlit("dash_no_builds");
    assert("dash_no_builds"@.len() != "col_project"@.len());
    assert(catalog()[9].0 == "dash_no_builds"@);
    reveal_strlit("col_id");
    assert("col_id"@.len() != "col_project"@.len());
    assert(catalog()[10].0 == "col_id"@);
    assert(catalog()[11] == ("col_project"@, "Project"@, "项目"@));
    lemma_lookup_at(catalog(), "col_project"@, 11);
}

proof fn lemma_texts_of_col_status()
    ensures
        catalog_text("col_status"@, "en"@) == Some("Status"@),
        catalog_text("col_status"@, "zh"@) == Some("状态"@),
{
    reveal_strlit("col_status");
    reveal_strlit("en");
    reveal_strlit("zh");
    assert("en"@[0] != "zh"@[0]);
    reveal_strlit("nav_dashboard");
    assert("nav_dashboard"@.len() != "col_status"@.len());
    assert(catalog()[0].0 == "nav_dashboard"@);
    reveal_strlit("nav_projects");
    assert("nav_projects"@.len() != "col_status"@.len());
    assert(catalog()[1].0 == "nav_projects"@);
    reveal_strlit("nav_users");
    assert("nav_users"@.len() != "col_status"@.len());
    assert(catalog()[2].0 == "nav_users"@);
    reveal_strlit("nav_logout");
    assert("nav_logout"@[0] != "col_status"@[0]);
    assert(catalog()[3].0 == "nav_logout"@);
    reveal_strlit("login_title");
    assert("login_title"@.len() != "col_status"@.len());
    assert(catalog()[4].0 == "login_title"@);
    reveal_strlit("username");
    assert("username"@.len() != "col_status"@.len());
    assert(catalog()[5].0 == "username"@);
    reveal_strlit("password");
    assert("password"@.len() != "col_status"@.len());
    assert(catalog()[6].0 == "password"@);
    reveal_strlit("login_btn");
    assert("login_btn"@.len() != "col_status"@.len());
    assert(catalog()[7].0 == "login_btn"@);
    reveal_strlit("dash_recent_builds");
    assert("dash_recent_builds"@.len() != "col_status"@.len());
    assert(catalog()[8].0 == "dash_recent_builds"@);
    reveal_strlit("dash_no_builds");
    assert("dash_no_builds"@.len() != "col_status"@.len());
    assert(catalog()[9].0 == "dash_no_builds"@);
    reveal_strlit("col_id");
    assert("col_id"@.len() != "col_status"@.len());
    assert(catalog()[10].0 == "col_id"@);
    reveal_strlit("col_project");
    assert("col_project"@.len() != "col_status"@.len());
    assert(catalog()[11].0 == "col_project"@);
    assert(catalog()[12] == ("col_status"@, "Status"@, "状态"@));
    lemma_lookup_at(catalog(), "col_status"@, 12);
}

proof fn lemma_texts_of_col_started_at()
    ensures
        catalog_text("col_started_at"@, "en"@) == Some("Started At"@),
        catalog_text("col_started_at"@, "zh"@) == Some("开始时间"@),
{
    reveal_strlit("col_started_at");
    reveal_strlit("en");
    reveal_strlit("zh");
    assert("en"@[0] != "zh"@[0]);
    reveal_strlit("nav_dashboard");
    assert("nav_dashboard"@.len() != "col_started_at"@.len());
    assert(catalog()[0].0 == "nav_dashboard"@);
    reveal_strlit("nav_projects");
    assert("nav_projects"@.len() != "col_started_at"@.len());
    assert(catalog()[1].0 == "nav_projects"@);
    reveal_strlit("nav_users");
    assert("nav_users"@.len() != "col_started_at"@.len());
    assert(catalog()[2].0 == "nav_users"@);
    reveal_strlit("nav_logout");
    assert("nav_logout"@.len() != "col_started_at"@.len());
    assert(catalog()[3].0 == "nav_logout"@);
    reveal_strlit("login_title");
    assert("login_title"@.len() != "col_started_at"@.len());
    assert(catalog()[4].0 == "login_title"@);
    reveal_strlit("username");
    assert("username"@.len() != "col_started_at"@.len());
    assert(catalog()[5].0 == "username"@);
    reveal_strlit("password");
    assert("password"@.len() != "col_started_at"@.len());
    assert(catalog()[6].0 == "password"@);
    reveal_strlit("login_btn");
    assert("login_btn"@.len() != "col_started_at"@.len());
    assert(catalog()[7].0 == "login_btn"@);
    reveal_strlit("dash_recent_builds");
    assert("dash_recent_builds"@.len() != "col_started_at"@.len());
    assert(catalog()[8].0 == "dash_recent_builds"@);
    reveal_strlit("dash_no_builds");
    assert("dash_no_builds"@[0] != "col_started_at"@[0]);
    assert(catalog()[9].0 == "dash_no_builds"@);
    reveal_strlit("col_id");
    assert("col_id"@.len() != "col_started_at"@.len());
    assert(catalog()[10].0 == "col_id"@);
    reveal_strlit("col_project");
    assert("col_project"@.len() != "col_started_at"@.len());
    assert(catalog()[11].0 == "col_project"@);
    reveal_strlit("col_status");
    assert("col_status"@.len() != "col_started_at"@.len());
    assert(catalog()[12].0 == "col_status"@);
    assert(catalog()[13] == ("col_started_at"@, "Started At"@, "开始时间"@));
    lemma_lookup_at(catalog(), "col_started_at"@, 13);
}

proof fn lemma_texts_of_col_finished_at()
    ensures
        catalog_text("col_finished_at"@, "en"@) == Some("Finished At"@),
        catalog_text("col_finished_at"@, "zh"@) == Some("结束时间"@),
{
    reveal_strlit("col_finished_at");
    reveal_strlit("en");
    reveal_strlit("zh");
    assert("en"@[0] != "zh"@[0]);
    reveal_strlit("nav_dashboard");
    assert("nav_dashboard"@.len() != "col_finished_at"@.len());
    assert(catalog()[0].0 == "nav_dashboard"@);
    reveal_strlit("nav_projects");
    assert("nav_projects"@.len() != "col_finished_at"@.len());
    assert(catalog()[1].0 == "nav_projects"@);
    reveal_strlit("nav_users");
    assert("nav_users"@.len() != "col_finished_at"@.len());
    assert(catalog()[2].0 == "nav_users"@);
    reveal_strlit("nav_logout");
    assert("nav_logout"@.len() != "col_finished_at"@.len());
    assert(catalog()[3].0 == "nav_logout"@);
    reveal_strlit("login_title");
    assert("login_title"@.len() != "col_finished_at"@.len());
    assert(catalog()[4].0 == "login_title"@);
    reveal_strlit("username");
    assert("username"@.len() != "col_finished_at"@.len());
    assert(catalog()[5].0 == "username"@);
    reveal_strlit("password");
    assert("password"@.len() != "col_finished_at"@.len());
    assert(catalog()[6].0 == "password"@);
    reveal_strlit("login_btn");
    assert("login_btn"@.len() != "col_finished_at"@.len());
    assert(catalog()[7].0 == "login_btn"@);
    reveal_strlit("dash_recent_builds");
    assert("dash_recent_builds"@.len() != "col_finished_at"@.len());
    assert(catalog()[8].0 == "dash_recent_builds"@);
    reveal_strlit("dash_no_builds");
    assert("dash_no_builds"@.len() != "col_finished_at"@.len());
    assert(catalog()[9].0 == "dash_no_builds"@);
    reveal_strlit("col_id");
    assert("col_id"@.len() != "col_finished_at"@.len());
    assert(catalog()[10].0 == "col_id"@);
    reveal_strlit("col_project");
    assert("col_project"@.len() != "col_finished_at"@.len());
    assert(catalog()[11].0 == "col_project"@);
    reveal_strlit("col_status");
    assert("col_status"@.len() != "col_finished_at"@.len());
    assert(catalog()[12].0 == "col_status"@);
    reveal_strlit("col_started_at");
    assert("col_started_at"@.len() != "col_finished_at"@.len());
    assert(catalog()[13].0 == "col_started_at"@);
    assert(catalog()[14] == ("col_finished_at"@, "Finished At"@, "结束时间"@));
    lemma_lookup_at(catalog(), "col_finished_at"@, 14);
}

proof fn lemma_texts_of_col_action()
    ensures
        catalog_text("col_action"@, "en"@) == Some("Action"@),
        catalog_text("col_action"@, "zh"@) == Some("操作"@),
{
    reveal_strlit("col_action");
    reveal_strlit("en");
    reveal_strlit("zh");
    assert("en"@[0] != "zh"@[0]);
    reveal_strlit("nav_dashboard");
    assert("nav_dashboard"@.len() != "col_action"@.len());
    assert(catalog()[0].0 == "nav_dashboard"@);
    reveal_strlit("nav_projects");
    assert("nav_projects"@.len() != "col_action"@.len());
    assert(catalog()[1].0 == "nav_projects"@);
    reveal_strlit("nav_users");
    assert("nav_users"@.len() != "col_action"@.len());
    assert(catalog()[2].0 == "nav_users"@);
    reveal_strlit("nav_logout");
    assert("nav_logout"@[0] != "col_action"@[0]);
    assert(catalog()[3].0 == "nav_logout"@);
    reveal_strlit("login_title");
    assert("login_title"@.len() != "col_action"@.len());
    assert(catalog()[4].0 == "login_title"@);
    reveal_strlit("username");
    assert("username"@.len() != "col_action"@.len());
    assert(catalog()[5].0 == "username"@);
    reveal_strlit("password");
    assert("password"@.len() != "col_action"@.len());
    assert(catalog()[6].0 == "password"@);
    reveal_strlit("login_btn");
    assert("login_btn"@.len() != "col_action"@.len());
    assert(catalog()[7].0 == "login_btn"@);
    reveal_strlit("dash_recent_builds");
    assert("dash_recent_builds"@.len() != "col_action"@.len());
    assert(catalog()[8].0 == "dash_recent_builds"@);
    reveal_strlit("dash_no_builds");
    assert("dash_no_builds"@.len() != "col_action"@.len());
    assert(catalog()[9].0 == "dash_no_builds"@);
    reveal_strlit("col_id");
    assert("col_id"@.len() != "col_action"@.len());
    assert(catalog()[10].0 == "col_id"@);
    reveal_strlit("col_project");
    assert("col_project"@.len() != "col_action"@.len());
    assert(catalog()[11].0 == "col_project"@);
    reveal_strlit("col_status");
    assert("col_status"@[4] != "col_action"@[4]);
    assert(catalog()[12].0 == "col_status"@);
    reveal_strlit("col_started_at");
    assert("col_started_at"@.len() != "col_action"@.len());
    assert(catalog()[13].0 == "col_started_at"@);
    reveal_strlit("col_finished_at");
    assert("col_finished_at"@.len() != "col_action"@.len());
    assert(catalog()[14].0 == "col_finished_at"@);
    assert(catalog()[15] == ("col_action"@, "Action"@, "操作"@));
    lemma_lookup_at(catalog(), "col_action"@, 15);
}

proof fn lemma_texts_of_btn_view()
    ensures
        catalog_text("btn_view"@, "en"@) == Some("View"@),
        catalog_text("btn_view"@, "zh"@) == Some("查看"@),
{
    reveal_strlit("btn_view");
    reveal_strlit("en");
    reveal_strlit("zh");
    assert("en"@[0] != "zh"@[0]);
    reveal_strlit("nav_dashboard");
    assert("nav_dashboard"@.len() != "btn_view"@.len());
    assert(catalog()[0].0 == "nav_dashboard"@);
    reveal_strlit("nav_projects");
    assert("nav_projects"@.len() != "btn_view"@.len());
    assert(catalog()[1].0 == "nav_projects"@);
    reveal_strlit("nav_users");
    assert("nav_users"@.len() != "btn_view"@.len());
    assert(catalog()[2].0 == "nav_users"@);
    reveal_strlit("nav_logout");
    assert("nav_logout"@.len() != "btn_view"@.len());
    assert(catalog()[3].0 == "nav_logout"@);
    reveal_strlit("login_title");
    assert("login_title"@.len() != "btn_view"@.len());
    assert(catalog()[4].0 == "login_title"@);
    reveal_strlit("username");
    assert("username"@[0] != "btn_view"@[0]);
    assert(catalog()[5].0 == "username"@);
    reveal_strlit("password");
    assert("password"@[0] != "btn_view"@[0]);
    assert(catalog()[6].0 == "password"@);
    reveal_strlit("login_btn");
    assert("login_btn"@.len() != "btn_view"@.len());
    assert(catalog()[7].0 == "login_btn"@);
    reveal_strlit("dash_recent_builds");
    assert("dash_recent_builds"@.len() != "btn_view"@.len());
    assert(catalog()[8].0 == "dash_recent_builds"@);
    reveal_strlit("dash_no_builds");
    assert("dash_no_builds"@.len() != "btn_view"@.len());
    assert(catalog()[9].0 == "dash_no_builds"@);
    reveal_strlit("col_id");
    assert("col_id"@.len() != "btn_view"@.len());
    assert(catalog()[10].0 == "col_id"@);
    reveal_strlit("col_project");
    assert("col_project"@.len() != "btn_view"@.len());
    assert(catalog()[11].0 == "col_project"@);
    reveal_strlit("col_status");
    assert("col_status"@.len() != "btn_view"@.len());
    assert(catalog()[12].0 == "col_status"@);
    reveal_strlit("col_started_at");
    assert("col_started_at"@.len() != "btn_view"@.len());
    assert(catalog()[13].0 == "col_started_at"@);
    reveal_strlit("col_finished_at");
    assert("col_finished_at"@.len() != "btn_view"@.len());
    assert(catalog()[14].0 == "col_finished_at"@);
    reveal_strlit("col_action");
    assert("col_action"@.len() != "btn_view"@.len());
    assert(catalog()[15].0 == "col_action"@);
    assert(catalog()[16] == ("btn_view"@, "View"@, "查看"@));
    lemma_lookup_at(catalog(), "btn_view"@, 16);
}

proof fn lemma_texts_of_proj_add_title()
    ensures
        catalog_text("proj_add_title"@, "en"@) == Some("Add New Project"@),
        catalog_text("proj_add_title"@, "zh"@) == Some("添加新项目"@),
{
    reveal_strlit("proj_add_title");
    reveal_strlit("en");
    reveal_strlit("zh");
    assert("en"@[0] != "zh"@[0]);
    reveal_strlit("nav_dashboard");
    assert("nav_dashboard"@.len() != "proj_add_title"@.len());
    assert(catalog()[0].0 == "nav_dashboard"@);
    reveal_strlit("nav_projects");
    assert("nav_projects"@.len() != "proj_add_title"@.len());
    assert(catalog()[1].0 == "nav_projects"@);
    reveal_strlit("nav_users");
    assert("nav_users"@.len() != "proj_add_title"@.len());
    assert(catalog()[2].0 == "nav_users"@);
    reveal_strlit("nav_logout");
    assert("nav_logout"@.len() != "proj_add_title"@.len());
    assert(catalog()[3].0 == "nav_logout"@);
    reveal_strlit("login_title");
    assert("login_title"@.len() != "proj_add_title"@.len());
    assert(catalog()[4].0 == "login_title"@);
    reveal_strlit("username");
    assert("username"@.len() != "proj_add_title"@.len());
    assert(catalog()[5].0 == "username"@);
    reveal_strlit("password");
    assert("password"@.len() != "proj_add_title"@.len());
    assert(catalog()[6].0 == "password"@);
    reveal_strlit("login_btn");
    assert("login_btn"@.len() != "proj_add_title"@.len());
    assert(catalog()[7].0 == "login_btn"@);
    reveal_strlit("dash_recent_builds");
    assert("dash_recent_builds"@.len() != "proj_add_title"@.len());
    assert(catalog()[8].0 == "dash_recent_builds"@);
    reveal_strlit("dash_no_builds");
    assert("dash_no_builds"@[0] != "proj_add_title"@[0]);
    assert(catalog()[9].0 == "dash_no_builds"@);
    reveal_strlit("col_id");
    assert("col_id"@.len() != "proj_add_title"@.len());
    assert(catalog()[10].0 == "col_id"@);
    reveal_strlit("col_project");
    assert("col_project"@.len() != "proj_add_title"@.len());
    assert(catalog()[11].0 == "col_project"@);
    reveal_strlit("col_status");
    assert("col_status"@.len() != "proj_add_title"@.len());
    assert(catalog()[12].0 == "col_status"@);
    reveal_strlit("col_started_at");
    assert("col_started_at"@[0] != "proj_add_title"@[0]);
    assert(catalog()[13].0 == "col_started_at"@);
    reveal_strlit("col_finished_at");
    assert("col_finished_at"@.len() != "proj_add_title"@.len());
    assert(catalog()[14].0 == "col_finished_at"@);
    reveal_strlit("col_action");
    assert("col_action"@.len() != "proj_add_title"@.len());
    assert(catalog()[15].0 == "col_action"@);
    reveal_strlit("btn_view");
    assert("btn_view"@.len() != "proj_add_title"@.len());
    assert(catalog()[16].0 == "btn_view"@);
    assert(catalog()[17] == ("proj_add_title"@, "Add New Project"@, "添加新项目"@));
    lemma_lookup_at(catalog(), "proj_add_title"@, 17);
}

proof fn lemma_texts_of_proj_name()
    ensures
        catalog_text("proj_name"@, "en"@) == Some("Project Name"@),
        catalog_text("proj_name"@, "zh"@) == Some("项目名称"@),
{
    reveal_strlit("proj_name");
    reveal_strlit("en");
    reveal_strlit("zh");
    assert("en"@[0] != "zh"@[0]);
    reveal_strlit("nav_dashboard");
    assert("nav_dashboard"@.len() != "proj_name"@.len());
    assert(catalog()[0].0 == "nav_dashboard"@);
    reveal_strlit("nav_projects");
    assert("nav_projects"@.len() != "proj_name"@.len());
    assert(catalog()[1].0 == "nav_projects"@);
    reveal_strlit("nav_users");
    assert("nav_users"@[0] != "proj_name"@[0]);
    assert(catalog()[2].0 == "nav_users"@);
    reveal_strlit("nav_logout");
    assert("nav_logout"@.len() != "proj_name"@.len());
    assert(catalog()[3].0 == "nav_logout"@);
    reveal_strlit("login_title");
    assert("login_title"@.len() != "proj_name"@.len());
    assert(catalog()[4].0 == "login_title"@);
    reveal_strlit("username");
    assert("username"@.len() != "proj_name"@.len());
    assert(catalog()[5].0 == "username"@);
    reveal_strlit("password");
    assert("password"@.len() != "proj_name"@.len());
    assert(catalog()[6].0 == "password"@);
    reveal_strlit("login_btn");
    assert("login_btn"@[0] != "proj_name"@[0]);
    assert(catalog()[7].0 == "login_btn"@);
    reveal_strlit("dash_recent_builds");
    assert("dash_recent_builds"@.len() != "proj_name"@.len());
    assert(catalog()[8].0 == "dash_recent_builds"@);
    reveal_strlit("dash_no_builds");
    assert("dash_no_builds"@.len() != "proj_name"@.len());
    assert(catalog()[9].0 == "dash_no_builds"@);
    reveal_strlit("col_id");
    assert("col_id"@.len() != "proj_name"@.len());
    assert(catalog()[10].0 == "col_id"@);
    reveal_strlit("col_project");
    assert("col_project"@.len() != "proj_name"@.len());
    assert(catalog()[11].0 == "col_project"@);
    reveal_strlit("col_status");
    assert("col_status"@.len() != "proj_name"@.len());
    assert(catalog()[12].0 == "col_status"@);
    reveal_strlit("col_started_at");
    assert("col_started_at"@.len() != "proj_name"@.len());
    assert(catalog()[13].0 == "col_started_at"@);
    reveal_strlit("col_finished_at");
    assert("col_finished_at"@.len() != "proj_name"@.len());
    assert(catalog()[14].0 == "col_finished_at"@);
    reveal_strlit("col_action");
    assert("col_action"@.len() != "proj_name"@.len());
    assert(catalog()[15].0 == "col_action"@);
    reveal_strlit("btn_view");
    assert("btn_view"@.len() != "proj_name"@.len());
    assert(catalog()[16].0 == "btn_view"@);
    reveal_strlit("proj_add_title");
    assert("proj_add_title"@.len() != "proj_name"@.len());
    assert(catalog()[17].0 == "proj_add_title"@);
    assert(catalog()[18] == ("proj_name"@, "Project Name"@, "项目名称"@));
    lemma_lookup_at(catalog(), "proj_name"@, 18);
}

proof fn lemma_texts_of_proj_script()
    ensures
        catalog_text("proj_script"@, "en"@) == Some("Shell Script Path"@),
        catalog_text("proj_script"@, "zh"@) == Some("Shell脚本路径"@),
{
    reveal_strlit("proj_script");
    reveal_strlit("en");
    reveal_strlit("zh");
    assert("en"@[0] != "zh"@[0]);
    reveal_strlit("nav_dashboard");
    assert("nav_dashboard"@.len() != "proj_script"@.len());
    assert(catalog()[0].0 == "nav_dashboard"@);
    reveal_strlit("nav_projects");
    assert("nav_projects"@.len() != "proj_script"@.len());
    assert(catalog()[1].0 == "nav_projects"@);
    reveal_strlit("nav_users");
    assert("nav_users"@.len() != "proj_script"@.len());
    assert(catalog()[2].0 == "nav_users"@);
    reveal_strlit("nav_logout");
    assert("nav_logout"@.len() != "proj_script"@.len());
    assert(catalog()[3].0 == "nav_logout"@);
    reveal_strlit("login_title");
    assert("login_title"@[0] != "proj_script"@[0]);
    assert(catalog()[4].0 == "login_title"@);
    reveal_strlit("username");
    assert("username"@.len() != "proj_script"@.len());
    assert(catalog()[5].0 == "username"@);
    reveal_strlit("password");
    assert("password"@.len() != "proj_script"@.len());
    assert(catalog()[6].0 == "password"@);
    reveal_strlit("login_btn");
    assert("login_btn"@.len() != "proj_script"@.len());
    assert(catalog()[7].0 == "login_btn"@);
    reveal_strlit("dash_recent_builds");
    assert("dash_recent_builds"@.len() != "proj_script"@.len());
    assert(catalog()[8].0 == "dash_recent_builds"@);
    reveal_strlit("dash_no_builds");
    assert("dash_no_builds"@.len() != "proj_script"@.len());
    assert(catalog()[9].0 == "dash_no_builds"@);
    reveal_strlit("col_id");
    assert("col_id"@.len() != "proj_script"@.len());
    assert(catalog()[10].0 == "col_id"@);
    reveal_strlit("col_project");
    assert("col_project"@[0] != "proj_script"@[0]);
    assert(catalog()[11].0 == "col_project"@);
    reveal_strlit("col_status");
    assert("col_status"@.len() != "proj_script"@.len());
    assert(catalog()[12].0 == "col_status"@);
    reveal_strlit("col_started_at");
    assert("col_started_at"@.len() != "proj_script"@.len());
    assert(catalog()[13].0 == "col_started_at"@);
    reveal_strlit("col_finished_at");
    assert("col_finished_at"@.len() != "proj_script"@.len());
    assert(catalog()[14].0 == "col_finished_at"@);
    reveal_strlit("col_action");
    assert("col_action"@.len() != "proj_script"@.len());
    assert(catalog()[15].0 == "col_action"@);
    reveal_strlit("btn_view");
    assert("btn_view"@.len() != "proj_script"@.len());
    assert(catalog()[16].0 == "btn_view"@);
    reveal_strlit("proj_add_title");
    assert("proj_add_title"@.len() != "proj_script"@.len());
    assert(catalog()[17].0 == "proj_add_title"@);
    reveal_strlit("proj_name");
    assert("proj_name"@.len() != "proj_script"@.len());
    assert(catalog()[18].0 == "proj_name"@);
    assert(catalog()[19] == ("proj_script"@, "Shell Script Path"@, "Shell脚本路径"@));
    lemma_lookup_at(catalog(), "proj_script"@, 19);
}

proof fn lemma_texts_of_proj_log_dir()
    ensures
        catalog_text("proj_log_dir"@, "en"@) == Some("Runtime Log Directory"@),
        catalog_text("proj_log_dir"@, "zh"@) == Some("运行日志目录"@),
{
    reveal_strlit("proj_log_dir");
    reveal_strlit("en");
    reveal_strlit("zh");
    assert("en"@[0] != "zh"@[0]);
    reveal_strlit("nav_dashboard");
    assert("nav_dashboard"@.len() != "proj_log_dir"@.len());
    assert(catalog()[0].0 == "nav_dashboard"@);
    reveal_strlit("nav_projects");
    assert("nav_projects"@[0] != "proj_log_dir"@[0]);
    assert(catalog()[1].0 == "nav_projects"@);
    reveal_strlit("nav_users");
    assert("nav_users"@.len() != "proj_log_dir"@.len());
    assert(catalog()[2].0 == "nav_users"@);
    reveal_strlit("nav_logout");
    assert("nav_logout"@.len() != "proj_log_dir"@.len());
    assert(catalog()[3].0 == "nav_logout"@);
    reveal_strlit("login_title");
    assert("login_title"@.len() != "proj_log_dir"@.len());
    assert(catalog()[4].0 == "login_title"@);
    reveal_strlit("username");
    assert("username"@.len() != "proj_log_dir"@.len());
    assert(catalog()[5].0 == "username"@);
    reveal_strlit("password");
    assert("password"@.len() != "proj_log_dir"@.len());
    assert(catalog()[6].0 == "password"@);
    reveal_strlit("login_btn");
    assert("login_btn"@.len() != "proj_log_dir"@.len());
    assert(catalog()[7].0 == "login_btn"@);
    reveal_strlit("dash_recent_builds");
    assert("dash_recent_builds"@.len() != "proj_log_dir"@.len());
    assert(catalog()[8].0 == "dash_recent_builds"@);
    reveal_strlit("dash_no_builds");
    assert("dash_no_builds"@.len() != "proj_log_dir"@.len());
    assert(catalog()[9].0 == "dash_no_builds"@);
    reveal_strlit("col_id");
    assert("col_id"@.len() != "proj_log_dir"@.len());
    assert(catalog()[10].0 == "col_id"@);
    reveal_strlit("col_project");
    assert("col_project"@.len() != "proj_log_dir"@.len());
    assert(catalog()[11].0 == "col_project"@);
    reveal_strlit("col_status");
    assert("col_status"@.len() != "proj_log_dir"@.len());
    assert(catalog()[12].0 == "col_status"@);
    reveal_strlit("col_started_at");
    assert("col_started_at"@.len() != "proj_log_dir"@.len());
    assert(catalog()[13].0 == "col_started_at"@);
    reveal_strlit("col_finished_at");
    assert("col_finished_at"@.len() != "proj_log_dir"@.len());
    assert(catalog()[14].0 == "col_finished_at"@);
    reveal_strlit("col_action");
    assert("col_action"@.len() != "proj_log_dir"@.len());
    assert(catalog()[15].0 == "col_action"@);
    reveal_strlit("btn_view");
    assert("btn_view"@.len() != "proj_log_dir"@.len());
    assert(catalog()[16].0 == "btn_view"@);
    reveal_strlit("proj_add_title");
    assert("proj_add_title"@.len() != "proj_log_dir"@.len());
    assert(catalog()[17].0 == "proj_add_title"@);
    reveal_strlit("proj_name");
    assert("proj_name"@.len() != "proj_log_dir"@.len());
    assert(catalog()[18].0 == "proj_name"@);
    reveal_strlit("proj_script");
    assert("proj_script"@.len() != "proj_log_dir"@.len());
    assert(catalog()[19].0 == "proj_script"@);
    assert(catalog()[20] == ("proj_log_dir"@, "Runtime Log Directory"@, "运行日志目录"@));
    lemma_lookup_at(catalog(), "proj_log_dir"@, 20);
}

proof fn lemma_texts_of_btn_add_proj()
    ensures
        catalog_text("btn_add_proj"@, "en"@) == Some("Add Project"@),
        catalog_text("btn_add_proj"@, "zh"@) == Some("添加项目"@),
{
    reveal_strlit("btn_add_proj");
    reveal_strlit("en");
    reveal_strlit("zh");
    assert("en"@[0] != "zh"@[0]);
    reveal_strlit("nav_dashboard");
    assert("nav_dashboard"@.len() != "btn_add_proj"@.len());
    assert(catalog()[0].0 == "nav_dashboard"@);
    reveal_strlit("nav_projects");
    assert("nav_projects"@[0] != "btn_add_proj"@[0]);
    assert(catalog()[1].0 == "nav_projects"@);
    reveal_strlit("nav_users");
    assert("nav_users"@.len() != "btn_add_proj"@.len());
    assert(catalog()[2].0 == "nav_users"@);
    reveal_strlit("nav_logout");
    assert("nav_logout"@.len() != "btn_add_proj"@.len());
    assert(catalog()[3].0 == "nav_logout"@);
    reveal_strlit("login_title");
    assert("login_title"@.len() != "btn_add_proj"@.len());
    assert(catalog()[4].0 == "login_title"@);
    reveal_strlit("username");
    assert("username"@.len() != "btn_add_proj"@.len());
    assert(catalog()[5].0 == "username"@);
    reveal_strlit("password");
    assert("password"@.len() != "btn_add_proj"@.len());
    assert(catalog()[6].0 == "password"@);
    reveal_strlit("login_btn");
    assert("login_btn"@.len() != "btn_add_proj"@.len());
    assert(catalog()[7].0 == "login_btn"@);
    reveal_strlit("dash_recent_builds");
    assert("dash_recent_builds"@.len() != "btn_add_proj"@.len());
    assert(catalog()[8].0 == "dash_recent_builds"@);
    reveal_strlit("dash_no_builds");
    assert("dash_no_builds"@.len() != "btn_add_proj"@.len());
    assert(catalog()[9].0 == "dash_no_builds"@);
    reveal_strlit("col_id");
    assert("col_id"@.len() != "btn_add_proj"@.len());
    assert(catalog()[10].0 == "col_id"@);
    reveal_strlit("col_project");
    assert("col_project"@.len() != "btn_add_proj"@.len());
    assert(catalog()[11].0 == "col_project"@);
    reveal_strlit("col_status");
    assert("col_status"@.len() != "btn_add_proj"@.len());
    assert(catalog()[12].0 == "col_status"@);
    reveal_strlit("col_started_at");
    assert("col_started_at"@.len() != "btn_add_proj"@.len());
    assert(catalog()[13].0 == "col_started_at"@);
    reveal_strlit("col_finished_at");
    assert("col_finished_at"@.len() != "btn_add_proj"@.len());
    assert(catalog()[14].0 == "col_finished_at"@);
    reveal_strlit("col_action");
    assert("col_action"@.len() != "btn_add_proj"@.len());
    assert(catalog()[15].0 == "col_action"@);
    reveal_strlit("btn_view");
    assert("btn_view"@.len() != "btn_add_proj"@.len());
    assert(catalog()[16].0 == "btn_view"@);
    reveal_strlit("proj_add_title");
    assert("proj_add_title"@.len() != "btn_add_proj"@.len());
    assert(catalog()[17].0 == "proj_add_title"@);
    reveal_strlit("proj_name");
    assert("proj_name"@.len() != "btn_add_proj"@.len());
    assert(catalog()[18].0 == "proj_name"@);
    reveal_strlit("proj_script");
    assert("proj_script"@.len() != "btn_add_proj"@.len());
    assert(catalog()[19].0 == "proj_script"@);
    reveal_strlit("proj_log_dir");
    assert("proj_log_dir"@[0] != "btn_add_proj"@[0]);
    assert(catalog()[20].0 == "proj_log_dir"@);
    assert(catalog()[21] == ("btn_add_proj"@, "Add Project"@, "添加项目"@));
    lemma_lookup_at(catalog(), "btn_add_proj"@, 21);
}

proof fn lemma_texts_of_proj_list_title()
    ensures
        catalog_text("proj_list_title"@, "en"@) == Some("Projects"@),
        catalog_text("proj_list_title"@, "zh"@) == Some("项目列表"@),
{
    reveal_strlit("proj_list_title");
    reveal_strlit("en");
    reveal_strlit("zh");
    assert("en"@[0] != "zh"@[0]);
    reveal_strlit("nav_dashboard");
    assert("nav_dashboard"@.len() != "proj_list_title"@.len());
    assert(catalog()[0].0 == "nav_dashboard"@);
    reveal_strlit("nav_projects");
    assert("nav_projects"@.len() != "proj_list_title"@.len());
    assert(catalog()[1].0 == "nav_projects"@);
    reveal_strlit("nav_users");
    assert("nav_users"@.len() != "proj_list_title"@.len());
    assert(catalog()[2].0 == "nav_users"@);
    reveal_strlit("nav_logout");
    assert("nav_logout"@.len() != "proj_list_title"@.len());
    assert(catalog()[3].0 == "nav_logout"@);
    reveal_strlit("login_title");
    assert("login_title"@.len() != "proj_list_title"@.len());
    assert(catalog()[4].0 == "login_title"@);
    reveal_strlit("username");
    assert("username"@.len() != "proj_list_title"@.len());
    assert(catalog()[5].0 == "username"@);
    reveal_strlit("password");
    assert("password"@.len() != "proj_list_title"@.len());
    assert(catalog()[6].0 == "password"@);
    reveal_strlit("login_btn");
    assert("login_btn"@.len() != "proj_list_title"@.len());
    assert(catalog()[7].0 == "login_btn"@);
    reveal_strlit("dash_recent_builds");
    assert("dash_recent_builds"@.len() != "proj_list_title"@.len());
    assert(catalog()[8].0 == "dash_recent_builds"@);
    reveal_strlit("dash_no_builds");
    assert("dash_no_builds"@.len() != "proj_list_title"@.len());
    assert(catalog()[9].0 == "dash_no_builds"@);
    reveal_strlit("col_id");
    assert("col_id"@.len() != "proj_list_title"@.len());
    assert(catalog()[10].0 == "col_id"@);
    reveal_strlit("col_project");
    assert("col_project"@.len() != "proj_list_title"@.len());
    assert(catalog()[11].0 == "col_project"@);
    reveal_strlit("col_status");
    assert("col_status"@.len() != "proj_list_title"@.len());
    assert(catalog()[12].0 == "col_status"@);
    reveal_strlit("col_started_at");
    assert("col_started_at"@.len() != "proj_list_title"@.len());
    assert(catalog()[13].0 == "col_started_at"@);
    reveal_strlit("col_finished_at");
    assert("col_finished_at"@[0] != "proj_list_title"@[0]);
    assert(catalog()[14].0 == "col_finished_at"@);
    reveal_strlit("col_action");
    assert("col_action"@.len() != "proj_list_title"@.len());
    assert(catalog()[15].0 == "col_action"@);
    reveal_strlit("btn_view");
    assert("btn_view"@.len() != "proj_list_title"@.len());
    assert(catalog()[16].0 == "btn_view"@);
    reveal_strlit("proj_add_title");
    assert("proj_add_title"@.len() != "proj_list_title"@.len());
    assert(catalog()[17].0 == "proj_add_title"@);
    reveal_strlit("proj_name");
    assert("proj_name"@.len() != "proj_list_title"@.len());
    assert(catalog()[18].0 == "proj_name"@);
    reveal_strlit("proj_script");
    assert("proj_script"@.len() != "proj_list_title"@.len());
    assert(catalog()[19].0 == "proj_script"@);
    reveal_strlit("proj_log_dir");
    assert("proj_log_dir"@.len() != "proj_list_title"@.len());
    assert(catalog()[20].0 == "proj_log_dir"@);
    reveal_strlit("btn_add_proj");
    assert("btn_add_proj"@.len() != "proj_list_title"@.len());
    assert(catalog()[21].0 == "btn_add_proj"@);
    assert(catalog()[22] == ("proj_list_title"@, "Projects"@, "项目列表"@));
    lemma_lookup_at(catalog(), "proj_list_title"@, 22);
}

proof fn lemma_texts_of_col_webhook_key()
    ensures
        catalog_text("col_webhook_key"@, "en"@) == Some("Webhook Key"@),
        catalog_text("col_webhook_key"@, "zh"@) == Some("Webhook Key"@),
{
    reveal_strlit("col_webhook_key");
    reveal_strlit("en");
    reveal_strlit("zh");
    assert("en"@[0] != "zh"@[0]);
    reveal_strlit("nav_dashboard");
    assert("nav_dashboard"@.len() != "col_webhook_key"@.len());
    assert(catalog()[0].0 == "nav_dashboard"@);
    reveal_strlit("nav_projects");
    assert("nav_projects"@.len() != "col_webhook_key"@.len());
    assert(catalog()[1].0 == "nav_projects"@);
    reveal_strlit("nav_users");
    assert("nav_users"@.len() != "col_webhook_key"@.len());
    assert(catalog()[2].0 == "nav_users"@);
    reveal_strlit("nav_logout");
    assert("nav_logout"@.len() != "col_webhook_key"@.len());
    assert(catalog()[3].0 == "nav_logout"@);
    reveal_strlit("login_title");
    assert("login_title"@.len() != "col_webhook_key"@.len());
    assert(catalog()[4].0 == "login_title"@);
    reveal_strlit("username");
    assert("username"@.len() != "col_webhook_key"@.len());
    assert(catalog()[5].0 == "username"@);
    reveal_strlit("password");
    assert("password"@.len() != "col_webhook_key"@.len());
    assert(catalog()[6].0 == "password"@);
    reveal_strlit("login_btn");
    assert("login_btn"@.len() != "col_webhook_key"@.len());
    assert(catalog()[7].0 == "login_btn"@);
    reveal_strlit("dash_recent_builds");
    assert("dash_recent_builds"@.len() != "col_webhook_key"@.len());
    assert(catalog()[8].0 == "dash_recent_builds"@);
    reveal_strlit("dash_no_builds");
    assert("dash_no_builds"@.len() != "col_webhook_key"@.len());
    assert(catalog()[9].0 == "dash_no_builds"@);
    reveal_strlit("col_id");
    assert("col_id"@.len() != "col_webhook_key"@.len());
    assert(catalog()[10].0 == "col_id"@);
    reveal_strlit("col_project");
    assert("col_project"@.len() != "col_webhook_key"@.len());
    assert(catalog()[11].0 == "col_project"@);
    reveal_strlit("col_status");
    assert("col_status"@.len() != "col_webhook_key"@.len());
    assert(catalog()[12].0 == "col_status"@);
    reveal_strlit("col_started_at");
    assert("col_started_at"@.len() != "col_webhook_key"@.len());
    assert(catalog()[13].0 == "col_started_at"@);
    reveal_strlit("col_finished_at");
    assert("col_finished_at"@[4] != "col_webhook_key"@[4]);
    assert(catalog()[14].0 == "col_finished_at"@);
    reveal_strlit("col_action");
    assert("col_action"@.len() != "col_webhook_key"@.len());
    assert(catalog()[15].0 == "col_action"@);
    reveal_strlit("btn_view");
    assert("btn_view"@.len() != "col_webhook_key"@.len());
    assert(catalog()[16].0 == "btn_view"@);
    reveal_strlit("proj_add_title");
    assert("proj_add_title"@.len() != "col_webhook_key"@.len());
    assert(catalog()[17].0 == "proj_add_title"@);
    reveal_strlit("proj_name");
    assert("proj_name"@.len() != "col_webhook_key"@.len());
    assert(catalog()[18].0 == "proj_name"@);
    reveal_strlit("proj_script");
    assert("proj_script"@.len() != "col_webhook_key"@.len());
    assert(catalog()[19].0 == "proj_script"@);
    reveal_strlit("proj_log_dir");
    assert("proj_log_dir"@.len() != "col_webhook_key"@.len());
    assert(catalog()[20].0 == "proj_log_dir"@);
    reveal_strlit("btn_add_proj");
    assert("btn_add_proj"@.len() != "col_webhook_key"@.len());
    assert(catalog()[21].0 == "btn_add_proj"@);
    reveal_strlit("proj_list_title");
    assert("proj_list_title"@[0] != "col_webhook_key"@[0]);
    assert(catalog()[22].0 == "proj_list_title"@);
    assert(catalog()[23] == ("col_webhook_key"@, "Webhook Key"@, "Webhook Key"@));
    lemma_lookup_at(catalog(), "col_webhook_key"@, 23);
}

proof fn lemma_texts_of_col_webhook_url()
    ensures
        catalog_text("col_webhook_url"@, "en"@) == Some("Webhook URL"@),
        catalog_text("col_webhook_url"@, "zh"@) == Some("触发地址 (Webhook)"@),
{
    reveal_strlit("col_webhook_url");
    reveal_strlit("en");
    reveal_strlit("zh");
    assert("en"@[0] != "zh"@[0]);
    reveal_strlit("nav_dashboard");
    assert("nav_dashboard"@.len() != "col_webhook_url"@.len());
    assert(catalog()[0].0 == "nav_dashboard"@);
    reveal_strlit("nav_projects");
    assert("nav_projects"@.len() != "col_webhook_url"@.len());
    assert(catalog()[1].0 == "nav_projects"@);
    reveal_strlit("nav_users");
    assert("nav_users"@.len() != "col_webhook_url"@.len());
    assert(catalog()[2].0 == "nav_users"@);
    reveal_strlit("nav_logout");
    assert("nav_logout"@.len() != "col_webhook_url"@.len());
    assert(catalog()[3].0 == "nav_logout"@);
    reveal_strlit("login_title");
    assert("login_title"@.len() != "col_webhook_url"@.len());
    assert(catalog()[4].0 == "login_title"@);
    reveal_strlit("username");
    assert("username"@.len() != "col_webhook_url"@.len());
    assert(catalog()[5].0 == "username"@);
    reveal_strlit("password");
    assert("password"@.len() != "col_webhook_url"@.len());
    assert(catalog()[6].0 == "password"@);
    reveal_strlit("login_btn");
    assert("login_btn"@.len() != "col_webhook_url"@.len());
    assert(catalog()[7].0 == "login_btn"@);
    reveal_strlit("dash_recent_builds");
    assert("dash_recent_builds"@.len() != "col_webhook_url"@.len());
    assert(catalog()[8].0 == "dash_recent_builds"@);
    reveal_strlit("dash_no_builds");
    assert("dash_no_builds"@.len() != "col_webhook_url"@.len());
    assert(catalog()[9].0 == "dash_no_builds"@);
    reveal_strlit("col_id");
    assert("col_id"@.len() != "col_webhook_url"@.len());
    assert(catalog()[10].0 == "col_id"@);
    reveal_strlit("col_project");
    assert("col_project"@.len() != "col_webhook_url"@.len());
    assert(catalog()[11].0 == "col_project"@);
    reveal_strlit("col_status");
    assert("col_status"@.len() != "col_webhook_url"@.len());
    assert(catalog()[12].0 == "col_status"@);
    reveal_strlit("col_started_at");
    assert("col_started_at"@.len() != "col_webhook_url"@.len());
    assert(catalog()[13].0 == "col_started_at"@);
    reveal_strlit("col_finished_at");
    assert("col_finished_at"@[4] != "col_webhook_url"@[4]);
    assert(catalog()[14].0 == "col_finished_at"@);
    reveal_strlit("col_action");
    assert("col_action"@.len() != "col_webhook_url"@.len());
    assert(catalog()[15].0 == "col_action"@);
    reveal_strlit("btn_view");
    assert("btn_view"@.len() != "col_webhook_url"@.len());
    assert(catalog()[16].0 == "btn_view"@);
    reveal_strlit("proj_add_title");
    assert("proj_add_title"@.len() != "col_webhook_url"@.len());
    assert(catalog()[17].0 == "proj_add_title"@);
    reveal_strlit("proj_name");
    assert("proj_name"@.len() != "col_webhook_url"@.len());
    assert(catalog()[18].0 == "proj_name"@);
    reveal_strlit("proj_script");
    assert("proj_script"@.len() != "col_webhook_url"@.len());
    assert(catalog()[19].0 == "proj_script"@);
    reveal_strlit("proj_log_dir");
    assert("proj_log_dir"@.len() != "col_webhook_url"@.len());
    assert(catalog()[20].0 == "proj_log_dir"@);
    reveal_strlit("btn_add_proj");
    assert("btn_add_proj"@.len() != "col_webhook_url"@.len());
    assert(catalog()[21].0 == "btn_add_proj"@);
    reveal_strlit("proj_list_title");
    assert("proj_list_title"@[0] != "col_webhook_url"@[0]);
    assert(catalog()[22].0 == "proj_list_title"@);
    reveal_strlit("col_webhook_key");
    assert("col_webhook_key"@[12] != "col_webhook_url"@[12]);
    assert(catalog()[23].0 == "col_webhook_key"@);
    assert(catalog()[24] == ("col_webhook_url"@, "Webhook URL"@, "触发地址 (Webhook)"@));
    lemma_lookup_at(catalog(), "col_webhook_url"@, 24);
}

proof fn lemma_texts_of_btn_edit()
    ensures
        catalog_text("btn_edit"@, "en"@) == Some("Edit"@),
        catalog_text("btn_edit"@, "zh"@) == Some("编辑"@),
{
    reveal_strlit("btn_edit");
    reveal_strlit("en");
    reveal_strlit("zh");
    assert("en"@[0] != "zh"@[0]);
    reveal_strlit("nav_dashboard");
    assert("nav_dashboard"@.len() != "btn_edit"@.len());
    assert(catalog()[0].0 == "nav_dashboard"@);
    reveal_strlit("nav_projects");
    assert("nav_projects"@.len() != "btn_edit"@.len());
    assert(catalog()[1].0 == "nav_projects"@);
    reveal_strlit("nav_users");
    assert("nav_users"@.len() != "btn_edit"@.len());
    assert(catalog()[2].0 == "nav_users"@);
    reveal_strlit("nav_logout");
    assert("nav_logout"@.len() != "btn_edit"@.len());
    assert(catalog()[3].0 == "nav_logout"@);
    reveal_strlit("login_title");
    assert("login_title"@.len() != "btn_edit"@.len());
    assert(catalog()[4].0 == "login_title"@);
    reveal_strlit("username");
    assert("username"@[0] != "btn_edit"@[0]);
    assert(catalog()[5].0 == "username"@);
    reveal_strlit("password");
    assert("password"@[0] != "btn_edit"@[0]);
    assert(catalog()[6].0 == "password"@);
    reveal_strlit("login_btn");
    assert("login_btn"@.len() != "btn_edit"@.len());
    assert(catalog()[7].0 == "login_btn"@);
    reveal_strlit("dash_recent_builds");
    assert("dash_recent_builds"@.len() != "btn_edit"@.len());
    assert(catalog()[8].0 == "dash_recent_builds"@);
    reveal_strlit("dash_no_builds");
    assert("dash_no_builds"@.len() != "btn_edit"@.len());
    assert(catalog()[9].0 == "dash_no_builds"@);
    reveal_strlit("col_id");
    assert("col_id"@.len() != "btn_edit"@.len());
    assert(catalog()[10].0 == "col_id"@);
    reveal_strlit("col_project");
    assert("col_project"@.len() != "btn_edit"@.len());
    assert(catalog()[11].0 == "col_project"@);
    reveal_strlit("col_status");
    assert("col_status"@.len() != "btn_edit"@.len());
    assert(catalog()[12].0 == "col_status"@);
    reveal_strlit("col_started_at");
    assert("col_started_at"@.len() != "btn_edit"@.len());
    assert(catalog()[13].0 == "col_started_at"@);
    reveal_strlit("col_finished_at");
    assert("col_finished_at"@.len() != "btn_edit"@.len());
    assert(catalog()[14].0 == "col_finished_at"@);
    reveal_strlit("col_action");
    assert("col_action"@.len() != "btn_edit"@.len());
    assert(catalog()[15].0 == "col_action"@);
    reveal_strlit("btn_view");
    assert("btn_view"@[4] != "btn_edit"@[4]);
    assert(catalog()[16].0 == "btn_view"@);
    reveal_strlit("proj_add_title");
    assert("proj_add_title"@.len() != "btn_edit"@.len());
    assert(catalog()[17].0 == "proj_add_title"@);
    reveal_strlit("proj_name");
    assert("proj_name"@.len() != "btn_edit"@.len());
    assert(catalog()[18].0 == "proj_name"@);
    reveal_strlit("proj_script");
    assert("proj_script"@.len() != "btn_edit"@.len());
    assert(catalog()[19].0 == "proj_script"@);
    reveal_strlit("proj_log_dir");
    assert("proj_log_dir"@.len() != "btn_edit"@.len());
    assert(catalog()[20].0 == "proj_log_dir"@);
    reveal_strlit("btn_add_proj");
    assert("btn_add_proj"@.len() != "btn_edit"@.len());
    assert(catalog()[21].0 == "btn_add_proj"@);
    reveal_strlit("proj_list_title");
    assert("proj_list_title"@.len() != "btn_edit"@.len());
    assert(catalog()[22].0 == "proj_list_title"@);
    reveal_strlit("col_webhook_key");
    assert("col_webhook_key"@.len() != "btn_edit"@.len());
    assert(catalog()[23].0 == "col_webhook_key"@);
    reveal_strlit("col_webhook_url");
    assert("col_webhook_url"@.len() != "btn_edit"@.len());
    assert(catalog()[24].0 == "col_webhook_url"@);
    assert(catalog()[25] == ("btn_edit"@, "Edit"@, "编辑"@));
    lemma_lookup_at(catalog(), "btn_edit"@, 25);
}

proof fn lemma_texts_of_btn_logs()
    ensures
        catalog_text("btn_logs"@, "en"@) == Some("Logs"@),
        catalog_text("btn_logs"@, "zh"@) == Some("运行日志"@),
{
    reveal_strlit("btn_logs");
    reveal_strlit("en");
    reveal_strlit("zh");
    assert("en"@[0] != "zh"@[0]);
    reveal_strlit("nav_dashboard");
    assert("nav_dashboard"@.len() != "btn_logs"@.len());
    assert(catalog()[0].0 == "nav_dashboard"@);
    reveal_strlit("nav_projects");
    assert("nav_projects"@.len() != "btn_logs"@.len());
    assert(catalog()[1].0 == "nav_projects"@);
    reveal_strlit("nav_users");
    assert("nav_users"@.len() != "btn_logs"@.len());
    assert(catalog()[2].0 == "nav_users"@);
    reveal_strlit("nav_logout");
    assert("nav_logout"@.len() != "btn_logs"@.len());
    assert(catalog()[3].0 == "nav_logout"@);
    reveal_strlit("login_title");
    assert("login_title"@.len() != "btn_logs"@.len());
    assert(catalog()[4].0 == "login_title"@);
    reveal_strlit("username");
    assert("username"@[0] != "btn_logs"@[0]);
    assert(catalog()[5].0 == "username"@);
    reveal_strlit("password");
    assert("password"@[0] != "btn_logs"@[0]);
    assert(catalog()[6].0 == "password"@);
    reveal_strlit("login_btn");
    assert("login_btn"@.len() != "btn_logs"@.len());
    assert(catalog()[7].0 == "login_btn"@);
    reveal_strlit("dash_recent_builds");
    assert("dash_recent_builds"@.len() != "btn_logs"@.len());
    assert(catalog()[8].0 == "dash_recent_builds"@);
    reveal_strlit("dash_no_builds");
    assert("dash_no_builds"@.len() != "btn_logs"@.len());
    assert(catalog()[9].0 == "dash_no_builds"@);
    reveal_strlit("col_id");
    assert("col_id"@.len() != "btn_logs"@.len());
    assert(catalog()[10].0 == "col_id"@);
    reveal_strlit("col_project");
    assert("col_project"@.len() != "btn_logs"@.len());
    assert(catalog()[11].0 == "col_project"@);
    reveal_strlit("col_status");
    assert("col_status"@.len() != "btn_logs"@.len());
    assert(catalog()[12].0 == "col_status"@);
    reveal_strlit("col_started_at");
    assert("col_started_at"@.len() != "btn_logs"@.len());
    assert(catalog()[13].0 == "col_started_at"@);
    reveal_strlit("col_finished_at");
    assert("col_finished_at"@.len() != "btn_logs"@.len());
    assert(catalog()[14].0 == "col_finished_at"@);
    reveal_strlit("col_action");
    assert("col_action"@.len() != "btn_logs"@.len());
    assert(catalog()[15].0 == "col_action"@);
    reveal_strlit("btn_view");
    assert("btn_view"@[4] != "btn_logs"@[4]);
    assert(catalog()[16].0 == "btn_view"@);
    reveal_strlit("proj_add_title");
    assert("proj_add_title"@.len() != "btn_logs"@.len());
    assert(catalog()[17].0 == "proj_add_title"@);
    reveal_strlit("proj_name");
    assert("proj_name"@.len() != "btn_logs"@.len());
    assert(catalog()[18].0 == "proj_name"@);
    reveal_strlit("proj_script");
    assert("proj_script"@.len() != "btn_logs"@.len());
    assert(catalog()[19].0 == "proj_script"@);
    reveal_strlit("proj_log_dir");
    assert("proj_log_dir"@.len() != "btn_logs"@.len());
    assert(catalog()[20].0 == "proj_log_dir"@);
    reveal_strlit("btn_add_proj");
    assert("btn_add_proj"@.len() != "btn_logs"@.len());
    assert(catalog()[21].0 == "btn_add_proj"@);
    reveal_strlit("proj_list_title");
    assert("proj_list_title"@.len() != "btn_logs"@.len());
    assert(catalog()[22].0 == "proj_list_title"@);
    reveal_strlit("col_webhook_key");
    assert("col_webhook_key"@.len() != "btn_logs"@.len());
    assert(catalog()[23].0 == "col_webhook_key"@);
    reveal_strlit("col_webhook_url");
    assert("col_webhook_url"@.len() != "btn_logs"@.len());
    assert(catalog()[24].0 == "col_webhook_url"@);
    reveal_strlit("btn_edit");
    assert("btn_edit"@[4] != "btn_logs"@[4]);
    assert(catalog()[25].0 == "btn_edit"@);
    assert(catalog()[26] == ("btn_logs"@, "Logs"@, "运行日志"@));
    lemma_lookup_at(catalog(), "btn_logs"@, 26);
}

proof fn lemma_texts_of_proj_no_projects()
    ensures
        catalog_text("proj_no_projects"@, "en"@) == Some("No projects found."@),
        catalog_text("proj_no_projects"@, "zh"@) == Some("暂无项目。"@),
{
    reveal_strlit("proj_no_projects");
    reveal_strlit("en");
    reveal_strlit("zh");
    assert("en"@[0] != "zh"@[0]);
    reveal_strlit("nav_dashboard");
    assert("nav_dashboard"@.len() != "proj_no_projects"@.len());
    assert(catalog()[0].0 == "nav_dashboard"@);
    reveal_strlit("nav_projects");
    assert("nav_projects"@.len() != "proj_no_projects"@.len());
    assert(catalog()[1].0 == "nav_projects"@);
    reveal_strlit("nav_users");
    assert("nav_users"@.len() != "proj_no_projects"@.len());
    assert(catalog()[2].0 == "nav_users"@);
    reveal_strlit("nav_logout");
    assert("nav_logout"@.len() != "proj_no_projects"@.len());
    assert(catalog()[3].0 == "nav_logout"@);
    reveal_strlit("login_title");
    assert("login_title"@.len() != "proj_no_projects"@.len());
    assert(catalog()[4].0 == "login_title"@);
    reveal_strlit("username");
    assert("username"@.len() != "proj_no_projects"@.len());
    assert(catalog()[5].0 == "username"@);
    reveal_strlit("password");
    assert("password"@.len() != "proj_no_projects"@.len());
    assert(catalog()[6].0 == "password"@);
    reveal_strlit("login_btn");
    assert("login_btn"@.len() != "proj_no_projects"@.len());
    assert(catalog()[7].0 == "login_btn"@);
    reveal_strlit("dash_recent_builds");
    assert("dash_recent_builds"@.len() != "proj_no_projects"@.len());
    assert(catalog()[8].0 == "dash_recent_builds"@);
    reveal_strlit("dash_no_builds");
    assert("dash_no_builds"@.len() != "proj_no_projects"@.len());
    assert(catalog()[9].0 == "dash_no_builds"@);
    reveal_strlit("col_id");
    assert("col_id"@.len() != "proj_no_projects"@.len());
    assert(catalog()[10].0 == "col_id"@);
    reveal_strlit("col_project");
    assert("col_project"@.len() != "proj_no_projects"@.len());
    assert(catalog()[11].0 == "col_project"@);
    reveal_strlit("col_status");
    assert("col_status"@.len() != "proj_no_projects"@.len());
    assert(catalog()[12].0 == "col_status"@);
    reveal_strlit("col_started_at");
    assert("col_started_at"@.len() != "proj_no_projects"@.len());
    assert(catalog()[13].0 == "col_started_at"@);
    reveal_strlit("col_finished_at");
    assert("col_finished_at"@.len() != "proj_no_projects"@.len());
    assert(catalog()[14].0 == "col_finished_at"@);
    reveal_strlit("col_action");
    assert("col_action"@.len() != "proj_no_projects"@.len());
    assert(catalog()[15].0 == "col_action"@);
    reveal_strlit("btn_view");
    assert("btn_view"@.len() != "proj_no_projects"@.len());
    assert(catalog()[16].0 == "btn_view"@);
    reveal_strlit("proj_add_title");
    assert("proj_add_title"@.len() != "proj_no_projects"@.len());
    assert(catalog()[17].0 == "proj_add_title"@);
    reveal_strlit("proj_name");
    assert("proj_name"@.len() != "proj_no_projects"@.len());
    assert(catalog()[18].0 == "proj_name"@);
    reveal_strlit("proj_script");
    assert("proj_script"@.len() != "proj_no_projects"@.len());
    assert(catalog()[19].0 == "proj_script"@);
    reveal_strlit("proj_log_dir");
    assert("proj_log_dir"@.len() != "proj_no_projects"@.len());
    assert(catalog()[20].0 == "proj_log_dir"@);
    reveal_strlit("btn_add_proj");
    assert("btn_add_proj"@.len() != "proj_no_projects"@.len());
    assert(catalog()[21].0 == "btn_add_proj"@);
    reveal_strlit("proj_list_title");
    assert("proj_list_title"@.len() != "proj_no_projects"@.len());
    assert(catalog()[22].0 == "proj_list_title"@);
    reveal_strlit("col_webhook_key");
    assert("col_webhook_key"@.len() != "proj_no_projects"@.len());
    assert(catalog()[23].0 == "col_webhook_key"@);
    reveal_strlit("col_webhook_url");
    assert("col_webhook_url"@.len() != "proj_no_projects"@.len());
    assert(catalog()[24].0 == "col_webhook_url"@);
    reveal_strlit("btn_edit");
    assert("btn_edit"@.len() != "proj_no_projects"@.len());
    assert(catalog()[25].0 == "btn_edit"@);
    reveal_strlit("btn_logs");
    assert("btn_logs"@.len() != "proj_no_projects"@.len());
    assert(catalog()[26].0 == "btn_logs"@);
    assert(catalog()[27] == ("proj_no_projects"@, "No projects found."@, "暂无项目。"@));
    lemma_lookup_at(catalog(), "proj_no_projects"@, 27);
}

proof fn lemma_texts_of_proj_edit_title()
    ensures
        catalog_text("proj_edit_title"@, "en"@) == Some("Edit Project"@),
        catalog_text("proj_edit_title"@, "zh"@) == Some("编辑项目"@),
{
    reveal_strlit("proj_edit_title");
    reveal_strlit("en");
    reveal_strlit("zh");
    assert("en"@[0] != "zh"@[0]);
    reveal_strlit("nav_dashboard");
    assert("nav_dashboard"@.len() != "proj_edit_title"@.len());
    assert(catalog()[0].0 == "nav_dashboard"@);
    reveal_strlit("nav_projects");
    assert("nav_projects"@.len() != "proj_edit_title"@.len());
    assert(catalog()[1].0 == "nav_projects"@);
    reveal_strlit("nav_users");
    assert("nav_users"@.len() != "proj_edit_title"@.len());
    assert(catalog()[2].0 == "nav_users"@);
    reveal_strlit("nav_logout");
    assert("nav_logout"@.len() != "proj_edit_title"@.len());
    assert(catalog()[3].0 == "nav_logout"@);
    reveal_strlit("login_title");
    assert("login_title"@.len() != "proj_edit_title"@.len());
    assert(catalog()[4].0 == "login_title"@);
    reveal_strlit("username");
    assert("username"@.len() != "proj_edit_title"@.len());
    assert(catalog()[5].0 == "username"@);
    reveal_strlit("password");
    assert("password"@.len() != "proj_edit_title"@.len());
    assert(catalog()[6].0 == "password"@);
    reveal_strlit("login_btn");
    assert("login_btn"@.len() != "proj_edit_title"@.len());
    assert(catalog()[7].0 == "login_btn"@);
    reveal_strlit("dash_recent_builds");
    assert("dash_recent_builds"@.len() != "proj_edit_title"@.len());
    assert(catalog()[8].0 == "dash_recent_builds"@);
    reveal_strlit("dash_no_builds");
    assert("dash_no_builds"@.len() != "proj_edit_title"@.len());
    assert(catalog()[9].0 == "dash_no_builds"@);
    reveal_strlit("col_id");
    assert("col_id"@.len() != "proj_edit_title"@.len());
    assert(catalog()[10].0 == "col_id"@);
    reveal_strlit("col_project");
    assert("col_project"@.len() != "proj_edit_title"@.len());
    assert(catalog()[11].0 == "col_project"@);
    reveal_strlit("col_status");
    assert("col_status"@.len() != "proj_edit_title"@.len());
    assert(catalog()[12].0 == "col_status"@);
    reveal_strlit("col_started_at");
    assert("col_started_at"@.len() != "proj_edit_title"@.len());
    assert(catalog()[13].0 == "col_started_at"@);
    reveal_strlit("col_finished_at");
    assert("col_finished_at"@[0] != "proj_edit_title"@[0]);
    assert(catalog()[14].0 == "col_finished_at"@);
    reveal_strlit("col_action");
    assert("col_action"@.len() != "proj_edit_title"@.len());
    assert(catalog()[15].0 == "col_action"@);
    reveal_strlit("btn_view");
    assert("btn_view"@.len() != "proj_edit_title"@.len());
    assert(catalog()[16].0 == "btn_view"@);
    reveal_strlit("proj_add_title");
    assert("proj_add_title"@.len() != "proj_edit_title"@.len());
    assert(catalog()[17].0 == "proj_add_title"@);
    reveal_strlit("proj_name");
    assert("proj_name"@.len() != "proj_edit_title"@.len());
    assert(catalog()[18].0 == "proj_name"@);
    reveal_strlit("proj_script");
    assert("proj_script"@.len() != "proj_edit_title"@.len());
    assert(catalog()[19].0 == "proj_script"@);
    reveal_strlit("proj_log_dir");
    assert("proj_log_dir"@.len() != "proj_edit_title"@.len());
    assert(catalog()[20].0 == "proj_log_dir"@);
    reveal_strlit("btn_add_proj");
    assert("btn_add_proj"@.len() != "proj_edit_title"@.len());
    assert(catalog()[21].0 == "btn_add_proj"@);
    reveal_strlit("proj_list_title");
    assert("proj_list_title"@[5] != "proj_edit_title"@[5]);
    assert(catalog()[22].0 == "proj_list_title"@);
    reveal_strlit("col_webhook_key");
    assert("col_webhook_key"@[0] != "proj_edit_title"@[0]);
    assert(catalog()[23].0 == "col_webhook_key"@);
    reveal_strlit("col_webhook_url");
    assert("col_webhook_url"@[0] != "proj_edit_title"@[0]);
    assert(catalog()[24].0 == "col_webhook_url"@);
    reveal_strlit("btn_edit");
    assert("btn_edit"@.len() != "proj_edit_title"@.len());
    assert(catalog()[25].0 == "btn_edit"@);
    reveal_strlit("btn_logs");
    assert("btn_logs"@.len() != "proj_edit_title"@.len());
    assert(catalog()[26].0 == "btn_logs"@);
    reveal_strlit("proj_no_projects");
    assert("proj_no_projects"@.len() != "proj_edit_title"@.len());
    assert(catalog()[27].0 == "proj_no_projects"@);
    assert(catalog()[28] == ("proj_edit_title"@, "Edit Project"@, "编辑项目"@));
    lemma_lookup_at(catalog(), "proj_edit_title"@, 28);
}

proof fn lemma_texts_of_btn_save()
    ensures
        catalog_text("btn_save"@, "en"@) == Some("Save Changes"@),
        catalog_text("btn_save"@, "zh"@) == Some("保存更改"@),
{
    reveal_strlit("btn_save");
    reveal_strlit("en");
    reveal_strlit("zh");
    assert("en"@[0] != "zh"@[0]);
    reveal_strlit("nav_dashboard");
    assert("nav_dashboard"@.len() != "btn_save"@.len());
    assert(catalog()[0].0 == "nav_dashboard"@);
    reveal_strlit("nav_projects");
    assert("nav_projects"@.len() != "btn_save"@.len());
    assert(catalog()[1].0 == "nav_projects"@);
    reveal_strlit("nav_users");
    assert("nav_users"@.len() != "btn_save"@.len());
    assert(catalog()[2].0 == "nav_users"@);
    reveal_strlit("nav_logout");
    assert("nav_logout"@.len() != "btn_save"@.len());
    assert(catalog()[3].0 == "nav_logout"@);
    reveal_strlit("login_title");
    assert("login_title"@.len() != "btn_save"@.len());
    assert(catalog()[4].0 == "login_title"@);
    reveal_strlit("username");
    assert("username"@[0] != "btn_save"@[0]);
    assert(catalog()[5].0 == "username"@);
    reveal_strlit("password");
    assert("password"@[0] != "btn_save"@[0]);
    assert(catalog()[6].0 == "password"@);
    reveal_strlit("login_btn");
    assert("login_btn"@.len() != "btn_save"@.len());
    assert(catalog()[7].0 == "login_btn"@);
    reveal_strlit("dash_recent_builds");
    assert("dash_recent_builds"@.len() != "btn_save"@.len());
    assert(catalog()[8].0 == "dash_recent_builds"@);
    reveal_strlit("dash_no_builds");
    assert("dash_no_builds"@.len() != "btn_save"@.len());
    assert(catalog()[9].0 == "dash_no_builds"@);
    reveal_strlit("col_id");
    assert("col_id"@.len() != "btn_save"@.len());
    assert(catalog()[10].0 == "col_id"@);
    reveal_strlit("col_project");
    assert("col_project"@.len() != "btn_save"@.len());
    assert(catalog()[11].0 == "col_project"@);
    reveal_strlit("col_status");
    assert("col_status"@.len() != "btn_save"@.len());
    assert(catalog()[12].0 == "col_status"@);
    reveal_strlit("col_started_at");
    assert("col_started_at"@.len() != "btn_save"@.len());
    assert(catalog()[13].0 == "col_started_at"@);
    reveal_strlit("col_finished_at");
    assert("col_finished_at"@.len() != "btn_save"@.len());
    assert(catalog()[14].0 == "col_finished_at"@);
    reveal_strlit("col_action");
    assert("col_action"@.len() != "btn_save"@.len());
    assert(catalog()[15].0 == "col_action"@);
    reveal_strlit("btn_view");
    assert("btn_view"@[4] != "btn_save"@[4]);
    assert(catalog()[16].0 == "btn_view"@);
    reveal_strlit("proj_add_title");
    assert("proj_add_title"@.len() != "btn_save"@.len());
    assert(catalog()[17].0 == "proj_add_title"@);
    reveal_strlit("proj_name");
    assert("proj_name"@.len() != "btn_save"@.len());
    assert(catalog()[18].0 == "proj_name"@);
    reveal_strlit("proj_script");
    assert("proj_script"@.len() != "btn_save"@.len());
    assert(catalog()[19].0 == "proj_script"@);
    reveal_strlit("proj_log_dir");
    assert("proj_log_dir"@.len() != "btn_save"@.len());
    assert(catalog()[20].0 == "proj_log_dir"@);
    reveal_strlit("btn_add_proj");
    assert("btn_add_proj"@.len() != "btn_save"@.len());
    assert(catalog()[21].0 == "btn_add_proj"@);
    reveal_strlit("proj_list_title");
    assert("proj_list_title"@.len() != "btn_save"@.len());
    assert(catalog()[22].0 == "proj_list_title"@);
    reveal_strlit("col_webhook_key");
    assert("col_webhook_key"@.len() != "btn_save"@.len());
    assert(catalog()[23].0 == "col_webhook_key"@);
    reveal_strlit("col_webhook_url");
    assert("col_webhook_url"@.len() != "btn_save"@.len());
    assert(catalog()[24].0 == "col_webhook_url"@);
    reveal_strlit("btn_edit");
    assert("btn_edit"@[4] != "btn_save"@[4]);
    assert(catalog()[25].0 == "btn_edit"@);
    reveal_strlit("btn_logs");
    assert("btn_logs"@[4] != "btn_save"@[4]);
    assert(catalog()[26].0 == "btn_logs"@);
    reveal_strlit("proj_no_projects");
    assert("proj_no_projects"@.len() != "btn_save"@.len());
    assert(catalog()[27].0 == "proj_no_projects"@);
    reveal_strlit("proj_edit_title");
    assert("proj_edit_title"@.len() != "btn_save"@.len());
    assert(catalog()[28].0 == "proj_edit_title"@);
    assert(catalog()[29] == ("btn_save"@, "Save Changes"@, "保存更改"@));
    lemma_lookup_at(catalog(), "btn_save"@, 29);
}

proof fn lemma_texts_of_btn_cancel()
    ensures
        catalog_text("btn_cancel"@, "en"@) == Some("Cancel"@),
        catalog_text("btn_cancel"@, "zh"@) == Some("取消"@),
{
    reveal_strlit("btn_cancel");
    reveal_strlit("en");
    reveal_strlit("zh");
    assert("en"@[0] != "zh"@[0]);
    reveal_strlit("nav_dashboard");
    assert("nav_dashboard"@.len() != "btn_cancel"@.len());
    assert(catalog()[0].0 == "nav_dashboard"@);
    reveal_strlit("nav_projects");
    assert("nav_projects"@.len() != "btn_cancel"@.len());
    assert(catalog()[1].0 == "nav_projects"@);
    reveal_strlit("nav_users");
    assert("nav_users"@.len() != "btn_cancel"@.len());
    assert(catalog()[2].0 == "nav_users"@);
    reveal_strlit("nav_logout");
    assert("nav_logout"@[0] != "btn_cancel"@[0]);
    assert(catalog()[3].0 == "nav_logout"@);
    reveal_strlit("login_title");
    assert("login_title"@.len() != "btn_cancel"@.len());
    assert(catalog()[4].0 == "login_title"@);
    reveal_strlit("username");
    assert("username"@.len() != "btn_cancel"@.len());
    assert(catalog()[5].0 == "username"@);
    reveal_strlit("password");
    assert("password"@.len() != "btn_cancel"@.len());
    assert(catalog()[6].0 == "password"@);
    reveal_strlit("login_btn");
    assert("login_btn"@.len() != "btn_cancel"@.len());
    assert(catalog()[7].0 == "login_btn"@);
    reveal_strlit("dash_recent_builds");
    assert("dash_recent_builds"@.len() != "btn_cancel"@.len());
    assert(catalog()[8].0 == "dash_recent_builds"@);
    reveal_strlit("dash_no_builds");
    assert("dash_no_builds"@.len() != "btn_cancel"@.len());
    assert(catalog()[9].0 == "dash_no_builds"@);
    reveal_strlit("col_id");
    assert("col_id"@.len() != "btn_cancel"@.len());
    assert(catalog()[10].0 == "col_id"@);
    reveal_strlit("col_project");
    assert("col_project"@.len() != "btn_cancel"@.len());
    assert(catalog()[11].0 == "col_project"@);
    reveal_strlit("col_status");
    assert("col_status"@[0] != "btn_cancel"@[0]);
    assert(catalog()[12].0 == "col_status"@);
    reveal_strlit("col_started_at");
    assert("col_started_at"@.len() != "btn_cancel"@.len());
    assert(catalog()[13].0 == "col_started_at"@);
    reveal_strlit("col_finished_at");
    assert("col_finished_at"@.len() != "btn_cancel"@.len());
    assert(catalog()[14].0 == "col_finished_at"@);
    reveal_strlit("col_action");
    assert("col_action"@[0] != "btn_cancel"@[0]);
    assert(catalog()[15].0 == "col_action"@);
    reveal_strlit("btn_view");
    assert("btn_view"@.len() != "btn_cancel"@.len());
    assert(catalog()[16].0 == "btn_view"@);
    reveal_strlit("proj_add_title");
    assert("proj_add_title"@.len() != "btn_cancel"@.len());
    assert(catalog()[17].0 == "proj_add_title"@);
    reveal_strlit("proj_name");
    assert("proj_name"@.len() != "btn_cancel"@.len());
    assert(catalog()[18].0 == "proj_name"@);
    reveal_strlit("proj_script");
    assert("proj_script"@.len() != "btn_cancel"@.len());
    assert(catalog()[19].0 == "proj_script"@);
    reveal_strlit("proj_log_dir");
    assert("proj_log_dir"@.len() != "btn_cancel"@.len());
    assert(catalog()[20].0 == "proj_log_dir"@);
    reveal_strlit("btn_add_proj");
    assert("btn_add_proj"@.len() != "btn_cancel"@.len());
    assert(catalog()[21].0 == "btn_add_proj"@);
    reveal_strlit("proj_list_title");
    assert("proj_list_title"@.len() != "btn_cancel"@.len());
    assert(catalog()[22].0 == "proj_list_title"@);
    reveal_strlit("col_webhook_key");
    assert("col_webhook_key"@.len() != "btn_cancel"@.len());
    assert(catalog()[23].0 == "col_webhook_key"@);
    reveal_strlit("col_webhook_url");
    assert("col_webhook_url"@.len() != "btn_cancel"@.len());
    assert(catalog()[24].0 == "col_webhook_url"@);
    reveal_strlit("btn_edit");
    assert("btn_edit"@.len() != "btn_cancel"@.len());
    assert(catalog()[25].0 == "btn_edit"@);
    reveal_strlit("btn_logs");
    assert("btn_logs"@.len() != "btn_cancel"@.len());
    assert(catalog()[26].0 == "btn_logs"@);
    reveal_strlit("proj_no_projects");
    assert("proj_no_projects"@.len() != "btn_cancel"@.len());
    assert(catalog()[27].0 == "proj_no_projects"@);
    reveal_strlit("proj_edit_title");
    assert("proj_edit_title"@.len() != "btn_cancel"@.len());
    assert(catalog()[28].0 == "proj_edit_title"@);
    reveal_strlit("btn_save");
    assert("btn_save"@.len() != "btn_cancel"@.len());
    assert(catalog()[29].0 == "btn_save"@);
    assert(catalog()[30] == ("btn_cancel"@, "Cancel"@, "取消"@));
    lemma_lookup_at(catalog(), "btn_cancel"@, 30);
}

proof fn lemma_texts_of_logs_title()
    ensures
        catalog_text("logs_title"@, "en"@) == Some("Runtime Logs"@),
        catalog_text("logs_title"@, "zh"@) == Some("运行日志"@),
{
    reveal_strlit("logs_title");
    reveal_strlit("en");
    reveal_strlit("zh");
    assert("en"@[0] != "zh"@[0]);
    reveal_strlit("nav_dashboard");
    assert("nav_dashboard"@.len() != "logs_title"@.len());
    assert(catalog()[0].0 == "nav_dashboard"@);
    reveal_strlit("nav_projects");
    assert("nav_projects"@.len() != "logs_title"@.len());
    assert(catalog()[1].0 == "nav_projects"@);
    reveal_strlit("nav_users");
    assert("nav_users"@.len() != "logs_title"@.len());
    assert(catalog()[2].0 == "nav_users"@);
    reveal_strlit("nav_logout");
    assert("nav_logout"@[0] != "logs_title"@[0]);
    assert(catalog()[3].0 == "nav_logout"@);
    reveal_strlit("login_title");
    assert("login_title"@.len() != "logs_title"@.len());
    assert(catalog()[4].0 == "login_title"@);
    reveal_strlit("username");
    assert("username"@.len() != "logs_title"@.len());
    assert(catalog()[5].0 == "username"@);
    reveal_strlit("password");
    assert("password"@.len() != "logs_title"@.len());
    assert(catalog()[6].0 == "password"@);
    reveal_strlit("login_btn");
    assert("login_btn"@.len() != "logs_title"@.len());
    assert(catalog()[7].0 == "login_btn"@);
    reveal_strlit("dash_recent_builds");
    assert("dash_recent_builds"@.len() != "logs_title"@.len());
    assert(catalog()[8].0 == "dash_recent_builds"@);
    reveal_strlit("dash_no_builds");
    assert("dash_no_builds"@.len() != "logs_title"@.len());
    assert(catalog()[9].0 == "dash_no_builds"@);
    reveal_strlit("col_id");
    assert("col_id"@.len() != "logs_title"@.len());
    assert(catalog()[10].0 == "col_id"@);
    reveal_strlit("col_project");
    assert("col_project"@.len() != "logs_title"@.len());
    assert(catalog()[11].0 == "col_project"@);
    reveal_strlit("col_status");
    assert("col_status"@[0] != "logs_title"@[0]);
    assert(catalog()[12].0 == "col_status"@);
    reveal_strlit("col_started_at");
    assert("col_started_at"@.len() != "logs_title"@.len());
    assert(catalog()[13].0 == "col_started_at"@);
    reveal_strlit("col_finished_at");
    assert("col_finished_at"@.len() != "logs_title"@.len());
    assert(catalog()[14].0 == "col_finished_at"@);
    reveal_strlit("col_action");
    assert("col_action"@[0] != "logs_title"@[0]);
    assert(catalog()[15].0 == "col_action"@);
    reveal_strlit("btn_view");
    assert("btn_view"@.len() != "logs_title"@.len());
    assert(catalog()[16].0 == "btn_view"@);
    reveal_strlit("proj_add_title");
    assert("proj_add_title"@.len() != "logs_title"@.len());
    assert(catalog()[17].0 == "proj_add_title"@);
    reveal_strlit("proj_name");
    assert("proj_name"@.len() != "logs_title"@.len());
    assert(catalog()[18].0 == "proj_name"@);
    reveal_strlit("proj_script");
    assert("proj_script"@.len() != "logs_title"@.len());
    assert(catalog()[19].0 == "proj_script"@);
    reveal_strlit("proj_log_dir");
    assert("proj_log_dir"@.len() != "logs_title"@.len());
    assert(catalog()[20].0 == "proj_log_dir"@);
    reveal_strlit("btn_add_proj");
    assert("btn_add_proj"@.len() != "logs_title"@.len());
    assert(catalog()[21].0 == "btn_add_proj"@);
    reveal_strlit("proj_list_title");
    assert("proj_list_title"@.len() != "logs_title"@.len());
    assert(catalog()[22].0 == "proj_list_title"@);
    reveal_strlit("col_webhook_key");
    assert("col_webhook_key"@.len() != "logs_title"@.len());
    assert(catalog()[23].0 == "col_webhook_key"@);
    reveal_strlit("col_webhook_url");
    assert("col_webhook_url"@.len() != "logs_title"@.len());
    assert(catalog()[24].0 == "col_webhook_url"@);
    reveal_strlit("btn_edit");
    assert("btn_edit"@.len() != "logs_title"@.len());
    assert(catalog()[25].0 == "btn_edit"@);
    reveal_strlit("btn_logs");
    assert("btn_logs"@.len() != "logs_title"@.len());
    assert(catalog()[26].0 == "btn_logs"@);
    reveal_strlit("proj_no_projects");
    assert("proj_no_projects"@.len() != "logs_title"@.len());
    assert(catalog()[27].0 == "proj_no_projects"@);
    reveal_strlit("proj_edit_title");
    assert("proj_edit_title"@.len() != "logs_title"@.len());
    assert(catalog()[28].0 == "proj_edit_title"@);
    reveal_strlit("btn_save");
    assert("btn_save"@.len() != "logs_title"@.len());
    assert(catalog()[29].0 == "btn_save"@);
    reveal_strlit("btn_cancel");
    assert("btn_cancel"@[0] != "logs_title"@[0]);
    assert(catalog()[30].0 == "btn_cancel"@);
    assert(catalog()[31] == ("logs_title"@, "Runtime Logs"@, "运行日志"@));
    lemma_lookup_at(catalog(), "logs_title"@, 31);
}

proof fn lemma_texts_of_logs_dir()
    ensures
        catalog_text("logs_dir"@, "en"@) == Some("Directory"@),
        catalog_text("logs_dir"@, "zh"@) == Some("所在目录"@),
{
    reveal_strlit("logs_dir");
    reveal_strlit("en");
    reveal_strlit("zh");
    assert("en"@[0] != "zh"@[0]);
    reveal_strlit("nav_dashboard");
    assert("nav_dashboard"@.len() != "logs_dir"@.len());
    assert(catalog()[0].0 == "nav_dashboard"@);
    reveal_strlit("nav_projects");
    assert("nav_projects"@.len() != "logs_dir"@.len());
    assert(catalog()[1].0 == "nav_projects"@);
    reveal_strlit("nav_users");
    assert("nav_users"@.len() != "logs_dir"@.len());
    assert(catalog()[2].0 == "nav_users"@);
    reveal_strlit("nav_logout");
    assert("nav_logout"@.len() != "logs_dir"@.len());
    assert(catalog()[3].0 == "nav_logout"@);
    reveal_strlit("login_title");
    assert("login_title"@.len() != "logs_dir"@.len());
    assert(catalog()[4].0 == "login_title"@);
    reveal_strlit("username");
    assert("username"@[0] != "logs_dir"@[0]);
    assert(catalog()[5].0 == "username"@);
    reveal_strlit("password");
    assert("password"@[0] != "logs_dir"@[0]);
    assert(catalog()[6].0 == "password"@);
    reveal_strlit("login_btn");
    assert("login_btn"@.len() != "logs_dir"@.len());
    assert(catalog()[7].0 == "login_btn"@);
    reveal_strlit("dash_recent_builds");
    assert("dash_recent_builds"@.len() != "logs_dir"@.len());
    assert(catalog()[8].0 == "dash_recent_builds"@);
    reveal_strlit("dash_no_builds");
    assert("dash_no_builds"@.len() != "logs_dir"@.len());
    assert(catalog()[9].0 == "dash_no_builds"@);
    reveal_strlit("col_id");
    assert("col_id"@.len() != "logs_dir"@.len());
    assert(catalog()[10].0 == "col_id"@);
    reveal_strlit("col_project");
    assert("col_project"@.len() != "logs_dir"@.len());
    assert(catalog()[11].0 == "col_project"@);
    reveal_strlit("col_status");
    assert("col_status"@.len() != "logs_dir"@.len());
    assert(catalog()[12].0 == "col_status"@);
    reveal_strlit("col_started_at");
    assert("col_started_at"@.len() != "logs_dir"@.len());
    assert(catalog()[13].0 == "col_started_at"@);
    reveal_strlit("col_finished_at");
    assert("col_finished_at"@.len() != "logs_dir"@.len());
    assert(catalog()[14].0 == "col_finished_at"@);
    reveal_strlit("col_action");
    assert("col_action"@.len() != "logs_dir"@.len());
    assert(catalog()[15].0 == "col_action"@);
    reveal_strlit("btn_view");
    assert("btn_view"@[0] != "logs_dir"@[0]);
    assert(catalog()[16].0 == "btn_view"@);
    reveal_strlit("proj_add_title");
    assert("proj_add_title"@.len() != "logs_dir"@.len());
    assert(catalog()[17].0 == "proj_add_title"@);
    reveal_strlit("proj_name");
    assert("proj_name"@.len() != "logs_dir"@.len());
    assert(catalog()[18].0 == "proj_name"@);
    reveal_strlit("proj_script");
    assert("proj_script"@.len() != "logs_dir"@.len());
    assert(catalog()[19].0 == "proj_script"@);
    reveal_strlit("proj_log_dir");
    assert("proj_log_dir"@.len() != "logs_dir"@.len());
    assert(catalog()[20].0 == "proj_log_dir"@);
    reveal_strlit("btn_add_proj");
    assert("btn_add_proj"@.len() != "logs_dir"@.len());
    assert(catalog()[21].0 == "btn_add_proj"@);
    reveal_strlit("proj_list_title");
    assert("proj_list_title"@.len() != "logs_dir"@.len());
    assert(catalog()[22].0 == "proj_list_title"@);
    reveal_strlit("col_webhook_key");
    assert("col_webhook_key"@.len() != "logs_dir"@.len());
    assert(catalog()[23].0 == "col_webhook_key"@);
    reveal_strlit("col_webhook_url");
    assert("col_webhook_url"@.len() != "logs_dir"@.len());
    assert(catalog()[24].0 == "col_webhook_url"@);
    reveal_strlit("btn_edit");
    assert("btn_edit"@[0] != "logs_dir"@[0]);
    assert(catalog()[25].0 == "btn_edit"@);
    reveal_strlit("btn_logs");
    assert("btn_logs"@[0] != "logs_dir"@[0]);
    assert(catalog()[26].0 == "btn_logs"@);
    reveal_strlit("proj_no_projects");
    assert("proj_no_projects"@.len() != "logs_dir"@.len());
    assert(catalog()[27].0 == "proj_no_projects"@);
    reveal_strlit("proj_edit_title");
    assert("proj_edit_title"@.len() != "logs_dir"@.len());
    assert(catalog()[28].0 == "proj_edit_title"@);
    reveal_strlit("btn_save");
    assert("btn_save"@[0] != "logs_dir"@[0]);
    assert(catalog()[29].0 == "btn_save"@);
    reveal_strlit("btn_cancel");
    assert("btn_cancel"@.len() != "logs_dir"@.len());
    assert(catalog()[30].0 == "btn_cancel"@);
    reveal_strlit("logs_title");
    assert("logs_title"@.len() != "logs_dir"@.len());
    assert(catalog()[31].0 == "logs_title"@);
    assert(catalog()[32] == ("logs_dir"@, "Directory"@, "所在目录"@));
    lemma_lookup_at(catalog(), "logs_dir"@, 32);
}

proof fn lemma_texts_of_col_filename()
    ensures
        catalog_text("col_filename"@, "en"@) == Some("Filename"@),
        catalog_text("col_filename"@, "zh"@) == Some("文件名"@),
{
    reveal_strlit("col_filename");
    reveal_strlit("en");
    reveal_strlit("zh");
    assert("en"@[0] != "zh"@[0]);
    reveal_strlit("nav_dashboard");
    assert("nav_dashboard"@.len() != "col_filename"@.len());
    assert(catalog()[0].0 == "nav_dashboard"@);
    reveal_strlit("nav_projects");
    assert("nav_projects"@[0] != "col_filename"@[0]);
    assert(catalog()[1].0 == "nav_projects"@);
    reveal_strlit("nav_users");
    assert("nav_users"@.len() != "col_filename"@.len());
    assert(catalog()[2].0 == "nav_users"@);
    reveal_strlit("nav_logout");
    assert("nav_logout"@.len() != "col_filename"@.len());
    assert(catalog()[3].0 == "nav_logout"@);
    reveal_strlit("login_title");
    assert("login_title"@.len() != "col_filename"@.len());
    assert(catalog()[4].0 == "login_title"@);
    reveal_strlit("username");
    assert("username"@.len() != "col_filename"@.len());
    assert(catalog()[5].0 == "username"@);
    reveal_strlit("password");
    assert("password"@.len() != "col_filename"@.len());
    assert(catalog()[6].0 == "password"@);
    reveal_strlit("login_btn");
    assert("login_btn"@.len() != "col_filename"@.len());
    assert(catalog()[7].0 == "login_btn"@);
    reveal_strlit("dash_recent_builds");
    assert("dash_recent_builds"@.len() != "col_filename"@.len());
    assert(catalog()[8].0 == "dash_recent_builds"@);
    reveal_strlit("dash_no_builds");
    assert("dash_no_builds"@.len() != "col_filename"@.len());
    assert(catalog()[9].0 == "dash_no_builds"@);
    reveal_strlit("col_id");
    assert("col_id"@.len() != "col_filename"@.len());
    assert(catalog()[10].0 == "col_id"@);
    reveal_strlit("col_project");
    assert("col_project"@.len() != "col_filename"@.len());
    assert(catalog()[11].0 == "col_project"@);
    reveal_strlit("col_status");
    assert("col_status"@.len() != "col_filename"@.len());
    assert(catalog()[12].0 == "col_status"@);
    reveal_strlit("col_started_at");
    assert("col_started_at"@.len() != "col_filename"@.len());
    assert(catalog()[13].0 == "col_started_at"@);
    reveal_strlit("col_finished_at");
    assert("col_finished_at"@.len() != "col_filename"@.len());
    assert(catalog()[14].0 == "col_finished_at"@);
    reveal_strlit("col_action");
    assert("col_action"@.len() != "col_filename"@.len());
    assert(catalog()[15].0 == "col_action"@);
    reveal_strlit("btn_view");
    assert("btn_view"@.len() != "col_filename"@.len());
    assert(catalog()[16].0 == "btn_view"@);
    reveal_strlit("proj_add_title");
    assert("proj_add_title"@.len() != "col_filename"@.len());
    assert(catalog()[17].0 == "proj_add_title"@);
    reveal_strlit("proj_name");
    assert("proj_name"@.len() != "col_filename"@.len());
    assert(catalog()[18].0 == "proj_name"@);
    reveal_strlit("proj_script");
    assert("proj_script"@.len() != "col_filename"@.len());
    assert(catalog()[19].0 == "proj_script"@);
    reveal_strlit("proj_log_dir");
    assert("proj_log_dir"@[0] != "col_filename"@[0]);
    assert(catalog()[20].0 == "proj_log_dir"@);
    reveal_strlit("btn_add_proj");
    assert("btn_add_proj"@[0] != "col_filename"@[0]);
    assert(catalog()[21].0 == "btn_add_proj"@);
    reveal_strlit("proj_list_title");
    assert("proj_list_title"@.len() != "col_filename"@.len());
    assert(catalog()[22].0 == "proj_list_title"@);
    reveal_strlit("col_webhook_key");
    assert("col_webhook_key"@.len() != "col_filename"@.len());
    assert(catalog()[23].0 == "col_webhook_key"@);
    reveal_strlit("col_webhook_url");
    assert("col_webhook_url"@.len() != "col_filename"@.len());
    assert(catalog()[24].0 == "col_webhook_url"@);
    reveal_strlit("btn_edit");
    assert("btn_edit"@.len() != "col_filename"@.len());
    assert(catalog()[25].0 == "btn_edit"@);
    reveal_strlit("btn_logs");
    assert("btn_logs"@.len() != "col_filename"@.len());
    assert(catalog()[26].0 == "btn_logs"@);
    reveal_strlit("proj_no_projects");
    assert("proj_no_projects"@.len() != "col_filename"@.len());
    assert(catalog()[27].0 == "proj_no_projects"@);
    reveal_strlit("proj_edit_title");
    assert("proj_edit_title"@.len() != "col_filename"@.len());
    assert(catalog()[28].0 == "proj_edit_title"@);
    reveal_strlit("btn_save");
    assert("btn_save"@.len() != "col_filename"@.len());
    assert(catalog()[29].0 == "btn_save"@);
    reveal_strlit("btn_cancel");
    assert("btn_cancel"@.len() != "col_filename"@.len());
    assert(catalog()[30].0 == "btn_cancel"@);
    reveal_strlit("logs_title");
    assert("logs_title"@.len() != "col_filename"@.len());
    assert(catalog()[31].0 == "logs_title"@);
    reveal_strlit("logs_dir");
    assert("logs_dir"@.len() != "col_filename"@.len());
    assert(catalog()[32].0 == "logs_dir"@);
    assert(catalog()[33] == ("col_filename"@, "Filename"@, "文件名"@));
    lemma_lookup_at(catalog(), "col_filename"@, 33);
}

proof fn lemma_texts_of_col_size()
    ensures
        catalog_text("col_size"@, "en"@) == Some("Size (Bytes)"@),
        catalog_text("col_size"@, "zh"@) == Some("大小 (字节)"@),
{
    reveal_strlit("col_size");
    reveal_strlit("en");
    reveal_strlit("zh");
    assert("en"@[0] != "zh"@[0]);
    reveal_strlit("nav_dashboard");
    assert("nav_dashboard"@.len() != "col_size"@.len());
    assert(catalog()[0].0 == "nav_dashboard"@);
    reveal_strlit("nav_projects");
    assert("nav_projects"@.len() != "col_size"@.len());
    assert(catalog()[1].0 == "nav_projects"@);
    reveal_strlit("nav_users");
    assert("nav_users"@.len() != "col_size"@.len());
    assert(catalog()[2].0 == "nav_users"@);
    reveal_strlit("nav_logout");
    assert("nav_logout"@.len() != "col_size"@.len());
    assert(catalog()[3].0 == "nav_logout"@);
    reveal_strlit("login_title");
    assert("login_title"@.len() != "col_size"@.len());
    assert(catalog()[4].0 == "login_title"@);
    reveal_strlit("username");
    assert("username"@[0] != "col_size"@[0]);
    assert(catalog()[5].0 == "username"@);
    reveal_strlit("password");
    assert("password"@[0] != "col_size"@[0]);
    assert(catalog()[6].0 == "password"@);
    reveal_strlit("login_btn");
    assert("login_btn"@.len() != "col_size"@.len());
    assert(catalog()[7].0 == "login_btn"@);
    reveal_strlit("dash_recent_builds");
    assert("dash_recent_builds"@.len() != "col_size"@.len());
    assert(catalog()[8].0 == "dash_recent_builds"@);
    reveal_strlit("dash_no_builds");
    assert("dash_no_builds"@.len() != "col_size"@.len());
    assert(catalog()[9].0 == "dash_no_builds"@);
    reveal_strlit("col_id");
    assert("col_id"@.len() != "col_size"@.len());
    assert(catalog()[10].0 == "col_id"@);
    reveal_strlit("col_project");
    assert("col_project"@.len() != "col_size"@.len());
    assert(catalog()[11].0 == "col_project"@);
    reveal_strlit("col_status");
    assert("col_status"@.len() != "col_size"@.len());
    assert(catalog()[12].0 == "col_status"@);
    reveal_strlit("col_started_at");
    assert("col_started_at"@.len() != "col_size"@.len());
    assert(catalog()[13].0 == "col_started_at"@);
    reveal_strlit("col_finished_at");
    assert("col_finished_at"@.len() != "col_size"@.len());
    assert(catalog()[14].0 == "col_finished_at"@);
    reveal_strlit("col_action");
    assert("col_action"@.len() != "col_size"@.len());
    assert(catalog()[15].0 == "col_action"@);
    reveal_strlit("btn_view");
    assert("btn_view"@[0] != "col_size"@[0]);
    assert(catalog()[16].0 == "btn_view"@);
    reveal_strlit("proj_add_title");
    assert("proj_add_title"@.len() != "col_size"@.len());
    assert(catalog()[17].0 == "proj_add_title"@);
    reveal_strlit("proj_name");
    assert("proj_name"@.len() != "col_size"@.len());
    assert(catalog()[18].0 == "proj_name"@);
    reveal_strlit("proj_script");
    assert("proj_script"@.len() != "col_size"@.len());
    assert(catalog()[19].0 == "proj_script"@);
    reveal_strlit("proj_log_dir");
    assert("proj_log_dir"@.len() != "col_size"@.len());
    assert(catalog()[20].0 == "proj_log_dir"@);
    reveal_strlit("btn_add_proj");
    assert("btn_add_proj"@.len() != "col_size"@.len());
    assert(catalog()[21].0 == "btn_add_proj"@);
    reveal_strlit("proj_list_title");
    assert("proj_list_title"@.len() != "col_size"@.len());
    assert(catalog()[22].0 == "proj_list_title"@);
    reveal_strlit("col_webhook_key");
    assert("col_webhook_key"@.len() != "col_size"@.len());
    assert(catalog()[23].0 == "col_webhook_key"@);
    reveal_strlit("col_webhook_url");
    assert("col_webhook_url"@.len() != "col_size"@.len());
    assert(catalog()[24].0 == "col_webhook_url"@);
    reveal_strlit("btn_edit");
    assert("btn_edit"@[0] != "col_size"@[0]);
    assert(catalog()[25].0 == "btn_edit"@);
    reveal_strlit("btn_logs");
    assert("btn_logs"@[0] != "col_size"@[0]);
    assert(catalog()[26].0 == "btn_logs"@);
    reveal_strlit("proj_no_projects");
    assert("proj_no_projects"@.len() != "col_size"@.len());
    assert(catalog()[27].0 == "proj_no_projects"@);
    reveal_strlit("proj_edit_title");
    assert("proj_edit_title"@.len() != "col_size"@.len());
    assert(catalog()[28].0 == "proj_edit_title"@);
    reveal_strlit("btn_save");
    assert("btn_save"@[0] != "col_size"@[0]);
    assert(catalog()[29].0 == "btn_save"@);
    reveal_strlit("btn_cancel");
    assert("btn_cancel"@.len() != "col_size"@.len());
    assert(catalog()[30].0 == "btn_cancel"@);
    reveal_strlit("logs_title");
    assert("logs_title"@.len() != "col_size"@.len());
    assert(catalog()[31].0 == "logs_title"@);
    reveal_strlit("logs_dir");
    assert("logs_dir"@[0] != "col_size"@[0]);
    assert(catalog()[32].0 == "logs_dir"@);
    reveal_strlit("col_filename");
    assert("col_filename"@.len() != "col_size"@.len());
    assert(catalog()[33].0 == "col_filename"@);
    assert(catalog()[34] == ("col_size"@, "Size (Bytes)"@, "大小 (字节)"@));
    lemma_lookup_at(catalog(), "col_size"@, 34);
}

proof fn lemma_texts_of_btn_tailf()
    ensures
        catalog_text("btn_tailf"@, "en"@) == Some("tail -f -n 5000"@),
        catalog_text("btn_tailf"@, "zh"@) == Some("tail -f -n 5000"@),
{
    reveal_strlit("btn_tailf");
    reveal_strlit("en");
    reveal_strlit("zh");
    assert("en"@[0] != "zh"@[0]);
    reveal_strlit("nav_dashboard");
    assert("nav_dashboard"@.len() != "btn_tailf"@.len());
    assert(catalog()[0].0 == "nav_dashboard"@);
    reveal_strlit("nav_projects");
    assert("nav_projects"@.len() != "btn_tailf"@.len());
    assert(catalog()[1].0 == "nav_projects"@);
    reveal_strlit("nav_users");
    assert("nav_users"@[0] != "btn_tailf"@[0]);
    assert(catalog()[2].0 == "nav_users"@);
    reveal_strlit("nav_logout");
    assert("nav_logout"@.len() != "btn_tailf"@.len());
    assert(catalog()[3].0 == "nav_logout"@);
    reveal_strlit("login_title");
    assert("login_title"@.len() != "btn_tailf"@.len());
    assert(catalog()[4].0 == "login_title"@);
    reveal_strlit("username");
    assert("username"@.len() != "btn_tailf"@.len());
    assert(catalog()[5].0 == "username"@);
    reveal_strlit("password");
    assert("password"@.len() != "btn_tailf"@.len());
    assert(catalog()[6].0 == "password"@);
    reveal_strlit("login_btn");
    assert("login_btn"@[0] != "btn_tailf"@[0]);
    assert(catalog()[7].0 == "login_btn"@);
    reveal_strlit("dash_recent_builds");
    assert("dash_recent_builds"@.len() != "btn_tailf"@.len());
    assert(catalog()[8].0 == "dash_recent_builds"@);
    reveal_strlit("dash_no_builds");
    assert("dash_no_builds"@.len() != "btn_tailf"@.len());
    assert(catalog()[9].0 == "dash_no_builds"@);
    reveal_strlit("col_id");
    assert("col_id"@.len() != "btn_tailf"@.len());
    assert(catalog()[10].0 == "col_id"@);
    reveal_strlit("col_project");
    assert("col_project"@.len() != "btn_tailf"@.len());
    assert(catalog()[11].0 == "col_project"@);
    reveal_strlit("col_status");
    assert("col_status"@.len() != "btn_tailf"@.len());
    assert(catalog()[12].0 == "col_status"@);
    reveal_strlit("col_started_at");
    assert("col_started_at"@.len() != "btn_tailf"@.len());
    assert(catalog()[13].0 == "col_started_at"@);
    reveal_strlit("col_finished_at");
    assert("col_finished_at"@.len() != "btn_tailf"@.len());
    assert(catalog()[14].0 == "col_finished_at"@);
    reveal_strlit("col_action");
    assert("col_action"@.len() != "btn_tailf"@.len());
    assert(catalog()[15].0 == "col_action"@);
    reveal_strlit("btn_view");
    assert("btn_view"@.len() != "btn_tailf"@.len());
    assert(catalog()[16].0 == "btn_view"@);
    reveal_strlit("proj_add_title");
    assert("proj_add_title"@.len() != "btn_tailf"@.len());
    assert(catalog()[17].0 == "proj_add_title"@);
    reveal_strlit("proj_name");
    assert("proj_name"@[0] != "btn_tailf"@[0]);
    assert(catalog()[18].0 == "proj_name"@);
    reveal_strlit("proj_script");
    assert("proj_script"@.len() != "btn_tailf"@.len());
    assert(catalog()[19].0 == "proj_script"@);
    reveal_strlit("proj_log_dir");
    assert("proj_log_dir"@.len() != "btn_tailf"@.len());
    assert(catalog()[20].0 == "proj_log_dir"@);
    reveal_strlit("btn_add_proj");
    assert("btn_add_proj"@.len() != "btn_tailf"@.len());
    assert(catalog()[21].0 == "btn_add_proj"@);
    reveal_strlit("proj_list_title");
    assert("proj_list_title"@.len() != "btn_tailf"@.len());
    assert(catalog()[22].0 == "proj_list_title"@);
    reveal_strlit("col_webhook_key");
    assert("col_webhook_key"@.len() != "btn_tailf"@.len());
    assert(catalog()[23].0 == "col_webhook_key"@);
    reveal_strlit("col_webhook_url");
    assert("col_webhook_url"@.len() != "btn_tailf"@.len());
    assert(catalog()[24].0 == "col_webhook_url"@);
    reveal_strlit("btn_edit");
    assert("btn_edit"@.len() != "btn_tailf"@.len());
    assert(catalog()[25].0 == "btn_edit"@);
    reveal_strlit("btn_logs");
    assert("btn_logs"@.len() != "btn_tailf"@.len());
    assert(catalog()[26].0 == "btn_logs"@);
    reveal_strlit("proj_no_projects");
    assert("proj_no_projects"@.len() != "btn_tailf"@.len());
    assert(catalog()[27].0 == "proj_no_projects"@);
    reveal_strlit("proj_edit_title");
    assert("proj_edit_title"@.len() != "btn_tailf"@.len());
    assert(catalog()[28].0 == "proj_edit_title"@);
    reveal_strlit("btn_save");
    assert("btn_save"@.len() != "btn_tailf"@.len());
    assert(catalog()[29].0 == "btn_save"@);
    reveal_strlit("btn_cancel");
    assert("btn_cancel"@.len() != "btn_tailf"@.len());
    assert(catalog()[30].0 == "btn_cancel"@);
    reveal_strlit("logs_title");
    assert("logs_title"@.len() != "btn_tailf"@.len());
    assert(catalog()[31].0 == "logs_title"@);
    reveal_strlit("logs_dir");
    assert("logs_dir"@.len() != "btn_tailf"@.len());
    assert(catalog()[32].0 == "logs_dir"@);
    reveal_strlit("col_filename");
    assert("col_filename"@.len() != "btn_tailf"@.len());
    assert(catalog()[33].0 == "col_filename"@);
    reveal_strlit("col_size");
    assert("col_size"@.len() != "btn_tailf"@.len());
    assert(catalog()[34].0 == "col_size"@);
    assert(catalog()[35] == ("btn_tailf"@, "tail -f -n 5000"@, "tail -f -n 5000"@));
    lemma_lookup_at(catalog(), "btn_tailf"@, 35);
}

proof fn lemma_texts_of_logs_no_files()
    ensures
        catalog_text("logs_no_files"@, "en"@) == Some("No files found in directory."@),
        catalog_text("logs_no_files"@, "zh"@) == Some("目录中没有找到日志文件。"@),
{
    reveal_strlit("logs_no_files");
    reveal_strlit("en");
    reveal_strlit("zh");
    assert("en"@[0] != "zh"@[0]);
    reveal_strlit("nav_dashboard");
    assert("nav_dashboard"@[0] != "logs_no_files"@[0]);
    assert(catalog()[0].0 == "nav_dashboard"@);
    reveal_strlit("nav_projects");
    assert("nav_projects"@.len() != "logs_no_files"@.len());
    assert(catalog()[1].0 == "nav_projects"@);
    reveal_strlit("nav_users");
    assert("nav_users"@.len() != "logs_no_files"@.len());
    assert(catalog()[2].0 == "nav_users"@);
    reveal_strlit("nav_logout");
    assert("nav_logout"@.len() != "logs_no_files"@.len());
    assert(catalog()[3].0 == "nav_logout"@);
    reveal_strlit("login_title");
    assert("login_title"@.len() != "logs_no_files"@.len());
    assert(catalog()[4].0 == "login_title"@);
    reveal_strlit("username");
    assert("username"@.len() != "logs_no_files"@.len());
    assert(catalog()[5].0 == "username"@);
    reveal_strlit("password");
    assert("password"@.len() != "logs_no_files"@.len());
    assert(catalog()[6].0 == "password"@);
    reveal_strlit("login_btn");
    assert("login_btn"@.len() != "logs_no_files"@.len());
    assert(catalog()[7].0 == "login_btn"@);
    reveal_strlit("dash_recent_builds");
    assert("dash_recent_builds"@.len() != "logs_no_files"@.len());
    assert(catalog()[8].0 == "dash_recent_builds"@);
    reveal_strlit("dash_no_builds");
    assert("dash_no_builds"@.len() != "logs_no_files"@.len());
    assert(catalog()[9].0 == "dash_no_builds"@);
    reveal_strlit("col_id");
    assert("col_id"@.len() != "logs_no_files"@.len());
    assert(catalog()[10].0 == "col_id"@);
    reveal_strlit("col_project");
    assert("col_project"@.len() != "logs_no_files"@.len());
    assert(catalog()[11].0 == "col_project"@);
    reveal_strlit("col_status");
    assert("col_status"@.len() != "logs_no_files"@.len());
    assert(catalog()[12].0 == "col_status"@);
    reveal_strlit("col_started_at");
    assert("col_started_at"@.len() != "logs_no_files"@.len());
    assert(catalog()[13].0 == "col_started_at"@);
    reveal_strlit("col_finished_at");
    assert("col_finished_at"@.len() != "logs_no_files"@.len());
    assert(catalog()[14].0 == "col_finished_at"@);
    reveal_strlit("col_action");
    assert("col_action"@.len() != "logs_no_files"@.len());
    assert(catalog()[15].0 == "col_action"@);
    reveal_strlit("btn_view");
    assert("btn_view"@.len() != "logs_no_files"@.len());
    assert(catalog()[16].0 == "btn_view"@);
    reveal_strlit("proj_add_title");
    assert("proj_add_title"@.len() != "logs_no_files"@.len());
    assert(catalog()[17].0 == "proj_add_title"@);
    reveal_strlit("proj_name");
    assert("proj_name"@.len() != "logs_no_files"@.len());
    assert(catalog()[18].0 == "proj_name"@);
    reveal_strlit("proj_script");
    assert("proj_script"@.len() != "logs_no_files"@.len());
    assert(catalog()[19].0 == "proj_script"@);
    reveal_strlit("proj_log_dir");
    assert("proj_log_dir"@.len() != "logs_no_files"@.len());
    assert(catalog()[20].0 == "proj_log_dir"@);
    reveal_strlit("btn_add_proj");
    assert("btn_add_proj"@.len() != "logs_no_files"@.len());
    assert(catalog()[21].0 == "btn_add_proj"@);
    reveal_strlit("proj_list_title");
    assert("proj_list_title"@.len() != "logs_no_files"@.len());
    assert(catalog()[22].0 == "proj_list_title"@);
    reveal_strlit("col_webhook_key");
    assert("col_webhook_key"@.len() != "logs_no_files"@.len());
    assert(catalog()[23].0 == "col_webhook_key"@);
    reveal_strlit("col_webhook_url");
    assert("col_webhook_url"@.len() != "logs_no_files"@.len());
    assert(catalog()[24].0 == "col_webhook_url"@);
    reveal_strlit("btn_edit");
    assert("btn_edit"@.len() != "logs_no_files"@.len());
    assert(catalog()[25].0 == "btn_edit"@);
    reveal_strlit("btn_logs");
    assert("btn_logs"@.len() != "logs_no_files"@.len());
    assert(catalog()[26].0 == "btn_logs"@);
    reveal_strlit("proj_no_projects");
    assert("proj_no_projects"@.len() != "logs_no_files"@.len());
    assert(catalog()[27].0 == "proj_no_projects"@);
    reveal_strlit("proj_edit_title");
    assert("proj_edit_title"@.len() != "logs_no_files"@.len());
    assert(catalog()[28].0 == "proj_edit_title"@);
    reveal_strlit("btn_save");
    assert("btn_save"@.len() != "logs_no_files"@.len());
    assert(catalog()[29].0 == "btn_save"@);
    reveal_strlit("btn_cancel");
    assert("btn_cancel"@.len() != "logs_no_files"@.len());
    assert(catalog()[30].0 == "btn_cancel"@);
    reveal_strlit("logs_title");
    assert("logs_title"@.len() != "logs_no_files"@.len());
    assert(catalog()[31].0 == "logs_title"@);
    reveal_strlit("logs_dir");
    assert("logs_dir"@.len() != "logs_no_files"@.len());
    assert(catalog()[32].0 == "logs_dir"@);
    reveal_strlit("col_filename");
    assert("col_filename"@.len() != "logs_no_files"@.len());
    assert(catalog()[33].0 == "col_filename"@);
    reveal_strlit("col_size");
    assert("col_size"@.len() != "logs_no_files"@.len());
    assert(catalog()[34].0 == "col_size"@);
    reveal_strlit("btn_tailf");
    assert("btn_tailf"@.len() != "logs_no_files"@.len());
    assert(catalog()[35].0 == "btn_tailf"@);
    assert(catalog()[36] == ("logs_no_files"@, "No files found in directory."@, "目录中没有找到日志文件。"@));
    lemma_lookup_at(catalog(), "logs_no_files"@, 36);
}

proof fn lemma_texts_of_btn_back_proj()
    ensures
        catalog_text("btn_back_proj"@, "en"@) == Some("Back to Projects"@),
        catalog_text("btn_back_proj"@, "zh"@) == Some("返回项目列表"@),
{
    reveal_strlit("btn_back_proj");
    reveal_strlit("en");
    reveal_strlit("zh");
    assert("en"@[0] != "zh"@[0]);
    reveal_strlit("nav_dashboard");
    assert("nav_dashboard"@[0] != "btn_back_proj"@[0]);
    assert(catalog()[0].0 == "nav_dashboard"@);
    reveal_strlit("nav_projects");
    assert("nav_projects"@.len() != "btn_back_proj"@.len());
    assert(catalog()[1].0 == "nav_projects"@);
    reveal_strlit("nav_users");
    assert("nav_users"@.len() != "btn_back_proj"@.len());
    assert(catalog()[2].0 == "nav_users"@);
    reveal_strlit("nav_logout");
    assert("nav_logout"@.len() != "btn_back_proj"@.len());
    assert(catalog()[3].0 == "nav_logout"@);
    reveal_strlit("login_title");
    assert("login_title"@.len() != "btn_back_proj"@.len());
    assert(catalog()[4].0 == "login_title"@);
    reveal_strlit("username");
    assert("username"@.len() != "btn_back_proj"@.len());
    assert(catalog()[5].0 == "username"@);
    reveal_strlit("password");
    assert("password"@.len() != "btn_back_proj"@.len());
    assert(catalog()[6].0 == "password"@);
    reveal_strlit("login_btn");
    assert("login_btn"@.len() != "btn_back_proj"@.len());
    assert(catalog()[7].0 == "login_btn"@);
    reveal_strlit("dash_recent_builds");
    assert("dash_recent_builds"@.len() != "btn_back_proj"@.len());
    assert(catalog()[8].0 == "dash_recent_builds"@);
    reveal_strlit("dash_no_builds");
    assert("dash_no_builds"@.len() != "btn_back_proj"@.len());
    assert(catalog()[9].0 == "dash_no_builds"@);
    reveal_strlit("col_id");
    assert("col_id"@.len() != "btn_back_proj"@.len());
    assert(catalog()[10].0 == "col_id"@);
    reveal_strlit("col_project");
    assert("col_project"@.len() != "btn_back_proj"@.len());
    assert(catalog()[11].0 == "col_project"@);
    reveal_strlit("col_status");
    assert("col_status"@.len() != "btn_back_proj"@.len());
    assert(catalog()[12].0 == "col_status"@);
    reveal_strlit("col_started_at");
    assert("col_started_at"@.len() != "btn_back_proj"@.len());
    assert(catalog()[13].0 == "col_started_at"@);
    reveal_strlit("col_finished_at");
    assert("col_finished_at"@.len() != "btn_back_proj"@.len());
    assert(catalog()[14].0 == "col_finished_at"@);
    reveal_strlit("col_action");
    assert("col_action"@.len() != "btn_back_proj"@.len());
    assert(catalog()[15].0 == "col_action"@);
    reveal_strlit("btn_view");
    assert("btn_view"@.len() != "btn_back_proj"@.len());
    assert(catalog()[16].0 == "btn_view"@);
    reveal_strlit("proj_add_title");
    assert("proj_add_title"@.len() != "btn_back_proj"@.len());
    assert(catalog()[17].0 == "proj_add_title"@);
    reveal_strlit("proj_name");
    assert("proj_name"@.len() != "btn_back_proj"@.len());
    assert(catalog()[18].0 == "proj_name"@);
    reveal_strlit("proj_script");
    assert("proj_script"@.len() != "btn_back_proj"@.len());
    assert(catalog()[19].0 == "proj_script"@);
    reveal_strlit("proj_log_dir");
    assert("proj_log_dir"@.len() != "btn_back_proj"@.len());
    assert(catalog()[20].0 == "proj_log_dir"@);
    reveal_strlit("btn_add_proj");
    assert("btn_add_proj"@.len() != "btn_back_proj"@.len());
    assert(catalog()[21].0 == "btn_add_proj"@);
    reveal_strlit("proj_list_title");
    assert("proj_list_title"@.len() != "btn_back_proj"@.len());
    assert(catalog()[22].0 == "proj_list_title"@);
    reveal_strlit("col_webhook_key");
    assert("col_webhook_key"@.len() != "btn_back_proj"@.len());
    assert(catalog()[23].0 == "col_webhook_key"@);
    reveal_strlit("col_webhook_url");
    assert("col_webhook_url"@.len() != "btn_back_proj"@.len());
    assert(catalog()[24].0 == "col_webhook_url"@);
    reveal_strlit("btn_edit");
    assert("btn_edit"@.len() != "btn_back_proj"@.len());
    assert(catalog()[25].0 == "btn_edit"@);
    reveal_strlit("btn_logs");
    assert("btn_logs"@.len() != "btn_back_proj"@.len());
    assert(catalog()[26].0 == "btn_logs"@);
    reveal_strlit("proj_no_projects");
    assert("proj_no_projects"@.len() != "btn_back_proj"@.len());
    assert(catalog()[27].0 == "proj_no_projects"@);
    reveal_strlit("proj_edit_title");
    assert("proj_edit_title"@.len() != "btn_back_proj"@.len());
    assert(catalog()[28].0 == "proj_edit_title"@);
    reveal_strlit("btn_save");
    assert("btn_save"@.len() != "btn_back_proj"@.len());
    assert(catalog()[29].0 == "btn_save"@);
    reveal_strlit("btn_cancel");
    assert("btn_cancel"@.len() != "btn_back_proj"@.len());
    assert(catalog()[30].0 == "btn_cancel"@);
    reveal_strlit("logs_title");
    assert("logs_title"@.len() != "btn_back_proj"@.len());
    assert(catalog()[31].0 == "logs_title"@);
    reveal_strlit("logs_dir");
    assert("logs_dir"@.len() != "btn_back_proj"@.len());
    assert(catalog()[32].0 == "logs_dir"@);
    reveal_strlit("col_filename");
    assert("col_filename"@.len() != "btn_back_proj"@.len());
    assert(catalog()[33].0 == "col_filename"@);
    reveal_strlit("col_size");
    assert("col_size"@.len() != "btn_back_proj"@.len());
    assert(catalog()[34].0 == "col_size"@);
    reveal_strlit("btn_tailf");
    assert("btn_tailf"@.len() != "btn_back_proj"@.len());
    assert(catalog()[35].0 == "btn_tailf"@);
    reveal_strlit("logs_no_files");
    assert("logs_no_files"@[0] != "btn_back_proj"@[0]);
    assert(catalog()[36].0 == "logs_no_files"@);
    assert(catalog()[37] == ("btn_back_proj"@, "Back to Projects"@, "返回项目列表"@));
    lemma_lookup_at(catalog(), "btn_back_proj"@, 37);
}

proof fn lemma_texts_of_build_viewer_title()
    ensures
        catalog_text("build_viewer_title"@, "en"@) == Some("Build Log"@),
        catalog_text("build_viewer_title"@, "zh"@) == Some("构建日志"@),
{
    reveal_strlit("build_viewer_title");
    reveal_strlit("en");
    reveal_strlit("zh");
    assert("en"@[0] != "zh"@[0]);
    reveal_strlit("nav_dashboard");
    assert("nav_dashboard"@.len() != "build_viewer_title"@.len());
    assert(catalog()[0].0 == "nav_dashboard"@);
    reveal_strlit("nav_projects");
    assert("nav_projects"@.len() != "build_viewer_title"@.len());
    assert(catalog()[1].0 == "nav_projects"@);
    reveal_strlit("nav_users");
    assert("nav_users"@.len() != "build_viewer_title"@.len());
    assert(catalog()[2].0 == "nav_users"@);
    reveal_strlit("nav_logout");
    assert("nav_logout"@.len() != "build_viewer_title"@.len());
    assert(catalog()[3].0 == "nav_logout"@);
    reveal_strlit("login_title");
    assert("login_title"@.len() != "build_viewer_title"@.len());
    assert(catalog()[4].0 == "login_title"@);
    reveal_strlit("username");
    assert("username"@.len() != "build_viewer_title"@.len());
    assert(catalog()[5].0 == "username"@);
    reveal_strlit("password");
    assert("password"@.len() != "build_viewer_title"@.len());
    assert(catalog()[6].0 == "password"@);
    reveal_strlit("login_btn");
    assert("login_btn"@.len() != "build_viewer_title"@.len());
    assert(catalog()[7].0 == "login_btn"@);
    reveal_strlit("dash_recent_builds");
    assert("dash_recent_builds"@[0] != "build_viewer_title"@[0]);
    assert(catalog()[8].0 == "dash_recent_builds"@);
    reveal_strlit("dash_no_builds");
    assert("dash_no_builds"@.len() != "build_viewer_title"@.len());
    assert(catalog()[9].0 == "dash_no_builds"@);
    reveal_strlit("col_id");
    assert("col_id"@.len() != "build_viewer_title"@.len());
    assert(catalog()[10].0 == "col_id"@);
    reveal_strlit("col_project");
    assert("col_project"@.len() != "build_viewer_title"@.len());
    assert(catalog()[11].0 == "col_project"@);
    reveal_strlit("col_status");
    assert("col_status"@.len() != "build_viewer_title"@.len());
    assert(catalog()[12].0 == "col_status"@);
    reveal_strlit("col_started_at");
    assert("col_started_at"@.len() != "build_viewer_title"@.len());
    assert(catalog()[13].0 == "col_started_at"@);
    reveal_strlit("col_finished_at");
    assert("col_finished_at"@.len() != "build_viewer_title"@.len());
    assert(catalog()[14].0 == "col_finished_at"@);
    reveal_strlit("col_action");
    assert("col_action"@.len() != "build_viewer_title"@.len());
    assert(catalog()[15].0 == "col_action"@);
    reveal_strlit("btn_view");
    assert("btn_view"@.len() != "build_viewer_title"@.len());
    assert(catalog()[16].0 == "btn_view"@);
    reveal_strlit("proj_add_title");
    assert("proj_add_title"@.len() != "build_viewer_title"@.len());
    assert(catalog()[17].0 == "proj_add_title"@);
    reveal_strlit("proj_name");
    assert("proj_name"@.len() != "build_viewer_title"@.len());
    assert(catalog()[18].0 == "proj_name"@);
    reveal_strlit("proj_script");
    assert("proj_script"@.len() != "build_viewer_title"@.len());
    assert(catalog()[19].0 == "proj_script"@);
    reveal_strlit("proj_log_dir");
    assert("proj_log_dir"@.len() != "build_viewer_title"@.len());
    assert(catalog()[20].0 == "proj_log_dir"@);
    reveal_strlit("btn_add_proj");
    assert("btn_add_proj"@.len() != "build_viewer_title"@.len());
    assert(catalog()[21].0 == "btn_add_proj"@);
    reveal_strlit("proj_list_title");
    assert("proj_list_title"@.len() != "build_viewer_title"@.len());
    assert(catalog()[22].0 == "proj_list_title"@);
    reveal_strlit("col_webhook_key");
    assert("col_webhook_key"@.len() != "build_viewer_title"@.len());
    assert(catalog()[23].0 == "col_webhook_key"@);
    reveal_strlit("col_webhook_url");
    assert("col_webhook_url"@.len() != "build_viewer_title"@.len());
    assert(catalog()[24].0 == "col_webhook_url"@);
    reveal_strlit("btn_edit");
    assert("btn_edit"@.len() != "build_viewer_title"@.len());
    assert(catalog()[25].0 == "btn_edit"@);
    reveal_strlit("btn_logs");
    assert("btn_logs"@.len() != "build_viewer_title"@.len());
    assert(catalog()[26].0 == "btn_logs"@);
    reveal_strlit("proj_no_projects");
    assert("proj_no_projects"@.len() != "build_viewer_title"@.len());
    assert(catalog()[27].0 == "proj_no_projects"@);
    reveal_strlit("proj_edit_title");
    assert("proj_edit_title"@.len() != "build_viewer_title"@.len());
    assert(catalog()[28].0 == "proj_edit_title"@);
    reveal_strlit("btn_save");
    assert("btn_save"@.len() != "build_viewer_title"@.len());
    assert(catalog()[29].0 == "btn_save"@);
    reveal_strlit("btn_cancel");
    assert("btn_cancel"@.len() != "build_viewer_title"@.len());
    assert(catalog()[30].0 == "btn_cancel"@);
    reveal_strlit("logs_title");
    assert("logs_title"@.len() != "build_viewer_title"@.len());
    assert(catalog()[31].0 == "logs_title"@);
    reveal_strlit("logs_dir");
    assert("logs_dir"@.len() != "build_viewer_title"@.len());
    assert(catalog()[32].0 == "logs_dir"@);
    reveal_strlit("col_filename");
    assert("col_filename"@.len() != "build_viewer_title"@.len());
    assert(catalog()[33].0 == "col_filename"@);
    reveal_strlit("col_size");
    assert("col_size"@.len() != "build_viewer_title"@.len());
    assert(catalog()[34].0 == "col_size"@);
    reveal_strlit("btn_tailf");
    assert("btn_tailf"@.len() != "build_viewer_title"@.len());
    assert(catalog()[35].0 == "btn_tailf"@);
    reveal_strlit("logs_no_files");
    assert("logs_no_files"@.len() != "build_viewer_title"@.len());
    assert(catalog()[36].0 == "logs_no_files"@);
    reveal_strlit("btn_back_proj");
    assert("btn_back_proj"@.len() != "build_viewer_title"@.len());
    assert(catalog()[37].0 == "btn_back_proj"@);
    assert(catalog()[38] == ("build_viewer_title"@, "Build Log"@, "构建日志"@));
    lemma_lookup_at(catalog(), "build_viewer_title"@, 38);
}

proof fn lemma_texts_of_log_loading()
    ensures
        catalog_text("log_loading"@, "en"@) == Some("Loading logs..."@),
        catalog_text("log_loading"@, "zh"@) == Some("正在加载日志..."@),
{
    reveal_strlit("log_loading");
    reveal_strlit("en");
    reveal_strlit("zh");
    assert("en"@[0] != "zh"@[0]);
    reveal_strlit("nav_dashboard");
    assert("nav_dashboard"@.len() != "log_loading"@.len());
    assert(catalog()[0].0 == "nav_dashboard"@);
    reveal_strlit("nav_projects");
    assert("nav_projects"@.len() != "log_loading"@.len());
    assert(catalog()[1].0 == "nav_projects"@);
    reveal_strlit("nav_users");
    assert("nav_users"@.len() != "log_loading"@.len());
    assert(catalog()[2].0 == "nav_users"@);
    reveal_strlit("nav_logout");
    assert("nav_logout"@.len() != "log_loading"@.len());
    assert(catalog()[3].0 == "nav_logout"@);
    reveal_strlit("login_title");
    assert("login_title"@[3] != "log_loading"@[3]);
    assert(catalog()[4].0 == "login_title"@);
    reveal_strlit("username");
    assert("username"@.len() != "log_loading"@.len());
    assert(catalog()[5].0 == "username"@);
    reveal_strlit("password");
    assert("password"@.len() != "log_loading"@.len());
    assert(catalog()[6].0 == "password"@);
    reveal_strlit("login_btn");
    assert("login_btn"@.len() != "log_loading"@.len());
    assert(catalog()[7].0 == "login_btn"@);
    reveal_strlit("dash_recent_builds");
    assert("dash_recent_builds"@.len() != "log_loading"@.len());
    assert(catalog()[8].0 == "dash_recent_builds"@);
    reveal_strlit("dash_no_builds");
    assert("dash_no_builds"@.len() != "log_loading"@.len());
    assert(catalog()[9].0 == "dash_no_builds"@);
    reveal_strlit("col_id");
    assert("col_id"@.len() != "log_loading"@.len());
    assert(catalog()[10].0 == "col_id"@);
    reveal_strlit("col_project");
    assert("col_project"@[0] != "log_loading"@[0]);
    assert(catalog()[11].0 == "col_project"@);
    reveal_strlit("col_status");
    assert("col_status"@.len() != "log_loading"@.len());
    assert(catalog()[12].0 == "col_status"@);
    reveal_strlit("col_started_at");
    assert("col_started_at"@.len() != "log_loading"@.len());
    assert(catalog()[13].0 == "col_started_at"@);
    reveal_strlit("col_finished_at");
    assert("col_finished_at"@.len() != "log_loading"@.len());
    assert(catalog()[14].0 == "col_finished_at"@);
    reveal_strlit("col_action");
    assert("col_action"@.len() != "log_loading"@.len());
    assert(catalog()[15].0 == "col_action"@);
    reveal_strlit("btn_view");
    assert("btn_view"@.len() != "log_loading"@.len());
    assert(catalog()[16].0 == "btn_view"@);
    reveal_strlit("proj_add_title");
    assert("proj_add_title"@.len() != "log_loading"@.len());
    assert(catalog()[17].0 == "proj_add_title"@);
    reveal_strlit("proj_name");
    assert("proj_name"@.len() != "log_loading"@.len());
    assert(catalog()[18].0 == "proj_name"@);
    reveal_strlit("proj_script");
    assert("proj_script"@[0] != "log_loading"@[0]);
    assert(catalog()[19].0 == "proj_script"@);
    reveal_strlit("proj_log_dir");
    assert("proj_log_dir"@.len() != "log_loading"@.len());
    assert(catalog()[20].0 == "proj_log_dir"@);
    reveal_strlit("btn_add_proj");
    assert("btn_add_proj"@.len() != "log_loading"@.len());
    assert(catalog()[21].0 == "btn_add_proj"@);
    reveal_strlit("proj_list_title");
    assert("proj_list_title"@.len() != "log_loading"@.len());
    assert(catalog()[22].0 == "proj_list_title"@);
    reveal_strlit("col_webhook_key");
    assert("col_webhook_key"@.len() != "log_loading"@.len());
    assert(catalog()[23].0 == "col_webhook_key"@);
    reveal_strlit("col_webhook_url");
    assert("col_webhook_url"@.len() != "log_loading"@.len());
    assert(catalog()[24].0 == "col_webhook_url"@);
    reveal_strlit("btn_edit");
    assert("btn_edit"@.len() != "log_loading"@.len());
    assert(catalog()[25].0 == "btn_edit"@);
    reveal_strlit("btn_logs");
    assert("btn_logs"@.len() != "log_loading"@.len());
    assert(catalog()[26].0 == "btn_logs"@);
    reveal_strlit("proj_no_projects");
    assert("proj_no_projects"@.len() != "log_loading"@.len());
    assert(catalog()[27].0 == "proj_no_projects"@);
    reveal_strlit("proj_edit_title");
    assert("proj_edit_title"@.len() != "log_loading"@.len());
    assert(catalog()[28].0 == "proj_edit_title"@);
    reveal_strlit("btn_save");
    assert("btn_save"@.len() != "log_loading"@.len());
    assert(catalog()[29].0 == "btn_save"@);
    reveal_strlit("btn_cancel");
    assert("btn_cancel"@.len() != "log_loading"@.len());
    assert(catalog()[30].0 == "btn_cancel"@);
    reveal_strlit("logs_title");
    assert("logs_title"@.len() != "log_loading"@.len());
    assert(catalog()[31].0 == "logs_title"@);
    reveal_strlit("logs_dir");
    assert("logs_dir"@.len() != "log_loading"@.len());
    assert(catalog()[32].0 == "logs_dir"@);
    reveal_strlit("col_filename");
    assert("col_filename"@.len() != "log_loading"@.len());
    assert(catalog()[33].0 == "col_filename"@);
    reveal_strlit("col_size");
    assert("col_size"@.len() != "log_loading"@.len());
    assert(catalog()[34].0 == "col_size"@);
    reveal_strlit("btn_tailf");
    assert("btn_tailf"@.len() != "log_loading"@.len());
    assert(catalog()[35].0 == "btn_tailf"@);
    reveal_strlit("logs_no_files");
    assert("logs_no_files"@.len() != "log_loading"@.len());
    assert(catalog()[36].0 == "logs_no_files"@);
    reveal_strlit("btn_back_proj");
    assert("btn_back_proj"@.len() != "log_loading"@.len());
    assert(catalog()[37].0 == "btn_back_proj"@);
    reveal_strlit("build_viewer_title");
    assert("build_viewer_title"@.len() != "log_loading"@.len());
    assert(catalog()[38].0 == "build_viewer_title"@);
    assert(catalog()[39] == ("log_loading"@, "Loading logs..."@, "正在加载日志..."@));
    lemma_lookup_at(catalog(), "log_loading"@, 39);
}

proof fn lemma_texts_of_btn_back_dash()
    ensures
        catalog_text("btn_back_dash"@, "en"@) == Some("Back to Dashboard"@),
        catalog_text("btn_back_dash"@, "zh"@) == Some("返回控制台"@),
{
    reveal_strlit("btn_back_dash");
    reveal_strlit("en");
    reveal_strlit("zh");
    assert("en"@[0] != "zh"@[0]);
    reveal_strlit("nav_dashboard");
    assert("nav_dashboard"@[0] != "btn_back_dash"@[0]);
    assert(catalog()[0].0 == "nav_dashboard"@);
    reveal_strlit("nav_projects");
    assert("nav_projects"@.len() != "btn_back_dash"@.len());
    assert(catalog()[1].0 == "nav_projects"@);
    reveal_strlit("nav_users");
    assert("nav_users"@.len() != "btn_back_dash"@.len());
    assert(catalog()[2].0 == "nav_users"@);
    reveal_strlit("nav_logout");
    assert("nav_logout"@.len() != "btn_back_dash"@.len());
    assert(catalog()[3].0 == "nav_logout"@);
    reveal_strlit("login_title");
    assert("login_title"@.len() != "btn_back_dash"@.len());
    assert(catalog()[4].0 == "login_title"@);
    reveal_strlit("username");
    assert("username"@.len() != "btn_back_dash"@.len());
    assert(catalog()[5].0 == "username"@);
    reveal_strlit("password");
    assert("password"@.len() != "btn_back_dash"@.len());
    assert(catalog()[6].0 == "password"@);
    reveal_strlit("login_btn");
    assert("login_btn"@.len() != "btn_back_dash"@.len());
    assert(catalog()[7].0 == "login_btn"@);
    reveal_strlit("dash_recent_builds");
    assert("dash_recent_builds"@.len() != "btn_back_dash"@.len());
    assert(catalog()[8].0 == "dash_recent_builds"@);
    reveal_strlit("dash_no_builds");
    assert("dash_no_builds"@.len() != "btn_back_dash"@.len());
    assert(catalog()[9].0 == "dash_no_builds"@);
    reveal_strlit("col_id");
    assert("col_id"@.len() != "btn_back_dash"@.len());
    assert(catalog()[10].0 == "col_id"@);
    reveal_strlit("col_project");
    assert("col_project"@.len() != "btn_back_dash"@.len());
    assert(catalog()[11].0 == "col_project"@);
    reveal_strlit("col_status");
    assert("col_status"@.len() != "btn_back_dash"@.len());
    assert(catalog()[12].0 == "col_status"@);
    reveal_strlit("col_started_at");
    assert("col_started_at"@.len() != "btn_back_dash"@.len());
    assert(catalog()[13].0 == "col_started_at"@);
    reveal_strlit("col_finished_at");
    assert("col_finished_at"@.len() != "btn_back_dash"@.len());
    assert(catalog()[14].0 == "col_finished_at"@);
    reveal_strlit("col_action");
    assert("col_action"@.len() != "btn_back_dash"@.len());
    assert(catalog()[15].0 == "col_action"@);
    reveal_strlit("btn_view");
    assert("btn_view"@.len() != "btn_back_dash"@.len());
    assert(catalog()[16].0 == "btn_view"@);
    reveal_strlit("proj_add_title");
    assert("proj_add_title"@.len() != "btn_back_dash"@.len());
    assert(catalog()[17].0 == "proj_add_title"@);
    reveal_strlit("proj_name");
    assert("proj_name"@.len() != "btn_back_dash"@.len());
    assert(catalog()[18].0 == "proj_name"@);
    reveal_strlit("proj_script");
    assert("proj_script"@.len() != "btn_back_dash"@.len());
    assert(catalog()[19].0 == "proj_script"@);
    reveal_strlit("proj_log_dir");
    assert("proj_log_dir"@.len() != "btn_back_dash"@.len());
    assert(catalog()[20].0 == "proj_log_dir"@);
    reveal_strlit("btn_add_proj");
    assert("btn_add_proj"@.len() != "btn_back_dash"@.len());
    assert(catalog()[21].0 == "btn_add_proj"@);
    reveal_strlit("proj_list_title");
    assert("proj_list_title"@.len() != "btn_back_dash"@.len());
    assert(catalog()[22].0 == "proj_list_title"@);
    reveal_strlit("col_webhook_key");
    assert("col_webhook_key"@.len() != "btn_back_dash"@.len());
    assert(catalog()[23].0 == "col_webhook_key"@);
    reveal_strlit("col_webhook_url");
    assert("col_webhook_url"@.len() != "btn_back_dash"@.len());
    assert(catalog()[24].0 == "col_webhook_url"@);
    reveal_strlit("btn_edit");
    assert("btn_edit"@.len() != "btn_back_dash"@.len());
    assert(catalog()[25].0 == "btn_edit"@);
    reveal_strlit("btn_logs");
    assert("btn_logs"@.len() != "btn_back_dash"@.len());
    assert(catalog()[26].0 == "btn_logs"@);
    reveal_strlit("proj_no_projects");
    assert("proj_no_projects"@.len() != "btn_back_dash"@.len());
    assert(catalog()[27].0 == "proj_no_projects"@);
    reveal_strlit("proj_edit_title");
    assert("proj_edit_title"@.len() != "btn_back_dash"@.len());
    assert(catalog()[28].0 == "proj_edit_title"@);
    reveal_strlit("btn_save");
    assert("btn_save"@.len() != "btn_back_dash"@.len());
    assert(catalog()[29].0 == "btn_save"@);
    reveal_strlit("btn_cancel");
    assert("btn_cancel"@.len() != "btn_back_dash"@.len());
    assert(catalog()[30].0 == "btn_cancel"@);
    reveal_strlit("logs_title");
    assert("logs_title"@.len() != "btn_back_dash"@.len());
    assert(catalog()[31].0 == "logs_title"@);
    reveal_strlit("logs_dir");
    assert("logs_dir"@.len() != "btn_back_dash"@.len());
    assert(catalog()[32].0 == "logs_dir"@);
    reveal_strlit("col_filename");
    assert("col_filename"@.len() != "btn_back_dash"@.len());
    assert(catalog()[33].0 == "col_filename"@);
    reveal_strlit("col_size");
    assert("col_size"@.len() != "btn_back_dash"@.len());
    assert(catalog()[34].0 == "col_size"@);
    reveal_strlit("btn_tailf");
    assert("btn_tailf"@.len() != "btn_back_dash"@.len());
    assert(catalog()[35].0 == "btn_tailf"@);
    reveal_strlit("logs_no_files");
    assert("logs_no_files"@[0] != "btn_back_dash"@[0]);
    assert(catalog()[36].0 == "logs_no_files"@);
    reveal_strlit("btn_back_proj");
    assert("btn_back_proj"@[9] != "btn_back_dash"@[9]);
    assert(catalog()[37].0 == "btn_back_proj"@);
    reveal_strlit("build_viewer_title");
    assert("build_viewer_title"@.len() != "btn_back_dash"@.len());
    assert(catalog()[38].0 == "build_viewer_title"@);
    reveal_strlit("log_loading");
    assert("log_loading"@.len() != "btn_back_dash"@.len());
    assert(catalog()[39].0 == "log_loading"@);
    assert(catalog()[40] == ("btn_back_dash"@, "Back to Dashboard"@, "返回控制台"@));
    lemma_lookup_at(catalog(), "btn_back_dash"@, 40);
}

proof fn lemma_texts_of_btn_back_logs()
    ensures
        catalog_text("btn_back_logs"@, "en"@) == Some("Back to Logs"@),
        catalog_text("btn_back_logs"@, "zh"@) == Some("返回日志列表"@),
{
    reveal_strlit("btn_back_logs");
    reveal_strlit("en");
    reveal_strlit("zh");
    assert("en"@[0] != "zh"@[0]);
    reveal_strlit("nav_dashboard");
    assert("nav_dashboard"@[0] != "btn_back_logs"@[0]);
    assert(catalog()[0].0 == "nav_dashboard"@);
    reveal_strlit("nav_projects");
    assert("nav_projects"@.len() != "btn_back_logs"@.len());
    assert(catalog()[1].0 == "nav_projects"@);
    reveal_strlit("nav_users");
    assert("nav_users"@.len() != "btn_back_logs"@.len());
    assert(catalog()[2].0 == "nav_users"@);
    reveal_strlit("nav_logout");
    assert("nav_logout"@.len() != "btn_back_logs"@.len());
    assert(catalog()[3].0 == "nav_logout"@);
    reveal_strlit("login_title");
    assert("login_title"@.len() != "btn_back_logs"@.len());
    assert(catalog()[4].0 == "login_title"@);
    reveal_strlit("username");
    assert("username"@.len() != "btn_back_logs"@.len());
    assert(catalog()[5].0 == "username"@);
    reveal_strlit("password");
    assert("password"@.len() != "btn_back_logs"@.len());
    assert(catalog()[6].0 == "password"@);
    reveal_strlit("login_btn");
    assert("login_btn"@.len() != "btn_back_logs"@.len());
    assert(catalog()[7].0 == "login_btn"@);
    reveal_strlit("dash_recent_builds");
    assert("dash_recent_builds"@.len() != "btn_back_logs"@.len());
    assert(catalog()[8].0 == "dash_recent_builds"@);
    reveal_strlit("dash_no_builds");
    assert("dash_no_builds"@.len() != "btn_back_logs"@.len());
    assert(catalog()[9].0 == "dash_no_builds"@);
    reveal_strlit("col_id");
    assert("col_id"@.len() != "btn_back_logs"@.len());
    assert(catalog()[10].0 == "col_id"@);
    reveal_strlit("col_project");
    assert("col_project"@.len() != "btn_back_logs"@.len());
    assert(catalog()[11].0 == "col_project"@);
    reveal_strlit("col_status");
    assert("col_status"@.len() != "btn_back_logs"@.len());
    assert(catalog()[12].0 == "col_status"@);
    reveal_strlit("col_started_at");
    assert("col_started_at"@.len() != "btn_back_logs"@.len());
    assert(catalog()[13].0 == "col_started_at"@);
    reveal_strlit("col_finished_at");
    assert("col_finished_at"@.len() != "btn_back_logs"@.len());
    assert(catalog()[14].0 == "col_finished_at"@);
    reveal_strlit("col_action");
    assert("col_action"@.len() != "btn_back_logs"@.len());
    assert(catalog()[15].0 == "col_action"@);
    reveal_strlit("btn_view");
    assert("btn_view"@.len() != "btn_back_logs"@.len());
    assert(catalog()[16].0 == "btn_view"@);
    reveal_strlit("proj_add_title");
    assert("proj_add_title"@.len() != "btn_back_logs"@.len());
    assert(catalog()[17].0 == "proj_add_title"@);
    reveal_strlit("proj_name");
    assert("proj_name"@.len() != "btn_back_logs"@.len());
    assert(catalog()[18].0 == "proj_name"@);
    reveal_strlit("proj_script");
    assert("proj_script"@.len() != "btn_back_logs"@.len());
    assert(catalog()[19].0 == "proj_script"@);
    reveal_strlit("proj_log_dir");
    assert("proj_log_dir"@.len() != "btn_back_logs"@.len());
    assert(catalog()[20].0 == "proj_log_dir"@);
    reveal_strlit("btn_add_proj");
    assert("btn_add_proj"@.len() != "btn_back_logs"@.len());
    assert(catalog()[21].0 == "btn_add_proj"@);
    reveal_strlit("proj_list_title");
    assert("proj_list_title"@.len() != "btn_back_logs"@.len());
    assert(catalog()[22].0 == "proj_list_title"@);
    reveal_strlit("col_webhook_key");
    assert("col_webhook_key"@.len() != "btn_back_logs"@.len());
    assert(catalog()[23].0 == "col_webhook_key"@);
    reveal_strlit("col_webhook_url");
    assert("col_webhook_url"@.len() != "btn_back_logs"@.len());
    assert(catalog()[24].0 == "col_webhook_url"@);
    reveal_strlit("btn_edit");
    assert("btn_edit"@.len() != "btn_back_logs"@.len());
    assert(catalog()[25].0 == "btn_edit"@);
    reveal_strlit("btn_logs");
    assert("btn_logs"@.len() != "btn_back_logs"@.len());
    assert(catalog()[26].0 == "btn_logs"@);
    reveal_strlit("proj_no_projects");
    assert("proj_no_projects"@.len() != "btn_back_logs"@.len());
    assert(catalog()[27].0 == "proj_no_projects"@);
    reveal_strlit("proj_edit_title");
    assert("proj_edit_title"@.len() != "btn_back_logs"@.len());
    assert(catalog()[28].0 == "proj_edit_title"@);
    reveal_strlit("btn_save");
    assert("btn_save"@.len() != "btn_back_logs"@.len());
    assert(catalog()[29].0 == "btn_save"@);
    reveal_strlit("btn_cancel");
    assert("btn_cancel"@.len() != "btn_back_logs"@.len());
    assert(catalog()[30].0 == "btn_cancel"@);
    reveal_strlit("logs_title");
    assert("logs_title"@.len() != "btn_back_logs"@.len());
    assert(catalog()[31].0 == "logs_title"@);
    reveal_strlit("logs_dir");
    assert("logs_dir"@.len() != "btn_back_logs"@.len());
    assert(catalog()[32].0 == "logs_dir"@);
    reveal_strlit("col_filename");
    assert("col_filename"@.len() != "btn_back_logs"@.len());
    assert(catalog()[33].0 == "col_filename"@);
    reveal_strlit("col_size");
    assert("col_size"@.len() != "btn_back_logs"@.len());
    assert(catalog()[34].0 == "col_size"@);
    reveal_strlit("btn_tailf");
    assert("btn_tailf"@.len() != "btn_back_logs"@.len());
    assert(catalog()[35].0 == "btn_tailf"@);
    reveal_strlit("logs_no_files");
    assert("logs_no_files"@[0] != "btn_back_logs"@[0]);
    assert(catalog()[36].0 == "logs_no_files"@);
    reveal_strlit("btn_back_proj");
    assert("btn_back_proj"@[9] != "btn_back_logs"@[9]);
    assert(catalog()[37].0 == "btn_back_proj"@);
    reveal_strlit("build_viewer_title");
    assert("build_viewer_title"@.len() != "btn_back_logs"@.len());
    assert(catalog()[38].0 == "build_viewer_title"@);
    reveal_strlit("log_loading");
    assert("log_loading"@.len() != "btn_back_logs"@.len());
    assert(catalog()[39].0 == "log_loading"@);
    reveal_strlit("btn_back_dash");
    assert("btn_back_dash"@[9] != "btn_back_logs"@[9]);
    assert(catalog()[40].0 == "btn_back_dash"@);
    assert(catalog()[41] == ("btn_back_logs"@, "Back to Logs"@, "返回日志列表"@));
    lemma_lookup_at(catalog(), "btn_back_logs"@, 41);
}

proof fn lemma_texts_of_users_add_title()
    ensures
        catalog_text("users_add_title"@, "en"@) == Some("Add/Edit User"@),
        catalog_text("users_add_title"@, "zh"@) == Some("添加/修改用户"@),
{
    reveal_strlit("users_add_title");
    reveal_strlit("en");
    reveal_strlit("zh");
    assert("en"@[0] != "zh"@[0]);
    reveal_strlit("nav_dashboard");
    assert("nav_dashboard"@.len() != "users_add_title"@.len());
    assert(catalog()[0].0 == "nav_dashboard"@);
    reveal_strlit("nav_projects");
    assert("nav_projects"@.len() != "users_add_title"@.len());
    assert(catalog()[1].0 == "nav_projects"@);
    reveal_strlit("nav_users");
    assert("nav_users"@.len() != "users_add_title"@.len());
    assert(catalog()[2].0 == "nav_users"@);
    reveal_strlit("nav_logout");
    assert("nav_logout"@.len() != "users_add_title"@.len());
    assert(catalog()[3].0 == "nav_logout"@);
    reveal_strlit("login_title");
    assert("login_title"@.len() != "users_add_title"@.len());
    assert(catalog()[4].0 == "login_title"@);
    reveal_strlit("username");
    assert("username"@.len() != "users_add_title"@.len());
    assert(catalog()[5].0 == "username"@);
    reveal_strlit("password");
    assert("password"@.len() != "users_add_title"@.len());
    assert(catalog()[6].0 == "password"@);
    reveal_strlit("login_btn");
    assert("login_btn"@.len() != "users_add_title"@.len());
    assert(catalog()[7].0 == "login_btn"@);
    reveal_strlit("dash_recent_builds");
    assert("dash_recent_builds"@.len() != "users_add_title"@.len());
    assert(catalog()[8].0 == "dash_recent_builds"@);
    reveal_strlit("dash_no_builds");
    assert("dash_no_builds"@.len() != "users_add_title"@.len());
    assert(catalog()[9].0 == "dash_no_builds"@);
    reveal_strlit("col_id");
    assert("col_id"@.len() != "users_add_title"@.len());
    assert(catalog()[10].0 == "col_id"@);
    reveal_strlit("col_project");
    assert("col_project"@.len() != "users_add_title"@.len());
    assert(catalog()[11].0 == "col_project"@);
    reveal_strlit("col_status");
    assert("col_status"@.len() != "users_add_title"@.len());
    assert(catalog()[12].0 == "col_status"@);
    reveal_strlit("col_started_at");
    assert("col_started_at"@.len() != "users_add_title"@.len());
    assert(catalog()[13].0 == "col_started_at"@);
    reveal_strlit("col_finished_at");
    assert("col_finished_at"@[0] != "users_add_title"@[0]);
    assert(catalog()[14].0 == "col_finished_at"@);
    reveal_strlit("col_action");
    assert("col_action"@.len() != "users_add_title"@.len());
    assert(catalog()[15].0 == "col_action"@);
    reveal_strlit("btn_view");
    assert("btn_view"@.len() != "users_add_title"@.len());
    assert(catalog()[16].0 == "btn_view"@);
    reveal_strlit("proj_add_title");
    assert("proj_add_title"@.len() != "users_add_title"@.len());
    assert(catalog()[17].0 == "proj_add_title"@);
    reveal_strlit("proj_name");
    assert("proj_name"@.len() != "users_add_title"@.len());
    assert(catalog()[18].0 == "proj_name"@);
    reveal_strlit("proj_script");
    assert("proj_script"@.len() != "users_add_title"@.len());
    assert(catalog()[19].0 == "proj_script"@);
    reveal_strlit("proj_log_dir");
    assert("proj_log_dir"@.len() != "users_add_title"@.len());
    assert(catalog()[20].0 == "proj_log_dir"@);
    reveal_strlit("btn_add_proj");
    assert("btn_add_proj"@.len() != "users_add_title"@.len());
    assert(catalog()[21].0 == "btn_add_proj"@);
    reveal_strlit("proj_list_title");
    assert("proj_list_title"@[0] != "users_add_title"@[0]);
    assert(catalog()[22].0 == "proj_list_title"@);
    reveal_strlit("col_webhook_key");
    assert("col_webhook_key"@[0] != "users_add_title"@[0]);
    assert(catalog()[23].0 == "col_webhook_key"@);
    reveal_strlit("col_webhook_url");
    assert("col_webhook_url"@[0] != "users_add_title"@[0]);
    assert(catalog()[24].0 == "col_webhook_url"@);
    reveal_strlit("btn_edit");
    assert("btn_edit"@.len() != "users_add_title"@.len());
    assert(catalog()[25].0 == "btn_edit"@);
    reveal_strlit("btn_logs");
    assert("btn_logs"@.len() != "users_add_title"@.len());
    assert(catalog()[26].0 == "btn_logs"@);
    reveal_strlit("proj_no_projects");
    assert("proj_no_projects"@.len() != "users_add_title"@.len());
    assert(catalog()[27].0 == "proj_no_projects"@);
    reveal_strlit("proj_edit_title");
    assert("proj_edit_title"@[0] != "users_add_title"@[0]);
    assert(catalog()[28].0 == "proj_edit_title"@);
    reveal_strlit("btn_save");
    assert("btn_save"@.len() != "users_add_title"@.len());
    assert(catalog()[29].0 == "btn_save"@);
    reveal_strlit("btn_cancel");
    assert("btn_cancel"@.len() != "users_add_title"@.len());
    assert(catalog()[30].0 == "btn_cancel"@);
    reveal_strlit("logs_title");
    assert("logs_title"@.len() != "users_add_title"@.len());
    assert(catalog()[31].0 == "logs_title"@);
    reveal_strlit("logs_dir");
    assert("logs_dir"@.len() != "users_add_title"@.len());
    assert(catalog()[32].0 == "logs_dir"@);
    reveal_strlit("col_filename");
    assert("col_filename"@.len() != "users_add_title"@.len());
    assert(catalog()[33].0 == "col_filename"@);
    reveal_strlit("col_size");
    assert("col_size"@.len() != "users_add_title"@.len());
    assert(catalog()[34].0 == "col_size"@);
    reveal_strlit("btn_tailf");
    assert("btn_tailf"@.len() != "users_add_title"@.len());
    assert(catalog()[35].0 == "btn_tailf"@);
    reveal_strlit("logs_no_files");
    assert("logs_no_files"@.len() != "users_add_title"@.len());
    assert(catalog()[36].0 == "logs_no_files"@);
    reveal_strlit("btn_back_proj");
    assert("btn_back_proj"@.len() != "users_add_title"@.len());
    assert(catalog()[37].0 == "btn_back_proj"@);
    reveal_strlit("build_viewer_title");
    assert("build_viewer_title"@.len() != "users_add_title"@.len());
    assert(catalog()[38].0 == "build_viewer_title"@);
    reveal_strlit("log_loading");
    assert("log_loading"@.len() != "users_add_title"@.len());
    assert(catalog()[39].0 == "log_loading"@);
    reveal_strlit("btn_back_dash");
    assert("btn_back_dash"@.len() != "users_add_title"@.len());
    assert(catalog()[40].0 == "btn_back_dash"@);
    reveal_strlit("btn_back_logs");
    assert("btn_back_logs"@.len() != "users_add_title"@.len());
    assert(catalog()[41].0 == "btn_back_logs"@);
    assert(catalog()[42] == ("users_add_title"@, "Add/Edit User"@, "添加/修改用户"@));
    lemma_lookup_at(catalog(), "users_add_title"@, 42);
}

proof fn lemma_texts_of_users_is_admin()
    ensures
        catalog_text("users_is_admin"@, "en"@) == Some("Is Admin"@),
        catalog_text("users_is_admin"@, "zh"@) == Some("是否管理员"@),
{
    reveal_strlit("users_is_admin");
    reveal_strlit("en");
    reveal_strlit("zh");
    assert("en"@[0] != "zh"@[0]);
    reveal_strlit("nav_dashboard");
    assert("nav_dashboard"@.len() != "users_is_admin"@.len());
    assert(catalog()[0].0 == "nav_dashboard"@);
    reveal_strlit("nav_projects");
    assert("nav_projects"@.len() != "users_is_admin"@.len());
    assert(catalog()[1].0 == "nav_projects"@);
    reveal_strlit("nav_users");
    assert("nav_users"@.len() != "users_is_admin"@.len());
    assert(catalog()[2].0 == "nav_users"@);
    reveal_strlit("nav_logout");
    assert("nav_logout"@.len() != "users_is_admin"@.len());
    assert(catalog()[3].0 == "nav_logout"@);
    reveal_strlit("login_title");
    assert("login_title"@.len() != "users_is_admin"@.len());
    assert(catalog()[4].0 == "login_title"@);
    reveal_strlit("username");
    assert("username"@.len() != "users_is_admin"@.len());
    assert(catalog()[5].0 == "username"@);
    reveal_strlit("password");
    assert("password"@.len() != "users_is_admin"@.len());
    assert(catalog()[6].0 == "password"@);
    reveal_strlit("login_btn");
    assert("login_btn"@.len() != "users_is_admin"@.len());
    assert(catalog()[7].0 == "login_btn"@);
    reveal_strlit("dash_recent_builds");
    assert("dash_recent_builds"@.len() != "users_is_admin"@.len());
    assert(catalog()[8].0 == "dash_recent_builds"@);
    reveal_strlit("dash_no_builds");
    assert("dash_no_builds"@[0] != "users_is_admin"@[0]);
    assert(catalog()[9].0 == "dash_no_builds"@);
    reveal_strlit("col_id");
    assert("col_id"@.len() != "users_is_admin"@.len());
    assert(catalog()[10].0 == "col_id"@);
    reveal_strlit("col_project");
    assert("col_project"@.len() != "users_is_admin"@.len());
    assert(catalog()[11].0 == "col_project"@);
    reveal_strlit("col_status");
    assert("col_status"@.len() != "users_is_admin"@.len());
    assert(catalog()[12].0 == "col_status"@);
    reveal_strlit("col_started_at");
    assert("col_started_at"@[0] != "users_is_admin"@[0]);
    assert(catalog()[13].0 == "col_started_at"@);
    reveal_strlit("col_finished_at");
    assert("col_finished_at"@.len() != "users_is_admin"@.len());
    assert(catalog()[14].0 == "col_finished_at"@);
    reveal_strlit("col_action");
    assert("col_action"@.len() != "users_is_admin"@.len());
    assert(catalog()[15].0 == "col_action"@);
    reveal_strlit("btn_view");
    assert("btn_view"@.len() != "users_is_admin"@.len());
    assert(catalog()[16].0 == "btn_view"@);
    reveal_strlit("proj_add_title");
    assert("proj_add_title"@[0] != "users_is_admin"@[0]);
    assert(catalog()[17].0 == "proj_add_title"@);
    reveal_strlit("proj_name");
    assert("proj_name"@.len() != "users_is_admin"@.len());
    assert(catalog()[18].0 == "proj_name"@);
    reveal_strlit("proj_script");
    assert("proj_script"@.len() != "users_is_admin"@.len());
    assert(catalog()[19].0 == "proj_script"@);
    reveal_strlit("proj_log_dir");
    assert("proj_log_dir"@.len() != "users_is_admin"@.len());
    assert(catalog()[20].0 == "proj_log_dir"@);
    reveal_strlit("btn_add_proj");
    assert("btn_add_proj"@.len() != "users_is_admin"@.len());
    assert(catalog()[21].0 == "btn_add_proj"@);
    reveal_strlit("proj_list_title");
    assert("proj_list_title"@.len() != "users_is_admin"@.len());
    assert(catalog()[22].0 == "proj_list_title"@);
    reveal_strlit("col_webhook_key");
    assert("col_webhook_key"@.len() != "users_is_admin"@.len());
    assert(catalog()[23].0 == "col_webhook_key"@);
    reveal_strlit("col_webhook_url");
    assert("col_webhook_url"@.len() != "users_is_admin"@.len());
    assert(catalog()[24].0 == "col_webhook_url"@);
    reveal_strlit("btn_edit");
    assert("btn_edit"@.len() != "users_is_admin"@.len());
    assert(catalog()[25].0 == "btn_edit"@);
    reveal_strlit("btn_logs");
    assert("btn_logs"@.len() != "users_is_admin"@.len());
    assert(catalog()[26].0 == "btn_logs"@);
    reveal_strlit("proj_no_projects");
    assert("proj_no_projects"@.len() != "users_is_admin"@.len());
    assert(catalog()[27].0 == "proj_no_projects"@);
    reveal_strlit("proj_edit_title");
    assert("proj_edit_title"@.len() != "users_is_admin"@.len());
    assert(catalog()[28].0 == "proj_edit_title"@);
    reveal_strlit("btn_save");
    assert("btn_save"@.len() != "users_is_admin"@.len());
    assert(catalog()[29].0 == "btn_save"@);
    reveal_strlit("btn_cancel");
    assert("btn_cancel"@.len() != "users_is_admin"@.len());
    assert(catalog()[30].0 == "btn_cancel"@);
    reveal_strlit("logs_title");
    assert("logs_title"@.len() != "users_is_admin"@.len());
    assert(catalog()[31].0 == "logs_title"@);
    reveal_strlit("logs_dir");
    assert("logs_dir"@.len() != "users_is_admin"@.len());
    assert(catalog()[32].0 == "logs_dir"@);
    reveal_strlit("col_filename");
    assert("col_filename"@.len() != "users_is_admin"@.len());
    assert(catalog()[33].0 == "col_filename"@);
    reveal_strlit("col_size");
    assert("col_size"@.len() != "users_is_admin"@.len());
    assert(catalog()[34].0 == "col_size"@);
    reveal_strlit("btn_tailf");
    assert("btn_tailf"@.len() != "users_is_admin"@.len());
    assert(catalog()[35].0 == "btn_tailf"@);
    reveal_strlit("logs_no_files");
    assert("logs_no_files"@.len() != "users_is_admin"@.len());
    assert(catalog()[36].0 == "logs_no_files"@);
    reveal_strlit("btn_back_proj");
    assert("btn_back_proj"@.len() != "users_is_admin"@.len());
    assert(catalog()[37].0 == "btn_back_proj"@);
    reveal_strlit("build_viewer_title");
    assert("build_viewer_title"@.len() != "users_is_admin"@.len());
    assert(catalog()[38].0 == "build_viewer_title"@);
    reveal_strlit("log_loading");
    assert("log_loading"@.len() != "users_is_admin"@.len());
    assert(catalog()[39].0 == "log_loading"@);
    reveal_strlit("btn_back_dash");
    assert("btn_back_dash"@.len() != "users_is_admin"@.len());
    assert(catalog()[40].0 == "btn_back_dash"@);
    reveal_strlit("btn_back_logs");
    assert("btn_back_logs"@.len() != "users_is_admin"@.len());
    assert(catalog()[41].0 == "btn_back_logs"@);
    reveal_strlit("users_add_title");
    assert("users_add_title"@.len() != "users_is_admin"@.len());
    assert(catalog()[42].0 == "users_add_title"@);
    assert(catalog()[43] == ("users_is_admin"@, "Is Admin"@, "是否管理员"@));
    lemma_lookup_at(catalog(), "users_is_admin"@, 43);
}

proof fn lemma_texts_of_btn_save_user()
    ensures
        catalog_text("btn_save_user"@, "en"@) == Some("Save User"@),
        catalog_text("btn_save_user"@, "zh"@) == Some("保存用户"@),
{
    reveal_strlit("btn_save_user");
    reveal_strlit("en");
    reveal_strlit("zh");
    assert("en"@[0] != "zh"@[0]);
    reveal_strlit("nav_dashboard");
    assert("nav_dashboard"@[0] != "btn_save_user"@[0]);
    assert(catalog()[0].0 == "nav_dashboard"@);
    reveal_strlit("nav_projects");
    assert("nav_projects"@.len() != "btn_save_user"@.len());
    assert(catalog()[1].0 == "nav_projects"@);
    reveal_strlit("nav_users");
    assert("nav_users"@.len() != "btn_save_user"@.len());
    assert(catalog()[2].0 == "nav_users"@);
    reveal_strlit("nav_logout");
    assert("nav_logout"@.len() != "btn_save_user"@.len());
    assert(catalog()[3].0 == "nav_logout"@);
    reveal_strlit("login_title");
    assert("login_title"@.len() != "btn_save_user"@.len());
    assert(catalog()[4].0 == "login_title"@);
    reveal_strlit("username");
    assert("username"@.len() != "btn_save_user"@.len());
    assert(catalog()[5].0 == "username"@);
    reveal_strlit("password");
    assert("password"@.len() != "btn_save_user"@.len());
    assert(catalog()[6].0 == "password"@);
    reveal_strlit("login_btn");
    assert("login_btn"@.len() != "btn_save_user"@.len());
    assert(catalog()[7].0 == "login_btn"@);
    reveal_strlit("dash_recent_builds");
    assert("dash_recent_builds"@.len() != "btn_save_user"@.len());
    assert(catalog()[8].0 == "dash_recent_builds"@);
    reveal_strlit("dash_no_builds");
    assert("dash_no_builds"@.len() != "btn_save_user"@.len());
    assert(catalog()[9].0 == "dash_no_builds"@);
    reveal_strlit("col_id");
    assert("col_id"@.len() != "btn_save_user"@.len());
    assert(catalog()[10].0 == "col_id"@);
    reveal_strlit("col_project");
    assert("col_project"@.len() != "btn_save_user"@.len());
    assert(catalog()[11].0 == "col_project"@);
    reveal_strlit("col_status");
    assert("col_status"@.len() != "btn_save_user"@.len());
    assert(catalog()[12].0 == "col_status"@);
    reveal_strlit("col_started_at");
    assert("col_started_at"@.len() != "btn_save_user"@.len());
    assert(catalog()[13].0 == "col_started_at"@);
    reveal_strlit("col_finished_at");
    assert("col_finished_at"@.len() != "btn_save_user"@.len());
    assert(catalog()[14].0 == "col_finished_at"@);
    reveal_strlit("col_action");
    assert("col_action"@.len() != "btn_save_user"@.len());
    assert(catalog()[15].0 == "col_action"@);
    reveal_strlit("btn_view");
    assert("btn_view"@.len() != "btn_save_user"@.len());
    assert(catalog()[16].0 == "btn_view"@);
    reveal_strlit("proj_add_title");
    assert("proj_add_title"@.len() != "btn_save_user"@.len());
    assert(catalog()[17].0 == "proj_add_title"@);
    reveal_strlit("proj_name");
    assert("proj_name"@.len() != "btn_save_user"@.len());
    assert(catalog()[18].0 == "proj_name"@);
    reveal_strlit("proj_script");
    assert("proj_script"@.len() != "btn_save_user"@.len());
    assert(catalog()[19].0 == "proj_script"@);
    reveal_strlit("proj_log_dir");
    assert("proj_log_dir"@.len() != "btn_save_user"@.len());
    assert(catalog()[20].0 == "proj_log_dir"@);
    reveal_strlit("btn_add_proj");
    assert("btn_add_proj"@.len() != "btn_save_user"@.len());
    assert(catalog()[21].0 == "btn_add_proj"@);
    reveal_strlit("proj_list_title");
    assert("proj_list_title"@.len() != "btn_save_user"@.len());
    assert(catalog()[22].0 == "proj_list_title"@);
    reveal_strlit("col_webhook_key");
    assert("col_webhook_key"@.len() != "btn_save_user"@.len());
    assert(catalog()[23].0 == "col_webhook_key"@);
    reveal_strlit("col_webhook_url");
    assert("col_webhook_url"@.len() != "btn_save_user"@.len());
    assert(catalog()[24].0 == "col_webhook_url"@);
    reveal_strlit("btn_edit");
    assert("btn_edit"@.len() != "btn_save_user"@.len());
    assert(catalog()[25].0 == "btn_edit"@);
    reveal_strlit("btn_logs");
    assert("btn_logs"@.len() != "btn_save_user"@.len());
    assert(catalog()[26].0 == "btn_logs"@);
    reveal_strlit("proj_no_projects");
    assert("proj_no_projects"@.len() != "btn_save_user"@.len());
    assert(catalog()[27].0 == "proj_no_projects"@);
    reveal_strlit("proj_edit_title");
    assert("proj_edit_title"@.len() != "btn_save_user"@.len());
    assert(catalog()[28].0 == "proj_edit_title"@);
    reveal_strlit("btn_save");
    assert("btn_save"@.len() != "btn_save_user"@.len());
    assert(catalog()[29].0 == "btn_save"@);
    reveal_strlit("btn_cancel");
    assert("btn_cancel"@.len() != "btn_save_user"@.len());
    assert(catalog()[30].0 == "btn_cancel"@);
    reveal_strlit("logs_title");
    assert("logs_title"@.len() != "btn_save_user"@.len());
    assert(catalog()[31].0 == "logs_title"@);
    reveal_strlit("logs_dir");
    assert("logs_dir"@.len() != "btn_save_user"@.len());
    assert(catalog()[32].0 == "logs_dir"@);
    reveal_strlit("col_filename");
    assert("col_filename"@.len() != "btn_save_user"@.len());
    assert(catalog()[33].0 == "col_filename"@);
    reveal_strlit("col_size");
    assert("col_size"@.len() != "btn_save_user"@.len());
    assert(catalog()[34].0 == "col_size"@);
    reveal_strlit("btn_tailf");
    assert("btn_tailf"@.len() != "btn_save_user"@.len());
    assert(catalog()[35].0 == "btn_tailf"@);
    reveal_strlit("logs_no_files");
    assert("logs_no_files"@[0] != "btn_save_user"@[0]);
    assert(catalog()[36].0 == "logs_no_files"@);
    reveal_strlit("btn_back_proj");
    assert("btn_back_proj"@[4] != "btn_save_user"@[4]);
    assert(catalog()[37].0 == "btn_back_proj"@);
    reveal_strlit("build_viewer_title");
    assert("build_viewer_title"@.len() != "btn_save_user"@.len());
    assert(catalog()[38].0 == "build_viewer_title"@);
    reveal_strlit("log_loading");
    assert("log_loading"@.len() != "btn_save_user"@.len());
    assert(catalog()[39].0 == "log_loading"@);
    reveal_strlit("btn_back_dash");
    assert("btn_back_dash"@[4] != "btn_save_user"@[4]);
    assert(catalog()[40].0 == "btn_back_dash"@);
    reveal_strlit("btn_back_logs");
    assert("btn_back_logs"@[4] != "btn_save_user"@[4]);
    assert(catalog()[41].0 == "btn_back_logs"@);
    reveal_strlit("users_add_title");
    assert("users_add_title"@.len() != "btn_save_user"@.len());
    assert(catalog()[42].0 == "users_add_title"@);
    reveal_strlit("users_is_admin");
    assert("users_is_admin"@.len() != "btn_save_user"@.len());
    assert(catalog()[43].0 == "users_is_admin"@);
    assert(catalog()[44] == ("btn_save_user"@, "Save User"@, "保存用户"@));
    lemma_lookup_at(catalog(), "btn_save_user"@, 44);
}

proof fn lemma_texts_of_users_list_title()
    ensures
        catalog_text("users_list_title"@, "en"@) == Some("Users"@),
        catalog_text("users_list_title"@, "zh"@) == Some("用户列表"@),
{
    reveal_strlit("users_list_title");
    reveal_strlit("en");
    reveal_strlit("zh");
    assert("en"@[0] != "zh"@[0]);
    reveal_strlit("nav_dashboard");
    assert("nav_dashboard"@.len() != "users_list_title"@.len());
    assert(catalog()[0].0 == "nav_dashboard"@);
    reveal_strlit("nav_projects");
    assert("nav_projects"@.len() != "users_list_title"@.len());
    assert(catalog()[1].0 == "nav_projects"@);
    reveal_strlit("nav_users");
    assert("nav_users"@.len() != "users_list_title"@.len());
    assert(catalog()[2].0 == "nav_users"@);
    reveal_strlit("nav_logout");
    assert("nav_logout"@.len() != "users_list_title"@.len());
    assert(catalog()[3].0 == "nav_logout"@);
    reveal_strlit("login_title");
    assert("login_title"@.len() != "users_list_title"@.len());
    assert(catalog()[4].0 == "login_title"@);
    reveal_strlit("username");
    assert("username"@.len() != "users_list_title"@.len());
    assert(catalog()[5].0 == "username"@);
    reveal_strlit("password");
    assert("password"@.len() != "users_list_title"@.len());
    assert(catalog()[6].0 == "password"@);
    reveal_strlit("login_btn");
    assert("login_btn"@.len() != "users_list_title"@.len());
    assert(catalog()[7].0 == "login_btn"@);
    reveal_strlit("dash_recent_builds");
    assert("dash_recent_builds"@.len() != "users_list_title"@.len());
    assert(catalog()[8].0 == "dash_recent_builds"@);
    reveal_strlit("dash_no_builds");
    assert("dash_no_builds"@.len() != "users_list_title"@.len());
    assert(catalog()[9].0 == "dash_no_builds"@);
    reveal_strlit("col_id");
    assert("col_id"@.len() != "users_list_title"@.len());
    assert(catalog()[10].0 == "col_id"@);
    reveal_strlit("col_project");
    assert("col_project"@.len() != "users_list_title"@.len());
    assert(catalog()[11].0 == "col_project"@);
    reveal_strlit("col_status");
    assert("col_status"@.len() != "users_list_title"@.len());
    assert(catalog()[12].0 == "col_status"@);
    reveal_strlit("col_started_at");
    assert("col_started_at"@.len() != "users_list_title"@.len());
    assert(catalog()[13].0 == "col_started_at"@);
    reveal_strlit("col_finished_at");
    assert("col_finished_at"@.len() != "users_list_title"@.len());
    assert(catalog()[14].0 == "col_finished_at"@);
    reveal_strlit("col_action");
    assert("col_action"@.len() != "users_list_title"@.len());
    assert(catalog()[15].0 == "col_action"@);
    reveal_strlit("btn_view");
    assert("btn_view"@.len() != "users_list_title"@.len());
    assert(catalog()[16].0 == "btn_view"@);
    reveal_strlit("proj_add_title");
    assert("proj_add_title"@.len() != "users_list_title"@.len());
    assert(catalog()[17].0 == "proj_add_title"@);
    reveal_strlit("proj_name");
    assert("proj_name"@.len() != "users_list_title"@.len());
    assert(catalog()[18].0 == "proj_name"@);
    reveal_strlit("proj_script");
    assert("proj_script"@.len() != "users_list_title"@.len());
    assert(catalog()[19].0 == "proj_script"@);
    reveal_strlit("proj_log_dir");
    assert("proj_log_dir"@.len() != "users_list_title"@.len());
    assert(catalog()[20].0 == "proj_log_dir"@);
    reveal_strlit("btn_add_proj");
    assert("btn_add_proj"@.len() != "users_list_title"@.len());
    assert(catalog()[21].0 == "btn_add_proj"@);
    reveal_strlit("proj_list_title");
    assert("proj_list_title"@.len() != "users_list_title"@.len());
    assert(catalog()[22].0 == "proj_list_title"@);
    reveal_strlit("col_webhook_key");
    assert("col_webhook_key"@.len() != "users_list_title"@.len());
    assert(catalog()[23].0 == "col_webhook_key"@);
    reveal_strlit("col_webhook_url");
    assert("col_webhook_url"@.len() != "users_list_title"@.len());
    assert(catalog()[24].0 == "col_webhook_url"@);
    reveal_strlit("btn_edit");
    assert("btn_edit"@.len() != "users_list_title"@.len());
    assert(catalog()[25].0 == "btn_edit"@);
    reveal_strlit("btn_logs");
    assert("btn_logs"@.len() != "users_list_title"@.len());
    assert(catalog()[26].0 == "btn_logs"@);
    reveal_strlit("proj_no_projects");
    assert("proj_no_projects"@[0] != "users_list_title"@[0]);
    assert(catalog()[27].0 == "proj_no_projects"@);
    reveal_strlit("proj_edit_title");
    assert("proj_edit_title"@.len() != "users_list_title"@.len());
    assert(catalog()[28].0 == "proj_edit_title"@);
    reveal_strlit("btn_save");
    assert("btn_save"@.len() != "users_list_title"@.len());
    assert(catalog()[29].0 == "btn_save"@);
    reveal_strlit("btn_cancel");
    assert("btn_cancel"@.len() != "users_list_title"@.len());
    assert(catalog()[30].0 == "btn_cancel"@);
    reveal_strlit("logs_title");
    assert("logs_title"@.len() != "users_list_title"@.len());
    assert(catalog()[31].0 == "logs_title"@);
    reveal_strlit("logs_dir");
    assert("logs_dir"@.len() != "users_list_title"@.len());
    assert(catalog()[32].0 == "logs_dir"@);
    reveal_strlit("col_filename");
    assert("col_filename"@.len() != "users_list_title"@.len());
    assert(catalog()[33].0 == "col_filename"@);
    reveal_strlit("col_size");
    assert("col_size"@.len() != "users_list_title"@.len());
    assert(catalog()[34].0 == "col_size"@);
    reveal_strlit("btn_tailf");
    assert("btn_tailf"@.len() != "users_list_title"@.len());
    assert(catalog()[35].0 == "btn_tailf"@);
    reveal_strlit("logs_no_files");
    assert("logs_no_files"@.len() != "users_list_title"@.len());
    assert(catalog()[36].0 == "logs_no_files"@);
    reveal_strlit("btn_back_proj");
    assert("btn_back_proj"@.len() != "users_list_title"@.len());
    assert(catalog()[37].0 == "btn_back_proj"@);
    reveal_strlit("build_viewer_title");
    assert("build_viewer_title"@.len() != "users_list_title"@.len());
    assert(catalog()[38].0 == "build_viewer_title"@);
    reveal_strlit("log_loading");
    assert("log_loading"@.len() != "users_list_title"@.len());
    assert(catalog()[39].0 == "log_loading"@);
    reveal_strlit("btn_back_dash");
    assert("btn_back_dash"@.len() != "users_list_title"@.len());
    assert(catalog()[40].0 == "btn_back_dash"@);
    reveal_strlit("btn_back_logs");
    assert("btn_back_logs"@.len() != "users_list_title"@.len());
    assert(catalog()[41].0 == "btn_back_logs"@);
    reveal_strlit("users_add_title");
    assert("users_add_title"@.len() != "users_list_title"@.len());
    assert(catalog()[42].0 == "users_add_title"@);
    reveal_strlit("users_is_admin");
    assert("users_is_admin"@.len() != "users_list_title"@.len());
    assert(catalog()[43].0 == "users_is_admin"@);
    reveal_strlit("btn_save_user");
    assert("btn_save_user"@.len() != "users_list_title"@.len());
    assert(catalog()[44].0 == "btn_save_user"@);
    assert(catalog()[45] == ("users_list_title"@, "Users"@, "用户列表"@));
    lemma_lookup_at(catalog(), "users_list_title"@, 45);
}

proof fn lemma_texts_of_users_no_users()
    ensures
        catalog_text("users_no_users"@, "en"@) == Some("No users found."@),
        catalog_text("users_no_users"@, "zh"@) == Some("暂无用户。"@),
{
    reveal_strlit("users_no_users");
    reveal_strlit("en");
    reveal_strlit("zh");
    assert("en"@[0] != "zh"@[0]);
    reveal_strlit("nav_dashboard");
    assert("nav_dashboard"@.len() != "users_no_users"@.len());
    assert(catalog()[0].0 == "nav_dashboard"@);
    reveal_strlit("nav_projects");
    assert("nav_projects"@.len() != "users_no_users"@.len());
    assert(catalog()[1].0 == "nav_projects"@);
    reveal_strlit("nav_users");
    assert("nav_users"@.len() != "users_no_users"@.len());
    assert(catalog()[2].0 == "nav_users"@);
    reveal_strlit("nav_logout");
    assert("nav_logout"@.len() != "users_no_users"@.len());
    assert(catalog()[3].0 == "nav_logout"@);
    reveal_strlit("login_title");
    assert("login_title"@.len() != "users_no_users"@.len());
    assert(catalog()[4].0 == "login_title"@);
    reveal_strlit("username");
    assert("username"@.len() != "users_no_users"@.len());
    assert(catalog()[5].0 == "username"@);
    reveal_strlit("password");
    assert("password"@.len() != "users_no_users"@.len());
    assert(catalog()[6].0 == "password"@);
    reveal_strlit("login_btn");
    assert("login_btn"@.len() != "users_no_users"@.len());
    assert(catalog()[7].0 == "login_btn"@);
    reveal_strlit("dash_recent_builds");
    assert("dash_recent_builds"@.len() != "users_no_users"@.len());
    assert(catalog()[8].0 == "dash_recent_builds"@);
    reveal_strlit("dash_no_builds");
    assert("dash_no_builds"@[0] != "users_no_users"@[0]);
    assert(catalog()[9].0 == "dash_no_builds"@);
    reveal_strlit("col_id");
    assert("col_id"@.len() != "users_no_users"@.len());
    assert(catalog()[10].0 == "col_id"@);
    reveal_strlit("col_project");
    assert("col_project"@.len() != "users_no_users"@.len());
    assert(catalog()[11].0 == "col_project"@);
    reveal_strlit("col_status");
    assert("col_status"@.len() != "users_no_users"@.len());
    assert(catalog()[12].0 == "col_status"@);
    reveal_strlit("col_started_at");
    assert("col_started_at"@[0] != "users_no_users"@[0]);
    assert(catalog()[13].0 == "col_started_at"@);
    reveal_strlit("col_finished_at");
    assert("col_finished_at"@.len() != "users_no_users"@.len());
    assert(catalog()[14].0 == "col_finished_at"@);
    reveal_strlit("col_action");
    assert("col_action"@.len() != "users_no_users"@.len());
    assert(catalog()[15].0 == "col_action"@);
    reveal_strlit("btn_view");
    assert("btn_view"@.len() != "users_no_users"@.len());
    assert(catalog()[16].0 == "btn_view"@);
    reveal_strlit("proj_add_title");
    assert("proj_add_title"@[0] != "users_no_users"@[0]);
    assert(catalog()[17].0 == "proj_add_title"@);
    reveal_strlit("proj_name");
    assert("proj_name"@.len() != "users_no_users"@.len());
    assert(catalog()[18].0 == "proj_name"@);
    reveal_strlit("proj_script");
    assert("proj_script"@.len() != "users_no_users"@.len());
    assert(catalog()[19].0 == "proj_script"@);
    reveal_strlit("proj_log_dir");
    assert("proj_log_dir"@.len() != "users_no_users"@.len());
    assert(catalog()[20].0 == "proj_log_dir"@);
    reveal_strlit("btn_add_proj");
    assert("btn_add_proj"@.len() != "users_no_users"@.len());
    assert(catalog()[21].0 == "btn_add_proj"@);
    reveal_strlit("proj_list_title");
    assert("proj_list_title"@.len() != "users_no_users"@.len());
    assert(catalog()[22].0 == "proj_list_title"@);
    reveal_strlit("col_webhook_key");
    assert("col_webhook_key"@.len() != "users_no_users"@.len());
    assert(catalog()[23].0 == "col_webhook_key"@);
    reveal_strlit("col_webhook_url");
    assert("col_webhook_url"@.len() != "users_no_users"@.len());
    assert(catalog()[24].0 == "col_webhook_url"@);
    reveal_strlit("btn_edit");
    assert("btn_edit"@.len() != "users_no_users"@.len());
    assert(catalog()[25].0 == "btn_edit"@);
    reveal_strlit("btn_logs");
    assert("btn_logs"@.len() != "users_no_users"@.len());
    assert(catalog()[26].0 == "btn_logs"@);
    reveal_strlit("proj_no_projects");
    assert("proj_no_projects"@.len() != "users_no_users"@.len());
    assert(catalog()[27].0 == "proj_no_projects"@);
    reveal_strlit("proj_edit_title");
    assert("proj_edit_title"@.len() != "users_no_users"@.len());
    assert(catalog()[28].0 == "proj_edit_title"@);
    reveal_strlit("btn_save");
    assert("btn_save"@.len() != "users_no_users"@.len());
    assert(catalog()[29].0 == "btn_save"@);
    reveal_strlit("btn_cancel");
    assert("btn_cancel"@.len() != "users_no_users"@.len());
    assert(catalog()[30].0 == "btn_cancel"@);
    reveal_strlit("logs_title");
    assert("logs_title"@.len() != "users_no_users"@.len());
    assert(catalog()[31].0 == "logs_title"@);
    reveal_strlit("logs_dir");
    assert("logs_dir"@.len() != "users_no_users"@.len());
    assert(catalog()[32].0 == "logs_dir"@);
    reveal_strlit("col_filename");
    assert("col_filename"@.len() != "users_no_users"@.len());
    assert(catalog()[33].0 == "col_filename"@);
    reveal_strlit("col_size");
    assert("col_size"@.len() != "users_no_users"@.len());
    assert(catalog()[34].0 == "col_size"@);
    reveal_strlit("btn_tailf");
    assert("btn_tailf"@.len() != "users_no_users"@.len());
    assert(catalog()[35].0 == "btn_tailf"@);
    reveal_strlit("logs_no_files");
    assert("logs_no_files"@.len() != "users_no_users"@.len());
    assert(catalog()[36].0 == "logs_no_files"@);
    reveal_strlit("btn_back_proj");
    assert("btn_back_proj"@.len() != "users_no_users"@.len());
    assert(catalog()[37].0 == "btn_back_proj"@);
    reveal_strlit("build_viewer_title");
    assert("build_viewer_title"@.len() != "users_no_users"@.len());
    assert(catalog()[38].0 == "build_viewer_title"@);
    reveal_strlit("log_loading");
    assert("log_loading"@.len() != "users_no_users"@.len());
    assert(catalog()[39].0 == "log_loading"@);
    reveal_strlit("btn_back_dash");
    assert("btn_back_dash"@.len() != "users_no_users"@.len());
    assert(catalog()[40].0 == "btn_back_dash"@);
    reveal_strlit("btn_back_logs");
    assert("btn_back_logs"@.len() != "users_no_users"@.len());
    assert(catalog()[41].0 == "btn_back_logs"@);
    reveal_strlit("users_add_title");
    assert("users_add_title"@.len() != "users_no_users"@.len());
    assert(catalog()[42].0 == "users_add_title"@);
    reveal_strlit("users_is_admin");
    assert("users_is_admin"@[6] != "users_no_users"@[6]);
    assert(catalog()[43].0 == "users_is_admin"@);
    reveal_strlit("btn_save_user");
    assert("btn_save_user"@.len() != "users_no_users"@.len());
    assert(catalog()[44].0 == "btn_save_user"@);
    reveal_strlit("users_list_title");
    assert("users_list_title"@.len() != "users_no_users"@.len());
    assert(catalog()[45].0 == "users_list_title"@);
    assert(catalog()[46] == ("users_no_users"@, "No users found."@, "暂无用户。"@));
    lemma_lookup_at(catalog(), "users_no_users"@, 46);
}

proof fn lemma_texts_of_login_err()
    ensures
        catalog_text("login_err"@, "en"@) == Some("Invalid username or password"@),
        catalog_text("login_err"@, "zh"@) == Some("用户名或密码错误"@),
{
    reveal_strlit("login_err");
    reveal_strlit("en");
    reveal_strlit("zh");
    assert("en"@[0] != "zh"@[0]);
    reveal_strlit("nav_dashboard");
    assert("nav_dashboard"@.len() != "login_err"@.len());
    assert(catalog()[0].0 == "nav_dashboard"@);
    reveal_strlit("nav_projects");
    assert("nav_projects"@.len() != "login_err"@.len());
    assert(catalog()[1].0 == "nav_projects"@);
    reveal_strlit("nav_users");
    assert("nav_users"@[0] != "login_err"@[0]);
    assert(catalog()[2].0 == "nav_users"@);
    reveal_strlit("nav_logout");
    assert("nav_logout"@.len() != "login_err"@.len());
    assert(catalog()[3].0 == "nav_logout"@);
    reveal_strlit("login_title");
    assert("login_title"@.len() != "login_err"@.len());
    assert(catalog()[4].0 == "login_title"@);
    reveal_strlit("username");
    assert("username"@.len() != "login_err"@.len());
    assert(catalog()[5].0 == "username"@);
    reveal_strlit("password");
    assert("password"@.len() != "login_err"@.len());
    assert(catalog()[6].0 == "password"@);
    reveal_strlit("login_btn");
    assert("login_btn"@[6] != "login_err"@[6]);
    assert(catalog()[7].0 == "login_btn"@);
    reveal_strlit("dash_recent_builds");
    assert("dash_recent_builds"@.len() != "login_err"@.len());
    assert(catalog()[8].0 == "dash_recent_builds"@);
    reveal_strlit("dash_no_builds");
    assert("dash_no_builds"@.len() != "login_err"@.len());
    assert(catalog()[9].0 == "dash_no_builds"@);
    reveal_strlit("col_id");
    assert("col_id"@.len() != "login_err"@.len());
    assert(catalog()[10].0 == "col_id"@);
    reveal_strlit("col_project");
    assert("col_project"@.len() != "login_err"@.len());
    assert(catalog()[11].0 == "col_project"@);
    reveal_strlit("col_status");
    assert("col_status"@.len() != "login_err"@.len());
    assert(catalog()[12].0 == "col_status"@);
    reveal_strlit("col_started_at");
    assert("col_started_at"@.len() != "login_err"@.len());
    assert(catalog()[13].0 == "col_started_at"@);
    reveal_strlit("col_finished_at");
    assert("col_finished_at"@.len() != "login_err"@.len());
    assert(catalog()[14].0 == "col_finished_at"@);
    reveal_strlit("col_action");
    assert("col_action"@.len() != "login_err"@.len());
    assert(catalog()[15].0 == "col_action"@);
    reveal_strlit("btn_view");
    assert("btn_view"@.len() != "login_err"@.len());
    assert(catalog()[16].0 == "btn_view"@);
    reveal_strlit("proj_add_title");
    assert("proj_add_title"@.len() != "login_err"@.len());
    assert(catalog()[17].0 == "proj_add_title"@);
    reveal_strlit("proj_name");
    assert("proj_name"@[0] != "login_err"@[0]);
    assert(catalog()[18].0 == "proj_name"@);
    reveal_strlit("proj_script");
    assert("proj_script"@.len() != "login_err"@.len());
    assert(catalog()[19].0 == "proj_script"@);
    reveal_strlit("proj_log_dir");
    assert("proj_log_dir"@.len() != "login_err"@.len());
    assert(catalog()[20].0 == "proj_log_dir"@);
    reveal_strlit("btn_add_proj");
    assert("btn_add_proj"@.len() != "login_err"@.len());
    assert(catalog()[21].0 == "btn_add_proj"@);
    reveal_strlit("proj_list_title");
    assert("proj_list_title"@.len() != "login_err"@.len());
    assert(catalog()[22].0 == "proj_list_title"@);
    reveal_strlit("col_webhook_key");
    assert("col_webhook_key"@.len() != "login_err"@.len());
    assert(catalog()[23].0 == "col_webhook_key"@);
    reveal_strlit("col_webhook_url");
    assert("col_webhook_url"@.len() != "login_err"@.len());
    assert(catalog()[24].0 == "col_webhook_url"@);
    reveal_strlit("btn_edit");
    assert("btn_edit"@.len() != "login_err"@.len());
    assert(catalog()[25].0 == "btn_edit"@);
    reveal_strlit("btn_logs");
    assert("btn_logs"@.len() != "login_err"@.len());
    assert(catalog()[26].0 == "btn_logs"@);
    reveal_strlit("proj_no_projects");
    assert("proj_no_projects"@.len() != "login_err"@.len());
    assert(catalog()[27].0 == "proj_no_projects"@);
    reveal_strlit("proj_edit_title");
    assert("proj_edit_title"@.len() != "login_err"@.len());
    assert(catalog()[28].0 == "proj_edit_title"@);
    reveal_strlit("btn_save");
    assert("btn_save"@.len() != "login_err"@.len());
    assert(catalog()[29].0 == "btn_save"@);
    reveal_strlit("btn_cancel");
    assert("btn_cancel"@.len() != "login_err"@.len());
    assert(catalog()[30].0 == "btn_cancel"@);
    reveal_strlit("logs_title");
    assert("logs_title"@.len() != "login_err"@.len());
    assert(catalog()[31].0 == "logs_title"@);
    reveal_strlit("logs_dir");
    assert("logs_dir"@.len() != "login_err"@.len());
    assert(catalog()[32].0 == "logs_dir"@);
    reveal_strlit("col_filename");
    assert("col_filename"@.len() != "login_err"@.len());
    assert(catalog()[33].0 == "col_filename"@);
    reveal_strlit("col_size");
    assert("col_size"@.len() != "login_err"@.len());
    assert(catalog()[34].0 == "col_size"@);
    reveal_strlit("btn_tailf");
    assert("btn_tailf"@[0] != "login_err"@[0]);
    assert(catalog()[35].0 == "btn_tailf"@);
    reveal_strlit("logs_no_files");
    assert("logs_no_files"@.len() != "login_err"@.len());
    assert(catalog()[36].0 == "logs_no_files"@);
    reveal_strlit("btn_back_proj");
    assert("btn_back_proj"@.len() != "login_err"@.len());
    assert(catalog()[37].0 == "btn_back_proj"@);
    reveal_strlit("build_viewer_title");
    assert("build_viewer_title"@.len() != "login_err"@.len());
    assert(catalog()[38].0 == "build_viewer_title"@);
    reveal_strlit("log_loading");
    assert("log_loading"@.len() != "login_err"@.len());
    assert(catalog()[39].0 == "log_loading"@);
    reveal_strlit("btn_back_dash");
    assert("btn_back_dash"@.len() != "login_err"@.len());
    assert(catalog()[40].0 == "btn_back_dash"@);
    reveal_strlit("btn_back_logs");
    assert("btn_back_logs"@.len() != "login_err"@.len());
    assert(catalog()[41].0 == "btn_back_logs"@);
    reveal_strlit("users_add_title");
    assert("users_add_title"@.len() != "login_err"@.len());
    assert(catalog()[42].0 == "users_add_title"@);
    reveal_strlit("users_is_admin");
    assert("users_is_admin"@.len() != "login_err"@.len());
    assert(catalog()[43].0 == "users_is_admin"@);
    reveal_strlit("btn_save_user");
    assert("btn_save_user"@.len() != "login_err"@.len());
    assert(catalog()[44].0 == "btn_save_user"@);
    reveal_strlit("users_list_title");
    assert("users_list_title"@.len() != "login_err"@.len());
    assert(catalog()[45].0 == "users_list_title"@);
    reveal_strlit("users_no_users");
    assert("users_no_users"@.len() != "login_err"@.len());
    assert(catalog()[46].0 == "users_no_users"@);
    assert(catalog()[47] == ("login_err"@, "Invalid username or password"@, "用户名或密码错误"@));
    lemma_lookup_at(catalog(), "login_err"@, 47);
}

proof fn lemma_texts_of_users_saved()
    ensures
        catalog_text("users_saved"@, "en"@) == Some("User saved successfully."@),
        catalog_text("users_saved"@, "zh"@) == Some("用户保存成功。"@),
{
    reveal_strlit("users_saved");
    reveal_strlit("en");
    reveal_strlit("zh");
    assert("en"@[0] != "zh"@[0]);
    reveal_strlit("nav_dashboard");
    assert("nav_dashboard"@.len() != "users_saved"@.len());
    assert(catalog()[0].0 == "nav_dashboard"@);
    reveal_strlit("nav_projects");
    assert("nav_projects"@.len() != "users_saved"@.len());
    assert(catalog()[1].0 == "nav_projects"@);
    reveal_strlit("nav_users");
    assert("nav_users"@.len() != "users_saved"@.len());
    assert(catalog()[2].0 == "nav_users"@);
    reveal_strlit("nav_logout");
    assert("nav_logout"@.len() != "users_saved"@.len());
    assert(catalog()[3].0 == "nav_logout"@);
    reveal_strlit("login_title");
    assert("login_title"@[0] != "users_saved"@[0]);
    assert(catalog()[4].0 == "login_title"@);
    reveal_strlit("username");
    assert("username"@.len() != "users_saved"@.len());
    assert(catalog()[5].0 == "username"@);
    reveal_strlit("password");
    assert("password"@.len() != "users_saved"@.len());
    assert(catalog()[6].0 == "password"@);
    reveal_strlit("login_btn");
    assert("login_btn"@.len() != "users_saved"@.len());
    assert(catalog()[7].0 == "login_btn"@);
    reveal_strlit("dash_recent_builds");
    assert("dash_recent_builds"@.len() != "users_saved"@.len());
    assert(catalog()[8].0 == "dash_recent_builds"@);
    reveal_strlit("dash_no_builds");
    assert("dash_no_builds"@.len() != "users_saved"@.len());
    assert(catalog()[9].0 == "dash_no_builds"@);
    reveal_strlit("col_id");
    assert("col_id"@.len() != "users_saved"@.len());
    assert(catalog()[10].0 == "col_id"@);
    reveal_strlit("col_project");
    assert("col_project"@[0] != "users_saved"@[0]);
    assert(catalog()[11].0 == "col_project"@);
    reveal_strlit("col_status");
    assert("col_status"@.len() != "users_saved"@.len());
    assert(catalog()[12].0 == "col_status"@);
    reveal_strlit("col_started_at");
    assert("col_started_at"@.len() != "users_saved"@.len());
    assert(catalog()[13].0 == "col_started_at"@);
    reveal_strlit("col_finished_at");
    assert("col_finished_at"@.len() != "users_saved"@.len());
    assert(catalog()[14].0 == "col_finished_at"@);
    reveal_strlit("col_action");
    assert("col_action"@.len() != "users_saved"@.len());
    assert(catalog()[15].0 == "col_action"@);
    reveal_strlit("btn_view");
    assert("btn_view"@.len() != "users_saved"@.len());
    assert(catalog()[16].0 == "btn_view"@);
    reveal_strlit("proj_add_title");
    assert("proj_add_title"@.len() != "users_saved"@.len());
    assert(catalog()[17].0 == "proj_add_title"@);
    reveal_strlit("proj_name");
    assert("proj_name"@.len() != "users_saved"@.len());
    assert(catalog()[18].0 == "proj_name"@);
    reveal_strlit("proj_script");
    assert("proj_script"@[0] != "users_saved"@[0]);
    assert(catalog()[19].0 == "proj_script"@);
    reveal_strlit("proj_log_dir");
    assert("proj_log_dir"@.len() != "users_saved"@.len());
    assert(catalog()[20].0 == "proj_log_dir"@);
    reveal_strlit("btn_add_proj");
    assert("btn_add_proj"@.len() != "users_saved"@.len());
    assert(catalog()[21].0 == "btn_add_proj"@);
    reveal_strlit("proj_list_title");
    assert("proj_list_title"@.len() != "users_saved"@.len());
    assert(catalog()[22].0 == "proj_list_title"@);
    reveal_strlit("col_webhook_key");
    assert("col_webhook_key"@.len() != "users_saved"@.len());
    assert(catalog()[23].0 == "col_webhook_key"@);
    reveal_strlit("col_webhook_url");
    assert("col_webhook_url"@.len() != "users_saved"@.len());
    assert(catalog()[24].0 == "col_webhook_url"@);
    reveal_strlit("btn_edit");
    assert("btn_edit"@.len() != "users_saved"@.len());
    assert(catalog()[25].0 == "btn_edit"@);
    reveal_strlit("btn_logs");
    assert("btn_logs"@.len() != "users_saved"@.len());
    assert(catalog()[26].0 == "btn_logs"@);
    reveal_strlit("proj_no_projects");
    assert("proj_no_projects"@.len() != "users_saved"@.len());
    assert(catalog()[27].0 == "proj_no_projects"@);
    reveal_strlit("proj_edit_title");
    assert("proj_edit_title"@.len() != "users_saved"@.len());
    assert(catalog()[28].0 == "proj_edit_title"@);
    reveal_strlit("btn_save");
    assert("btn_save"@.len() != "users_saved"@.len());
    assert(catalog()[29].0 == "btn_save"@);
    reveal_strlit("btn_cancel");
    assert("btn_cancel"@.len() != "users_saved"@.len());
    assert(catalog()[30].0 == "btn_cancel"@);
    reveal_strlit("logs_title");
    assert("logs_title"@.len() != "users_saved"@.len());
    assert(catalog()[31].0 == "logs_title"@);
    reveal_strlit("logs_dir");
    assert("logs_dir"@.len() != "users_saved"@.len());
    assert(catalog()[32].0 == "logs_dir"@);
    reveal_strlit("col_filename");
    assert("col_filename"@.len() != "users_saved"@.len());
    assert(catalog()[33].0 == "col_filename"@);
    reveal_strlit("col_size");
    assert("col_size"@.len() != "users_saved"@.len());
    assert(catalog()[34].0 == "col_size"@);
    reveal_strlit("btn_tailf");
    assert("btn_tailf"@.len() != "users_saved"@.len());
    assert(catalog()[35].0 == "btn_tailf"@);
    reveal_strlit("logs_no_files");
    assert("logs_no_files"@.len() != "users_saved"@.len());
    assert(catalog()[36].0 == "logs_no_files"@);
    reveal_strlit("btn_back_proj");
    assert("btn_back_proj"@.len() != "users_saved"@.len());
    assert(catalog()[37].0 == "btn_back_proj"@);
    reveal_strlit("build_viewer_title");
    assert("build_viewer_title"@.len() != "users_saved"@.len());
    assert(catalog()[38].0 == "build_viewer_title"@);
    reveal_strlit("log_loading");
    assert("log_loading"@[0] != "users_saved"@[0]);
    assert(catalog()[39].0 == "log_loading"@);
    reveal_strlit("btn_back_dash");
    assert("btn_back_dash"@.len() != "users_saved"@.len());
    assert(catalog()[40].0 == "btn_back_dash"@);
    reveal_strlit("btn_back_logs");
    assert("btn_back_logs"@.len() != "users_saved"@.len());
    assert(catalog()[41].0 == "btn_back_logs"@);
    reveal_strlit("users_add_title");
    assert("users_add_title"@.len() != "users_saved"@.len());
    assert(catalog()[42].0 == "users_add_title"@);
    reveal_strlit("users_is_admin");
    assert("users_is_admin"@.len() != "users_saved"@.len());
    assert(catalog()[43].0 == "users_is_admin"@);
    reveal_strlit("btn_save_user");
    assert("btn_save_user"@.len() != "users_saved"@.len());
    assert(catalog()[44].0 == "btn_save_user"@);
    reveal_strlit("users_list_title");
    assert("users_list_title"@.len() != "users_saved"@.len());
    assert(catalog()[45].0 == "users_list_title"@);
    reveal_strlit("users_no_users");
    assert("users_no_users"@.len() != "users_saved"@.len());
    assert(catalog()[46].0 == "users_no_users"@);
    reveal_strlit("login_err");
    assert("login_err"@.len() != "users_saved"@.len());
    assert(catalog()[47].0 == "login_err"@);
    assert(catalog()[48] == ("users_saved"@, "User saved successfully."@, "用户保存成功。"@));
    lemma_lookup_at(catalog(), "users_saved"@, 48);
}

proof fn lemma_texts_of_proj_saved()
    ensures
        catalog_text("proj_saved"@, "en"@) == Some("Project saved successfully."@),
        catalog_text("proj_saved"@, "zh"@) == Some("项目保存成功。"@),
{
    reveal_strlit("proj_saved");
    reveal_strlit("en");
    reveal_strlit("zh");
    assert("en"@[0] != "zh"@[0]);
    reveal_strlit("nav_dashboard");
    assert("nav_dashboard"@.len() != "proj_saved"@.len());
    assert(catalog()[0].0 == "nav_dashboard"@);
    reveal_strlit("nav_projects");
    assert("nav_projects"@.len() != "proj_saved"@.len());
    assert(catalog()[1].0 == "nav_projects"@);
    reveal_strlit("nav_users");
    assert("nav_users"@.len() != "proj_saved"@.len());
    assert(catalog()[2].0 == "nav_users"@);
    reveal_strlit("nav_logout");
    assert("nav_logout"@[0] != "proj_saved"@[0]);
    assert(catalog()[3].0 == "nav_logout"@);
    reveal_strlit("login_title");
    assert("login_title"@.len() != "proj_saved"@.len());
    assert(catalog()[4].0 == "login_title"@);
    reveal_strlit("username");
    assert("username"@.len() != "proj_saved"@.len());
    assert(catalog()[5].0 == "username"@);
    reveal_strlit("password");
    assert("password"@.len() != "proj_saved"@.len());
    assert(catalog()[6].0 == "password"@);
    reveal_strlit("login_btn");
    assert("login_btn"@.len() != "proj_saved"@.len());
    assert(catalog()[7].0 == "login_btn"@);
    reveal_strlit("dash_recent_builds");
    assert("dash_recent_builds"@.len() != "proj_saved"@.len());
    assert(catalog()[8].0 == "dash_recent_builds"@);
    reveal_strlit("dash_no_builds");
    assert("dash_no_builds"@.len() != "proj_saved"@.len());
    assert(catalog()[9].0 == "dash_no_builds"@);
    reveal_strlit("col_id");
    assert("col_id"@.len() != "proj_saved"@.len());
    assert(catalog()[10].0 == "col_id"@);
    reveal_strlit("col_project");
    assert("col_project"@.len() != "proj_saved"@.len());
    assert(catalog()[11].0 == "col_project"@);
    reveal_strlit("col_status");
    assert("col_status"@[0] != "proj_saved"@[0]);
    assert(catalog()[12].0 == "col_status"@);
    reveal_strlit("col_started_at");
    assert("col_started_at"@.len() != "proj_saved"@.len());
    assert(catalog()[13].0 == "col_started_at"@);
    reveal_strlit("col_finished_at");
    assert("col_finished_at"@.len() != "proj_saved"@.len());
    assert(catalog()[14].0 == "col_finished_at"@);
    reveal_strlit("col_action");
    assert("col_action"@[0] != "proj_saved"@[0]);
    assert(catalog()[15].0 == "col_action"@);
    reveal_strlit("btn_view");
    assert("btn_view"@.len() != "proj_saved"@.len());
    assert(catalog()[16].0 == "btn_view"@);
    reveal_strlit("proj_add_title");
    assert("proj_add_title"@.len() != "proj_saved"@.len());
    assert(catalog()[17].0 == "proj_add_title"@);
    reveal_strlit("proj_name");
    assert("proj_name"@.len() != "proj_saved"@.len());
    assert(catalog()[18].0 == "proj_name"@);
    reveal_strlit("proj_script");
    assert("proj_script"@.len() != "proj_saved"@.len());
    assert(catalog()[19].0 == "proj_script"@);
    reveal_strlit("proj_log_dir");
    assert("proj_log_dir"@.len() != "proj_saved"@.len());
    assert(catalog()[20].0 == "proj_log_dir"@);
    reveal_strlit("btn_add_proj");
    assert("btn_add_proj"@.len() != "proj_saved"@.len());
    assert(catalog()[21].0 == "btn_add_proj"@);
    reveal_strlit("proj_list_title");
    assert("proj_list_title"@.len() != "proj_saved"@.len());
    assert(catalog()[22].0 == "proj_list_title"@);
    reveal_strlit("col_webhook_key");
    assert("col_webhook_key"@.len() != "proj_saved"@.len());
    assert(catalog()[23].0 == "col_webhook_key"@);
    reveal_strlit("col_webhook_url");
    assert("col_webhook_url"@.len() != "proj_saved"@.len());
    assert(catalog()[24].0 == "col_webhook_url"@);
    reveal_strlit("btn_edit");
    assert("btn_edit"@.len() != "proj_saved"@.len());
    assert(catalog()[25].0 == "btn_edit"@);
    reveal_strlit("btn_logs");
    assert("btn_logs"@.len() != "proj_saved"@.len());
    assert(catalog()[26].0 == "btn_logs"@);
    reveal_strlit("proj_no_projects");
    assert("proj_no_projects"@.len() != "proj_saved"@.len());
    assert(catalog()[27].0 == "proj_no_projects"@);
    reveal_strlit("proj_edit_title");
    assert("proj_edit_title"@.len() != "proj_saved"@.len());
    assert(catalog()[28].0 == "proj_edit_title"@);
    reveal_strlit("btn_save");
    assert("btn_save"@.len() != "proj_saved"@.len());
    assert(catalog()[29].0 == "btn_save"@);
    reveal_strlit("btn_cancel");
    assert("btn_cancel"@[0] != "proj_saved"@[0]);
    assert(catalog()[30].0 == "btn_cancel"@);
    reveal_strlit("logs_title");
    assert("logs_title"@[0] != "proj_saved"@[0]);
    assert(catalog()[31].0 == "logs_title"@);
    reveal_strlit("logs_dir");
    assert("logs_dir"@.len() != "proj_saved"@.len());
    assert(catalog()[32].0 == "logs_dir"@);
    reveal_strlit("col_filename");
    assert("col_filename"@.len() != "proj_saved"@.len());
    assert(catalog()[33].0 == "col_filename"@);
    reveal_strlit("col_size");
    assert("col_size"@.len() != "proj_saved"@.len());
    assert(catalog()[34].0 == "col_size"@);
    reveal_strlit("btn_tailf");
    assert("btn_tailf"@.len() != "proj_saved"@.len());
    assert(catalog()[35].0 == "btn_tailf"@);
    reveal_strlit("logs_no_files");
    assert("logs_no_files"@.len() != "proj_saved"@.len());
    assert(catalog()[36].0 == "logs_no_files"@);
    reveal_strlit("btn_back_proj");
    assert("btn_back_proj"@.len() != "proj_saved"@.len());
    assert(catalog()[37].0 == "btn_back_proj"@);
    reveal_strlit("build_viewer_title");
    assert("build_viewer_title"@.len() != "proj_saved"@.len());
    assert(catalog()[38].0 == "build_viewer_title"@);
    reveal_strlit("log_loading");
    assert("log_loading"@.len() != "proj_saved"@.len());
    assert(catalog()[39].0 == "log_loading"@);
    reveal_strlit("btn_back_dash");
    assert("btn_back_dash"@.len() != "proj_saved"@.len());
    assert(catalog()[40].0 == "btn_back_dash"@);
    reveal_strlit("btn_back_logs");
    assert("btn_back_logs"@.len() != "proj_saved"@.len());
    assert(catalog()[41].0 == "btn_back_logs"@);
    reveal_strlit("users_add_title");
    assert("users_add_title"@.len() != "proj_saved"@.len());
    assert(catalog()[42].0 == "users_add_title"@);
    reveal_strlit("users_is_admin");
    assert("users_is_admin"@.len() != "proj_saved"@.len());
    assert(catalog()[43].0 == "users_is_admin"@);
    reveal_strlit("btn_save_user");
    assert("btn_save_user"@.len() != "proj_saved"@.len());
    assert(catalog()[44].0 == "btn_save_user"@);
    reveal_strlit("users_list_title");
    assert("users_list_title"@.len() != "proj_saved"@.len());
    assert(catalog()[45].0 == "users_list_title"@);
    reveal_strlit("users_no_users");
    assert("users_no_users"@.len() != "proj_saved"@.len());
    assert(catalog()[46].0 == "users_no_users"@);
    reveal_strlit("login_err");
    assert("login_err"@.len() != "proj_saved"@.len());
    assert(catalog()[47].0 == "login_err"@);
    reveal_strlit("users_saved");
    assert("users_saved"@.len() != "proj_saved"@.len());
    assert(catalog()[48].0 == "users_saved"@);
    assert(catalog()[49] == ("proj_saved"@, "Project saved successfully."@, "项目保存成功。"@));
    lemma_lookup_at(catalog(), "proj_saved"@, 49);
}

/// Every message of the catalog, in both languages, as shown by the UI.
pub proof fn lemma_catalog_texts()
    ensures
        catalog_text("nav_dashboard"@, "en"@) == Some("Dashboard"@),
        catalog_text("nav_dashboard"@, "zh"@) == Some("控制台"@),
        catalog_text("nav_projects"@, "en"@) == Some("Projects"@),
        catalog_text("nav_projects"@, "zh"@) == Some("项目管理"@),
        catalog_text("nav_users"@, "en"@) == Some("Users"@),
        catalog_text("nav_users"@, "zh"@) == Some("用户管理"@),
        catalog_text("nav_logout"@, "en"@) == Some("Logout"@),
        catalog_text("nav_logout"@, "zh"@) == Some("退出登录"@),
        catalog_text("login_title"@, "en"@) == Some("Login to Rust CI"@),
        catalog_text("login_title"@, "zh"@) == Some("登录 Rust CI"@),
        catalog_text("username"@, "en"@) == Some("Username"@),
        catalog_text("username"@, "zh"@) == Some("用户名"@),
        catalog_text("password"@, "en"@) == Some("Password"@),
        catalog_text("password"@, "zh"@) == Some("密码"@),
        catalog_text("login_btn"@, "en"@) == Some("Sign In"@),
        catalog_text("login_btn"@, "zh"@) == Some("登 录"@),
        catalog_text("dash_recent_builds"@, "en"@) == Some("Recent Builds"@),
        catalog_text("dash_recent_builds"@, "zh"@) == Some("最近构建"@),
        catalog_text("dash_no_builds"@, "en"@) == Some("No builds found."@),
        catalog_text("dash_no_builds"@, "zh"@) == Some("暂无构建记录。"@),
        catalog_text("col_id"@, "en"@) == Some("ID"@),
        catalog_text("col_id"@, "zh"@) == Some("ID"@),
        catalog_text("col_project"@, "en"@) == Some("Project"@),
        catalog_text("col_project"@, "zh"@) == Some("项目"@),
        catalog_text("col_status"@, "en"@) == Some("Status"@),
        catalog_text("col_status"@, "zh"@) == Some("状态"@),
        catalog_text("col_started_at"@, "en"@) == Some("Started At"@),
        catalog_text("col_started_at"@, "zh"@) == Some("开始时间"@),
        catalog_text("col_finished_at"@, "en"@) == Some("Finished At"@),
        catalog_text("col_finished_at"@, "zh"@) == Some("结束时间"@),
        catalog_text("col_action"@, "en"@) == Some("Action"@),
        catalog_text("col_action"@, "zh"@) == Some("操作"@),
        catalog_text("btn_view"@, "en"@) == Some("View"@),
        catalog_text("btn_view"@, "zh"@) == Some("查看"@),
        catalog_text("proj_add_title"@, "en"@) == Some("Add New Project"@),
        catalog_text("proj_add_title"@, "zh"@) == Some("添加新项目"@),
        catalog_text("proj_name"@, "en"@) == Some("Project Name"@),
        catalog_text("proj_name"@, "zh"@) == Some("项目名称"@),
        catalog_text("proj_script"@, "en"@) == Some("Shell Script Path"@),
        catalog_text("proj_script"@, "zh"@) == Some("Shell脚本路径"@),
        catalog_text("proj_log_dir"@, "en"@) == Some("Runtime Log Directory"@),
        catalog_text("proj_log_dir"@, "zh"@) == Some("运行日志目录"@),
        catalog_text("btn_add_proj"@, "en"@) == Some("Add Project"@),
        catalog_text("btn_add_proj"@, "zh"@) == Some("添加项目"@),
        catalog_text("proj_list_title"@, "en"@) == Some("Projects"@),
        catalog_text("proj_list_title"@, "zh"@) == Some("项目列表"@),
        catalog_text("col_webhook_key"@, "en"@) == Some("Webhook Key"@),
        catalog_text("col_webhook_key"@, "zh"@) == Some("Webhook Key"@),
        catalog_text("col_webhook_url"@, "en"@) == Some("Webhook URL"@),
        catalog_text("col_webhook_url"@, "zh"@) == Some("触发地址 (Webhook)"@),
        catalog_text("btn_edit"@, "en"@) == Some("Edit"@),
        catalog_text("btn_edit"@, "zh"@) == Some("编辑"@),
        catalog_text("btn_logs"@, "en"@) == Some("Logs"@),
        catalog_text("btn_logs"@, "zh"@) == Some("运行日志"@),
        catalog_text("proj_no_projects"@, "en"@) == Some("No projects found."@),
        catalog_text("proj_no_projects"@, "zh"@) == Some("暂无项目。"@),
        catalog_text("proj_edit_title"@, "en"@) == Some("Edit Project"@),
        catalog_text("proj_edit_title"@, "zh"@) == Some("编辑项目"@),
        catalog_text("btn_save"@, "en"@) == Some("Save Changes"@),
        catalog_text("btn_save"@, "zh"@) == Some("保存更改"@),
        catalog_text("btn_cancel"@, "en"@) == Some("Cancel"@),
        catalog_text("btn_cancel"@, "zh"@) == Some("取消"@),
        catalog_text("logs_title"@, "en"@) == Some("Runtime Logs"@),
        catalog_text("logs_title"@, "zh"@) == Some("运行日志"@),
        catalog_text("logs_dir"@, "en"@) == Some("Directory"@),
        catalog_text("logs_dir"@, "zh"@) == Some("所在目录"@),
        catalog_text("col_filename"@, "en"@) == Some("Filename"@),
        catalog_text("col_filename"@, "zh"@) == Some("文件名"@),
        catalog_text("col_size"@, "en"@) == Some("Size (Bytes)"@),
        catalog_text("col_size"@, "zh"@) == Some("大小 (字节)"@),
        catalog_text("btn_tailf"@, "en"@) == Some("tail -f -n 5000"@),
        catalog_text("btn_tailf"@, "zh"@) == Some("tail -f -n 5000"@),
        catalog_text("logs_no_files"@, "en"@) == Some("No files found in directory."@),
        catalog_text("logs_no_files"@, "zh"@) == Some("目录中没有找到日志文件。"@),
        catalog_text("btn_back_proj"@, "en"@) == Some("Back to Projects"@),
        catalog_text("btn_back_proj"@, "zh"@) == Some("返回项目列表"@),
        catalog_text("build_viewer_title"@, "en"@) == Some("Build Log"@),
        catalog_text("build_viewer_title"@, "zh"@) == Some("构建日志"@),
        catalog_text("log_loading"@, "en"@) == Some("Loading logs..."@),
        catalog_text("log_loading"@, "zh"@) == Some("正在加载日志..."@),
        catalog_text("btn_back_dash"@, "en"@) == Some("Back to Dashboard"@),
        catalog_text("btn_back_dash"@, "zh"@) == Some("返回控制台"@),
        catalog_text("btn_back_logs"@, "en"@) == Some("Back to Logs"@),
        catalog_text("btn_back_logs"@, "zh"@) == Some("返回日志列表"@),
        catalog_text("users_add_title"@, "en"@) == Some("Add/Edit User"@),
        catalog_text("users_add_title"@, "zh"@) == Some("添加/修改用户"@),
        catalog_text("users_is_admin"@, "en"@) == Some("Is Admin"@),
        catalog_text("users_is_admin"@, "zh"@) == Some("是否管理员"@),
        catalog_text("btn_save_user"@, "en"@) == Some("Save User"@),
        catalog_text("btn_save_user"@, "zh"@) == Some("保存用户"@),
        catalog_text("users_list_title"@, "en"@) == Some("Users"@),
        catalog_text("users_list_title"@, "zh"@) == Some("用户列表"@),
        catalog_text("users_no_users"@, "en"@) == Some("No users found."@),
        catalog_text("users_no_users"@, "zh"@) == Some("暂无用户。"@),
        catalog_text("login_err"@, "en"@) == Some("Invalid username or password"@),
        catalog_text("login_err"@, "zh"@) == Some("用户名或密码错误"@),
        catalog_text("users_saved"@, "en"@) == Some("User saved successfully."@),
        catalog_text("users_saved"@, "zh"@) == Some("用户保存成功。"@),
        catalog_text("proj_saved"@, "en"@) == Some("Project saved successfully."@),
        catalog_text("proj_saved"@, "zh"@) == Some("项目保存成功。"@),
{
    lemma_texts_of_nav_dashboard();
    lemma_texts_of_nav_projects();
    lemma_texts_of_nav_users();
    lemma_texts_of_nav_logout();
    lemma_texts_of_login_title();
    lemma_texts_of_username();
    lemma_texts_of_password();
    lemma_texts_of_login_btn();
    lemma_texts_of_dash_recent_builds();
    lemma_texts_of_dash_no_builds();
    lemma_texts_of_col_id();
    lemma_texts_of_col_project();
    lemma_texts_of_col_status();
    lemma_texts_of_col_started_at();
    lemma_texts_of_col_finished_at();
    lemma_texts_of_col_action();
    lemma_texts_of_btn_view();
    lemma_texts_of_proj_add_title();
    lemma_texts_of_proj_name();
    lemma_texts_of_proj_script();
    lemma_texts_of_proj_log_dir();
    lemma_texts_of_btn_add_proj();
    lemma_texts_of_proj_list_title();
    lemma_texts_of_col_webhook_key();
    lemma_texts_of_col_webhook_url();
    lemma_texts_of_btn_edit();
    lemma_texts_of_btn_logs();
    lemma_texts_of_proj_no_projects();
    lemma_texts_of_proj_edit_title();
    lemma_texts_of_btn_save();
    lemma_texts_of_btn_cancel();
    lemma_texts_of_logs_title();
    lemma_texts_of_logs_dir();
    lemma_texts_of_col_filename();
    lemma_texts_of_col_size();
    lemma_texts_of_btn_tailf();
    lemma_texts_of_logs_no_files();
    lemma_texts_of_btn_back_proj();
    lemma_texts_of_build_viewer_title();
    lemma_texts_of_log_loading();
    lemma_texts_of_btn_back_dash();
    lemma_texts_of_btn_back_logs();
    lemma_texts_of_users_add_title();
    lemma_texts_of_users_is_admin();
    lemma_texts_of_btn_save_user();
    lemma_texts_of_users_list_title();
    lemma_texts_of_users_no_users();
    lemma_texts_of_login_err();
    lemma_texts_of_users_saved();
    lemma_texts_of_proj_saved();
}

/// The views of a table of string slices.
pub open spec fn table_view(v: Seq<(&str, &str, &str)>) -> Seq<CatalogEntry> {
    v.map_values(|e: (&str, &str, &str)| (e.0@, e.1@, e.2@))
}

fn catalog_table() -> (v: Vec<(&'static str, &'static str, &'static str)>)
    ensures
        table_view(v@) == catalog(),
{
    let mut v: Vec<(&'static str, &'static str, &'static str)> = Vec::new();
    v.push(("nav_dashboard", "Dashboard", "控制台"));
    v.push(("nav_projects", "Projects", "项目管理"));
    v.push(("nav_users", "Users", "用户管理"));
    v.push(("nav_logout", "Logout", "退出登录"));
    v.push(("login_title", "Login to Rust CI", "登录 Rust CI"));
    v.push(("username", "Username", "用户名"));
    v.push(("password", "Password", "密码"));
    v.push(("login_btn", "Sign In", "登 录"));
    v.push(("dash_recent_builds", "Recent Builds", "最近构建"));
    v.push(("dash_no_builds", "No builds found.", "暂无构建记录。"));
    v.push(("col_id", "ID", "ID"));
    v.push(("col_project", "Project", "项目"));
    v.push(("col_status", "Status", "状态"));
    v.push(("col_started_at", "Started At", "开始时间"));
    v.push(("col_finished_at", "Finished At", "结束时间"));
    v.push(("col_action", "Action", "操作"));
    v.push(("btn_view", "View", "查看"));
    v.push(("proj_add_title", "Add New Project", "添加新项目"));
    v.push(("proj_name", "Project Name", "项目名称"));
    v.push(("proj_script", "Shell Script Path", "Shell脚本路径"));
    v.push(("proj_log_dir", "Runtime Log Directory", "运行日志目录"));
    v.push(("btn_add_proj", "Add Project", "添加项目"));
    v.push(("proj_list_title", "Projects", "项目列表"));
    v.push(("col_webhook_key", "Webhook Key", "Webhook Key"));
    v.push(("col_webhook_url", "Webhook URL", "触发地址 (Webhook)"));
    v.push(("btn_edit", "Edit", "编辑"));
    v.push(("btn_logs", "Logs", "运行日志"));
    v.push(("proj_no_projects", "No projects found.", "暂无项目。"));
    v.push(("proj_edit_title", "Edit Project", "编辑项目"));
    v.push(("btn_save", "Save Changes", "保存更改"));
    v.push(("btn_cancel", "Cancel", "取消"));
    v.push(("logs_title", "Runtime Logs", "运行日志"));
    v.push(("logs_dir", "Directory", "所在目录"));
    v.push(("col_filename", "Filename", "文件名"));
    v.push(("col_size", "Size (Bytes)", "大小 (字节)"));
    v.push(("btn_tailf", "tail -f -n 5000", "tail -f -n 5000"));
    v.push(("logs_no_files", "No files found in directory.", "目录中没有找到日志文件。"));
    v.push(("btn_back_proj", "Back to Projects", "返回项目列表"));
    v.push(("build_viewer_title", "Build Log", "构建日志"));
    v.push(("log_loading", "Loading logs...", "正在加载日志..."));
    v.push(("btn_back_dash", "Back to Dashboard", "返回控制台"));
    v.push(("btn_back_logs", "Back to Logs", "返回日志列表"));
    v.push(("users_add_title", "Add/Edit User", "添加/修改用户"));
    v.push(("users_is_admin", "Is Admin", "是否管理员"));
    v.push(("btn_save_user", "Save User", "保存用户"));
    v.push(("users_list_title", "Users", "用户列表"));
    v.push(("users_no_users", "No users found.", "暂无用户。"));
    v.push(("login_err", "Invalid username or password", "用户名或密码错误"));
    v.push(("users_saved", "User saved successfully.", "用户保存成功。"));
    v.push(("proj_saved", "Project saved successfully.", "项目保存成功。"));
    assert(table_view(v@) =~= catalog());
    v
}

/// Looks up the catalog text of a message key in the given language;
/// `None` tells the caller that the catalog has no such text.
pub fn catalog_lookup(key: &str, lang: &str) -> (r: Option<&'static str>)
    ensures
        r is Some <==> catalog_text(key@, lang@) is Some,
        r matches Some(text) ==> text@ == catalog_text(key@, lang@)->0,
{
    let table = catalog_table();
    let n = table.len();
    let mut i: usize = 0;
    assert(catalog().subrange(0, n as int) =~= catalog());
    while i < n
        invariant
            n == table@.len(),
            table_view(table@) == catalog(),
            i <= n,
            lookup(catalog(), key@) == lookup(catalog().subrange(i as int, n as int), key@),
        decreases n - i,
    {
        let entry = table[i];
        assert(catalog()[i as int] == (entry.0@, entry.1@, entry.2@));
        assert(catalog().subrange(i as int, n as int).drop_first() =~= catalog().subrange(
            i + 1,
            n as int,
        ));
        if str_equal(entry.0, key) {
            if str_equal(lang, "en") {
                return Some(entry.1);
            } else if str_equal(lang, "zh") {
                return Some(entry.2);
            } else {
                return None;
            }
        }
        i = i + 1;
    }
    None
}

/// Looks up the text of a message key in the given language, "UNKNOWN" when
/// the catalog has none.
pub fn t(key: &str, lang: &str) -> (r: &'static str)
    ensures
        r@ == localized_text(key@, lang@),
{
    match catalog_lookup(key, lang) {
        Some(text) => text,
        None => "UNKNOWN",
    }
}

} // verus!
