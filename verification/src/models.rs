//! The records the server keeps: projects, builds and users.

use vstd::prelude::*;

verus! {

/// A project: a build script, the directory its runtime logs are written to,
/// and the secret key of its webhook.
pub struct Project {
    pub id: i64,
    pub name: String,
    pub webhook_key: String,
    pub script_path: String,
    pub log_dir: String,
    pub created_at: Option<String>,
}

/// One run of a project's build script.
pub struct Build {
    pub id: i64,
    pub project_id: i64,
    pub status: String,
    pub log_file: String,
    pub started_at: Option<String>,
    pub finished_at: Option<String>,
}

/// An account of the web interface.
pub struct User {
    pub id: i64,
    pub username: String,
    pub password_hash: String,
    pub is_admin: bool,
    pub created_at: Option<String>,
}

} // verus!
