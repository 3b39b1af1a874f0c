//! The data each page of the web interface is rendered from.

use vstd::prelude::*;
use crate::handlers::project_logs::LogFileInfo;
use crate::models::{Build, Project, User};

verus! {

pub struct LoginTemplate {
    pub lang: String,
    pub is_logged_in: bool,
    pub error_msg: Option<String>,
    pub success_msg: Option<String>,
}

/// One row of the dashboard's build history.
pub struct DashboardBuild {
    pub id: i64,
    pub project_name: String,
    pub status: String,
    pub started_at: String,
    pub finished_at: Option<String>,
}

pub struct DashboardTemplate {
    pub lang: String,
    pub is_logged_in: bool,
    pub error_msg: Option<String>,
    pub success_msg: Option<String>,
    pub builds: Vec<DashboardBuild>,
}

pub struct ProjectsTemplate {
    pub lang: String,
    pub is_logged_in: bool,
    pub error_msg: Option<String>,
    pub success_msg: Option<String>,
    pub projects: Vec<Project>,
}

pub struct ProjectEditTemplate {
    pub lang: String,
    pub is_logged_in: bool,
    pub error_msg: Option<String>,
    pub success_msg: Option<String>,
    pub project: Project,
}

pub struct ProjectLogsTemplate {
    pub lang: String,
    pub is_logged_in: bool,
    pub error_msg: Option<String>,
    pub success_msg: Option<String>,
    pub project: Project,
    pub log_files: Vec<LogFileInfo>,
}

pub struct ProjectLogViewerTemplate {
    pub lang: String,
    pub is_logged_in: bool,
    pub error_msg: Option<String>,
    pub success_msg: Option<String>,
    pub project: Project,
    pub filename: String,
}

pub struct BuildDetailTemplate {
    pub lang: String,
    pub is_logged_in: bool,
    pub error_msg: Option<String>,
    pub success_msg: Option<String>,
    pub build: Build,
    pub project: Project,
}

pub struct UsersTemplate {
    pub lang: String,
    pub is_logged_in: bool,
    pub error_msg: Option<String>,
    pub success_msg: Option<String>,
    pub users: Vec<User>,
}

} // verus!
