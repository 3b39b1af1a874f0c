//! The dashboard's build history and the build-log poll.

use vstd::prelude::*;
use vstd::string::StringExecFns;
use crate::handlers::{log_poll, poll_offset, poll_text, LogRead};
use crate::models::{Build, Project};
use crate::templates::{BuildDetailTemplate, DashboardBuild, DashboardTemplate};

verus! {

/// The query of a build-log poll.
pub struct LogQuery {
    pub offset: u64,
}

/// The answer to a build-log poll: the new text, where to poll next, and the
/// build's status.
pub struct LogResponse {
    pub text: String,
    pub new_offset: u64,
    pub status: String,
}

/// Answers a poll of a build's log. `build_status` is the status of the
/// build, `None` when there is no such build; `read` is what was read of the
/// build's log file (consulted only when the build exists). An unknown build
/// answers nothing new with status "unknown". `None` when the next offset
/// would not fit in a `u64`.
pub fn build_log_response(query: &LogQuery, build_status: Option<String>, read: LogRead) -> (r: Option<LogResponse>)
    ensures
        build_status is None ==> (r matches Some(resp) && resp.text@ == Seq::<char>::empty()
            && resp.new_offset == query.offset && resp.status@ == "unknown"@),
        build_status is Some && poll_offset(query.offset, read) <= u64::MAX ==> (r matches Some(
            resp,
        ) && resp.text@ == poll_text(query.offset, read) && resp.new_offset == poll_offset(
            query.offset,
            read,
        ) && resp.status == build_status->0),
        build_status is Some && poll_offset(query.offset, read) > u64::MAX ==> r is None,
{
    match build_status {
        None => Some(
            LogResponse {
                text: String::new(),
                new_offset: query.offset,
                status: String::from_str("unknown"),
            },
        ),
        Some(status) => match log_poll(query.offset, read) {
            Some((text, new_offset)) => Some(LogResponse { text, new_offset, status }),
            None => None,
        },
    }
}

/// A row of the build history as read from the database, its times already
/// rendered as text.
pub struct DashboardBuildRow {
    pub id: i64,
    pub project_name: String,
    pub status: String,
    pub started_at: Option<String>,
    pub finished_at: Option<String>,
}

/// The dashboard row shows a history row as it is, with a missing start
/// time shown as an empty text.
pub open spec fn shows_row(b: DashboardBuild, row: DashboardBuildRow) -> bool {
    &&& b.id == row.id
    &&& b.project_name == row.project_name
    &&& b.status == row.status
    &&& b.started_at@ == match row.started_at {
        Some(s) => s@,
        None => Seq::<char>::empty(),
    }
    &&& b.finished_at == row.finished_at
}

/// A dashboard row shows exactly the fields of its history row; only a
/// missing start time is shown as empty text, and a missing finish time stays
/// missing.
pub proof fn lemma_shows_row_fields(b: DashboardBuild, row: DashboardBuildRow)
    requires
        shows_row(b, row),
    ensures
        b.id == row.id,
        b.project_name == row.project_name,
        b.status == row.status,
        b.finished_at == row.finished_at,
        row.finished_at is None ==> b.finished_at is None,
        row.started_at is Some ==> b.started_at@ == row.started_at->0@,
        row.started_at is None ==> b.started_at@.len() == 0,
{
}

/// The dashboard rows of the build history, in the history's order.
pub fn dashboard_builds(rows: &Vec<DashboardBuildRow>) -> (builds: Vec<DashboardBuild>)
    ensures
        builds@.len() == rows@.len(),
        forall|i: int| 0 <= i < rows@.len() ==> shows_row(#[trigger] builds@[i], rows@[i]),
        // Each row keeps its id, project, status and finish time exactly:
        // a build that has not finished shows no finish time.
        forall|i: int|
            0 <= i < rows@.len() ==> (#[trigger] builds@[i]).id == rows@[i].id && builds@[i].project_name
                == rows@[i].project_name && builds@[i].status == rows@[i].status
                && builds@[i].finished_at == rows@[i].finished_at,
        // The start time is the row's own, or empty when it has none.
        forall|i: int|
            0 <= i < rows@.len() ==> (rows@[i].started_at is Some ==> (#[trigger] builds@[i]).started_at@
                == rows@[i].started_at->0@) && (rows@[i].started_at is None
                ==> builds@[i].started_at@.len() == 0),
{
    let mut builds: Vec<DashboardBuild> = Vec::new();
    let mut i: usize = 0;
    while i < rows.len()
        invariant
            i <= rows@.len(),
            builds@.len() == i,
            forall|k: int| 0 <= k < i ==> shows_row(#[trigger] builds@[k], rows@[k]),
        decreases rows@.len() - i,
    {
        let row = &rows[i];
        let started_at = match &row.started_at {
            Some(s) => s.clone(),
            None => String::new(),
        };
        builds.push(
            DashboardBuild {
                id: row.id,
                project_name: row.project_name.clone(),
                status: row.status.clone(),
                started_at,
                finished_at: row.finished_at.clone(),
            },
        );
        i = i + 1;
    }
    builds
}

/// The dashboard: the build history as given, newest first as read.
pub fn dashboard_page(lang: String, rows: &Vec<DashboardBuildRow>) -> (page: DashboardTemplate)
    ensures
        page.lang == lang,
        page.is_logged_in,
        page.error_msg is None,
        page.success_msg is None,
        page.builds@.len() == rows@.len(),
        forall|i: int| 0 <= i < rows@.len() ==> shows_row(#[trigger] page.builds@[i], rows@[i]),
        // Each row keeps its id, project, status and finish time exactly:
        // a build that has not finished shows no finish time.
        forall|i: int|
            0 <= i < rows@.len() ==> (#[trigger] page.builds@[i]).id == rows@[i].id && page.builds@[i].project_name
                == rows@[i].project_name && page.builds@[i].status == rows@[i].status
                && page.builds@[i].finished_at == rows@[i].finished_at,
        // The start time is the row's own, or empty when it has none.
        forall|i: int|
            0 <= i < rows@.len() ==> (rows@[i].started_at is Some ==> (#[trigger] page.builds@[i]).started_at@
                == rows@[i].started_at->0@) && (rows@[i].started_at is None
                ==> page.builds@[i].started_at@.len() == 0),
{
    let builds = dashboard_builds(rows);
    DashboardTemplate { lang, is_logged_in: true, error_msg: None, success_msg: None, builds }
}

/// The page of one build with its project; an unknown build sends the
/// visitor back to the dashboard ("/").
pub fn build_detail_page(lang: String, found: Option<(Build, Project)>) -> (r: Result<BuildDetailTemplate, &'static str>)
    ensures
        found is None ==> (r matches Err(to) && to@ == "/"@),
        found matches Some((build, project)) ==> (r matches Ok(page) && page.lang == lang
            && page.is_logged_in && page.error_msg is None && page.success_msg is None
            && page.build == build && page.project == project),
{
    match found {
        None => Err("/"),
        Some((build, project)) => Ok(
            BuildDetailTemplate {
                lang,
                is_logged_in: true,
                error_msg: None,
                success_msg: None,
                build,
                project,
            },
        ),
    }
}

} // verus!
