use rust_ci::handlers::builds::{build_detail_page, dashboard_page, DashboardBuildRow};
use rust_ci::handlers::project_logs::{project_log_viewer_page, project_logs_page, DirEntryInfo, EntryMetadata};
use rust_ci::handlers::projects::project_edit_page;
use rust_ci::handlers::webhook::plan_build_with_id;
use rust_ci::models::{Build, Project};

fn project() -> Project {
    Project {
        id: 7,
        name: "demo".to_string(),
        webhook_key: "k".to_string(),
        script_path: "/opt/deploy/demo.sh".to_string(),
        log_dir: "/var/log/demo".to_string(),
        created_at: None,
    }
}

fn build() -> Build {
    Build {
        id: 1,
        project_id: 7,
        status: "success".to_string(),
        log_file: "ci_log/x.log".to_string(),
        started_at: None,
        finished_at: None,
    }
}

#[test]
fn build_plan_names_its_log_after_the_id() {
    let plan = plan_build_with_id(&project(), "0b5c2a0e-1111-4222-8333-444455556666");
    assert_eq!(plan.log_file, "ci_log/0b5c2a0e-1111-4222-8333-444455556666.log");
    assert_eq!(plan.status, "running");
    assert_eq!(plan.project_id, 7);
}

#[test]
fn unknown_records_redirect() {
    assert_eq!(project_edit_page("zh".to_string(), None).err(), Some("/projects"));
    assert_eq!(project_log_viewer_page("zh".to_string(), None, "a.log".to_string()).err(), Some("/projects"));
    assert_eq!(project_logs_page("zh".to_string(), None, &Vec::new()).err(), Some("/projects"));
    assert_eq!(build_detail_page("zh".to_string(), None).err(), Some("/"));
}

#[test]
fn known_records_render() {
    let page = project_edit_page("en".to_string(), Some(project())).ok().unwrap();
    assert_eq!(page.project.name, "demo");
    assert!(page.is_logged_in);
    let page = project_log_viewer_page("en".to_string(), Some(project()), "a.log".to_string()).ok().unwrap();
    assert_eq!(page.filename, "a.log");
    let page = build_detail_page("en".to_string(), Some((build(), project()))).ok().unwrap();
    assert_eq!(page.build.status, "success");
    assert_eq!(page.project.id, 7);
}

#[test]
fn log_browser_lists_files_by_name() {
    let entries = vec![
        DirEntryInfo { name: "b.log".to_string(), metadata: Some(EntryMetadata { is_file: true, len: 1 }) },
        DirEntryInfo { name: "a.log".to_string(), metadata: Some(EntryMetadata { is_file: true, len: 2 }) },
        DirEntryInfo { name: "dir".to_string(), metadata: Some(EntryMetadata { is_file: false, len: 0 }) },
    ];
    let page = project_logs_page("zh".to_string(), Some(project()), &entries).ok().unwrap();
    let names: Vec<&str> = page.log_files.iter().map(|f| f.name.as_str()).collect();
    assert_eq!(names, vec!["a.log", "b.log"]);
}

#[test]
fn dashboard_page_shows_rows() {
    let rows = vec![DashboardBuildRow {
        id: 3,
        project_name: "demo".to_string(),
        status: "failed".to_string(),
        started_at: None,
        finished_at: None,
    }];
    let page = dashboard_page("en".to_string(), &rows);
    assert_eq!(page.builds.len(), 1);
    assert_eq!(page.builds[0].status, "failed");
    assert_eq!(page.builds[0].started_at, "");
    assert!(page.is_logged_in);
}
