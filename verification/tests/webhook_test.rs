use rust_ci::handlers::builds::{dashboard_builds, DashboardBuildRow};
use rust_ci::handlers::projects::{new_webhook_key, projects_page};
use rust_ci::handlers::webhook::{build_step, plan_build, webhook_reply, BuildAction, BuildEvent, BuildPhase};
use rust_ci::handlers::{require_login, resolve_lang, save_messages};
use rust_ci::models::Project;

fn is_uuid_v4(s: &str) -> bool {
    let b = s.as_bytes();
    b.len() == 36
        && b.iter().enumerate().all(|(i, c)| {
            if [8, 13, 18, 23].contains(&i) {
                *c == b'-'
            } else {
                c.is_ascii_digit() || (b'a'..=b'f').contains(c)
            }
        })
        && b[14] == b'4'
        && [b'8', b'9', b'a', b'b'].contains(&b[19])
}

fn project() -> Project {
    Project {
        id: 3,
        name: "demo".to_string(),
        webhook_key: new_webhook_key(),
        script_path: "/opt/deploy/demo.sh".to_string(),
        log_dir: "/var/log/demo".to_string(),
        created_at: None,
    }
}

#[test]
fn webhook_keys_are_random_uuids() {
    let a = new_webhook_key();
    let b = new_webhook_key();
    assert!(is_uuid_v4(&a));
    assert!(is_uuid_v4(&b));
    assert_ne!(a, b);
}

#[test]
fn build_plan_logs_to_ci_log() {
    let plan = plan_build(&project());
    assert_eq!(plan.project_id, 3);
    assert_eq!(plan.script_path, "/opt/deploy/demo.sh");
    assert_eq!(plan.status, "running");
    let name = plan.log_file.strip_prefix("ci_log/").unwrap().strip_suffix(".log").unwrap();
    assert!(is_uuid_v4(name));
}

#[test]
fn webhook_replies() {
    assert_eq!(webhook_reply(true), "Build triggered successfully");
    assert_eq!(webhook_reply(false), "Invalid webhook key");
}

fn texts(actions: &[BuildAction]) -> Vec<String> {
    actions
        .iter()
        .map(|a| match a {
            BuildAction::AppendLog(s) => format!("log:{}", s),
            BuildAction::Finish(s) => format!("finish:{}", s),
        })
        .collect()
}

#[test]
fn successful_run() {
    let (p, a) = build_step(BuildPhase::CreatingLog, BuildEvent::LogCreated);
    assert_eq!(p, BuildPhase::Spawning);
    assert_eq!(texts(&a), vec!["log:Build started...\n"]);
    let (p, a) = build_step(p, BuildEvent::Spawned);
    assert_eq!(p, BuildPhase::Running);
    assert!(a.is_empty());
    let (p, a) = build_step(p, BuildEvent::ScriptExited(true));
    assert_eq!(p, BuildPhase::Finished);
    assert_eq!(texts(&a), vec!["log:\nBuild finished with status: success\n", "finish:success"]);
}

#[test]
fn failing_script() {
    let (p, a) = build_step(BuildPhase::Running, BuildEvent::ScriptExited(false));
    assert_eq!(p, BuildPhase::Finished);
    assert_eq!(texts(&a), vec!["log:\nBuild finished with status: failed\n", "finish:failed"]);
}

#[test]
fn script_that_cannot_start() {
    let (p, a) = build_step(BuildPhase::Spawning, BuildEvent::SpawnFailed("No such file".to_string()));
    assert_eq!(p, BuildPhase::Finished);
    assert_eq!(texts(&a), vec!["log:\nFailed to spawn script: No such file\n", "finish:failed"]);
}

#[test]
fn log_file_that_cannot_be_created() {
    let (p, a) = build_step(BuildPhase::CreatingLog, BuildEvent::LogCreateFailed);
    assert_eq!(p, BuildPhase::Finished);
    assert_eq!(texts(&a), vec!["finish:failed"]);
}

#[test]
fn login_is_required() {
    assert_eq!(require_login(None), Some("/login"));
    assert_eq!(require_login(Some(1)), None);
}

#[test]
fn language_defaults_to_chinese() {
    assert_eq!(resolve_lang(None), "zh");
    assert_eq!(resolve_lang(Some("en".to_string())), "en");
}

#[test]
fn save_messages_cases() {
    assert_eq!(save_messages("en", "proj_saved", Ok(())), (None, Some("Project saved successfully.".to_string()), false));
    assert_eq!(save_messages("zh", "proj_saved", Err("boom".to_string())), (Some("Error: boom".to_string()), None, false));
    assert_eq!(save_messages("fr", "proj_saved", Ok(())), (None, Some("UNKNOWN".to_string()), true));
}

#[test]
fn projects_page_messages() {
    let (page, _) = projects_page("zh".to_string(), vec![project()], Some(Ok(())));
    assert_eq!(page.success_msg.as_deref(), Some("项目保存成功。"));
    assert_eq!(page.projects.len(), 1);
    let (page, _) = projects_page("en".to_string(), Vec::new(), Some(Err("UNIQUE".to_string())));
    assert_eq!(page.error_msg.as_deref(), Some("Error: UNIQUE"));
}

#[test]
fn dashboard_rows() {
    let rows = vec![
        DashboardBuildRow {
            id: 2,
            project_name: "demo".to_string(),
            status: "running".to_string(),
            started_at: None,
            finished_at: None,
        },
        DashboardBuildRow {
            id: 1,
            project_name: "demo".to_string(),
            status: "success".to_string(),
            started_at: Some("2024-01-01 10:00:00".to_string()),
            finished_at: Some("2024-01-01 10:01:00".to_string()),
        },
    ];
    let builds = dashboard_builds(&rows);
    assert_eq!(builds.len(), 2);
    assert_eq!(builds[0].id, 2);
    assert_eq!(builds[0].started_at, "");
    assert_eq!(builds[1].started_at, "2024-01-01 10:00:00");
    assert_eq!(builds[1].finished_at.as_deref(), Some("2024-01-01 10:01:00"));
}

#[test]
fn whole_run_records_one_status() {
    let mut phase = BuildPhase::CreatingLog;
    let mut finishes = Vec::new();
    for event in [BuildEvent::LogCreated, BuildEvent::Spawned, BuildEvent::ScriptExited(false)] {
        let (next, actions) = build_step(phase, event);
        for a in actions {
            if let BuildAction::Finish(s) = a {
                finishes.push(s);
            }
        }
        phase = next;
    }
    assert_eq!(phase, BuildPhase::Finished);
    assert_eq!(finishes, vec!["failed".to_string()]);
}
