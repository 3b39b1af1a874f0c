use rust_ci::handlers::builds::{build_log_response, LogQuery as BuildLogQuery};
use rust_ci::handlers::project_logs::{
    collect_log_files, is_safe_log_filename, project_log_response, DirEntryInfo, EntryMetadata,
    LogQuery,
};
use rust_ci::handlers::{log_poll, LogRead};

const NOTICE: &str = "... (skipping older logs, showing latest 5000 lines) ...\n";

#[test]
fn unopened_log_answers_nothing_new() {
    assert_eq!(log_poll(42, LogRead::Unopened), Some((String::new(), 42)));
}

#[test]
fn first_poll_of_short_log() {
    let r = log_poll(0, LogRead::Opened { tail_start: 0, text: Some("hello\n".to_string()) });
    assert_eq!(r, Some(("hello\n".to_string(), 6)));
}

#[test]
fn first_poll_of_long_log_shows_notice() {
    let r = log_poll(0, LogRead::Opened { tail_start: 100, text: Some("tail\n".to_string()) });
    let expected = format!("{}tail\n", NOTICE);
    // The next poll resumes right after the file bytes shown; the notice is
    // not part of the file.
    assert_eq!(r, Some((expected, 105)));
}

#[test]
fn first_poll_with_invalid_utf8_keeps_notice_only() {
    let r = log_poll(0, LogRead::Opened { tail_start: 100, text: None });
    assert_eq!(r, Some((NOTICE.to_string(), 100)));
}

#[test]
fn later_poll_resumes_at_offset() {
    let r = log_poll(10, LogRead::Opened { tail_start: 999, text: Some("é\n".to_string()) });
    assert_eq!(r, Some(("é\n".to_string(), 13)));
    let r = log_poll(10, LogRead::Opened { tail_start: 999, text: None });
    assert_eq!(r, Some((String::new(), 10)));
}

#[test]
fn poll_past_u64_is_refused() {
    let r = log_poll(u64::MAX, LogRead::Opened { tail_start: 0, text: Some("x".to_string()) });
    assert_eq!(r, None);
}

#[test]
fn filename_guard() {
    assert!(is_safe_log_filename("app.log"));
    assert!(is_safe_log_filename("app.2024.log"));
    assert!(is_safe_log_filename(""));
    assert!(is_safe_log_filename(".hidden"));
    assert!(!is_safe_log_filename("../etc/passwd"));
    assert!(!is_safe_log_filename("a/b.log"));
    assert!(!is_safe_log_filename("a\\b.log"));
    assert!(!is_safe_log_filename("a..b"));
    assert!(!is_safe_log_filename(".."));
}

#[test]
fn project_log_response_cases() {
    let q = LogQuery { offset: 7 };
    let r = project_log_response(&q, false, "x.log", LogRead::Unopened).unwrap();
    assert_eq!((r.text.as_str(), r.new_offset), ("", 7));
    let r = project_log_response(&q, true, "../x", LogRead::Unopened).unwrap();
    assert_eq!((r.text.as_str(), r.new_offset), ("Invalid filename", 7));
    let r = project_log_response(
        &q,
        true,
        "x.log",
        LogRead::Opened { tail_start: 0, text: Some("abc".to_string()) },
    )
    .unwrap();
    assert_eq!((r.text.as_str(), r.new_offset), ("abc", 10));
}

#[test]
fn build_log_response_cases() {
    let q = BuildLogQuery { offset: 0 };
    let r = build_log_response(&q, None, LogRead::Unopened).unwrap();
    assert_eq!((r.text.as_str(), r.new_offset, r.status.as_str()), ("", 0, "unknown"));
    let r = build_log_response(
        &q,
        Some("running".to_string()),
        LogRead::Opened { tail_start: 0, text: Some("Build started...\n".to_string()) },
    )
    .unwrap();
    assert_eq!(
        (r.text.as_str(), r.new_offset, r.status.as_str()),
        ("Build started...\n", 17, "running")
    );
    let r = build_log_response(&q, Some("failed".to_string()), LogRead::Unopened).unwrap();
    assert_eq!((r.text.as_str(), r.new_offset, r.status.as_str()), ("", 0, "failed"));
}

fn entry(name: &str, meta: Option<(bool, u64)>) -> DirEntryInfo {
    DirEntryInfo {
        name: name.to_string(),
        metadata: meta.map(|(is_file, len)| EntryMetadata { is_file, len }),
    }
}

#[test]
fn log_files_are_listed_by_name() {
    let entries = vec![
        entry("b.log", Some((true, 2))),
        entry("sub", Some((false, 0))),
        entry("a.log", Some((true, 1))),
        entry("broken", None),
        entry("C.log", Some((true, 3))),
        entry("a.log.1", Some((true, 4))),
    ];
    let files = collect_log_files(&entries);
    let names: Vec<(&str, u64)> = files.iter().map(|f| (f.name.as_str(), f.size)).collect();
    assert_eq!(names, vec![("C.log", 3), ("a.log", 1), ("a.log.1", 4), ("b.log", 2)]);
}

#[test]
fn equal_names_keep_directory_order() {
    let entries = vec![
        entry("x", Some((true, 1))),
        entry("w", Some((true, 9))),
        entry("x", Some((true, 2))),
    ];
    let files = collect_log_files(&entries);
    let names: Vec<(&str, u64)> = files.iter().map(|f| (f.name.as_str(), f.size)).collect();
    assert_eq!(names, vec![("w", 9), ("x", 1), ("x", 2)]);
}

#[test]
fn empty_directory_lists_nothing() {
    assert!(collect_log_files(&Vec::new()).is_empty());
}

#[test]
fn poll_at_end_of_log_is_idle() {
    let r = log_poll(10, LogRead::Opened { tail_start: 0, text: Some(String::new()) });
    assert_eq!(r, Some((String::new(), 10)));
}

#[test]
fn names_order_by_bytes() {
    let entries = vec![entry("é.log", Some((true, 1))), entry("z.log", Some((true, 2)))];
    let files = collect_log_files(&entries);
    let names: Vec<&str> = files.iter().map(|f| f.name.as_str()).collect();
    assert_eq!(names, vec!["z.log", "é.log"]);
}

#[test]
fn successive_polls_cover_the_log() {
    let (t1, next) = log_poll(0, LogRead::Opened { tail_start: 0, text: Some("a\nb\n".to_string()) }).unwrap();
    let (t2, end) = log_poll(next, LogRead::Opened { tail_start: 0, text: Some("c\n".to_string()) }).unwrap();
    assert_eq!(format!("{}{}", t1, t2), "a\nb\nc\n");
    assert_eq!(end, 6);
}
