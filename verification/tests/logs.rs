use arsa_backend::error::ArsaError;
use arsa_backend::logs::{
    confirm_log_file, confirm_log_dir, crash_log_file, find_latest_log_dir, is_valid_log_dir_name,
    log_dir_to_delete, log_file_path, Log, LogDirCandidate, ResultLogs,
};
use arsa_backend::paths::LogType;

const ID: u128 = 0xf30b8424_28d6_4b0a_9348_9f05327fa886;

#[test]
fn test_regex() {
    assert!(is_valid_log_dir_name("logs_2026-03-14_15-21-11"));
    assert!(!is_valid_log_dir_name("alogs_2026-03-14_15-21-11"));
    assert!(!is_valid_log_dir_name("2026-03-14_15-21-11"));
    assert!(!is_valid_log_dir_name("logs_2026_03-14_15-21-11"));
    assert!(!is_valid_log_dir_name("../logs_2026_03-14_15-21-11"));
    assert!(!is_valid_log_dir_name("/logs_2026_03-14_15-21-11/"));
}

#[test]
fn log_dir_names_need_ascii_digits_and_exact_length() {
    assert!(!is_valid_log_dir_name("logs_2026-03-14_15-21-11\n"));
    assert!(!is_valid_log_dir_name("logs_2026-03-14_15-21-1"));
    assert!(!is_valid_log_dir_name("logs_2026-03-14_15-21-1x"));
    assert!(!is_valid_log_dir_name("logs_２026-03-14_15-21-11"));
    assert!(!is_valid_log_dir_name(""));
    assert!(is_valid_log_dir_name("logs_0000-00-00_00-00-00"));
}

fn cand(name: &str, is_dir: bool, modified: Option<u128>, console: bool) -> LogDirCandidate {
    LogDirCandidate {
        name: name.to_string(),
        is_dir,
        modified_nanos: modified,
        has_console_log: console,
    }
}

#[test]
fn latest_log_dir_is_the_newest_with_console_log() {
    let c = vec![
        cand("logs_2026-03-14_15-21-11", true, Some(10), true),
        cand("logs_2026-03-15_15-21-11", true, Some(30), true),
        cand("logs_2026-03-13_15-21-11", true, Some(20), true),
    ];
    assert_eq!(find_latest_log_dir(&c), Some(1));
}

#[test]
fn latest_log_dir_skips_files_and_foreign_names() {
    let c = vec![
        cand("logs_2026-03-14_15-21-11", true, Some(10), true),
        cand("logs_2026-03-15_15-21-11", false, Some(30), true),
        cand("other", true, Some(40), true),
        cand("logs_2026-03-16_15-21-11", true, None, true),
    ];
    assert_eq!(find_latest_log_dir(&c), Some(0));
}

#[test]
fn newer_dir_without_console_log_hides_older_ones_read_after_it() {
    let c = vec![
        cand("logs_2026-03-15_15-21-11", true, Some(30), false),
        cand("logs_2026-03-14_15-21-11", true, Some(10), true),
    ];
    assert_eq!(find_latest_log_dir(&c), None);
    let c = vec![
        cand("logs_2026-03-14_15-21-11", true, Some(10), true),
        cand("logs_2026-03-15_15-21-11", true, Some(30), false),
    ];
    assert_eq!(find_latest_log_dir(&c), Some(0));
    assert_eq!(find_latest_log_dir(&Vec::new()), None);
    let c = vec![cand("logs_2026-03-14_15-21-11", true, Some(0), true)];
    assert_eq!(find_latest_log_dir(&c), None);
}

#[test]
fn log_file_path_checks_server_then_name() {
    assert!(matches!(
        log_file_path(false, ID, "logs_2026-03-14_15-21-11".to_string(), LogType::Console),
        Err(ArsaError::NotFound)
    ));
    assert!(matches!(
        log_file_path(true, ID, "../etc".to_string(), LogType::Console),
        Err(ArsaError::BadRequest)
    ));
    let p = log_file_path(true, ID, "logs_2026-03-14_15-21-11".to_string(), LogType::Script)
        .unwrap();
    assert_eq!(
        p,
        vec![
            "f30b8424-28d6-4b0a-9348-9f05327fa886",
            "profiles",
            "logs",
            "logs_2026-03-14_15-21-11",
            "script.log"
        ]
    );
}

#[test]
fn log_dir_to_delete_checks_server_then_name() {
    assert!(matches!(
        log_dir_to_delete(false, ID, "logs_2026-03-14_15-21-11".to_string()),
        Err(ArsaError::NotFound)
    ));
    assert!(matches!(
        log_dir_to_delete(true, ID, "/tmp".to_string()),
        Err(ArsaError::BadRequest)
    ));
    let p = log_dir_to_delete(true, ID, "logs_2026-03-14_15-21-11".to_string()).unwrap();
    assert_eq!(p.len(), 4);
    assert_eq!(p[3], "logs_2026-03-14_15-21-11");
    assert!(confirm_log_dir(true, true).is_ok());
    assert!(matches!(confirm_log_dir(false, false), Err(ArsaError::NotFound)));
    assert!(matches!(confirm_log_dir(true, false), Err(ArsaError::NotFound)));
}

#[test]
fn crash_log_needs_server_and_file() {
    assert!(matches!(crash_log_file(false, ID), Err(ArsaError::NotFound)));
    let p = crash_log_file(true, ID).unwrap();
    assert_eq!(p.last().unwrap(), "CrashReports.log");
    assert!(confirm_log_file(true).is_ok());
    assert!(matches!(confirm_log_file(false), Err(ArsaError::NotFound)));
}

#[test]
fn listing_result() {
    let r = ResultLogs::from_listing(None);
    assert!(!r.success && !r.contains_crash_report_log && r.logs.is_empty());
    let log = Log {
        dir: "logs_2026-03-14_15-21-11".to_string(),
        contains_console_log: true,
        contains_script_log: false,
        contains_error_log: false,
        contains_crash_log: false,
    };
    let r = ResultLogs::from_listing(Some((vec![log], true)));
    assert!(r.success && r.contains_crash_report_log);
    assert_eq!(r.logs.len(), 1);
    assert_eq!(r.logs[0].dir, "logs_2026-03-14_15-21-11");
}
