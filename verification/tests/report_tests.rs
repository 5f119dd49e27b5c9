use mac_setup::common::error::SetupError;
use mac_setup::common::logging::{
    footer_text, summary_line, GroupSummary, Log, LogLevel, LogLine, LogSnapshot, MemoryLogger,
};
use mac_setup::common::utils::replace_home_with_tilde;
use mac_setup::orchestrator::{exit_code, failure_policy, FailurePolicy, Phase};

#[test]
fn the_report_records_lines_in_order() {
    let mut logger = MemoryLogger::default();
    logger.info("one");
    logger.warn("two");
    logger.ok_with_highlight("three ->", "x");
    let s = logger.snapshot();
    assert_eq!(
        s.lines,
        vec![
            LogLine { level: LogLevel::Info, msg: "one".to_string(), highlight: None },
            LogLine { level: LogLevel::Warn, msg: "two".to_string(), highlight: None },
            LogLine {
                level: LogLevel::Success,
                msg: "three ->".to_string(),
                highlight: Some("x".to_string()),
            },
        ]
    );
    assert!(s.groups.is_empty());
}

#[test]
fn the_report_records_groups_in_order() {
    let mut logger = MemoryLogger::default();
    logger.add_group("A", 0);
    logger.add_group("B", 3);
    let s = logger.snapshot();
    assert!(s.lines.is_empty());
    assert_eq!(
        s.groups,
        vec![
            GroupSummary { title: "A".to_string(), affected_count: 0 },
            GroupSummary { title: "B".to_string(), affected_count: 3 },
        ]
    );
}

#[test]
fn a_snapshot_does_not_change_the_report() {
    let mut logger = MemoryLogger::default();
    logger.info("one");
    let first = logger.snapshot();
    logger.info("two");
    let second = logger.snapshot();
    assert_eq!(first.lines.len(), 1);
    assert_eq!(second.lines.len(), 2);
    assert_eq!(second.lines[0], first.lines[0]);
}

#[test]
fn the_summary_of_an_empty_report() {
    let s = LogSnapshot { lines: Vec::new(), groups: Vec::new() };
    assert_eq!(summary_line(&s), "Summary: no changes");
    assert_eq!(footer_text(&s, None), "Summary: no changes");
}

#[test]
fn the_summary_lists_groups_with_counts() {
    let s = LogSnapshot {
        lines: Vec::new(),
        groups: vec![
            GroupSummary { title: "Environment".to_string(), affected_count: 0 },
            GroupSummary { title: "Configurators".to_string(), affected_count: 2 },
            GroupSummary { title: "Symlinks".to_string(), affected_count: 15 },
        ],
    };
    assert_eq!(summary_line(&s), "Summary — Environment: 0 · Configurators: 2 · Symlinks: 15");
    assert_eq!(footer_text(&s, None), summary_line(&s));
    assert_eq!(footer_text(&s, Some("boom")), "Error: boom");
}

#[test]
fn failure_messages() {
    let e = SetupError::CommandFailed { command: "ln -s a b".to_string(), exit_code: None };
    assert_eq!(e.message(), "Command failed: 'ln -s a b' (exit code: None)");
    let e = SetupError::CommandFailed { command: "x".to_string(), exit_code: Some(2) };
    assert_eq!(e.message(), "Command failed: 'x' (exit code: Some(2))");
    let e = SetupError::CommandFailed { command: "x".to_string(), exit_code: Some(-9) };
    assert_eq!(e.message(), "Command failed: 'x' (exit code: Some(-9))");
    let e = SetupError::IoError("denied".to_string());
    assert_eq!(e.message(), "IO error: denied");
}

#[test]
fn the_home_directory_is_shown_as_a_tilde() {
    assert_eq!(replace_home_with_tilde("/home/u/work/x", Some("/home/u")), "~/work/x");
    assert_eq!(replace_home_with_tilde("/home/u", Some("/home/u")), "~/");
    assert_eq!(replace_home_with_tilde("/home/u/x", Some("/home/u/")), "~/x");
    assert_eq!(replace_home_with_tilde("/home/user2/x", Some("/home/u")), "/home/user2/x");
    assert_eq!(replace_home_with_tilde("/opt/x", Some("/home/u")), "/opt/x");
    assert_eq!(replace_home_with_tilde("/opt/x", None), "/opt/x");
    assert_eq!(replace_home_with_tilde("/opt/x", Some("")), "/opt/x");
}

#[test]
fn exit_codes() {
    assert_eq!(exit_code(&Ok(())), 0);
    assert_eq!(exit_code(&Err(SetupError::IoError("x".to_string()))), 1);
}

#[test]
fn failure_policies() {
    assert_eq!(failure_policy(Phase::Environment), FailurePolicy::Recoverable);
    assert_eq!(failure_policy(Phase::Settings), FailurePolicy::Recoverable);
    assert_eq!(failure_policy(Phase::Configurators), FailurePolicy::Fatal);
    assert_eq!(failure_policy(Phase::Symlinks), FailurePolicy::Fatal);
}
