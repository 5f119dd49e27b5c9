use mac_setup::common::exchange::{command_of, Reply, Request, Step};
use mac_setup::common::logging::{GroupSummary, Log, LogLevel, LogLine, MemoryLogger};
use mac_setup::common::platform::Platform;
use mac_setup::environment::{log_environment_info, log_serial_number, EnvironmentFacts};
use mac_setup::settings::linux::LinuxSettings;
use mac_setup::settings::macos::MacOSSettings;
use mac_setup::settings::windows::WindowsSettings;
use mac_setup::settings::{apply_system_settings, create_platform_settings, SystemSettings};

fn run(program: &str, args: &[&str]) -> Request {
    Request::Run(command_of(program, args.iter().map(|a| a.to_string()).collect()))
}

fn warn(msg: &str) -> LogLine {
    LogLine { level: LogLevel::Warn, msg: msg.to_string(), highlight: None }
}

fn info(msg: &str) -> LogLine {
    LogLine { level: LogLevel::Info, msg: msg.to_string(), highlight: None }
}

fn ok(msg: &str, highlight: &str) -> LogLine {
    LogLine { level: LogLevel::Success, msg: msg.to_string(), highlight: Some(highlight.to_string()) }
}

fn group(title: &str, count: usize) -> GroupSummary {
    GroupSummary { title: title.to_string(), affected_count: count }
}

const ACTIVATE: &str =
    "/System/Library/PrivateFrameworks/SystemAdministration.framework/Resources/activateSettings";

#[test]
fn settings_handlers_by_platform() {
    let mac = create_platform_settings(Platform::MacOS);
    assert_eq!(mac.platform(), Platform::MacOS);
    assert_eq!(mac.name(), "macOS Settings");
    assert_eq!(mac.commands().len(), 3);
    let linux = create_platform_settings(Platform::Linux);
    assert_eq!(linux.platform(), Platform::Linux);
    assert_eq!(linux.name(), "Linux Settings");
    assert!(linux.commands().is_empty());
    let windows = create_platform_settings(Platform::Windows);
    assert_eq!(windows.platform(), Platform::Windows);
    assert_eq!(windows.name(), "Windows Settings");
    assert!(windows.commands().is_empty());
    assert_eq!(LinuxSettings.name(), "Linux Settings");
    assert_eq!(WindowsSettings.platform(), Platform::Windows);
}

#[test]
fn the_macos_commands() {
    let steps = MacOSSettings.commands();
    assert_eq!(
        steps[0].request(),
        run("defaults", &["write", "-g", "com.apple.swipescrolldirection", "-bool", "false"])
    );
    assert_eq!(steps[0].failure, "Failed to set mouse com.apple.swipescrolldirection");
    assert_eq!(
        steps[1].request(),
        run("defaults", &["write", "com.apple.AppleMultitouchTrackpad", "Clicking", "-bool", "true"])
    );
    assert_eq!(steps[1].failure, "Failed to set com.apple.AppleMultitouchTrackpad Clicking");
    assert_eq!(steps[2].request(), run(ACTIVATE, &["-u"]));
    assert_eq!(steps[2].failure, "Failed to activate settings");
    assert_eq!(MacOSSettings.enable_trackpad_tap_to_click(), steps[1]);
    assert_eq!(MacOSSettings.activate_settings(), steps[2]);
    assert_eq!(
        MacOSSettings.set_global_setting_value("k", true).request(),
        run("defaults", &["write", "-g", "k", "-bool", "true"])
    );
    assert_eq!(
        MacOSSettings.set_local_setting_value("d", "k", false).request(),
        run("defaults", &["write", "d", "k", "-bool", "false"])
    );
}

#[test]
fn the_outcome_of_a_setting_command() {
    let step = MacOSSettings.activate_settings();
    assert_eq!(step.outcome(&Reply::Succeeded(String::new())), Ok(()));
    assert_eq!(
        step.outcome(&Reply::Failed { exit_code: Some(1), stderr: "no such domain".to_string() }),
        Err("Failed to activate settings: no such domain".to_string())
    );
    assert_eq!(
        step.outcome(&Reply::IoFailure("not found".to_string())),
        Err("Failed to activate settings: not found".to_string())
    );
    assert_eq!(
        step.outcome(&Reply::Exists(true)),
        Err("Failed to activate settings: the reply does not answer the request".to_string())
    );
}

#[test]
fn linux_settings_are_applied_at_once() {
    let mut logger = MemoryLogger::default();
    let (run, step) = apply_system_settings(&mut logger, Platform::Linux);
    assert_eq!(step, Step::Done(Ok(())));
    assert!(run.finished);
    let s = logger.snapshot();
    assert_eq!(
        s.lines,
        vec![
            info("▶ Applying System Settings"),
            info("Applying Linux Settings..."),
            ok("System settings applied ->", "Linux Settings"),
        ]
    );
    assert_eq!(s.groups, vec![group("System Settings", 1)]);
}

#[test]
fn macos_settings_run_their_commands_in_order() {
    let mut logger = MemoryLogger::default();
    let (mut phase, step) = apply_system_settings(&mut logger, Platform::MacOS);
    assert_eq!(
        step,
        Step::Ask(run("defaults", &["write", "-g", "com.apple.swipescrolldirection", "-bool", "false"]))
    );
    let step = phase.resume(&mut logger, &Reply::Succeeded(String::new()));
    assert_eq!(
        step,
        Step::Ask(run(
            "defaults",
            &["write", "com.apple.AppleMultitouchTrackpad", "Clicking", "-bool", "true"]
        ))
    );
    let step = phase.resume(&mut logger, &Reply::Succeeded(String::new()));
    assert_eq!(step, Step::Ask(run(ACTIVATE, &["-u"])));
    assert!(logger.snapshot().groups.is_empty());
    let step = phase.resume(&mut logger, &Reply::Succeeded(String::new()));
    assert_eq!(step, Step::Done(Ok(())));
    let s = logger.snapshot();
    assert_eq!(
        s.lines,
        vec![
            info("▶ Applying System Settings"),
            info("Applying macOS Settings..."),
            ok("System settings applied ->", "macOS Settings"),
        ]
    );
    assert_eq!(s.groups, vec![group("System Settings", 1)]);
    assert!(phase.is_valid());
}

#[test]
fn a_failed_setting_is_a_warning_and_not_a_failure() {
    let mut logger = MemoryLogger::default();
    let (mut phase, _) = apply_system_settings(&mut logger, Platform::MacOS);
    phase.resume(&mut logger, &Reply::Succeeded(String::new()));
    let step =
        phase.resume(&mut logger, &Reply::Failed { exit_code: Some(1), stderr: "bad key".to_string() });
    assert_eq!(step, Step::Done(Ok(())));
    assert!(phase.finished);
    let s = logger.snapshot();
    assert_eq!(
        s.lines,
        vec![
            info("▶ Applying System Settings"),
            info("Applying macOS Settings..."),
            warn(
                "Failed to apply system settings: Failed to set com.apple.AppleMultitouchTrackpad Clicking: bad key"
            ),
        ]
    );
    assert!(s.groups.is_empty());
    assert_eq!(phase.resume(&mut logger, &Reply::Succeeded(String::new())), Step::Done(Ok(())));
    assert_eq!(logger.snapshot().lines.len(), 3);
}

fn facts() -> EnvironmentFacts {
    EnvironmentFacts {
        home: Some("/home/u".to_string()),
        current_dir: "/home/u/work".to_string(),
        executable_dir: Some("/opt/app".to_string()),
    }
}

#[test]
fn the_environment_report_on_linux() {
    let mut logger = MemoryLogger::default();
    let (report, step) = log_environment_info(&mut logger, &Platform::Linux, &facts());
    assert_eq!(step, Step::Done(Ok(())));
    assert!(report.finished);
    let s = logger.snapshot();
    assert_eq!(
        s.lines,
        vec![
            info("▶ Environment"),
            ok("Detected platform ->", "Linux"),
            ok("Current working directory ->", "~/work"),
            ok("Executable directory ->", "/opt/app"),
        ]
    );
    assert_eq!(s.groups, vec![group("Environment", 0)]);
}

#[test]
fn the_environment_report_without_an_executable_directory() {
    let mut logger = MemoryLogger::default();
    let facts = EnvironmentFacts { home: None, current_dir: "/w".to_string(), executable_dir: None };
    log_environment_info(&mut logger, &Platform::Windows, &facts);
    let s = logger.snapshot();
    assert_eq!(s.lines[1], ok("Detected platform ->", "Windows"));
    assert_eq!(s.lines[2], ok("Current working directory ->", "/w"));
    assert_eq!(s.lines[3], ok("Executable directory ->", "<unknown>"));
}

#[test]
fn the_environment_report_on_macos_asks_for_the_serial_number() {
    let mut logger = MemoryLogger::default();
    let (mut report, step) = log_environment_info(&mut logger, &Platform::MacOS, &facts());
    assert_eq!(step, Step::Ask(run("ioreg", &["-l"])));
    assert!(!report.finished);
    assert!(logger.snapshot().groups.is_empty());
    let listing = "  \"IOPlatformSerialNumber\"\" = \"C02XK1ABCD\"\n";
    let step = report.resume(&mut logger, &Reply::Succeeded(listing.to_string()));
    assert_eq!(step, Step::Done(Ok(())));
    let s = logger.snapshot();
    assert_eq!(s.lines.len(), 5);
    assert_eq!(s.lines[4], ok("Serial number ->", "C02XK1ABCD"));
    assert_eq!(s.groups, vec![group("Environment", 0)]);
    // ended: nothing more is reported
    report.resume(&mut logger, &Reply::Succeeded(listing.to_string()));
    assert_eq!(logger.snapshot().lines.len(), 5);
    assert_eq!(logger.snapshot().groups.len(), 1);
}

#[test]
fn a_failed_listing_reports_no_serial_number() {
    for reply in [
        Reply::Failed { exit_code: Some(1), stderr: String::new() },
        Reply::IoFailure("no ioreg".to_string()),
        Reply::Succeeded("nothing here".to_string()),
    ] {
        let mut logger = MemoryLogger::default();
        let (mut report, _) = log_environment_info(&mut logger, &Platform::MacOS, &facts());
        assert_eq!(report.resume(&mut logger, &reply), Step::Done(Ok(())));
        let s = logger.snapshot();
        assert_eq!(s.lines.len(), 4);
        assert_eq!(s.groups, vec![group("Environment", 0)]);
    }
}

#[test]
fn a_serial_number_is_one_line_and_none_is_no_line() {
    let mut logger = MemoryLogger::default();
    log_serial_number(&mut logger, &None);
    assert!(logger.snapshot().lines.is_empty());
    log_serial_number(&mut logger, &Some("C02".to_string()));
    assert_eq!(logger.snapshot().lines, vec![ok("Serial number ->", "C02")]);
    assert!(logger.snapshot().groups.is_empty());
}
