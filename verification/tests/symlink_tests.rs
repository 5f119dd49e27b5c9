use mac_setup::common::error::SetupError;
use mac_setup::common::exchange::{command_of, Reply, Request, Step};
use mac_setup::common::logging::{GroupSummary, Log, LogLevel, LogLine, MemoryLogger};
use mac_setup::detectors::which::WhichDetector;
use mac_setup::symlinks::creator::{escaped, ShellSymlinkCreator, SymlinkCreator};
use mac_setup::symlinks::setup::{
    setup_symlinks, setup_symlinks_impl, symlink_catalog, SymlinkStage,
};
use mac_setup::symlinks::SymlinkConfig;
use mac_setup::detectors::app_detector::AppDetector;
use std::collections::HashMap;

fn tool_a() -> (WhichDetector, SymlinkConfig) {
    (
        WhichDetector::new("toola", "ToolA"),
        SymlinkConfig {
            source: "/opt/app/config/cfgA".to_string(),
            destination: "~/.cfgA".to_string(),
            installer_name: "ToolA",
        },
    )
}

fn tool_b() -> (WhichDetector, SymlinkConfig) {
    (
        WhichDetector::new("toolb", "ToolB"),
        SymlinkConfig {
            source: "/opt/app/config/cfgB".to_string(),
            destination: "~/My Files/.cfgB".to_string(),
            installer_name: "ToolB config",
        },
    )
}

fn sh(command: &str) -> Request {
    Request::Run(command_of("sh", vec!["-c".to_string(), command.to_string()]))
}

fn which(bin: &str) -> Request {
    Request::Run(command_of("which", vec![bin.to_string()]))
}

fn found() -> Reply {
    Reply::Succeeded("/usr/bin/tool\n".to_string())
}

fn missing() -> Reply {
    Reply::Failed { exit_code: Some(1), stderr: String::new() }
}

fn warn(msg: &str) -> LogLine {
    LogLine { level: LogLevel::Warn, msg: msg.to_string(), highlight: None }
}

fn info(msg: &str) -> LogLine {
    LogLine { level: LogLevel::Info, msg: msg.to_string(), highlight: None }
}

fn ok(msg: &str, highlight: &str) -> LogLine {
    LogLine { level: LogLevel::Success, msg: msg.to_string(), highlight: Some(highlight.to_string()) }
}

#[test]
fn spaces_are_escaped() {
    assert_eq!(escaped("a b  c"), "a b  c".replace(" ", "\\ "));
    assert_eq!(escaped(""), "");
    assert_eq!(escaped("plain"), "plain");
    assert_eq!(escaped(" "), "\\ ");
}

#[test]
fn the_link_command() {
    let (_, config) = tool_b();
    assert_eq!(
        ShellSymlinkCreator.command(&config),
        "mkdir -p $(dirname ~/My\\ Files/.cfgB) && ln -fsv /opt/app/config/cfgB ~/My\\ Files/.cfgB"
    );
    assert_eq!(
        ShellSymlinkCreator.request(&config),
        sh("mkdir -p $(dirname ~/My\\ Files/.cfgB) && ln -fsv /opt/app/config/cfgB ~/My\\ Files/.cfgB")
    );
}

#[test]
fn the_outcome_of_a_link_command() {
    let (_, config) = tool_a();
    let command = "mkdir -p $(dirname ~/.cfgA) && ln -fsv /opt/app/config/cfgA ~/.cfgA";
    assert_eq!(ShellSymlinkCreator.create(&config, &Reply::Succeeded("x".to_string())), Ok(()));
    assert_eq!(
        ShellSymlinkCreator.create(&config, &Reply::Failed { exit_code: Some(1), stderr: "denied".to_string() }),
        Err(SetupError::CommandFailed { command: command.to_string(), exit_code: Some(1) })
    );
    assert_eq!(
        ShellSymlinkCreator.create(&config, &Reply::IoFailure("no sh".to_string())),
        Err(SetupError::IoError("no sh".to_string()))
    );
}

#[test]
fn an_absent_capability_gives_one_warning_and_no_link() {
    let mut logger = MemoryLogger::default();
    let (mut setup, step) = setup_symlinks_impl(&mut logger, ShellSymlinkCreator, vec![tool_a()]);
    assert_eq!(step, Step::Ask(which("toola")));
    let before = logger.snapshot().lines.len();
    let step = setup.resume(&mut logger, &missing());
    assert_eq!(step, Step::Done(Ok(())));
    let s = logger.snapshot();
    assert_eq!(s.lines.len(), before + 1);
    assert_eq!(
        s.lines[before],
        warn("ToolA is not installed, skipping ToolA config symlink creation.")
    );
    assert_eq!(s.groups, vec![GroupSummary { title: "Symlinks".to_string(), affected_count: 0 }]);
    assert_eq!(setup.stage, SymlinkStage::Finished);
}

#[test]
fn a_present_capability_gives_one_link_command_and_one_success_entry() {
    let mut logger = MemoryLogger::default();
    let (mut setup, _) = setup_symlinks_impl(&mut logger, ShellSymlinkCreator, vec![tool_a()]);
    let before = logger.snapshot().lines.len();
    let step = setup.resume(&mut logger, &found());
    assert_eq!(
        step,
        Step::Ask(sh("mkdir -p $(dirname ~/.cfgA) && ln -fsv /opt/app/config/cfgA ~/.cfgA"))
    );
    assert_eq!(logger.snapshot().lines.len(), before);
    assert_eq!(setup.stage, SymlinkStage::Linking);
    let step = setup.resume(&mut logger, &Reply::Succeeded(String::new()));
    assert_eq!(step, Step::Done(Ok(())));
    let s = logger.snapshot();
    assert_eq!(s.lines.len(), before + 1);
    assert_eq!(s.lines[before], ok("Symlink created successfully", "~/.cfgA"));
    assert_eq!(s.groups, vec![GroupSummary { title: "Symlinks".to_string(), affected_count: 1 }]);
}

#[test]
fn tool_a_is_linked_and_counted() {
    // a host whose file system is a map from link to target
    let mut links: HashMap<String, String> = HashMap::new();
    let mut logger = MemoryLogger::default();
    let (mut setup, mut step) = setup_symlinks_impl(&mut logger, ShellSymlinkCreator, vec![tool_a()]);
    let outcome = loop {
        let reply = match step {
            Step::Done(outcome) => break outcome,
            Step::Ask(Request::Run(command)) => {
                if command.program == "which" {
                    assert_eq!(command.args, vec!["toola".to_string()]);
                    found()
                } else {
                    assert_eq!(command.program, "sh");
                    assert_eq!(
                        command.args,
                        vec![
                            "-c".to_string(),
                            "mkdir -p $(dirname ~/.cfgA) && ln -fsv /opt/app/config/cfgA ~/.cfgA".to_string()
                        ]
                    );
                    assert!(!links.contains_key("~/.cfgA"));
                    links.insert("~/.cfgA".to_string(), "/opt/app/config/cfgA".to_string());
                    Reply::Succeeded("~/.cfgA -> /opt/app/config/cfgA\n".to_string())
                }
            }
            Step::Ask(other) => panic!("unexpected request {:?}", other),
        };
        step = setup.resume(&mut logger, &reply);
    };
    assert_eq!(outcome, Ok(()));
    assert_eq!(links.get("~/.cfgA"), Some(&"/opt/app/config/cfgA".to_string()));
    let s = logger.snapshot();
    assert_eq!(s.groups, vec![GroupSummary { title: "Symlinks".to_string(), affected_count: 1 }]);
}

#[test]
fn links_are_taken_in_declaration_order_and_counted() {
    let mut logger = MemoryLogger::default();
    let (mut setup, step) =
        setup_symlinks_impl(&mut logger, ShellSymlinkCreator, vec![tool_a(), tool_b(), tool_a()]);
    assert_eq!(step, Step::Ask(which("toola")));
    assert_eq!(setup.resume(&mut logger, &missing()), Step::Ask(which("toolb")));
    let step = setup.resume(&mut logger, &found());
    assert_eq!(
        step,
        Step::Ask(sh(
            "mkdir -p $(dirname ~/My\\ Files/.cfgB) && ln -fsv /opt/app/config/cfgB ~/My\\ Files/.cfgB"
        ))
    );
    assert_eq!(setup.resume(&mut logger, &Reply::Succeeded(String::new())), Step::Ask(which("toola")));
    let step = setup.resume(&mut logger, &found());
    assert!(matches!(step, Step::Ask(Request::Run(_))));
    assert_eq!(setup.resume(&mut logger, &Reply::Succeeded(String::new())), Step::Done(Ok(())));
    let s = logger.snapshot();
    assert_eq!(
        s.lines,
        vec![
            info("▶ Create Symlinks"),
            warn("ToolA is not installed, skipping ToolA config symlink creation."),
            ok("Symlink created successfully", "~/My Files/.cfgB"),
            ok("Symlink created successfully", "~/.cfgA"),
        ]
    );
    assert_eq!(s.groups, vec![GroupSummary { title: "Symlinks".to_string(), affected_count: 2 }]);
    assert!(setup.is_valid());
}

#[test]
fn a_failed_link_ends_the_phase_with_its_error() {
    let mut logger = MemoryLogger::default();
    let (mut setup, _) = setup_symlinks_impl(&mut logger, ShellSymlinkCreator, vec![tool_a(), tool_b()]);
    setup.resume(&mut logger, &found());
    let step = setup.resume(&mut logger, &Reply::Failed { exit_code: Some(1), stderr: "denied".to_string() });
    assert_eq!(
        step,
        Step::Done(Err(SetupError::CommandFailed {
            command: "mkdir -p $(dirname ~/.cfgA) && ln -fsv /opt/app/config/cfgA ~/.cfgA".to_string(),
            exit_code: Some(1),
        }))
    );
    let s = logger.snapshot();
    assert_eq!(s.lines, vec![info("▶ Create Symlinks")]);
    assert!(s.groups.is_empty());
    assert_eq!(setup.stage, SymlinkStage::Finished);
    // a phase that has ended stays ended
    assert_eq!(setup.resume(&mut logger, &found()), Step::Done(Ok(())));
    assert_eq!(logger.snapshot().lines.len(), 1);
}

#[test]
fn no_links_means_an_empty_group() {
    let mut logger = MemoryLogger::default();
    let entries: Vec<(WhichDetector, SymlinkConfig)> = Vec::new();
    let (setup, step) = setup_symlinks_impl(&mut logger, ShellSymlinkCreator, entries);
    assert_eq!(step, Step::Done(Ok(())));
    assert_eq!(setup.stage, SymlinkStage::Finished);
    let s = logger.snapshot();
    assert_eq!(s.groups, vec![GroupSummary { title: "Symlinks".to_string(), affected_count: 0 }]);
}

#[test]
fn the_declared_links() {
    let catalog = symlink_catalog("/opt/app/config");
    let shown: Vec<(String, String, String, String)> = catalog
        .iter()
        .map(|(d, c)| {
            (d.name().to_string(), c.source.clone(), c.destination.clone(), c.installer_name.to_string())
        })
        .collect();
    let row = |a: &str, b: &str, c: &str, d: &str| (a.to_string(), b.to_string(), c.to_string(), d.to_string());
    assert_eq!(
        shown,
        vec![
            row("WezTerm", "/opt/app/config/.wezterm.lua", "~/.wezterm.lua", "WezTerm"),
            row(
                "oh-my-zsh",
                "/opt/app/config/stefc.zsh-theme",
                "~/.oh-my-zsh/themes/stefc.zsh-theme",
                "oh-my-zsh"
            ),
            row(
                "Visual Studio Code",
                "/opt/app/config/code.settings.json",
                "~/Library/Application Support/Code/User/settings.json",
                "Visual Studio Code"
            ),
            row("Yazi", "/opt/app/config/yazi.theme.toml", "~/.config/yazi/theme.toml", "Yazi"),
            row("Helix", "/opt/app/config/helix.config.toml", "~/.config/helix/config.toml", "Helix"),
        ]
    );
}

#[test]
fn the_symlink_phase_starts_with_the_first_declared_probe() {
    let mut logger = MemoryLogger::default();
    let (setup, step) = setup_symlinks(&mut logger, "/cfg");
    assert_eq!(step, Step::Ask(Request::PathExists("/Applications/WezTerm.app".to_string())));
    assert_eq!(setup.entries.len(), 5);
    assert_eq!(setup.cursor, 0);
    assert_eq!(logger.snapshot().lines, vec![info("▶ Create Symlinks")]);
}

#[test]
fn what_a_link_command_wrote_is_printed() {
    let creator = ShellSymlinkCreator;
    assert_eq!(
        creator.printed(&Reply::Succeeded("a -> b\n".to_string())),
        vec!["a -> b\n".to_string()]
    );
    assert!(creator.printed(&Reply::Succeeded(String::new())).is_empty());
    assert!(creator.printed(&Reply::Failed { exit_code: Some(1), stderr: "x".to_string() }).is_empty());
    assert!(creator.printed(&Reply::IoFailure("x".to_string())).is_empty());
}
