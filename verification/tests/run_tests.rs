use mac_setup::common::error::SetupError;
use mac_setup::common::exchange::{command_of, Reply, Request, Step};
use mac_setup::configurators::{Progress, Stage};
use mac_setup::symlinks::setup::SymlinkStage;
use mac_setup::common::logging::{summary_line, GroupSummary, Log, LogLevel, MemoryLogger};
use mac_setup::common::platform::Platform;
use mac_setup::environment::EnvironmentFacts;
use mac_setup::orchestrator::{execute, exit_code, Phase, SetupRun};
use std::collections::HashMap;

/// A host that lives in memory: programs on the search path, paths that
/// exist, files with their content, and links.
struct Host {
    programs: Vec<String>,
    paths: Vec<String>,
    files: HashMap<String, String>,
    links: Vec<String>,
    failing: Vec<String>,
    asked: Vec<Request>,
    printed: Vec<String>,
}

impl Host {
    fn new() -> Host {
        Host {
            programs: Vec::new(),
            paths: Vec::new(),
            files: HashMap::new(),
            links: Vec::new(),
            failing: Vec::new(),
            asked: Vec::new(),
            printed: Vec::new(),
        }
    }

    fn perform(&mut self, request: &Request) -> Reply {
        self.asked.push(request.clone());
        match request {
            Request::PathExists(path) => {
                Reply::Exists(self.paths.contains(path) || self.files.contains_key(path))
            }
            Request::ReadFile(path) => match self.files.get(path) {
                Some(text) => Reply::Content(text.clone()),
                None => Reply::IoFailure("no such file".to_string()),
            },
            Request::WriteFile { path, content } => {
                self.files.insert(path.clone(), content.clone());
                Reply::Written
            }
            Request::Run(command) => {
                let text = format!("{} {}", command.program, command.args.join(" "));
                if self.failing.iter().any(|f| text.starts_with(f.as_str())) {
                    return Reply::Failed { exit_code: Some(1), stderr: "failed".to_string() };
                }
                if command.program == "which" {
                    if self.programs.contains(&command.args[0]) {
                        Reply::Succeeded(format!("/usr/bin/{}\n", command.args[0]))
                    } else {
                        Reply::Failed { exit_code: Some(1), stderr: String::new() }
                    }
                } else if command.program == "sh" {
                    self.links.push(command.args[1].clone());
                    Reply::Succeeded(format!("linked {}\n", self.links.len()))
                } else {
                    Reply::Succeeded(String::new())
                }
            }
        }
    }
}

fn facts() -> EnvironmentFacts {
    EnvironmentFacts {
        home: Some("/home/u".to_string()),
        current_dir: "/home/u/setup".to_string(),
        executable_dir: Some("/home/u/setup/target".to_string()),
    }
}

fn drive(host: &mut Host, os: &str) -> (MemoryLogger, SetupRun, Result<(), SetupError>) {
    let mut logger = MemoryLogger::default();
    let (mut run, mut step) = execute(&mut logger, os, &facts(), "/home/u/setup/target/config");
    let mut turns = 0;
    let outcome = loop {
        match step {
            Step::Done(outcome) => break outcome,
            Step::Ask(request) => {
                assert!(run.is_valid());
                let reply = host.perform(&request);
                host.printed.extend(run.printed(&reply));
                step = run.resume(&mut logger, &reply);
            }
        }
        turns += 1;
        assert!(turns < 200);
    };
    (logger, run, outcome)
}

fn groups(logger: &MemoryLogger) -> Vec<(String, usize)> {
    logger.snapshot().groups.iter().map(|g| (g.title.clone(), g.affected_count)).collect()
}

fn group(title: &str, count: usize) -> (String, usize) {
    (title.to_string(), count)
}

#[test]
fn a_bare_linux_machine_is_left_alone() {
    let mut host = Host::new();
    let (logger, run, outcome) = drive(&mut host, "linux");
    assert_eq!(outcome, Ok(()));
    assert_eq!(exit_code(&outcome), 0);
    assert_eq!(run.phase, Phase::Finished);
    assert_eq!(run.platform, Platform::Linux);
    assert_eq!(
        groups(&logger),
        vec![
            group("Environment", 0),
            group("System Settings", 1),
            group("Configurators", 0),
            group("Symlinks", 0)
        ]
    );
    assert!(host.links.is_empty());
    assert!(host.files.is_empty());
    // three configurator probes and five link probes, and nothing else
    assert_eq!(host.asked.len(), 8);
    let s = logger.snapshot();
    let warnings = s.lines.iter().filter(|l| l.level == LogLevel::Warn).count();
    assert_eq!(warnings, 5);
    assert_eq!(
        summary_line(&s),
        "Summary — Environment: 0 · System Settings: 1 · Configurators: 0 · Symlinks: 0"
    );
}

#[test]
fn the_phases_are_reported_in_their_order() {
    let mut host = Host::new();
    let (logger, _, _) = drive(&mut host, "linux");
    let headers: Vec<String> = logger
        .snapshot()
        .lines
        .iter()
        .filter(|l| l.msg.starts_with('▶'))
        .map(|l| l.msg.clone())
        .collect();
    assert_eq!(
        headers,
        vec![
            "▶ Environment".to_string(),
            "▶ Applying System Settings".to_string(),
            "▶ Configuration".to_string(),
            "▶ Create Symlinks".to_string()
        ]
    );
}

#[test]
fn present_tools_are_configured_and_linked() {
    let mut host = Host::new();
    host.programs = vec!["yazi".to_string(), "hx".to_string()];
    host.paths = vec!["~/.oh-my-zsh".to_string()];
    host.files.insert("~/.zshrc".to_string(), "# comment\n".to_string());
    let (logger, _, outcome) = drive(&mut host, "linux");
    assert_eq!(outcome, Ok(()));
    assert_eq!(
        groups(&logger),
        vec![
            group("Environment", 0),
            group("System Settings", 1),
            group("Configurators", 2),
            group("Symlinks", 3)
        ]
    );
    assert_eq!(
        host.files.get("~/.zshrc").unwrap(),
        "ZSH_THEME=\"stefc\"\nplugins=(z gh)\n# comment\n\n# Added by mac-setup\nexport HOMEBREW_NO_AUTO_UPDATE=1\n"
    );
    assert_eq!(
        host.links,
        vec![
            "mkdir -p $(dirname ~/.oh-my-zsh/themes/stefc.zsh-theme) && ln -fsv /home/u/setup/target/config/stefc.zsh-theme ~/.oh-my-zsh/themes/stefc.zsh-theme".to_string(),
            "mkdir -p $(dirname ~/.config/yazi/theme.toml) && ln -fsv /home/u/setup/target/config/yazi.theme.toml ~/.config/yazi/theme.toml".to_string(),
            "mkdir -p $(dirname ~/.config/helix/config.toml) && ln -fsv /home/u/setup/target/config/helix.config.toml ~/.config/helix/config.toml".to_string(),
        ]
    );
}

#[test]
fn the_host_prints_the_progress_of_the_rc_patch_and_what_the_link_commands_wrote() {
    let mut host = Host::new();
    host.programs = vec!["hx".to_string()];
    host.paths = vec!["~/.oh-my-zsh".to_string()];
    host.files.insert("~/.zshrc".to_string(), "# comment\n".to_string());
    let (_, _, outcome) = drive(&mut host, "linux");
    assert_eq!(outcome, Ok(()));
    assert_eq!(
        host.printed,
        vec![
            "Configuring .zshrc at \"~/.zshrc\"...\n".to_string(),
            ".zshrc configured successfully\n".to_string(),
            "  - Theme set to: stefc\n".to_string(),
            "  - Plugins: z, gh\n".to_string(),
            "  - Export HOMEBREW_NO_AUTO_UPDATE=1\n".to_string(),
            "linked 1\n".to_string(),
            "linked 2\n".to_string(),
        ]
    );
}

#[test]
fn nothing_is_printed_where_nothing_is_patched_or_linked() {
    let mut host = Host::new();
    let (_, _, outcome) = drive(&mut host, "linux");
    assert_eq!(outcome, Ok(()));
    assert!(host.printed.is_empty());
    let mut host = Host::new();
    host.programs = vec!["hx".to_string()];
    host.failing = vec!["sh -c".to_string()];
    drive(&mut host, "macos");
    assert!(host.printed.is_empty());
}

#[test]
fn a_failed_write_prints_only_the_start_of_the_patch() {
    let mut host = Host::new();
    host.files.insert("~/.zshrc".to_string(), String::new());
    let mut logger = MemoryLogger::default();
    let (mut run, mut step) = execute(&mut logger, "linux", &facts(), "/cfg");
    let mut printed: Vec<String> = Vec::new();
    let outcome = loop {
        match step {
            Step::Done(outcome) => break outcome,
            Step::Ask(request) => {
                let reply = match &request {
                    Request::WriteFile { .. } => Reply::IoFailure("disk full".to_string()),
                    other => host.perform(other),
                };
                printed.extend(run.printed(&reply));
                step = run.resume(&mut logger, &reply);
            }
        }
    };
    assert_eq!(outcome, Err(SetupError::IoError("Failed to write .zshrc: disk full".to_string())));
    assert_eq!(printed, vec!["Configuring .zshrc at \"~/.zshrc\"...\n".to_string()]);
}

#[test]
fn the_run_enters_each_phase_at_its_start() {
    let mut host = Host::new();
    host.programs = vec!["yazi".to_string()];
    let mut logger = MemoryLogger::default();
    let (mut run, mut step) = execute(&mut logger, "macos", &facts(), "/cfg");
    let mut phase = run.phase;
    assert_eq!(phase, Phase::Environment);
    loop {
        let request = match step {
            Step::Done(_) => break,
            Step::Ask(request) => request,
        };
        let reply = host.perform(&request);
        step = run.resume(&mut logger, &reply);
        if run.phase != phase {
            phase = run.phase;
            match phase {
                Phase::Settings => {
                    let settings = run.settings.as_ref().unwrap();
                    assert_eq!(settings.cursor, 0);
                    assert!(!settings.finished);
                }
                Phase::Configurators => {
                    let phase_run = run.configurators.as_ref().unwrap();
                    assert_eq!(phase_run.index, 0);
                    assert_eq!(phase_run.affected, 0);
                    assert!(!phase_run.finished);
                    assert_eq!(
                        phase_run.progress,
                        Progress { stage: Stage::Probing, ran: false, cursor: 0, listing: String::new() }
                    );
                    assert_eq!(step, Step::Ask(Request::Run(command_of("which", vec!["yazi".to_string()]))));
                }
                Phase::Symlinks => {
                    let links = run.symlinks.as_ref().unwrap();
                    assert_eq!(links.cursor, 0);
                    assert_eq!(links.affected, 0);
                    assert_eq!(links.stage, SymlinkStage::Probing);
                }
                _ => {}
            }
        }
    }
    assert_eq!(phase, Phase::Finished);
}

#[test]
fn a_second_run_changes_nothing_in_the_rc_file() {
    let mut host = Host::new();
    host.files.insert("~/.zshrc".to_string(), "alias a=b\nplugins=(git)\n".to_string());
    drive(&mut host, "linux");
    let once = host.files.get("~/.zshrc").unwrap().clone();
    drive(&mut host, "linux");
    assert_eq!(host.files.get("~/.zshrc").unwrap(), &once);
    assert_eq!(once, "ZSH_THEME=\"stefc\"\nalias a=b\nplugins=(git z gh)\n\n# Added by mac-setup\nexport HOMEBREW_NO_AUTO_UPDATE=1\n");
}

#[test]
fn a_failing_configurator_ends_the_run_before_the_symlinks() {
    let mut host = Host::new();
    host.programs = vec!["yazi".to_string(), "hx".to_string()];
    host.failing = vec!["ya pkg add".to_string()];
    let (logger, run, outcome) = drive(&mut host, "linux");
    assert_eq!(
        outcome,
        Err(SetupError::CommandFailed {
            command: "ya pkg add Chromium-3-Oxide/everforest-medium".to_string(),
            exit_code: Some(1),
        })
    );
    assert_eq!(exit_code(&outcome), 1);
    assert_eq!(run.phase, Phase::Finished);
    assert_eq!(groups(&logger), vec![group("Environment", 0), group("System Settings", 1)]);
    assert!(host.links.is_empty());
    // the report still holds what was done before the failure
    assert!(logger.snapshot().lines.iter().any(|l| l.msg == "▶ Configuration"));
    assert!(!logger.snapshot().lines.iter().any(|l| l.msg == "▶ Create Symlinks"));
}

#[test]
fn a_failing_symlink_ends_the_run() {
    let mut host = Host::new();
    host.programs = vec!["hx".to_string()];
    host.failing = vec!["sh -c".to_string()];
    let (logger, _, outcome) = drive(&mut host, "linux");
    assert!(matches!(outcome, Err(SetupError::CommandFailed { .. })));
    assert_eq!(
        groups(&logger),
        vec![group("Environment", 0), group("System Settings", 1), group("Configurators", 0)]
    );
}

#[test]
fn failing_settings_do_not_end_the_run() {
    let mut host = Host::new();
    host.failing = vec!["defaults".to_string(), "ioreg".to_string()];
    let (logger, _, outcome) = drive(&mut host, "macos");
    assert_eq!(outcome, Ok(()));
    assert_eq!(
        groups(&logger),
        vec![group("Environment", 0), group("Configurators", 0), group("Symlinks", 0)]
    );
    let s = logger.snapshot();
    assert!(s.lines.iter().any(|l| l.level == LogLevel::Warn
        && l.msg == "Failed to apply system settings: Failed to set mouse com.apple.swipescrolldirection: failed"));
    // only the first setting command was tried
    let defaults = host
        .asked
        .iter()
        .filter(|r| matches!(r, Request::Run(c) if c.program == "defaults"))
        .count();
    assert_eq!(defaults, 1);
}

#[test]
fn macos_applies_its_settings() {
    let mut host = Host::new();
    let (logger, run, outcome) = drive(&mut host, "macos");
    assert_eq!(outcome, Ok(()));
    assert_eq!(run.platform, Platform::MacOS);
    assert_eq!(
        groups(&logger),
        vec![
            group("Environment", 0),
            group("System Settings", 1),
            group("Configurators", 0),
            group("Symlinks", 0)
        ]
    );
    let programs: Vec<String> = host
        .asked
        .iter()
        .filter_map(|r| match r {
            Request::Run(c) if c.program != "which" => Some(c.program.clone()),
            _ => None,
        })
        .collect();
    assert_eq!(
        programs,
        vec![
            "ioreg".to_string(),
            "defaults".to_string(),
            "defaults".to_string(),
            "/System/Library/PrivateFrameworks/SystemAdministration.framework/Resources/activateSettings"
                .to_string()
        ]
    );
}

#[test]
fn a_finished_run_stays_finished() {
    let mut host = Host::new();
    let (mut logger, mut run, _) = drive(&mut host, "linux");
    let lines = logger.snapshot().lines.len();
    assert_eq!(run.resume(&mut logger, &Reply::Written), Step::Done(Ok(())));
    assert_eq!(logger.snapshot().lines.len(), lines);
    let _ = GroupSummary { title: String::new(), affected_count: 0 };
}
