//! System settings: best-effort changes to the operating system's
//! preferences. A failure here is reported and never ends the run.

pub mod linux;
pub mod macos;
pub mod windows;

use crate::common::exchange::{
    stray_reply_text, Command, CommandView, Outcome, Reply, ReplyView, Request, RequestView, Step,
    StepView,
};
use crate::common::logging::{
    group_of, info_line, ok_line, warn_line, GroupView, Log, LogLineView,
};
use crate::common::platform::Platform;
use crate::configurators::zshrc::line_texts;
use crate::settings::linux::LinuxSettings;
use crate::settings::macos::{macos_commands, MacOSSettings};
use crate::settings::windows::WindowsSettings;
use vstd::prelude::*;
use vstd::string::StringExecFns;

verus! {

/// One command that applies a setting, and the words that tell of its
/// failure.
#[derive(Debug, Clone, PartialEq, Eq)]
pub struct SettingCommand {
    pub command: Command,
    pub failure: String,
}

/// What a setting command says.
pub struct SettingCommandView {
    pub command: CommandView,
    pub failure: Seq<char>,
}

impl View for SettingCommand {
    type V = SettingCommandView;

    open spec fn view(&self) -> SettingCommandView {
        SettingCommandView { command: self.command@, failure: self.failure@ }
    }
}

/// What the setting commands of a vector say, in order.
pub open spec fn command_views(v: Seq<SettingCommand>) -> Seq<SettingCommandView> {
    Seq::new(v.len(), |i: int| v[i]@)
}

/// What a reply means for the setting command it is meant to answer:
/// success, or the command's failure words followed by the details.
pub open spec fn setting_outcome(step: SettingCommandView, reply: ReplyView) -> Result<
    (),
    Seq<char>,
> {
    match reply {
        ReplyView::Succeeded(_) => Ok(()),
        ReplyView::Failed { exit_code, stderr } => Err(step.failure + ": "@ + stderr),
        ReplyView::IoFailure(msg) => Err(step.failure + ": "@ + msg),
        _ => Err(step.failure + ": "@ + stray_reply_text()),
    }
}

/// What a result with a message says.
pub open spec fn message_outcome(r: Result<(), String>) -> Result<(), Seq<char>> {
    match r {
        Ok(_) => Ok(()),
        Err(e) => Err(e@),
    }
}

impl SettingCommand {
    /// What the host's reply to this command means.
    pub fn outcome(&self, reply: &Reply) -> (r: Result<(), String>)
        ensures
            message_outcome(r) == setting_outcome(self@, reply@),
    {
        match reply {
            Reply::Succeeded(_) => Ok(()),
            Reply::Failed { exit_code, stderr } => Err(
                self.failure.clone().concat(": ").concat(stderr.as_str()),
            ),
            Reply::IoFailure(msg) => Err(self.failure.clone().concat(": ").concat(msg.as_str())),
            _ => Err(
                self.failure.clone().concat(": ").concat("the reply does not answer the request"),
            ),
        }
    }

    /// The request that runs this command.
    pub fn request(&self) -> (request: Request)
        ensures
            request@ == RequestView::Run(self@.command),
    {
        let mut args: Vec<String> = Vec::new();
        let mut i: usize = 0;
        while i < self.command.args.len()
            invariant
                i <= self.command.args.len(),
                args.len() == i,
                forall|j: int| 0 <= j < i ==> args@[j]@ == self.command.args@[j]@,
            decreases self.command.args.len() - i,
        {
            args.push(self.command.args[i].clone());
            i += 1;
        }
        assert(line_texts(args@) =~= line_texts(self.command.args@));
        Request::Run(Command { program: self.command.program.clone(), args })
    }
}

/// Platform-specific system settings: the commands that apply them.
pub trait SystemSettings {
    /// The platform this settings handler is for.
    spec fn platform_spec(&self) -> Platform;

    /// The name of this settings configuration.
    spec fn label(&self) -> Seq<char>;

    /// The commands that apply the settings, in order.
    spec fn commands_spec(&self) -> Seq<SettingCommandView>;

    /// The platform this settings handler is for.
    fn platform(&self) -> (p: Platform)
        ensures
            p == self.platform_spec(),
    ;

    /// The commands that apply the settings, in the order in which they are
    /// run; the first that fails ends the application.
    fn commands(&self) -> (steps: Vec<SettingCommand>)
        ensures
            command_views(steps@) == self.commands_spec(),
    ;

    /// A human-readable name for this settings configuration.
    fn name(&self) -> (name: &'static str)
        ensures
            name@ == self.label(),
    ;
}

/// The name of the settings configuration of a platform.
pub open spec fn settings_label(platform: Platform) -> Seq<char> {
    match platform {
        Platform::MacOS => "macOS Settings"@,
        Platform::Linux => "Linux Settings"@,
        Platform::Windows => "Windows Settings"@,
    }
}

/// The commands that apply the settings of a platform.
pub open spec fn settings_commands(platform: Platform) -> Seq<SettingCommandView> {
    match platform {
        Platform::MacOS => macos_commands(),
        _ => Seq::empty(),
    }
}

/// The settings handler of any one platform.
pub enum PlatformSettings {
    MacOS(MacOSSettings),
    Linux(LinuxSettings),
    Windows(WindowsSettings),
}

impl SystemSettings for PlatformSettings {
    open spec fn platform_spec(&self) -> Platform {
        match self {
            PlatformSettings::MacOS(s) => s.platform_spec(),
            PlatformSettings::Linux(s) => s.platform_spec(),
            PlatformSettings::Windows(s) => s.platform_spec(),
        }
    }

    open spec fn label(&self) -> Seq<char> {
        match self {
            PlatformSettings::MacOS(s) => s.label(),
            PlatformSettings::Linux(s) => s.label(),
            PlatformSettings::Windows(s) => s.label(),
        }
    }

    open spec fn commands_spec(&self) -> Seq<SettingCommandView> {
        match self {
            PlatformSettings::MacOS(s) => s.commands_spec(),
            PlatformSettings::Linux(s) => s.commands_spec(),
            PlatformSettings::Windows(s) => s.commands_spec(),
        }
    }

    fn platform(&self) -> (p: Platform) {
        match self {
            PlatformSettings::MacOS(s) => s.platform(),
            PlatformSettings::Linux(s) => s.platform(),
            PlatformSettings::Windows(s) => s.platform(),
        }
    }

    fn commands(&self) -> (steps: Vec<SettingCommand>) {
        match self {
            PlatformSettings::MacOS(s) => s.commands(),
            PlatformSettings::Linux(s) => s.commands(),
            PlatformSettings::Windows(s) => s.commands(),
        }
    }

    fn name(&self) -> (name: &'static str) {
        match self {
            PlatformSettings::MacOS(s) => s.name(),
            PlatformSettings::Linux(s) => s.name(),
            PlatformSettings::Windows(s) => s.name(),
        }
    }
}

/// Factory function to create the platform-specific settings handler.
pub fn create_platform_settings(platform: Platform) -> (settings: PlatformSettings)
    ensures
        settings.platform_spec() == platform,
        settings.label() == settings_label(platform),
        settings.commands_spec() == settings_commands(platform),
{
    match platform {
        Platform::MacOS => PlatformSettings::MacOS(MacOSSettings),
        Platform::Linux => PlatformSettings::Linux(LinuxSettings),
        Platform::Windows => PlatformSettings::Windows(WindowsSettings),
    }
}

/// Where the settings phase stands: the command it is at, and whether it
/// has ended.
pub struct SettingsPosition {
    pub cursor: usize,
    pub finished: bool,
}

/// What the settings phase does on arriving at the command number `cursor`:
/// it runs that command, or, past the last command, reports the success and
/// ends.
pub open spec fn settings_arrival(
    name: Seq<char>,
    commands: Seq<SettingCommandView>,
    cursor: usize,
) -> Outcome<SettingsPosition> {
    if cursor < commands.len() {
        Outcome {
            state: SettingsPosition { cursor, finished: false },
            lines: Seq::empty(),
            groups: Seq::empty(),
            step: StepView::Ask(RequestView::Run(commands[cursor as int].command)),
        }
    } else {
        Outcome {
            state: SettingsPosition { cursor, finished: true },
            lines: seq![ok_line("System settings applied ->"@, name)],
            groups: seq![group_of("System Settings"@, 1)],
            step: StepView::Done(Ok(())),
        }
    }
}

/// One turn of the settings phase, on the host's reply to the command it
/// asked last. A command that succeeded leads to the next one; one that
/// failed is reported as a warning and ends the phase, which still succeeds.
pub open spec fn settings_turn(
    name: Seq<char>,
    commands: Seq<SettingCommandView>,
    at: SettingsPosition,
    reply: ReplyView,
) -> Outcome<SettingsPosition> {
    if at.finished {
        Outcome {
            state: at,
            lines: Seq::empty(),
            groups: Seq::empty(),
            step: StepView::Done(Ok(())),
        }
    } else {
        match setting_outcome(commands[at.cursor as int], reply) {
            Ok(_) => settings_arrival(name, commands, (at.cursor + 1) as usize),
            Err(e) => Outcome {
                state: SettingsPosition { cursor: at.cursor, finished: true },
                lines: seq![warn_line("Failed to apply system settings: "@ + e)],
                groups: Seq::empty(),
                step: StepView::Done(Ok(())),
            },
        }
    }
}

/// Settings are best effort: whatever the host replies, a turn of the
/// settings phase never hands back a failure.
pub proof fn settings_never_fail(
    name: Seq<char>,
    commands: Seq<SettingCommandView>,
    at: SettingsPosition,
    reply: ReplyView,
)
    ensures
        !(settings_turn(name, commands, at, reply).step matches StepView::Done(Err(_))),
{
}

/// What starting the settings phase for `platform` comes to: the phase and
/// the settings are reported, then the first command is asked for, or the
/// phase ends at once with success when the platform has no command.
pub open spec fn settings_start(platform: Platform) -> Outcome<SettingsPosition> {
    let first = settings_arrival(settings_label(platform), settings_commands(platform), 0);
    Outcome {
        state: first.state,
        lines: seq![
            info_line("▶ Applying System Settings"@),
            info_line("Applying "@ + settings_label(platform) + "..."@),
        ] + first.lines,
        groups: first.groups,
        step: first.step,
    }
}

/// The settings phase in progress.
pub struct SettingsRun {
    pub name: &'static str,
    pub commands: Vec<SettingCommand>,
    pub cursor: usize,
    pub finished: bool,
}

impl SettingsRun {
    /// The phase is at a command that exists unless it has ended.
    pub open spec fn wf(&self) -> bool {
        &&& self.cursor <= self.commands@.len()
        &&& !self.finished ==> self.cursor < self.commands@.len()
    }

    /// Whether the phase stands as `wf` asks.
    pub fn is_valid(&self) -> (b: bool)
        ensures
            b == self.wf(),
    {
        self.cursor <= self.commands.len() && (self.finished || self.cursor < self.commands.len())
    }

    /// Where the phase stands.
    pub open spec fn position(&self) -> SettingsPosition {
        SettingsPosition { cursor: self.cursor, finished: self.finished }
    }

    /// One turn of the phase, on the host's reply to what it asked last.
    pub open spec fn turn(&self, reply: ReplyView) -> Outcome<SettingsPosition> {
        settings_turn(self.name@, command_views(self.commands@), self.position(), reply)
    }

    /// Moves the phase to the command at `self.cursor`.
    fn arrive<L: Log>(&mut self, logger: &mut L) -> (step: Step)
        requires
            old(self).cursor <= old(self).commands@.len(),
        ensures
            final(self).wf(),
            final(self).commands == old(self).commands,
            final(self).name == old(self).name,
            final(self).position() == settings_arrival(
                old(self).name@,
                command_views(old(self).commands@),
                old(self).cursor,
            ).state,
            final(logger).lines() == old(logger).lines() + settings_arrival(
                old(self).name@,
                command_views(old(self).commands@),
                old(self).cursor,
            ).lines,
            final(logger).groups() == old(logger).groups() + settings_arrival(
                old(self).name@,
                command_views(old(self).commands@),
                old(self).cursor,
            ).groups,
            step@ == settings_arrival(
                old(self).name@,
                command_views(old(self).commands@),
                old(self).cursor,
            ).step,
    {
        if self.cursor < self.commands.len() {
            self.finished = false;
            assert(logger.lines() + Seq::<LogLineView>::empty() =~= logger.lines());
            assert(logger.groups() + Seq::<GroupView>::empty() =~= logger.groups());
            Step::Ask(self.commands[self.cursor].request())
        } else {
            self.finished = true;
            logger.ok_with_highlight("System settings applied ->", self.name);
            logger.add_group("System Settings", 1);
            assert(logger.lines() =~= old(logger).lines() + seq![
                ok_line("System settings applied ->"@, self.name@),
            ]);
            assert(logger.groups() =~= old(logger).groups() + seq![
                group_of("System Settings"@, 1),
            ]);
            Step::Done(Ok(()))
        }
    }

    /// Takes the host's reply to the command that the phase asked last.
    pub fn resume<L: Log>(&mut self, logger: &mut L, reply: &Reply) -> (step: Step)
        requires
            old(self).wf(),
        ensures
            final(self).wf(),
            final(self).commands == old(self).commands,
            final(self).name == old(self).name,
            final(self).position() == old(self).turn(reply@).state,
            final(logger).lines() == old(logger).lines() + old(self).turn(reply@).lines,
            final(logger).groups() == old(logger).groups() + old(self).turn(reply@).groups,
            step@ == old(self).turn(reply@).step,
    {
        let count = self.commands.len();
        assert(self.cursor <= count);
        let ghost lines0 = logger.lines();
        let ghost groups0 = logger.groups();
        if self.finished {
            assert(lines0 + Seq::<LogLineView>::empty() =~= lines0);
            assert(groups0 + Seq::<GroupView>::empty() =~= groups0);
            return Step::Done(Ok(()));
        }
        match self.commands[self.cursor].outcome(reply) {
            Ok(_) => {
                self.cursor = self.cursor + 1;
                self.arrive(logger)
            },
            Err(e) => {
                logger.warn(
                    "Failed to apply system settings: ".to_owned().concat(e.as_str()).as_str(),
                );
                assert(logger.lines() =~= lines0 + seq![
                    warn_line("Failed to apply system settings: "@ + e@),
                ]);
                assert(groups0 + Seq::<GroupView>::empty() =~= groups0);
                self.finished = true;
                Step::Done(Ok(()))
            },
        }
    }
}

/// Starts the settings phase for `platform`: reports the phase and the
/// settings that are applied, then asks for the first command, or ends at
/// once with success when the platform has no command.
pub fn apply_system_settings<L: Log>(logger: &mut L, platform: Platform) -> (started: (
    SettingsRun,
    Step,
))
    ensures
        started.0.wf(),
        started.0.name@ == settings_label(platform),
        command_views(started.0.commands@) == settings_commands(platform),
        started.0.position() == settings_start(platform).state,
        final(logger).lines() == old(logger).lines() + settings_start(platform).lines,
        final(logger).groups() == old(logger).groups() + settings_start(platform).groups,
        started.1@ == settings_start(platform).step,
{
    logger.info("▶ Applying System Settings");
    let settings = create_platform_settings(platform);
    logger.info("Applying ".to_owned().concat(settings.name()).concat("...").as_str());
    let mut run = SettingsRun {
        name: settings.name(),
        commands: settings.commands(),
        cursor: 0,
        finished: true,
    };
    let ghost mid = logger.lines();
    let step = run.arrive(logger);
    assert(logger.lines() =~= old(logger).lines() + settings_start(platform).lines);
    (run, step)
}

} // verus!
