//! The run as a whole: four phases in a fixed order, each taking the host's
//! replies until it ends, the next one starting where the last one stopped.

use crate::common::error::{failure_text, outcome_view, SetupErrorView, SetupResult};
use crate::common::exchange::{
    CommandView, Outcome, Reply, ReplyView, RequestView, Step, StepView,
};
use crate::common::logging::{group_of, info_line, ok_line, warn_line, GroupView, Log, LogLineView};
use crate::common::platform::{platform_of, Platform};
use crate::common::utils::with_tilde;
use crate::configurators::yazi::YaziConfigurator;
use crate::configurators::zshrc::{line_texts, owned_pair_texts};
use crate::configurators::{
    file_texts, fresh_progress, run_configurators, AnyConfigurator, Configurator, ConfiguratorsPosition,
    ConfiguratorsRun,
};
use crate::detectors::detector::Detector;
use crate::environment::{
    log_environment_info, serial_lines, serial_of, shown_executable_dir, EnvironmentFacts,
    EnvironmentReport,
};
use crate::settings::{
    apply_system_settings, command_views, settings_commands, settings_label,
    settings_never_fail, settings_start, SettingsPosition, SettingsRun,
};
use crate::symlinks::creator::{link_output, ShellSymlinkCreator};
use crate::symlinks::setup::{
    declared_links, declared_probes, is_declared_owner, setup_symlinks, SymlinkPosition,
    SymlinkSetup, SymlinkStage,
};
use crate::text::option_text;
use vstd::prelude::*;

verus! {

/// The phases of a run, in the order in which they take place.
#[derive(Clone, Copy, Debug, PartialEq, Eq, Structural)]
pub enum Phase {
    Environment,
    Settings,
    Configurators,
    Symlinks,
    Finished,
}

/// What the failure of a phase means for the run.
#[derive(Clone, Copy, Debug, PartialEq, Eq, Structural)]
pub enum FailurePolicy {
    /// The failure is reported as a warning and the run goes on.
    Recoverable,
    /// The failure ends the run.
    Fatal,
}

/// What the failure of `phase` means for the run: the environment report
/// and the system settings are best effort, configurators and symlinks are
/// not.
pub open spec fn policy_of(phase: Phase) -> FailurePolicy {
    match phase {
        Phase::Environment => FailurePolicy::Recoverable,
        Phase::Settings => FailurePolicy::Recoverable,
        _ => FailurePolicy::Fatal,
    }
}

/// What the failure of `phase` means for the run.
pub fn failure_policy(phase: Phase) -> (policy: FailurePolicy)
    ensures
        policy == policy_of(phase),
{
    match phase {
        Phase::Environment => FailurePolicy::Recoverable,
        Phase::Settings => FailurePolicy::Recoverable,
        _ => FailurePolicy::Fatal,
    }
}

/// What the first of two outcomes adds, followed by what the second adds;
/// state and step are the second's.
pub open spec fn then(first: Outcome<Phase>, second: Outcome<Phase>) -> Outcome<Phase> {
    Outcome {
        state: second.state,
        lines: first.lines + second.lines,
        groups: first.groups + second.groups,
        step: second.step,
    }
}

/// An outcome that adds the given lines and groups and hands back `step`.
pub open spec fn adding(
    state: Phase,
    lines: Seq<LogLineView>,
    groups: Seq<GroupView>,
    step: StepView,
) -> Outcome<Phase> {
    Outcome { state, lines, groups, step }
}

/// What entering the symlink phase comes to.
pub open spec fn into_symlinks() -> Outcome<Phase> {
    adding(
        Phase::Symlinks,
        seq![info_line("▶ Create Symlinks"@)],
        Seq::empty(),
        StepView::Ask(declared_probes()[0]),
    )
}

/// What entering the configurator phase comes to.
pub open spec fn into_configurators() -> Outcome<Phase> {
    adding(
        Phase::Configurators,
        seq![info_line("▶ Configuration"@)],
        Seq::empty(),
        StepView::Ask(YaziConfigurator.probe_spec()),
    )
}

/// What entering the settings phase comes to: the phase stays where it has
/// a command to run, and gives way to the configurators where it has none.
pub open spec fn into_settings(platform: Platform) -> Outcome<Phase> {
    let start = settings_start(platform);
    let entered = adding(Phase::Settings, start.lines, start.groups, start.step);
    if start.step is Ask {
        entered
    } else {
        then(entered, into_configurators())
    }
}

/// What the end of a phase with `result` comes to: a fatal failure ends the
/// run with it, a recoverable one is reported as a warning, and unless the
/// run ends the next phase is entered.
pub open spec fn after_phase(
    phase: Phase,
    platform: Platform,
    result: Result<(), SetupErrorView>,
) -> Outcome<Phase> {
    let warned = match result {
        Ok(_) => Seq::empty(),
        Err(e) => seq![warn_line(failure_text(e))],
    };
    match phase {
        Phase::Environment => then(
            adding(phase, warned, Seq::empty(), StepView::Done(Ok(()))),
            into_settings(platform),
        ),
        Phase::Settings => then(
            adding(phase, warned, Seq::empty(), StepView::Done(Ok(()))),
            into_configurators(),
        ),
        Phase::Configurators => match result {
            Ok(_) => into_symlinks(),
            Err(e) => adding(
                Phase::Finished,
                Seq::empty(),
                Seq::empty(),
                StepView::Done(Err(e)),
            ),
        },
        _ => adding(Phase::Finished, Seq::empty(), Seq::empty(), StepView::Done(result)),
    }
}

/// What one turn of a phase comes to for the run: the phase goes on where
/// it asks, and gives way as `after_phase` says where it is done.
pub open spec fn passing<S>(phase: Phase, platform: Platform, t: Outcome<S>) -> Outcome<Phase> {
    match t.step {
        StepView::Ask(request) => adding(phase, t.lines, t.groups, t.step),
        StepView::Done(result) => then(
            adding(phase, t.lines, t.groups, t.step),
            after_phase(phase, platform, result),
        ),
    }
}

/// What the environment report says at its start.
pub open spec fn environment_lines(platform: Platform, facts: EnvironmentFacts) -> Seq<LogLineView> {
    seq![
        info_line("▶ Environment"@),
        ok_line("Detected platform ->"@, platform.label()),
        ok_line(
            "Current working directory ->"@,
            with_tilde(facts.current_dir@, option_text(facts.home)),
        ),
        ok_line(
            "Executable directory ->"@,
            shown_executable_dir(option_text(facts.executable_dir), option_text(facts.home)),
        ),
    ]
}

/// What starting the run comes to: the environment is reported; on macOS
/// the device registry listing is asked for, elsewhere the environment phase
/// ends at once and the settings phase is entered.
pub open spec fn starting(platform: Platform, facts: EnvironmentFacts) -> Outcome<Phase> {
    if platform == Platform::MacOS {
        adding(
            Phase::Environment,
            environment_lines(platform, facts),
            Seq::empty(),
            StepView::Ask(RequestView::Run(CommandView { program: "ioreg"@, args: seq!["-l"@] })),
        )
    } else {
        then(
            adding(
                Phase::Environment,
                environment_lines(platform, facts),
                seq![group_of("Environment"@, 0)],
                StepView::Done(Ok(())),
            ),
            into_settings(platform),
        )
    }
}

/// A run in progress.
pub struct SetupRun {
    pub phase: Phase,
    pub platform: Platform,
    pub config_dir: String,
    pub environment: EnvironmentReport,
    pub settings: Option<SettingsRun>,
    pub configurators: Option<ConfiguratorsRun<AnyConfigurator>>,
    pub symlinks: Option<SymlinkSetup<Detector, ShellSymlinkCreator>>,
}

impl SetupRun {
    /// The phases that the run has entered hold what the reconciler
    /// declares: the settings of the run's platform, the three configurators
    /// in their order with the declared directive, and the five declared
    /// links with their owners.
    pub open spec fn holds_declared(&self) -> bool {
        &&& self.settings is Some ==> {
            &&& self.settings->0.name@ == settings_label(self.platform)
            &&& command_views(self.settings->0.commands@) == settings_commands(self.platform)
        }
        &&& self.configurators is Some ==> {
            let all = self.configurators->0.configurators@;
            &&& all.len() == 3
            &&& all[0] is Yazi
            &&& all[1] is Vscode
            &&& all[2] is Zshrc
            &&& all[2]->Zshrc_0.theme@ == "stefc"@
            &&& line_texts(all[2]->Zshrc_0.plugins@) == seq!["z"@, "gh"@]
            &&& owned_pair_texts(all[2]->Zshrc_0.env_vars@) == seq![
                ("HOMEBREW_NO_AUTO_UPDATE"@, "1"@),
            ]
        }
        &&& self.symlinks is Some ==> {
            let entries = self.symlinks->0.entries@;
            &&& entries.len() == 5
            &&& forall|i: int|
                0 <= i < 5 ==> (#[trigger] entries[i]).1@ == declared_links(self.config_dir@)[i]
            &&& forall|i: int| 0 <= i < 5 ==> is_declared_owner((#[trigger] entries[i]).0, i)
        }
    }

    /// The phase that the run is in stands at its start: the settings at
    /// their first command, the configurators at the first configurator with
    /// none counted and a fresh progress, the symlinks at the probe of the
    /// first link with none counted.
    pub open spec fn at_start(&self) -> bool {
        match self.phase {
            Phase::Environment => !self.environment.finished,
            Phase::Settings => self.settings->0.position() == (SettingsPosition {
                cursor: 0,
                finished: false,
            }),
            Phase::Configurators => self.configurators->0.position() == (ConfiguratorsPosition {
                index: 0,
                affected: 0,
                progress: fresh_progress(),
                finished: false,
            }),
            Phase::Symlinks => self.symlinks->0.position() == (SymlinkPosition {
                stage: SymlinkStage::Probing,
                cursor: 0,
                affected: 0,
            }),
            Phase::Finished => true,
        }
    }

    /// What a turn that stays in its phase leaves alone: the data of the
    /// phase's own run, and the runs of the other phases.
    pub open spec fn keeps_data_of(&self, before: &SetupRun) -> bool {
        &&& self.environment.platform == before.environment.platform
        &&& match self.phase {
            Phase::Settings => {
                &&& self.settings->0.name == before.settings->0.name
                &&& self.settings->0.commands == before.settings->0.commands
                &&& self.configurators == before.configurators
                &&& self.symlinks == before.symlinks
            },
            Phase::Configurators => {
                &&& self.configurators->0.configurators == before.configurators->0.configurators
                &&& self.settings == before.settings
                &&& self.symlinks == before.symlinks
            },
            Phase::Symlinks => {
                &&& self.symlinks->0.entries == before.symlinks->0.entries
                &&& self.symlinks->0.creator == before.symlinks->0.creator
                &&& self.settings == before.settings
                &&& self.configurators == before.configurators
            },
            _ => true,
        }
    }

    /// The run's current phase has been entered and is in progress.
    pub open spec fn wf(&self) -> bool {
        match self.phase {
            Phase::Environment => !self.environment.finished && self.environment.platform
                == self.platform,
            Phase::Settings => self.settings is Some && self.settings->0.wf()
                && !self.settings->0.finished,
            Phase::Configurators => self.configurators is Some && self.configurators->0.wf()
                && !self.configurators->0.finished,
            Phase::Symlinks => self.symlinks is Some && self.symlinks->0.wf()
                && self.symlinks->0.stage != SymlinkStage::Finished,
            Phase::Finished => true,
        }
    }

    /// Whether the run stands as `wf` asks.
    pub fn is_valid(&self) -> (b: bool)
        ensures
            b == self.wf(),
    {
        match self.phase {
            Phase::Environment => !self.environment.finished && self.environment.platform
                == self.platform,
            Phase::Settings => match &self.settings {
                Some(run) => run.is_valid() && !run.finished,
                None => false,
            },
            Phase::Configurators => match &self.configurators {
                Some(run) => run.is_valid() && !run.finished,
                None => false,
            },
            Phase::Symlinks => match &self.symlinks {
                Some(run) => run.is_valid() && match run.stage {
                    SymlinkStage::Finished => false,
                    _ => true,
                },
                None => false,
            },
            Phase::Finished => true,
        }
    }

    /// One turn of the run, on the host's reply to what it asked last: the
    /// current phase takes its turn, and where it ends the run goes on as
    /// the phase's failure policy says.
    pub open spec fn turn(&self, reply: ReplyView) -> Outcome<Phase> {
        match self.phase {
            Phase::Finished => adding(
                Phase::Finished,
                Seq::empty(),
                Seq::empty(),
                StepView::Done(Ok(())),
            ),
            Phase::Environment => passing(
                self.phase,
                self.platform,
                adding(
                    self.phase,
                    serial_lines(serial_of(self.platform, reply)),
                    seq![group_of("Environment"@, 0)],
                    StepView::Done(Ok(())),
                ),
            ),
            Phase::Settings => passing(self.phase, self.platform, self.settings->0.turn(reply)),
            Phase::Configurators => passing(
                self.phase,
                self.platform,
                self.configurators->0.turn(reply),
            ),
            Phase::Symlinks => passing(self.phase, self.platform, self.symlinks->0.turn(reply)),
        }
    }

    /// What is printed, beside the report, of the host's reply to what the
    /// run asked last: what the current configurator prints, what a link
    /// command wrote, and nothing in the other phases.
    pub open spec fn printed_spec(&self, reply: ReplyView) -> Seq<Seq<char>> {
        match self.phase {
            Phase::Configurators => {
                let run = self.configurators->0;
                if self.configurators is Some && !run.finished && run.index
                    < run.configurators@.len() {
                    run.configurators@[run.index as int].printed_spec(run.progress@, reply)
                } else {
                    Seq::empty()
                }
            },
            Phase::Symlinks => if self.symlinks is Some && self.symlinks->0.stage
                == SymlinkStage::Linking {
                link_output(reply)
            } else {
                Seq::empty()
            },
            _ => Seq::empty(),
        }
    }

    /// What the host prints, beside the report, of its reply to what the run
    /// asked last, each piece as it stands. It is asked before the reply is
    /// passed to `resume`.
    pub fn printed(&self, reply: &Reply) -> (chunks: Vec<String>)
        ensures
            file_texts(chunks@) == self.printed_spec(reply@),
    {
        let nothing: Vec<String> = Vec::new();
        assert(file_texts(nothing@) =~= Seq::<Seq<char>>::empty());
        match self.phase {
            Phase::Configurators => match &self.configurators {
                Some(run) => {
                    if !run.finished && run.index < run.configurators.len() {
                        run.configurators[run.index].printed(&run.progress, reply)
                    } else {
                        nothing
                    }
                },
                None => nothing,
            },
            Phase::Symlinks => match &self.symlinks {
                Some(run) => match run.stage {
                    SymlinkStage::Linking => {
                        let chunks = run.creator.printed(reply);
                        assert(file_texts(chunks@) =~= line_texts(chunks@));
                        chunks
                    },
                    _ => nothing,
                },
                None => nothing,
            },
            _ => nothing,
        }
    }

    /// Enters the symlink phase.
    fn enter_symlinks<L: Log>(&mut self, logger: &mut L) -> (step: Step)
        ensures
            final(self).wf(),
            old(self).holds_declared() ==> final(self).holds_declared(),
            final(self).phase == Phase::Symlinks,
            final(self).at_start(),
            final(self).platform == old(self).platform,
            final(self).config_dir == old(self).config_dir,
            final(self).symlinks->0.cursor == 0,
            final(self).symlinks->0.affected == 0,
            final(logger).lines() == old(logger).lines() + into_symlinks().lines,
            final(logger).groups() == old(logger).groups() + into_symlinks().groups,
            step@ == into_symlinks().step,
    {
        let (run, step) = setup_symlinks(logger, self.config_dir.as_str());
        self.symlinks = Some(run);
        self.phase = Phase::Symlinks;
        assert(logger.lines() =~= old(logger).lines() + into_symlinks().lines);
        assert(logger.groups() =~= old(logger).groups() + into_symlinks().groups);
        step
    }

    /// Enters the configurator phase.
    fn enter_configurators<L: Log>(&mut self, logger: &mut L) -> (step: Step)
        ensures
            final(self).wf(),
            old(self).holds_declared() ==> final(self).holds_declared(),
            final(self).phase == Phase::Configurators,
            final(self).at_start(),
            final(self).platform == old(self).platform,
            final(self).config_dir == old(self).config_dir,
            final(self).configurators->0.index == 0,
            final(self).configurators->0.affected == 0,
            final(self).configurators->0.progress@ == fresh_progress(),
            final(logger).lines() == old(logger).lines() + into_configurators().lines,
            final(logger).groups() == old(logger).groups() + into_configurators().groups,
            step@ == into_configurators().step,
    {
        let (run, step) = run_configurators(logger);
        self.configurators = Some(run);
        self.phase = Phase::Configurators;
        assert(logger.lines() =~= old(logger).lines() + into_configurators().lines);
        assert(logger.groups() =~= old(logger).groups() + into_configurators().groups);
        step
    }

    /// Enters the settings phase, and the configurator phase after it where
    /// the platform has no setting to apply.
    fn enter_settings<L: Log>(&mut self, logger: &mut L) -> (step: Step)
        ensures
            final(self).wf(),
            old(self).holds_declared() ==> final(self).holds_declared(),
            final(self).phase == into_settings(old(self).platform).state,
            final(self).at_start(),
            final(self).platform == old(self).platform,
            final(self).config_dir == old(self).config_dir,
            final(self).phase == Phase::Settings ==> final(self).settings->0.cursor == 0,
            final(logger).lines() == old(logger).lines() + into_settings(old(self).platform).lines,
            final(logger).groups() == old(logger).groups() + into_settings(
                old(self).platform,
            ).groups,
            step@ == into_settings(old(self).platform).step,
    {
        let (run, step) = apply_system_settings(logger, self.platform);
        self.settings = Some(run);
        self.phase = Phase::Settings;
        match step {
            Step::Ask(request) => Step::Ask(request),
            Step::Done(_) => {
                let ghost start = settings_start(self.platform);
                let next = self.enter_configurators(logger);
                assert(logger.lines() =~= old(logger).lines() + (start.lines
                    + into_configurators().lines));
                assert(logger.groups() =~= old(logger).groups() + (start.groups
                    + into_configurators().groups));
                next
            },
        }
    }

    /// Ends the current phase with `result` and goes on as its failure
    /// policy says.
    fn conclude<L: Log>(&mut self, logger: &mut L, result: SetupResult<()>) -> (step:
        Step)
        ensures
            final(self).wf(),
            old(self).holds_declared() ==> final(self).holds_declared(),
            final(self).platform == old(self).platform,
            final(self).config_dir == old(self).config_dir,
            final(self).phase == after_phase(
                old(self).phase,
                old(self).platform,
                outcome_view(result),
            ).state,
            final(self).phase != old(self).phase || final(self).phase == Phase::Finished,
            final(self).at_start(),
            final(logger).lines() == old(logger).lines() + after_phase(
                old(self).phase,
                old(self).platform,
                outcome_view(result),
            ).lines,
            final(logger).groups() == old(logger).groups() + after_phase(
                old(self).phase,
                old(self).platform,
                outcome_view(result),
            ).groups,
            step@ == after_phase(
                old(self).phase,
                old(self).platform,
                outcome_view(result),
            ).step,
    {
        let ghost lines0 = logger.lines();
        let ghost groups0 = logger.groups();
        match failure_policy(self.phase) {
            FailurePolicy::Recoverable => {
                let ghost warned = match outcome_view(result) {
                    Ok(_) => Seq::<LogLineView>::empty(),
                    Err(e) => seq![warn_line(failure_text(e))],
                };
                match &result {
                    Ok(_) => {
                        assert(logger.lines() =~= lines0 + warned);
                    },
                    Err(e) => {
                        logger.warn(e.message().as_str());
                        assert(logger.lines() =~= lines0 + warned);
                    },
                }
                match self.phase {
                    Phase::Environment => {
                        let step = self.enter_settings(logger);
                        assert(logger.lines() =~= lines0 + (warned + into_settings(
                            self.platform,
                        ).lines));
                        assert(logger.groups() =~= groups0 + (Seq::<GroupView>::empty()
                            + into_settings(self.platform).groups));
                        step
                    },
                    _ => {
                        let step = self.enter_configurators(logger);
                        assert(logger.lines() =~= lines0 + (warned + into_configurators().lines));
                        assert(logger.groups() =~= groups0 + (Seq::<GroupView>::empty()
                            + into_configurators().groups));
                        step
                    },
                }
            },
            FailurePolicy::Fatal => {
                match self.phase {
                    Phase::Configurators => match result {
                        Ok(_) => self.enter_symlinks(logger),
                        Err(e) => {
                            self.phase = Phase::Finished;
                            assert(lines0 + Seq::<LogLineView>::empty() =~= lines0);
                            assert(groups0 + Seq::<GroupView>::empty() =~= groups0);
                            Step::Done(Err(e))
                        },
                    },
                    _ => {
                        self.phase = Phase::Finished;
                        assert(lines0 + Seq::<LogLineView>::empty() =~= lines0);
                        assert(groups0 + Seq::<GroupView>::empty() =~= groups0);
                        Step::Done(result)
                    },
                }
            },
        }
    }

    /// Takes the host's reply to the request that the run asked last, and
    /// hands back the next request or the run's outcome. The phases take
    /// place strictly in their order; a failure of the environment report or
    /// of the settings never ends the run, a failure of a configurator or of
    /// a symlink ends it at once.
    pub fn resume<L: Log>(&mut self, logger: &mut L, reply: &Reply) -> (step: Step)
        requires
            old(self).wf(),
        ensures
            final(self).wf(),
            old(self).holds_declared() ==> final(self).holds_declared(),
            final(self).platform == old(self).platform,
            final(self).config_dir == old(self).config_dir,
            final(self).phase == old(self).turn(reply@).state,
            final(logger).lines() == old(logger).lines() + old(self).turn(reply@).lines,
            final(logger).groups() == old(logger).groups() + old(self).turn(reply@).groups,
            step@ == old(self).turn(reply@).step,
            step@ is Done <==> final(self).phase == Phase::Finished,
            final(self).phase != old(self).phase ==> final(self).at_start(),
            final(self).phase == old(self).phase ==> final(self).keeps_data_of(old(self)),
            final(self).phase == Phase::Settings && old(self).phase == Phase::Settings ==> final(self).settings->0.position() == old(self).settings->0.turn(reply@).state,
            final(self).phase == Phase::Configurators && old(self).phase == Phase::Configurators
                ==> final(self).configurators->0.position() == old(self).configurators->0.turn(
                reply@,
            ).state,
            final(self).phase == Phase::Symlinks && old(self).phase == Phase::Symlinks ==> final(self).symlinks->0.position() == old(self).symlinks->0.turn(reply@).state,
    {
        let ghost lines0 = logger.lines();
        let ghost groups0 = logger.groups();
        let ghost t = self.turn(reply@);
        match self.phase {
            Phase::Finished => {
                assert(lines0 + Seq::<LogLineView>::empty() =~= lines0);
                assert(groups0 + Seq::<GroupView>::empty() =~= groups0);
                Step::Done(Ok(()))
            },
            Phase::Environment => {
                let ghost own = adding(
                    self.phase,
                    serial_lines(serial_of(self.platform, reply@)),
                    seq![group_of("Environment"@, 0)],
                    StepView::Done(Ok(())),
                );
                let step = self.environment.resume(logger, reply);
                assert(logger.groups() =~= groups0 + own.groups);
                let next = self.conclude(logger, Ok(()));
                let ghost after = after_phase(Phase::Environment, self.platform, Ok(()));
                assert(logger.lines() =~= lines0 + (own.lines + after.lines));
                assert(logger.groups() =~= groups0 + (own.groups + after.groups));
                next
            },
            Phase::Settings => {
                let mut run = self.settings.take().unwrap();
                let ghost own = run.turn(reply@);
                let step = run.resume(logger, reply);
                self.settings = Some(run);
                match step {
                    Step::Ask(request) => Step::Ask(request),
                    Step::Done(result) => {
                        let ghost after = after_phase(
                            Phase::Settings,
                            self.platform,
                            outcome_view(result),
                        );
                        let next = self.conclude(logger, result);
                        assert(logger.lines() =~= lines0 + (own.lines + after.lines));
                        assert(logger.groups() =~= groups0 + (own.groups + after.groups));
                        next
                    },
                }
            },
            Phase::Configurators => {
                let mut run = self.configurators.take().unwrap();
                let ghost own = run.turn(reply@);
                let step = run.resume(logger, reply);
                self.configurators = Some(run);
                match step {
                    Step::Ask(request) => Step::Ask(request),
                    Step::Done(result) => {
                        let ghost after = after_phase(
                            Phase::Configurators,
                            self.platform,
                            outcome_view(result),
                        );
                        let next = self.conclude(logger, result);
                        assert(logger.lines() =~= lines0 + (own.lines + after.lines));
                        assert(logger.groups() =~= groups0 + (own.groups + after.groups));
                        next
                    },
                }
            },
            Phase::Symlinks => {
                let mut run = self.symlinks.take().unwrap();
                let ghost own = run.turn(reply@);
                let step = run.resume(logger, reply);
                self.symlinks = Some(run);
                match step {
                    Step::Ask(request) => Step::Ask(request),
                    Step::Done(result) => {
                        let ghost after = after_phase(
                            Phase::Symlinks,
                            self.platform,
                            outcome_view(result),
                        );
                        let next = self.conclude(logger, result);
                        assert(logger.lines() =~= lines0 + (own.lines + after.lines));
                        assert(logger.groups() =~= groups0 + (own.groups + after.groups));
                        next
                    },
                }
            },
        }
    }
}

/// Starts a run: detects the platform from the operating system's name and
/// reports the environment; on macOS it then asks for the device registry
/// listing, elsewhere it enters the settings phase at once. `config_dir` is
/// the directory that holds the configuration files to be linked.
pub fn execute<L: Log>(logger: &mut L, os: &str, facts: &EnvironmentFacts, config_dir: &str) -> (started: (
    SetupRun,
    Step,
))
    ensures
        started.0.wf(),
        started.0.holds_declared(),
        started.0.platform == platform_of(os@),
        started.0.config_dir@ == config_dir@,
        started.0.phase == starting(platform_of(os@), *facts).state,
        started.0.at_start(),
        final(logger).lines() == old(logger).lines() + starting(platform_of(os@), *facts).lines,
        final(logger).groups() == old(logger).groups() + starting(platform_of(os@), *facts).groups,
        started.1@ == starting(platform_of(os@), *facts).step,
{
    let platform = Platform::detect(os);
    let ghost lines0 = logger.lines();
    let ghost groups0 = logger.groups();
    let (environment, step) = log_environment_info(logger, &platform, facts);
    assert(logger.lines() =~= lines0 + environment_lines(platform, *facts));
    let mut run = SetupRun {
        phase: Phase::Environment,
        platform,
        config_dir: config_dir.to_owned(),
        environment,
        settings: None,
        configurators: None,
        symlinks: None,
    };
    match step {
        Step::Ask(request) => {
            assert(groups0 + Seq::<GroupView>::empty() =~= groups0);
            (run, Step::Ask(request))
        },
        Step::Done(result) => {
            let next = run.enter_settings(logger);
            assert(logger.lines() =~= lines0 + (environment_lines(platform, *facts)
                + into_settings(platform).lines));
            assert(logger.groups() =~= groups0 + (seq![group_of("Environment"@, 0)]
                + into_settings(platform).groups));
            (run, next)
        },
    }
}

/// The place of a phase in the order of the run.
pub open spec fn rank(phase: Phase) -> int {
    match phase {
        Phase::Environment => 0,
        Phase::Settings => 1,
        Phase::Configurators => 2,
        Phase::Symlinks => 3,
        Phase::Finished => 4,
    }
}

/// Phase order: a turn never takes the run back to an earlier phase, and the
/// run hands back its outcome exactly when it has finished. A failure comes
/// only out of the configurator phase or the symlink phase.
pub proof fn phases_only_advance(run: SetupRun, reply: ReplyView)
    requires
        run.wf(),
    ensures
        rank(run.turn(reply).state) >= rank(run.phase),
        run.turn(reply).step is Done <==> run.turn(reply).state == Phase::Finished,
        run.turn(reply).step matches StepView::Done(Err(_)) ==> run.phase == Phase::Configurators
            || run.phase == Phase::Symlinks,
{
    if run.phase == Phase::Settings {
        let phase = run.settings->0;
        settings_never_fail(phase.name@, command_views(phase.commands@), phase.position(), reply);
        assert(phase.commands@.len() == phase.commands.len());
    }
    if run.phase == Phase::Configurators {
        assert(run.configurators->0.configurators@.len() == run.configurators->0.configurators.len());
    }
    if run.phase == Phase::Symlinks {
        assert(run.symlinks->0.entries@.len() == run.symlinks->0.entries.len());
    }
}

/// The exit code of the process: 0 when the run succeeded, warnings or
/// not, 1 when a configurator or a symlink failed.
pub fn exit_code(outcome: &SetupResult<()>) -> (code: i32)
    ensures
        code == if outcome is Ok {
            0i32
        } else {
            1i32
        },
{
    match outcome {
        Ok(_) => 0,
        Err(_) => 1,
    }
}

} // verus!
