//! The symlink phase: one capability probe per declared link, one link
//! command per present capability, one report entry per link.

use crate::common::exchange::{
    CommandView, Outcome, Reply, ReplyView, RequestView, Step, StepView,
};
use crate::detectors::mac_app::bundle_path;
use crate::common::logging::{
    group_of, info_line, ok_line, warn_line, GroupView, Log, LogLineView,
};
use crate::detectors::app_detector::AppDetector;
use crate::detectors::detector::Detector;
use crate::detectors::helix::helix_detector;
use crate::detectors::oh_my_zsh::OhMyZshDetector;
use crate::detectors::vscode::vscode_detector;
use crate::detectors::wezterm::wezterm_detector;
use crate::detectors::yazi::yazi_detector;
use crate::symlinks::creator::{ShellSymlinkCreator, SymlinkCreator};
use crate::symlinks::{SymlinkConfig, SymlinkConfigView};
use vstd::prelude::*;
use vstd::string::StringExecFns;

verus! {

/// Where the symlink phase stands.
#[derive(Clone, Copy, Debug, PartialEq, Eq, Structural)]
pub enum SymlinkStage {
    /// The probe of the current link's capability is with the host.
    Probing,
    /// The link command of the current link is with the host.
    Linking,
    /// The phase has ended.
    Finished,
}

/// The warning for a link whose application is absent.
pub open spec fn skip_text(detector: Seq<char>, installer: Seq<char>) -> Seq<char> {
    detector + " is not installed, skipping "@ + installer + " config symlink creation."@
}

/// Where the symlink phase stands: its stage, the link it is at, and the
/// number of links it has made.
pub struct SymlinkPosition {
    pub stage: SymlinkStage,
    pub cursor: usize,
    pub affected: usize,
}

/// The symlink phase in progress.
pub struct SymlinkSetup<D: AppDetector, C: SymlinkCreator> {
    pub creator: C,
    pub entries: Vec<(D, SymlinkConfig)>,
    pub cursor: usize,
    pub affected: usize,
    pub stage: SymlinkStage,
}

impl<D: AppDetector, C: SymlinkCreator> SymlinkSetup<D, C> {
    /// The phase is at a link that exists unless it has ended, and has not
    /// counted more links than it has passed.
    pub open spec fn wf(&self) -> bool {
        &&& self.cursor <= self.entries@.len()
        &&& self.affected <= self.cursor
        &&& self.stage != SymlinkStage::Finished ==> self.cursor < self.entries@.len()
    }

    /// Whether the phase stands as `wf` asks.
    pub fn is_valid(&self) -> (b: bool)
        ensures
            b == self.wf(),
    {
        self.cursor <= self.entries.len() && self.affected <= self.cursor && (match self.stage {
            SymlinkStage::Finished => true,
            _ => self.cursor < self.entries.len(),
        })
    }

    /// Where the phase stands.
    pub open spec fn position(&self) -> SymlinkPosition {
        SymlinkPosition { stage: self.stage, cursor: self.cursor, affected: self.affected }
    }

    /// What the phase does on arriving at the link number `cursor` with
    /// `affected` links made, having added `lines` to the report: it probes
    /// that link, or, past the last link, reports the count and ends.
    pub open spec fn arrival(&self, cursor: usize, affected: usize, lines: Seq<LogLineView>) -> Outcome<
        SymlinkPosition,
    > {
        if cursor < self.entries@.len() {
            Outcome {
                state: SymlinkPosition { stage: SymlinkStage::Probing, cursor, affected },
                lines,
                groups: Seq::empty(),
                step: StepView::Ask(self.entries@[cursor as int].0.probe_spec()),
            }
        } else {
            Outcome {
                state: SymlinkPosition { stage: SymlinkStage::Finished, cursor, affected },
                lines,
                groups: seq![group_of("Symlinks"@, affected)],
                step: StepView::Done(Ok(())),
            }
        }
    }

    /// One turn of the phase, on the host's reply to what it asked last.
    ///
    /// A probe that finds the application absent adds one warning and moves
    /// on without asking for a link; one that finds it present asks for the
    /// link command. A link command that succeeded adds one success entry,
    /// counts the link and moves on; one that failed ends the phase with its
    /// error.
    pub open spec fn turn(&self, reply: ReplyView) -> Outcome<SymlinkPosition> {
        let entry = self.entries@[self.cursor as int];
        match self.stage {
            SymlinkStage::Finished => Outcome {
                state: self.position(),
                lines: Seq::empty(),
                groups: Seq::empty(),
                step: StepView::Done(Ok(())),
            },
            SymlinkStage::Probing => if entry.0.installed_spec(reply) {
                Outcome {
                    state: SymlinkPosition { stage: SymlinkStage::Linking, ..self.position() },
                    lines: Seq::empty(),
                    groups: Seq::empty(),
                    step: StepView::Ask(self.creator.request_spec(entry.1@)),
                }
            } else {
                self.arrival(
                    (self.cursor + 1) as usize,
                    self.affected,
                    seq![warn_line(skip_text(entry.0.label(), entry.1@.installer_name))],
                )
            },
            SymlinkStage::Linking => match self.creator.outcome_spec(entry.1@, reply) {
                Ok(_) => self.arrival(
                    (self.cursor + 1) as usize,
                    (self.affected + 1) as usize,
                    seq![ok_line("Symlink created successfully"@, entry.1@.destination)],
                ),
                Err(e) => Outcome {
                    state: SymlinkPosition { stage: SymlinkStage::Finished, ..self.position() },
                    lines: Seq::empty(),
                    groups: Seq::empty(),
                    step: StepView::Done(Err(e)),
                },
            },
        }
    }

    /// Moves the phase to the link at `self.cursor`.
    fn arrive<L: Log>(&mut self, logger: &mut L, Ghost(lines): Ghost<Seq<LogLineView>>) -> (step: Step)
        requires
            old(self).cursor <= old(self).entries@.len(),
            old(self).affected <= old(self).cursor,
        ensures
            final(self).wf(),
            final(self).entries == old(self).entries,
            final(self).creator == old(self).creator,
            final(self).position() == old(self).arrival(
                old(self).cursor,
                old(self).affected,
                lines,
            ).state,
            final(logger).lines() == old(logger).lines(),
            final(logger).groups() == old(logger).groups() + old(self).arrival(
                old(self).cursor,
                old(self).affected,
                lines,
            ).groups,
            step@ == old(self).arrival(old(self).cursor, old(self).affected, lines).step,
    {
        if self.cursor < self.entries.len() {
            self.stage = SymlinkStage::Probing;
            assert(logger.groups() + Seq::<GroupView>::empty() =~= logger.groups());
            Step::Ask(self.entries[self.cursor].0.probe())
        } else {
            self.stage = SymlinkStage::Finished;
            logger.add_group("Symlinks", self.affected);
            assert(logger.groups() =~= old(logger).groups() + seq![
                group_of("Symlinks"@, self.affected),
            ]);
            Step::Done(Ok(()))
        }
    }

    /// Takes the host's reply to the request that the phase asked last, and
    /// hands back the next request or the phase's outcome.
    pub fn resume<L: Log>(&mut self, logger: &mut L, reply: &Reply) -> (step: Step)
        requires
            old(self).wf(),
        ensures
            final(self).wf(),
            final(self).entries == old(self).entries,
            final(self).creator == old(self).creator,
            final(self).position() == old(self).turn(reply@).state,
            final(logger).lines() == old(logger).lines() + old(self).turn(reply@).lines,
            final(logger).groups() == old(logger).groups() + old(self).turn(reply@).groups,
            step@ == old(self).turn(reply@).step,
    {
        let links = self.entries.len();
        assert(self.cursor <= links);
        let ghost lines0 = logger.lines();
        let ghost groups0 = logger.groups();
        match self.stage {
            SymlinkStage::Finished => {
                assert(lines0 + Seq::<LogLineView>::empty() =~= lines0);
                assert(groups0 + Seq::<GroupView>::empty() =~= groups0);
                Step::Done(Ok(()))
            },
            SymlinkStage::Probing => {
                if self.entries[self.cursor].0.is_installed(reply) {
                    self.stage = SymlinkStage::Linking;
                    assert(lines0 + Seq::<LogLineView>::empty() =~= lines0);
                    assert(groups0 + Seq::<GroupView>::empty() =~= groups0);
                    Step::Ask(self.creator.request(&self.entries[self.cursor].1))
                } else {
                    let msg = self.entries[self.cursor].0.name().to_owned().concat(
                        " is not installed, skipping ",
                    ).concat(self.entries[self.cursor].1.installer_name).concat(
                        " config symlink creation.",
                    );
                    logger.warn(msg.as_str());
                    let ghost added = seq![warn_line(msg@)];
                    assert(logger.lines() =~= lines0 + added);
                    self.cursor = self.cursor + 1;
                    self.arrive(logger, Ghost(added))
                }
            },
            SymlinkStage::Linking => {
                match self.creator.create(&self.entries[self.cursor].1, reply) {
                    Ok(_) => {
                        logger.ok_with_highlight(
                            "Symlink created successfully",
                            self.entries[self.cursor].1.destination.as_str(),
                        );
                        let ghost added = seq![
                            ok_line(
                                "Symlink created successfully"@,
                                self.entries@[self.cursor as int].1@.destination,
                            ),
                        ];
                        assert(logger.lines() =~= lines0 + added);
                        self.affected = self.affected + 1;
                        self.cursor = self.cursor + 1;
                        self.arrive(logger, Ghost(added))
                    },
                    Err(e) => {
                        self.stage = SymlinkStage::Finished;
                        assert(lines0 + Seq::<LogLineView>::empty() =~= lines0);
                        assert(groups0 + Seq::<GroupView>::empty() =~= groups0);
                        Step::Done(Err(e))
                    },
                }
            },
        }
    }
}

/// Symlink gating: a link whose application is absent adds exactly one
/// warning to the report and no request for a link follows its probe; a link
/// whose application is present has exactly its link command asked next and
/// nothing reported yet, and a link command that succeeded adds exactly one
/// success entry.
pub proof fn symlink_gating<D: AppDetector, C: SymlinkCreator>(
    setup: SymlinkSetup<D, C>,
    reply: ReplyView,
)
    requires
        setup.wf(),
        setup.stage != SymlinkStage::Finished,
    ensures
        ({
            let entry = setup.entries@[setup.cursor as int];
            let t = setup.turn(reply);
            let next = setup.cursor + 1;
            &&& setup.stage == SymlinkStage::Probing && !entry.0.installed_spec(reply) ==> {
                &&& t.lines == seq![
                    warn_line(skip_text(entry.0.label(), entry.1@.installer_name)),
                ]
                &&& t.state.affected == setup.affected
                &&& t.state.cursor == next
                &&& t.state.stage != SymlinkStage::Linking
                &&& next < setup.entries@.len() ==> t.step == StepView::Ask(
                    setup.entries@[next].0.probe_spec(),
                )
                &&& next >= setup.entries@.len() ==> t.step == StepView::Done(Ok(()))
            }
            &&& setup.stage == SymlinkStage::Probing && entry.0.installed_spec(reply) ==> {
                &&& t.lines.len() == 0
                &&& t.state.stage == SymlinkStage::Linking
                &&& t.step == StepView::Ask(setup.creator.request_spec(entry.1@))
            }
            &&& setup.stage == SymlinkStage::Linking && setup.creator.outcome_spec(entry.1@, reply)
                is Ok ==> {
                &&& t.lines == seq![
                    ok_line("Symlink created successfully"@, entry.1@.destination),
                ]
                &&& t.state.affected == setup.affected + 1
                &&& t.state.stage != SymlinkStage::Linking
            }
        }),
{
    assert(setup.entries@.len() == setup.entries.len());
}

/// Starts the symlink phase over the given links: reports the phase and asks
/// for the first probe, or ends at once when there is no link.
pub fn setup_symlinks_impl<L: Log, D: AppDetector, C: SymlinkCreator>(
    logger: &mut L,
    creator: C,
    entries: Vec<(D, SymlinkConfig)>,
) -> (started: (SymlinkSetup<D, C>, Step))
    ensures
        started.0.wf(),
        started.0.entries == entries,
        started.0.creator == creator,
        started.0.cursor == 0,
        started.0.affected == 0,
        final(logger).lines() == old(logger).lines().push(info_line("▶ Create Symlinks"@)),
        entries@.len() > 0 ==> started.0.stage == SymlinkStage::Probing && started.1@
            == StepView::Ask(entries@[0].0.probe_spec()) && final(logger).groups() == old(
            logger,
        ).groups(),
        entries@.len() == 0 ==> started.0.stage == SymlinkStage::Finished && started.1@
            == StepView::Done(Ok(())) && final(logger).groups() == old(logger).groups().push(
            group_of("Symlinks"@, 0),
        ),
{
    logger.info("▶ Create Symlinks");
    let mut setup = SymlinkSetup {
        creator,
        entries,
        cursor: 0,
        affected: 0,
        stage: SymlinkStage::Finished,
    };
    let ghost groups0 = logger.groups();
    let step = setup.arrive(logger, Ghost(Seq::empty()));
    assert(groups0 + Seq::<GroupView>::empty() =~= groups0);
    assert(groups0 + seq![group_of("Symlinks"@, 0)] =~= groups0.push(group_of("Symlinks"@, 0)));
    (setup, step)
}

/// The link that configures the tool `installer`: the file `file` of the
/// configuration directory, linked at `destination`.
pub open spec fn declared_link(
    config_dir: Seq<char>,
    file: Seq<char>,
    destination: Seq<char>,
    installer: Seq<char>,
) -> SymlinkConfigView {
    SymlinkConfigView { source: config_dir + file, destination, installer_name: installer }
}

/// The links that the reconciler declares, in the order in which they are
/// reported.
pub open spec fn declared_links(config_dir: Seq<char>) -> Seq<SymlinkConfigView> {
    seq![
        declared_link(config_dir, "/.wezterm.lua"@, "~/.wezterm.lua"@, "WezTerm"@),
        declared_link(
            config_dir,
            "/stefc.zsh-theme"@,
            "~/.oh-my-zsh/themes/stefc.zsh-theme"@,
            "oh-my-zsh"@,
        ),
        declared_link(
            config_dir,
            "/code.settings.json"@,
            "~/Library/Application Support/Code/User/settings.json"@,
            "Visual Studio Code"@,
        ),
        declared_link(config_dir, "/yazi.theme.toml"@, "~/.config/yazi/theme.toml"@, "Yazi"@),
        declared_link(
            config_dir,
            "/helix.config.toml"@,
            "~/.config/helix/config.toml"@,
            "Helix"@,
        ),
    ]
}

/// The probes of the applications that own the declared links, in order.
pub open spec fn declared_probes() -> Seq<RequestView> {
    seq![
        RequestView::PathExists(bundle_path("WezTerm"@)),
        RequestView::PathExists("~/.oh-my-zsh"@),
        RequestView::PathExists(bundle_path("Visual Studio Code"@)),
        RequestView::Run(CommandView { program: "which"@, args: seq!["yazi"@] }),
        RequestView::Run(CommandView { program: "which"@, args: seq!["hx"@] }),
    ]
}

/// The names of the applications that own the declared links, in order.
pub open spec fn declared_owners() -> Seq<Seq<char>> {
    seq!["WezTerm"@, "oh-my-zsh"@, "Visual Studio Code"@, "Yazi"@, "Helix"@]
}

/// Whether `detector` is the detector of the application that owns the
/// declared link number `i`: it has that application's probe and name, and
/// takes a program for present when the lookup succeeded, a path when it
/// exists.
pub open spec fn is_declared_owner(detector: Detector, i: int) -> bool {
    &&& detector.probe_spec() == declared_probes()[i]
    &&& detector.label() == declared_owners()[i]
    &&& forall|reply: ReplyView| #[trigger]
        detector.installed_spec(reply) == if i >= 3 {
            reply is Succeeded
        } else {
            reply == ReplyView::Exists(true)
        }
}

/// One declared link.
fn link(config_dir: &str, file: &str, destination: &str, installer: &'static str) -> (config:
    SymlinkConfig)
    ensures
        config@ == declared_link(config_dir@, file@, destination@, installer@),
{
    SymlinkConfig {
        source: config_dir.to_owned().concat(file),
        destination: destination.to_owned(),
        installer_name: installer,
    }
}

/// The declared links, each with the detector of the application that owns
/// it. `config_dir` is the directory that holds the configuration files.
pub fn symlink_catalog(config_dir: &str) -> (catalog: Vec<(Detector, SymlinkConfig)>)
    ensures
        catalog@.len() == 5,
        forall|i: int| 0 <= i < 5 ==> (#[trigger] catalog@[i]).1@ == declared_links(config_dir@)[i],
        forall|i: int| 0 <= i < 5 ==> is_declared_owner((#[trigger] catalog@[i]).0, i),
{
    let mut catalog: Vec<(Detector, SymlinkConfig)> = Vec::new();
    catalog.push(
        (
            Detector::MacApp(wezterm_detector()),
            link(config_dir, "/.wezterm.lua", "~/.wezterm.lua", "WezTerm"),
        ),
    );
    catalog.push(
        (
            Detector::OhMyZsh(OhMyZshDetector),
            link(
                config_dir,
                "/stefc.zsh-theme",
                "~/.oh-my-zsh/themes/stefc.zsh-theme",
                "oh-my-zsh",
            ),
        ),
    );
    catalog.push(
        (
            Detector::MacApp(vscode_detector()),
            link(
                config_dir,
                "/code.settings.json",
                "~/Library/Application Support/Code/User/settings.json",
                "Visual Studio Code",
            ),
        ),
    );
    catalog.push(
        (
            Detector::Which(yazi_detector()),
            link(config_dir, "/yazi.theme.toml", "~/.config/yazi/theme.toml", "Yazi"),
        ),
    );
    catalog.push(
        (
            Detector::Which(helix_detector()),
            link(config_dir, "/helix.config.toml", "~/.config/helix/config.toml", "Helix"),
        ),
    );
    catalog
}

/// Starts the symlink phase over the declared links, created by shell
/// commands. `config_dir` is the directory that holds the configuration
/// files.
pub fn setup_symlinks<L: Log>(logger: &mut L, config_dir: &str) -> (started: (
    SymlinkSetup<Detector, ShellSymlinkCreator>,
    Step,
))
    ensures
        started.0.wf(),
        started.0.entries@.len() == 5,
        forall|i: int|
            0 <= i < 5 ==> (#[trigger] started.0.entries@[i]).1@ == declared_links(config_dir@)[i],
        started.0.cursor == 0,
        started.0.affected == 0,
        started.0.stage == SymlinkStage::Probing,
        final(logger).lines() == old(logger).lines().push(info_line("▶ Create Symlinks"@)),
        final(logger).groups() == old(logger).groups(),
        forall|i: int| 0 <= i < 5 ==> is_declared_owner((#[trigger] started.0.entries@[i]).0, i),
        started.1@ == StepView::Ask(declared_probes()[0]),
{
    setup_symlinks_impl(logger, ShellSymlinkCreator, symlink_catalog(config_dir))
}

} // verus!
