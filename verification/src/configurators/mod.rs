//! Units that conditionally change local state for one tool each: a
//! capability probe, at most one buffered listing, the decision whether to
//! act, and the actions themselves, one request at a time.

pub mod vscode;
pub mod yazi;
pub mod zshrc;
pub mod zshrc_laws;

use crate::common::exchange::{
    Outcome, Reply, ReplyView, Request, RequestView, Step, StepView,
};
use crate::common::logging::{group_of, info_line, ok_line, GroupView, Log, LogLineView};
use crate::configurators::vscode::VscodeConfigurator;
use crate::configurators::yazi::YaziConfigurator;
use crate::configurators::zshrc::{line_texts, owned_pair_texts, ZshrcConfigurator};
use vstd::prelude::*;
use vstd::string::StringExecFns;

verus! {

/// Where the run of one configurator stands.
#[derive(Clone, Copy, Debug, PartialEq, Eq, Structural)]
pub enum Stage {
    /// The capability probe is with the host.
    Probing,
    /// The listing query is with the host.
    Listing,
    /// An action is with the host.
    Acting,
    /// The run has ended.
    Finished,
}

/// The state of the run of one configurator. The listing is the cache of
/// that one run: it is fetched at most once and lives no longer.
#[derive(Debug, Clone, PartialEq, Eq)]
pub struct Progress {
    pub stage: Stage,
    /// Whether the configurator was due to act.
    pub ran: bool,
    /// The number of the action that is with the host.
    pub cursor: usize,
    /// What the listing query printed; empty when there was none.
    pub listing: String,
}

/// What a progress says.
pub struct ProgressView {
    pub stage: Stage,
    pub ran: bool,
    pub cursor: usize,
    pub listing: Seq<char>,
}

impl View for Progress {
    type V = ProgressView;

    open spec fn view(&self) -> ProgressView {
        ProgressView {
            stage: self.stage,
            ran: self.ran,
            cursor: self.cursor,
            listing: self.listing@,
        }
    }
}

/// What one turn of a configurator comes to: its new state, the lines it
/// adds to the report, and the step it hands back.
pub struct Turn {
    pub progress: ProgressView,
    pub added: Seq<LogLineView>,
    pub step: StepView,
}

/// What an optional reply says.
pub open spec fn reply_view(reply: Option<&Reply>) -> Option<ReplyView> {
    match reply {
        Some(r) => Some(r@),
        None => None,
    }
}

/// What an optional request says.
pub open spec fn request_view(request: Option<Request>) -> Option<RequestView> {
    match request {
        Some(r) => Some(r@),
        None => None,
    }
}

/// The texts of a vector of strings.
pub open spec fn file_texts(v: Seq<String>) -> Seq<Seq<char>> {
    Seq::new(v.len(), |i: int| v[i]@)
}

/// What a reply to a listing query lists: what the command printed, or
/// nothing when it did not succeed.
pub open spec fn listed(reply: ReplyView) -> Seq<char> {
    match reply {
        ReplyView::Succeeded(out) => out,
        _ => Seq::empty(),
    }
}

/// The turn that does nothing: the state stays as it is, nothing is added
/// to the report, nothing is asked of the host, and the turn ends well.
pub open spec fn idle(progress: ProgressView) -> Turn {
    Turn { progress, added: Seq::empty(), step: StepView::Done(Ok(())) }
}

/// The turn of a configurator that is not due to act: one line says that it
/// is skipped, and its run ends with success.
pub open spec fn skipped<K: Configurator>(k: &K, progress: ProgressView) -> Turn {
    Turn {
        progress: ProgressView {
            stage: Stage::Finished,
            ran: false,
            cursor: progress.cursor,
            listing: progress.listing,
        },
        added: seq![info_line("Skipping "@ + k.label() + "..."@)],
        step: StepView::Done(Ok(())),
    }
}

/// The turn of a configurator whose capability is present and whose listing
/// is `listing`: it starts to act if it is due to, and is skipped otherwise.
pub open spec fn decided<K: Configurator>(k: &K, progress: ProgressView, listing: Seq<char>) -> Turn {
    if k.should_run_spec(true, listing) {
        k.act(ProgressView { stage: Stage::Acting, ran: true, cursor: 0, listing }, None)
    } else {
        skipped(k, ProgressView { listing, ..progress })
    }
}

/// One turn of the run of a configurator, on the host's reply to what it
/// asked last.
pub open spec fn turn<K: Configurator>(k: &K, progress: ProgressView, reply: ReplyView) -> Turn {
    match progress.stage {
        Stage::Finished => Turn { progress, added: Seq::empty(), step: StepView::Done(Ok(())) },
        Stage::Probing => if !k.detected_spec(reply) {
            skipped(k, progress)
        } else {
            match k.listing_spec() {
                Some(query) => Turn {
                    progress: ProgressView { stage: Stage::Listing, ..progress },
                    added: Seq::empty(),
                    step: StepView::Ask(query),
                },
                None => decided(k, progress, Seq::empty()),
            }
        },
        Stage::Listing => decided(k, progress, listed(reply)),
        Stage::Acting => k.act(progress, Some(reply)),
    }
}

/// A configuration task: it says whether it is due and, when it is, acts one
/// request at a time.
pub trait Configurator {
    /// The name of the configurator.
    spec fn label(&self) -> Seq<char>;

    /// The request that establishes the configurator's capability.
    spec fn probe_spec(&self) -> RequestView;

    /// Whether `reply`, given to the probe, confirms the capability.
    spec fn detected_spec(&self, reply: ReplyView) -> bool;

    /// The query whose output the run buffers, if the configurator has one.
    spec fn listing_spec(&self) -> Option<RequestView>;

    /// Whether the configurator is due to act, given whether its capability
    /// is present and what its listing query printed.
    spec fn should_run_spec(&self, present: bool, listing: Seq<char>) -> bool;

    /// One turn of acting: on `None` the configurator starts, on a reply it
    /// goes on from the action that the reply answers. A configurator that
    /// was not due to act does nothing.
    spec fn act(&self, progress: ProgressView, reply: Option<ReplyView>) -> Turn;

    /// Acting is safe where it was not due: on a progress whose `ran` is
    /// false a turn of acting is the turn that does nothing.
    proof fn acting_undue_is_idle(&self, progress: ProgressView, reply: Option<ReplyView>)
        requires
            !progress.ran,
        ensures
            self.act(progress, reply) == idle(progress),
    ;

    /// The paths that the configurator affects, as they are shown.
    spec fn files(&self) -> Seq<Seq<char>>;

    /// Returns the name of the configurator for logging.
    fn name(&self) -> (name: &'static str)
        ensures
            name@ == self.label(),
    ;

    /// The request that establishes the configurator's capability.
    fn probe(&self) -> (request: Request)
        ensures
            request@ == self.probe_spec(),
    ;

    /// Whether `reply`, the host's reply to the probe, confirms the
    /// capability.
    fn detected(&self, reply: &Reply) -> (present: bool)
        ensures
            present == self.detected_spec(reply@),
    ;

    /// The query whose output the run buffers, if the configurator has one.
    fn listing(&self) -> (query: Option<Request>)
        ensures
            request_view(query) == self.listing_spec(),
    ;

    /// Check if this configurator should run. A pure predicate: it asks
    /// nothing of the host and changes nothing.
    fn should_run(&self, present: bool, listing: &str) -> (due: bool)
        ensures
            due == self.should_run_spec(present, listing@),
    ;

    /// Execute the configuration, one request at a time: called with `None`
    /// to start, and with the host's reply to go on. Called for a
    /// configurator that was not due to act, it does nothing.
    fn configure<L: Log>(&self, progress: &mut Progress, logger: &mut L, reply: Option<&Reply>) -> (step: Step)
        ensures
            final(progress)@ == self.act(old(progress)@, reply_view(reply)).progress,
            final(logger).lines() == old(logger).lines() + self.act(
                old(progress)@,
                reply_view(reply),
            ).added,
            final(logger).groups() == old(logger).groups(),
            step@ == self.act(old(progress)@, reply_view(reply)).step,
    ;

    /// Return affected file paths for logging.
    fn affected_files(&self) -> (files: Vec<String>)
        ensures
            file_texts(files@) == self.files(),
    ;
}

/// Safe when not due: for every configurator, `configure` on a progress that
/// does not say that the configurator was due to act leaves the progress as
/// it is, adds nothing to the report and asks nothing of the host, whether
/// it is started or given a reply. A configurator that the run found absent
/// or not due stands so.
pub proof fn configure_undue_is_a_no_op<K: Configurator>(
    k: &K,
    progress: ProgressView,
    reply: Option<ReplyView>,
)
    requires
        !progress.ran,
    ensures
        k.act(progress, reply).progress == progress,
        k.act(progress, reply).added.len() == 0,
        k.act(progress, reply).step == StepView::Done(Ok(())),
        !(skipped(k, progress).progress.ran),
{
    k.acting_undue_is_idle(progress, reply);
}

/// Ends the run of a configurator that is not due to act.
pub fn skip<K: Configurator, L: Log>(k: &K, progress: &mut Progress, logger: &mut L) -> (step: Step)
    ensures
        final(progress)@ == skipped(k, old(progress)@).progress,
        final(logger).lines() == old(logger).lines() + skipped(k, old(progress)@).added,
        final(logger).groups() == old(logger).groups(),
        step@ == skipped(k, old(progress)@).step,
{
    logger.info("Skipping ".to_owned().concat(k.name()).concat("...").as_str());
    assert(logger.lines() =~= old(logger).lines() + skipped(k, old(progress)@).added);
    progress.stage = Stage::Finished;
    progress.ran = false;
    Step::Done(Ok(()))
}

/// Decides, with the capability present and the listing at hand, whether
/// the configurator acts, and starts it if so.
pub fn decide<K: Configurator, L: Log>(
    k: &K,
    progress: &mut Progress,
    logger: &mut L,
    listing: String,
) -> (step: Step)
    ensures
        final(progress)@ == decided(k, old(progress)@, listing@).progress,
        final(logger).lines() == old(logger).lines() + decided(k, old(progress)@, listing@).added,
        final(logger).groups() == old(logger).groups(),
        step@ == decided(k, old(progress)@, listing@).step,
{
    let due = k.should_run(true, listing.as_str());
    progress.listing = listing;
    if due {
        progress.stage = Stage::Acting;
        progress.ran = true;
        progress.cursor = 0;
        k.configure(progress, logger, None)
    } else {
        skip(k, progress, logger)
    }
}

/// One turn of a configurator's run: the probe's reply decides whether the
/// listing is fetched, the listing whether the configurator acts; a
/// configurator that is not due is skipped with one line in the report.
pub fn run<K: Configurator, L: Log>(
    k: &K,
    progress: &mut Progress,
    logger: &mut L,
    reply: &Reply,
) -> (step: Step)
    ensures
        final(progress)@ == turn(k, old(progress)@, reply@).progress,
        final(logger).lines() == old(logger).lines() + turn(k, old(progress)@, reply@).added,
        final(logger).groups() == old(logger).groups(),
        step@ == turn(k, old(progress)@, reply@).step,
{
    let ghost before = logger.lines();
    match progress.stage {
        Stage::Finished => {
            assert(before + Seq::<LogLineView>::empty() =~= before);
            Step::Done(Ok(()))
        },
        Stage::Probing => {
            let present = k.detected(reply);
            if !present {
                skip(k, progress, logger)
            } else {
                match k.listing() {
                    Some(query) => {
                        progress.stage = Stage::Listing;
                        assert(before + Seq::<LogLineView>::empty() =~= before);
                        Step::Ask(query)
                    },
                    None => decide(k, progress, logger, String::new()),
                }
            }
        },
        Stage::Listing => {
            let listing = match reply {
                Reply::Succeeded(out) => out.clone(),
                _ => String::new(),
            };
            decide(k, progress, logger, listing)
        },
        Stage::Acting => k.configure(progress, logger, Some(reply)),
    }
}

/// Any one of the configurators that the reconciler runs.
pub enum AnyConfigurator {
    Yazi(YaziConfigurator),
    Vscode(VscodeConfigurator),
    Zshrc(ZshrcConfigurator),
}

impl AnyConfigurator {
    /// What is printed, beside the report, of the host's reply to what the
    /// configurator asked last: what the rc file configurator prints, and
    /// nothing for the others.
    pub open spec fn printed_spec(&self, progress: ProgressView, reply: ReplyView) -> Seq<
        Seq<char>,
    > {
        match self {
            AnyConfigurator::Zshrc(k) => k.printed_spec(progress, reply),
            _ => Seq::empty(),
        }
    }

    /// What the host prints, beside the report, of its reply to what the
    /// configurator asked last. `progress` is the progress before the reply
    /// is taken.
    pub fn printed(&self, progress: &Progress, reply: &Reply) -> (chunks: Vec<String>)
        ensures
            file_texts(chunks@) == self.printed_spec(progress@, reply@),
    {
        match self {
            AnyConfigurator::Zshrc(k) => {
                let chunks = k.printed(progress, reply);
                assert(file_texts(chunks@) =~= line_texts(chunks@));
                chunks
            },
            _ => {
                let chunks: Vec<String> = Vec::new();
                assert(file_texts(chunks@) =~= Seq::<Seq<char>>::empty());
                chunks
            },
        }
    }
}

impl Configurator for AnyConfigurator {
    open spec fn label(&self) -> Seq<char> {
        match self {
            AnyConfigurator::Yazi(k) => k.label(),
            AnyConfigurator::Vscode(k) => k.label(),
            AnyConfigurator::Zshrc(k) => k.label(),
        }
    }

    open spec fn probe_spec(&self) -> RequestView {
        match self {
            AnyConfigurator::Yazi(k) => k.probe_spec(),
            AnyConfigurator::Vscode(k) => k.probe_spec(),
            AnyConfigurator::Zshrc(k) => k.probe_spec(),
        }
    }

    open spec fn detected_spec(&self, reply: ReplyView) -> bool {
        match self {
            AnyConfigurator::Yazi(k) => k.detected_spec(reply),
            AnyConfigurator::Vscode(k) => k.detected_spec(reply),
            AnyConfigurator::Zshrc(k) => k.detected_spec(reply),
        }
    }

    open spec fn listing_spec(&self) -> Option<RequestView> {
        match self {
            AnyConfigurator::Yazi(k) => k.listing_spec(),
            AnyConfigurator::Vscode(k) => k.listing_spec(),
            AnyConfigurator::Zshrc(k) => k.listing_spec(),
        }
    }

    open spec fn should_run_spec(&self, present: bool, listing: Seq<char>) -> bool {
        match self {
            AnyConfigurator::Yazi(k) => k.should_run_spec(present, listing),
            AnyConfigurator::Vscode(k) => k.should_run_spec(present, listing),
            AnyConfigurator::Zshrc(k) => k.should_run_spec(present, listing),
        }
    }

    open spec fn act(&self, progress: ProgressView, reply: Option<ReplyView>) -> Turn {
        match self {
            AnyConfigurator::Yazi(k) => k.act(progress, reply),
            AnyConfigurator::Vscode(k) => k.act(progress, reply),
            AnyConfigurator::Zshrc(k) => k.act(progress, reply),
        }
    }

    proof fn acting_undue_is_idle(&self, progress: ProgressView, reply: Option<ReplyView>) {
        match self {
            AnyConfigurator::Yazi(k) => k.acting_undue_is_idle(progress, reply),
            AnyConfigurator::Vscode(k) => k.acting_undue_is_idle(progress, reply),
            AnyConfigurator::Zshrc(k) => k.acting_undue_is_idle(progress, reply),
        }
    }

    open spec fn files(&self) -> Seq<Seq<char>> {
        match self {
            AnyConfigurator::Yazi(k) => k.files(),
            AnyConfigurator::Vscode(k) => k.files(),
            AnyConfigurator::Zshrc(k) => k.files(),
        }
    }

    fn name(&self) -> (name: &'static str) {
        match self {
            AnyConfigurator::Yazi(k) => k.name(),
            AnyConfigurator::Vscode(k) => k.name(),
            AnyConfigurator::Zshrc(k) => k.name(),
        }
    }

    fn probe(&self) -> (request: Request) {
        match self {
            AnyConfigurator::Yazi(k) => k.probe(),
            AnyConfigurator::Vscode(k) => k.probe(),
            AnyConfigurator::Zshrc(k) => k.probe(),
        }
    }

    fn detected(&self, reply: &Reply) -> (present: bool) {
        match self {
            AnyConfigurator::Yazi(k) => k.detected(reply),
            AnyConfigurator::Vscode(k) => k.detected(reply),
            AnyConfigurator::Zshrc(k) => k.detected(reply),
        }
    }

    fn listing(&self) -> (query: Option<Request>) {
        match self {
            AnyConfigurator::Yazi(k) => k.listing(),
            AnyConfigurator::Vscode(k) => k.listing(),
            AnyConfigurator::Zshrc(k) => k.listing(),
        }
    }

    fn should_run(&self, present: bool, listing: &str) -> (due: bool) {
        match self {
            AnyConfigurator::Yazi(k) => k.should_run(present, listing),
            AnyConfigurator::Vscode(k) => k.should_run(present, listing),
            AnyConfigurator::Zshrc(k) => k.should_run(present, listing),
        }
    }

    fn configure<L: Log>(&self, progress: &mut Progress, logger: &mut L, reply: Option<&Reply>) -> (step: Step) {
        match self {
            AnyConfigurator::Yazi(k) => k.configure(progress, logger, reply),
            AnyConfigurator::Vscode(k) => k.configure(progress, logger, reply),
            AnyConfigurator::Zshrc(k) => k.configure(progress, logger, reply),
        }
    }

    fn affected_files(&self) -> (files: Vec<String>) {
        match self {
            AnyConfigurator::Yazi(k) => k.affected_files(),
            AnyConfigurator::Vscode(k) => k.affected_files(),
            AnyConfigurator::Zshrc(k) => k.affected_files(),
        }
    }
}

/// The lines that tell of the files that a configurator affected.
pub open spec fn configured_lines(files: Seq<Seq<char>>) -> Seq<LogLineView> {
    Seq::new(files.len(), |i: int| ok_line("Configured successfully ->"@, files[i]))
}

/// The state in which the run of a configurator starts.
pub open spec fn fresh_progress() -> ProgressView {
    ProgressView { stage: Stage::Probing, ran: false, cursor: 0, listing: Seq::empty() }
}

/// Where the configurator phase stands: the configurator it is at, how
/// far that one has come, the number of configurators that acted, and
/// whether the phase has ended.
pub struct ConfiguratorsPosition {
    pub index: usize,
    pub affected: usize,
    pub progress: ProgressView,
    pub finished: bool,
}

/// The configurator phase in progress: the configurators run strictly one
/// after another, and the failure of one ends the phase.
pub struct ConfiguratorsRun<K: Configurator> {
    pub configurators: Vec<K>,
    pub index: usize,
    pub affected: usize,
    pub progress: Progress,
    pub finished: bool,
}

impl<K: Configurator> ConfiguratorsRun<K> {
    /// The phase is at a configurator that exists unless it has ended, and
    /// has not counted more configurators than it has passed.
    pub open spec fn wf(&self) -> bool {
        &&& self.index <= self.configurators@.len()
        &&& self.affected <= self.index
        &&& !self.finished ==> self.index < self.configurators@.len()
    }

    /// Whether the phase stands as `wf` asks.
    pub fn is_valid(&self) -> (b: bool)
        ensures
            b == self.wf(),
    {
        self.index <= self.configurators.len() && self.affected <= self.index && (self.finished
            || self.index < self.configurators.len())
    }

    /// Where the phase stands.
    pub open spec fn position(&self) -> ConfiguratorsPosition {
        ConfiguratorsPosition {
            index: self.index,
            affected: self.affected,
            progress: self.progress@,
            finished: self.finished,
        }
    }

    /// What the phase does on arriving at the configurator number `index`
    /// with `affected` configurators counted, having added `lines` to the
    /// report: it probes that configurator, or, past the last one, reports
    /// the count and ends.
    pub open spec fn arrival(
        &self,
        index: usize,
        affected: usize,
        progress: ProgressView,
        lines: Seq<LogLineView>,
    ) -> Outcome<ConfiguratorsPosition> {
        if index < self.configurators@.len() {
            Outcome {
                state: ConfiguratorsPosition {
                    index,
                    affected,
                    progress: fresh_progress(),
                    finished: false,
                },
                lines,
                groups: Seq::empty(),
                step: StepView::Ask(self.configurators@[index as int].probe_spec()),
            }
        } else {
            Outcome {
                state: ConfiguratorsPosition { index, affected, progress, finished: true },
                lines,
                groups: seq![group_of("Configurators"@, affected)],
                step: StepView::Done(Ok(())),
            }
        }
    }

    /// One turn of the phase: the current configurator takes its turn on the
    /// host's reply. A configurator that goes on asks its next request; one
    /// that failed ends the phase with its error; one that ended well has
    /// its files reported and is counted if it was due to act, and the phase
    /// moves on to the next.
    pub open spec fn turn(&self, reply: ReplyView) -> Outcome<ConfiguratorsPosition> {
        if self.finished {
            Outcome {
                state: self.position(),
                lines: Seq::empty(),
                groups: Seq::empty(),
                step: StepView::Done(Ok(())),
            }
        } else {
            let k = self.configurators@[self.index as int];
            let t = turn(&k, self.progress@, reply);
            match t.step {
                StepView::Done(Ok(_)) => self.arrival(
                    (self.index + 1) as usize,
                    if t.progress.ran {
                        (self.affected + 1) as usize
                    } else {
                        self.affected
                    },
                    t.progress,
                    t.added + configured_lines(k.files()),
                ),
                StepView::Done(Err(e)) => Outcome {
                    state: ConfiguratorsPosition {
                        progress: t.progress,
                        finished: true,
                        ..self.position()
                    },
                    lines: t.added,
                    groups: Seq::empty(),
                    step: t.step,
                },
                StepView::Ask(request) => Outcome {
                    state: ConfiguratorsPosition { progress: t.progress, ..self.position() },
                    lines: t.added,
                    groups: Seq::empty(),
                    step: t.step,
                },
            }
        }
    }

    /// Moves the phase to the configurator at `self.index`.
    fn arrive<L: Log>(&mut self, logger: &mut L, Ghost(lines): Ghost<Seq<LogLineView>>) -> (step: Step)
        requires
            old(self).index <= old(self).configurators@.len(),
            old(self).affected <= old(self).index,
        ensures
            final(self).wf(),
            final(self).configurators == old(self).configurators,
            final(self).position() == old(self).arrival(
                old(self).index,
                old(self).affected,
                old(self).progress@,
                lines,
            ).state,
            final(logger).lines() == old(logger).lines(),
            final(logger).groups() == old(logger).groups() + old(self).arrival(
                old(self).index,
                old(self).affected,
                old(self).progress@,
                lines,
            ).groups,
            step@ == old(self).arrival(
                old(self).index,
                old(self).affected,
                old(self).progress@,
                lines,
            ).step,
    {
        if self.index < self.configurators.len() {
            self.finished = false;
            self.progress = Progress {
                stage: Stage::Probing,
                ran: false,
                cursor: 0,
                listing: String::new(),
            };
            assert(logger.groups() + Seq::<GroupView>::empty() =~= logger.groups());
            Step::Ask(self.configurators[self.index].probe())
        } else {
            self.finished = true;
            logger.add_group("Configurators", self.affected);
            assert(logger.groups() =~= old(logger).groups() + seq![
                group_of("Configurators"@, self.affected),
            ]);
            Step::Done(Ok(()))
        }
    }

    /// Takes the host's reply to the request that the phase asked last and
    /// gives the current configurator its turn.
    pub fn resume<L: Log>(&mut self, logger: &mut L, reply: &Reply) -> (step: Step)
        requires
            old(self).wf(),
        ensures
            final(self).wf(),
            final(self).configurators == old(self).configurators,
            final(self).position() == old(self).turn(reply@).state,
            final(logger).lines() == old(logger).lines() + old(self).turn(reply@).lines,
            final(logger).groups() == old(logger).groups() + old(self).turn(reply@).groups,
            step@ == old(self).turn(reply@).step,
    {
        let count = self.configurators.len();
        assert(self.index <= count);
        let ghost lines0 = logger.lines();
        let ghost groups0 = logger.groups();
        if self.finished {
            assert(lines0 + Seq::<LogLineView>::empty() =~= lines0);
            assert(groups0 + Seq::<GroupView>::empty() =~= groups0);
            return Step::Done(Ok(()));
        }
        let ghost k = self.configurators@[self.index as int];
        let ghost t = turn(&k, self.progress@, reply@);
        let step = run(&self.configurators[self.index], &mut self.progress, logger, reply);
        match step {
            Step::Ask(request) => {
                assert(groups0 + Seq::<GroupView>::empty() =~= groups0);
                Step::Ask(request)
            },
            Step::Done(Err(e)) => {
                self.finished = true;
                assert(groups0 + Seq::<GroupView>::empty() =~= groups0);
                Step::Done(Err(e))
            },
            Step::Done(Ok(_)) => {
                let files = self.configurators[self.index].affected_files();
                let ghost base = logger.lines();
                let mut i: usize = 0;
                assert(base + configured_lines(k.files()).take(0) =~= base);
                while i < files.len()
                    invariant
                        i <= files.len(),
                        file_texts(files@) == k.files(),
                        logger.lines() == base + configured_lines(k.files()).take(i as int),
                        logger.groups() == groups0,
                    decreases files.len() - i,
                {
                    assert(file_texts(files@)[i as int] == files@[i as int]@);
                    logger.ok_with_highlight("Configured successfully ->", files[i].as_str());
                    assert(logger.lines() =~= base + configured_lines(k.files()).take(i + 1));
                    i += 1;
                }
                assert(configured_lines(k.files()).take(files@.len() as int) =~= configured_lines(
                    k.files(),
                ));
                let ghost added = t.added + configured_lines(k.files());
                assert(logger.lines() =~= lines0 + added);
                if self.progress.ran {
                    self.affected = self.affected + 1;
                }
                self.index = self.index + 1;
                self.arrive(logger, Ghost(added))
            },
        }
    }
}

/// Starts the configurator phase over the given configurators: reports the
/// phase and asks for the first probe, or ends at once when there is none.
pub fn run_configurators_impl<K: Configurator, L: Log>(logger: &mut L, configurators: Vec<K>) -> (started: (
    ConfiguratorsRun<K>,
    Step,
))
    ensures
        started.0.wf(),
        started.0.configurators == configurators,
        started.0.index == 0,
        started.0.affected == 0,
        final(logger).lines() == old(logger).lines().push(info_line("▶ Configuration"@)),
        configurators@.len() > 0 ==> !started.0.finished && started.0.progress@
            == fresh_progress() && started.1@ == StepView::Ask(configurators@[0].probe_spec())
            && final(logger).groups() == old(logger).groups(),
        configurators@.len() == 0 ==> started.0.finished && started.1@ == StepView::Done(Ok(()))
            && final(logger).groups() == old(logger).groups().push(
            group_of("Configurators"@, 0),
        ),
{
    logger.info("▶ Configuration");
    let mut phase = ConfiguratorsRun {
        configurators,
        index: 0,
        affected: 0,
        progress: Progress { stage: Stage::Finished, ran: false, cursor: 0, listing: String::new() },
        finished: true,
    };
    let ghost groups0 = logger.groups();
    let step = phase.arrive(logger, Ghost(Seq::empty()));
    assert(groups0 + Seq::<GroupView>::empty() =~= groups0);
    assert(groups0 + seq![group_of("Configurators"@, 0)] =~= groups0.push(
        group_of("Configurators"@, 0),
    ));
    (phase, step)
}

/// Starts the configurator phase over the reconciler's own configurators, in
/// their fixed order: Yazi, Visual Studio Code, the shell rc file.
pub fn run_configurators<L: Log>(logger: &mut L) -> (started: (
    ConfiguratorsRun<AnyConfigurator>,
    Step,
))
    ensures
        started.0.wf(),
        started.0.configurators@.len() == 3,
        started.0.configurators@[0] is Yazi,
        started.0.configurators@[1] is Vscode,
        started.0.configurators@[2] is Zshrc,
        started.0.configurators@[2]->Zshrc_0.theme@ == "stefc"@,
        line_texts(started.0.configurators@[2]->Zshrc_0.plugins@) == seq!["z"@, "gh"@],
        owned_pair_texts(started.0.configurators@[2]->Zshrc_0.env_vars@) == seq![
            ("HOMEBREW_NO_AUTO_UPDATE"@, "1"@),
        ],
        started.0.index == 0,
        started.0.affected == 0,
        !started.0.finished,
        started.0.progress@ == fresh_progress(),
        final(logger).lines() == old(logger).lines().push(info_line("▶ Configuration"@)),
        final(logger).groups() == old(logger).groups(),
        started.1@ == StepView::Ask(YaziConfigurator.probe_spec()),
{
    let mut configurators: Vec<AnyConfigurator> = Vec::new();
    configurators.push(AnyConfigurator::Yazi(YaziConfigurator));
    configurators.push(AnyConfigurator::Vscode(VscodeConfigurator));
    configurators.push(AnyConfigurator::Zshrc(ZshrcConfigurator::default()));
    run_configurators_impl(logger, configurators)
}

} // verus!
