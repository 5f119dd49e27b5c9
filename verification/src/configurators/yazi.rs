//! The configurator of the Yazi file manager: its theme package is added
//! unless the package listing shows it.

use crate::common::exchange::{
    command_of, command_outcome, CommandView, Reply, ReplyView, Request, RequestView, Step,
    StepView,
};
use crate::common::logging::{info_line, ok_line, Log, LogLineView};
use crate::configurators::{
    file_texts, idle, reply_view, Configurator, Progress, ProgressView, Stage, Turn,
};
use crate::detectors::app_detector::AppDetector;
use crate::detectors::yazi::yazi_detector;
use crate::text::{contains_subtext, has_subtext};
use vstd::prelude::*;
use vstd::string::StringExecFns;

verus! {

/// Configurator for the Yazi file manager.
pub struct YaziConfigurator;

/// The theme package that the configurator keeps installed.
pub open spec fn theme_package() -> Seq<char> {
    "Chromium-3-Oxide/everforest-medium"@
}

/// The command that adds the theme package, as it is shown in a failure.
pub open spec fn add_command_text() -> Seq<char> {
    "ya pkg add "@ + theme_package()
}

/// The request that adds the theme package.
pub open spec fn add_request() -> RequestView {
    RequestView::Run(
        CommandView { program: "ya"@, args: seq!["pkg"@, "add"@, theme_package()] },
    )
}

/// One turn of acting for a configurator that is due: started, it asks for
/// the theme package to be added, unless the buffered listing names the
/// package after all; given the host's reply, it reports the addition or
/// ends with the command's failure.
pub open spec fn due_act(progress: ProgressView, reply: Option<ReplyView>) -> Turn {
    let ended = ProgressView { stage: Stage::Finished, ..progress };
    match reply {
        None => if has_subtext(progress.listing, theme_package()) {
            Turn {
                progress: ended,
                added: seq![info_line("Yazi package already installed: "@ + theme_package())],
                step: StepView::Done(Ok(())),
            }
        } else {
            Turn {
                progress: ProgressView { stage: Stage::Acting, ..progress },
                added: Seq::empty(),
                step: StepView::Ask(add_request()),
            }
        },
        Some(r) => match command_outcome(r, add_command_text()) {
            Ok(_) => Turn {
                progress: ended,
                added: seq![ok_line("Added Yazi package ->"@, theme_package())],
                step: StepView::Done(Ok(())),
            },
            Err(e) => Turn {
                progress: ended,
                added: Seq::empty(),
                step: StepView::Done(Err(e)),
            },
        },
    }
}

impl YaziConfigurator {
    /// The theme package that the configurator keeps installed.
    pub fn package(&self) -> (name: &'static str)
        ensures
            name@ == theme_package(),
    {
        "Chromium-3-Oxide/everforest-medium"
    }

    /// Check if Yazi is installed, as the host's reply to the probe tells.
    pub fn is_installed(&self, reply: &Reply) -> (installed: bool)
        ensures
            installed == (reply@ is Succeeded),
    {
        yazi_detector().is_installed(reply)
    }

    /// Check if a Yazi package is already installed: whether the package
    /// listing names it.
    pub fn is_package_installed(&self, listing: &str, package_name: &str) -> (installed: bool)
        ensures
            installed == has_subtext(listing@, package_name@),
    {
        contains_subtext(listing, package_name)
    }

    /// Configure Yazi by installing the theme package: started with `None`,
    /// it asks for the package to be added unless the buffered listing names
    /// it; given the host's reply, it reports the addition or fails with the
    /// command's failure. Where the progress does not say that the
    /// configurator was due to act, it does nothing.
    pub fn run_configure<L: Log>(
        &self,
        progress: &mut Progress,
        logger: &mut L,
        reply: Option<&Reply>,
    ) -> (step: Step)
        ensures
            final(progress)@ == self.act(old(progress)@, reply_view(reply)).progress,
            final(logger).lines() == old(logger).lines() + self.act(
                old(progress)@,
                reply_view(reply),
            ).added,
            final(logger).groups() == old(logger).groups(),
            step@ == self.act(old(progress)@, reply_view(reply)).step,
    {
        let ghost before = logger.lines();
        if !progress.ran {
            assert(before + Seq::<LogLineView>::empty() =~= before);
            return Step::Done(Ok(()));
        }
        match reply {
            None => {
                if self.is_package_installed(progress.listing.as_str(), self.package()) {
                    logger.info(
                        "Yazi package already installed: ".to_owned().concat(
                            self.package(),
                        ).as_str(),
                    );
                    assert(logger.lines() =~= before + seq![
                        info_line("Yazi package already installed: "@ + theme_package()),
                    ]);
                    progress.stage = Stage::Finished;
                    Step::Done(Ok(()))
                } else {
                    let mut args: Vec<String> = Vec::new();
                    args.push("pkg".to_owned());
                    args.push("add".to_owned());
                    args.push(self.package().to_owned());
                    let command = command_of("ya", args);
                    assert(command@.args =~= seq!["pkg"@, "add"@, theme_package()]);
                    progress.stage = Stage::Acting;
                    assert(before + Seq::<LogLineView>::empty() =~= before);
                    Step::Ask(Request::Run(command))
                }
            },
            Some(r) => {
                let text = "ya pkg add ".to_owned().concat(self.package());
                progress.stage = Stage::Finished;
                match r.command_result(text.as_str()) {
                    Ok(_) => {
                        logger.ok_with_highlight("Added Yazi package ->", self.package());
                        assert(logger.lines() =~= before + seq![
                            ok_line("Added Yazi package ->"@, theme_package()),
                        ]);
                        Step::Done(Ok(()))
                    },
                    Err(e) => {
                        assert(before + Seq::<LogLineView>::empty() =~= before);
                        Step::Done(Err(e))
                    },
                }
            },
        }
    }
}

impl Configurator for YaziConfigurator {
    open spec fn label(&self) -> Seq<char> {
        "Yazi"@
    }

    open spec fn probe_spec(&self) -> RequestView {
        RequestView::Run(CommandView { program: "which"@, args: seq!["yazi"@] })
    }

    open spec fn detected_spec(&self, reply: ReplyView) -> bool {
        reply is Succeeded
    }

    open spec fn listing_spec(&self) -> Option<RequestView> {
        Some(RequestView::Run(CommandView { program: "ya"@, args: seq!["pkg"@, "list"@] }))
    }

    open spec fn should_run_spec(&self, present: bool, listing: Seq<char>) -> bool {
        present && !has_subtext(listing, theme_package())
    }

    open spec fn act(&self, progress: ProgressView, reply: Option<ReplyView>) -> Turn {
        if progress.ran {
            due_act(progress, reply)
        } else {
            idle(progress)
        }
    }

    proof fn acting_undue_is_idle(&self, progress: ProgressView, reply: Option<ReplyView>) {
    }

    open spec fn files(&self) -> Seq<Seq<char>> {
        Seq::empty()
    }

    fn name(&self) -> (name: &'static str) {
        "Yazi"
    }

    fn probe(&self) -> (request: Request) {
        yazi_detector().probe()
    }

    fn detected(&self, reply: &Reply) -> (present: bool) {
        self.is_installed(reply)
    }

    fn listing(&self) -> (query: Option<Request>) {
        let mut args: Vec<String> = Vec::new();
        args.push("pkg".to_owned());
        args.push("list".to_owned());
        let command = command_of("ya", args);
        assert(command@.args =~= seq!["pkg"@, "list"@]);
        Some(Request::Run(command))
    }

    fn should_run(&self, present: bool, listing: &str) -> (due: bool) {
        present && !self.is_package_installed(listing, self.package())
    }

    fn configure<L: Log>(&self, progress: &mut Progress, logger: &mut L, reply: Option<&Reply>) -> (step: Step) {
        self.run_configure(progress, logger, reply)
    }

    fn affected_files(&self) -> (files: Vec<String>) {
        let files: Vec<String> = Vec::new();
        assert(file_texts(files@) =~= Seq::<Seq<char>>::empty());
        files
    }
}

} // verus!
