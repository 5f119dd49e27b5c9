//! The configurator of Visual Studio Code: each extension of a fixed list
//! is installed unless the extension listing shows it.

use crate::common::exchange::{
    command_of, command_outcome, CommandView, Reply, ReplyView, Request, RequestView, Step,
    StepView,
};
use crate::common::logging::{info_line, ok_line, Log, LogLineView};
use crate::configurators::zshrc::slice_texts;
use crate::configurators::{
    file_texts, idle, Configurator, Progress, ProgressView, Stage, Turn,
};
use crate::detectors::app_detector::AppDetector;
use crate::detectors::mac_app::bundle_path;
use crate::detectors::vscode::vscode_detector;
use crate::text::{
    chars_of, lemma_scan, lines_of, scan, split_lines, string_of, texts, trim, trimmed,
};
use vstd::hash_set::StringHashSet;
use vstd::prelude::*;
use vstd::string::StringExecFns;

verus! {

/// Configurator to ensure some VS Code extensions are installed.
pub struct VscodeConfigurator;

/// The extensions that the configurator keeps installed, in the order in
/// which they are installed.
pub open spec fn extension_list() -> Seq<Seq<char>> {
    seq![
        "github.copilot-chat"@,
        "ms-dotnettools.csdevkit"@,
        "ms-dotnettools.csharp"@,
        "ms-dotnettools.vscode-dotnet-runtime"@,
        "pflannery.vscode-versionlens"@,
        "rust-lang.rust-analyzer"@,
        "vadimcn.vscode-lldb"@,
    ]
}

/// The extensions that a listing names: its lines, trimmed.
pub open spec fn installed_names(listing: Seq<char>) -> Seq<Seq<char>> {
    Seq::new(split_lines(listing).len(), |i: int| trimmed(split_lines(listing)[i]))
}

/// The set of the extensions that a listing names.
pub open spec fn installed_set(listing: Seq<char>) -> Set<Seq<char>> {
    installed_names(listing).to_set()
}

/// The test for an extension that a listing does not name.
pub open spec fn missing_from(listing: Seq<char>) -> spec_fn(Seq<char>) -> bool {
    |ext: Seq<char>| !installed_set(listing).contains(ext)
}

/// The set of a sequence with one more item is the set with that item.
pub proof fn lemma_set_with_one_more(s: Seq<Seq<char>>, x: Seq<char>)
    ensures
        s.push(x).to_set() == s.to_set().insert(x),
{
    let more = s.push(x);
    assert forall|a: Seq<char>| more.to_set().contains(a) <==> s.to_set().insert(x).contains(
        a,
    ) by {
        if more.contains(a) {
            let j = choose|j: int| 0 <= j < more.len() && more[j] == a;
            if j < s.len() {
                assert(s[j] == a);
            }
        }
        if s.contains(a) {
            let j = choose|j: int| 0 <= j < s.len() && s[j] == a;
            assert(more[j] == a);
        }
        if a == x {
            assert(more[s.len() as int] == a);
        }
    }
    assert(more.to_set() =~= s.to_set().insert(x));
}

/// The index of the first extension at or after `from` that the listing
/// does not name, or the number of extensions when it names all of them.
pub open spec fn next_missing(listing: Seq<char>, from: int) -> int {
    scan(extension_list(), missing_from(listing), from)
}

/// The command that installs the extension `ext`, as it is shown in a
/// failure.
pub open spec fn install_command_text(ext: Seq<char>) -> Seq<char> {
    "code --install-extension "@ + ext
}

/// The request that installs the extension `ext`.
pub open spec fn install_request(ext: Seq<char>) -> RequestView {
    RequestView::Run(CommandView { program: "code"@, args: seq!["--install-extension"@, ext] })
}

/// The lines that tell of the extensions from `from` up to `upto` that are
/// installed already.
pub open spec fn already_lines(from: int, upto: int) -> Seq<LogLineView> {
    Seq::new(
        (upto - from) as nat,
        |i: int| info_line("Extension already installed: "@ + extension_list()[from + i]),
    )
}

/// What the configurator does on looking at the extensions from `from` on:
/// it reports those that are installed already, then announces and asks for
/// the installation of the first that is missing, or ends with success.
/// Where the progress does not say that the configurator was due to act, it
/// does nothing.
pub open spec fn proceed(progress: ProgressView, from: int) -> Turn {
    let m = next_missing(progress.listing, from);
    if !progress.ran {
        idle(progress)
    } else if m < extension_list().len() {
        Turn {
            progress: ProgressView { stage: Stage::Acting, cursor: m as usize, ..progress },
            added: already_lines(from, m).push(
                info_line("Installing VS Code extension: "@ + extension_list()[m]),
            ),
            step: StepView::Ask(install_request(extension_list()[m])),
        }
    } else {
        Turn {
            progress: ProgressView { stage: Stage::Finished, cursor: m as usize, ..progress },
            added: already_lines(from, m),
            step: StepView::Done(Ok(())),
        }
    }
}

impl VscodeConfigurator {
    /// Check if Visual Studio Code is installed, as the host's reply to the
    /// probe tells.
    pub fn is_installed(&self, reply: &Reply) -> (installed: bool)
        ensures
            installed == (reply@ == ReplyView::Exists(true)),
    {
        vscode_detector().is_installed(reply)
    }

    /// List of extensions to ensure installed.
    pub fn extensions(&self) -> (list: Vec<&'static str>)
        ensures
            slice_texts(list@) == extension_list(),
    {
        let mut list: Vec<&'static str> = Vec::new();
        list.push("github.copilot-chat");
        list.push("ms-dotnettools.csdevkit");
        list.push("ms-dotnettools.csharp");
        list.push("ms-dotnettools.vscode-dotnet-runtime");
        list.push("pflannery.vscode-versionlens");
        list.push("rust-lang.rust-analyzer");
        list.push("vadimcn.vscode-lldb");
        assert(slice_texts(list@) =~= extension_list());
        list
    }

    /// Get the installed extensions from one listing: the set of the names
    /// that the listing holds, one per line, trimmed.
    pub fn installed_extensions(&self, listing: &str) -> (set: StringHashSet)
        ensures
            set@ == installed_set(listing@),
    {
        let lines = lines_of(&chars_of(listing));
        let ghost names = installed_names(listing@);
        let mut set = StringHashSet::new();
        let mut i: usize = 0;
        assert(names.take(0).to_set() =~= Set::<Seq<char>>::empty());
        while i < lines.len()
            invariant
                i <= lines.len(),
                texts(lines@) == split_lines(listing@),
                names == installed_names(listing@),
                set@ == names.take(i as int).to_set(),
            decreases lines.len() - i,
        {
            let name = string_of(&trim(&lines[i]));
            proof {
                assert(texts(lines@)[i as int] == lines@[i as int]@);
                assert(names[i as int] == name@);
                lemma_set_with_one_more(names.take(i as int), name@);
                assert(names.take(i as int).push(name@) =~= names.take(i + 1));
            }
            set.insert(name);
            i += 1;
        }
        assert(names.take(names.len() as int) =~= names);
        set
    }

    /// Check whether an extension is already installed using a pre-fetched
    /// set: by exact equality of names.
    pub fn is_extension_installed_in_set(&self, set: &StringHashSet, ext: &str) -> (installed:
        bool)
        ensures
            installed == set@.contains(ext@),
    {
        set.contains(ext)
    }

    /// Looks at the extensions from `from` on: reports those that are
    /// installed already, then announces and asks for the installation of
    /// the first that is missing, or ends with success. Where the progress
    /// does not say that the configurator was due to act, it does nothing.
    pub fn run_configure<L: Log>(&self, progress: &mut Progress, logger: &mut L, from: usize) -> (step:
        Step)
        requires
            from <= extension_list().len(),
        ensures
            final(progress)@ == proceed(old(progress)@, from as int).progress,
            final(logger).lines() == old(logger).lines() + proceed(
                old(progress)@,
                from as int,
            ).added,
            final(logger).groups() == old(logger).groups(),
            step@ == proceed(old(progress)@, from as int).step,
    {
        let ghost before = logger.lines();
        if !progress.ran {
            assert(before + Seq::<LogLineView>::empty() =~= before);
            return Step::Done(Ok(()));
        }
        let list = self.extensions();
        let installed = self.installed_extensions(progress.listing.as_str());
        let ghost listing = progress.listing@;
        let mut i: usize = from;
        assert(before + already_lines(from as int, from as int) =~= before);
        assert(list@.len() == 7) by {
            assert(slice_texts(list@).len() == 7);
        }
        while i < list.len() && self.is_extension_installed_in_set(&installed, list[i])
            invariant
                from <= i <= list.len(),
                slice_texts(list@) == extension_list(),
                installed@ == installed_set(listing),
                logger.lines() == before + already_lines(from as int, i as int),
                logger.groups() == old(logger).groups(),
                next_missing(listing, from as int) == next_missing(listing, i as int),
            decreases list.len() - i,
        {
            assert(slice_texts(list@)[i as int] == list@[i as int]@);
            logger.info("Extension already installed: ".to_owned().concat(list[i]).as_str());
            assert(logger.lines() =~= before + already_lines(from as int, i + 1));
            i += 1;
        }
        proof {
            lemma_scan(extension_list(), missing_from(listing), i as int);
            if i < list.len() {
                assert(slice_texts(list@)[i as int] == list@[i as int]@);
                assert(missing_from(listing)(extension_list()[i as int]));
            }
        }
        if i < list.len() {
            logger.info("Installing VS Code extension: ".to_owned().concat(list[i]).as_str());
            let mut args: Vec<String> = Vec::new();
            args.push("--install-extension".to_owned());
            args.push(list[i].to_owned());
            let command = command_of("code", args);
            assert(command@.args =~= seq!["--install-extension"@, list@[i as int]@]);
            progress.stage = Stage::Acting;
            progress.cursor = i;
            Step::Ask(Request::Run(command))
        } else {
            progress.stage = Stage::Finished;
            progress.cursor = i;
            Step::Done(Ok(()))
        }
    }
}

impl Configurator for VscodeConfigurator {
    open spec fn label(&self) -> Seq<char> {
        "VSCode"@
    }

    open spec fn probe_spec(&self) -> RequestView {
        RequestView::PathExists(bundle_path("Visual Studio Code"@))
    }

    open spec fn detected_spec(&self, reply: ReplyView) -> bool {
        reply == ReplyView::Exists(true)
    }

    open spec fn listing_spec(&self) -> Option<RequestView> {
        Some(RequestView::Run(CommandView { program: "code"@, args: seq!["--list-extensions"@] }))
    }

    open spec fn should_run_spec(&self, present: bool, listing: Seq<char>) -> bool {
        present && next_missing(listing, 0) < extension_list().len()
    }

    open spec fn act(&self, progress: ProgressView, reply: Option<ReplyView>) -> Turn {
        match reply {
            None => proceed(progress, 0),
            Some(r) => if !progress.ran {
                idle(progress)
            } else if progress.cursor < extension_list().len() {
                let ext = extension_list()[progress.cursor as int];
                match command_outcome(r, install_command_text(ext)) {
                    Ok(_) => {
                        let rest = proceed(progress, progress.cursor + 1);
                        Turn {
                            progress: rest.progress,
                            added: seq![ok_line("Install extension ->"@, ext)] + rest.added,
                            step: rest.step,
                        }
                    },
                    Err(e) => Turn {
                        progress: ProgressView { stage: Stage::Finished, ..progress },
                        added: Seq::empty(),
                        step: StepView::Done(Err(e)),
                    },
                }
            } else {
                Turn {
                    progress: ProgressView { stage: Stage::Finished, ..progress },
                    added: Seq::empty(),
                    step: StepView::Done(Ok(())),
                }
            },
        }
    }

    proof fn acting_undue_is_idle(&self, progress: ProgressView, reply: Option<ReplyView>) {
    }

    open spec fn files(&self) -> Seq<Seq<char>> {
        Seq::empty()
    }

    fn name(&self) -> (name: &'static str) {
        "VSCode"
    }

    fn probe(&self) -> (request: Request) {
        vscode_detector().probe()
    }

    fn detected(&self, reply: &Reply) -> (present: bool) {
        self.is_installed(reply)
    }

    fn listing(&self) -> (query: Option<Request>) {
        let mut args: Vec<String> = Vec::new();
        args.push("--list-extensions".to_owned());
        let command = command_of("code", args);
        assert(command@.args =~= seq!["--list-extensions"@]);
        Some(Request::Run(command))
    }

    fn should_run(&self, present: bool, listing: &str) -> (due: bool) {
        if !present {
            return false;
        }
        let list = self.extensions();
        let installed = self.installed_extensions(listing);
        let mut i: usize = 0;
        while i < list.len() && self.is_extension_installed_in_set(&installed, list[i])
            invariant
                i <= list.len(),
                slice_texts(list@) == extension_list(),
                installed@ == installed_set(listing@),
                next_missing(listing@, 0) == next_missing(listing@, i as int),
            decreases list.len() - i,
        {
            assert(slice_texts(list@)[i as int] == list@[i as int]@);
            i += 1;
        }
        proof {
            lemma_scan(extension_list(), missing_from(listing@), i as int);
            if i < list.len() {
                assert(slice_texts(list@)[i as int] == list@[i as int]@);
                assert(missing_from(listing@)(extension_list()[i as int]));
            }
        }
        i < list.len()
    }

    fn configure<L: Log>(&self, progress: &mut Progress, logger: &mut L, reply: Option<&Reply>) -> (step: Step) {
        let ghost before = logger.lines();
        match reply {
            None => self.run_configure(progress, logger, 0),
            Some(r) => {
                if !progress.ran {
                    assert(before + Seq::<LogLineView>::empty() =~= before);
                    return Step::Done(Ok(()));
                }
                let list = self.extensions();
                assert(list@.len() == 7) by {
                    assert(slice_texts(list@).len() == 7);
                }
                if progress.cursor < list.len() {
                    let ext = list[progress.cursor];
                    assert(slice_texts(list@)[progress.cursor as int] == ext@);
                    let text = "code --install-extension ".to_owned().concat(ext);
                    match r.command_result(text.as_str()) {
                        Ok(_) => {
                            logger.ok_with_highlight("Install extension ->", ext);
                            let from = progress.cursor + 1;
                            let step = self.run_configure(progress, logger, from);
                            assert(logger.lines() =~= before + (seq![
                                ok_line("Install extension ->"@, ext@),
                            ] + proceed(old(progress)@, from as int).added));
                            step
                        },
                        Err(e) => {
                            progress.stage = Stage::Finished;
                            assert(before + Seq::<LogLineView>::empty() =~= before);
                            Step::Done(Err(e))
                        },
                    }
                } else {
                    progress.stage = Stage::Finished;
                    assert(before + Seq::<LogLineView>::empty() =~= before);
                    Step::Done(Ok(()))
                }
            },
        }
    }

    fn affected_files(&self) -> (files: Vec<String>) {
        let files: Vec<String> = Vec::new();
        assert(file_texts(files@) =~= Seq::<Seq<char>>::empty());
        files
    }
}

} // verus!
