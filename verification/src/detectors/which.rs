//! Detection of a program by looking it up on the search path.

use crate::common::exchange::{command_of, CommandView, Reply, ReplyView, Request, RequestView};
use crate::detectors::app_detector::AppDetector;
use vstd::prelude::*;

verus! {

/// A reusable detector for simple binaries: the binary is installed iff the
/// platform's locate-executable command finds it.
#[derive(Copy, Clone)]
pub struct WhichDetector {
    pub bin: &'static str,
    pub display_name: &'static str,
}

impl WhichDetector {
    /// The detector of the binary `bin`, shown as `display_name`.
    pub fn new(bin: &'static str, display_name: &'static str) -> (d: WhichDetector)
        ensures
            d.bin@ == bin@,
            d.display_name@ == display_name@,
    {
        WhichDetector { bin, display_name }
    }
}

impl AppDetector for WhichDetector {
    open spec fn probe_spec(&self) -> RequestView {
        RequestView::Run(CommandView { program: "which"@, args: seq![self.bin@] })
    }

    open spec fn installed_spec(&self, reply: ReplyView) -> bool {
        reply is Succeeded
    }

    open spec fn label(&self) -> Seq<char> {
        self.display_name@
    }

    fn probe(&self) -> (request: Request) {
        let mut args: Vec<String> = Vec::new();
        args.push(self.bin.to_owned());
        let command = command_of("which", args);
        assert(command@.args =~= seq![self.bin@]);
        Request::Run(command)
    }

    fn is_installed(&self, reply: &Reply) -> (installed: bool) {
        reply.is_success()
    }

    fn name(&self) -> (name: &'static str) {
        self.display_name
    }
}

} // verus!
