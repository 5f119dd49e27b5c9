//! Detection of an application by its bundle in the applications folder.

use crate::common::exchange::{Reply, ReplyView, Request, RequestView};
use crate::detectors::app_detector::AppDetector;
use crate::text::{chars_of, starts_with};
use vstd::prelude::*;
use vstd::string::StringExecFns;

verus! {

/// A detector for application bundles: the application is installed iff its
/// bundle exists.
#[derive(Copy, Clone)]
pub struct MacAppDetector {
    pub name: &'static str,
    pub display_name: &'static str,
}

/// Where the bundle of the application `name` lies: in the applications
/// folder, unless `name` is an absolute path itself.
pub open spec fn bundle_path(name: Seq<char>) -> Seq<char> {
    if "/"@.is_prefix_of(name) {
        name + ".app"@
    } else {
        "/Applications/"@ + name + ".app"@
    }
}

impl MacAppDetector {
    /// The detector of the application whose bundle is named `bin`, shown
    /// as `display_name`.
    pub fn new(bin: &'static str, display_name: &'static str) -> (d: MacAppDetector)
        ensures
            d.name@ == bin@,
            d.display_name@ == display_name@,
    {
        MacAppDetector { name: bin, display_name }
    }
}

impl AppDetector for MacAppDetector {
    open spec fn probe_spec(&self) -> RequestView {
        RequestView::PathExists(bundle_path(self.name@))
    }

    open spec fn installed_spec(&self, reply: ReplyView) -> bool {
        reply == ReplyView::Exists(true)
    }

    open spec fn label(&self) -> Seq<char> {
        self.display_name@
    }

    fn probe(&self) -> (request: Request) {
        if starts_with(&chars_of(self.name), &chars_of("/")) {
            Request::PathExists(self.name.to_owned().concat(".app"))
        } else {
            Request::PathExists("/Applications/".to_owned().concat(self.name).concat(".app"))
        }
    }

    fn is_installed(&self, reply: &Reply) -> (installed: bool) {
        reply.is_present()
    }

    fn name(&self) -> (name: &'static str) {
        self.display_name
    }
}

} // verus!
