//! The detectors of the catalog as one type.

use crate::common::exchange::{Reply, ReplyView, Request, RequestView};
use crate::detectors::app_detector::AppDetector;
use crate::detectors::mac_app::MacAppDetector;
use crate::detectors::oh_my_zsh::OhMyZshDetector;
use crate::detectors::which::WhichDetector;
use vstd::prelude::*;

verus! {

/// Any one of the detectors that the catalog uses.
pub enum Detector {
    Which(WhichDetector),
    MacApp(MacAppDetector),
    OhMyZsh(OhMyZshDetector),
}

impl AppDetector for Detector {
    open spec fn probe_spec(&self) -> RequestView {
        match self {
            Detector::Which(d) => d.probe_spec(),
            Detector::MacApp(d) => d.probe_spec(),
            Detector::OhMyZsh(d) => d.probe_spec(),
        }
    }

    open spec fn installed_spec(&self, reply: ReplyView) -> bool {
        match self {
            Detector::Which(d) => d.installed_spec(reply),
            Detector::MacApp(d) => d.installed_spec(reply),
            Detector::OhMyZsh(d) => d.installed_spec(reply),
        }
    }

    open spec fn label(&self) -> Seq<char> {
        match self {
            Detector::Which(d) => d.label(),
            Detector::MacApp(d) => d.label(),
            Detector::OhMyZsh(d) => d.label(),
        }
    }

    fn probe(&self) -> (request: Request) {
        match self {
            Detector::Which(d) => d.probe(),
            Detector::MacApp(d) => d.probe(),
            Detector::OhMyZsh(d) => d.probe(),
        }
    }

    fn is_installed(&self, reply: &Reply) -> (installed: bool) {
        match self {
            Detector::Which(d) => d.is_installed(reply),
            Detector::MacApp(d) => d.is_installed(reply),
            Detector::OhMyZsh(d) => d.is_installed(reply),
        }
    }

    fn name(&self) -> (name: &'static str) {
        match self {
            Detector::Which(d) => d.name(),
            Detector::MacApp(d) => d.name(),
            Detector::OhMyZsh(d) => d.name(),
        }
    }
}

} // verus!
