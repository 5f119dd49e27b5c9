//! Detection of the shell framework by its directory under the user's home.

use crate::common::exchange::{Reply, ReplyView, Request, RequestView};
use crate::detectors::app_detector::AppDetector;
use vstd::prelude::*;

verus! {

/// Detects if oh-my-zsh is installed: its directory exists under the user's
/// home.
pub struct OhMyZshDetector;

impl AppDetector for OhMyZshDetector {
    open spec fn probe_spec(&self) -> RequestView {
        RequestView::PathExists("~/.oh-my-zsh"@)
    }

    open spec fn installed_spec(&self, reply: ReplyView) -> bool {
        reply == ReplyView::Exists(true)
    }

    open spec fn label(&self) -> Seq<char> {
        "oh-my-zsh"@
    }

    fn probe(&self) -> (request: Request) {
        Request::PathExists("~/.oh-my-zsh".to_owned())
    }

    fn is_installed(&self, reply: &Reply) -> (installed: bool) {
        reply.is_present()
    }

    fn name(&self) -> (name: &'static str) {
        "oh-my-zsh"
    }
}

} // verus!
