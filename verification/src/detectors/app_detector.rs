//! The interface of a capability.

use crate::common::exchange::{Reply, ReplyView, Request, RequestView};
use vstd::prelude::*;

verus! {

/// Detects whether an application is installed. Detection never fails: a
/// reply that does not confirm the application means that it is absent.
pub trait AppDetector {
    /// The request that establishes the capability.
    spec fn probe_spec(&self) -> RequestView;

    /// Whether `reply`, given to the probe, confirms the application.
    spec fn installed_spec(&self, reply: ReplyView) -> bool;

    /// The application's name as it is shown.
    spec fn label(&self) -> Seq<char>;

    /// The request that establishes the capability.
    fn probe(&self) -> (request: Request)
        ensures
            request@ == self.probe_spec(),
    ;

    /// Whether `reply`, the host's reply to the probe, confirms the
    /// application.
    fn is_installed(&self, reply: &Reply) -> (installed: bool)
        ensures
            installed == self.installed_spec(reply@),
    ;

    /// The application's name as it is shown.
    fn name(&self) -> (name: &'static str)
        ensures
            name@ == self.label(),
    ;
}

} // verus!
