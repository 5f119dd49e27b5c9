//! Declarative, detector-gated symlinks: for each declared link, the link is
//! created when its application is present and skipped otherwise.

pub mod creator;
pub mod setup;

use vstd::prelude::*;

verus! {

/// A symlink to be set up: where it points, where it stands, and the name of
/// the tool it configures.
#[derive(Debug, Clone, PartialEq, Eq)]
pub struct SymlinkConfig {
    pub source: String,
    pub destination: String,
    pub installer_name: &'static str,
}

/// What a symlink configuration says.
pub struct SymlinkConfigView {
    pub source: Seq<char>,
    pub destination: Seq<char>,
    pub installer_name: Seq<char>,
}

impl View for SymlinkConfig {
    type V = SymlinkConfigView;

    open spec fn view(&self) -> SymlinkConfigView {
        SymlinkConfigView {
            source: self.source@,
            destination: self.destination@,
            installer_name: self.installer_name@,
        }
    }
}

} // verus!
