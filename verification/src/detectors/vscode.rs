//! The detector of Visual Studio Code.

use crate::detectors::mac_app::MacAppDetector;
use vstd::prelude::*;

verus! {

/// Detects if Visual Studio Code is installed (bundle-based detector).
pub fn vscode_detector() -> (d: MacAppDetector)
    ensures
        d.name@ == "Visual Studio Code"@,
        d.display_name@ == "Visual Studio Code"@,
{
    MacAppDetector::new("Visual Studio Code", "Visual Studio Code")
}

} // verus!
