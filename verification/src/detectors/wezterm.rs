//! The detector of the WezTerm terminal emulator.

use crate::detectors::mac_app::MacAppDetector;
use vstd::prelude::*;

verus! {

/// Detects if WezTerm is installed (bundle-based detector).
pub fn wezterm_detector() -> (d: MacAppDetector)
    ensures
        d.name@ == "WezTerm"@,
        d.display_name@ == "WezTerm"@,
{
    MacAppDetector::new("WezTerm", "WezTerm")
}

} // verus!
