//! The detector of the Yazi file manager.

use crate::detectors::which::WhichDetector;
use vstd::prelude::*;

verus! {

/// Detects if Yazi is installed (which-based detector).
pub fn yazi_detector() -> (d: WhichDetector)
    ensures
        d.bin@ == "yazi"@,
        d.display_name@ == "Yazi"@,
{
    WhichDetector::new("yazi", "Yazi")
}

} // verus!
