//! The detector of the Helix editor.

use crate::detectors::which::WhichDetector;
use vstd::prelude::*;

verus! {

/// Detects if Helix is installed (which-based detector).
pub fn helix_detector() -> (d: WhichDetector)
    ensures
        d.bin@ == "hx"@,
        d.display_name@ == "Helix"@,
{
    WhichDetector::new("hx", "Helix")
}

} // verus!
