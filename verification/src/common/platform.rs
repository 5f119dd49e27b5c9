//! The operating system that the run takes place on.

use crate::common::exchange::{command_of, Request, RequestView, CommandView};
use crate::text::{option_text, same_str};
use vstd::prelude::*;

verus! {

/// The operating system the program is running on.
#[derive(Debug, Clone, Copy, PartialEq, Eq, Structural)]
pub enum Platform {
    MacOS,
    Linux,
    Windows,
}

/// The text of capture group 1 of the leftmost match of the regular
/// expression `pattern` in `haystack`; `None` when the pattern is no valid
/// expression, when nothing matches, or when group 1 took no part in the
/// match.
pub uninterp spec fn first_group_of(pattern: Seq<char>, haystack: Seq<char>) -> Option<Seq<char>>;

/// Compiles `pattern` with `regex::Regex::new`, searches `haystack` with
/// `Regex::captures` and hands out the text of group 1 (`Captures::get`,
/// `Match::as_str`). Nothing is claimed of the search but that its result is
/// a function of the two texts.
#[verifier::external_body]
fn first_group(pattern: &str, haystack: &str) -> (found: Option<String>)
    ensures
        option_text(found) == first_group_of(pattern@, haystack@),
{
    let re = match regex::Regex::new(pattern) {
        Ok(re) => re,
        Err(_) => return None,
    };
    match re.captures(haystack) {
        Some(caps) => match caps.get(1) {
            Some(m) => Some(m.as_str().to_string()),
            None => None,
        },
        None => None,
    }
}

/// The expression that finds the serial number in a listing of the device
/// registry.
pub open spec fn serial_pattern() -> Seq<char> {
    "\"IOPlatformSerialNumber\"\"\\s*=\\s*\"([^\"]+)\""@
}

/// The platform named by an operating system name; an unknown name counts
/// as Linux.
pub open spec fn platform_of(os: Seq<char>) -> Platform {
    if os == "macos"@ {
        Platform::MacOS
    } else if os == "windows"@ {
        Platform::Windows
    } else {
        Platform::Linux
    }
}

impl Platform {
    /// The platform's name as it is shown.
    pub open spec fn label(&self) -> Seq<char> {
        match self {
            Platform::MacOS => "macOS"@,
            Platform::Linux => "Linux"@,
            Platform::Windows => "Windows"@,
        }
    }

    /// The platform named by the operating system name `os`, as the standard
    /// library spells it; an unknown name counts as Linux.
    pub fn detect(os: &str) -> (p: Platform)
        ensures
            p == platform_of(os@),
    {
        if same_str(os, "macos") {
            Platform::MacOS
        } else if same_str(os, "windows") {
            Platform::Windows
        } else {
            Platform::Linux
        }
    }

    /// Human-friendly name for the platform.
    pub fn as_str(&self) -> (name: &'static str)
        ensures
            name@ == self.label(),
    {
        match self {
            Platform::MacOS => "macOS",
            Platform::Linux => "Linux",
            Platform::Windows => "Windows",
        }
    }

    /// The request whose output holds the machine's serial number: a listing
    /// of the device registry on macOS, none elsewhere.
    pub fn serial_number_query(&self) -> (query: Option<Request>)
        ensures
            *self != Platform::MacOS ==> query is None,
            *self == Platform::MacOS ==> query is Some && query->0@ == RequestView::Run(
                CommandView { program: "ioreg"@, args: seq!["-l"@] },
            ),
    {
        match self {
            Platform::MacOS => {
                let mut args: Vec<String> = Vec::new();
                args.push("-l".to_owned());
                let command = command_of("ioreg", args);
                assert(command@.args =~= seq!["-l"@]);
                Some(Request::Run(command))
            },
            _ => None,
        }
    }

    /// The machine's serial number as the device registry listing gives it:
    /// group 1 of the serial pattern on macOS, nothing on another platform.
    pub fn get_serial_number(&self, listing: &str) -> (serial: Option<String>)
        ensures
            *self != Platform::MacOS ==> serial is None,
            *self == Platform::MacOS ==> option_text(serial) == first_group_of(
                serial_pattern(),
                listing@,
            ),
    {
        match self {
            Platform::MacOS => first_group(
                "\"IOPlatformSerialNumber\"\"\\s*=\\s*\"([^\"]+)\"",
                listing,
            ),
            _ => None,
        }
    }
}

} // verus!
