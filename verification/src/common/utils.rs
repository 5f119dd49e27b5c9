//! Paths as they are shown to the user.

use crate::text::{chars_of, slice_of, starts_with, string_of};
use vstd::prelude::*;
use vstd::string::StringExecFns;

verus! {

/// What is left of `path` below the directory `home`: `None` when `path`
/// is not `home` itself and does not lie below it.
pub open spec fn below_home(path: Seq<char>, home: Seq<char>) -> Option<Seq<char>> {
    if home.len() > 0 && home.is_prefix_of(path) {
        if path.len() == home.len() {
            Some(Seq::empty())
        } else if home.last() == '/' {
            Some(path.skip(home.len() as int))
        } else if path[home.len() as int] == '/' {
            Some(path.skip(home.len() as int + 1))
        } else {
            None
        }
    } else {
        None
    }
}

/// `path` with the home directory written as a tilde, where it lies in it.
pub open spec fn with_tilde(path: Seq<char>, home: Option<Seq<char>>) -> Seq<char> {
    match home {
        Some(h) => match below_home(path, h) {
            Some(rest) => "~/"@ + rest,
            None => path,
        },
        None => path,
    }
}

/// The text of an optional string slice.
pub open spec fn option_str_text(s: Option<&str>) -> Option<Seq<char>> {
    match s {
        Some(t) => Some(t@),
        None => None,
    }
}

/// Replaces the home directory part of a path with a tilde. `home` is the
/// user's home directory, if it is known.
pub fn replace_home_with_tilde(path: &str, home: Option<&str>) -> (shown: String)
    ensures
        shown@ == with_tilde(path@, option_str_text(home)),
{
    match home {
        Some(h) => {
            let p = chars_of(path);
            let base = chars_of(h);
            if base.len() > 0 && starts_with(&p, &base) {
                if p.len() == base.len() {
                    let shown = "~/".to_owned();
                    assert(shown@ =~= "~/"@ + Seq::<char>::empty());
                    shown
                } else if base[base.len() - 1] == '/' {
                    let rest = slice_of(&p, base.len(), p.len());
                    "~/".to_owned().concat(string_of(&rest).as_str())
                } else if p[base.len()] == '/' {
                    let rest = slice_of(&p, base.len() + 1, p.len());
                    "~/".to_owned().concat(string_of(&rest).as_str())
                } else {
                    path.to_owned()
                }
            } else {
                path.to_owned()
            }
        },
        None => path.to_owned(),
    }
}

} // verus!
