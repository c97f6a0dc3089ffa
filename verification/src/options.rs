use vstd::prelude::*;

use crate::text::str_eq;

verus! {

/// The two options the tool recognizes.
#[derive(Clone, Copy, Debug, PartialEq, Eq, Structural)]
pub enum Flag {
    Help,
    Version,
}

/// The option named by a flag token, if any: `-h` and `--help` ask for
/// the usage text, `-v` and `--version` for the version line.
pub open spec fn spec_handle_option(s: Seq<char>) -> Option<Flag> {
    if s == "-h"@ || s == "--help"@ {
        Some(Flag::Help)
    } else if s == "-v"@ || s == "--version"@ {
        Some(Flag::Version)
    } else {
        None
    }
}

/// Recognizes an option flag, returning `None` for an unknown one.
pub fn handle_option(flag: &str) -> (r: Option<Flag>)
    ensures
        r == spec_handle_option(flag@),
{
    if str_eq(flag, "-h") || str_eq(flag, "--help") {
        Some(Flag::Help)
    } else if str_eq(flag, "-v") || str_eq(flag, "--version") {
        Some(Flag::Version)
    } else {
        None
    }
}

} // verus!
