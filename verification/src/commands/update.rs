//! Update commands: how the running copy was installed.

use vstd::prelude::*;
use crate::text::{contains_seq, lowercase_of, str_contains, str_to_lowercase};

verus! {

/// How the application was installed: `portable` when a `portable.flag` file
/// sits beside the executable, `setup` when the executable's path contains
/// `program files` (in any case), `dev` otherwise or when the executable's
/// path is unknown.
pub open spec fn install_mode_of(exe_path: Option<Seq<char>>, portable_flag: bool) -> Seq<char> {
    match exe_path {
        None => "dev"@,
        Some(p) => if portable_flag {
            "portable"@
        } else if contains_seq(lowercase_of(p), "program files"@) {
            "setup"@
        } else {
            "dev"@
        },
    }
}

/// The install mode, given the executable's path (if known) and whether a
/// `portable.flag` file exists beside it.
pub fn install_mode(exe_path: Option<&str>, portable_flag: bool) -> (res: &'static str)
    ensures
        res@ == install_mode_of(
            match exe_path {
                Some(p) => Some(p@),
                None => None,
            },
            portable_flag,
        ),
{
    match exe_path {
        None => "dev",
        Some(p) => {
            if portable_flag {
                "portable"
            } else {
                let lower = str_to_lowercase(p);
                if str_contains(lower.as_str(), "program files") {
                    "setup"
                } else {
                    "dev"
                }
            }
        },
    }
}

} // verus!
