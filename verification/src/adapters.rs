//! What the crate decides about the engine binding. The engine itself is
//! a native library loaded and driven outside the crate; only the choice
//! of its file name extension is computed here.

use vstd::prelude::*;
use crate::text::str_equals;

verus! {

/// The file name extension of the engine's native library on the given
/// operating system.
pub fn get_extension(system: &str) -> (extension: &'static str)
    ensures
        system@ == "windows"@ ==> extension@ == ".dll"@,
        system@ != "windows"@ ==> extension@ == ".so"@,
{
    if str_equals(system, "windows") {
        ".dll"
    } else {
        ".so"
    }
}

} // verus!
