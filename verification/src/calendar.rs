//! Calendar domain placeholder.

use vstd::prelude::*;

verus! {

/// Returns the calendar component's name. Useful for smoke tests while
/// functionality is added.
pub fn name() -> (r: &'static str)
    ensures
        r@ == "calendar_lib"@,
{
    "calendar_lib"
}

} // verus!
