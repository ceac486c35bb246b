//! Process-level platform queries that have a fixed answer here.

use vstd::prelude::*;

verus! {

/// Elevation is never required on this platform: the answer is always
/// affirmative, so callers skip the restart-as-administrator path.
pub fn is_elevated() -> (r: bool)
    ensures
        r,
{
    true
}

} // verus!
