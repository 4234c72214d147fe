//! Whether the owner has left the computer, from how long no input came in.

use vstd::prelude::*;

verus! {

/// Whether the system has been idle for at least `threshold_minutes`, given
/// the whole seconds since the last input; a threshold of 0 turns forwarding off.
pub fn is_idle_for(threshold_minutes: u32, idle_seconds: u64) -> (b: bool)
    ensures
        b == (threshold_minutes > 0 && idle_seconds >= threshold_minutes * 60),
{
    if threshold_minutes == 0 {
        return false;
    }
    idle_seconds >= (threshold_minutes as u64) * 60
}

} // verus!
