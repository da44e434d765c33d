//! Sleeping on a system that can only sleep by the wall clock.

use vstd::prelude::*;
use crate::errno::ErrnoKind;

verus! {

/// The clock that tells the time of day.
pub const CLOCK_REALTIME: i32 = 0;

/// Whether a sleep on the clock `clock_id` can be had: on the wall clock
/// alone. For any other clock the call fails, and the error number to report
/// is `EINVAL`.
pub fn clock_nanosleep(clock_id: i32) -> (result: Result<(), ErrnoKind>)
    ensures
        result == (if clock_id == CLOCK_REALTIME {
            Ok::<(), ErrnoKind>(())
        } else {
            Err(ErrnoKind::EINVAL)
        }),
{
    if clock_id != CLOCK_REALTIME {
        return Err(ErrnoKind::EINVAL);
    }
    Ok(())
}

} // verus!
