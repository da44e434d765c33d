//! What is reported of a message that could not be sent.

use vstd::prelude::*;
use crate::errno::ErrnoKind;

verus! {

/// The error to report for `sendto`. Where the call failed for want of
/// buffer space, the caller is told to try again, as it is told elsewhere.
pub fn sendto(result: isize, errno: ErrnoKind) -> (reported: ErrnoKind)
    ensures
        reported == (if result == -1 && errno == ErrnoKind::ENOBUFS {
            ErrnoKind::EAGAIN
        } else {
            errno
        }),
{
    if result == -1 {
        match errno {
            ErrnoKind::ENOBUFS => ErrnoKind::EAGAIN,
            other => other,
        }
    } else {
        errno
    }
}

} // verus!
