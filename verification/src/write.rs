//! Write-side classification for the thread-bridged queue: the driver's send
//! primitive allocates a packet buffer inside the driver's transmit ring, and
//! an allocation failure whose OS error code reports a full ring is a
//! transient would-block condition, not a failure.

use vstd::prelude::*;

verus! {

/// OS error code with which the driver's packet allocation reports a full
/// transmit ring.
pub const ERROR_BUFFER_OVERFLOW_CODE: u32 = 111;

/// Outcome of one driver send, as surfaced to the caller of the write path.
#[derive(Clone, Copy, PartialEq, Eq, Structural, Debug)]
pub enum WriteStatus {
    /// The whole payload of this many bytes was submitted to the driver.
    Written(usize),
    /// The transmit ring is full: a transient would-block condition, to be
    /// retried later.
    WouldBlock,
    /// The driver failed with this OS error code; fatal to this write.
    Failed(u32),
}

/// Translation of a driver send attempt on a payload of `len` bytes:
/// a successful ring allocation means the driver accepted the whole payload;
/// a failed allocation is would-block exactly when the OS error code reports
/// a full transmit ring, and otherwise carries the code through untranslated.
pub fn classify_send(allocated: bool, os_error: u32, len: usize) -> (status: WriteStatus)
    ensures
        allocated ==> status == WriteStatus::Written(len),
        !allocated && os_error == ERROR_BUFFER_OVERFLOW_CODE ==> status == WriteStatus::WouldBlock,
        !allocated && os_error != ERROR_BUFFER_OVERFLOW_CODE ==> status == WriteStatus::Failed(
            os_error,
        ),
{
    if allocated {
        WriteStatus::Written(len)
    } else if os_error == ERROR_BUFFER_OVERFLOW_CODE {
        WriteStatus::WouldBlock
    } else {
        WriteStatus::Failed(os_error)
    }
}

} // verus!
