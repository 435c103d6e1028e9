//! The receive-thread protocol of the thread-bridged queue. The driver has
//! no readiness primitive for reads, so a dedicated thread loops: poll the
//! driver for a packet; deliver one if present; when none is available, block
//! on a dual wait over the shutdown event and the driver's data-ready event;
//! exit on shutdown. These functions are the thread's decisions; the driver
//! calls and the blocking wait themselves stand outside.

use vstd::prelude::*;

verus! {

/// Index of the shutdown event in the dual wait's outcome, as the OS wait
/// primitive numbers signaled objects.
pub const WAIT_SHUTDOWN_EVENT: u32 = 0;

/// Index of the driver's data-ready event in the dual wait's outcome.
pub const WAIT_DATA_READY_EVENT: u32 = 1;

/// OS error code with which the driver's receive call reports that no packet
/// is currently available.
pub const ERROR_NO_MORE_ITEMS_CODE: u32 = 259;

/// Outcome of one non-blocking driver receive call.
#[derive(Debug)]
pub enum RecvPoll {
    /// The driver handed out a packet with these bytes.
    Packet(Vec<u8>),
    /// No packet is currently available.
    NoData,
    /// The driver failed with this OS error code.
    Failure(u32),
}

/// Classification of a failed driver receive by its OS error code: the
/// "no more items" code means no packet is currently available, and every
/// other code is a driver failure carried through untranslated.
pub fn classify_recv_error(os_error: u32) -> (outcome: RecvPoll)
    ensures
        os_error == ERROR_NO_MORE_ITEMS_CODE ==> outcome matches RecvPoll::NoData,
        os_error != ERROR_NO_MORE_ITEMS_CODE ==> (outcome matches RecvPoll::Failure(code) && code
            == os_error),
{
    if os_error == ERROR_NO_MORE_ITEMS_CODE {
        RecvPoll::NoData
    } else {
        RecvPoll::Failure(os_error)
    }
}

/// What the receive thread does after one driver receive call.
#[derive(Debug)]
pub enum ReaderAction {
    /// Push these bytes onto the bounded frame channel, then wake a pending
    /// reader if one is registered.
    Deliver(Vec<u8>),
    /// Block on the dual wait over the shutdown and data-ready events.
    WaitForEvents,
    /// Treat the error as transient and poll the driver again.
    Retry,
}

/// The receive thread's decision after polling the driver once: a packet is
/// delivered as-is, "no data" leads to the dual wait, and any other driver
/// error is treated as transient and retried.
pub fn reader_step(outcome: RecvPoll) -> (action: ReaderAction)
    ensures
        outcome matches RecvPoll::Packet(frame) ==> (action matches ReaderAction::Deliver(
            delivered,
        ) && delivered@ == frame@),
        outcome matches RecvPoll::NoData ==> action matches ReaderAction::WaitForEvents,
        outcome matches RecvPoll::Failure(code) ==> action matches ReaderAction::Retry,
{
    match outcome {
        RecvPoll::Packet(frame) => ReaderAction::Deliver(frame),
        RecvPoll::NoData => ReaderAction::WaitForEvents,
        RecvPoll::Failure(_) => ReaderAction::Retry,
    }
}

/// What the receive thread does after the dual wait returns.
#[derive(Clone, Copy, PartialEq, Eq, Structural, Debug)]
pub enum WaitVerdict {
    /// The shutdown event fired: leave the loop and end the thread.
    ExitThread,
    /// The data-ready event fired: poll the driver again.
    PollDriver,
    /// Any other wait outcome breaks a programming invariant; the thread must
    /// abort rather than continue on a false assumption.
    AbortThread(u32),
}

/// Classification of the dual wait's outcome. Only the shutdown event and
/// the data-ready event are legitimate wakeups; every other outcome is an
/// unrecoverable invariant violation.
pub fn classify_wait(signaled: u32) -> (verdict: WaitVerdict)
    ensures
        signaled == WAIT_SHUTDOWN_EVENT ==> verdict == WaitVerdict::ExitThread,
        signaled == WAIT_DATA_READY_EVENT ==> verdict == WaitVerdict::PollDriver,
        signaled != WAIT_SHUTDOWN_EVENT && signaled != WAIT_DATA_READY_EVENT ==> verdict
            == WaitVerdict::AbortThread(signaled),
{
    if signaled == WAIT_SHUTDOWN_EVENT {
        WaitVerdict::ExitThread
    } else if signaled == WAIT_DATA_READY_EVENT {
        WaitVerdict::PollDriver
    } else {
        WaitVerdict::AbortThread(signaled)
    }
}

} // verus!
