//! Consumer-side read path of the thread-bridged queue: a non-blocking pop
//! from the bounded frame channel, truncated to the caller's capacity. The
//! channel's producer is the receive thread; its termination (a disconnected
//! channel) is end-of-stream, reported as a zero-length read, not an error.

use vstd::prelude::*;
use crate::frame::trunc_len;
use crate::frame::truncated_prefix;

verus! {

#[verifier::external_type_specification]
#[verifier::external_body]
#[verifier::reject_recursive_types(T)]
pub struct ExReceiver<T>(crossbeam_channel::Receiver<T>);

/// One observation of the bounded frame channel.
pub enum RecvAttempt {
    /// A frame was waiting; it is removed from the channel.
    Frame(Vec<u8>),
    /// The channel is currently empty but the producer may still send.
    Empty,
    /// The channel is empty and the producer is gone.
    Disconnected,
}

/// Relies on crossbeam_channel::Receiver::try_recv: it returns a queued
/// message without blocking if one is immediately available, `Empty` when
/// the channel is currently empty, and `Disconnected` only when the channel
/// is empty and all senders have been dropped. What it returns depends on
/// the producer thread, so nothing is pinned of the outcome.
#[verifier::external_body]
fn try_recv_frame(frames: &crossbeam_channel::Receiver<Vec<u8>>) -> (attempt: RecvAttempt) {
    match frames.try_recv() {
        Ok(frame) => RecvAttempt::Frame(frame),
        Err(crossbeam_channel::TryRecvError::Empty) => RecvAttempt::Empty,
        Err(crossbeam_channel::TryRecvError::Disconnected) => RecvAttempt::Disconnected,
    }
}

/// Result of one read on the consumer side of the bridge.
#[derive(PartialEq, Eq, Debug)]
pub enum ReadOutcome {
    /// A frame arrived; these are its bytes, truncated to the caller's
    /// capacity. The discarded remainder, if any, is gone for good.
    Data(Vec<u8>),
    /// No frame is available yet: suspend and retry after a wakeup.
    WouldBlock,
    /// The receive thread has terminated: end of stream, to be surfaced as
    /// a zero-length read, distinct from any error.
    EndOfStream,
}

/// The read decision for one channel observation: a waiting frame is
/// delivered truncated to `cap` bytes, an empty channel is would-block, and
/// a disconnected channel is end-of-stream.
pub fn read_from_attempt(attempt: RecvAttempt, cap: usize) -> (outcome: ReadOutcome)
    ensures
        attempt matches RecvAttempt::Frame(frame) ==> (outcome matches ReadOutcome::Data(data)
            && data@ == frame@.take(trunc_len(cap as int, frame@.len() as int))),
        attempt matches RecvAttempt::Empty ==> outcome == ReadOutcome::WouldBlock,
        attempt matches RecvAttempt::Disconnected ==> outcome == ReadOutcome::EndOfStream,
{
    match attempt {
        RecvAttempt::Frame(frame) => ReadOutcome::Data(truncated_prefix(&frame, cap)),
        RecvAttempt::Empty => ReadOutcome::WouldBlock,
        RecvAttempt::Disconnected => ReadOutcome::EndOfStream,
    }
}

/// One non-blocking read against the live frame channel. The channel is fed
/// by another thread, so which arm is taken cannot be pinned here; whatever
/// was observed, the outcome follows `read_from_attempt`, and any delivered
/// data fits the caller's capacity.
pub fn read_frame(frames: &crossbeam_channel::Receiver<Vec<u8>>, cap: usize) -> (outcome:
    ReadOutcome)
    ensures
        outcome matches ReadOutcome::Data(data) ==> data@.len() <= cap,
{
    let attempt = try_recv_frame(frames);
    read_from_attempt(attempt, cap)
}

} // verus!
