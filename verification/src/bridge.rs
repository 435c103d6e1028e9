//! Verified model of the thread-bridged queue's state and transitions.
//!
//! The real queue is spread over three parties — the consumer polling reads
//! and writes, the dedicated receive thread feeding the bounded frame
//! channel, and a blocking worker carrying out at most one driver send at a
//! time. This model holds their shared state in one place and makes each
//! party's step a verified transition: what the receive thread's delivery
//! does to the channel, what a read poll returns for every channel state,
//! when a write poll may dispatch a driver send, and in which order teardown
//! must proceed. The ghost sequences record every frame the driver emitted,
//! every frame the consumer took, and every payload handed to the driver's
//! send — the contracts relate the three.

use vstd::prelude::*;
use crate::frame::trunc_len;
use crate::frame::truncated_prefix;
use crate::write::WriteStatus;

verus! {

/// Capacity of the bounded frame channel: the sole backpressure on the
/// receive path. When the channel is full the receive thread's push blocks,
/// which stalls its draining of the driver.
pub const FRAME_CHANNEL_CAPACITY: usize = 16;

/// The byte sequences a row of owned frame buffers stands for.
pub open spec fn frame_views(frames: Seq<Vec<u8>>) -> Seq<Seq<u8>> {
    frames.map_values(|frame: Vec<u8>| frame@)
}

/// Result of one asynchronous read poll against the bridge.
#[derive(PartialEq, Eq, Debug)]
pub enum ReadPoll {
    /// The oldest pending frame, truncated to the caller's capacity.
    Ready(Vec<u8>),
    /// Nothing to read yet; the caller's waker is registered and the poll
    /// suspends.
    Pending,
    /// The receive thread is gone: end of stream, surfaced as a zero-length
    /// read, not an error.
    EndOfStream,
}

/// Result of one asynchronous write poll against the bridge.
#[derive(Clone, Copy, PartialEq, Eq, Structural, Debug)]
pub enum WritePoll {
    /// The previous write's stored outcome, drained from the status slot.
    Ready(WriteStatus),
    /// The poll suspends: either this call dispatched the payload to a
    /// blocking send, or an earlier write is still in flight.
    Pending,
}

/// The bridged queue's state, shared between consumer, receive thread and
/// write worker.
pub struct Bridge {
    /// Frames received from the driver and not yet taken by the consumer,
    /// oldest first: the bounded frame channel.
    pub frames: Vec<Vec<u8>>,
    /// The dedicated receive thread is still running.
    pub thread_alive: bool,
    /// The manual-reset shutdown event has been signaled (one-way).
    pub shutdown_signaled: bool,
    /// The driver session has not been ended yet.
    pub session_open: bool,
    /// A blocking driver send is outstanding and its outcome not yet stored.
    pub write_in_flight: bool,
    /// The single-slot status channel: the most recent write's outcome,
    /// waiting to be drained by the next write poll.
    pub write_status: Option<WriteStatus>,
    /// A reader's waker is registered, to be woken on the next delivery.
    pub waker_registered: bool,
    /// Every frame the driver emitted, in emission order.
    pub emitted: Ghost<Seq<Seq<u8>>>,
    /// Every frame the consumer has taken, in delivery order.
    pub delivered: Ghost<Seq<Seq<u8>>>,
    /// Every payload handed to the driver's send primitive, in dispatch
    /// order.
    pub submitted: Ghost<Seq<Seq<u8>>>,
}

impl Bridge {
    /// The frames currently queued between receive thread and consumer.
    pub open spec fn pending(self) -> Seq<Seq<u8>> {
        frame_views(self.frames@)
    }

    /// Well-formedness: the channel respects its bound; the emission record
    /// splits exactly into what was delivered and what is still pending (no
    /// frame is dropped or reordered); a dead receive thread presupposes the
    /// shutdown signal; an ended session presupposes a joined receive
    /// thread; and the write path never holds an outstanding send and an
    /// undrained outcome at once.
    pub open spec fn wf(self) -> bool {
        &&& self.frames@.len() <= FRAME_CHANNEL_CAPACITY
        &&& self.emitted@ == self.delivered@ + self.pending()
        &&& (!self.thread_alive ==> self.shutdown_signaled)
        &&& (!self.session_open ==> !self.thread_alive)
        &&& !(self.write_in_flight && self.write_status is Some)
    }

    /// A fresh bridge over a just-opened driver session: the receive thread
    /// spawned and running, the channels empty, no write outstanding.
    pub fn new() -> (bridge: Bridge)
        ensures
            bridge.wf(),
            bridge.pending() == Seq::<Seq<u8>>::empty(),
            bridge.emitted@ == Seq::<Seq<u8>>::empty(),
            bridge.delivered@ == Seq::<Seq<u8>>::empty(),
            bridge.submitted@ == Seq::<Seq<u8>>::empty(),
            bridge.thread_alive,
            !bridge.shutdown_signaled,
            bridge.session_open,
            !bridge.write_in_flight,
            bridge.write_status is None,
            !bridge.waker_registered,
    {
        let bridge = Bridge {
            frames: Vec::new(),
            thread_alive: true,
            shutdown_signaled: false,
            session_open: true,
            write_in_flight: false,
            write_status: None,
            waker_registered: false,
            emitted: Ghost(Seq::empty()),
            delivered: Ghost(Seq::empty()),
            submitted: Ghost(Seq::empty()),
        };
        proof {
            assert(bridge.pending() =~= Seq::<Seq<u8>>::empty());
        }
        bridge
    }

    /// The receive thread pushes one driver frame onto the bounded channel
    /// and wakes the registered reader, if any. The real channel send blocks
    /// while the channel is full, so this step happens only with room free —
    /// that requirement is the backpressure that throttles the driver's
    /// drain rate to the consumer's. The frame is appended, never dropped,
    /// never reordered.
    pub fn driver_deliver(&mut self, frame: Vec<u8>)
        requires
            old(self).wf(),
            old(self).thread_alive,
            old(self).pending().len() < FRAME_CHANNEL_CAPACITY,
        ensures
            final(self).wf(),
            final(self).pending() == old(self).pending().push(frame@),
            final(self).emitted@ == old(self).emitted@.push(frame@),
            final(self).delivered@ == old(self).delivered@,
            final(self).submitted@ == old(self).submitted@,
            !final(self).waker_registered,
            final(self).thread_alive == old(self).thread_alive,
            final(self).shutdown_signaled == old(self).shutdown_signaled,
            final(self).session_open == old(self).session_open,
            final(self).write_in_flight == old(self).write_in_flight,
            final(self).write_status == old(self).write_status,
    {
        let ghost frame_view = frame@;
        self.frames.push(frame);
        self.waker_registered = false;
        proof {
            self.emitted@ = self.emitted@.push(frame_view);
            assert(self.pending() =~= old(self).pending().push(frame_view));
            assert(self.emitted@ =~= self.delivered@ + self.pending());
        }
    }

    /// One asynchronous read poll by the consumer. The oldest pending frame
    /// is taken and truncated to `cap` bytes — its remainder is discarded
    /// for good, never buffered. An empty channel with the receive thread
    /// alive registers the caller's waker and suspends; with the thread gone
    /// it is end of stream.
    pub fn poll_read(&mut self, cap: usize) -> (poll: ReadPoll)
        requires
            old(self).wf(),
        ensures
            final(self).wf(),
            old(self).pending().len() > 0 ==> (poll matches ReadPoll::Ready(data)
                && data@ == old(self).pending()[0].take(
                trunc_len(cap as int, old(self).pending()[0].len() as int),
            ) && final(self).delivered@ == old(self).delivered@.push(old(self).pending()[0])
                && final(self).pending() == old(self).pending().drop_first()),
            old(self).pending().len() == 0 && old(self).thread_alive ==> (poll
                matches ReadPoll::Pending && final(self).delivered@ == old(self).delivered@
                && final(self).pending() == old(self).pending() && final(self).waker_registered),
            old(self).pending().len() == 0 && !old(self).thread_alive ==> (poll
                matches ReadPoll::EndOfStream && final(self).delivered@ == old(self).delivered@
                && final(self).pending() == old(self).pending()),
            final(self).emitted@ == old(self).emitted@,
            final(self).submitted@ == old(self).submitted@,
            final(self).thread_alive == old(self).thread_alive,
            final(self).shutdown_signaled == old(self).shutdown_signaled,
            final(self).session_open == old(self).session_open,
            final(self).write_in_flight == old(self).write_in_flight,
            final(self).write_status == old(self).write_status,
    {
        if self.frames.len() > 0 {
            let frame = self.frames.remove(0);
            let data = truncated_prefix(&frame, cap);
            proof {
                self.delivered@ = self.delivered@.push(frame@);
                assert(self.pending() =~= old(self).pending().drop_first());
                assert(old(self).pending()[0] == frame@);
                assert(self.emitted@ =~= self.delivered@ + self.pending());
            }
            ReadPoll::Ready(data)
        } else if self.thread_alive {
            self.waker_registered = true;
            ReadPoll::Pending
        } else {
            ReadPoll::EndOfStream
        }
    }

    /// One asynchronous write poll by the consumer. Writes are serialized
    /// per queue: a stored outcome from the previous write is drained and
    /// returned first; only with no outcome stored and no send outstanding
    /// is the payload dispatched — exactly these bytes, in dispatch order —
    /// to a blocking driver send; while a send is outstanding the poll
    /// suspends and dispatches nothing, so two polls never put two
    /// concurrent calls into the driver's non-thread-safe send entry point.
    pub fn poll_write(&mut self, payload: &Vec<u8>) -> (poll: WritePoll)
        requires
            old(self).wf(),
        ensures
            final(self).wf(),
            old(self).write_status matches Some(status) ==> (poll == WritePoll::Ready(status)
                && final(self).write_status is None && final(self).write_in_flight == old(
                self,
            ).write_in_flight && final(self).submitted@ == old(self).submitted@),
            old(self).write_status is None && !old(self).write_in_flight ==> (poll
                == WritePoll::Pending && final(self).write_in_flight && final(self).submitted@
                == old(self).submitted@.push(payload@) && final(self).write_status is None),
            old(self).write_status is None && old(self).write_in_flight ==> (poll
                == WritePoll::Pending && final(self).write_in_flight && final(self).submitted@
                == old(self).submitted@ && final(self).write_status is None),
            final(self).pending() == old(self).pending(),
            final(self).emitted@ == old(self).emitted@,
            final(self).delivered@ == old(self).delivered@,
            final(self).thread_alive == old(self).thread_alive,
            final(self).shutdown_signaled == old(self).shutdown_signaled,
            final(self).session_open == old(self).session_open,
            final(self).waker_registered == old(self).waker_registered,
    {
        match self.write_status {
            Some(status) => {
                self.write_status = None;
                WritePoll::Ready(status)
            },
            None => {
                if !self.write_in_flight {
                    self.write_in_flight = true;
                    proof {
                        self.submitted@ = self.submitted@.push(payload@);
                    }
                }
                WritePoll::Pending
            },
        }
    }

    /// The blocking worker finished the outstanding driver send: its outcome
    /// lands in the single-slot status channel, to be drained by the next
    /// write poll, and the writer's waker is woken.
    pub fn complete_write(&mut self, status: WriteStatus)
        requires
            old(self).wf(),
            old(self).write_in_flight,
        ensures
            final(self).wf(),
            !final(self).write_in_flight,
            final(self).write_status == Some(status),
            final(self).pending() == old(self).pending(),
            final(self).emitted@ == old(self).emitted@,
            final(self).delivered@ == old(self).delivered@,
            final(self).submitted@ == old(self).submitted@,
            final(self).thread_alive == old(self).thread_alive,
            final(self).shutdown_signaled == old(self).shutdown_signaled,
            final(self).session_open == old(self).session_open,
            final(self).waker_registered == old(self).waker_registered,
    {
        self.write_in_flight = false;
        self.write_status = Some(status);
    }

    /// Signal the manual-reset shutdown event: a one-way transition the
    /// receive thread will observe exactly once.
    pub fn signal_shutdown(&mut self)
        requires
            old(self).wf(),
        ensures
            final(self).wf(),
            final(self).shutdown_signaled,
            final(self).thread_alive == old(self).thread_alive,
            final(self).session_open == old(self).session_open,
            final(self).pending() == old(self).pending(),
            final(self).emitted@ == old(self).emitted@,
            final(self).delivered@ == old(self).delivered@,
            final(self).submitted@ == old(self).submitted@,
            final(self).write_in_flight == old(self).write_in_flight,
            final(self).write_status == old(self).write_status,
            final(self).waker_registered == old(self).waker_registered,
    {
        self.shutdown_signaled = true;
    }

    /// The receive thread observes the shutdown event, leaves its loop, and
    /// is joined; joining blocks the destructor until the thread has
    /// returned, so afterwards the thread is provably outside every driver
    /// call.
    pub fn join_receive_thread(&mut self)
        requires
            old(self).wf(),
            old(self).shutdown_signaled,
        ensures
            final(self).wf(),
            !final(self).thread_alive,
            final(self).shutdown_signaled,
            final(self).session_open == old(self).session_open,
            final(self).pending() == old(self).pending(),
            final(self).emitted@ == old(self).emitted@,
            final(self).delivered@ == old(self).delivered@,
            final(self).submitted@ == old(self).submitted@,
            final(self).write_in_flight == old(self).write_in_flight,
            final(self).write_status == old(self).write_status,
            final(self).waker_registered == old(self).waker_registered,
    {
        self.thread_alive = false;
    }

    /// End the driver session. The receive thread must already be joined:
    /// the session is never torn down while the thread might still be
    /// inside a driver call.
    pub fn end_session(&mut self)
        requires
            old(self).wf(),
            !old(self).thread_alive,
            old(self).session_open,
        ensures
            final(self).wf(),
            !final(self).session_open,
            !final(self).thread_alive,
            final(self).shutdown_signaled,
            final(self).pending() == old(self).pending(),
            final(self).emitted@ == old(self).emitted@,
            final(self).delivered@ == old(self).delivered@,
            final(self).submitted@ == old(self).submitted@,
            final(self).write_in_flight == old(self).write_in_flight,
            final(self).write_status == old(self).write_status,
            final(self).waker_registered == old(self).waker_registered,
    {
        self.session_open = false;
    }

    /// The whole teardown in its mandatory order: signal the shutdown
    /// event, join the receive thread, and only then end the driver
    /// session.
    pub fn teardown(&mut self)
        requires
            old(self).wf(),
            old(self).session_open,
        ensures
            final(self).wf(),
            final(self).shutdown_signaled,
            !final(self).thread_alive,
            !final(self).session_open,
            final(self).pending() == old(self).pending(),
            final(self).emitted@ == old(self).emitted@,
            final(self).delivered@ == old(self).delivered@,
            final(self).submitted@ == old(self).submitted@,
    {
        self.signal_shutdown();
        self.join_receive_thread();
        self.end_session();
    }
}

/// Delivery-order law: in a well-formed bridge the frames the consumer has
/// taken are exactly the oldest driver frames, in emission order, and the
/// pending frames are exactly the remainder — between driver and consumer
/// no frame is dropped and none is reordered.
pub proof fn lemma_delivery_order(bridge: Bridge)
    requires
        bridge.wf(),
    ensures
        bridge.delivered@ == bridge.emitted@.take(bridge.delivered@.len() as int),
        bridge.pending() == bridge.emitted@.skip(bridge.delivered@.len() as int),
{
    assert(bridge.delivered@ =~= bridge.emitted@.take(bridge.delivered@.len() as int));
    assert(bridge.pending() =~= bridge.emitted@.skip(bridge.delivered@.len() as int));
}

/// Read-progression law: the frame the next read will take is exactly the
/// oldest emitted frame not yet delivered. Together with `poll_read`'s
/// contract — a read delivers a prefix of that frame and advances past it —
/// the bytes a truncated read discards belong to a frame no later read ever
/// revisits.
pub proof fn lemma_reads_follow_emission(bridge: Bridge)
    requires
        bridge.wf(),
        bridge.pending().len() > 0,
    ensures
        bridge.pending()[0] == bridge.emitted@[bridge.delivered@.len() as int],
{
}

/// Shutdown-ordering law: in a well-formed bridge an ended session
/// presupposes that the shutdown event was signaled and the receive thread
/// observed it and was joined — the session never dies under a live receive
/// thread.
pub proof fn lemma_shutdown_ordering(bridge: Bridge)
    requires
        bridge.wf(),
        !bridge.session_open,
    ensures
        !bridge.thread_alive,
        bridge.shutdown_signaled,
{
}

} // verus!
