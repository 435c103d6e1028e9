//! Verified core of an asynchronous packet-queue abstraction over virtual
//! network interfaces (TUN/TAP-style devices).
//!
//! Two operating-system driver models stand behind one pollable read/write
//! contract: a readiness-notification model (a non-blocking handle polled by
//! a reactor) and a handle/session model whose driver offers only blocking,
//! non-pollable entry points and therefore needs a dedicated receive thread,
//! a bounded frame channel and manual waker hand-off.
//!
//! This crate holds the decision logic of that bridge — truncation policy,
//! write serialization, error classification, the receive-thread protocol and
//! the shutdown ordering — as verified functions over plain values, together
//! with a verified model of the bridged queue's state. The operating-system
//! shells (device nodes, driver sessions, threads, the async runtime) live
//! outside and drive this logic.

pub mod bridge;
pub mod device;
pub mod frame;
pub mod queue;
pub mod reader;
pub mod write;
