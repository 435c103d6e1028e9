//! Device-side decisions of the readiness-driven queue: the one-time
//! handshake flags that select the framing mode, and the retry step of the
//! readiness poll loop.

use vstd::prelude::*;

verus! {

/// Framing mode of a virtual network interface: whole link-layer (Ethernet)
/// frames, or raw network-layer (IP) packets.
#[derive(Clone, Copy, PartialEq, Eq, Structural, Debug)]
pub enum Layer {
    L2,
    L3,
}

/// Kernel ABI flag requesting a raw-IP-framed device.
pub const IFF_TUN_FLAG: u16 = 0x0001;

/// Kernel ABI flag requesting an Ethernet-framed device.
pub const IFF_TAP_FLAG: u16 = 0x0002;

/// Kernel ABI flag suppressing the per-packet metadata header.
pub const IFF_NO_PI_FLAG: u16 = 0x1000;

/// Flags for the one-time control handshake that binds the handle to an
/// interface: the framing mode chosen by `layer`, always with the auxiliary
/// packet-info header suppressed.
pub fn layer_request_flags(layer: Layer) -> (flags: u16)
    ensures
        layer == Layer::L2 ==> flags == (IFF_TAP_FLAG | IFF_NO_PI_FLAG),
        layer == Layer::L3 ==> flags == (IFF_TUN_FLAG | IFF_NO_PI_FLAG),
{
    let base: u16 = match layer {
        Layer::L2 => IFF_TAP_FLAG,
        Layer::L3 => IFF_TUN_FLAG,
    };
    base | IFF_NO_PI_FLAG
}

/// Outcome of one direct I/O attempt on the non-blocking handle.
#[derive(Debug)]
pub enum RawIo {
    /// The syscall moved `0` or more bytes.
    Transferred(usize),
    /// The handle was not actually ready (stale readiness).
    NotReady,
    /// The syscall failed with this OS error code.
    Failed(i32),
}

/// What the readiness-driven poll loop does after one I/O attempt.
#[derive(Clone, Copy, PartialEq, Eq, Structural, Debug)]
pub enum ReadinessStep {
    /// Complete the poll with this many bytes.
    Complete(usize),
    /// The wakeup was spurious: go back to awaiting readiness without
    /// returning control to the caller.
    AwaitReadiness,
    /// Complete the poll with this OS error, untranslated.
    Fail(i32),
}

/// The retry decision of the readiness-driven poll loop: success and real
/// errors complete the poll; a would-block result after a readiness
/// notification means the readiness was stale, so the loop waits again.
pub fn readiness_step(attempt: RawIo) -> (step: ReadinessStep)
    ensures
        attempt matches RawIo::Transferred(n) ==> step == ReadinessStep::Complete(n),
        attempt matches RawIo::NotReady ==> step == ReadinessStep::AwaitReadiness,
        attempt matches RawIo::Failed(code) ==> step == ReadinessStep::Fail(code),
{
    match attempt {
        RawIo::Transferred(n) => ReadinessStep::Complete(n),
        RawIo::NotReady => ReadinessStep::AwaitReadiness,
        RawIo::Failed(code) => ReadinessStep::Fail(code),
    }
}

} // verus!
