//! The truncate-and-drop delivery policy: a received frame larger than the
//! consumer's buffer is cut to the buffer's capacity and the remainder is
//! discarded, never buffered for a later read.

use vstd::prelude::*;

verus! {

/// How many bytes of a frame of length `len` reach a consumer buffer of
/// capacity `cap`: the whole frame if it fits, else exactly `cap`.
pub open spec fn trunc_len(cap: int, len: int) -> int {
    if cap < len {
        cap
    } else {
        len
    }
}

/// The longest prefix of `frame` that fits in `cap` bytes, as an owned
/// buffer; the rest of the frame is left behind to be discarded.
pub fn truncated_prefix(frame: &Vec<u8>, cap: usize) -> (out: Vec<u8>)
    ensures
        out@ == frame@.take(trunc_len(cap as int, frame@.len() as int)),
{
    let m: usize = if cap < frame.len() {
        cap
    } else {
        frame.len()
    };
    let mut out: Vec<u8> = Vec::new();
    let mut i: usize = 0;
    while i < m
        invariant
            i <= m,
            m == trunc_len(cap as int, frame@.len() as int),
            m <= frame@.len(),
            out@ == frame@.take(i as int),
        decreases m - i,
    {
        let b: u8 = frame[i];
        out.push(b);
        assert(frame@.take(i + 1) =~= frame@.take(i as int).push(frame@[i as int]));
        i = i + 1;
    }
    out
}

/// Truncation law: a frame of size `len` read into a buffer of capacity
/// `cap` yields exactly `trunc_len(cap, len)` bytes — the frame's prefix —
/// and the frame splits into that delivered prefix and the discarded
/// remainder, so the remainder holds every byte that is never delivered.
pub proof fn lemma_truncation(frame: Seq<u8>, cap: int)
    requires
        0 <= cap,
    ensures
        frame.take(trunc_len(cap, frame.len() as int)).len() == trunc_len(
            cap,
            frame.len() as int,
        ),
        frame == frame.take(trunc_len(cap, frame.len() as int)) + frame.skip(
            trunc_len(cap, frame.len() as int),
        ),
{
    let m = trunc_len(cap, frame.len() as int);
    assert(frame =~= frame.take(m) + frame.skip(m));
}

/// A buffer at least as large as the frame receives the frame unchanged:
/// the within-frame half of the round-trip law.
pub proof fn lemma_whole_frame(frame: Seq<u8>, cap: int)
    requires
        cap >= frame.len(),
    ensures
        frame.take(trunc_len(cap, frame.len() as int)) == frame,
{
    assert(frame.take(frame.len() as int) =~= frame);
}

} // verus!
