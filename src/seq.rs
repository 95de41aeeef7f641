//! Sequence numbers live on a ring of 2^32 values; this module compares them
//! by walking forward around that ring.
use vstd::prelude::*;

verus! {

/// The number of distinct sequence numbers.
pub open spec fn ring_size() -> int {
    0x1_0000_0000
}

/// How far forward one walks around the ring from `from` to reach `to`.
pub open spec fn ring_offset(from: u32, to: u32) -> int {
    (to as int - from as int) % ring_size()
}

/// An acknowledgment is acceptable when, walking forward starting strictly
/// after `una`, `ack` is reached at or before `nxt`.
pub open spec fn ack_acceptable(una: u32, ack: u32, nxt: u32) -> bool {
    0 < ring_offset(una, ack) <= ring_offset(una, nxt)
}

/// The sequence number that follows `s` on the ring.
pub open spec fn ring_next(s: u32) -> u32 {
    ((s as int + 1) % ring_size()) as u32
}

proof fn lemma_ring_offset(from: u32, to: u32)
    ensures
        from <= to ==> ring_offset(from, to) == to - from,
        to < from ==> ring_offset(from, to) == to - from + ring_size(),
{
}

/// Decides whether `ack` lies in the half-open ring interval (`una`, `nxt`].
///
/// A plain unsigned comparison is wrong once `nxt` has wrapped past zero, so
/// the cases are split on the linear order of the three values. An `ack`
/// equal to `una` acknowledges nothing new and is rejected.
pub fn is_ack_acceptable(una: u32, ack: u32, nxt: u32) -> (r: bool)
    ensures
        r == ack_acceptable(una, ack, nxt),
{
    proof {
        lemma_ring_offset(una, ack);
        lemma_ring_offset(una, nxt);
    }
    if una < ack {
        // Either no wrap at all, or `nxt` wrapped below `una`, which puts
        // every `ack` ahead of `una` before it.
        ack <= nxt || nxt < una
    } else if ack < una {
        // `ack` has wrapped: only a wrapped `nxt` at or after it will do.
        nxt < una && ack <= nxt
    } else {
        false
    }
}

/// The sequence number that follows `s`, wrapping to zero after the largest.
pub fn next_sequence(s: u32) -> (r: u32)
    ensures
        r == ring_next(s),
{
    s.wrapping_add(1)
}

} // verus!

verus! {

/// The edges of the acceptable window: an acknowledgment of `una` itself is
/// never acceptable, while both the first number after `una` and `nxt` are
/// whenever something is outstanding (`nxt != una`), wrapped or not.
pub proof fn lemma_ack_window_edges(una: u32, nxt: u32)
    ensures
        !ack_acceptable(una, una, nxt),
        nxt != una ==> ack_acceptable(una, nxt, nxt),
        nxt != una ==> ack_acceptable(una, ring_next(una), nxt),
{
    lemma_ring_offset(una, una);
    lemma_ring_offset(una, nxt);
    lemma_ring_offset(una, ring_next(una));
}

} // verus!
