//! Arithmetic on the ring of 32-bit sequence numbers.
//!
//! Sequence numbers cycle, so they are never compared as plain unsigned
//! integers: every comparison asks how far one lies ahead of another when
//! walking the ring in the increasing direction.

use vstd::prelude::*;

verus! {

/// The number of points on the ring of sequence numbers.
pub open spec fn ring_size() -> int {
    0x1_0000_0000
}

/// The number of steps in the increasing direction that lead from `from` to
/// `to`; it is 0 exactly when the two are the same point.
pub open spec fn forward_distance(from: u32, to: u32) -> int {
    if from <= to {
        to - from
    } else {
        ring_size() - (from - to)
    }
}

/// The point reached from `at` after `steps` steps in the increasing
/// direction, for a number of steps that goes round the ring at most once.
pub open spec fn advance(at: u32, steps: int) -> u32
    recommends
        0 <= steps <= ring_size(),
{
    if at + steps < ring_size() {
        (at + steps) as u32
    } else {
        (at + steps - ring_size()) as u32
    }
}

/// Whether `x` lies strictly inside the circular interval that opens at
/// `start` and closes at `end`, both excluded. An interval with
/// `start == end` is empty.
pub open spec fn between_wrapped(start: u32, x: u32, end: u32) -> bool {
    if start == end {
        false
    } else if start < end {
        start < x && x < end
    } else {
        x > start || x < end
    }
}

/// The interval test is a statement about distances on the ring: `x` is
/// strictly inside `(start, end)` exactly when it is reached from `start`
/// after at least one step and before `end` is.
pub proof fn lemma_between_wrapped_is_circular(start: u32, x: u32, end: u32)
    ensures
        between_wrapped(start, x, end) <==> 0 < forward_distance(start, x) < forward_distance(
            start,
            end,
        ),
{
}

/// Neither end of an interval lies inside it, and an interval that closes
/// where it opens holds nothing.
pub proof fn lemma_between_wrapped_excludes_ends(start: u32, x: u32, end: u32)
    ensures
        !between_wrapped(start, start, end),
        !between_wrapped(start, end, end),
        !between_wrapped(start, x, start),
{
}

/// Distances and steps on the ring are sums and differences modulo its
/// size, and a step of the machine's wrapping sum.
pub proof fn lemma_ring_is_modular(from: u32, to: u32, steps: u32)
    ensures
        forward_distance(from, to) == (to - from) % ring_size(),
        advance(from, steps as int) == (from + steps) % ring_size(),
        advance(from, steps as int) == from.wrapping_add(steps),
        advance(from, forward_distance(from, to)) == to,
        forward_distance(from, advance(from, steps as int)) == steps,
{
}

} // verus!
