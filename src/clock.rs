//! The timestep counter: an index into a fixed number of history slots that
//! advances by one per step and wraps to slot 0 after the last one.
use vstd::prelude::*;

verus! {

/// The slot that follows `t` among `max` slots.
pub open spec fn next_slot(t: int, max: int) -> int {
    (t + 1) % max
}

/// The slot that precedes `t` among `max` slots: the last one before slot 0.
pub open spec fn prev_slot(t: int, max: int) -> int {
    if t == 0 {
        max - 1
    } else {
        t - 1
    }
}

/// Advances the time index `t` by one slot, wrapping to 0 after `max - 1`.
pub fn wrapping_inc(t: usize, max: usize) -> (r: usize)
    requires
        t < max,
    ensures
        r == next_slot(t as int, max as int),
        r < max,
        r == if t + 1 == max { 0 } else { t + 1 },
{
    proof {
        lemma_slot_values(t as int, max as int);
    }
    if t == max - 1 {
        0
    } else {
        t + 1
    }
}

/// Moves the time index `t` back by one slot, wrapping to `max - 1` before 0.
pub fn wrapping_dec(t: usize, max: usize) -> (r: usize)
    requires
        t < max,
    ensures
        r == prev_slot(t as int, max as int),
        r < max,
        r == (t + max - 1) % (max as int),
{
    proof {
        lemma_slot_values(t as int, max as int);
    }
    if t == 0 {
        max - 1
    } else {
        t - 1
    }
}

/// The two neighbours of slot `t`, written without the modulus.
proof fn lemma_slot_values(t: int, max: int)
    requires
        0 <= t < max,
    ensures
        next_slot(t, max) == if t + 1 == max { 0 } else { t + 1 },
        (t + max - 1) % max == prev_slot(t, max),
{
    if t + 1 == max {
        vstd::arithmetic::div_mod::lemma_mod_self_0(max);
    } else {
        vstd::arithmetic::div_mod::lemma_small_mod((t + 1) as nat, max as nat);
    }
    if t == 0 {
        vstd::arithmetic::div_mod::lemma_small_mod((max - 1) as nat, max as nat);
    } else {
        vstd::arithmetic::div_mod::lemma_mod_adds(t - 1, max, max);
        vstd::arithmetic::div_mod::lemma_mod_self_0(max);
        vstd::arithmetic::div_mod::lemma_small_mod((t - 1) as nat, max as nat);
    }
}

/// Stepping forward and then back returns to the same slot, and so does
/// stepping back and then forward.
pub proof fn lemma_inc_dec_inverse(t: int, max: int)
    requires
        0 <= t < max,
    ensures
        prev_slot(next_slot(t, max), max) == t,
        next_slot(prev_slot(t, max), max) == t,
{
    lemma_slot_values(t, max);
    let n = next_slot(t, max);
    let p = prev_slot(t, max);
    lemma_slot_values(n, max);
    lemma_slot_values(p, max);
}

} // verus!
