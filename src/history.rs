//! The history ring buffer: a fixed number of slots that keeps the most
//! recent recorded steps in time order, dropping the oldest one once every
//! slot is taken.
//!
//! Entries live in a flat array addressed by the timestep counter of
//! [`crate::clock`], so slots are reused rather than shifted.
use vstd::prelude::*;

use crate::clock::{next_slot, prev_slot, wrapping_dec, wrapping_inc};

verus! {

/// `s` after recording `x` in a history of `capacity` slots: `x` becomes the
/// newest entry, and when `s` already fills every slot its oldest entry goes.
pub open spec fn bounded_push<T>(s: Seq<T>, x: T, capacity: nat) -> Seq<T> {
    if s.len() < capacity {
        s.push(x)
    } else {
        s.push(x).drop_first()
    }
}

/// The history after recording each of `xs` in order, starting from `s`.
pub open spec fn push_all<T>(s: Seq<T>, xs: Seq<T>, capacity: nat) -> Seq<T>
    decreases xs.len(),
{
    if xs.len() == 0 {
        s
    } else {
        bounded_push(push_all(s, xs.drop_last(), capacity), xs.last(), capacity)
    }
}

/// The entries that a history of `capacity` slots holds after recording
/// `xs`: the last `capacity` of them, in the order in which they came.
pub open spec fn last_entries<T>(xs: Seq<T>, capacity: nat) -> Seq<T> {
    if xs.len() <= capacity {
        xs
    } else {
        xs.skip(xs.len() - capacity)
    }
}

/// Recording a sequence of entries into an empty history of `capacity` slots
/// keeps exactly the last `capacity` of them, oldest first: the length never
/// exceeds the capacity, older entries are evicted first, and the order of
/// the survivors is the order in which they were recorded.
pub proof fn lemma_history_keeps_last<T>(xs: Seq<T>, capacity: nat)
    requires
        capacity > 0,
    ensures
        push_all(Seq::<T>::empty(), xs, capacity) == last_entries(xs, capacity),
        push_all(Seq::<T>::empty(), xs, capacity).len() <= capacity,
    decreases xs.len(),
{
    if xs.len() > 0 {
        let prefix = xs.drop_last();
        lemma_history_keeps_last(prefix, capacity);
        let before = push_all(Seq::<T>::empty(), prefix, capacity);
        if xs.len() <= capacity {
            assert(before.push(xs.last()) =~= xs);
        } else {
            assert(before.push(xs.last()).drop_first() =~= xs.skip(xs.len() - capacity));
        }
    }
}

/// Recording `capacity + 1` entries into an empty history of `capacity` slots
/// leaves exactly `capacity` entries: the first one recorded is gone, and the
/// last one recorded is the newest.
pub proof fn lemma_history_evicts_first<T>(xs: Seq<T>, capacity: nat)
    requires
        capacity > 0,
        xs.len() == capacity + 1,
    ensures
        push_all(Seq::<T>::empty(), xs, capacity).len() == capacity,
        push_all(Seq::<T>::empty(), xs, capacity) == xs.drop_first(),
        push_all(Seq::<T>::empty(), xs, capacity).last() == xs.last(),
{
    lemma_history_keeps_last(xs, capacity);
    assert(xs.skip(1) =~= xs.drop_first());
}

/// The position, counted from the oldest entry, of the entry stored in array
/// slot `slot` of a history of `len` entries whose next write goes to slot `t`.
pub open spec fn age_of_slot(slot: int, t: int, len: int) -> int {
    if slot >= t {
        slot - t
    } else {
        slot + len - t
    }
}

/// A history of at most `capacity` entries, oldest first.
pub struct HistoryRing<T> {
    slots: Vec<T>,
    capacity: usize,
    next: usize,
}

impl<T> View for HistoryRing<T> {
    type V = Seq<T>;

    /// The recorded entries, oldest first.
    closed spec fn view(&self) -> Seq<T> {
        if self.slots.len() < self.capacity {
            self.slots@
        } else {
            self.slots@.subrange(self.next as int, self.capacity as int) + self.slots@.subrange(
                0,
                self.next as int,
            )
        }
    }
}

impl<T> HistoryRing<T> {
    /// The slots hold no more than `capacity` entries, and until they are all
    /// taken the next write goes right after the last one.
    pub closed spec fn well_formed(&self) -> bool {
        &&& self.capacity > 0
        &&& self.slots.len() <= self.capacity
        &&& self.next < self.capacity
        &&& self.slots.len() < self.capacity ==> self.next == self.slots.len()
    }

    /// The number of slots.
    pub closed spec fn spec_capacity(&self) -> nat {
        self.capacity as nat
    }

    /// The slot that the next recorded entry goes to.
    pub closed spec fn spec_time_index(&self) -> nat {
        self.next as nat
    }

    /// The length of the history never exceeds its capacity, and the time
    /// index is a slot.
    pub proof fn lemma_bounds(&self)
        requires
            self.well_formed(),
        ensures
            self@.len() <= self.spec_capacity(),
            self.spec_time_index() < self.spec_capacity(),
            self@.len() < self.spec_capacity() ==> self.spec_time_index() == self@.len(),
    {
    }

    /// Once something is recorded, the slot just before the time index, with
    /// wraparound, holds the newest entry: this is the slot that the next step
    /// reads its delayed input from.
    pub proof fn lemma_previous_slot_holds_newest(&self)
        requires
            self.well_formed(),
            self@.len() > 0,
        ensures
            0 <= prev_slot(self.spec_time_index() as int, self.spec_capacity() as int) < self@.len(),
            age_of_slot(
                prev_slot(self.spec_time_index() as int, self.spec_capacity() as int),
                self.spec_time_index() as int,
                self@.len() as int,
            ) == self@.len() - 1,
    {
    }

    /// An empty history of `capacity` slots.
    pub fn new(capacity: usize) -> (r: Self)
        requires
            capacity > 0,
        ensures
            r.well_formed(),
            r@ == Seq::<T>::empty(),
            r.spec_capacity() == capacity,
            r.spec_time_index() == 0,
    {
        HistoryRing { slots: Vec::new(), capacity, next: 0 }
    }

    /// The number of slots.
    pub fn capacity(&self) -> (r: usize)
        ensures
            r == self.spec_capacity(),
    {
        self.capacity
    }

    /// The number of entries recorded and still held.
    pub fn len(&self) -> (r: usize)
        requires
            self.well_formed(),
        ensures
            r == self@.len(),
    {
        self.slots.len()
    }

    /// Whether nothing has been recorded yet.
    pub fn is_empty(&self) -> (r: bool)
        requires
            self.well_formed(),
        ensures
            r == (self@.len() == 0),
    {
        self.slots.len() == 0
    }

    /// The slot that the next recorded entry goes to.
    pub fn time_index(&self) -> (r: usize)
        ensures
            r == self.spec_time_index(),
    {
        self.next
    }

    /// Records `x` as the newest entry, evicting the oldest one when every
    /// slot is taken, and advances the time index by one slot.
    pub fn push(&mut self, x: T)
        requires
            old(self).well_formed(),
        ensures
            final(self).well_formed(),
            final(self)@ == bounded_push(old(self)@, x, old(self).spec_capacity()),
            final(self).spec_capacity() == old(self).spec_capacity(),
            final(self).spec_time_index() == next_slot(
                old(self).spec_time_index() as int,
                old(self).spec_capacity() as int,
            ),
    {
        let ghost old_slots = self.slots@;
        let ghost old_view = self@;
        if self.slots.len() < self.capacity {
            self.slots.push(x);
        } else {
            self.slots.set(self.next, x);
        }
        let ghost cap = self.capacity as int;
        self.next = wrapping_inc(self.next, self.capacity);
        proof {
            let s = self.slots@;
            if old_slots.len() < cap {
                if s.len() == cap {
                    assert(s.subrange(0, cap) =~= s);
                    assert(s.subrange(cap, cap) =~= Seq::<T>::empty());
                    assert(self@ =~= old_view.push(x));
                }
            } else {
                assert(self@ =~= old_view.push(x).drop_first());
            }
        }
    }

    /// The newest entry, or `None` before anything is recorded. This is the
    /// entry in the slot just before the time index.
    pub fn newest(&self) -> (r: Option<&T>)
        requires
            self.well_formed(),
        ensures
            self@.len() == 0 ==> r.is_none(),
            self@.len() > 0 ==> r == Some(&self@.last()),
    {
        if self.slots.len() == 0 {
            None
        } else {
            let p = wrapping_dec(self.next, self.capacity);
            Some(&self.slots[p])
        }
    }

    /// The entry at position `age` counted from the oldest one.
    pub fn get(&self, age: usize) -> (r: &T)
        requires
            self.well_formed(),
            age < self@.len(),
        ensures
            *r == self@[age as int],
    {
        if self.slots.len() < self.capacity {
            &self.slots[age]
        } else if age < self.capacity - self.next {
            &self.slots[self.next + age]
        } else {
            &self.slots[age - (self.capacity - self.next)]
        }
    }

    /// The entry held in array slot `slot`, or `None` where that slot has not
    /// been written yet.
    pub fn column_at(&self, slot: usize) -> (r: Option<&T>)
        requires
            self.well_formed(),
        ensures
            slot >= self@.len() ==> r.is_none(),
            slot < self@.len() ==> r == Some(
                &self@[age_of_slot(slot as int, self.spec_time_index() as int, self@.len() as int)],
            ),
    {
        if slot < self.slots.len() {
            Some(&self.slots[slot])
        } else {
            None
        }
    }
}

} // verus!
