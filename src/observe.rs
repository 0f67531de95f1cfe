//! The consumer side of the streaming pipeline: a bounded log of the steps
//! that reached the consumer, each one pairing the reference neuron's voltage
//! with the indices of the neurons that spiked, for a live view to draw.
use vstd::prelude::*;

use crate::history::{bounded_push, HistoryRing};
use crate::synapse::{spike_indices, spike_positions};

verus! {

/// One step as the consumer keeps it.
pub struct Observation<V> {
    /// The membrane potential of the reference neuron after the step.
    pub voltage: V,
    /// The indices of the neurons that spiked in the step, in increasing order.
    pub spiking: Vec<usize>,
}

/// The mathematical content of an observation: the voltage and the spiking
/// indices.
pub open spec fn observation_view<V>(o: Observation<V>) -> (V, Seq<int>) {
    (o.voltage, o.spiking@.map_values(|i: usize| i as int))
}

/// The most recent observations, oldest first, at most one per slot.
pub struct ObservationLog<V> {
    ring: HistoryRing<Observation<V>>,
}

impl<V> View for ObservationLog<V> {
    type V = Seq<(V, Seq<int>)>;

    /// The logged steps, oldest first.
    closed spec fn view(&self) -> Seq<(V, Seq<int>)> {
        self.ring@.map_values(|o: Observation<V>| observation_view(o))
    }
}

impl<V> ObservationLog<V> {
    /// The underlying ring is well formed.
    pub closed spec fn well_formed(&self) -> bool {
        self.ring.well_formed()
    }

    /// The number of steps the log holds.
    pub closed spec fn spec_capacity(&self) -> nat {
        self.ring.spec_capacity()
    }

    /// An empty log of `capacity` steps.
    pub fn new(capacity: usize) -> (r: Self)
        requires
            capacity > 0,
        ensures
            r.well_formed(),
            r@ == Seq::<(V, Seq<int>)>::empty(),
            r.spec_capacity() == capacity,
    {
        let r = ObservationLog { ring: HistoryRing::new(capacity) };
        assert(r@ =~= Seq::<(V, Seq<int>)>::empty());
        r
    }

    /// The number of steps the log holds at most.
    pub fn capacity(&self) -> (r: usize)
        ensures
            r == self.spec_capacity(),
    {
        self.ring.capacity()
    }

    /// The number of steps logged and still held.
    pub fn len(&self) -> (r: usize)
        requires
            self.well_formed(),
        ensures
            r == self@.len(),
    {
        self.ring.len()
    }

    /// Logs one step, pairing the voltage that arrived for it with the spike
    /// vector that arrived for it, and evicts the oldest step when the log is
    /// full.
    pub fn record(&mut self, voltage: V, spikes: &Vec<bool>)
        requires
            old(self).well_formed(),
        ensures
            final(self).well_formed(),
            final(self).spec_capacity() == old(self).spec_capacity(),
            final(self)@ == bounded_push(
                old(self)@,
                (voltage, spike_positions(spikes@)),
                old(self).spec_capacity(),
            ),
    {
        let spiking = spike_indices(spikes);
        let ghost positions = spiking@.map_values(|i: usize| i as int);
        assert(positions =~= spike_positions(spikes@));
        let o = Observation { voltage, spiking };
        let ghost entry = observation_view(o);
        let ghost before = self.ring@;
        self.ring.push(o);
        proof {
            let f = |o: Observation<V>| observation_view(o);
            let after = self.ring@;
            if before.len() < self.ring.spec_capacity() {
                assert(after.map_values(f) =~= before.map_values(f).push(entry));
            } else {
                assert(after.map_values(f) =~= before.map_values(f).push(entry).drop_first());
            }
        }
    }

    /// The step at position `age` counted from the oldest one.
    pub fn get(&self, age: usize) -> (r: &Observation<V>)
        requires
            self.well_formed(),
            age < self@.len(),
        ensures
            observation_view(*r) == self@[age as int],
    {
        self.ring.get(age)
    }
}

} // verus!
