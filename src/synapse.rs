//! The synaptic input aggregator.
//!
//! The synaptic current onto a neuron is the sum, over the neurons that
//! spiked on the previous step, of the weight of their connection onto it.
//! This module selects the columns that take part in that sum (the set
//! indices of the previous spike vector, in increasing order), keeps the
//! spike history that the previous vector comes from, and gathers each row's
//! weights for those columns. Adding them up is left to the caller, whose
//! weights are floating-point numbers.
use vstd::prelude::*;

use crate::history::{bounded_push, HistoryRing};

verus! {

/// The indices at which `spikes` is set, in increasing order.
pub open spec fn spike_positions(spikes: Seq<bool>) -> Seq<int>
    decreases spikes.len(),
{
    if spikes.len() == 0 {
        Seq::empty()
    } else {
        let rest = spike_positions(spikes.drop_last());
        if spikes.last() {
            rest.push(spikes.len() - 1)
        } else {
            rest
        }
    }
}

/// Every selected position is a set index of `spikes`, the positions rise
/// strictly, and every set index is selected.
pub proof fn lemma_spike_positions_exact(spikes: Seq<bool>)
    ensures
        forall|j: int|
            0 <= j < spike_positions(spikes).len() ==> 0 <= #[trigger] spike_positions(spikes)[j]
                < spikes.len() && spikes[spike_positions(spikes)[j]],
        forall|j: int, k: int|
            0 <= j < k < spike_positions(spikes).len() ==> #[trigger] spike_positions(spikes)[j]
                < #[trigger] spike_positions(spikes)[k],
        forall|i: int| 0 <= i < spikes.len() && #[trigger] spikes[i] ==> spike_positions(spikes).contains(i),
    decreases spikes.len(),
{
    if spikes.len() > 0 {
        let rest = spikes.drop_last();
        lemma_spike_positions_exact(rest);
        let p = spike_positions(spikes);
        assert forall|i: int| 0 <= i < spikes.len() && #[trigger] spikes[i] implies p.contains(i) by {
            if i < spikes.len() - 1 {
                assert(rest[i] == spikes[i]);
                let j = choose|j: int| 0 <= j < spike_positions(rest).len() && spike_positions(rest)[j] == i;
                assert(p[j] == i);
            } else {
                assert(p[p.len() - 1] == i);
            }
        }
    }
}

/// With no spike on the previous step nothing is selected, so every neuron
/// receives no synaptic input, whatever the connectivity.
pub proof fn lemma_silent_step_selects_nothing(spikes: Seq<bool>)
    requires
        forall|i: int| 0 <= i < spikes.len() ==> !#[trigger] spikes[i],
    ensures
        spike_positions(spikes) == Seq::<int>::empty(),
    decreases spikes.len(),
{
    if spikes.len() > 0 {
        let rest = spikes.drop_last();
        assert forall|i: int| 0 <= i < rest.len() implies !#[trigger] rest[i] by {
            assert(rest[i] == spikes[i]);
        }
        lemma_silent_step_selects_nothing(rest);
    }
}

/// With only neuron `k` spiking on the previous step exactly column `k` is
/// selected, so the synaptic input to each row is that row's weight from `k`.
pub proof fn lemma_single_spike_selects_it(spikes: Seq<bool>, k: int)
    requires
        0 <= k < spikes.len(),
        spikes[k],
        forall|i: int| 0 <= i < spikes.len() && i != k ==> !#[trigger] spikes[i],
    ensures
        spike_positions(spikes) == seq![k],
    decreases spikes.len(),
{
    let rest = spikes.drop_last();
    if k == spikes.len() - 1 {
        assert forall|i: int| 0 <= i < rest.len() implies !#[trigger] rest[i] by {
            assert(rest[i] == spikes[i]);
        }
        lemma_silent_step_selects_nothing(rest);
        assert(Seq::<int>::empty().push(k) =~= seq![k]);
    } else {
        assert(rest[k] == spikes[k]);
        assert forall|i: int| 0 <= i < rest.len() && i != k implies !#[trigger] rest[i] by {
            assert(rest[i] == spikes[i]);
        }
        lemma_single_spike_selects_it(rest, k);
    }
}

/// The indices of the neurons that spiked, in increasing order: the columns
/// of each connectivity row whose weights make up that row's synaptic input,
/// and the events that a spike raster draws for one step.
pub fn spike_indices(spikes: &Vec<bool>) -> (r: Vec<usize>)
    ensures
        r@.len() == spike_positions(spikes@).len(),
        forall|j: int| 0 <= j < r@.len() ==> r@[j] as int == #[trigger] spike_positions(spikes@)[j],
        forall|j: int| 0 <= j < r@.len() ==> #[trigger] r@[j] < spikes@.len() && spikes@[r@[j] as int],
        forall|j: int, k: int| 0 <= j < k < r@.len() ==> #[trigger] r@[j] < #[trigger] r@[k],
        forall|i: usize| i < spikes@.len() && #[trigger] spikes@[i as int] ==> r@.contains(i),
{
    let mut r: Vec<usize> = Vec::new();
    let mut i: usize = 0;
    while i < spikes.len()
        invariant
            i <= spikes@.len(),
            r@.len() == spike_positions(spikes@.subrange(0, i as int)).len(),
            forall|j: int|
                0 <= j < r@.len() ==> r@[j] as int == #[trigger] spike_positions(
                    spikes@.subrange(0, i as int),
                )[j],
        decreases spikes@.len() - i,
    {
        let ghost before = spikes@.subrange(0, i as int);
        let ghost after = spikes@.subrange(0, i as int + 1);
        assert(after.drop_last() =~= before);
        if spikes[i] {
            r.push(i);
        }
        i = i + 1;
    }
    assert(spikes@.subrange(0, spikes@.len() as int) =~= spikes@);
    proof {
        lemma_spike_positions_exact(spikes@);
        let p = spike_positions(spikes@);
        assert forall|j: int| 0 <= j < r@.len() implies #[trigger] r@[j] < spikes@.len() && spikes@[r@[j] as int] by {
            assert(r@[j] as int == p[j]);
        }
        assert forall|j: int, k: int| 0 <= j < k < r@.len() implies #[trigger] r@[j] < #[trigger] r@[k] by {
            assert(r@[j] as int == p[j]);
            assert(r@[k] as int == p[k]);
        }
        assert forall|i: usize| i < spikes@.len() && #[trigger] spikes@[i as int] implies r@.contains(i) by {
            assert(p.contains(i as int));
            let j = choose|j: int| 0 <= j < p.len() && p[j] == i as int;
            assert(r@[j] as int == p[j]);
        }
    }
    r
}

/// The weights that make up the synaptic input of postsynaptic neuron `row`
/// in a population of `n` neurons, when the presynaptic neurons `cols` spiked:
/// `weights` is the connectivity matrix in row-major order, its entry
/// `(row, col)` being the weight from neuron `col` onto neuron `row`.
pub open spec fn row_terms<W>(weights: Seq<W>, n: int, row: int, cols: Seq<int>) -> Seq<W> {
    cols.map_values(|col: int| weights[row * n + col])
}

/// With no spike on the previous step, every row of any connectivity matrix
/// gathers no weight, so its synaptic input is the empty sum.
pub proof fn lemma_silent_step_gathers_nothing<W>(spikes: Seq<bool>, weights: Seq<W>, row: int)
    requires
        forall|i: int| 0 <= i < spikes.len() ==> !#[trigger] spikes[i],
    ensures
        row_terms(weights, spikes.len() as int, row, spike_positions(spikes)) == Seq::<W>::empty(),
{
    lemma_silent_step_selects_nothing(spikes);
    assert(row_terms(weights, spikes.len() as int, row, spike_positions(spikes)) =~= Seq::<
        W,
    >::empty());
}

/// With only neuron `k` spiking on the previous step, every row gathers
/// exactly its weight from `k`.
pub proof fn lemma_single_spike_gathers_its_weight<W>(
    spikes: Seq<bool>,
    k: int,
    weights: Seq<W>,
    row: int,
)
    requires
        0 <= k < spikes.len(),
        spikes[k],
        forall|i: int| 0 <= i < spikes.len() && i != k ==> !#[trigger] spikes[i],
    ensures
        row_terms(weights, spikes.len() as int, row, spike_positions(spikes)) == seq![
            weights[row * spikes.len() + k],
        ],
{
    lemma_single_spike_selects_it(spikes, k);
    assert(row_terms(weights, spikes.len() as int, row, spike_positions(spikes)) =~= seq![
        weights[row * spikes.len() + k],
    ]);
}

/// The weights onto neuron `row` from the presynaptic neurons `active`, in
/// the order of `active`, read from the `n` by `n` row-major connectivity
/// matrix `weights`. Their sum is the synaptic input of `row`.
pub fn synaptic_terms<W: Copy>(weights: &[W], n: usize, row: usize, active: &Vec<usize>) -> (r:
    Vec<W>)
    requires
        weights@.len() == n * n,
        row < n,
        forall|j: int| 0 <= j < active@.len() ==> #[trigger] active@[j] < n,
    ensures
        r@ == row_terms(weights@, n as int, row as int, active@.map_values(|c: usize| c as int)),
{
    let total = weights.len();
    assert(row * n + n <= n * n) by (nonlinear_arith)
        requires
            row < n,
    ;
    let base = row * n;
    let mut r: Vec<W> = Vec::with_capacity(active.len());
    let mut j: usize = 0;
    while j < active.len()
        invariant
            base == row * n,
            base + n <= n * n,
            weights@.len() == n * n,
            total == n * n,
            forall|i: int| 0 <= i < active@.len() ==> #[trigger] active@[i] < n,
            j <= active@.len(),
            r@.len() == j,
            forall|i: int| 0 <= i < j ==> #[trigger] r@[i] == weights@[base + active@[i]],
        decreases active@.len() - j,
    {
        r.push(weights[base + active[j]]);
        j = j + 1;
    }
    assert(r@ =~= row_terms(weights@, n as int, row as int, active@.map_values(|c: usize| c as int)));
    r
}

/// The spike vectors of the most recent steps of a population of a fixed
/// size, oldest first: the source of the delayed synaptic input.
pub struct SpikeHistory {
    ring: HistoryRing<Vec<bool>>,
    neurons: usize,
}

impl View for SpikeHistory {
    type V = Seq<Seq<bool>>;

    /// The recorded spike vectors, oldest first.
    closed spec fn view(&self) -> Seq<Seq<bool>> {
        self.ring@.map_values(|v: Vec<bool>| v@)
    }
}

impl SpikeHistory {
    /// The ring is well formed and every recorded vector has one entry per
    /// neuron.
    pub closed spec fn well_formed(&self) -> bool {
        &&& self.ring.well_formed()
        &&& forall|i: int| 0 <= i < self.ring@.len() ==> (#[trigger] self.ring@[i])@.len() == self.neurons
    }

    /// The number of neurons.
    pub closed spec fn spec_neurons(&self) -> nat {
        self.neurons as nat
    }

    /// The number of steps held.
    pub closed spec fn spec_capacity(&self) -> nat {
        self.ring.spec_capacity()
    }

    /// The slot that the next step is recorded in.
    pub closed spec fn spec_time_index(&self) -> nat {
        self.ring.spec_time_index()
    }

    /// The spike vector that drives the next step: the newest one recorded,
    /// or no spike at all before the first step.
    pub open spec fn previous_spikes(&self) -> Seq<bool> {
        if self@.len() == 0 {
            Seq::new(self.spec_neurons(), |i: int| false)
        } else {
            self@.last()
        }
    }

    /// An empty history of `slots` steps of a population of `neurons`.
    pub fn new(neurons: usize, slots: usize) -> (r: Self)
        requires
            slots > 0,
        ensures
            r.well_formed(),
            r@ == Seq::<Seq<bool>>::empty(),
            r.spec_neurons() == neurons,
            r.spec_capacity() == slots,
            r.spec_time_index() == 0,
    {
        let r = SpikeHistory { ring: HistoryRing::new(slots), neurons };
        assert(r@ =~= Seq::<Seq<bool>>::empty());
        r
    }

    /// The number of neurons.
    pub fn neurons(&self) -> (r: usize)
        ensures
            r == self.spec_neurons(),
    {
        self.neurons
    }

    /// The number of steps recorded and still held.
    pub fn len(&self) -> (r: usize)
        requires
            self.well_formed(),
        ensures
            r == self@.len(),
    {
        self.ring.len()
    }

    /// The slot that the next step is recorded in.
    pub fn time_index(&self) -> (r: usize)
        requires
            self.well_formed(),
        ensures
            r == self.spec_time_index(),
            r < self.spec_capacity(),
    {
        proof {
            self.ring.lemma_bounds();
        }
        self.ring.time_index()
    }

    /// Records the spike vector of a completed step and advances the time
    /// index.
    pub fn record(&mut self, spikes: Vec<bool>)
        requires
            old(self).well_formed(),
            spikes@.len() == old(self).spec_neurons(),
        ensures
            final(self).well_formed(),
            final(self)@ == bounded_push(old(self)@, spikes@, old(self).spec_capacity()),
            final(self).spec_neurons() == old(self).spec_neurons(),
            final(self).spec_capacity() == old(self).spec_capacity(),
            final(self).spec_time_index() == crate::clock::next_slot(
                old(self).spec_time_index() as int,
                old(self).spec_capacity() as int,
            ),
    {
        let ghost before = self.ring@;
        self.ring.push(spikes);
        proof {
            let after = self.ring@;
            assert forall|i: int| 0 <= i < after.len() implies (#[trigger] after[i])@.len()
                == self.neurons by {
                if before.len() < self.ring.spec_capacity() {
                    if i < before.len() {
                        assert(after[i] == before[i]);
                    }
                } else {
                    if i + 1 < before.len() {
                        assert(after[i] == before[i + 1]);
                    }
                }
            }
            let f = |v: Vec<bool>| v@;
            if before.len() < self.ring.spec_capacity() {
                assert(after.map_values(f) =~= before.map_values(f).push(spikes@));
            } else {
                assert(after.map_values(f) =~= before.map_values(f).push(spikes@).drop_first());
            }
        }
    }

    /// The neurons whose spikes on the previous step drive the next one, in
    /// increasing order: none before the first step.
    pub fn presynaptic(&self) -> (r: Vec<usize>)
        requires
            self.well_formed(),
        ensures
            r@.len() == spike_positions(self.previous_spikes()).len(),
            forall|j: int|
                0 <= j < r@.len() ==> r@[j] as int == #[trigger] spike_positions(
                    self.previous_spikes(),
                )[j],
            self@.len() == 0 ==> r@.len() == 0,
    {
        match self.ring.newest() {
            None => {
                proof {
                    lemma_silent_step_selects_nothing(self.previous_spikes());
                }
                Vec::new()
            },
            Some(prev) => spike_indices(prev),
        }
    }
}

} // verus!
