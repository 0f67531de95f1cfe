//! The layout of a population: which neurons are excitatory and which are
//! inhibitory.
//!
//! A population of `excitatory + inhibitory` neurons holds its excitatory
//! neurons at indices `0 .. excitatory` and its inhibitory ones after them.
//! The class of a neuron fixes the distribution its parameters are drawn
//! from, the scale of the background stimulus it receives, and the sign of
//! every weight in its column of the connectivity matrix: excitatory columns
//! hold weights in `[0, 0.5)`, inhibitory ones in `(-1, 0]`.
use vstd::prelude::*;

verus! {

/// The class of a neuron.
#[derive(Clone, Copy, Debug, PartialEq, Eq, Structural)]
pub enum NeuronKind {
    /// Its outgoing weights are positive or zero.
    Excitatory,
    /// Its outgoing weights are negative or zero.
    Inhibitory,
}

/// The class of the neuron at `index` in a population whose first
/// `excitatory` neurons are excitatory.
pub open spec fn kind_at(index: int, excitatory: int) -> NeuronKind {
    if index < excitatory {
        NeuronKind::Excitatory
    } else {
        NeuronKind::Inhibitory
    }
}

/// The class of the neuron at `index` in a population whose first
/// `excitatory` neurons are excitatory. In the connectivity matrix this is
/// also the class of column `index`, which fixes the sign of its weights.
pub fn neuron_kind(index: usize, excitatory: usize) -> (r: NeuronKind)
    ensures
        r == kind_at(index as int, excitatory as int),
{
    if index < excitatory {
        NeuronKind::Excitatory
    } else {
        NeuronKind::Inhibitory
    }
}

/// The class of every neuron of a population of `excitatory` excitatory and
/// `inhibitory` inhibitory neurons, by index.
pub fn population_kinds(excitatory: usize, inhibitory: usize) -> (r: Vec<NeuronKind>)
    requires
        excitatory + inhibitory <= usize::MAX,
    ensures
        r@.len() == excitatory + inhibitory,
        forall|i: int| 0 <= i < r@.len() ==> #[trigger] r@[i] == kind_at(i, excitatory as int),
        forall|i: int| 0 <= i < excitatory ==> #[trigger] r@[i] == NeuronKind::Excitatory,
        forall|i: int|
            excitatory <= i < excitatory + inhibitory ==> #[trigger] r@[i] == NeuronKind::Inhibitory,
{
    let total = excitatory + inhibitory;
    let mut r: Vec<NeuronKind> = Vec::with_capacity(total);
    let mut i: usize = 0;
    while i < total
        invariant
            i <= total,
            total == excitatory + inhibitory,
            r@.len() == i,
            forall|j: int| 0 <= j < i ==> #[trigger] r@[j] == kind_at(j, excitatory as int),
        decreases total - i,
    {
        r.push(neuron_kind(i, excitatory));
        i = i + 1;
    }
    r
}

} // verus!
