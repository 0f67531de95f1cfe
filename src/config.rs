//! The run configuration and the checks made on it before a simulation
//! starts.
use vstd::prelude::*;

use crate::population::{kind_at, population_kinds, NeuronKind};

verus! {

/// The strategy that advances the population by one step.
#[derive(Clone, Copy, Debug, PartialEq, Eq, Structural)]
pub enum Backend {
    /// Every neuron is updated by its own unit of work on a pool of threads.
    HostParallel,
    /// Every neuron is updated by one invocation of a compute kernel.
    Accelerator,
}

/// Why a configuration cannot run.
#[derive(Clone, Copy, Debug, PartialEq, Eq, Structural)]
pub enum ConfigError {
    /// The population has no neuron.
    EmptyPopulation,
    /// The history has no slot.
    ZeroBufferSize,
}

impl ConfigError {
    /// A short description of the error.
    pub fn message(&self) -> (r: &'static str)
        ensures
            *self == ConfigError::EmptyPopulation ==> r@ == "the population has no neuron"@,
            *self == ConfigError::ZeroBufferSize ==> r@ == "the history buffer has no slot"@,
    {
        match self {
            ConfigError::EmptyPopulation => "the population has no neuron",
            ConfigError::ZeroBufferSize => "the history buffer has no slot",
        }
    }
}

/// A configuration that a simulation can run with.
#[derive(Clone, Copy, Debug, PartialEq, Eq, Structural)]
pub struct SimConfig {
    /// The number of excitatory neurons, which come first in the population.
    pub excitatory: usize,
    /// The number of inhibitory neurons, which follow the excitatory ones.
    pub inhibitory: usize,
    /// The number of steps that the history holds.
    pub buffer_size: usize,
    /// The strategy that advances the population.
    pub backend: Backend,
}

impl SimConfig {
    /// The population is not empty, its size is a `usize`, and the history
    /// has at least one slot.
    pub open spec fn is_valid(&self) -> bool {
        &&& self.excitatory + self.inhibitory > 0
        &&& self.excitatory + self.inhibitory <= usize::MAX
        &&& self.buffer_size > 0
    }

    /// Checks a configuration before a run: an empty population is refused
    /// first, then a history without slots.
    pub fn new(excitatory: usize, inhibitory: usize, buffer_size: usize, backend: Backend) -> (r:
        Result<SimConfig, ConfigError>)
        requires
            excitatory + inhibitory <= usize::MAX,
        ensures
            r == Err::<SimConfig, ConfigError>(ConfigError::EmptyPopulation) <==> excitatory
                + inhibitory == 0,
            r == Err::<SimConfig, ConfigError>(ConfigError::ZeroBufferSize) <==> (excitatory
                + inhibitory > 0 && buffer_size == 0),
            r is Ok <==> (excitatory + inhibitory > 0 && buffer_size > 0),
            r matches Ok(c) ==> (c == SimConfig { excitatory, inhibitory, buffer_size, backend }),
            r matches Ok(c) ==> c.is_valid(),
    {
        if excitatory + inhibitory == 0 {
            Err(ConfigError::EmptyPopulation)
        } else if buffer_size == 0 {
            Err(ConfigError::ZeroBufferSize)
        } else {
            Ok(SimConfig { excitatory, inhibitory, buffer_size, backend })
        }
    }

    /// The number of neurons in the population.
    pub fn population_size(&self) -> (r: usize)
        requires
            self.is_valid(),
        ensures
            r == self.excitatory + self.inhibitory,
            r > 0,
    {
        self.excitatory + self.inhibitory
    }

    /// The class of every neuron of the population, by index.
    pub fn kinds(&self) -> (r: Vec<NeuronKind>)
        requires
            self.is_valid(),
        ensures
            r@.len() == self.excitatory + self.inhibitory,
            forall|i: int| 0 <= i < r@.len() ==> #[trigger] r@[i] == kind_at(i, self.excitatory as int),
    {
        population_kinds(self.excitatory, self.inhibitory)
    }
}

} // verus!
