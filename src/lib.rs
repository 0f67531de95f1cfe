//! Verified core of a spiking-network simulator built on the Izhikevich
//! neuron model.
//!
//! The library holds the integer and boolean logic of the simulation engine:
//! the configuration checks, the modulo timestep counter, the bounded history
//! of recorded steps, the selection of presynaptic spikes that feed the next
//! step, the excitatory / inhibitory layout of a population, the framing of
//! the buffers that the accelerator backend shares with the host, and the
//! consumer's log of what each step produced.
pub mod clock;
pub mod config;
pub mod device;
pub mod history;
pub mod observe;
pub mod population;
pub mod synapse;
