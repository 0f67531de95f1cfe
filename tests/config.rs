use izhikevich::config::{Backend, ConfigError, SimConfig};
use izhikevich::population::NeuronKind;

#[test]
fn valid_config_is_accepted() {
    let c = SimConfig::new(800, 200, 1000, Backend::HostParallel).unwrap();
    assert_eq!(c.excitatory, 800);
    assert_eq!(c.inhibitory, 200);
    assert_eq!(c.buffer_size, 1000);
    assert_eq!(c.backend, Backend::HostParallel);
    assert_eq!(c.population_size(), 1000);
}

#[test]
fn empty_population_is_refused() {
    assert_eq!(
        SimConfig::new(0, 0, 10, Backend::Accelerator),
        Err(ConfigError::EmptyPopulation)
    );
    assert_eq!(
        SimConfig::new(0, 0, 0, Backend::Accelerator),
        Err(ConfigError::EmptyPopulation)
    );
}

#[test]
fn zero_buffer_is_refused() {
    assert_eq!(
        SimConfig::new(1, 0, 0, Backend::HostParallel),
        Err(ConfigError::ZeroBufferSize)
    );
}

#[test]
fn error_messages() {
    assert_eq!(ConfigError::EmptyPopulation.message(), "the population has no neuron");
    assert_eq!(ConfigError::ZeroBufferSize.message(), "the history buffer has no slot");
}

#[test]
fn config_kinds_follow_counts() {
    let c = SimConfig::new(1, 2, 5, Backend::HostParallel).unwrap();
    assert_eq!(
        c.kinds(),
        vec![NeuronKind::Excitatory, NeuronKind::Inhibitory, NeuronKind::Inhibitory]
    );
}
