use izhikevich::population::{neuron_kind, population_kinds, NeuronKind};

#[test]
fn excitatory_neurons_come_first() {
    assert_eq!(
        population_kinds(2, 1),
        vec![NeuronKind::Excitatory, NeuronKind::Excitatory, NeuronKind::Inhibitory]
    );
}

#[test]
fn population_has_both_counts() {
    let k = population_kinds(800, 200);
    assert_eq!(k.len(), 1000);
    assert_eq!(k.iter().filter(|x| **x == NeuronKind::Excitatory).count(), 800);
    assert!(k[..800].iter().all(|x| *x == NeuronKind::Excitatory));
    assert!(k[800..].iter().all(|x| *x == NeuronKind::Inhibitory));
}

#[test]
fn boundary_index_is_inhibitory() {
    assert_eq!(neuron_kind(1, 2), NeuronKind::Excitatory);
    assert_eq!(neuron_kind(2, 2), NeuronKind::Inhibitory);
    assert_eq!(neuron_kind(0, 0), NeuronKind::Inhibitory);
}

#[test]
fn one_sided_populations() {
    assert!(population_kinds(0, 3).iter().all(|x| *x == NeuronKind::Inhibitory));
    assert!(population_kinds(3, 0).iter().all(|x| *x == NeuronKind::Excitatory));
    assert!(population_kinds(0, 0).is_empty());
}
