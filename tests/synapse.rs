use izhikevich::synapse::{spike_indices, synaptic_terms, SpikeHistory};

#[test]
fn indices_of_set_entries() {
    assert_eq!(spike_indices(&vec![false, true, false, true]), vec![1, 3]);
    assert_eq!(spike_indices(&vec![true, true, true]), vec![0, 1, 2]);
}

#[test]
fn no_spike_selects_nothing() {
    assert_eq!(spike_indices(&vec![false; 6]), Vec::<usize>::new());
    assert_eq!(spike_indices(&vec![]), Vec::<usize>::new());
}

#[test]
fn single_spike_selects_its_column() {
    for k in 0..5 {
        let mut s = vec![false; 5];
        s[k] = true;
        assert_eq!(spike_indices(&s), vec![k]);
    }
}

#[test]
fn spike_history_starts_without_drive() {
    let h = SpikeHistory::new(3, 4);
    assert_eq!(h.len(), 0);
    assert_eq!(h.neurons(), 3);
    assert_eq!(h.time_index(), 0);
    assert!(h.presynaptic().is_empty());
}

#[test]
fn spike_history_drives_from_newest_step() {
    let mut h = SpikeHistory::new(3, 2);
    h.record(vec![true, false, false]);
    assert_eq!(h.presynaptic(), vec![0]);
    h.record(vec![false, true, true]);
    assert_eq!(h.presynaptic(), vec![1, 2]);
    assert_eq!(h.time_index(), 0);
    h.record(vec![false, false, false]);
    assert!(h.presynaptic().is_empty());
    assert_eq!(h.len(), 2);
    assert_eq!(h.time_index(), 1);
}

fn synaptic_input(weights: &[f32], n: usize, spikes: &Vec<bool>) -> Vec<f32> {
    let active = spike_indices(spikes);
    (0..n)
        .map(|row| {
            synaptic_terms(weights, n, row, &active)
                .into_iter()
                .fold(0.0, |acc, w| acc + w)
        })
        .collect()
}

#[test]
fn silent_previous_step_gives_zero_input() {
    let weights: Vec<f32> = vec![0.1, 0.2, -0.3, 0.4, 0.0, -0.9, 0.25, 0.49, -0.5];
    assert_eq!(synaptic_input(&weights, 3, &vec![false; 3]), vec![0.0, 0.0, 0.0]);
}

#[test]
fn single_spike_gives_its_column() {
    let weights: Vec<f32> = vec![0.1, 0.2, -0.3, 0.4, 0.0, -0.9, 0.25, 0.49, -0.5];
    for k in 0..3 {
        let mut s = vec![false; 3];
        s[k] = true;
        let input = synaptic_input(&weights, 3, &s);
        for row in 0..3 {
            assert_eq!(input[row], weights[row * 3 + k]);
        }
    }
}

#[test]
fn terms_follow_row_and_active_columns() {
    let weights: Vec<i32> = vec![1, 2, 3, 4, 5, 6, 7, 8, 9];
    assert_eq!(synaptic_terms(&weights, 3, 1, &vec![0, 2]), vec![4, 6]);
    assert_eq!(synaptic_terms(&weights, 3, 2, &vec![1]), vec![8]);
    assert_eq!(synaptic_terms(&weights, 3, 0, &vec![]), Vec::<i32>::new());
}

#[test]
fn two_spikes_sum_their_weights() {
    let weights: Vec<f32> = vec![0.5, 0.25, -1.0, 0.125, 0.0, -0.5, 0.25, 0.25, 0.0];
    assert_eq!(
        synaptic_input(&weights, 3, &vec![true, false, true]),
        vec![-0.5, -0.375, 0.25]
    );
}
