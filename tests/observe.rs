use izhikevich::observe::ObservationLog;

#[test]
fn log_pairs_voltage_with_spike_indices() {
    let mut log: ObservationLog<i64> = ObservationLog::new(3);
    assert_eq!(log.capacity(), 3);
    assert_eq!(log.len(), 0);
    log.record(-65, &vec![false, true, true]);
    assert_eq!(log.len(), 1);
    assert_eq!(log.get(0).voltage, -65);
    assert_eq!(log.get(0).spiking, vec![1, 2]);
}

#[test]
fn log_evicts_oldest_step() {
    let mut log: ObservationLog<i64> = ObservationLog::new(2);
    log.record(1, &vec![true, false]);
    log.record(2, &vec![false, false]);
    log.record(3, &vec![false, true]);
    assert_eq!(log.len(), 2);
    assert_eq!(log.get(0).voltage, 2);
    assert!(log.get(0).spiking.is_empty());
    assert_eq!(log.get(1).voltage, 3);
    assert_eq!(log.get(1).spiking, vec![1]);
}
