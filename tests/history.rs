use izhikevich::history::HistoryRing;

fn contents(r: &HistoryRing<u32>) -> Vec<u32> {
    (0..r.len()).map(|i| *r.get(i)).collect()
}

#[test]
fn empty_history_has_no_newest() {
    let r: HistoryRing<u32> = HistoryRing::new(4);
    assert!(r.is_empty());
    assert_eq!(r.len(), 0);
    assert_eq!(r.capacity(), 4);
    assert_eq!(r.time_index(), 0);
    assert!(r.newest().is_none());
    assert!(r.column_at(0).is_none());
}

#[test]
fn pushes_below_capacity_keep_everything() {
    let mut r = HistoryRing::new(4);
    r.push(10u32);
    r.push(20);
    assert_eq!(contents(&r), vec![10, 20]);
    assert_eq!(r.newest(), Some(&20));
    assert_eq!(r.time_index(), 2);
}

#[test]
fn push_past_capacity_evicts_first_entry() {
    let buffer_size = 5;
    let mut r = HistoryRing::new(buffer_size);
    for x in 0..(buffer_size as u32 + 1) {
        r.push(x);
    }
    assert_eq!(r.len(), buffer_size);
    assert_eq!(contents(&r), vec![1, 2, 3, 4, 5]);
    assert_eq!(r.newest(), Some(&5));
    assert_eq!(*r.get(buffer_size - 1), 5);
}

#[test]
fn long_run_keeps_last_entries_in_order() {
    let mut r = HistoryRing::new(3);
    for x in 0..10u32 {
        r.push(x);
        assert!(r.len() <= 3);
    }
    assert_eq!(contents(&r), vec![7, 8, 9]);
    assert_eq!(r.time_index(), 10 % 3);
}

#[test]
fn column_at_reads_array_slots() {
    let mut r = HistoryRing::new(3);
    for x in [1u32, 2, 3, 4] {
        r.push(x);
    }
    // slots now hold [4, 2, 3] and the next write goes to slot 1
    assert_eq!(r.time_index(), 1);
    assert_eq!(r.column_at(0), Some(&4));
    assert_eq!(r.column_at(1), Some(&2));
    assert_eq!(r.column_at(2), Some(&3));
    assert_eq!(r.column_at(3), None);
}

#[test]
fn column_at_before_wrap() {
    let mut r = HistoryRing::new(3);
    r.push(7u32);
    assert_eq!(r.column_at(0), Some(&7));
    assert_eq!(r.column_at(1), None);
}

#[test]
fn capacity_one_keeps_only_newest() {
    let mut r = HistoryRing::new(1);
    r.push(1u32);
    r.push(2);
    assert_eq!(contents(&r), vec![2]);
    assert_eq!(r.time_index(), 0);
}
