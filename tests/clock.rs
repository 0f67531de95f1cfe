use izhikevich::clock::{wrapping_dec, wrapping_inc};

#[test]
fn inc_advances_by_one() {
    assert_eq!(wrapping_inc(0, 3), 1);
    assert_eq!(wrapping_inc(1, 3), 2);
}

#[test]
fn inc_wraps_after_last_slot() {
    assert_eq!(wrapping_inc(2, 3), 0);
    assert_eq!(wrapping_inc(0, 1), 0);
}

#[test]
fn dec_steps_back_by_one() {
    assert_eq!(wrapping_dec(2, 3), 1);
    assert_eq!(wrapping_dec(1, 3), 0);
}

#[test]
fn dec_wraps_before_slot_zero() {
    assert_eq!(wrapping_dec(0, 3), 2);
    assert_eq!(wrapping_dec(0, 1), 0);
    assert_eq!(wrapping_dec(0, 1000), 999);
}

#[test]
fn inc_then_dec_returns() {
    for t in 0..7 {
        assert_eq!(wrapping_dec(wrapping_inc(t, 7), 7), t);
        assert_eq!(wrapping_inc(wrapping_dec(t, 7), 7), t);
    }
}
