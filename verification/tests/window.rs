use lib60870::window::{distance, is_before, next_seq, SEQ_HALF, SEQ_MODULUS};

#[test]
fn sequence_numbers_wrap_at_two_to_the_fifteen() {
    assert_eq!(SEQ_MODULUS, 32768);
    assert_eq!(SEQ_HALF, 16384);
    assert_eq!(next_seq(0), 1);
    assert_eq!(next_seq(32766), 32767);
    assert_eq!(next_seq(32767), 0);
}

#[test]
fn distance_counts_steps_forward() {
    assert_eq!(distance(0, 0), 0);
    assert_eq!(distance(5, 9), 4);
    assert_eq!(distance(9, 5), 32764);
    assert_eq!(distance(32767, 3), 4);
    assert_eq!(distance(0, 32767), 32767);
}

#[test]
fn before_is_the_window_comparison() {
    assert!(is_before(0, 1));
    assert!(!is_before(1, 0));
    assert!(!is_before(7, 7));
    assert!(is_before(32767, 0));
    assert!(is_before(32760, 5));
    assert!(!is_before(5, 32760));
    // exactly half the sequence space ahead still counts, one more does not
    assert!(is_before(0, 16384));
    assert!(!is_before(0, 16385));
    assert!(is_before(20000, 3616));
    assert!(!is_before(20000, 3617));
}
