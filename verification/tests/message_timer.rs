use firmware::message::greeting;
use firmware::timer::ticks_to_millis;

#[test]
fn greeting_for_zero() {
    assert_eq!(greeting(0), b"Hello! Current timestamp: 0".to_vec());
}

#[test]
fn greeting_for_round_number_keeps_inner_zeros() {
    assert_eq!(greeting(1000), b"Hello! Current timestamp: 1000".to_vec());
}

#[test]
fn greeting_for_largest_timestamp() {
    assert_eq!(
        greeting(u64::MAX),
        b"Hello! Current timestamp: 18446744073709551615".to_vec()
    );
}

#[test]
fn ticks_convert_by_integer_division() {
    assert_eq!(ticks_to_millis(0, 1000), 0);
    assert_eq!(ticks_to_millis(999, 1000), 0);
    assert_eq!(ticks_to_millis(2500, 1000), 2);
    assert_eq!(ticks_to_millis(u64::MAX, 1), u64::MAX);
}

#[test]
fn timestamps_nondecreasing_across_reads() {
    // Consecutive counter reads without wraparound convert to non-decreasing
    // timestamps.
    let reads: [u64; 5] = [0, 999, 1000, 2500, 2500];
    let mut last = 0;
    for t in reads {
        let ms = ticks_to_millis(t, 1000);
        assert!(ms >= last);
        last = ms;
    }
}
