use elara::clock::{time_of_reading, unix_time};

#[test]
fn the_clock_reads_a_time_of_this_century() {
    let now = unix_time();
    assert!(now > 1_577_836_800);
    assert!(now < 4_102_444_800);
    assert!(unix_time() + 5 >= now);
}

#[test]
fn a_reading_before_the_epoch_counts_as_zero() {
    assert_eq!(time_of_reading(None), 0);
    assert_eq!(time_of_reading(Some(0)), 0);
    assert_eq!(time_of_reading(Some(1_700_000_000)), 1_700_000_000);
    assert_eq!(time_of_reading(Some(u64::MAX)), u64::MAX);
}
