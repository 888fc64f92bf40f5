use torsim::epoch::epoch_end;

#[test]
fn peeked_timestamp_ends_the_epoch() {
    assert_eq!(epoch_end(1000, Some(4600), 100_000, 10800), 4600);
}

#[test]
fn fallback_ends_the_epoch_without_a_peek() {
    assert_eq!(epoch_end(1000, None, 100_000, 10800), 11800);
}

#[test]
fn epoch_end_is_clamped_to_the_global_end() {
    assert_eq!(epoch_end(1000, None, 4600, 10800), 4600);
    assert_eq!(epoch_end(1000, Some(9000), 4600, 10800), 4600);
}
