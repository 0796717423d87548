use namimado::clock::timestamp_from_seconds;

#[test]
fn timestamps_after_and_before_the_epoch() {
    assert_eq!(timestamp_from_seconds(Ok(0)), 0);
    assert_eq!(timestamp_from_seconds(Ok(1_700_000_000)), 1_700_000_000);
    assert_eq!(timestamp_from_seconds(Err(3)), -3);
    assert_eq!(timestamp_from_seconds(Ok(u64::MAX)), i64::MAX);
    assert_eq!(timestamp_from_seconds(Err(u64::MAX)), i64::MIN);
}
