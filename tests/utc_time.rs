use stardew_saves::{convert_date_to_string, EpochOffset, Timestamp, MAX_UTC_SECS, MIN_UTC_SECS};

fn offset(before_epoch: bool, secs: u64, nanos: u32) -> Option<Timestamp> {
    Timestamp::from_epoch_offset(EpochOffset { before_epoch, secs, nanos })
}

#[test]
fn offset_after_the_epoch() {
    assert_eq!(offset(false, 7, 250), Some(Timestamp { secs: 7, nanos: 250 }));
}

#[test]
fn whole_seconds_before_the_epoch() {
    assert_eq!(offset(true, 5, 0), Some(Timestamp { secs: -5, nanos: 0 }));
}

#[test]
fn fraction_before_the_epoch_borrows_a_second() {
    assert_eq!(offset(true, 5, 250), Some(Timestamp { secs: -6, nanos: 999_999_750 }));
}

#[test]
fn excess_nanoseconds_carry_into_seconds() {
    assert_eq!(offset(false, 1, 1_500_000_000), Some(Timestamp { secs: 2, nanos: 500_000_000 }));
    assert_eq!(offset(true, 1, 1_500_000_000), Some(Timestamp { secs: -3, nanos: 500_000_000 }));
}

#[test]
fn offsets_at_the_ends_of_i64() {
    assert_eq!(offset(false, i64::MAX as u64, 0), Some(Timestamp { secs: i64::MAX, nanos: 0 }));
    assert_eq!(offset(false, i64::MAX as u64, 999_999_999).map(|t| t.secs), Some(i64::MAX));
    assert_eq!(offset(false, i64::MAX as u64 + 1, 0), None);
    assert_eq!(offset(true, 1u64 << 63, 0), Some(Timestamp { secs: i64::MIN, nanos: 0 }));
    assert_eq!(offset(true, 1u64 << 63, 1), None);
    assert_eq!(offset(true, u64::MAX, 0), None);
}

#[test]
fn timestamp_is_written_as_chrono_does() {
    let t = Timestamp { secs: 1431648000, nanos: 0 };
    assert_eq!(convert_date_to_string(t), Some("2015-05-15 00:00:00 UTC".to_string()));
}

#[test]
fn leap_second_is_written() {
    let t = Timestamp { secs: 59, nanos: 1_000_000_000 };
    assert_eq!(convert_date_to_string(t), Some("1970-01-01 00:00:60 UTC".to_string()));
}

#[test]
fn invalid_nanoseconds_are_refused() {
    assert_eq!(convert_date_to_string(Timestamp { secs: 58, nanos: 1_000_000_000 }), None);
    assert_eq!(convert_date_to_string(Timestamp { secs: 59, nanos: 2_000_000_000 }), None);
}

#[test]
fn range_ends_are_displayable() {
    assert!(convert_date_to_string(Timestamp { secs: MIN_UTC_SECS, nanos: 0 }).is_some());
    assert!(convert_date_to_string(Timestamp { secs: MAX_UTC_SECS, nanos: 0 }).is_some());
    assert_eq!(convert_date_to_string(Timestamp { secs: MIN_UTC_SECS - 1, nanos: 0 }), None);
    assert_eq!(convert_date_to_string(Timestamp { secs: MAX_UTC_SECS + 1, nanos: 0 }), None);
}
