use mastodon_entities::{days_in_month, decode_timestamp, encode_timestamp, DecodeError, Timestamp};

#[test]
fn decodes_utc_timestamp() {
    let t = decode_timestamp("2019-12-05T12:15:32.000Z").unwrap();
    assert_eq!(t, Timestamp::new(2019, 12, 5, 12, 15, 32, 0, 0).unwrap());
}

#[test]
fn decodes_offset_and_fraction() {
    let t = decode_timestamp("2019-12-05T12:15:32.5+01:00").unwrap();
    assert_eq!(t.nanosecond, 500_000_000);
    assert_eq!(t.offset_seconds, 3600);
    assert_eq!(t.hour, 12);
}

#[test]
fn encodes_in_fixed_form() {
    let t = Timestamp::new(2019, 12, 5, 12, 15, 32, 500_000_000, 3600).unwrap();
    assert_eq!(
        encode_timestamp(&t).unwrap(),
        "2019-12-05T12:15:32.500000000+01:00"
    );
    let utc = Timestamp::new(2000, 1, 1, 0, 0, 0, 0, 0).unwrap();
    assert_eq!(encode_timestamp(&utc).unwrap(), "2000-01-01T00:00:00.000000000Z");
}

#[test]
fn timestamp_round_trips() {
    let t = Timestamp::new(2024, 2, 29, 23, 59, 59, 123_456_789, -18000).unwrap();
    let text = encode_timestamp(&t).unwrap();
    assert_eq!(decode_timestamp(&text), Ok(t));
}

#[test]
fn other_text_is_a_format_error() {
    assert_eq!(decode_timestamp("yesterday"), Err(DecodeError::InvalidTimestamp));
    assert_eq!(decode_timestamp(""), Err(DecodeError::InvalidTimestamp));
    assert_eq!(decode_timestamp("2019-13-05T12:15:32Z"), Err(DecodeError::InvalidTimestamp));
}

#[test]
fn calendar_validation() {
    assert!(Timestamp::new(2023, 2, 29, 0, 0, 0, 0, 0).is_none());
    assert!(Timestamp::new(2024, 2, 29, 0, 0, 0, 0, 0).is_some());
    assert!(Timestamp::new(1900, 2, 29, 0, 0, 0, 0, 0).is_none());
    assert!(Timestamp::new(2000, 2, 29, 0, 0, 0, 0, 0).is_some());
    assert!(Timestamp::new(2024, 4, 31, 0, 0, 0, 0, 0).is_none());
    assert!(Timestamp::new(2024, 1, 1, 24, 0, 0, 0, 0).is_none());
    assert!(Timestamp::new(2024, 1, 1, 0, 0, 0, 1_000_000_000, 0).is_none());
    assert!(Timestamp::new(2024, 1, 1, 0, 0, 0, 0, 93600).is_none());
    assert_eq!(days_in_month(2024, 2), 29);
    assert_eq!(days_in_month(2023, 2), 28);
    assert_eq!(days_in_month(2023, 9), 30);
    assert_eq!(days_in_month(2023, 12), 31);
}
