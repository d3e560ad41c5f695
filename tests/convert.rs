use mastodon_entities::{
    decimal_string, optional_member, parse_decimal, tolerant_text, tolerant_u64, vec_or_empty,
    AccountId, DecodeError, Member, ReportId, Scalar, Tag, TagHistory,
};

#[test]
fn tolerant_number_from_text_and_number() {
    let a = tolerant_u64(&Scalar::Text("42".to_string()));
    let b = tolerant_u64(&Scalar::Number(42));
    assert_eq!(a, Ok(42));
    assert_eq!(a, b);
}

#[test]
fn tolerant_number_rejects_bad_text() {
    assert_eq!(tolerant_u64(&Scalar::Text("4x2".to_string())), Err(DecodeError::InvalidNumber));
    assert_eq!(tolerant_u64(&Scalar::Text(String::new())), Err(DecodeError::InvalidNumber));
    assert_eq!(tolerant_u64(&Scalar::Text("-1".to_string())), Err(DecodeError::InvalidNumber));
    assert_eq!(
        tolerant_u64(&Scalar::Text("18446744073709551616".to_string())),
        Err(DecodeError::InvalidNumber)
    );
}

#[test]
fn largest_number_parses() {
    assert_eq!(parse_decimal("18446744073709551615"), Some(u64::MAX));
    assert_eq!(parse_decimal("0"), Some(0));
    assert_eq!(parse_decimal("007"), Some(7));
}

#[test]
fn decimal_text_of_numbers() {
    assert_eq!(decimal_string(0), "0");
    assert_eq!(decimal_string(42), "42");
    assert_eq!(decimal_string(u64::MAX), "18446744073709551615");
}

#[test]
fn tolerant_text_normalizes_numbers() {
    assert_eq!(tolerant_text(&Scalar::Number(1234)), "1234");
    assert_eq!(tolerant_text(&Scalar::Text("abc".to_string())), "abc");
}

#[test]
fn identifier_from_text_or_number_is_equal() {
    let a = AccountId::from_scalar(&Scalar::Text("42".to_string()));
    let b = AccountId::from_scalar(&Scalar::Number(42));
    assert!(a == b);
    assert_eq!(a.as_str(), "42");
}

#[test]
fn identifier_encodes_as_text_and_round_trips() {
    let id = ReportId::new("109");
    let w = id.to_scalar();
    assert_eq!(w, Scalar::Text("109".to_string()));
    let back = ReportId::from_scalar(&w);
    assert!(back == id);
}

#[test]
fn identifiers_of_one_kind_compare_by_text() {
    assert!(ReportId::new("1") == ReportId::new("1"));
    assert!(ReportId::new("1") != ReportId::new("2"));
    let s = String::from("5");
    assert!(AccountId::from_string(s) == AccountId::new("5"));
}

#[test]
fn missing_and_null_members_have_no_value() {
    assert_eq!(optional_member::<u64>(Member::Missing), None);
    assert_eq!(optional_member::<u64>(Member::Null), None);
    assert_eq!(optional_member(Member::Present(3u64)), Some(3));
}

#[test]
fn absent_collection_is_empty() {
    assert!(vec_or_empty::<u8>(None).is_empty());
    assert_eq!(vec_or_empty(Some(vec![1u8, 2])), vec![1, 2]);
    let tag = Tag::from_wire("rust".to_string(), "https://x/tags/rust".to_string(), None, None);
    assert!(tag.history.is_empty());
}

#[test]
fn tag_history_accepts_numbers() {
    let h = TagHistory::from_wire(
        &Scalar::Number(1_600_000_000),
        &Scalar::Text("3".to_string()),
        &Scalar::Number(2),
    );
    assert_eq!(h.day, "1600000000");
    assert_eq!(h.uses, "3");
    assert_eq!(h.accounts, "2");
}
