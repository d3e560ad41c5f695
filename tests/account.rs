use mastodon_entities::{AccountAction, AccountActionRequest, BuildError, DecodeError, ReportId, WarningPresetId};

#[test]
fn test_serialize_action_request() {
    let request = AccountActionRequest::builder(AccountAction::Suspend)
        .report_id(ReportId::new("666"))
        .text("you know what you did")
        .build()
        .expect("One or more required fields are missing!");
    let ser = request.to_json();
    assert_eq!(
        ser,
        r#"{"type":"suspend","report_id":"666","text":"you know what you did"}"#
    );
}

#[test]
fn action_only_encodes_type_alone() {
    let request = AccountActionRequest::builder(AccountAction::Silence)
        .build()
        .unwrap();
    assert_eq!(request.to_json(), r#"{"type":"silence"}"#);
}

#[test]
fn all_fields_encode_in_declaration_order() {
    let request = AccountActionRequest::builder(AccountAction::NoAction)
        .send_email_notification(false)
        .text("t")
        .warning_preset_id(WarningPresetId::new("7"))
        .report_id(ReportId::new("1"))
        .build()
        .unwrap();
    assert_eq!(
        request.to_json(),
        r#"{"type":"none","report_id":"1","warning_preset_id":"7","text":"t","send_email_notification":false}"#
    );
}

#[test]
fn setting_an_optional_field_twice_keeps_the_last() {
    let request = AccountActionRequest::builder(AccountAction::Disable)
        .text("first")
        .text("second")
        .build()
        .unwrap();
    assert_eq!(request.text.as_deref(), Some("second"));
    assert_eq!(request.to_json(), r#"{"type":"disable","text":"second"}"#);
}

#[test]
fn seeded_builder_always_builds() {
    let built = AccountActionRequest::builder(AccountAction::Sensitive).build();
    assert!(built.is_ok());
    let err: Result<AccountActionRequest, BuildError> = Err(BuildError::UninitializedField("action"));
    assert!(err.is_err());
}

#[test]
fn text_is_escaped() {
    let request = AccountActionRequest::builder(AccountAction::Suspend)
        .text("say \"hi\"\\\n\u{1}")
        .send_email_notification(true)
        .build()
        .unwrap();
    assert_eq!(
        request.to_json(),
        "{\"type\":\"suspend\",\"text\":\"say \\\"hi\\\"\\\\\\n\\u0001\",\"send_email_notification\":true}"
    );
}

#[test]
fn text_escaping_matches_serde_json() {
    let text = "tab\there \u{1f}\u{8}\u{c} é ü \"q\" \\";
    let request = AccountActionRequest::builder(AccountAction::Suspend)
        .text(text)
        .build()
        .unwrap();
    let expected = format!(
        "{{\"type\":\"suspend\",\"text\":{}}}",
        serde_json::to_string(text).unwrap()
    );
    assert_eq!(request.to_json(), expected);
}

#[test]
fn action_wire_names_round_trip() {
    let all = [
        AccountAction::NoAction,
        AccountAction::Sensitive,
        AccountAction::Disable,
        AccountAction::Silence,
        AccountAction::Suspend,
    ];
    let names = ["none", "sensitive", "disable", "silence", "suspend"];
    for (a, n) in all.iter().zip(names.iter()) {
        assert_eq!(a.wire_name(), *n);
        assert_eq!(AccountAction::from_wire_name(n), Ok(*a));
    }
}

#[test]
fn unknown_action_token_is_an_error() {
    assert_eq!(AccountAction::from_wire_name("ban"), Err(DecodeError::UnknownToken));
    assert_eq!(AccountAction::from_wire_name("Suspend"), Err(DecodeError::UnknownToken));
    assert_eq!(AccountAction::from_wire_name(""), Err(DecodeError::UnknownToken));
}

#[test]
fn variant_queries() {
    assert!(AccountAction::Suspend.is_suspend());
    assert!(!AccountAction::Suspend.is_silence());
    assert!(AccountAction::NoAction.is_no_action());
    assert!(AccountAction::Sensitive.is_sensitive());
    assert!(AccountAction::Disable.is_disable());
    assert!(AccountAction::Silence.is_silence());
    assert!(!AccountAction::Silence.is_no_action());
}

#[test]
fn requests_compare_by_fields() {
    let a = AccountActionRequest::builder(AccountAction::Suspend)
        .report_id(ReportId::new("666"))
        .build()
        .unwrap();
    let b = AccountActionRequest::builder(AccountAction::Suspend)
        .report_id(ReportId::new("666"))
        .build()
        .unwrap();
    let c = AccountActionRequest::builder(AccountAction::Suspend)
        .report_id(ReportId::new("667"))
        .build()
        .unwrap();
    let d = AccountActionRequest::builder(AccountAction::Silence)
        .report_id(ReportId::new("666"))
        .build()
        .unwrap();
    assert!(a == b);
    assert!(a != c);
    assert!(a != d);
}
