use stat_api_rs::common::errors::ApiError;
use stat_api_rs::controllers::events::{check_allowed, check_payload_values, value_too_long_text};
use stat_api_rs::models::allowed_payloads::is_allowed as payload_types_allowed;
use stat_api_rs::models::events::{period_prefix_len, PeriodKind};
use stat_api_rs::models::payload_types::Model as PayloadType;

fn t(id: i64, value_type_id: i64) -> PayloadType {
    PayloadType { id, code_name: format!("t{id}"), description: None, value_type_id }
}

#[test]
fn allowed_types_compare_as_sets() {
    assert!(payload_types_allowed(&[1, 2, 3], &[3, 2, 1]));
    assert!(payload_types_allowed(&[1, 2], &[2, 1, 2]));
    assert!(!payload_types_allowed(&[1, 2, 3], &[1, 2]));
    assert!(!payload_types_allowed(&[1, 2], &[1, 2, 4]));
    assert!(payload_types_allowed(&[], &[]));
    assert!(!payload_types_allowed(&[], &[1]));
    assert!(check_allowed(&[1], &[1]).is_ok());
    assert!(matches!(
        check_allowed(&[1], &[2]),
        Err(ApiError::BadRequest(m)) if m == "This payload types not allowed for that event"
    ));
}

#[test]
fn payload_values_are_checked_by_type_then_length() {
    let types = vec![t(1, 1), t(2, 2), t(3, 3)];
    let ok = vec![(1, "100".to_string()), (2, "true".to_string()), (3, "custom text".to_string())];
    assert!(check_payload_values(&ok, &types).is_ok());
    let ill = vec![(1, "x".to_string())];
    assert!(matches!(
        check_payload_values(&ill, &types),
        Err(ApiError::UnprocessableEntity(m)) if m == "Invalid payload value type"
    ));
    let long = vec![(3, "a".repeat(51))];
    assert!(matches!(
        check_payload_values(&long, &types),
        Err(ApiError::Validation(m)) if m == format!(
            "{{\"value\":[{{\"code\":\"length\",\"message\":\"Value cannot exceed 50 characters\",\"params\":{{\"max\":50,\"value\":\"{}\"}}}}]}}",
            "a".repeat(51)
        )
    ));
    let two_long = vec![(9, "b".repeat(52)), (3, "a".repeat(51))];
    assert!(matches!(
        check_payload_values(&two_long, &types),
        Err(ApiError::Validation(m)) if m.contains(&"b".repeat(52)) && !m.contains(&"a".repeat(51))
    ));
    let both = vec![(3, "a".repeat(51)), (2, "maybe".to_string())];
    assert!(matches!(check_payload_values(&both, &types), Err(ApiError::UnprocessableEntity(_))));
    let unknown_type = vec![(9, "anything".to_string())];
    assert!(check_payload_values(&unknown_type, &types).is_ok());
    let long_unknown = vec![(9, "a".repeat(60))];
    assert!(matches!(check_payload_values(&long_unknown, &types), Err(ApiError::Validation(_))));
}

#[test]
fn later_type_entry_wins() {
    let types = vec![t(1, 3), t(1, 1)];
    assert!(check_payload_values(&[(1, "text".to_string())], &types).is_err());
    assert!(check_payload_values(&[(1, "12".to_string())], &types).is_ok());
}

#[test]
fn period_prefixes() {
    assert_eq!(period_prefix_len(PeriodKind::Day), 10);
    assert_eq!(period_prefix_len(PeriodKind::Month), 7);
    assert_eq!(period_prefix_len(PeriodKind::Year), 4);
    let ts = "2026-04-10 12:00:00+00";
    assert_eq!(&ts[..period_prefix_len(PeriodKind::Month) as usize], "2026-04");
}

#[test]
fn too_long_errors_carry_the_escaped_value() {
    let text = value_too_long_text("say \"hi\"\\\n\u{1}/é");
    let parsed: serde_json::Value = serde_json::from_str(&text).unwrap();
    assert_eq!(parsed["value"][0]["code"], "length");
    assert_eq!(parsed["value"][0]["message"], "Value cannot exceed 50 characters");
    assert_eq!(parsed["value"][0]["params"]["max"], 50);
    assert_eq!(parsed["value"][0]["params"]["value"], "say \"hi\"\\\n\u{1}/é");
    assert!(text.contains("\\u0001"));
}
