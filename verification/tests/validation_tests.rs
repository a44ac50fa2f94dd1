use stat_api_rs::models::payload_types::{parses_bool, parses_i64, Model as PayloadType};
use stat_api_rs::models::payloads::Validator as PayloadValidator;
use stat_api_rs::models::users::Validator as UserValidator;

fn payload_type(value_type_id: i64) -> PayloadType {
    PayloadType { id: 1, code_name: "endpoint".to_string(), description: None, value_type_id }
}

#[test]
fn integer_texts() {
    for ok in ["0", "-0", "+5", "42", "-42", "007", "9223372036854775807", "-9223372036854775808"] {
        assert!(parses_i64(ok), "{ok}");
        assert_eq!(parses_i64(ok), ok.parse::<i64>().is_ok());
    }
    for bad in ["", "-", "+", " 1", "1 ", "1.0", "9223372036854775808", "-9223372036854775809", "1e3", "--1", "+-1", "١"] {
        assert!(!parses_i64(bad), "{bad}");
        assert_eq!(parses_i64(bad), bad.parse::<i64>().is_ok());
    }
}

#[test]
fn boolean_texts() {
    assert!(parses_bool("true"));
    assert!(parses_bool("false"));
    for bad in ["True", "1", "", " true", "yes"] {
        assert!(!parses_bool(bad));
        assert_eq!(parses_bool(bad), bad.parse::<bool>().is_ok());
    }
}

#[test]
fn payload_values_by_type() {
    assert!(payload_type(1).validate("100"));
    assert!(!payload_type(1).validate("true"));
    assert!(payload_type(2).validate("true"));
    assert!(!payload_type(2).validate("100"));
    assert!(payload_type(3).validate("custom text"));
    assert!(payload_type(3).validate(""));
    assert!(!payload_type(4).validate("anything"));
    assert!(!payload_type(0).validate("1"));
}

#[test]
fn payload_length_limit() {
    let fifty = "é".repeat(50);
    assert!(PayloadValidator { value: fifty.clone() }.validate().is_empty());
    let errors = PayloadValidator { value: format!("{fifty}x") }.validate();
    assert_eq!(errors.len(), 1);
    assert_eq!(errors[0].field, "value");
    assert_eq!(errors[0].code, "length");
    assert_eq!(errors[0].message, "Value cannot exceed 50 characters");
}

#[test]
fn user_field_lengths() {
    let ok = UserValidator { name: "Al".to_string(), login: "al".to_string() };
    assert!(ok.validate().is_empty());
    let errors = UserValidator { name: "A".to_string(), login: "".to_string() }.validate();
    assert_eq!(errors.len(), 2);
    assert_eq!(errors[0].field, "name");
    assert_eq!(errors[1].field, "login");
    assert_eq!(errors[1].message, "Name must be at least 2 characters long.");
    let errors = UserValidator { name: "Alice".to_string(), login: "a".to_string() }.validate();
    assert_eq!(errors.len(), 1);
    assert_eq!(errors[0].field, "login");
}
