use docrab::models::tag::{NewTag, UpdateTag};
use docrab::validation::is_hex_color;

#[test]
fn test_correct_new_tag_color_regex() {
    let tag = NewTag {
        label: Some("test".to_string()),
        color: Some("#ffffff".to_string()),
    };

    assert!(tag.validate().is_ok());
}

#[test]
fn test_incorrect_new_tag_color_regex() {
    let tag = NewTag {
        label: Some("test".to_string()),
        color: Some("ddddddd".to_string()),
    };

    assert!(tag.validate().is_err());
}

#[test]
fn test_correct_update_tag_color_regex() {
    let tag = UpdateTag {
        label: None,
        color: Some("#ffffff".to_string()),
    };

    assert!(tag.validate().is_ok());
}

#[test]
fn test_incorrect_update_tag_color_regex() {
    let tag = UpdateTag {
        label: None,
        color: Some("ddddddd".to_string()),
    };

    assert!(tag.validate().is_err());
}

#[test]
fn new_tag_reports_the_failed_colour_check_with_its_message() {
    let tag = NewTag { label: Some("test".to_string()), color: Some("ddddddd".to_string()) };
    let errors = tag.validate().unwrap_err();
    assert_eq!(errors.fields.len(), 1);
    assert_eq!(errors.fields[0].0, "color");
    assert_eq!(errors.fields[0].1.len(), 1);
    assert_eq!(errors.fields[0].1[0].code, "regex");
    assert_eq!(errors.fields[0].1[0].message.as_deref(), Some("invalid color format"));
}

#[test]
fn new_tag_requires_label_and_colour_in_field_order() {
    let tag = NewTag { label: None, color: None };
    let errors = tag.validate().unwrap_err();
    assert_eq!(errors.fields.len(), 2);
    assert_eq!(errors.fields[0].0, "label");
    assert_eq!(errors.fields[0].1[0].code, "required");
    assert!(errors.fields[0].1[0].message.is_none());
    assert_eq!(errors.fields[1].0, "color");
    assert_eq!(errors.fields[1].1[0].code, "required");
}

#[test]
fn update_tag_colour_fails_both_length_and_format() {
    let tag = UpdateTag { label: None, color: Some("#fff".to_string()) };
    let errors = tag.validate().unwrap_err();
    assert_eq!(errors.fields.len(), 1);
    let codes: Vec<&str> = errors.fields[0].1.iter().map(|e| e.code.as_str()).collect();
    assert_eq!(codes, vec!["length", "regex"]);
}

#[test]
fn update_tag_without_fields_is_valid() {
    assert!(UpdateTag { label: None, color: None }.validate().is_ok());
}

#[test]
fn tag_label_limit_counts_characters() {
    let hundred = "é".repeat(100);
    let tag = NewTag { label: Some(hundred), color: Some("#A0b1C2".to_string()) };
    assert!(tag.validate().is_ok());
    let too_long = "a".repeat(101);
    let tag = NewTag { label: Some(too_long), color: Some("#a0b1c2".to_string()) };
    let errors = tag.validate().unwrap_err();
    assert_eq!(errors.fields[0].0, "label");
    assert_eq!(errors.fields[0].1[0].code, "length");
}

#[test]
fn hex_colour_format() {
    assert!(is_hex_color("#000000"));
    assert!(is_hex_color("#AbCdEf"));
    assert!(!is_hex_color("#abcdeg"));
    assert!(!is_hex_color("#abcdef0"));
    assert!(!is_hex_color("abcdef0"));
    assert!(!is_hex_color("#abcdef\n"));
    assert!(!is_hex_color(""));
}
