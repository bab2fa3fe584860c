use format_bridge::from_toml;
use format_bridge::from_yaml;
use format_bridge::to_toml;
use format_bridge::to_yaml;
use format_bridge::CanonValue;

#[test]
fn test_to_yaml() {
    let initial = r#"{
    "data": "Some data"
}"#;

    let yaml = to_yaml(initial);

    assert_eq!(
        yaml,
        r#"---
data: Some data
"#
    )
}

#[test]
fn test_from_yaml() {
    let initial = r#"---
data: Some data
"#;

    let json = from_yaml(initial);

    assert_eq!(json, r#"{"data":"Some data"}"#)
}

#[test]
fn test_to_toml() {
    let initial = r#"{
"data": "Some data"
}"#;

    let toml = to_toml(initial);

    assert_eq!(
        toml,
        r#"data = "Some data"
"#
    )
}

#[test]
fn test_from_toml() {
    let initial = r#"data = "Some data""#;

    let json = from_toml(initial);

    assert_eq!(json, r#"{"data":"Some data"}"#)
}

#[test]
fn yaml_round_trip_returns_the_document() {
    let compact = r#"{"alpha":1,"beta":[true,"x",-2,1.5],"gamma":{"inner":"v"},"hole":null}"#;
    assert_eq!(from_yaml(&to_yaml(compact)), compact);
}

#[test]
fn yaml_round_trip_keeps_key_order() {
    let compact = r#"{"zeta":1,"alpha":2,"mu":3}"#;
    assert_eq!(from_yaml(&to_yaml(compact)), compact);
}

#[test]
fn toml_round_trip_returns_the_mapping() {
    let compact = r#"{"count":3,"flag":true,"name":"x","tags":["a","b"]}"#;
    assert_eq!(from_toml(&to_toml(compact)), compact);
}

#[test]
fn every_entry_point_returns_a_string_for_any_input() {
    let mut nested = String::new();
    for _ in 0..100 {
        nested.push('[');
    }
    let inputs = ["", "\u{0}\u{1}\u{2} garbage", "{{{{", "]", "= =", nested.as_str()];
    for input in inputs {
        let _ = to_yaml(input);
        let _ = from_yaml(input);
        let _ = to_toml(input);
        let _ = from_toml(input);
    }
}

#[test]
fn bare_string_to_toml_is_rejected_for_its_shape() {
    assert_eq!(
        to_toml(r#""hello""#),
        "cannot convert to TOML: the top-level value must be a mapping"
    );
}

#[test]
fn bare_array_to_toml_is_rejected_for_its_shape() {
    assert_eq!(
        to_toml(r#"[1, 2]"#),
        "cannot convert to TOML: the top-level value must be a mapping"
    );
}

#[test]
fn null_value_to_toml_is_rejected() {
    assert_eq!(
        to_toml(r#"{"data": null}"#),
        "cannot convert to TOML: null values cannot be represented"
    );
}

#[test]
fn nested_null_to_toml_is_rejected() {
    assert_eq!(
        to_toml(r#"{"a": {"b": [1, null]}}"#),
        "cannot convert to TOML: null values cannot be represented"
    );
}

#[test]
fn json_parse_error_names_the_location() {
    let message = to_yaml("{");
    assert!(message.contains("line 1"), "unexpected message: {message}");
}

#[test]
fn yaml_parse_error_names_the_location() {
    let message = from_yaml("{");
    assert!(message.contains("line"), "unexpected message: {message}");
}

#[test]
fn toml_parse_error_names_the_location() {
    let message = from_toml("= 1");
    assert!(message.contains("line 1"), "unexpected message: {message}");
}

#[test]
fn multi_document_yaml_is_rejected() {
    let message = from_yaml("---\na: 1\n---\nb: 2\n");
    assert!(
        message.contains("more than one document"),
        "unexpected message: {message}"
    );
}

#[test]
fn toml_datetime_becomes_its_display_string() {
    assert_eq!(
        from_toml("date = 1979-05-27T07:32:00Z"),
        r#"{"date":"1979-05-27T07:32:00Z"}"#
    );
}

#[test]
fn empty_mapping_to_toml_is_the_empty_document() {
    assert_eq!(to_toml("{}"), "");
}

#[test]
fn nested_mapping_to_toml_becomes_a_table() {
    assert_eq!(to_toml(r#"{"pkg":{"name":"x"}}"#), "[pkg]\nname = \"x\"\n");
}

#[test]
fn large_unsigned_numbers_keep_their_digits_in_yaml() {
    assert_eq!(
        to_yaml(r#"{"n":18446744073709551615}"#),
        "---\nn: 18446744073709551615\n"
    );
}

#[test]
fn has_null_finds_a_nested_null() {
    let inner = CanonValue::Sequence(vec![
        CanonValue::Int(1),
        CanonValue::Null,
    ]);
    let v = CanonValue::Mapping(vec![(String::from("a"), inner)]);
    assert!(v.has_null());
    assert!(v.is_mapping());
}

#[test]
fn has_null_is_false_without_nulls() {
    let v = CanonValue::Mapping(vec![
        (String::from("a"), CanonValue::Bool(false)),
        (
            String::from("b"),
            CanonValue::Sequence(vec![CanonValue::Str(String::from("x"))]),
        ),
    ]);
    assert!(!v.has_null());
    assert!(!CanonValue::Null.is_mapping());
}
