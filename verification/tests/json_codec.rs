use rustodoist_rest2::json::{
    JsonValue, field_bool, field_i32, field_i64, field_opt_string, field_string,
    field_string_list, field_u8, json_string_list, obj_lookup, to_json_text,
};

fn obj(pairs: Vec<(&str, JsonValue)>) -> JsonValue {
    JsonValue::Object(pairs.into_iter().map(|(k, v)| (k.to_string(), v)).collect())
}

#[test]
fn serializes_scalars() {
    assert_eq!(to_json_text(&JsonValue::Null), "null");
    assert_eq!(to_json_text(&JsonValue::Bool(true)), "true");
    assert_eq!(to_json_text(&JsonValue::Bool(false)), "false");
    assert_eq!(to_json_text(&JsonValue::Int(0)), "0");
    assert_eq!(to_json_text(&JsonValue::Int(42)), "42");
    assert_eq!(to_json_text(&JsonValue::Int(-7)), "-7");
    assert_eq!(to_json_text(&JsonValue::Int(i64::MAX)), "9223372036854775807");
    assert_eq!(to_json_text(&JsonValue::Int(i64::MIN)), "-9223372036854775808");
}

#[test]
fn serializes_number_tokens_verbatim() {
    assert_eq!(to_json_text(&JsonValue::NumText("1.5e300".to_string())), "1.5e300");
}

#[test]
fn serializes_strings_with_escapes() {
    assert_eq!(to_json_text(&JsonValue::Str("hello".to_string())), "\"hello\"");
    assert_eq!(to_json_text(&JsonValue::Str("".to_string())), "\"\"");
    assert_eq!(to_json_text(&JsonValue::Str("a\"b".to_string())), "\"a\\\"b\"");
    assert_eq!(to_json_text(&JsonValue::Str("a\\b".to_string())), "\"a\\\\b\"");
    assert_eq!(to_json_text(&JsonValue::Str("a\nb\tc\rd".to_string())), "\"a\\nb\\tc\\rd\"");
    assert_eq!(to_json_text(&JsonValue::Str("\u{1}".to_string())), "\"\\u0001\"");
    assert_eq!(to_json_text(&JsonValue::Str("\u{1f}".to_string())), "\"\\u001f\"");
    assert_eq!(to_json_text(&JsonValue::Str("café".to_string())), "\"café\"");
}

#[test]
fn serializes_arrays_and_objects() {
    assert_eq!(to_json_text(&JsonValue::Array(vec![])), "[]");
    let arr = JsonValue::Array(vec![
        JsonValue::Int(1),
        JsonValue::Str("two".to_string()),
        JsonValue::Null,
    ]);
    assert_eq!(to_json_text(&arr), "[1,\"two\",null]");
    assert_eq!(to_json_text(&obj(vec![])), "{}");
    let o = obj(vec![
        ("a", JsonValue::Int(1)),
        ("b", JsonValue::Array(vec![JsonValue::Bool(false)])),
    ]);
    assert_eq!(to_json_text(&o), "{\"a\":1,\"b\":[false]}");
}

#[test]
fn object_lookup_finds_first_match_only() {
    let o = obj(vec![("k", JsonValue::Int(1)), ("k", JsonValue::Int(2))]);
    match obj_lookup(&o, "k") {
        Some(JsonValue::Int(i)) => assert_eq!(*i, 1),
        _ => panic!("expected the first value under k"),
    }
    assert!(obj_lookup(&o, "missing").is_none());
    assert!(obj_lookup(&JsonValue::Int(3), "k").is_none());
}

#[test]
fn field_extractors_enforce_types_and_ranges() {
    let o = obj(vec![
        ("s", JsonValue::Str("text".to_string())),
        ("b", JsonValue::Bool(true)),
        ("i", JsonValue::Int(300)),
        ("big", JsonValue::Int(i64::MAX)),
        ("neg", JsonValue::Int(-1)),
        ("null_field", JsonValue::Null),
        ("list", JsonValue::Array(vec![
            JsonValue::Str("x".to_string()),
            JsonValue::Str("y".to_string()),
        ])),
        ("mixed", JsonValue::Array(vec![JsonValue::Str("x".to_string()), JsonValue::Int(1)])),
    ]);
    assert_eq!(field_string(&o, "s"), Some("text".to_string()));
    assert_eq!(field_string(&o, "b"), None);
    assert_eq!(field_bool(&o, "b"), Some(true));
    assert_eq!(field_bool(&o, "s"), None);
    assert_eq!(field_i64(&o, "i"), Some(300));
    assert_eq!(field_i32(&o, "i"), Some(300));
    assert_eq!(field_i32(&o, "big"), None);
    assert_eq!(field_u8(&o, "i"), None);
    assert_eq!(field_u8(&o, "neg"), None);
    assert_eq!(field_opt_string(&o, "absent"), Some(None));
    assert_eq!(field_opt_string(&o, "null_field"), Some(None));
    assert_eq!(field_opt_string(&o, "s"), Some(Some("text".to_string())));
    assert_eq!(field_opt_string(&o, "i"), None);
    assert_eq!(
        field_string_list(&o, "list"),
        Some(vec!["x".to_string(), "y".to_string()])
    );
    assert_eq!(field_string_list(&o, "mixed"), None);
}

#[test]
fn whole_value_string_list() {
    let v = JsonValue::Array(vec![
        JsonValue::Str("a".to_string()),
        JsonValue::Str("b".to_string()),
    ]);
    assert_eq!(json_string_list(&v), Some(vec!["a".to_string(), "b".to_string()]));
    let bad = JsonValue::Array(vec![JsonValue::Int(1)]);
    assert_eq!(json_string_list(&bad), None);
    assert_eq!(json_string_list(&JsonValue::Null), None);
}
