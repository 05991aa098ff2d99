use soroban_registry::cli::output_format::csv_escape_value;
use soroban_registry::json::JsonValue;

fn s(text: &str) -> JsonValue {
    JsonValue::String(text.to_string())
}

fn sj(text: &str) -> serde_json::Value {
    serde_json::Value::String(text.to_string())
}

/// An object's CSV field is its compact `serde_json` text, quoted with quotes doubled.
#[test]
fn compact_text_matches_serde_json() {
    let ours = JsonValue::Object(vec![
        ("a".to_string(), JsonValue::Array(vec![JsonValue::Null, JsonValue::Bool(false), s("x\ny\"z\\")])),
        ("b".to_string(), JsonValue::Number(serde_json::Number::from(-12).to_string())),
        ("c\t".to_string(), JsonValue::Object(vec![])),
        ("d".to_string(), JsonValue::Array(vec![])),
        ("e".to_string(), s("\u{1}é")),
    ]);
    let mut map = serde_json::Map::new();
    map.insert(
        "a".to_string(),
        serde_json::Value::Array(vec![serde_json::Value::Null, serde_json::Value::Bool(false), sj("x\ny\"z\\")]),
    );
    map.insert("b".to_string(), serde_json::Value::Number(serde_json::Number::from(-12)));
    map.insert("c\t".to_string(), serde_json::Value::Object(serde_json::Map::new()));
    map.insert("d".to_string(), serde_json::Value::Array(vec![]));
    map.insert("e".to_string(), sj("\u{1}é"));
    let theirs = serde_json::to_string(&serde_json::Value::Object(map)).unwrap();
    let expected = format!("\"{}\"", theirs.replace('"', "\"\""));
    assert_eq!(csv_escape_value(&ours), expected);
}

#[test]
fn get_and_clone() {
    let v = JsonValue::Object(vec![("k".to_string(), s("one")), ("k".to_string(), s("two"))]);
    assert_eq!(v.get("k"), Some(&s("one")));
    assert_eq!(v.get("missing"), None);
    assert_eq!(s("x").get("k"), None);
    assert_eq!(v.deep_clone(), v);
    assert_eq!(v.str_at("k"), Some(&"one".to_string()));
    assert!(JsonValue::Array(vec![]).as_array().is_some());
}
