use serde_json::Value;

fn object(entries: Vec<(&str, Value)>) -> Value {
    let mut map = serde_json::Map::new();
    for (k, v) in entries {
        map.insert(k.to_string(), v);
    }
    Value::Object(map)
}

fn text(s: &str) -> Value {
    Value::String(s.to_string())
}

#[test]
fn test_json_output_format() {
    let data = object(vec![
        (
            "contracts",
            Value::Array(vec![object(vec![
                ("id", text("test-id-1")),
                ("name", text("TestContract")),
                ("network", text("testnet")),
                ("is_verified", Value::Bool(true)),
            ])]),
        ),
        ("count", Value::from(1)),
    ]);

    let json_str = serde_json::to_string_pretty(&data).unwrap();
    assert!(json_str.contains("\"contracts\""));
    assert!(json_str.contains("\"TestContract\""));
    assert!(json_str.contains("\"count\""));
    assert!(json_str.contains("1"));
}

#[test]
fn test_yaml_output_format() {
    let data = object(vec![(
        "contracts",
        Value::Array(vec![object(vec![
            ("id", text("test-id-1")),
            ("name", text("TestContract")),
            ("network", text("testnet")),
        ])]),
    )]);

    let yaml_str = serde_yaml::to_string(&data).unwrap();
    assert!(yaml_str.contains("contracts:"));
    assert!(yaml_str.contains("id:"));
    assert!(yaml_str.contains("TestContract"));
}

#[test]
fn test_json_schema_stability() {
    let data = object(vec![
        (
            "contracts",
            Value::Array(vec![object(vec![
                ("id", text("550e8400-e29b-41d4-a716-446655440000")),
                ("name", text("MyToken")),
                ("contract_id", text("CAAAAAAAAAAAAAAAAAAAAAAAAAAAAAAAAAAAAAAAAAAAAAAAAAAABSC4")),
                ("network", text("testnet")),
                ("category", text("defi")),
                ("is_verified", Value::Bool(true)),
                ("health_score", Value::from(95)),
                ("created_at", text("2024-01-15T10:30:00Z")),
                ("tags", Value::Array(vec![text("token"), text("erc20")])),
            ])]),
        ),
        ("count", Value::from(1)),
    ]);

    let json_str = serde_json::to_string_pretty(&data).unwrap();

    assert!(json_str.contains("\"id\""));
    assert!(json_str.contains("\"name\""));
    assert!(json_str.contains("\"contract_id\""));
    assert!(json_str.contains("\"network\""));
    assert!(json_str.contains("\"category\""));
    assert!(json_str.contains("\"is_verified\""));
    assert!(json_str.contains("\"health_score\""));
    assert!(json_str.contains("\"created_at\""));
    assert!(json_str.contains("\"tags\""));
    assert!(json_str.contains("\"count\""));
}

#[test]
fn test_empty_array_handling() {
    let empty_data = Value::Array(vec![]);
    let json_str = serde_json::to_string_pretty(&empty_data).unwrap();
    assert_eq!(json_str.trim(), "[]");
}

#[test]
fn test_null_values_handling() {
    let data_with_nulls = object(vec![
        ("name", text("Test")),
        ("description", Value::Null),
        ("category", Value::Null),
    ]);

    let json_str = serde_json::to_string_pretty(&data_with_nulls).unwrap();
    assert!(json_str.contains("null"));
}
