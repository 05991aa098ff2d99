use soroban_registry::cli::output_format::{
    csv_escape_value, format_from_lowercase, format_from_lowercase_path, infer_format_from_extension,
    render_csv, render_json, render_yaml, validate_format, OutputFormat,
};
use soroban_registry::json::JsonValue;

fn s(text: &str) -> JsonValue {
    JsonValue::String(text.to_string())
}

fn n(value: i64) -> JsonValue {
    JsonValue::Number(serde_json::Number::from(value).to_string())
}

fn obj(entries: Vec<(&str, JsonValue)>) -> JsonValue {
    JsonValue::Object(entries.into_iter().map(|(k, v)| (k.to_string(), v)).collect())
}

#[test]
fn test_format_parsing() {
    assert_eq!("table".parse::<OutputFormat>().unwrap(), OutputFormat::Table);
    assert_eq!("json".parse::<OutputFormat>().unwrap(), OutputFormat::Json);
    assert_eq!("csv".parse::<OutputFormat>().unwrap(), OutputFormat::Csv);
    assert_eq!("yaml".parse::<OutputFormat>().unwrap(), OutputFormat::Yaml);
    assert_eq!("yml".parse::<OutputFormat>().unwrap(), OutputFormat::Yaml);
    assert!("invalid".parse::<OutputFormat>().is_err());
}

#[test]
fn output_format_test_format_case_insensitive() {
    assert_eq!("TABLE".parse::<OutputFormat>().unwrap(), OutputFormat::Table);
    assert_eq!("JSON".parse::<OutputFormat>().unwrap(), OutputFormat::Json);
    assert_eq!("CSV".parse::<OutputFormat>().unwrap(), OutputFormat::Csv);
    assert_eq!("YAML".parse::<OutputFormat>().unwrap(), OutputFormat::Yaml);
}

#[test]
fn test_infer_format_from_extension() {
    assert_eq!(infer_format_from_extension("data.json"), Some(OutputFormat::Json));
    assert_eq!(infer_format_from_extension("data.csv"), Some(OutputFormat::Csv));
    assert_eq!(infer_format_from_extension("data.yaml"), Some(OutputFormat::Yaml));
    assert_eq!(infer_format_from_extension("data.yml"), Some(OutputFormat::Yaml));
    assert_eq!(infer_format_from_extension("data.txt"), Some(OutputFormat::Table));
    assert_eq!(infer_format_from_extension("data.unknown"), None);
}

#[test]
fn test_validate_format() {
    assert!(validate_format("json").is_ok());
    assert!(validate_format("csv").is_ok());
    assert!(validate_format("yaml").is_ok());
    assert!(validate_format("table").is_ok());
    assert!(validate_format("invalid").is_err());
}

#[test]
fn test_render_csv_basic() {
    // serde_json's map keeps keys in ascending order, so "age" comes first.
    let data = JsonValue::Array(vec![
        obj(vec![("age", n(30)), ("name", s("Alice"))]),
        obj(vec![("age", n(25)), ("name", s("Bob"))]),
    ]);
    let result = render_csv(&data).unwrap();
    let lines: Vec<&str> = result.lines().collect();
    assert_eq!(lines.len(), 3); // header + 2 rows
    assert!(lines[0].contains("name") || lines[0].contains("age"));
}

#[test]
fn test_render_csv_with_special_chars() {
    let data = JsonValue::Array(vec![obj(vec![
        ("description", s("Has \"quotes\"")),
        ("name", s("Alice, Bob")),
    ])]);
    let result = render_csv(&data).unwrap();
    assert!(result.contains("\"Alice, Bob\""));
    assert!(result.contains("\"Has \"\"quotes\"\"\""));
}

#[test]
fn test_csv_escape_value_string_with_comma() {
    let value = s("hello, world");
    let result = csv_escape_value(&value);
    assert_eq!(result, "\"hello, world\"");
}

#[test]
fn test_csv_escape_value_string_with_quotes() {
    let value = s("say \"hello\"");
    let result = csv_escape_value(&value);
    assert_eq!(result, "\"say \"\"hello\"\"\"");
}

#[test]
fn test_csv_escape_value_number() {
    let value = n(42);
    let result = csv_escape_value(&value);
    assert_eq!(result, "42");
}

#[test]
fn test_csv_escape_value_bool() {
    let value = JsonValue::Bool(true);
    let result = csv_escape_value(&value);
    assert_eq!(result, "true");
}

#[test]
fn test_csv_escape_value_null() {
    let value = JsonValue::Null;
    let result = csv_escape_value(&value);
    assert_eq!(result, "");
}

#[test]
fn test_csv_escape_value_array() {
    let value = JsonValue::Array(vec![s("a"), s("b")]);
    let result = csv_escape_value(&value);
    assert_eq!(result, "\"a|b\"");
}

#[test]
fn test_format_display() {
    assert_eq!(OutputFormat::Table.to_string(), "table");
    assert_eq!(OutputFormat::Json.to_string(), "json");
    assert_eq!(OutputFormat::Csv.to_string(), "csv");
    assert_eq!(OutputFormat::Yaml.to_string(), "yaml");
}

#[test]
fn test_format_default() {
    assert_eq!(OutputFormat::default(), OutputFormat::Table);
}

#[test]
fn test_format_parsing_valid() {
    let formats = vec!["table", "json", "csv", "yaml", "yml"];
    for format in formats {
        assert!(format.parse::<OutputFormat>().is_ok(), "Format '{}' should be valid", format);
    }
}

#[test]
fn test_format_parsing_invalid() {
    let invalid_formats = vec!["invalid", "xml", "protobuf", "msgpack"];
    for format in invalid_formats {
        assert!(format.parse::<OutputFormat>().is_err(), "Format '{}' should be invalid", format);
    }
}

#[test]
fn output_format_tests_test_format_case_insensitive() {
    let formats = vec!["TABLE", "JSON", "CSV", "YAML", "YML"];
    for format in formats {
        assert!(
            format.parse::<OutputFormat>().is_ok(),
            "Format '{}' should be valid (case-insensitive)",
            format
        );
    }
}

#[test]
fn test_csv_output_format() {
    let csv_output = "id,name,network,is_verified\n\"test-id-1\",\"TestContract\",\"testnet\",true\n";
    assert!(csv_output.contains("id,name,network,is_verified"));
    assert!(csv_output.contains("test-id-1"));
    assert!(csv_output.contains("TestContract"));
}

#[test]
fn test_csv_special_characters() {
    let csv_with_comma = "\"Alice, Bob\",\"test\"";
    assert!(csv_with_comma.contains("\"Alice, Bob\""));

    let csv_with_quotes = "\"say \"\"hello\"\"\",\"test\"";
    assert!(csv_with_quotes.contains("\"\""));
}

// ---------------------------------------------------------------------------
// Further cases
// ---------------------------------------------------------------------------

#[test]
fn invalid_format_message_names_the_input() {
    assert_eq!(
        validate_format("Xml").unwrap_err(),
        "Invalid output format 'Xml'. Supported formats: table, json, csv, yaml"
    );
    assert_eq!("text".parse::<OutputFormat>().unwrap(), OutputFormat::Table);
    assert_eq!("TeXt".parse::<OutputFormat>().unwrap(), OutputFormat::Table);
}

#[test]
fn lowercase_name_lookup() {
    assert_eq!(format_from_lowercase("yml"), Some(OutputFormat::Yaml));
    assert_eq!(format_from_lowercase("YML"), None);
    assert_eq!(format_from_lowercase(""), None);
}

#[test]
fn extension_inference_edge_cases() {
    assert_eq!(infer_format_from_extension("REPORT.JSON"), Some(OutputFormat::Json));
    assert_eq!(infer_format_from_extension("out.table"), Some(OutputFormat::Table));
    assert_eq!(infer_format_from_extension("json"), None);
    assert_eq!(infer_format_from_extension(".csv"), Some(OutputFormat::Csv));
    assert_eq!(format_from_lowercase_path("a.YAML"), None);
    assert_eq!(format_from_lowercase_path("a.yaml"), Some(OutputFormat::Yaml));
}

#[test]
fn csv_escape_other_values() {
    assert_eq!(csv_escape_value(&JsonValue::Bool(false)), "false");
    // every string is quoted
    assert_eq!(csv_escape_value(&s("plain")), "\"plain\"");
    assert_eq!(csv_escape_value(&s("")), "\"\"");
    assert_eq!(csv_escape_value(&s("two\nlines")), "\"two\nlines\"");
    assert_eq!(csv_escape_value(&JsonValue::Number("-2.5".to_string())), "-2.5");
    // array items that are not strings are written as compact JSON; quotes in the
    // joined items are doubled
    let mixed = JsonValue::Array(vec![n(1), JsonValue::Null, s("x\"y"), JsonValue::Bool(true)]);
    assert_eq!(csv_escape_value(&mixed), "\"1|null|x\"\"y|true\"");
    assert_eq!(csv_escape_value(&JsonValue::Array(vec![s("a\"b")])), "\"a\"\"b\"");
    let inner = JsonValue::Array(vec![obj(vec![("k", s("v"))])]);
    assert_eq!(csv_escape_value(&inner), "\"{\"\"k\"\":\"\"v\"\"}\"");
    assert_eq!(csv_escape_value(&JsonValue::Array(vec![])), "\"\"");
    // nested objects are written as compact JSON with quotes doubled
    let nested = obj(vec![("a", n(1)), ("b", s("q\"t"))]);
    assert_eq!(csv_escape_value(&nested), "\"{\"\"a\"\":1,\"\"b\"\":\"\"q\\\"\"t\"\"}\"");
}

#[test]
fn render_csv_errors_and_empty() {
    let msg = "CSV format requires an array of objects";
    assert_eq!(render_csv(&obj(vec![("a", n(1))])).unwrap_err(), msg);
    assert_eq!(render_csv(&JsonValue::Array(vec![n(1)])).unwrap_err(), msg);
    assert_eq!(
        render_csv(&JsonValue::Array(vec![obj(vec![("a", n(1))]), n(2)])).unwrap_err(),
        msg
    );
    assert_eq!(render_csv(&JsonValue::Array(vec![])).unwrap(), "");
}

#[test]
fn render_csv_exact_text() {
    let data = JsonValue::Array(vec![
        obj(vec![("id", s("x-1")), ("ok", JsonValue::Bool(true)), ("tags", JsonValue::Array(vec![s("a"), s("b")]))]),
        obj(vec![("id", s("y,2")), ("tags", JsonValue::Null)]),
    ]);
    assert_eq!(render_csv(&data).unwrap(), "id,ok,tags\n\"x-1\",true,\"a|b\"\n\"y,2\",,\n");
}

#[test]
fn test_render_json() {
    let data = obj(vec![("name", s("test")), ("value", n(42))]);
    let result = render_json(&data).unwrap();
    assert!(result.contains("\"name\""));
    assert!(result.contains("\"test\""));
    assert!(result.contains("\"value\""));
    assert!(result.contains("42"));
}

#[test]
fn test_render_yaml() {
    let data = obj(vec![("name", s("test")), ("value", n(42))]);
    let result = render_yaml(&data).unwrap();
    assert!(result.contains("name:"));
    assert!(result.contains("test"));
    assert!(result.contains("value:"));
    assert!(result.contains("42"));
}

#[test]
fn render_json_is_pretty_serde_json() {
    let data = obj(vec![("a", JsonValue::Array(vec![n(1), s("x")])), ("b", JsonValue::Null)]);
    assert_eq!(render_json(&data).unwrap(), "{\n  \"a\": [\n    1,\n    \"x\"\n  ],\n  \"b\": null\n}");
    assert_eq!(render_json(&JsonValue::Array(vec![])).unwrap(), "[]");
}

#[test]
fn render_yaml_exact_text() {
    let data = obj(vec![("name", s("test")), ("value", n(42))]);
    assert_eq!(render_yaml(&data).unwrap(), "name: test\nvalue: 42\n");
}

#[test]
fn csv_row_quotes_strings_and_joined_tags() {
    let data = JsonValue::Array(vec![obj(vec![
        ("health_score", n(95)),
        ("is_verified", JsonValue::Bool(true)),
        ("name", s("MyToken")),
        ("network", s("testnet")),
        ("tags", JsonValue::Array(vec![s("token"), s("erc20")])),
    ])]);
    let result = render_csv(&data).unwrap();
    assert_eq!(
        result,
        "health_score,is_verified,name,network,tags\n95,true,\"MyToken\",\"testnet\",\"token|erc20\"\n"
    );
}

#[test]
fn format_names_parse_in_any_case() {
    for f in [OutputFormat::Table, OutputFormat::Json, OutputFormat::Csv, OutputFormat::Yaml] {
        assert_eq!(f.to_string().parse::<OutputFormat>(), Ok(f));
        assert_eq!(f.to_string().to_uppercase().parse::<OutputFormat>(), Ok(f));
    }
    assert_eq!("JsOn".parse::<OutputFormat>(), Ok(OutputFormat::Json));
}

#[test]
fn number_fields_stay_bare() {
    for text in ["0", "-12", "3.25", "1e+20", "-7.5E-3"] {
        assert_eq!(csv_escape_value(&JsonValue::Number(text.to_string())), text);
    }
}
