//! The JSON emitter: byte-for-byte agreement with serde_json's pretty
//! printer on the value shapes a configuration can hold, escaping
//! included.

use brave_debloater::config::{Config, ConfigValue};
use brave_debloater::json::to_pretty_string;

fn serde_pretty(entries: &[(&str, serde_json::Value)]) -> String {
    let mut map = serde_json::Map::new();
    for (k, v) in entries {
        map.insert(k.to_string(), v.clone());
    }
    serde_json::to_string_pretty(&serde_json::Value::Object(map)).unwrap()
}

#[test]
fn empty_object() {
    let config = Config::new();
    assert_eq!(to_pretty_string(&config), "{}");
}

#[test]
fn scalar_values_match_serde_json() {
    let mut config = Config::new();
    config.insert("a".to_string(), ConfigValue::Bool(true));
    config.insert("b".to_string(), ConfigValue::Bool(false));
    config.insert("c".to_string(), ConfigValue::Integer(0));
    config.insert("d".to_string(), ConfigValue::Integer(-2147483648));
    config.insert("e".to_string(), ConfigValue::Text("plain".to_string()));
    let expected = serde_pretty(&[
        ("a", serde_json::Value::Bool(true)),
        ("b", serde_json::Value::Bool(false)),
        ("c", serde_json::Value::from(0)),
        ("d", serde_json::Value::from(-2147483648i64)),
        ("e", serde_json::Value::String("plain".to_string())),
    ]);
    assert_eq!(to_pretty_string(&config), expected);
}

#[test]
fn arrays_match_serde_json() {
    let mut config = Config::new();
    config.insert("empty".to_string(), ConfigValue::TextList(vec![]));
    config.insert(
        "two".to_string(),
        ConfigValue::TextList(vec!["x".to_string(), "y".to_string()]),
    );
    let expected = serde_pretty(&[
        ("empty", serde_json::Value::Array(vec![])),
        (
            "two",
            serde_json::Value::Array(vec![
                serde_json::Value::String("x".to_string()),
                serde_json::Value::String("y".to_string()),
            ]),
        ),
    ]);
    assert_eq!(to_pretty_string(&config), expected);
}

#[test]
fn string_escaping_matches_serde_json() {
    let tricky = "quote\" backslash\\ newline\n tab\t return\r bell\u{07} unit\u{1f} high\u{e9}\u{4e2d}";
    let odd_key = format!("key with \"quotes\" and \\ {}", '\u{01}');
    let mut config = Config::new();
    config.insert("k".to_string(), ConfigValue::Text(tricky.to_string()));
    config.insert(odd_key.clone(), ConfigValue::Bool(true));
    let expected = serde_pretty(&[
        ("k", serde_json::Value::String(tricky.to_string())),
        (odd_key.as_str(), serde_json::Value::Bool(true)),
    ]);
    assert_eq!(to_pretty_string(&config), expected);
}

#[test]
fn insert_replaces_in_place() {
    let mut config = Config::new();
    config.insert("first".to_string(), ConfigValue::Integer(1));
    config.insert("second".to_string(), ConfigValue::Integer(2));
    config.insert("first".to_string(), ConfigValue::Integer(3));
    let expected = serde_pretty(&[
        ("first", serde_json::Value::from(3)),
        ("second", serde_json::Value::from(2)),
    ]);
    assert_eq!(to_pretty_string(&config), expected);
}
