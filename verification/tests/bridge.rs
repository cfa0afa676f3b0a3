//! The value bridge: engine values to the JSON model, and output text.

use tool_orchestrator::dynamic_to_json;
use tool_orchestrator::value::render_output;
use tool_orchestrator::value::script_to_json;
use tool_orchestrator::JsonValue;
use tool_orchestrator::ScriptValue;

use rhai::Dynamic;

#[test]
fn test_dynamic_to_json_types() {
    let d = Dynamic::from("hello".to_string());
    let j = dynamic_to_json(&d);
    assert_eq!(j, serde_json::Value::String("hello".to_string()));

    let d = Dynamic::from(42_i64);
    let j = dynamic_to_json(&d);
    assert_eq!(j, serde_json::Value::Number(serde_json::Number::from(42)));

    let d = Dynamic::from(3.14_f64);
    let j = dynamic_to_json(&d);
    assert!(j.as_f64().unwrap() - 3.14 < 0.001);

    let d = Dynamic::from(true);
    let j = dynamic_to_json(&d);
    assert_eq!(j, serde_json::Value::Bool(true));

    let d = Dynamic::UNIT;
    let j = dynamic_to_json(&d);
    assert_eq!(j, serde_json::Value::Null);
}

#[test]
fn test_dynamic_to_json_array() {
    let arr: Vec<Dynamic> = vec![
        Dynamic::from(1_i64),
        Dynamic::from(2_i64),
        Dynamic::from(3_i64),
    ];
    let d = Dynamic::from(arr);
    let j = dynamic_to_json(&d);

    let expected = serde_json::Value::Array(vec![
        serde_json::Value::Number(serde_json::Number::from(1)),
        serde_json::Value::Number(serde_json::Number::from(2)),
        serde_json::Value::Number(serde_json::Number::from(3)),
    ]);
    assert_eq!(j, expected);
}

#[test]
fn test_dynamic_to_json_map() {
    let mut map = rhai::Map::new();
    map.insert("key".into(), Dynamic::from("value".to_string()));
    map.insert("num".into(), Dynamic::from(42_i64));
    let d = Dynamic::from(map);
    let j = dynamic_to_json(&d);

    assert!(j.is_object());
    let obj = j.as_object().unwrap();
    assert_eq!(
        obj.get("key").unwrap(),
        &serde_json::Value::String("value".to_string())
    );
    assert_eq!(
        obj.get("num").unwrap(),
        &serde_json::Value::Number(serde_json::Number::from(42))
    );
}

#[test]
fn test_dynamic_to_json_fallback() {
    #[derive(Clone)]
    struct CustomType {
        #[allow(dead_code)]
        value: i32,
    }

    let custom = CustomType { value: 42 };
    let d = Dynamic::from(custom);
    let j = dynamic_to_json(&d);

    assert!(j.is_string());
    let s = j.as_str().unwrap();
    assert!(!s.is_empty());
}

#[test]
fn test_script_to_json_scalars() {
    let j = script_to_json(&ScriptValue::Str("abc".to_string()));
    assert!(matches!(j, JsonValue::Str(s) if s == "abc"));

    let j = script_to_json(&ScriptValue::Int(-7));
    assert!(matches!(j, JsonValue::Int(-7)));

    let j = script_to_json(&ScriptValue::Float("2.5".to_string()));
    assert!(matches!(j, JsonValue::Float(t) if t == "2.5"));

    let j = script_to_json(&ScriptValue::Bool(false));
    assert!(matches!(j, JsonValue::Bool(false)));

    let j = script_to_json(&ScriptValue::Unit);
    assert!(matches!(j, JsonValue::Null));

    let j = script_to_json(&ScriptValue::Other("opaque".to_string()));
    assert!(matches!(j, JsonValue::Str(s) if s == "opaque"));
}

#[test]
fn test_script_to_json_nested() {
    let v = ScriptValue::Array(vec![
        ScriptValue::Int(1),
        ScriptValue::Object(vec![("k".to_string(), ScriptValue::Bool(true))]),
    ]);
    let j = script_to_json(&v);
    match j {
        JsonValue::Array(items) => {
            assert_eq!(items.len(), 2);
            assert!(matches!(items[0], JsonValue::Int(1)));
            match &items[1] {
                JsonValue::Object(entries) => {
                    assert_eq!(entries.len(), 1);
                    assert_eq!(entries[0].0, "k");
                    assert!(matches!(entries[0].1, JsonValue::Bool(true)));
                }
                other => panic!("expected object, got {:?}", other),
            }
        }
        other => panic!("expected array, got {:?}", other),
    }
}

#[test]
fn test_render_output_forms() {
    assert_eq!(
        render_output(&ScriptValue::Str("plain".to_string())),
        "plain"
    );
    assert_eq!(render_output(&ScriptValue::Unit), "");
    assert_eq!(render_output(&ScriptValue::Int(-42)), "-42");
    assert_eq!(render_output(&ScriptValue::Bool(true)), "true");
    assert_eq!(
        render_output(&ScriptValue::Array(vec![
            ScriptValue::Int(1),
            ScriptValue::Int(2),
            ScriptValue::Int(3),
        ])),
        "[1, 2, 3]"
    );
    assert_eq!(
        render_output(&ScriptValue::Object(vec![(
            "a".to_string(),
            ScriptValue::Str("x".to_string()),
        )])),
        "#{a: \"x\"}"
    );
}

#[test]
fn test_json_value_clone_is_deep() {
    let v = JsonValue::Array(vec![
        JsonValue::Str("s".to_string()),
        JsonValue::Object(vec![("n".to_string(), JsonValue::Int(5))]),
    ]);
    let c = v.clone();
    match (v, c) {
        (JsonValue::Array(a), JsonValue::Array(b)) => {
            assert_eq!(a.len(), b.len());
            assert!(matches!(&b[0], JsonValue::Str(s) if s == "s"));
        }
        _ => panic!("expected arrays"),
    }
}
