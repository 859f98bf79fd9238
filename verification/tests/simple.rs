use serde_evolve::simple::{decode_mytype, MyType, MyTypeVersions};
use serde_evolve::wire::{WireField, WireObject, WireValue};

fn value_to_wire(v: &serde_json::Value) -> WireValue {
    if v.is_null() {
        WireValue::Null
    } else if let Some(b) = v.as_bool() {
        WireValue::Bool(b)
    } else if let serde_json::Value::Number(n) = v {
        WireValue::Num(n.to_string())
    } else if let Some(s) = v.as_str() {
        WireValue::Str(s.to_string())
    } else {
        panic!("nested values are not part of the flat wire format")
    }
}

fn json_to_wire(s: &str) -> WireObject {
    let v: serde_json::Value = serde_json::from_str(s).unwrap();
    let obj = v.as_object().unwrap();
    let mut fields = Vec::new();
    for (k, val) in obj {
        fields.push(WireField {
            key: k.clone(),
            value: value_to_wire(val),
        });
    }
    WireObject { fields }
}

#[test]
fn test_basic() {
    let json_v1 = r#"{"_version":"1","field":"test"}"#;
    let rep: MyTypeVersions = decode_mytype(&json_to_wire(json_v1)).unwrap();
    assert_eq!(rep.version(), 1);

    let my_type: MyType = rep.into_domain();
    assert_eq!(my_type.field, "test");
    assert_eq!(my_type.new_field, 0);
}
