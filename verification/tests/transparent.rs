use serde_evolve::product::{
    deserialize_product, serialize_product, Product, ProductWireError,
};
use serde_evolve::user::{deserialize_user, serialize_user, User};
use serde_evolve::wire::{DecodeError, WireField, WireObject, WireValue};

fn value_to_wire(v: &serde_json::Value) -> WireValue {
    if v.is_null() {
        WireValue::Null
    } else if let Some(b) = v.as_bool() {
        WireValue::Bool(b)
    } else if let serde_json::Value::Number(n) = v {
        WireValue::Num(n.to_string())
    } else if let Some(s) = v.as_str() {
        WireValue::Str(s.to_string())
    } else {
        panic!("nested values are not part of the flat wire format")
    }
}

fn json_to_wire(s: &str) -> WireObject {
    let v: serde_json::Value = serde_json::from_str(s).unwrap();
    let obj = v.as_object().unwrap();
    let mut fields = Vec::new();
    for (k, val) in obj {
        fields.push(WireField {
            key: k.clone(),
            value: value_to_wire(val),
        });
    }
    WireObject { fields }
}

fn wire_to_json(w: &WireObject) -> String {
    let mut map = serde_json::Map::new();
    for f in &w.fields {
        let v = match &f.value {
            WireValue::Null => serde_json::Value::Null,
            WireValue::Bool(b) => serde_json::Value::Bool(*b),
            WireValue::Num(t) => {
                serde_json::Value::Number(t.parse::<serde_json::Number>().unwrap())
            }
            WireValue::Str(s) => serde_json::Value::String(s.clone()),
        };
        map.insert(f.key.clone(), v);
    }
    serde_json::to_string(&serde_json::Value::Object(map)).unwrap()
}

#[test]
fn test_transparent_deserialize_v1() {
    let json_v1 = r#"{"_version":"1","name":"Alice"}"#;

    // With transparent mode, we can deserialize directly to User
    let user: User = deserialize_user(&json_to_wire(json_v1)).unwrap();

    assert_eq!(user.full_name, "Alice");
    assert_eq!(user.email, None);
}

#[test]
fn test_transparent_deserialize_v2() {
    let json_v2 = r#"{"_version":"2","full_name":"Bob","email":"bob@example.com"}"#;

    // With transparent mode, we can deserialize directly to User
    let user: User = deserialize_user(&json_to_wire(json_v2)).unwrap();

    assert_eq!(user.full_name, "Bob");
    assert_eq!(user.email, Some("bob@example.com".to_string()));
}

#[test]
fn test_transparent_serialize() {
    let user = User {
        full_name: "Charlie".to_string(),
        email: Some("charlie@example.com".to_string()),
    };

    // With transparent mode, we can serialize directly from User
    let json = wire_to_json(&serialize_user(&user));

    // Should serialize as V2 (current version)
    let parsed: serde_json::Value = serde_json::from_str(&json).unwrap();
    assert_eq!(parsed["_version"], "2");
    assert_eq!(parsed["full_name"], "Charlie");
    assert_eq!(parsed["email"], "charlie@example.com");
}

#[test]
fn test_transparent_round_trip() {
    let original = User {
        full_name: "Dave".to_string(),
        email: Some("dave@example.com".to_string()),
    };

    // Serialize
    let json = wire_to_json(&serialize_user(&original));

    // Deserialize
    let deserialized: User = deserialize_user(&json_to_wire(&json)).unwrap();

    assert_eq!(original, deserialized);
}

#[test]
fn test_transparent_fallible_deserialize_v1() {
    let json_v1 = r#"{"_version":"1","name":"Widget","price":19.99}"#;

    // With transparent mode, we can deserialize directly to Product
    let product: Product = deserialize_product(&json_to_wire(json_v1)).unwrap();

    assert_eq!(product.name, "Widget");
    assert_eq!(product.price_cents, 1999);
}

#[test]
fn test_transparent_fallible_deserialize_v2() {
    let json_v2 = r#"{"_version":"2","name":"Gadget","price_cents":2500}"#;

    // With transparent mode, we can deserialize directly to Product
    let product: Product = deserialize_product(&json_to_wire(json_v2)).unwrap();

    assert_eq!(product.name, "Gadget");
    assert_eq!(product.price_cents, 2500);
}

#[test]
fn test_transparent_fallible_serialize() {
    let product = Product {
        name: "Thingamajig".to_string(),
        price_cents: 2499,
    };

    // With transparent mode, we can serialize directly from Product
    let json = wire_to_json(&serialize_product(&product));

    // Should serialize as V2 (current version)
    let parsed: serde_json::Value = serde_json::from_str(&json).unwrap();
    assert_eq!(parsed["_version"], "2");
    assert_eq!(parsed["name"], "Thingamajig");
    assert_eq!(parsed["price_cents"], 2499);
}

#[test]
fn test_transparent_fallible_round_trip() {
    let original = Product {
        name: "Doohickey".to_string(),
        price_cents: 1999,
    };

    // Serialize
    let json = wire_to_json(&serialize_product(&original));

    // Deserialize
    let deserialized: Product = deserialize_product(&json_to_wire(&json)).unwrap();

    assert_eq!(original, deserialized);
}

#[test]
fn test_transparent_fallible_migration_error() {
    // Invalid data that should fail migration
    let json_invalid = r#"{"_version":"1","name":"Invalid","price":null}"#;

    // A null price is no number: the failure comes on the codec's one
    // uniform error channel
    let result: Result<Product, _> = deserialize_product(&json_to_wire(json_invalid));

    assert!(result.is_err());
    let err = result.unwrap_err();
    assert!(matches!(
        err,
        ProductWireError::Decode(DecodeError::WrongFieldKind)
    ));
}
