use serde_evolve::account::{decode_account, encode_account, Account, AccountEnvelope};
use serde_evolve::person::{
    decode_person, deserialize_person, serialize_person, Person, PersonEnvelope, PersonError,
    PersonWireError,
};
use serde_evolve::profile::{
    decode_profile, encode_profile, profile_to_domain, Profile, ProfileVersions,
};
use serde_evolve::wire::{WireField, WireObject, WireValue};

fn value_to_wire(v: &serde_json::Value) -> WireValue {
    if v.is_null() {
        WireValue::Null
    } else if let Some(b) = v.as_bool() {
        WireValue::Bool(b)
    } else if let serde_json::Value::Number(n) = v {
        WireValue::Num(n.to_string())
    } else if let Some(s) = v.as_str() {
        WireValue::Str(s.to_string())
    } else {
        panic!("nested values are not part of the flat wire format")
    }
}

fn json_to_wire(s: &str) -> WireObject {
    let v: serde_json::Value = serde_json::from_str(s).unwrap();
    let obj = v.as_object().unwrap();
    let mut fields = Vec::new();
    for (k, val) in obj {
        fields.push(WireField {
            key: k.clone(),
            value: value_to_wire(val),
        });
    }
    WireObject { fields }
}

fn wire_to_json(w: &WireObject) -> String {
    let mut map = serde_json::Map::new();
    for f in &w.fields {
        let v = match &f.value {
            WireValue::Null => serde_json::Value::Null,
            WireValue::Bool(b) => serde_json::Value::Bool(*b),
            WireValue::Num(t) => {
                serde_json::Value::Number(t.parse::<serde_json::Number>().unwrap())
            }
            WireValue::Str(s) => serde_json::Value::String(s.clone()),
        };
        map.insert(f.key.clone(), v);
    }
    serde_json::to_string(&serde_json::Value::Object(map)).unwrap()
}

#[test]
fn renamed_representation_supports_round_trip() {
    let json_v1 = r#"{"_version":"1","username":"trinity"}"#;
    let rep: AccountEnvelope = decode_account(&json_to_wire(json_v1)).unwrap();
    assert_eq!(rep.version(), 1);

    let account: Account = rep.into_domain();
    assert_eq!(account.username, "trinity");
    assert!(account.is_active);

    let rep_latest = AccountEnvelope::from_domain(&account);
    assert!(rep_latest.is_current());
    assert_eq!(AccountEnvelope::CURRENT, 2);

    let json = wire_to_json(&encode_account(&rep_latest));
    let rep_round: AccountEnvelope = decode_account(&json_to_wire(&json)).unwrap();
    let account_round: Account = rep_round.into_domain();
    assert_eq!(account_round, account);
}

#[test]
fn multi_version_chain_supports_conversions() {
    let json_v1 = r#"{"_version":"1","display_name":"Ada Lovelace"}"#;
    let rep_v1: ProfileVersions = decode_profile(&json_to_wire(json_v1)).unwrap();
    let profile_from_v1 = profile_to_domain(rep_v1).unwrap();
    assert_eq!(profile_from_v1.given_name, "Ada");
    assert_eq!(profile_from_v1.family_name, "Lovelace");
    assert_eq!(profile_from_v1.preferred, None);

    let json_v2 = r#"{"_version":"2","given_name":"Grace","family_name":"Hopper"}"#;
    let rep_v2: ProfileVersions = decode_profile(&json_to_wire(json_v2)).unwrap();
    let profile_from_v2 = profile_to_domain(rep_v2).unwrap();
    assert_eq!(profile_from_v2.given_name, "Grace");
    assert_eq!(profile_from_v2.family_name, "Hopper");

    let original = Profile {
        given_name: "Katherine".to_string(),
        family_name: "Johnson".to_string(),
        preferred: Some("Kat".to_string()),
    };
    let rep_latest = ProfileVersions::from_domain(&original);
    assert!(rep_latest.is_current());
    assert_eq!(ProfileVersions::CURRENT, 3);

    let json = wire_to_json(&encode_profile(&rep_latest));
    let rep_round: ProfileVersions = decode_profile(&json_to_wire(&json)).unwrap();
    let profile_round = profile_to_domain(rep_round).unwrap();
    assert_eq!(profile_round, original);
}

#[test]
fn transparent_mode_handles_round_trip_and_errors() {
    let json_v1 = r#"{"_version":"1","name":"Iris","age":"29"}"#;
    let person: Person = deserialize_person(&json_to_wire(json_v1)).unwrap();
    assert_eq!(person.name, "Iris");
    assert_eq!(person.age, 29);
    assert!(!person.verified);

    let json_v2 = r#"{"_version":"2","name":"Nia","age":31,"verified":true}"#;
    let rep_v2: PersonEnvelope = decode_person(&json_to_wire(json_v2)).unwrap();
    let person_from_v2: Person = rep_v2.try_into_domain().unwrap();
    assert!(person_from_v2.verified);
    assert_eq!(person_from_v2.age, 31);

    let rep_latest = PersonEnvelope::from_domain(&person);
    assert!(rep_latest.is_current());

    let json = wire_to_json(&serialize_person(&person));
    let parsed: serde_json::Value = serde_json::from_str(&json).unwrap();
    assert_eq!(parsed["_version"], "2");
    assert_eq!(parsed["name"], "Iris");

    let round_trip: Person = deserialize_person(&json_to_wire(&json)).unwrap();
    assert_eq!(round_trip, person);

    let rep_round: PersonEnvelope = decode_person(&json_to_wire(&json)).unwrap();
    let domain_round: Person = rep_round.try_into_domain().unwrap();
    assert_eq!(domain_round, person);

    let invalid = r#"{"_version":"1","name":"Iris","age":"not-a-number"}"#;
    let err = deserialize_person(&json_to_wire(invalid)).unwrap_err();
    assert!(matches!(
        err,
        PersonWireError::Migration(PersonError::InvalidAge)
    ));
}
