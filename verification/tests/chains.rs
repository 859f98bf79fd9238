use serde_evolve::envelope::Envelope2;
use serde_evolve::product::{deserialize_product, ProductError, ProductWireError};
use serde_evolve::simple::{decode_mytype, MyType};
use serde_evolve::item::{
    derive_sku, item_from_domain, item_to_domain, Item, ItemError, ItemV1, ItemV2, ItemVersions,
};
use serde_evolve::numeric::{format_i64, format_u64, parse_cents, parse_i64, parse_u32};
use serde_evolve::profile::{profile_v1_to_v2, ProfileError, ProfileV1};
use serde_evolve::user::{decode_user, encode_user, User, UserVersions, V1, V2};
use serde_evolve::wire::{DecodeError, WireField, WireObject, WireValue};

fn wire(fields: Vec<(&str, WireValue)>) -> WireObject {
    let mut out = Vec::new();
    for (k, v) in fields {
        out.push(WireField {
            key: k.to_string(),
            value: v,
        });
    }
    WireObject { fields: out }
}

#[test]
fn item_migrates_price_and_derives_sku() {
    let env = ItemVersions::V1(ItemV1 {
        name: "Widget Mk2".to_string(),
        price: "19.99".to_string(),
    });
    let item = item_to_domain(env).unwrap();
    assert_eq!(item.price_cents, 1999);
    assert_eq!(item.sku, "WidgetMk2");
    assert_eq!(item.name, "Widget Mk2");
}

#[test]
fn item_chain_halts_at_negative_cents() {
    let env = ItemVersions::V2(ItemV2 {
        name: "Gadget".to_string(),
        price_cents: -500,
    });
    assert_eq!(item_to_domain(env), Err(ItemError::NegativePrice));
}

#[test]
fn item_rejects_unparseable_price() {
    let env = ItemVersions::V1(ItemV1 {
        name: "Gadget".to_string(),
        price: "free".to_string(),
    });
    assert_eq!(item_to_domain(env), Err(ItemError::InvalidPrice));
}

#[test]
fn item_requires_sku_characters() {
    let env = ItemVersions::V2(ItemV2 {
        name: "***".to_string(),
        price_cents: 100,
    });
    assert_eq!(item_to_domain(env), Err(ItemError::NoSkuChars));
}

#[test]
fn item_round_trip_restores_domain_value() {
    let original = Item {
        name: "Widget Mk2".to_string(),
        price_cents: 1999,
        sku: "WidgetMk2".to_string(),
    };
    let env = item_from_domain(&original);
    assert!(env.is_current());
    assert_eq!(env.version(), 3);
    assert_eq!(item_to_domain(env), Ok(original));
}

#[test]
fn sku_keeps_only_ascii_alphanumerics() {
    assert_eq!(derive_sku("Widget Mk2"), "WidgetMk2");
    assert_eq!(derive_sku("  a-b_c9  "), "abc9");
    assert_eq!(derive_sku("***"), "");
    assert_eq!(derive_sku(""), "");
}

#[test]
fn unknown_version_tag_fails_at_decode() {
    let w = wire(vec![
        ("_version", WireValue::Str("3".to_string())),
        ("name", WireValue::Str("Eve".to_string())),
    ]);
    assert_eq!(decode_user(&w), Err(DecodeError::UnknownVersion(3)));

    let w0 = wire(vec![
        ("_version", WireValue::Str("0".to_string())),
        ("name", WireValue::Str("Eve".to_string())),
    ]);
    assert_eq!(decode_user(&w0), Err(DecodeError::UnknownVersion(0)));
}

#[test]
fn missing_or_malformed_version_tag_fails_at_decode() {
    let no_tag = wire(vec![("name", WireValue::Str("Eve".to_string()))]);
    assert_eq!(decode_user(&no_tag), Err(DecodeError::MissingVersion));

    let numeric_tag = wire(vec![
        ("_version", WireValue::Num("1".to_string())),
        ("name", WireValue::Str("Eve".to_string())),
    ]);
    assert_eq!(decode_user(&numeric_tag), Err(DecodeError::MalformedVersion));

    let word_tag = wire(vec![
        ("_version", WireValue::Str("one".to_string())),
        ("name", WireValue::Str("Eve".to_string())),
    ]);
    assert_eq!(decode_user(&word_tag), Err(DecodeError::MalformedVersion));
}

#[test]
fn missing_required_field_fails_at_decode() {
    let w = wire(vec![("_version", WireValue::Str("1".to_string()))]);
    assert_eq!(decode_user(&w), Err(DecodeError::MissingField));

    let wrong_kind = wire(vec![
        ("_version", WireValue::Str("1".to_string())),
        ("name", WireValue::Bool(true)),
    ]);
    assert_eq!(decode_user(&wrong_kind), Err(DecodeError::WrongFieldKind));
}

#[test]
fn from_domain_always_writes_the_current_version() {
    let user = User {
        full_name: "Frida".to_string(),
        email: None,
    };
    let env = UserVersions::from_domain(&user);
    assert!(env.is_current());
    assert_eq!(env.version(), UserVersions::CURRENT);
}

#[test]
fn wire_record_of_an_envelope_decodes_back_to_it() {
    let env = UserVersions::V2(V2 {
        full_name: "Grace".to_string(),
        email: Some("grace@example.com".to_string()),
    });
    let w = encode_user(&env);
    assert_eq!(decode_user(&w), Ok(env));

    let env1 = UserVersions::V1(V1 {
        name: "Hedy".to_string(),
    });
    let w1 = encode_user(&env1);
    assert_eq!(decode_user(&w1), Ok(env1));
}

#[test]
fn historical_variant_converts_through_every_edge() {
    let env = UserVersions::V1(V1 {
        name: "Ada".to_string(),
    });
    assert_eq!(env.version(), 1);
    assert!(!env.is_current());
    let user: User = env.into_domain();
    // manually composed: V1 -> V2 sets email to None, V2 -> User copies
    let by_hand = Envelope2::<V1, V2>::V2(V2 {
        full_name: "Ada".to_string(),
        email: None,
    });
    let user_by_hand: User = by_hand.into_domain();
    assert_eq!(user, user_by_hand);
    assert_eq!(user.full_name, "Ada");
    assert_eq!(user.email, None);
}

#[test]
fn profile_split_takes_the_first_space() {
    let v2 = profile_v1_to_v2(ProfileV1 {
        display_name: "Ada Lovelace King".to_string(),
    })
    .unwrap();
    assert_eq!(v2.given_name, "Ada");
    assert_eq!(v2.family_name, "Lovelace King");

    let err = profile_v1_to_v2(ProfileV1 {
        display_name: "Ada".to_string(),
    })
    .unwrap_err();
    assert_eq!(err, ProfileError::MissingFamilyName);

    let empty = profile_v1_to_v2(ProfileV1 {
        display_name: String::new(),
    })
    .unwrap_err();
    assert_eq!(empty, ProfileError::MissingFamilyName);
}

#[test]
fn cents_parsing_is_exact() {
    assert_eq!(parse_cents("19.99"), Some(1999));
    assert_eq!(parse_cents("0.5"), Some(50));
    assert_eq!(parse_cents("10"), Some(1000));
    assert_eq!(parse_cents("-19.99"), Some(-1999));
    assert_eq!(parse_cents("1.234"), None);
    assert_eq!(parse_cents("."), None);
    assert_eq!(parse_cents(""), None);
    assert_eq!(parse_cents("free"), None);
    assert_eq!(parse_cents("92233720368547758.07"), Some(i64::MAX));
    assert_eq!(parse_cents("92233720368547758.08"), None);
    assert_eq!(parse_cents("-92233720368547758.08"), Some(i64::MIN));
}

#[test]
fn decimal_text_round_trips_through_format_and_parse() {
    assert_eq!(format_u64(0), "0");
    assert_eq!(format_u64(1999), "1999");
    assert_eq!(format_i64(-42), "-42");
    assert_eq!(format_i64(i64::MIN), "-9223372036854775808");
    assert_eq!(parse_i64(&format_i64(-123456789)), Some(-123456789));
    assert_eq!(parse_u32("4294967295"), Some(u32::MAX));
    assert_eq!(parse_u32("4294967296"), None);
    assert_eq!(parse_i64("007"), Some(7));
    assert_eq!(parse_i64("-"), None);
}

#[test]
fn product_price_below_cent_precision_fails_migration() {
    let w = wire(vec![
        ("_version", WireValue::Str("1".to_string())),
        ("name", WireValue::Str("Odd".to_string())),
        ("price", WireValue::Num("1.234".to_string())),
    ]);
    assert_eq!(
        deserialize_product(&w),
        Err(ProductWireError::Migration(ProductError::InvalidPrice))
    );
}

#[test]
fn mytype_decodes_latest_version_with_integer_field() {
    let w = wire(vec![
        ("_version", WireValue::Str("2".to_string())),
        ("field", WireValue::Str("kept".to_string())),
        ("new_field", WireValue::Num("-7".to_string())),
    ]);
    let env = decode_mytype(&w).unwrap();
    assert_eq!(env.version(), 2);
    let t: MyType = env.into_domain();
    assert_eq!(t.field, "kept");
    assert_eq!(t.new_field, -7);
}

#[test]
fn first_field_wins_on_duplicate_keys() {
    let w = wire(vec![
        ("_version", WireValue::Str("1".to_string())),
        ("name", WireValue::Str("first".to_string())),
        ("name", WireValue::Str("second".to_string())),
    ]);
    let env = decode_user(&w).unwrap();
    let user: User = env.into_domain();
    assert_eq!(user.full_name, "first");
}
