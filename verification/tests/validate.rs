use serde_evolve::config::{
    parse_input, validate, AttrError, ConfigError, MetaItem, Mode, ParsedInput, RawInput,
};

fn base_parsed_input() -> ParsedInput {
    ParsedInput {
        ident: "Example".to_string(),
        representation: None,
        mode: None,
        error: Some("ExampleError".to_string()),
        transparent: false,
        versions: vec!["Version1".to_string(), "Version2".to_string()],
    }
}

#[test]
fn infers_defaults_and_representation_name() {
    let parsed = base_parsed_input();
    let validated = validate(parsed).expect("validation should succeed");

    assert_eq!(validated.domain_ident, "Example");
    assert_eq!(validated.rep_ident, "ExampleVersions");
    assert!(matches!(validated.mode, Mode::Fallible { .. }));
    assert!(!validated.transparent);
    assert_eq!(validated.versions.len(), 2);
}

#[test]
fn errors_when_missing_error_in_fallible_mode() {
    let mut parsed = base_parsed_input();
    parsed.error = None;
    let err = validate(parsed).expect_err("validation should fail");
    assert_eq!(err.message(), "fallible mode requires 'error' attribute");
}

#[test]
fn errors_on_empty_version_chain() {
    let mut parsed = base_parsed_input();
    parsed.versions.clear();
    let err = validate(parsed).expect_err("validation should fail");
    assert_eq!(err.message(), "chain must contain at least one version type");
}

#[test]
fn parses_metadata_from_input() {
    let input = RawInput {
        ident: "Example".to_string(),
        rep: Some("CustomRep".to_string()),
        mode: Some("fallible".to_string()),
        error: Some("MyError".to_string()),
        transparent: Some(true),
        chain: vec![
            MetaItem::Path("Version1".to_string()),
            MetaItem::Path("Version2".to_string()),
        ],
    };

    let parsed = parse_input(input).expect("expected parse success");
    assert_eq!(parsed.ident, "Example");
    assert_eq!(parsed.representation, Some("CustomRep".to_string()));
    assert_eq!(parsed.mode.as_deref(), Some("fallible"));
    assert_eq!(parsed.error.unwrap(), "MyError");
    assert!(parsed.transparent);
    assert_eq!(parsed.versions.len(), 2);
}

#[test]
fn rejects_unrecognized_mode_keyword() {
    let mut parsed = base_parsed_input();
    parsed.mode = Some("sometimes".to_string());
    let err = validate(parsed).expect_err("validation should fail");
    assert_eq!(err, ConfigError::InvalidMode("sometimes".to_string()));
    assert_eq!(
        err.message(),
        "invalid mode 'sometimes', expected 'infallible' or 'fallible'"
    );
}

#[test]
fn accepts_infallible_mode_without_error_type() {
    let mut parsed = base_parsed_input();
    parsed.mode = Some("infallible".to_string());
    parsed.error = None;
    let validated = validate(parsed).expect("validation should succeed");
    assert_eq!(validated.mode, Mode::Infallible);
}

#[test]
fn keeps_custom_representation_name() {
    let mut parsed = base_parsed_input();
    parsed.representation = Some("CustomRep".to_string());
    let validated = validate(parsed).expect("validation should succeed");
    assert_eq!(validated.rep_ident, "CustomRep");
}

#[test]
fn chain_list_refuses_non_path_items() {
    let input = RawInput {
        ident: "Example".to_string(),
        rep: None,
        mode: None,
        error: None,
        transparent: None,
        chain: vec![MetaItem::Path("Version1".to_string()), MetaItem::Lit],
    };
    let err = parse_input(input).expect_err("parsing should fail");
    assert_eq!(err, AttrError::UnexpectedChainItem);
}

#[test]
fn transparent_toggle_defaults_to_off() {
    let input = RawInput {
        ident: "Example".to_string(),
        rep: None,
        mode: None,
        error: None,
        transparent: None,
        chain: vec![MetaItem::Path("Version1".to_string())],
    };
    let parsed = parse_input(input).expect("expected parse success");
    assert!(!parsed.transparent);
}
