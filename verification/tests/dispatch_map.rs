//! Type dispatch: name strategy, token strategy, and ordinal mappings.

use kson_bridge::ClassDef;
use kson_bridge::ContractViolation;
use kson_bridge::ForeignRuntime;
use kson_bridge::FormattingStyle;
use kson_bridge::KsonValueType;
use kson_bridge::MessageSeverity;
use kson_bridge::TokenType;
use kson_bridge::dispatch_value_class;
use kson_bridge::dispatch_value_token;
use kson_bridge::resolve_value_token_table;

#[test]
fn class_names_resolve_to_their_variants() {
    let cases = [
        ("org.kson.api.KsonValue$KsonObject", KsonValueType::Object),
        ("org.kson.api.KsonValue$KsonArray", KsonValueType::Array),
        ("org.kson.api.KsonValue$KsonString", KsonValueType::Str),
        ("org.kson.api.KsonValue$KsonNumber$Integer", KsonValueType::Integer),
        ("org.kson.api.KsonValue$KsonNumber$Decimal", KsonValueType::Decimal),
        ("org.kson.api.KsonValue$KsonBoolean", KsonValueType::Boolean),
        ("org.kson.api.KsonValue$KsonNull", KsonValueType::Null),
        ("org.kson.api.KsonValue$KsonEmbed", KsonValueType::Embed),
    ];
    for (name, expected) in cases {
        assert_eq!(dispatch_value_class(name).unwrap(), expected);
    }
}

#[test]
fn synthetic_class_name_is_a_fatal_miss() {
    let r = dispatch_value_class("org.kson.api.KsonValue$Synthetic");
    assert!(matches!(r, Err(ContractViolation::DispatchMiss)));
}

#[test]
fn token_table_resolves_and_dispatches() {
    let names = [
        "org.kson.api.KsonValue$KsonObject",
        "org.kson.api.KsonValue$KsonArray",
        "org.kson.api.KsonValue$KsonString",
        "org.kson.api.KsonValue$KsonNumber$Integer",
        "org.kson.api.KsonValue$KsonNumber$Decimal",
        "org.kson.api.KsonValue$KsonBoolean",
        "org.kson.api.KsonValue$KsonNull",
        "org.kson.api.KsonValue$KsonEmbed",
    ];
    let mut classes = Vec::new();
    for (i, name) in names.iter().enumerate() {
        classes.push(ClassDef { name: String::from(*name), token: 100 + i as u64 });
    }
    let rt = ForeignRuntime {
        classes,
        records: Vec::new(),
        cells: Vec::new(),
        replies: Vec::new(),
        calls: Vec::new(),
        pending_fault: false,
    };
    let table = resolve_value_token_table(&rt).unwrap();
    assert_eq!(table.len(), 8);
    assert_eq!(dispatch_value_token(&table, 100).unwrap(), KsonValueType::Object);
    assert_eq!(dispatch_value_token(&table, 103).unwrap(), KsonValueType::Integer);
    assert_eq!(dispatch_value_token(&table, 107).unwrap(), KsonValueType::Embed);
    assert!(matches!(
        dispatch_value_token(&table, 999),
        Err(ContractViolation::DispatchMiss)
    ));
}

#[test]
fn token_table_fails_without_declared_classes() {
    let rt = ForeignRuntime {
        classes: Vec::new(),
        records: Vec::new(),
        cells: Vec::new(),
        replies: Vec::new(),
        calls: Vec::new(),
        pending_fault: false,
    };
    assert!(resolve_value_token_table(&rt).is_err());
}

#[test]
fn severity_ordinals_are_validated() {
    assert_eq!(MessageSeverity::from_ordinal(0), Some(MessageSeverity::Error));
    assert_eq!(MessageSeverity::from_ordinal(1), Some(MessageSeverity::Warning));
    assert_eq!(MessageSeverity::from_ordinal(2), None);
    assert_eq!(MessageSeverity::Error.name(), "ERROR");
    assert_eq!(MessageSeverity::Warning.name(), "WARNING");
}

#[test]
fn formatting_style_ordinals_are_validated() {
    assert_eq!(FormattingStyle::from_ordinal(0), Some(FormattingStyle::Plain));
    assert_eq!(FormattingStyle::from_ordinal(3), Some(FormattingStyle::Classic));
    assert_eq!(FormattingStyle::from_ordinal(4), None);
    assert_eq!(FormattingStyle::Delimited.name(), "DELIMITED");
    for x in 0..4u64 {
        let s = FormattingStyle::from_ordinal(x).unwrap();
        assert_eq!(s.ordinal(), x);
    }
}

#[test]
fn value_type_ordinals_are_validated() {
    assert_eq!(KsonValueType::from_ordinal(0), Some(KsonValueType::Object));
    assert_eq!(KsonValueType::from_ordinal(7), Some(KsonValueType::Embed));
    assert_eq!(KsonValueType::from_ordinal(8), None);
    assert_eq!(KsonValueType::Str.name(), "STRING");
    for x in 0..8u64 {
        let t = KsonValueType::from_ordinal(x).unwrap();
        assert_eq!(t.ordinal(), x);
    }
}

#[test]
fn token_type_ordinals_are_validated() {
    assert_eq!(TokenType::from_ordinal(0), Some(TokenType::CurlyBraceL));
    assert_eq!(TokenType::from_ordinal(27), Some(TokenType::Eof));
    assert_eq!(TokenType::from_ordinal(28), None);
    assert_eq!(TokenType::UnquotedString.name(), "UNQUOTED_STRING");
    assert_eq!(TokenType::SquareBracketL.name(), "SQUARE_BRACKET_L");
    assert_eq!(TokenType::Eof.name(), "EOF");
    for x in 0..28u64 {
        let t = TokenType::from_ordinal(x).unwrap();
        assert_eq!(t.ordinal(), x);
    }
}
