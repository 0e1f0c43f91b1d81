//! Request decisions: option defaulting, command dispatch, and response
//! mapping, plus the generic object services.

use kson_bridge::EmbedRuleDto;
use kson_bridge::EngineCall;
use kson_bridge::ForeignRuntime;
use kson_bridge::FormatOptionsDto;
use kson_bridge::FormattingStyle;
use kson_bridge::IndentType;
use kson_bridge::IndentTypeDto;
use kson_bridge::ObjectRecord;
use kson_bridge::OwnedKotlinPtr;
use kson_bridge::Payload;
use kson_bridge::Reply;
use kson_bridge::Request;
use kson_bridge::Response;
use kson_bridge::ThreadBinding;
use kson_bridge::convert_format_options;
use kson_bridge::convert_formatting_style;
use kson_bridge::convert_indent_type;
use kson_bridge::handle_request;
use kson_bridge::utf16_of_str;

fn rec(payload: Payload) -> ObjectRecord {
    ObjectRecord {
        class_name: String::new(),
        type_token: 0,
        ordinal: 0,
        value_id: 0,
        display: Vec::new(),
        payload,
        roots: 0,
        releases: 0,
    }
}

fn runtime(records: Vec<ObjectRecord>, replies: Vec<Reply>) -> ForeignRuntime {
    ForeignRuntime {
        classes: Vec::new(),
        records,
        cells: Vec::new(),
        replies,
        calls: Vec::new(),
        pending_fault: false,
    }
}

#[test]
fn style_names_convert_with_plain_fallback() {
    assert_eq!(convert_formatting_style("DELIMITED"), FormattingStyle::Delimited);
    assert_eq!(convert_formatting_style("COMPACT"), FormattingStyle::Compact);
    assert_eq!(convert_formatting_style("CLASSIC"), FormattingStyle::Classic);
    assert_eq!(convert_formatting_style("PLAIN"), FormattingStyle::Plain);
    assert_eq!(convert_formatting_style("bogus"), FormattingStyle::Plain);
}

#[test]
fn indent_choice_converts_with_defaults() {
    let tabs = convert_indent_type(&IndentTypeDto { kind: String::from("tabs"), size: None });
    assert!(matches!(tabs, IndentType::Tabs(_)));
    let spaces = convert_indent_type(&IndentTypeDto { kind: String::from("spaces"), size: Some(4) });
    match spaces {
        IndentType::Spaces(s) => assert_eq!(s.size(), 4),
        _ => panic!("expected spaces"),
    }
    let defaulted = convert_indent_type(&IndentTypeDto { kind: String::from("spaces"), size: None });
    match defaulted {
        IndentType::Spaces(s) => assert_eq!(s.size(), 2),
        _ => panic!("expected spaces"),
    }
}

#[test]
fn absent_options_take_all_defaults() {
    let o = convert_format_options(&None);
    match o.indent_type() {
        IndentType::Spaces(s) => assert_eq!(s.size(), 2),
        _ => panic!("expected spaces"),
    }
    assert_eq!(o.formatting_style(), FormattingStyle::Plain);
    assert!(o.embed_block_rules().is_empty());
}

#[test]
fn present_options_convert_pointwise() {
    let dto = FormatOptionsDto {
        indent_type: Some(IndentTypeDto { kind: String::from("tabs"), size: None }),
        formatting_style: Some(String::from("COMPACT")),
        embed_block_rules: Some(vec![
            EmbedRuleDto { path_pattern: String::from("a.b"), tag: Some(String::from("sql")) },
            EmbedRuleDto { path_pattern: String::from("c"), tag: None },
        ]),
    };
    let o = convert_format_options(&Some(dto));
    assert!(matches!(o.indent_type(), IndentType::Tabs(_)));
    assert_eq!(o.formatting_style(), FormattingStyle::Compact);
    let rules = o.embed_block_rules();
    assert_eq!(rules.len(), 2);
    assert_eq!(rules[0].path_pattern(), "a.b");
    assert_eq!(rules[0].tag(), Some(String::from("sql")));
    assert_eq!(rules[1].path_pattern(), "c");
    assert_eq!(rules[1].tag(), None);
}

#[test]
fn format_request_round_trips() {
    let mut records = Vec::new();
    records.push({
        let mut r = rec(Payload::Text(utf16_of_str("key: 1\n")));
        r.display = utf16_of_str("key: 1\n");
        r
    });
    let mut rt = runtime(records, vec![Reply::Value(0)]);
    let mut tb = ThreadBinding::new();
    let req = Request::Format { kson: String::from("key:1"), format_options: None };
    match handle_request(&mut rt, &mut tb, req).unwrap() {
        Response::Format { output } => assert_eq!(output, "key: 1\n"),
        _ => panic!("expected a format response"),
    }
    assert!(matches!(rt.calls[0], EngineCall::Format { .. }));
}

#[test]
fn validate_request_makes_two_calls() {
    let mut records = Vec::new();
    records.push(rec(Payload::Opaque));
    records.push(rec(Payload::SchemaOk { validator: 0 }));
    records.push(rec(Payload::ListObj(Vec::new())));
    let mut rt = runtime(records, vec![Reply::Value(1), Reply::Value(2)]);
    let mut tb = ThreadBinding::new();
    let req = Request::Validate {
        schema_kson: String::from("{ \"type\": \"string\" }"),
        kson: String::from("\"ok\""),
        filepath: None,
    };
    match handle_request(&mut rt, &mut tb, req).unwrap() {
        Response::Validate { success, errors } => {
            assert!(success);
            assert!(errors.is_empty());
        },
        _ => panic!("expected a validate response"),
    }
    assert_eq!(rt.calls.len(), 2);
    assert!(matches!(rt.calls[0], EngineCall::ParseSchema { .. }));
    assert!(matches!(rt.calls[1], EngineCall::Validate { .. }));
    assert!(!tb.bound);
    assert_eq!(tb.attach_calls, 2);
    assert_eq!(tb.detach_calls, 2);
}

#[test]
fn equals_and_hash_follow_the_foreign_identity() {
    let mut records = Vec::new();
    for id in [7u64, 7u64, 9u64] {
        let mut r = rec(Payload::Opaque);
        r.value_id = id;
        records.push(r);
    }
    let rt = runtime(records, Vec::new());
    assert!(kson_bridge::equals(&rt, 0, 1));
    assert!(!kson_bridge::equals(&rt, 0, 2));
    let mut hasher: Vec<u64> = Vec::new();
    kson_bridge::apply_hash_code(&rt, 0, &mut hasher);
    kson_bridge::apply_hash_code(&rt, 1, &mut hasher);
    kson_bridge::apply_hash_code(&rt, 2, &mut hasher);
    assert_eq!(hasher, vec![7, 7, 9]);
}

#[test]
fn enum_reflection_reads_and_releases() {
    let mut records = Vec::new();
    let mut r = rec(Payload::Opaque);
    r.ordinal = 1;
    r.display = utf16_of_str("WARNING");
    r.class_name = String::from("org.kson.api.MessageSeverity");
    records.push(r);
    let mut rt = runtime(records, Vec::new());
    assert_eq!(kson_bridge::class_name(&rt, 0), "org.kson.api.MessageSeverity");
    assert_eq!(kson_bridge::to_string(&rt, 0), "WARNING");
    let p = OwnedKotlinPtr::wrap(&mut rt, 0);
    assert_eq!(kson_bridge::enum_ordinal(&mut rt, p), 1);
    assert_eq!(rt.records[0].releases, 1);
    let p = OwnedKotlinPtr::wrap(&mut rt, 0);
    assert_eq!(kson_bridge::enum_name(&mut rt, p), "WARNING");
    assert_eq!(rt.records[0].releases, 2);
    assert_eq!(rt.records[0].roots, 2);
}
