//! Full round trips against a scripted foreign runtime: the engine's
//! replies are laid out in the heap and the bridge is held to what it
//! marshals in, invokes, checks and marshals out.

use kson_bridge::ContractViolation;
use kson_bridge::EngineCall;
use kson_bridge::ForeignRuntime;
use kson_bridge::FormatOptions;
use kson_bridge::FormattingStyle;
use kson_bridge::IndentType;
use kson_bridge::Json;
use kson_bridge::Kson;
use kson_bridge::KsonValue;
use kson_bridge::MessageSeverity;
use kson_bridge::ObjectRecord;
use kson_bridge::OwnedKotlinPtr;
use kson_bridge::Payload;
use kson_bridge::Reply;
use kson_bridge::SchemaResult;
use kson_bridge::Spaces;
use kson_bridge::ThreadBinding;
use kson_bridge::TranspileResult;
use kson_bridge::Yaml;
use kson_bridge::kson_result_into_rust_result;
use kson_bridge::utf16_of_str;

fn rec(payload: Payload) -> ObjectRecord {
    ObjectRecord {
        class_name: String::new(),
        type_token: 0,
        ordinal: 0,
        value_id: 0,
        display: Vec::new(),
        payload,
        roots: 0,
        releases: 0,
    }
}

fn push(records: &mut Vec<ObjectRecord>, r: ObjectRecord) -> usize {
    records.push(r);
    records.len() - 1
}

fn text(records: &mut Vec<ObjectRecord>, s: &str) -> usize {
    let mut r = rec(Payload::Text(utf16_of_str(s)));
    r.display = utf16_of_str(s);
    push(records, r)
}

fn pos(records: &mut Vec<ObjectRecord>, line: i32, column: i32) -> usize {
    push(records, rec(Payload::Pos { line, column }))
}

fn enum_const(records: &mut Vec<ObjectRecord>, ordinal: u64, name: &str) -> usize {
    let mut r = rec(Payload::Opaque);
    r.ordinal = ordinal;
    r.display = utf16_of_str(name);
    push(records, r)
}

fn msg(
    records: &mut Vec<ObjectRecord>,
    message: &str,
    severity: u64,
    sl: i32,
    sc: i32,
    el: i32,
    ec: i32,
) -> usize {
    let t = text(records, message);
    let sev = enum_const(records, severity, if severity == 0 { "ERROR" } else { "WARNING" });
    let s = pos(records, sl, sc);
    let e = pos(records, el, ec);
    push(records, rec(Payload::Msg { text: t, severity: sev, start: s, end: e }))
}

fn list(records: &mut Vec<ObjectRecord>, ids: Vec<usize>) -> usize {
    push(records, rec(Payload::ListObj(ids)))
}

fn classed(records: &mut Vec<ObjectRecord>, class: &str, payload: Payload) -> usize {
    let mut r = rec(payload);
    r.class_name = String::from(class);
    push(records, r)
}

fn runtime(records: Vec<ObjectRecord>, replies: Vec<Reply>) -> ForeignRuntime {
    ForeignRuntime {
        classes: Vec::new(),
        records,
        cells: Vec::new(),
        replies,
        calls: Vec::new(),
        pending_fault: false,
    }
}

fn plain_two_space_options() -> FormatOptions {
    FormatOptions::new(
        IndentType::Spaces(Spaces::new(2)),
        FormattingStyle::Plain,
        Vec::new(),
    )
}

#[test]
fn test_kson_format() {
    let mut records = Vec::new();
    let out = text(&mut records, "key:\n  - 1\n  - 2\n  - 3\n  - 4\n");
    let mut rt = runtime(records, vec![Reply::Value(out)]);
    let mut tb = ThreadBinding::new();
    let opts = plain_two_space_options();
    let result = Kson::format(&mut rt, &mut tb, "key: [1, 2, 3, 4]", &opts).unwrap();
    assert_eq!(result, "key:\n  - 1\n  - 2\n  - 3\n  - 4\n");
    // the call carried the marshalled document and options
    assert!(matches!(rt.calls[0], EngineCall::Format { kson: 1, options: 2 }));
    match &rt.records[1].payload {
        Payload::Text(u) => assert_eq!(u, &utf16_of_str("key: [1, 2, 3, 4]")),
        _ => panic!("marshalled document is not a foreign string"),
    }
    match &rt.records[2].payload {
        Payload::FmtOpts { spaces, style, rules } => {
            assert_eq!(*spaces, Some(2));
            assert_eq!(*style, 0);
            assert!(rules.is_empty());
        },
        _ => panic!("marshalled options have the wrong shape"),
    }
    // every registration made for the call was released again
    assert_eq!(rt.records[1].roots, rt.records[1].releases);
    assert_eq!(rt.records[2].roots, rt.records[2].releases);
    assert_eq!(rt.records[out].roots, rt.records[out].releases);
    assert!(!tb.bound);
    assert_eq!(tb.attach_calls, 1);
    assert_eq!(tb.detach_calls, 1);
}

#[test]
fn format_foreign_fault_is_fatal() {
    let mut rt = runtime(Vec::new(), vec![Reply::Fault]);
    let mut tb = ThreadBinding::new();
    let opts = plain_two_space_options();
    let r = Kson::format(&mut rt, &mut tb, "key: 1", &opts);
    assert!(matches!(r, Err(ContractViolation::ForeignFault)));
    // the fault was described and cleared on the foreign side
    assert!(!rt.pending_fault);
}

#[test]
fn format_malformed_reply_is_fatal() {
    let mut records = Vec::new();
    let bad = push(&mut records, rec(Payload::Opaque));
    let mut rt = runtime(records, vec![Reply::Value(bad)]);
    let mut tb = ThreadBinding::new();
    let opts = plain_two_space_options();
    let r = Kson::format(&mut rt, &mut tb, "key: 1", &opts);
    assert!(matches!(r, Err(ContractViolation::MalformedReply)));
}

#[test]
fn test_kson_to_json_success() {
    let expected = "{\n  \"key\": [\n    1,\n    2,\n    3,\n    4\n  ]\n}";
    let mut records = Vec::new();
    let out = text(&mut records, expected);
    let ok = push(&mut records, rec(Payload::TranspileOk { output: out }));
    let mut rt = runtime(records, vec![Reply::Value(ok)]);
    let mut tb = ThreadBinding::new();
    let r = Kson::to_json(&mut rt, &mut tb, "key: [1, 2, 3, 4]", Json::new(true)).unwrap();
    match kson_result_into_rust_result(r) {
        Ok(success) => assert_eq!(success.output(), expected),
        Err(_) => panic!("expected success, found failure"),
    }
    assert!(matches!(rt.calls[0], EngineCall::ToJson { .. }));
    match &rt.records[rt.records.len() - 1].payload {
        Payload::TransOpts { retain_embed_tags, yaml } => {
            assert!(*retain_embed_tags);
            assert!(!*yaml);
        },
        _ => panic!("marshalled options have the wrong shape"),
    }
}

#[test]
fn test_kson_to_json_failure() {
    let mut records = Vec::new();
    let m = msg(&mut records, "Unclosed list", 0, 0, 5, 0, 16);
    let l = list(&mut records, vec![m]);
    let fail = push(&mut records, rec(Payload::TranspileFail { errors: l }));
    let mut rt = runtime(records, vec![Reply::Value(fail)]);
    let mut tb = ThreadBinding::new();
    let r = Kson::to_json(&mut rt, &mut tb, "key: [1, 2, 3, 4", Json::new(true)).unwrap();
    match kson_result_into_rust_result(r) {
        Ok(_) => panic!("expected failure, found success"),
        Err(failure) => {
            let errors = failure.errors();
            assert_eq!(errors.len(), 1);
            let m = &errors[0];
            assert_eq!(m.message(), "Unclosed list");
            assert_eq!(m.severity(), MessageSeverity::Error);
            assert_eq!(m.start().line(), 0);
            assert_eq!(m.start().column(), 5);
            assert_eq!(m.end().line(), 0);
            assert_eq!(m.end().column(), 16);
        },
    }
}

#[test]
fn test_kson_to_yaml_success() {
    let expected = "key:\n  - 1\n  - 2\n  - 3\n  - 4\n";
    let mut records = Vec::new();
    let out = text(&mut records, expected);
    let ok = push(&mut records, rec(Payload::TranspileOk { output: out }));
    let mut rt = runtime(records, vec![Reply::Value(ok)]);
    let mut tb = ThreadBinding::new();
    let r = Kson::to_yaml(&mut rt, &mut tb, "key: [1, 2, 3, 4]", Yaml::new(true)).unwrap();
    match r {
        TranspileResult::Success(s) => assert_eq!(s.output(), expected),
        TranspileResult::Failure(_) => panic!("expected success, found failure"),
    }
    assert!(matches!(rt.calls[0], EngineCall::ToYaml { .. }));
}

#[test]
fn test_kson_to_yaml_failure() {
    let mut records = Vec::new();
    let m = msg(&mut records, "Unclosed list", 0, 0, 5, 0, 16);
    let l = list(&mut records, vec![m]);
    let fail = push(&mut records, rec(Payload::TranspileFail { errors: l }));
    let mut rt = runtime(records, vec![Reply::Value(fail)]);
    let mut tb = ThreadBinding::new();
    let r = Kson::to_yaml(&mut rt, &mut tb, "key: [1, 2, 3, 4", Yaml::new(true)).unwrap();
    match r {
        TranspileResult::Success(_) => panic!("expected failure, found success"),
        TranspileResult::Failure(f) => {
            assert_eq!(f.errors().len(), 1);
            assert_eq!(f.errors()[0].message(), "Unclosed list");
        },
    }
}

#[test]
fn test_kson_validate_schema() {
    let mut records = Vec::new();
    let validator = push(&mut records, rec(Payload::Opaque));
    let ok = push(&mut records, rec(Payload::SchemaOk { validator }));
    let empty = list(&mut records, Vec::new());
    let m = msg(
        &mut records,
        "Expected one of: string, but got: integer",
        0,
        0,
        0,
        0,
        2,
    );
    let errl = list(&mut records, vec![m]);
    let mut rt = runtime(
        records,
        vec![Reply::Value(ok), Reply::Value(empty), Reply::Value(errl)],
    );
    let mut tb = ThreadBinding::new();
    let parsed = Kson::parse_schema(&mut rt, &mut tb, "{ \"type\": \"string\" }").unwrap();
    let success = match parsed {
        SchemaResult::Success(s) => s,
        SchemaResult::Failure(_) => panic!("expected success, found failure"),
    };
    let validator_svc = success.schema_validator();
    let errors = validator_svc
        .validate(&mut rt, &mut tb, "\"a good old JSON string\"", None)
        .unwrap();
    assert!(errors.is_empty());
    let errors = validator_svc.validate(&mut rt, &mut tb, "42", None).unwrap();
    assert!(!errors.is_empty());
    assert_eq!(errors.len(), 1);
    let m = &errors[0];
    assert_eq!(m.message(), "Expected one of: string, but got: integer");
    assert_eq!(m.start().line(), 0);
    assert_eq!(m.start().column(), 0);
    assert_eq!(m.end().line(), 0);
    assert_eq!(m.end().column(), 2);
}

#[test]
fn parse_schema_failure_carries_diagnostics() {
    let mut records = Vec::new();
    let m = msg(&mut records, "Unclosed object", 0, 0, 0, 0, 1);
    let l = list(&mut records, vec![m]);
    let fail = push(&mut records, rec(Payload::SchemaFail { errors: l }));
    let mut rt = runtime(records, vec![Reply::Value(fail)]);
    let mut tb = ThreadBinding::new();
    let parsed = Kson::parse_schema(&mut rt, &mut tb, "{").unwrap();
    match parsed {
        SchemaResult::Success(_) => panic!("expected failure, found success"),
        SchemaResult::Failure(f) => {
            assert_eq!(f.errors().len(), 1);
            assert_eq!(f.errors()[0].message(), "Unclosed object");
        },
    }
}

#[test]
fn test_kson_analysis() {
    let token_table: [(u64, &str, i32, i32, i32, i32); 12] = [
        (17, "key", 0, 0, 0, 3),
        (6, ":", 0, 3, 0, 4),
        (2, "[", 0, 5, 0, 6),
        (21, "1", 0, 6, 0, 7),
        (9, ",", 0, 7, 0, 8),
        (21, "2", 0, 9, 0, 10),
        (9, ",", 0, 10, 0, 11),
        (21, "3", 0, 12, 0, 13),
        (9, ",", 0, 13, 0, 14),
        (21, "4", 0, 15, 0, 16),
        (3, "]", 0, 16, 0, 17),
        (27, "", 0, 17, 0, 17),
    ];
    let mut records = Vec::new();
    let mut tok_ids = Vec::new();
    for (ord, txt, sl, sc, el, ec) in token_table {
        let kind = enum_const(&mut records, ord, "");
        let t = text(&mut records, txt);
        let s = pos(&mut records, sl, sc);
        let e = pos(&mut records, el, ec);
        tok_ids.push(push(
            &mut records,
            rec(Payload::Tok { kind, text: t, start: s, end: e }),
        ));
    }
    let errors = list(&mut records, Vec::new());
    let tokens = list(&mut records, tok_ids);
    let report = push(
        &mut records,
        rec(Payload::Report { errors, tokens, value: None }),
    );
    let mut rt = runtime(records, vec![Reply::Value(report)]);
    let mut tb = ThreadBinding::new();
    let analysis = Kson::analyze(&mut rt, &mut tb, "key: [1, 2, 3, 4]", None).unwrap();
    assert!(analysis.errors().is_empty());
    let mut output = String::new();
    for token in analysis.tokens() {
        let p1 = token.start();
        let p2 = token.end();
        let line = format!(
            "{},{} to {},{} - {}: {}\n",
            p1.line(),
            p1.column(),
            p2.line(),
            p2.column(),
            token.token_type().name(),
            token.text()
        );
        output.push_str(&line);
    }
    let expected = "0,0 to 0,3 - UNQUOTED_STRING: key\n\
                    0,3 to 0,4 - COLON: :\n\
                    0,5 to 0,6 - SQUARE_BRACKET_L: [\n\
                    0,6 to 0,7 - NUMBER: 1\n\
                    0,7 to 0,8 - COMMA: ,\n\
                    0,9 to 0,10 - NUMBER: 2\n\
                    0,10 to 0,11 - COMMA: ,\n\
                    0,12 to 0,13 - NUMBER: 3\n\
                    0,13 to 0,14 - COMMA: ,\n\
                    0,15 to 0,16 - NUMBER: 4\n\
                    0,16 to 0,17 - SQUARE_BRACKET_R: ]\n\
                    0,17 to 0,17 - EOF: \n";
    assert_eq!(output, expected);
}

#[test]
fn empty_array_round_trips_to_empty_sequence() {
    let mut records = Vec::new();
    let elements = list(&mut records, Vec::new());
    let s = pos(&mut records, 0, 0);
    let e = pos(&mut records, 0, 2);
    let arr = classed(
        &mut records,
        "org.kson.api.KsonValue$KsonArray",
        Payload::ArrVal { elements, start: s, end: e },
    );
    let errors = list(&mut records, Vec::new());
    let tokens = list(&mut records, Vec::new());
    let report = push(
        &mut records,
        rec(Payload::Report { errors, tokens, value: Some(arr) }),
    );
    let mut rt = runtime(records, vec![Reply::Value(report)]);
    let mut tb = ThreadBinding::new();
    let analysis = Kson::analyze(&mut rt, &mut tb, "[]", None).unwrap();
    match analysis.kson_value() {
        Some(KsonValue::KsonArray(a)) => {
            let es = a.elements(&mut rt).unwrap();
            assert!(es.is_empty());
        },
        _ => panic!("expected array"),
    }
}

#[test]
fn empty_object_round_trips_to_empty_map() {
    let mut records = Vec::new();
    let properties = push(&mut records, rec(Payload::MapObj(Vec::new())));
    let keys = push(&mut records, rec(Payload::MapObj(Vec::new())));
    let s = pos(&mut records, 0, 0);
    let e = pos(&mut records, 0, 2);
    let obj = classed(
        &mut records,
        "org.kson.api.KsonValue$KsonObject",
        Payload::ObjVal { properties, keys, start: s, end: e },
    );
    let errors = list(&mut records, Vec::new());
    let tokens = list(&mut records, Vec::new());
    let report = push(
        &mut records,
        rec(Payload::Report { errors, tokens, value: Some(obj) }),
    );
    let mut rt = runtime(records, vec![Reply::Value(report)]);
    let mut tb = ThreadBinding::new();
    let analysis = Kson::analyze(&mut rt, &mut tb, "{}", None).unwrap();
    match analysis.kson_value() {
        Some(KsonValue::KsonObject(o)) => {
            let props = o.properties(&mut rt).unwrap();
            assert!(props.is_empty());
            let ks = o.property_keys(&mut rt).unwrap();
            assert!(ks.is_empty());
            assert_eq!(o.get_property_by_name(&mut rt, "missing").unwrap().is_none(), true);
        },
        _ => panic!("expected object"),
    }
}

#[test]
fn unregistered_value_class_is_a_dispatch_miss() {
    let mut records = Vec::new();
    let errors = list(&mut records, Vec::new());
    let tokens = list(&mut records, Vec::new());
    let synthetic = classed(&mut records, "org.kson.api.KsonValue$Synthetic", Payload::Opaque);
    let report = push(
        &mut records,
        rec(Payload::Report { errors, tokens, value: Some(synthetic) }),
    );
    let mut rt = runtime(records, vec![Reply::Value(report)]);
    let mut tb = ThreadBinding::new();
    let r = Kson::analyze(&mut rt, &mut tb, "x", None);
    assert!(matches!(r, Err(ContractViolation::DispatchMiss)));
}

fn string_node(records: &mut Vec<ObjectRecord>, value: &str, sl: i32, sc: i32, el: i32, ec: i32) -> usize {
    let t = text(records, value);
    let s = pos(records, sl, sc);
    let e = pos(records, el, ec);
    classed(
        records,
        "org.kson.api.KsonValue$KsonString",
        Payload::StrVal { text: t, start: s, end: e },
    )
}

fn int_node(records: &mut Vec<ObjectRecord>, value: i64) -> usize {
    let s = pos(records, 0, 0);
    let e = pos(records, 0, 0);
    classed(
        records,
        "org.kson.api.KsonValue$KsonNumber$Integer",
        Payload::IntVal { value, start: s, end: e },
    )
}

#[test]
fn test_get_property_by_name_success() {
    let mut records = Vec::new();
    let k_name = string_node(&mut records, "name", 0, 0, 0, 4);
    let v_name = string_node(&mut records, "John", 0, 6, 0, 10);
    let k_age = string_node(&mut records, "age", 1, 0, 1, 3);
    let v_age = int_node(&mut records, 30);
    let properties = push(
        &mut records,
        rec(Payload::MapObj(vec![(k_name, v_name), (k_age, v_age)])),
    );
    let keys = push(&mut records, rec(Payload::MapObj(Vec::new())));
    let s = pos(&mut records, 0, 0);
    let e = pos(&mut records, 1, 7);
    let obj = classed(
        &mut records,
        "org.kson.api.KsonValue$KsonObject",
        Payload::ObjVal { properties, keys, start: s, end: e },
    );
    let errors = list(&mut records, Vec::new());
    let tokens = list(&mut records, Vec::new());
    let report = push(
        &mut records,
        rec(Payload::Report { errors, tokens, value: Some(obj) }),
    );
    let mut rt = runtime(records, vec![Reply::Value(report)]);
    let mut tb = ThreadBinding::new();
    let analysis = Kson::analyze(&mut rt, &mut tb, "name: John\nage: 30", None).unwrap();
    let obj = match analysis.kson_value() {
        Some(KsonValue::KsonObject(o)) => o,
        _ => panic!("expected object"),
    };
    match obj.get_property_by_name(&mut rt, "name").unwrap() {
        Some(KsonValue::KsonString(sv)) => assert_eq!(sv.value(&rt).unwrap(), "John"),
        _ => panic!("expected string"),
    }
    match obj.get_property_by_name(&mut rt, "age").unwrap() {
        Some(KsonValue::KsonNumber(kson_bridge::KsonNumber::Integer(iv))) => {
            assert_eq!(iv.value(&rt).unwrap(), 30)
        },
        _ => panic!("expected integer"),
    }
    assert!(obj.get_property_by_name(&mut rt, "nonexistent").unwrap().is_none());
}

#[test]
fn object_properties_marshal_in_entry_order() {
    let mut records = Vec::new();
    let k1 = string_node(&mut records, "a", 0, 0, 0, 1);
    let v1 = int_node(&mut records, 1);
    let k2 = string_node(&mut records, "b", 1, 0, 1, 1);
    let v2 = int_node(&mut records, 2);
    let properties = push(&mut records, rec(Payload::MapObj(vec![(k1, v1), (k2, v2)])));
    let keys = push(&mut records, rec(Payload::MapObj(Vec::new())));
    let s = pos(&mut records, 0, 0);
    let e = pos(&mut records, 1, 4);
    let obj = classed(
        &mut records,
        "org.kson.api.KsonValue$KsonObject",
        Payload::ObjVal { properties, keys, start: s, end: e },
    );
    let mut rt = runtime(records, Vec::new());
    let owned = OwnedKotlinPtr::wrap(&mut rt, obj);
    let value = kson_bridge::dispatch_value(&mut rt, owned).unwrap();
    let o = match value {
        KsonValue::KsonObject(o) => o,
        _ => panic!("expected object"),
    };
    let props = o.properties(&mut rt).unwrap();
    assert_eq!(props.len(), 2);
    match &props[0].0 {
        KsonValue::KsonString(k) => assert_eq!(k.value(&rt).unwrap(), "a"),
        _ => panic!("expected string key"),
    }
    match &props[1].1 {
        KsonValue::KsonNumber(kson_bridge::KsonNumber::Integer(v)) => {
            assert_eq!(v.value(&rt).unwrap(), 2)
        },
        _ => panic!("expected integer"),
    }
    // the drained iterators were released again
    for r in rt.records.iter().skip(obj + 1) {
        assert_eq!(r.roots, r.releases);
    }
}

#[test]
fn reformatting_hands_the_engine_its_own_text_back() {
    // first round trip: the engine replies with formatted text
    let mut records = Vec::new();
    let out = text(&mut records, "key:\n  - 1\n  - 2\n");
    let engine_units = utf16_of_str("key:\n  - 1\n  - 2\n");
    let mut rt = runtime(records, vec![Reply::Value(out)]);
    let mut tb = ThreadBinding::new();
    let opts = plain_two_space_options();
    let formatted = Kson::format(&mut rt, &mut tb, "key: [1, 2]", &opts).unwrap();

    // second round trip: formatting the output marshals exactly the code
    // units the engine produced, so an idempotent engine sees equal input
    let mut records = Vec::new();
    let out2 = text(&mut records, "key:\n  - 1\n  - 2\n");
    let mut rt2 = runtime(records, vec![Reply::Value(out2)]);
    let again = Kson::format(&mut rt2, &mut tb, formatted.as_str(), &opts).unwrap();
    match &rt2.records[1].payload {
        Payload::Text(u) => assert_eq!(u, &engine_units),
        _ => panic!("marshalled document is not a foreign string"),
    }
    assert_eq!(again, formatted);
}
