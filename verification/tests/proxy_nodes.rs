//! Node getters of the lazily-proxied value tree, and sharing through real
//! proxies.

use kson_bridge::ContractViolation;
use kson_bridge::ForeignRuntime;
use kson_bridge::KsonNumber;
use kson_bridge::KsonValue;
use kson_bridge::KsonValueType;
use kson_bridge::ObjectRecord;
use kson_bridge::OwnedKotlinPtr;
use kson_bridge::Payload;
use kson_bridge::dispatch_value;
use kson_bridge::message_from_handle;
use kson_bridge::position_from_handle;
use kson_bridge::token_from_handle;
use kson_bridge::utf16_of_str;

fn rec(payload: Payload) -> ObjectRecord {
    ObjectRecord {
        class_name: String::new(),
        type_token: 0,
        ordinal: 0,
        value_id: 0,
        display: Vec::new(),
        payload,
        roots: 0,
        releases: 0,
    }
}

fn push(records: &mut Vec<ObjectRecord>, r: ObjectRecord) -> usize {
    records.push(r);
    records.len() - 1
}

fn text(records: &mut Vec<ObjectRecord>, s: &str) -> usize {
    push(records, rec(Payload::Text(utf16_of_str(s))))
}

fn pos(records: &mut Vec<ObjectRecord>, line: i32, column: i32) -> usize {
    push(records, rec(Payload::Pos { line, column }))
}

fn classed(records: &mut Vec<ObjectRecord>, class: &str, payload: Payload) -> usize {
    let mut r = rec(payload);
    r.class_name = String::from(class);
    push(records, r)
}

fn runtime(records: Vec<ObjectRecord>) -> ForeignRuntime {
    ForeignRuntime {
        classes: Vec::new(),
        records,
        cells: Vec::new(),
        replies: Vec::new(),
        calls: Vec::new(),
        pending_fault: false,
    }
}

#[test]
fn embed_node_reads_tag_and_content() {
    let mut records = Vec::new();
    let tag = text(&mut records, "tag");
    let content = text(&mut records, "");
    let s = pos(&mut records, 5, 6);
    let e = pos(&mut records, 6, 2);
    let embed = classed(
        &mut records,
        "org.kson.api.KsonValue$KsonEmbed",
        Payload::EmbedVal { tag: Some(tag), content, start: s, end: e },
    );
    let mut rt = runtime(records);
    let owned = OwnedKotlinPtr::wrap(&mut rt, embed);
    let v = dispatch_value(&mut rt, owned).unwrap();
    match &v {
        KsonValue::KsonEmbed(em) => {
            assert_eq!(em.tag(&rt).unwrap(), Some(String::from("tag")));
            assert_eq!(em.content(&rt).unwrap(), "");
            assert_eq!(em.start(&rt).unwrap().line(), 5);
            assert_eq!(em.start(&rt).unwrap().column(), 6);
            assert_eq!(em.end(&rt).unwrap().line(), 6);
            assert_eq!(em.type_(), KsonValueType::Embed);
        },
        _ => panic!("expected embed"),
    }
    assert_eq!(v.type_(), KsonValueType::Embed);
    assert_eq!(v.name(), "EMBED");
}

#[test]
fn embed_node_without_tag() {
    let mut records = Vec::new();
    let content = text(&mut records, "This is embedded content\nembed");
    let s = pos(&mut records, 0, 5);
    let e = pos(&mut records, 2, 6);
    let embed = classed(
        &mut records,
        "org.kson.api.KsonValue$KsonEmbed",
        Payload::EmbedVal { tag: None, content, start: s, end: e },
    );
    let mut rt = runtime(records);
    let owned = OwnedKotlinPtr::wrap(&mut rt, embed);
    match dispatch_value(&mut rt, owned).unwrap() {
        KsonValue::KsonEmbed(em) => {
            assert_eq!(em.tag(&rt).unwrap(), None);
            assert_eq!(em.content(&rt).unwrap(), "This is embedded content\nembed");
        },
        _ => panic!("expected embed"),
    }
}

#[test]
fn decimal_node_carries_its_source_text() {
    let mut records = Vec::new();
    let t = text(&mut records, "2.1");
    let s = pos(&mut records, 3, 4);
    let e = pos(&mut records, 3, 7);
    let dec = classed(
        &mut records,
        "org.kson.api.KsonValue$KsonNumber$Decimal",
        Payload::DecVal { text: t, start: s, end: e },
    );
    let mut rt = runtime(records);
    let owned = OwnedKotlinPtr::wrap(&mut rt, dec);
    match dispatch_value(&mut rt, owned).unwrap() {
        KsonValue::KsonNumber(KsonNumber::Decimal(d)) => {
            assert_eq!(d.value(&rt).unwrap(), "2.1");
            assert_eq!(d.start(&rt).unwrap().column(), 4);
            assert_eq!(d.type_(), KsonValueType::Decimal);
        },
        _ => panic!("expected decimal"),
    }
}

#[test]
fn boolean_and_null_nodes() {
    let mut records = Vec::new();
    let s1 = pos(&mut records, 0, 0);
    let e1 = pos(&mut records, 0, 4);
    let b = classed(
        &mut records,
        "org.kson.api.KsonValue$KsonBoolean",
        Payload::BoolVal { value: true, start: s1, end: e1 },
    );
    let s2 = pos(&mut records, 1, 0);
    let e2 = pos(&mut records, 1, 4);
    let n = classed(
        &mut records,
        "org.kson.api.KsonValue$KsonNull",
        Payload::NullVal { start: s2, end: e2 },
    );
    let mut rt = runtime(records);
    let owned = OwnedKotlinPtr::wrap(&mut rt, b);
    match dispatch_value(&mut rt, owned).unwrap() {
        KsonValue::KsonBoolean(bv) => {
            assert!(bv.value(&rt).unwrap());
            assert_eq!(bv.type_(), KsonValueType::Boolean);
        },
        _ => panic!("expected boolean"),
    }
    let owned = OwnedKotlinPtr::wrap(&mut rt, n);
    match dispatch_value(&mut rt, owned).unwrap() {
        KsonValue::KsonNull(nv) => {
            assert_eq!(nv.start(&rt).unwrap().line(), 1);
            assert_eq!(nv.type_(), KsonValueType::Null);
        },
        _ => panic!("expected null"),
    }
}

#[test]
fn proxy_clones_share_one_release() {
    let mut records = Vec::new();
    let t = text(&mut records, "x");
    let s = pos(&mut records, 0, 0);
    let e = pos(&mut records, 0, 1);
    let node = classed(
        &mut records,
        "org.kson.api.KsonValue$KsonString",
        Payload::StrVal { text: t, start: s, end: e },
    );
    let mut rt = runtime(records);
    let owned = OwnedKotlinPtr::wrap(&mut rt, node);
    let v0 = dispatch_value(&mut rt, owned).unwrap();
    let v1 = v0.clone_ref(&mut rt);
    let v2 = v1.clone_ref(&mut rt);
    v1.drop_ref(&mut rt);
    v0.drop_ref(&mut rt);
    assert_eq!(rt.records[node].releases, 0);
    v2.drop_ref(&mut rt);
    assert_eq!(rt.records[node].releases, 1);
    assert_eq!(rt.records[node].roots, 1);
}

#[test]
fn severity_out_of_range_is_an_ordinal_violation() {
    let mut records = Vec::new();
    let t = text(&mut records, "oops");
    let sev = push(&mut records, {
        let mut r = rec(Payload::Opaque);
        r.ordinal = 5;
        r
    });
    let s = pos(&mut records, 0, 0);
    let e = pos(&mut records, 0, 1);
    let m = push(&mut records, rec(Payload::Msg { text: t, severity: sev, start: s, end: e }));
    let rt = runtime(records);
    let r = message_from_handle(&rt, m);
    assert!(matches!(r, Err(ContractViolation::OrdinalRange)));
}

#[test]
fn token_kind_out_of_range_is_an_ordinal_violation() {
    let mut records = Vec::new();
    let t = text(&mut records, "?");
    let kind = push(&mut records, {
        let mut r = rec(Payload::Opaque);
        r.ordinal = 99;
        r
    });
    let s = pos(&mut records, 0, 0);
    let e = pos(&mut records, 0, 1);
    let tok = push(&mut records, rec(Payload::Tok { kind, text: t, start: s, end: e }));
    let rt = runtime(records);
    let r = token_from_handle(&rt, tok);
    assert!(matches!(r, Err(ContractViolation::OrdinalRange)));
}

#[test]
fn malformed_message_graph_is_fatal() {
    let mut records = Vec::new();
    let not_text = push(&mut records, rec(Payload::Opaque));
    let sev = push(&mut records, rec(Payload::Opaque));
    let s = pos(&mut records, 0, 0);
    let e = pos(&mut records, 0, 1);
    let m = push(
        &mut records,
        rec(Payload::Msg { text: not_text, severity: sev, start: s, end: e }),
    );
    let rt = runtime(records);
    assert!(matches!(
        message_from_handle(&rt, m),
        Err(ContractViolation::MalformedReply)
    ));
    assert!(matches!(
        position_from_handle(&rt, not_text),
        Err(ContractViolation::MalformedReply)
    ));
}

#[test]
fn positions_materialize_from_their_records() {
    let mut records = Vec::new();
    let p = pos(&mut records, 3, 14);
    let rt = runtime(records);
    let hp = position_from_handle(&rt, p).unwrap();
    assert_eq!(hp.line(), 3);
    assert_eq!(hp.column(), 14);
    assert_eq!(hp, kson_bridge::Position::new(3, 14));
}

#[test]
fn string_node_value_survives_the_utf16_boundary() {
    let mut records = Vec::new();
    let t = text(&mut records, "New York \u{1F5FD}");
    let s = pos(&mut records, 0, 0);
    let e = pos(&mut records, 0, 12);
    let node = classed(
        &mut records,
        "org.kson.api.KsonValue$KsonString",
        Payload::StrVal { text: t, start: s, end: e },
    );
    let mut rt = runtime(records);
    let owned = OwnedKotlinPtr::wrap(&mut rt, node);
    match dispatch_value(&mut rt, owned).unwrap() {
        KsonValue::KsonString(sv) => {
            assert_eq!(sv.value(&rt).unwrap(), "New York \u{1F5FD}");
        },
        _ => panic!("expected string"),
    }
}
