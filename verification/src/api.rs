//! The proxy API surface: the curated set of entry points that compose
//! binding, marshalling, invocation, fault translation and dispatch into one
//! request/response round trip each.
//!
//! Domain diagnostics (a document that fails to parse, a schema violation)
//! are ordinary return values here, flowing unchanged to the caller.
//! Contract violations (a foreign fault, a dispatch miss, a malformed reply
//! object) are returned as [`ContractViolation`] and are meant to be treated
//! as fatal by the embedding program; they are never folded into domain
//! diagnostics.

use vstd::prelude::*;

use crate::binding::DetachGuard;
use crate::binding::ThreadBinding;
use crate::handles::KsonPtr;
use crate::handles::OwnedKotlinPtr;
use crate::proxy::KsonValue;
use crate::proxy::drain_list;
use crate::runtime::ContractViolation;
use crate::runtime::EmbedRuleRec;
use crate::runtime::EngineCall;
use crate::runtime::ForeignRuntime;
use crate::runtime::ObjectRecord;
use crate::runtime::Payload;
use crate::runtime::Reply;
use crate::text::encode_utf16;
use crate::values::FormatOptions;
use crate::values::IndentType;
use crate::values::Message;
use crate::values::Token;
use crate::values::message_from_handle;
use crate::values::message_matches;
use crate::values::message_ok;
use crate::values::token_from_handle;
use crate::values::token_matches;
use crate::values::token_ok;

verus! {

/// The record is a foreign list object.
pub open spec fn is_list(recs: Seq<ObjectRecord>, h: int) -> bool {
    recs[h].payload is ListObj
}

/// The element handles of a foreign list object.
pub open spec fn list_elems(recs: Seq<ObjectRecord>, h: int) -> Seq<usize> {
    match recs[h].payload {
        Payload::ListObj(es) => es@,
        _ => Seq::empty(),
    }
}

/// Every element is a fully well-shaped message object.
pub open spec fn messages_all_ok(recs: Seq<ObjectRecord>, es: Seq<usize>) -> bool {
    forall|i: int| 0 <= i < es.len() ==> message_ok(recs, #[trigger] es[i] as int)
}

/// The host diagnostics carry exactly what the message records hold.
pub open spec fn messages_match(recs: Seq<ObjectRecord>, es: Seq<usize>, ms: Seq<Message>) -> bool {
    &&& ms.len() == es.len()
    &&& forall|i: int| 0 <= i < es.len() ==> message_matches(recs, #[trigger] es[i] as int, ms[i])
}

/// Every element is a fully well-shaped token object.
pub open spec fn tokens_all_ok(recs: Seq<ObjectRecord>, es: Seq<usize>) -> bool {
    forall|i: int| 0 <= i < es.len() ==> token_ok(recs, #[trigger] es[i] as int)
}

/// The host tokens carry exactly what the token records hold.
pub open spec fn tokens_match(recs: Seq<ObjectRecord>, es: Seq<usize>, ts: Seq<Token>) -> bool {
    &&& ts.len() == es.len()
    &&& forall|i: int| 0 <= i < es.len() ==> token_matches(recs, #[trigger] es[i] as int, ts[i])
}

/// Drain a foreign list of diagnostics and materialize every element.
/// Succeeds exactly when the handle is a list whose elements are all
/// well-shaped message objects; tolerates the empty list.
pub fn messages_from_list(rt: &mut ForeignRuntime, list_h: usize) -> (r: Result<
    Vec<Message>,
    ContractViolation,
>)
    requires
        old(rt).wf(),
        (list_h as int) < old(rt).records@.len(),
    ensures
        final(rt).wf(),
        old(rt).records@.len() <= final(rt).records@.len() <= old(rt).records@.len() + 1,
        forall|i: int|
            0 <= i < old(rt).records@.len() ==> old(rt).records@[i]
                == #[trigger] final(rt).records@[i],
        final(rt).cells@ == old(rt).cells@,
        final(rt).replies@ == old(rt).replies@,
        final(rt).calls@ == old(rt).calls@,
        final(rt).classes@ == old(rt).classes@,
        final(rt).pending_fault == old(rt).pending_fault,
        ({
            let recs = old(rt).records@;
            match r {
                Ok(ms) => {
                    &&& is_list(recs, list_h as int)
                    &&& messages_all_ok(recs, list_elems(recs, list_h as int))
                    &&& messages_match(recs, list_elems(recs, list_h as int), ms@)
                },
                Err(e) => {
                    &&& (e is MalformedReply || e is OrdinalRange)
                    &&& !(is_list(recs, list_h as int) && messages_all_ok(
                        recs,
                        list_elems(recs, list_h as int),
                    ))
                },
            }
        }),
{
    let ghost recs0 = old(rt).records@;
    let ids: Vec<usize> = match drain_list(rt, list_h) {
        Ok(ids) => ids,
        Err(e) => {
            return Err(e);
        },
    };
    proof {
        assert(crate::runtime::payload_refs_ok(recs0[list_h as int].payload, list_h as int));
    }
    let mut ms: Vec<Message> = Vec::new();
    let mut i: usize = 0;
    while i < ids.len()
        invariant
            rt.wf(),
            recs0 == old(rt).records@,
            is_list(recs0, list_h as int),
            (list_h as int) < recs0.len(),
            ids@ == list_elems(recs0, list_h as int),
            forall|k: int| 0 <= k < ids@.len() ==> (#[trigger] ids@[k] as int) < list_h as int,
            rt.records@.len() == recs0.len() + 1,
            forall|k: int| 0 <= k < recs0.len() ==> recs0[k] == #[trigger] rt.records@[k],
            rt.records@[recs0.len() as int].roots == rt.records@[recs0.len() as int].releases,
            rt.cells@ == old(rt).cells@,
            rt.replies@ == old(rt).replies@,
            rt.calls@ == old(rt).calls@,
            rt.classes@ == old(rt).classes@,
            rt.pending_fault == old(rt).pending_fault,
            i <= ids@.len(),
            ms@.len() == i,
            forall|k: int|
                0 <= k < i ==> message_ok(recs0, #[trigger] ids@[k] as int) && message_matches(
                    recs0,
                    ids@[k] as int,
                    ms@[k],
                ),
        decreases ids@.len() - i,
    {
        let h: usize = ids[i];
        match message_from_handle(rt, h) {
            Ok(m) => {
                proof {
                    assert(rt.records@[h as int] == recs0[h as int]);
                    assert(crate::runtime::payload_refs_ok(recs0[h as int].payload, h as int));
                }
                ms.push(m);
            },
            Err(e) => {
                proof {
                    assert(rt.records@[h as int] == recs0[h as int]);
                    assert(crate::runtime::payload_refs_ok(recs0[h as int].payload, h as int));
                    assert(!message_ok(recs0, ids@[i as int] as int));
                    assert(!messages_all_ok(recs0, list_elems(recs0, list_h as int)));
                }
                return Err(e);
            },
        }
        i = i + 1;
    }
    Ok(ms)
}

/// Drain a foreign list of tokens and materialize every element, like
/// [`messages_from_list`].
pub fn tokens_from_list(rt: &mut ForeignRuntime, list_h: usize) -> (r: Result<
    Vec<Token>,
    ContractViolation,
>)
    requires
        old(rt).wf(),
        (list_h as int) < old(rt).records@.len(),
    ensures
        final(rt).wf(),
        old(rt).records@.len() <= final(rt).records@.len() <= old(rt).records@.len() + 1,
        forall|i: int|
            0 <= i < old(rt).records@.len() ==> old(rt).records@[i]
                == #[trigger] final(rt).records@[i],
        final(rt).cells@ == old(rt).cells@,
        final(rt).replies@ == old(rt).replies@,
        final(rt).calls@ == old(rt).calls@,
        final(rt).classes@ == old(rt).classes@,
        final(rt).pending_fault == old(rt).pending_fault,
        ({
            let recs = old(rt).records@;
            match r {
                Ok(ts) => {
                    &&& is_list(recs, list_h as int)
                    &&& tokens_all_ok(recs, list_elems(recs, list_h as int))
                    &&& tokens_match(recs, list_elems(recs, list_h as int), ts@)
                },
                Err(e) => {
                    &&& (e is MalformedReply || e is OrdinalRange)
                    &&& !(is_list(recs, list_h as int) && tokens_all_ok(
                        recs,
                        list_elems(recs, list_h as int),
                    ))
                },
            }
        }),
{
    let ghost recs0 = old(rt).records@;
    let ids: Vec<usize> = match drain_list(rt, list_h) {
        Ok(ids) => ids,
        Err(e) => {
            return Err(e);
        },
    };
    proof {
        assert(crate::runtime::payload_refs_ok(recs0[list_h as int].payload, list_h as int));
    }
    let mut ts: Vec<Token> = Vec::new();
    let mut i: usize = 0;
    while i < ids.len()
        invariant
            rt.wf(),
            recs0 == old(rt).records@,
            is_list(recs0, list_h as int),
            (list_h as int) < recs0.len(),
            ids@ == list_elems(recs0, list_h as int),
            forall|k: int| 0 <= k < ids@.len() ==> (#[trigger] ids@[k] as int) < list_h as int,
            rt.records@.len() == recs0.len() + 1,
            forall|k: int| 0 <= k < recs0.len() ==> recs0[k] == #[trigger] rt.records@[k],
            rt.records@[recs0.len() as int].roots == rt.records@[recs0.len() as int].releases,
            rt.cells@ == old(rt).cells@,
            rt.replies@ == old(rt).replies@,
            rt.calls@ == old(rt).calls@,
            rt.classes@ == old(rt).classes@,
            rt.pending_fault == old(rt).pending_fault,
            i <= ids@.len(),
            ts@.len() == i,
            forall|k: int|
                0 <= k < i ==> token_ok(recs0, #[trigger] ids@[k] as int) && token_matches(
                    recs0,
                    ids@[k] as int,
                    ts@[k],
                ),
        decreases ids@.len() - i,
    {
        let h: usize = ids[i];
        match token_from_handle(rt, h) {
            Ok(t) => {
                proof {
                    assert(rt.records@[h as int] == recs0[h as int]);
                    assert(crate::runtime::payload_refs_ok(recs0[h as int].payload, h as int));
                }
                ts.push(t);
            },
            Err(e) => {
                proof {
                    assert(rt.records@[h as int] == recs0[h as int]);
                    assert(crate::runtime::payload_refs_ok(recs0[h as int].payload, h as int));
                    assert(!token_ok(recs0, ids@[i as int] as int));
                    assert(!tokens_all_ok(recs0, list_elems(recs0, list_h as int)));
                }
                return Err(e);
            },
        }
        i = i + 1;
    }
    Ok(ts)
}

/// The marshalled format-options record carries exactly the host options.
pub open spec fn fmt_opts_match(p: Payload, o: FormatOptions) -> bool {
    p matches Payload::FmtOpts { spaces, style, rules } && {
        &&& spaces == (match o.spec_indent_type() {
            IndentType::Spaces(s) => Some(s.spec_size()),
            IndentType::Tabs(_) => None,
        })
        &&& style == o.spec_formatting_style().spec_ordinal()
        &&& rules@.len() == o.spec_embed_block_rules().len()
        &&& forall|i: int|
            0 <= i < rules@.len() ==> (#[trigger] rules@[i]).pattern@ == encode_utf16(
                o.spec_embed_block_rules()[i].spec_path_pattern(),
            ) && (match o.spec_embed_block_rules()[i].spec_tag() {
                Some(t) => rules@[i].tag matches Some(u) && u@ == encode_utf16(t),
                None => rules@[i].tag is None,
            })
    }
}

/// Marshal host format options into one fresh foreign options object,
/// rooted once for the call that will consume it.  Strings cross as UTF-16,
/// the style as its validated ordinal, the indent as its subtype and count.
pub fn marshal_format_options(rt: &mut ForeignRuntime, o: &FormatOptions) -> (p: OwnedKotlinPtr)
    requires
        old(rt).wf(),
    ensures
        final(rt).wf(),
        p.id() == old(rt).records@.len(),
        crate::runtime::records_extended(old(rt).records@, final(rt).records@, 1),
        ({
            let rec = final(rt).records@[old(rt).records@.len() as int];
            &&& fmt_opts_match(rec.payload, *o)
            &&& rec.roots == 1
            &&& rec.releases == 0
        }),
        final(rt).cells@ == old(rt).cells@,
        final(rt).replies@ == old(rt).replies@,
        final(rt).calls@ == old(rt).calls@,
        final(rt).classes@ == old(rt).classes@,
        final(rt).pending_fault == old(rt).pending_fault,
{
    let spaces: Option<i32> = match o.indent_type() {
        IndentType::Spaces(s) => Some(s.size()),
        IndentType::Tabs(_) => None,
    };
    let style: u64 = o.formatting_style().ordinal();
    let host_rules = o.embed_block_rules();
    let mut rules: Vec<EmbedRuleRec> = Vec::new();
    let mut i: usize = 0;
    while i < host_rules.len()
        invariant
            host_rules@ == o.spec_embed_block_rules(),
            i <= host_rules@.len(),
            rules@.len() == i,
            forall|k: int|
                0 <= k < i ==> (#[trigger] rules@[k]).pattern@ == encode_utf16(
                    o.spec_embed_block_rules()[k].spec_path_pattern(),
                ) && (match o.spec_embed_block_rules()[k].spec_tag() {
                    Some(t) => rules@[k].tag matches Some(u) && u@ == encode_utf16(t),
                    None => rules@[k].tag is None,
                }),
        decreases host_rules@.len() - i,
    {
        let pattern_s = host_rules[i].path_pattern();
        let pattern = crate::text::utf16_of_str(pattern_s.as_str());
        let tag: Option<Vec<u16>> = match host_rules[i].tag() {
            Some(t) => Some(crate::text::utf16_of_str(t.as_str())),
            None => None,
        };
        rules.push(EmbedRuleRec { pattern, tag });
        i = i + 1;
    }
    let rec = ObjectRecord {
        class_name: String::new(),
        type_token: 0,
        ordinal: 0,
        value_id: 0,
        display: Vec::new(),
        payload: Payload::FmtOpts { spaces, style, rules },
        roots: 1,
        releases: 0,
    };
    let h: usize = rt.alloc_record(rec);
    OwnedKotlinPtr::from_raw(h)
}

/// Marshal host transpile options into one fresh foreign options object.
pub fn marshal_transpile_options(rt: &mut ForeignRuntime, retain_embed_tags: bool, yaml: bool) -> (p:
    OwnedKotlinPtr)
    requires
        old(rt).wf(),
    ensures
        final(rt).wf(),
        p.id() == old(rt).records@.len(),
        crate::runtime::records_extended(old(rt).records@, final(rt).records@, 1),
        ({
            let rec = final(rt).records@[old(rt).records@.len() as int];
            &&& rec.payload == (Payload::TransOpts { retain_embed_tags, yaml })
            &&& rec.roots == 1
            &&& rec.releases == 0
        }),
        final(rt).cells@ == old(rt).cells@,
        final(rt).replies@ == old(rt).replies@,
        final(rt).calls@ == old(rt).calls@,
        final(rt).classes@ == old(rt).classes@,
        final(rt).pending_fault == old(rt).pending_fault,
{
    let rec = ObjectRecord {
        class_name: String::new(),
        type_token: 0,
        ordinal: 0,
        value_id: 0,
        display: Vec::new(),
        payload: Payload::TransOpts { retain_embed_tags, yaml },
        roots: 1,
        releases: 0,
    };
    let h: usize = rt.alloc_record(rec);
    OwnedKotlinPtr::from_raw(h)
}


/// A successful transpilation: the output text, fully materialized.
pub struct Success {
    output: String,
}

impl Success {
    /// The transpiled text.
    pub closed spec fn spec_output(self) -> Seq<char> {
        self.output@
    }

    /// Construct a success value.
    pub fn new(output: String) -> (r: Success)
        ensures
            r.spec_output() == output@,
    {
        Success { output }
    }

    /// The transpiled text.
    pub fn output(&self) -> (r: String)
        ensures
            r@ == self.spec_output(),
    {
        self.output.clone()
    }
}

/// A failed transpilation: the diagnostics, fully materialized.
pub struct Failure {
    errors: Vec<Message>,
}

impl Failure {
    /// The diagnostics.
    pub closed spec fn spec_errors(self) -> Seq<Message> {
        self.errors@
    }

    /// Construct a failure value.
    pub fn new(errors: Vec<Message>) -> (r: Failure)
        ensures
            r.spec_errors() == errors@,
    {
        Failure { errors }
    }

    /// The diagnostics.
    pub fn errors(&self) -> (r: &Vec<Message>)
        ensures
            r@ == self.spec_errors(),
    {
        &self.errors
    }

    /// The diagnostics, by value.
    pub fn into_errors(self) -> (r: Vec<Message>)
        ensures
            r@ == self.spec_errors(),
    {
        self.errors
    }
}

/// The outcome of a transpilation: domain success or domain failure, both
/// ordinary values.
pub enum TranspileResult {
    Success(Success),
    Failure(Failure),
}

impl TranspileResult {
    /// The foreign subtype's simple name.
    pub open spec fn spec_name(self) -> Seq<char> {
        match self {
            TranspileResult::Success(_) => "Success"@,
            TranspileResult::Failure(_) => "Failure"@,
        }
    }

    /// The foreign subtype's simple name.
    pub fn name(&self) -> (r: String)
        ensures
            r@ == self.spec_name(),
    {
        match self {
            TranspileResult::Success(_) => String::from_str("Success"),
            TranspileResult::Failure(_) => String::from_str("Failure"),
        }
    }
}

/// Turn the bridged two-variant outcome into the host's own result type.
pub fn kson_result_into_rust_result(r: TranspileResult) -> (out: Result<Success, Failure>)
    ensures
        match r {
            TranspileResult::Success(s) => out matches Ok(o) && o == s,
            TranspileResult::Failure(f) => out matches Err(e) && e == f,
        },
{
    match r {
        TranspileResult::Success(s) => Ok(s),
        TranspileResult::Failure(f) => Err(f),
    }
}

/// A validator for one parsed schema, foreign-resident behind a shared
/// handle.
pub struct SchemaValidatorService {
    ptr: KsonPtr,
}

impl SchemaValidatorService {
    /// The shared handle behind this validator.
    pub closed spec fn handle(self) -> KsonPtr {
        self.ptr
    }
}

/// The validator is a live reference to the given record.
pub open spec fn validator_matches(rt: ForeignRuntime, v: SchemaValidatorService, rec: int) -> bool {
    &&& v.handle().live(rt)
    &&& v.handle().spec_record(rt) == rec
}

/// A successfully parsed schema.
pub struct SchemaSuccess {
    validator: SchemaValidatorService,
}

impl SchemaSuccess {
    /// The validator for the parsed schema.
    pub closed spec fn spec_validator(self) -> SchemaValidatorService {
        self.validator
    }

    /// The validator for the parsed schema.
    pub fn schema_validator(self) -> (r: SchemaValidatorService)
        ensures
            r == self.spec_validator(),
    {
        self.validator
    }
}

/// A schema that failed to parse: the diagnostics.
pub struct SchemaFailure {
    errors: Vec<Message>,
}

impl SchemaFailure {
    /// The diagnostics.
    pub closed spec fn spec_errors(self) -> Seq<Message> {
        self.errors@
    }

    /// Construct a schema failure value.
    pub fn new(errors: Vec<Message>) -> (r: SchemaFailure)
        ensures
            r.spec_errors() == errors@,
    {
        SchemaFailure { errors }
    }

    /// The diagnostics.
    pub fn errors(&self) -> (r: &Vec<Message>)
        ensures
            r@ == self.spec_errors(),
    {
        &self.errors
    }

    /// The diagnostics, by value.
    pub fn into_errors(self) -> (r: Vec<Message>)
        ensures
            r@ == self.spec_errors(),
    {
        self.errors
    }
}

/// The outcome of parsing a schema.
pub enum SchemaResult {
    Success(SchemaSuccess),
    Failure(SchemaFailure),
}

impl SchemaResult {
    /// The foreign subtype's simple name.
    pub open spec fn spec_name(self) -> Seq<char> {
        match self {
            SchemaResult::Success(_) => "Success"@,
            SchemaResult::Failure(_) => "Failure"@,
        }
    }

    /// The foreign subtype's simple name.
    pub fn name(&self) -> (r: String)
        ensures
            r@ == self.spec_name(),
    {
        match self {
            SchemaResult::Success(_) => String::from_str("Success"),
            SchemaResult::Failure(_) => String::from_str("Failure"),
        }
    }
}

/// Turn the bridged two-variant schema outcome into the host's own result
/// type.
pub fn kson_schema_result_into_rust_result(r: SchemaResult) -> (out: Result<
    SchemaSuccess,
    SchemaFailure,
>)
    ensures
        match r {
            SchemaResult::Success(s) => out matches Ok(o) && o == s,
            SchemaResult::Failure(f) => out matches Err(e) && e == f,
        },
{
    match r {
        SchemaResult::Success(s) => Ok(s),
        SchemaResult::Failure(f) => Err(f),
    }
}

/// The result of analyzing a document: diagnostics and tokens, fully
/// materialized, and the parsed root value, if any, as a lazy proxy.
pub struct Analysis {
    errors: Vec<Message>,
    tokens: Vec<Token>,
    kson_value: Option<KsonValue>,
}

impl Analysis {
    /// The diagnostics.
    pub closed spec fn spec_errors(self) -> Seq<Message> {
        self.errors@
    }

    /// The tokens.
    pub closed spec fn spec_tokens(self) -> Seq<Token> {
        self.tokens@
    }

    /// The parsed root, if the document had one.
    pub closed spec fn spec_kson_value(self) -> Option<KsonValue> {
        self.kson_value
    }

    /// Construct an analysis value.
    pub fn new(errors: Vec<Message>, tokens: Vec<Token>, kson_value: Option<KsonValue>) -> (r:
        Analysis)
        ensures
            r.spec_errors() == errors@,
            r.spec_tokens() == tokens@,
            r.spec_kson_value() == kson_value,
    {
        Analysis { errors, tokens, kson_value }
    }

    /// The diagnostics.
    pub fn errors(&self) -> (r: &Vec<Message>)
        ensures
            r@ == self.spec_errors(),
    {
        &self.errors
    }

    /// The tokens.
    pub fn tokens(&self) -> (r: &Vec<Token>)
        ensures
            r@ == self.spec_tokens(),
    {
        &self.tokens
    }

    /// The parsed root, if the document had one.
    pub fn kson_value(&self) -> (r: &Option<KsonValue>)
        ensures
            *r == self.spec_kson_value(),
    {
        &self.kson_value
    }

    /// Split into diagnostics, tokens and parsed root, by value.
    pub fn into_parts(self) -> (r: (Vec<Message>, Vec<Token>, Option<KsonValue>))
        ensures
            r.0@ == self.spec_errors(),
            r.1@ == self.spec_tokens(),
            r.2 == self.spec_kson_value(),
    {
        let Analysis { errors, tokens, kson_value } = self;
        (errors, tokens, kson_value)
    }
}

/// The curated entry-point surface of the engine.
pub struct Kson {}

/// The reply is a well-shaped transpilation outcome.
pub open spec fn transpile_reply_ok(recs: Seq<ObjectRecord>, h: int) -> bool {
    ||| (recs[h].payload matches Payload::TranspileOk { output } && recs[output as int].payload
        is Text)
    ||| (recs[h].payload matches Payload::TranspileFail { errors } && is_list(recs, errors as int)
        && messages_all_ok(recs, list_elems(recs, errors as int)))
}

/// The reply is a well-shaped analysis object.
pub open spec fn analysis_reply_ok(recs: Seq<ObjectRecord>, h: int) -> bool {
    recs[h].payload matches Payload::Report { errors, tokens, value } && {
        &&& is_list(recs, errors as int)
        &&& messages_all_ok(recs, list_elems(recs, errors as int))
        &&& is_list(recs, tokens as int)
        &&& tokens_all_ok(recs, list_elems(recs, tokens as int))
        &&& (value matches Some(v) ==> crate::proxy::class_declared(recs, v as int))
    }
}

/// The reply is a well-shaped schema-parse outcome.
pub open spec fn schema_reply_ok(recs: Seq<ObjectRecord>, h: int) -> bool {
    ||| recs[h].payload is SchemaOk
    ||| (recs[h].payload matches Payload::SchemaFail { errors } && is_list(recs, errors as int)
        && messages_all_ok(recs, list_elems(recs, errors as int)))
}

impl Kson {
    /// Format a document.  One full round trip: the thread is bound, the
    /// text and options are marshalled in, the format entry point is
    /// invoked, the pending fault is checked, the reply text is marshalled
    /// out, and every registration made for the call is released again.
    pub fn format(
        rt: &mut ForeignRuntime,
        tb: &mut ThreadBinding,
        kson: &str,
        format_options: &FormatOptions,
    ) -> (r: Result<String, ContractViolation>)
        requires
            old(rt).wf(),
            !old(rt).pending_fault,
            old(rt).replies@.len() > 0,
            old(rt).replies@[0] matches Reply::Value(h) ==> (h as int) < old(rt).records@.len(),
            old(tb).wf(),
            old(tb).attach_calls < u64::MAX,
            old(tb).detach_calls < u64::MAX,
        ensures
            final(rt).wf(),
            !final(rt).pending_fault,
            *final(tb) == old(tb).spec_acquire().0.spec_release(old(tb).spec_acquire().1),
            final(rt).records@.len() == old(rt).records@.len() + 2,
            crate::proxy::heap_grows_meta(old(rt).records@, final(rt).records@),
            final(rt).cells@ == old(rt).cells@,
            final(rt).classes@ == old(rt).classes@,
            final(rt).replies@ == old(rt).replies@.drop_first(),
            final(rt).calls@ == old(rt).calls@.push(
                EngineCall::Format {
                    kson: old(rt).records@.len() as usize,
                    options: (old(rt).records@.len() + 1) as usize,
                },
            ),
            ({
                let k = old(rt).records@.len() as int;
                let fo = final(rt).records@;
                &&& fo[k].payload matches Payload::Text(u) && u@ == encode_utf16(kson@)
                &&& fmt_opts_match(fo[k + 1].payload, *format_options)
                &&& fo[k].roots == fo[k].releases
                &&& fo[k + 1].roots == fo[k + 1].releases
            }),
            match old(rt).replies@[0] {
                Reply::Fault => r matches Err(e) && e is ForeignFault,
                Reply::Value(h) => {
                    &&& (old(rt).records@[h as int].payload matches Payload::Text(u) ==> (
                    r matches Ok(s) && s@ == crate::text::decode_utf16(u@)))
                    &&& (!(old(rt).records@[h as int].payload is Text) ==> (r matches Err(e) && e
                        is MalformedReply))
                },
            },
    {
        let guard: DetachGuard = tb.acquire();
        let kson_ptr = rt.new_string(kson);
        let kson_h: usize = kson_ptr.record_id();
        let opts_ptr = marshal_format_options(rt, format_options);
        let opts_h: usize = opts_ptr.record_id();
        let reply_opt = rt.invoke(EngineCall::Format { kson: kson_h, options: opts_h });
        let fault = rt.check_fault();
        let out: Result<String, ContractViolation> = match fault {
            Err(e) => {
                match reply_opt {
                    Some(p) => p.dispose(rt),
                    None => {},
                }
                Err(e)
            },
            Ok(()) => match reply_opt {
                Some(owned) => {
                    let h: usize = owned.record_id();
                    let res: Result<String, ContractViolation> = match &rt.records[h].payload {
                        Payload::Text(u) => Ok(crate::text::str_of_utf16(u)),
                        _ => Err(ContractViolation::MalformedReply),
                    };
                    owned.dispose(rt);
                    res
                },
                None => Err(ContractViolation::ForeignFault),
            },
        };
        kson_ptr.dispose(rt);
        opts_ptr.dispose(rt);
        tb.release(guard);
        out
    }
}



/// Which transpile entry point a call addresses.
pub open spec fn transpile_call(k: usize, o: usize, yaml: bool) -> EngineCall {
    if yaml {
        EngineCall::ToYaml { kson: k, options: o }
    } else {
        EngineCall::ToJson { kson: k, options: o }
    }
}

/// One transpilation round trip, shared by the JSON and YAML entry points.
fn transpile(
    rt: &mut ForeignRuntime,
    tb: &mut ThreadBinding,
    kson: &str,
    retain_embed_tags: bool,
    yaml: bool,
) -> (r: Result<TranspileResult, ContractViolation>)
    requires
        old(rt).wf(),
        !old(rt).pending_fault,
        old(rt).replies@.len() > 0,
        old(rt).replies@[0] matches Reply::Value(h) ==> (h as int) < old(rt).records@.len(),
        old(tb).wf(),
        old(tb).attach_calls < u64::MAX,
        old(tb).detach_calls < u64::MAX,
    ensures
        final(rt).wf(),
        !final(rt).pending_fault,
        *final(tb) == old(tb).spec_acquire().0.spec_release(old(tb).spec_acquire().1),
        old(rt).records@.len() + 2 <= final(rt).records@.len() <= old(rt).records@.len() + 3,
        crate::proxy::heap_grows_meta(old(rt).records@, final(rt).records@),
        final(rt).cells@ == old(rt).cells@,
        final(rt).classes@ == old(rt).classes@,
        final(rt).replies@ == old(rt).replies@.drop_first(),
        final(rt).calls@ == old(rt).calls@.push(
            transpile_call(
                old(rt).records@.len() as usize,
                (old(rt).records@.len() + 1) as usize,
                yaml,
            ),
        ),
        ({
            let k = old(rt).records@.len() as int;
            let fo = final(rt).records@;
            &&& fo[k].payload matches Payload::Text(u) && u@ == encode_utf16(kson@)
            &&& fo[k + 1].payload == (Payload::TransOpts { retain_embed_tags, yaml })
            &&& fo[k].roots == fo[k].releases
            &&& fo[k + 1].roots == fo[k + 1].releases
        }),
        match old(rt).replies@[0] {
            Reply::Fault => r matches Err(e) && e is ForeignFault,
            Reply::Value(h) => {
                let recs = old(rt).records@;
                &&& (recs[h as int].payload matches Payload::TranspileOk { output } ==> ({
                    &&& (recs[output as int].payload matches Payload::Text(u) ==> (r matches Ok(tr)
                        && tr matches TranspileResult::Success(s) && s.spec_output()
                        == crate::text::decode_utf16(u@)))
                    &&& (!(recs[output as int].payload is Text) ==> (r matches Err(e) && e
                        is MalformedReply))
                }))
                &&& (recs[h as int].payload matches Payload::TranspileFail { errors } ==> ({
                    let es = list_elems(recs, errors as int);
                    &&& (is_list(recs, errors as int) && messages_all_ok(recs, es) ==> (r matches
                        Ok(tr) && tr matches TranspileResult::Failure(f) && messages_match(
                        recs,
                        es,
                        f.spec_errors(),
                    )))
                    &&& (!(is_list(recs, errors as int) && messages_all_ok(recs, es)) ==> r is Err)
                }))
                &&& (!(recs[h as int].payload is TranspileOk || recs[h as int].payload
                    is TranspileFail) ==> (r matches Err(e) && e is MalformedReply))
            },
        },
{
    let guard: DetachGuard = tb.acquire();
    let kson_ptr = rt.new_string(kson);
    let kson_h: usize = kson_ptr.record_id();
    let opts_ptr = marshal_transpile_options(rt, retain_embed_tags, yaml);
    let opts_h: usize = opts_ptr.record_id();
    let reply_opt = rt.invoke(transpile_call_value(kson_h, opts_h, yaml));
    let fault = rt.check_fault();
    let out: Result<TranspileResult, ContractViolation> = match fault {
        Err(e) => {
            match reply_opt {
                Some(p) => p.dispose(rt),
                None => {},
            }
            Err(e)
        },
        Ok(()) => match reply_opt {
            Some(owned) => {
                let h: usize = owned.record_id();
                proof {
                    assert(crate::runtime::payload_refs_ok(rt.records@[h as int].payload, h as int));
                }
                let shape: Result<Result<String, usize>, ContractViolation> = match &rt.records[h].payload {
                    Payload::TranspileOk { output } => {
                        let o_h: usize = *output;
                        match &rt.records[o_h].payload {
                            Payload::Text(u) => Ok(Ok(crate::text::str_of_utf16(u))),
                            _ => Err(ContractViolation::MalformedReply),
                        }
                    },
                    Payload::TranspileFail { errors } => Ok(Err(*errors)),
                    _ => Err(ContractViolation::MalformedReply),
                };
                owned.dispose(rt);
                match shape {
                    Err(e) => Err(e),
                    Ok(Ok(text)) => Ok(TranspileResult::Success(Success { output: text })),
                    Ok(Err(err_h)) => match messages_from_list(rt, err_h) {
                        Ok(ms) => Ok(TranspileResult::Failure(Failure { errors: ms })),
                        Err(e) => Err(e),
                    },
                }
            },
            None => Err(ContractViolation::ForeignFault),
        },
    };
    kson_ptr.dispose(rt);
    opts_ptr.dispose(rt);
    tb.release(guard);
    out
}

/// The executable twin of [`transpile_call`].
fn transpile_call_value(k: usize, o: usize, yaml: bool) -> (c: EngineCall)
    ensures
        c == transpile_call(k, o, yaml),
{
    if yaml {
        EngineCall::ToYaml { kson: k, options: o }
    } else {
        EngineCall::ToJson { kson: k, options: o }
    }
}

impl Kson {
    /// Convert a document to JSON.  Domain failures (a malformed document)
    /// come back as an ordinary [`TranspileResult::Failure`]; only contract
    /// violations surface as errors.
    pub fn to_json(
        rt: &mut ForeignRuntime,
        tb: &mut ThreadBinding,
        kson: &str,
        options: crate::values::Json,
    ) -> (r: Result<TranspileResult, ContractViolation>)
        requires
            old(rt).wf(),
            !old(rt).pending_fault,
            old(rt).replies@.len() > 0,
            old(rt).replies@[0] matches Reply::Value(h) ==> (h as int) < old(rt).records@.len(),
            old(tb).wf(),
            old(tb).attach_calls < u64::MAX,
            old(tb).detach_calls < u64::MAX,
        ensures
            final(rt).wf(),
            !final(rt).pending_fault,
            *final(tb) == old(tb).spec_acquire().0.spec_release(old(tb).spec_acquire().1),
            old(rt).records@.len() + 2 <= final(rt).records@.len() <= old(rt).records@.len() + 3,
            crate::proxy::heap_grows_meta(old(rt).records@, final(rt).records@),
            final(rt).cells@ == old(rt).cells@,
            final(rt).classes@ == old(rt).classes@,
            final(rt).replies@ == old(rt).replies@.drop_first(),
            final(rt).calls@ == old(rt).calls@.push(
                EngineCall::ToJson {
                    kson: old(rt).records@.len() as usize,
                    options: (old(rt).records@.len() + 1) as usize,
                },
            ),
            ({
                let k = old(rt).records@.len() as int;
                let fo = final(rt).records@;
                &&& fo[k].payload matches Payload::Text(u) && u@ == encode_utf16(kson@)
                &&& fo[k + 1].payload == (Payload::TransOpts {
                    retain_embed_tags: options.spec_retain_embed_tags(),
                    yaml: false,
                })
                &&& fo[k].roots == fo[k].releases
                &&& fo[k + 1].roots == fo[k + 1].releases
            }),
            match old(rt).replies@[0] {
                Reply::Fault => r matches Err(e) && e is ForeignFault,
                Reply::Value(h) => {
                    let recs = old(rt).records@;
                    &&& (recs[h as int].payload matches Payload::TranspileOk { output } ==> ({
                        &&& (recs[output as int].payload matches Payload::Text(u) ==> (r matches Ok(
                            tr,
                        ) && tr matches TranspileResult::Success(s) && s.spec_output()
                            == crate::text::decode_utf16(u@)))
                        &&& (!(recs[output as int].payload is Text) ==> (r matches Err(e) && e
                            is MalformedReply))
                    }))
                    &&& (recs[h as int].payload matches Payload::TranspileFail { errors } ==> ({
                        let es = list_elems(recs, errors as int);
                        &&& (is_list(recs, errors as int) && messages_all_ok(recs, es) ==> (
                        r matches Ok(tr) && tr matches TranspileResult::Failure(f)
                            && messages_match(recs, es, f.spec_errors())))
                        &&& (!(is_list(recs, errors as int) && messages_all_ok(recs, es)) ==> r
                            is Err)
                    }))
                    &&& (!(recs[h as int].payload is TranspileOk || recs[h as int].payload
                        is TranspileFail) ==> (r matches Err(e) && e is MalformedReply))
                },
            },
    {
        transpile(rt, tb, kson, options.retain_embed_tags(), false)
    }

    /// Convert a document to YAML, like [`Kson::to_json`].
    pub fn to_yaml(
        rt: &mut ForeignRuntime,
        tb: &mut ThreadBinding,
        kson: &str,
        options: crate::values::Yaml,
    ) -> (r: Result<TranspileResult, ContractViolation>)
        requires
            old(rt).wf(),
            !old(rt).pending_fault,
            old(rt).replies@.len() > 0,
            old(rt).replies@[0] matches Reply::Value(h) ==> (h as int) < old(rt).records@.len(),
            old(tb).wf(),
            old(tb).attach_calls < u64::MAX,
            old(tb).detach_calls < u64::MAX,
        ensures
            final(rt).wf(),
            !final(rt).pending_fault,
            *final(tb) == old(tb).spec_acquire().0.spec_release(old(tb).spec_acquire().1),
            old(rt).records@.len() + 2 <= final(rt).records@.len() <= old(rt).records@.len() + 3,
            crate::proxy::heap_grows_meta(old(rt).records@, final(rt).records@),
            final(rt).cells@ == old(rt).cells@,
            final(rt).classes@ == old(rt).classes@,
            final(rt).replies@ == old(rt).replies@.drop_first(),
            final(rt).calls@ == old(rt).calls@.push(
                EngineCall::ToYaml {
                    kson: old(rt).records@.len() as usize,
                    options: (old(rt).records@.len() + 1) as usize,
                },
            ),
            ({
                let k = old(rt).records@.len() as int;
                let fo = final(rt).records@;
                &&& fo[k].payload matches Payload::Text(u) && u@ == encode_utf16(kson@)
                &&& fo[k + 1].payload == (Payload::TransOpts {
                    retain_embed_tags: options.spec_retain_embed_tags(),
                    yaml: true,
                })
                &&& fo[k].roots == fo[k].releases
                &&& fo[k + 1].roots == fo[k + 1].releases
            }),
            match old(rt).replies@[0] {
                Reply::Fault => r matches Err(e) && e is ForeignFault,
                Reply::Value(h) => {
                    let recs = old(rt).records@;
                    &&& (recs[h as int].payload matches Payload::TranspileOk { output } ==> ({
                        &&& (recs[output as int].payload matches Payload::Text(u) ==> (r matches Ok(
                            tr,
                        ) && tr matches TranspileResult::Success(s) && s.spec_output()
                            == crate::text::decode_utf16(u@)))
                        &&& (!(recs[output as int].payload is Text) ==> (r matches Err(e) && e
                            is MalformedReply))
                    }))
                    &&& (recs[h as int].payload matches Payload::TranspileFail { errors } ==> ({
                        let es = list_elems(recs, errors as int);
                        &&& (is_list(recs, errors as int) && messages_all_ok(recs, es) ==> (
                        r matches Ok(tr) && tr matches TranspileResult::Failure(f)
                            && messages_match(recs, es, f.spec_errors())))
                        &&& (!(is_list(recs, errors as int) && messages_all_ok(recs, es)) ==> r
                            is Err)
                    }))
                    &&& (!(recs[h as int].payload is TranspileOk || recs[h as int].payload
                        is TranspileFail) ==> (r matches Err(e) && e is MalformedReply))
                },
            },
    {
        transpile(rt, tb, kson, options.retain_embed_tags(), true)
    }
}



impl Kson {
    /// Statically analyze a document: diagnostics and tokens are
    /// materialized eagerly; the parsed root, when the document has one,
    /// comes back as a lazy proxy after type dispatch.
    pub fn analyze(
        rt: &mut ForeignRuntime,
        tb: &mut ThreadBinding,
        kson: &str,
        filepath: Option<&str>,
    ) -> (r: Result<Analysis, ContractViolation>)
        requires
            old(rt).wf(),
            !old(rt).pending_fault,
            old(rt).replies@.len() > 0,
            old(rt).replies@[0] matches Reply::Value(h) ==> (h as int) < old(rt).records@.len(),
            old(tb).wf(),
            old(tb).attach_calls < u64::MAX,
            old(tb).detach_calls < u64::MAX,
        ensures
            final(rt).wf(),
            !final(rt).pending_fault,
            *final(tb) == old(tb).spec_acquire().0.spec_release(old(tb).spec_acquire().1),
            final(rt).records@.len() >= old(rt).records@.len() + 1,
            crate::proxy::heap_grows_meta(old(rt).records@, final(rt).records@),
            crate::proxy::cells_grow(old(rt).cells@, final(rt).cells@),
            final(rt).classes@ == old(rt).classes@,
            final(rt).replies@ == old(rt).replies@.drop_first(),
            final(rt).calls@ == old(rt).calls@.push(
                EngineCall::Analyze {
                    kson: old(rt).records@.len() as usize,
                    filepath: if filepath is Some {
                        Some((old(rt).records@.len() + 1) as usize)
                    } else {
                        None
                    },
                },
            ),
            ({
                let k = old(rt).records@.len() as int;
                let fo = final(rt).records@;
                &&& fo[k].payload matches Payload::Text(u) && u@ == encode_utf16(kson@)
                &&& fo[k].roots == fo[k].releases
                &&& (filepath matches Some(fp) ==> (fo[k + 1].payload matches Payload::Text(u)
                    && u@ == encode_utf16(fp@) && fo[k + 1].roots == fo[k + 1].releases))
            }),
            match old(rt).replies@[0] {
                Reply::Fault => r matches Err(e) && e is ForeignFault,
                Reply::Value(h) => {
                    let recs = old(rt).records@;
                    &&& (analysis_reply_ok(recs, h as int) <==> r is Ok)
                    &&& (recs[h as int].payload matches Payload::Report { errors, tokens, value }
                        ==> (r matches Ok(a) ==> ({
                        &&& messages_match(recs, list_elems(recs, errors as int), a.spec_errors())
                        &&& tokens_match(recs, list_elems(recs, tokens as int), a.spec_tokens())
                        &&& (value is None ==> a.spec_kson_value() is None)
                        &&& (value matches Some(v) ==> (a.spec_kson_value() matches Some(kv)
                            && crate::proxy::value_matches(*final(rt), kv, v as int)))
                    })))
                },
            },
    {
        let guard: DetachGuard = tb.acquire();
        let kson_ptr = rt.new_string(kson);
        let kson_h: usize = kson_ptr.record_id();
        let fp_ptr: Option<OwnedKotlinPtr> = match filepath {
            Some(fp) => Some(rt.new_string(fp)),
            None => None,
        };
        let fp_h: Option<usize> = match &fp_ptr {
            Some(p) => Some(p.record_id()),
            None => None,
        };
        let reply_opt = rt.invoke(EngineCall::Analyze { kson: kson_h, filepath: fp_h });
        let fault = rt.check_fault();
        let out: Result<Analysis, ContractViolation> = match fault {
            Err(e) => {
                match reply_opt {
                    Some(p) => p.dispose(rt),
                    None => {},
                }
                Err(e)
            },
            Ok(()) => match reply_opt {
                Some(owned) => {
                    let h: usize = owned.record_id();
                    proof {
                        assert(crate::runtime::payload_refs_ok(
                            rt.records@[h as int].payload,
                            h as int,
                        ));
                    }
                    let shape: Result<(usize, usize, Option<usize>), ContractViolation> = match &rt.records[h].payload {
                        Payload::Report { errors, tokens, value } => Ok(
                            (*errors, *tokens, *value),
                        ),
                        _ => Err(ContractViolation::MalformedReply),
                    };
                    owned.dispose(rt);
                    match shape {
                        Err(e) => Err(e),
                        Ok((err_h, tok_h, val_h)) => {
                            match messages_from_list(rt, err_h) {
                                Err(e) => Err(e),
                                Ok(ms) => match tokens_from_list(rt, tok_h) {
                                    Err(e) => Err(e),
                                    Ok(ts) => match val_h {
                                        None => Ok(
                                            Analysis {
                                                errors: ms,
                                                tokens: ts,
                                                kson_value: None,
                                            },
                                        ),
                                        Some(v_h) => {
                                            let v_owned = OwnedKotlinPtr::wrap(rt, v_h);
                                            match crate::proxy::dispatch_value(rt, v_owned) {
                                                Ok(kv) => Ok(
                                                    Analysis {
                                                        errors: ms,
                                                        tokens: ts,
                                                        kson_value: Some(kv),
                                                    },
                                                ),
                                                Err(e) => Err(e),
                                            }
                                        },
                                    },
                                },
                            }
                        },
                    }
                },
                None => Err(ContractViolation::ForeignFault),
            },
        };
        kson_ptr.dispose(rt);
        match fp_ptr {
            Some(p) => p.dispose(rt),
            None => {},
        }
        tb.release(guard);
        out
    }

    /// Parse a schema definition into a validator.  A malformed schema is a
    /// domain failure carrying diagnostics; a parsed one yields a
    /// foreign-resident validator behind a shared handle.
    pub fn parse_schema(rt: &mut ForeignRuntime, tb: &mut ThreadBinding, schema_kson: &str) -> (r:
        Result<SchemaResult, ContractViolation>)
        requires
            old(rt).wf(),
            !old(rt).pending_fault,
            old(rt).replies@.len() > 0,
            old(rt).replies@[0] matches Reply::Value(h) ==> (h as int) < old(rt).records@.len(),
            old(tb).wf(),
            old(tb).attach_calls < u64::MAX,
            old(tb).detach_calls < u64::MAX,
        ensures
            final(rt).wf(),
            !final(rt).pending_fault,
            *final(tb) == old(tb).spec_acquire().0.spec_release(old(tb).spec_acquire().1),
            final(rt).records@.len() >= old(rt).records@.len() + 1,
            crate::proxy::heap_grows_meta(old(rt).records@, final(rt).records@),
            crate::proxy::cells_grow(old(rt).cells@, final(rt).cells@),
            final(rt).classes@ == old(rt).classes@,
            final(rt).replies@ == old(rt).replies@.drop_first(),
            final(rt).calls@ == old(rt).calls@.push(
                EngineCall::ParseSchema { schema: old(rt).records@.len() as usize },
            ),
            ({
                let k = old(rt).records@.len() as int;
                let fo = final(rt).records@;
                &&& fo[k].payload matches Payload::Text(u) && u@ == encode_utf16(schema_kson@)
                &&& fo[k].roots == fo[k].releases
            }),
            match old(rt).replies@[0] {
                Reply::Fault => r matches Err(e) && e is ForeignFault,
                Reply::Value(h) => {
                    let recs = old(rt).records@;
                    &&& (schema_reply_ok(recs, h as int) <==> r is Ok)
                    &&& (recs[h as int].payload matches Payload::SchemaOk { validator } ==> (
                    r matches Ok(sr) ==> (sr matches SchemaResult::Success(s)
                        && validator_matches(*final(rt), s.spec_validator(), validator as int))))
                    &&& (recs[h as int].payload matches Payload::SchemaFail { errors } ==> (
                    r matches Ok(sr) ==> (sr matches SchemaResult::Failure(f) && messages_match(
                        recs,
                        list_elems(recs, errors as int),
                        f.spec_errors(),
                    ))))
                },
            },
    {
        let guard: DetachGuard = tb.acquire();
        let schema_ptr = rt.new_string(schema_kson);
        let schema_h: usize = schema_ptr.record_id();
        let reply_opt = rt.invoke(EngineCall::ParseSchema { schema: schema_h });
        let fault = rt.check_fault();
        let out: Result<SchemaResult, ContractViolation> = match fault {
            Err(e) => {
                match reply_opt {
                    Some(p) => p.dispose(rt),
                    None => {},
                }
                Err(e)
            },
            Ok(()) => match reply_opt {
                Some(owned) => {
                    let h: usize = owned.record_id();
                    proof {
                        assert(crate::runtime::payload_refs_ok(
                            rt.records@[h as int].payload,
                            h as int,
                        ));
                    }
                    let shape: Result<Result<usize, usize>, ContractViolation> = match &rt.records[h].payload {
                        Payload::SchemaOk { validator } => Ok(Ok(*validator)),
                        Payload::SchemaFail { errors } => Ok(Err(*errors)),
                        _ => Err(ContractViolation::MalformedReply),
                    };
                    owned.dispose(rt);
                    match shape {
                        Err(e) => Err(e),
                        Ok(Ok(val_h)) => {
                            let v_owned = OwnedKotlinPtr::wrap(rt, val_h);
                            let ptr = KsonPtr::share(v_owned, rt);
                            Ok(
                                SchemaResult::Success(
                                    SchemaSuccess { validator: SchemaValidatorService { ptr } },
                                ),
                            )
                        },
                        Ok(Err(err_h)) => match messages_from_list(rt, err_h) {
                            Ok(ms) => Ok(SchemaResult::Failure(SchemaFailure { errors: ms })),
                            Err(e) => Err(e),
                        },
                    }
                },
                None => Err(ContractViolation::ForeignFault),
            },
        };
        schema_ptr.dispose(rt);
        tb.release(guard);
        out
    }
}

impl SchemaValidatorService {
    /// Validate a document against this validator's schema.  The reply is a
    /// list of diagnostics, empty exactly when the document conforms; a
    /// violation of the schema is a domain result, never a fault.
    pub fn validate(
        &self,
        rt: &mut ForeignRuntime,
        tb: &mut ThreadBinding,
        kson: &str,
        filepath: Option<&str>,
    ) -> (r: Result<Vec<Message>, ContractViolation>)
        requires
            old(rt).wf(),
            !old(rt).pending_fault,
            old(rt).replies@.len() > 0,
            old(rt).replies@[0] matches Reply::Value(h) ==> (h as int) < old(rt).records@.len(),
            self.handle().live(*old(rt)),
            old(tb).wf(),
            old(tb).attach_calls < u64::MAX,
            old(tb).detach_calls < u64::MAX,
        ensures
            final(rt).wf(),
            !final(rt).pending_fault,
            *final(tb) == old(tb).spec_acquire().0.spec_release(old(tb).spec_acquire().1),
            final(rt).records@.len() >= old(rt).records@.len() + 1,
            crate::proxy::heap_grows_meta(old(rt).records@, final(rt).records@),
            final(rt).cells@ == old(rt).cells@,
            final(rt).classes@ == old(rt).classes@,
            final(rt).replies@ == old(rt).replies@.drop_first(),
            final(rt).calls@ == old(rt).calls@.push(
                EngineCall::Validate {
                    validator: rt_validator(*old(rt), *self),
                    kson: old(rt).records@.len() as usize,
                    filepath: if filepath is Some {
                        Some((old(rt).records@.len() + 1) as usize)
                    } else {
                        None
                    },
                },
            ),
            ({
                let k = old(rt).records@.len() as int;
                let fo = final(rt).records@;
                &&& fo[k].payload matches Payload::Text(u) && u@ == encode_utf16(kson@)
                &&& fo[k].roots == fo[k].releases
                &&& (filepath matches Some(fp) ==> (fo[k + 1].payload matches Payload::Text(u)
                    && u@ == encode_utf16(fp@) && fo[k + 1].roots == fo[k + 1].releases))
            }),
            match old(rt).replies@[0] {
                Reply::Fault => r matches Err(e) && e is ForeignFault,
                Reply::Value(h) => {
                    let recs = old(rt).records@;
                    let es = list_elems(recs, h as int);
                    &&& ((is_list(recs, h as int) && messages_all_ok(recs, es)) <==> r is Ok)
                    &&& (r matches Ok(ms) ==> messages_match(recs, es, ms@))
                },
            },
    {
        let guard: DetachGuard = tb.acquire();
        let validator_h: usize = self.ptr.record_id(rt);
        let kson_ptr = rt.new_string(kson);
        let kson_h: usize = kson_ptr.record_id();
        let fp_ptr: Option<OwnedKotlinPtr> = match filepath {
            Some(fp) => Some(rt.new_string(fp)),
            None => None,
        };
        let fp_h: Option<usize> = match &fp_ptr {
            Some(p) => Some(p.record_id()),
            None => None,
        };
        let reply_opt = rt.invoke(
            EngineCall::Validate { validator: validator_h, kson: kson_h, filepath: fp_h },
        );
        let fault = rt.check_fault();
        let out: Result<Vec<Message>, ContractViolation> = match fault {
            Err(e) => {
                match reply_opt {
                    Some(p) => p.dispose(rt),
                    None => {},
                }
                Err(e)
            },
            Ok(()) => match reply_opt {
                Some(owned) => {
                    let h: usize = owned.record_id();
                    let res = messages_from_list(rt, h);
                    owned.dispose(rt);
                    res
                },
                None => Err(ContractViolation::ForeignFault),
            },
        };
        kson_ptr.dispose(rt);
        match fp_ptr {
            Some(p) => p.dispose(rt),
            None => {},
        }
        tb.release(guard);
        out
    }
}

/// The record a validator handle refers to, for stating which handle an
/// invocation carried.
pub open spec fn rt_validator(rt: ForeignRuntime, v: SchemaValidatorService) -> usize {
    rt.cells@[v.handle().cell_id()].record
}



/// Message predicates read only what meta-preserving growth keeps: the
/// payload graph, ordinals and display renderings.
pub proof fn lemma_message_ok_stable(a: Seq<ObjectRecord>, b: Seq<ObjectRecord>, h: int)
    requires
        crate::proxy::heap_grows_meta(a, b),
        0 <= h < a.len(),
        crate::runtime::payload_refs_ok(a[h].payload, h),
    ensures
        message_ok(a, h) == message_ok(b, h),
{
    assert(crate::runtime::rec_meta_eq(a[h], b[h]));
    match a[h].payload {
        Payload::Msg { text, severity, start, end } => {
            assert(crate::runtime::rec_meta_eq(a[text as int], b[text as int]));
            assert(crate::runtime::rec_meta_eq(a[severity as int], b[severity as int]));
            assert(crate::runtime::rec_meta_eq(a[start as int], b[start as int]));
            assert(crate::runtime::rec_meta_eq(a[end as int], b[end as int]));
        },
        _ => {},
    }
}

/// Like [`lemma_message_ok_stable`], for the exact-content relation.
pub proof fn lemma_message_matches_stable(
    a: Seq<ObjectRecord>,
    b: Seq<ObjectRecord>,
    h: int,
    m: Message,
)
    requires
        crate::proxy::heap_grows_meta(a, b),
        0 <= h < a.len(),
        crate::runtime::payload_refs_ok(a[h].payload, h),
    ensures
        message_matches(a, h, m) == message_matches(b, h, m),
{
    assert(crate::runtime::rec_meta_eq(a[h], b[h]));
    match a[h].payload {
        Payload::Msg { text, severity, start, end } => {
            assert(crate::runtime::rec_meta_eq(a[text as int], b[text as int]));
            assert(crate::runtime::rec_meta_eq(a[severity as int], b[severity as int]));
            assert(crate::runtime::rec_meta_eq(a[start as int], b[start as int]));
            assert(crate::runtime::rec_meta_eq(a[end as int], b[end as int]));
        },
        _ => {},
    }
}

/// A message list reads the same before and after meta-preserving growth.
pub proof fn lemma_messages_stable(
    a: Seq<ObjectRecord>,
    b: Seq<ObjectRecord>,
    l: int,
    ms: Seq<Message>,
)
    requires
        crate::proxy::heap_grows_meta(a, b),
        0 <= l < a.len(),
        forall|i: int| 0 <= i < a.len() ==> crate::runtime::payload_refs_ok(#[trigger] a[i].payload, i),
    ensures
        is_list(a, l) == is_list(b, l),
        list_elems(a, l) == list_elems(b, l),
        messages_all_ok(a, list_elems(a, l)) == messages_all_ok(b, list_elems(b, l)),
        messages_match(a, list_elems(a, l), ms) == messages_match(b, list_elems(b, l), ms),
{
    assert(crate::runtime::rec_meta_eq(a[l], b[l]));
    let es = list_elems(a, l);
    assert forall|i: int| 0 <= i < es.len() implies {
        &&& (es[i] as int) < a.len()
        &&& message_ok(a, #[trigger] es[i] as int) == message_ok(b, es[i] as int)
        &&& forall|k: int|
            0 <= k < ms.len() ==> message_matches(a, es[i] as int, #[trigger] ms[k])
                == message_matches(b, es[i] as int, ms[k])
    } by {
        assert(crate::runtime::payload_refs_ok(a[l].payload, l));
        lemma_message_ok_stable(a, b, es[i] as int);
        assert forall|k: int|
            0 <= k < ms.len() implies message_matches(a, es[i] as int, #[trigger] ms[k])
            == message_matches(b, es[i] as int, ms[k]) by {
            lemma_message_matches_stable(a, b, es[i] as int, ms[k]);
        }
    }
}


} // verus!
