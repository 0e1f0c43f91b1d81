//! Request decisions for a thin façade over the bridge.
//!
//! A façade (an HTTP server, a command-line tool) parses wire requests into
//! the plain [`Request`] value and renders the plain [`Response`] value back
//! out; what happens in between — which entry point to invoke, how absent
//! options default, how each engine outcome maps to a response — is decided
//! here, against the same runtime model as the rest of the bridge.

use vstd::prelude::*;

use crate::api::Kson;
use crate::api::SchemaResult;
use crate::api::TranspileResult;
use crate::binding::ThreadBinding;
use crate::dispatch::FormattingStyle;
use crate::proxy::KsonValue;
use crate::runtime::ContractViolation;
use crate::runtime::ForeignRuntime;
use crate::runtime::Payload;
use crate::runtime::Reply;
use crate::text::str_eq;
use crate::values::EmbedRule;
use crate::values::FormatOptions;
use crate::values::IndentType;
use crate::values::Message;
use crate::values::Spaces;
use crate::values::Tabs;
use crate::values::Token;

verus! {

/// The indentation choice of a wire request.
pub struct IndentTypeDto {
    /// The subtype name: "tabs" selects tabs, anything else spaces.
    pub kind: String,
    /// The spaces count, defaulting to two.
    pub size: Option<i32>,
}

/// An embed rule of a wire request.
pub struct EmbedRuleDto {
    pub path_pattern: String,
    pub tag: Option<String>,
}

/// The format options of a wire request; absent pieces take defaults.
pub struct FormatOptionsDto {
    pub indent_type: Option<IndentTypeDto>,
    pub formatting_style: Option<String>,
    pub embed_block_rules: Option<Vec<EmbedRuleDto>>,
}

/// One parsed wire request.
pub enum Request {
    Format { kson: String, format_options: Option<FormatOptionsDto> },
    ToJson { kson: String, retain_embed_tags: bool },
    ToYaml { kson: String, retain_embed_tags: bool },
    Analyze { kson: String, filepath: Option<String> },
    ParseSchema { schema_kson: String },
    Validate { schema_kson: String, kson: String, filepath: Option<String> },
}

/// One response, as plain values ready for rendering.
pub enum Response {
    Format { output: String },
    ToJson { success: bool, output: Option<String>, errors: Vec<Message> },
    ToYaml { success: bool, output: Option<String>, errors: Vec<Message> },
    Analyze { errors: Vec<Message>, tokens: Vec<Token>, kson_value: Option<KsonValue> },
    ParseSchema { success: bool, errors: Vec<Message> },
    Validate { success: bool, errors: Vec<Message> },
}

/// The formatting style a wire name selects: unknown names fall back to the
/// plain style.
pub open spec fn spec_convert_formatting_style(s: Seq<char>) -> FormattingStyle {
    if s == "DELIMITED"@ {
        FormattingStyle::Delimited
    } else if s == "COMPACT"@ {
        FormattingStyle::Compact
    } else if s == "CLASSIC"@ {
        FormattingStyle::Classic
    } else {
        FormattingStyle::Plain
    }
}

/// An absent count defaults.
pub open spec fn spec_opt_i32(o: Option<i32>, d: i32) -> i32 {
    match o {
        Some(x) => x,
        None => d,
    }
}

/// The indentation a wire request selects: "tabs" selects tabs, anything
/// else spaces with the given (or default two-space) count, and an absent
/// choice defaults to two spaces.
pub open spec fn spec_convert_indent_type(dto: Option<IndentTypeDto>) -> IndentType {
    match dto {
        Some(it) => if it.kind@ == "tabs"@ {
            IndentType::Tabs(Tabs {  })
        } else {
            IndentType::Spaces(Spaces { size: spec_opt_i32(it.size, 2) })
        },
        None => IndentType::Spaces(Spaces { size: 2 }),
    }
}

/// The style a request selects, defaulting to plain.
pub open spec fn spec_dto_style(s: Option<String>) -> FormattingStyle {
    match s {
        Some(x) => spec_convert_formatting_style(x@),
        None => FormattingStyle::Plain,
    }
}

/// Map a wire style name to the formatting style, unknown names falling
/// back to the plain style.
pub fn convert_formatting_style(s: &str) -> (r: FormattingStyle)
    ensures
        r == spec_convert_formatting_style(s@),
{
    if str_eq(s, "DELIMITED") {
        FormattingStyle::Delimited
    } else if str_eq(s, "COMPACT") {
        FormattingStyle::Compact
    } else if str_eq(s, "CLASSIC") {
        FormattingStyle::Classic
    } else {
        FormattingStyle::Plain
    }
}

/// Map a wire indentation choice to the host indentation value.
pub fn convert_indent_type(dto: &IndentTypeDto) -> (r: IndentType)
    ensures
        r == spec_convert_indent_type(Some(IndentTypeDto { kind: dto.kind, size: dto.size })),
{
    if str_eq(dto.kind.as_str(), "tabs") {
        IndentType::Tabs(Tabs::new())
    } else {
        let size: i32 = match dto.size {
            Some(s) => s,
            None => 2,
        };
        IndentType::Spaces(Spaces::new(size))
    }
}

/// Map wire format options to host format options, filling every absent
/// piece with its default: two-space indentation, the plain style, and no
/// embed rules.
pub fn convert_format_options(dto: &Option<FormatOptionsDto>) -> (r: FormatOptions)
    ensures
        ({
            match dto {
                Some(d) => {
                    &&& r.spec_indent_type() == spec_convert_indent_type(d.indent_type)
                    &&& r.spec_formatting_style() == spec_dto_style(d.formatting_style)
                    &&& (match d.embed_block_rules {
                        Some(rules) => r.spec_embed_block_rules().len() == rules@.len()
                            && forall|i: int|
                            0 <= i < rules@.len() ==> (#[trigger] r.spec_embed_block_rules()[i]).spec_path_pattern()
                                == rules@[i].path_pattern@
                                && (match rules@[i].tag {
                                Some(t) => r.spec_embed_block_rules()[i].spec_tag() == Some(t@),
                                None => r.spec_embed_block_rules()[i].spec_tag() is None,
                            }),
                        None => r.spec_embed_block_rules().len() == 0,
                    })
                },
                None => {
                    &&& r.spec_indent_type() == (IndentType::Spaces(Spaces { size: 2 }))
                    &&& r.spec_formatting_style() == FormattingStyle::Plain
                    &&& r.spec_embed_block_rules().len() == 0
                },
            }
        }),
{
    let indent_type: IndentType = match dto {
        Some(d) => match &d.indent_type {
            Some(it) => convert_indent_type(it),
            None => IndentType::Spaces(Spaces::new(2)),
        },
        None => IndentType::Spaces(Spaces::new(2)),
    };
    let formatting_style: FormattingStyle = match dto {
        Some(d) => match &d.formatting_style {
            Some(s) => convert_formatting_style(s.as_str()),
            None => FormattingStyle::Plain,
        },
        None => FormattingStyle::Plain,
    };
    let mut embed_rules: Vec<EmbedRule> = Vec::new();
    match dto {
        Some(d) => match &d.embed_block_rules {
            Some(rules) => {
                let mut i: usize = 0;
                while i < rules.len()
                    invariant
                        i <= rules@.len(),
                        embed_rules@.len() == i,
                        forall|k: int|
                            0 <= k < i ==> (#[trigger] embed_rules@[k]).spec_path_pattern()
                                == rules@[k].path_pattern@ && (match rules@[k].tag {
                                Some(t) => embed_rules@[k].spec_tag() == Some(t@),
                                None => embed_rules@[k].spec_tag() is None,
                            }),
                    decreases rules@.len() - i,
                {
                    let pattern = rules[i].path_pattern.clone();
                    let tag: Option<String> = match &rules[i].tag {
                        Some(t) => Some(t.clone()),
                        None => None,
                    };
                    embed_rules.push(EmbedRule::new(pattern, tag));
                    i = i + 1;
                }
            },
            None => {},
        },
        None => {},
    }
    FormatOptions::new(indent_type, formatting_style, embed_rules)
}

/// How many scripted replies one request consumes: the validate command
/// makes two foreign calls when its schema parses, every other path makes
/// one.
pub open spec fn replies_needed(req: Request) -> int {
    match req {
        Request::Validate { .. } => 2,
        _ => 1,
    }
}

/// Serve one request: convert its options, invoke the entry point it
/// addresses, and map the outcome to a response.  Domain failures become
/// responses with `success == false` and the diagnostics attached; contract
/// violations propagate unchanged and are never folded into a response.
#[verifier::rlimit(60)]
pub fn handle_request(rt: &mut ForeignRuntime, tb: &mut ThreadBinding, request: Request) -> (r:
    Result<Response, ContractViolation>)
    requires
        old(rt).wf(),
        !old(rt).pending_fault,
        old(rt).replies@.len() >= replies_needed(request),
        forall|i: int|
            0 <= i < old(rt).replies@.len() ==> (#[trigger] old(rt).replies@[i] matches
                Reply::Value(h) ==> (h as int) < old(rt).records@.len()),
        old(tb).wf(),
        old(tb).attach_calls + 2 < u64::MAX,
        old(tb).detach_calls + 2 < u64::MAX,
    ensures
        final(rt).wf(),
        !final(rt).pending_fault,
        final(tb).wf(),
        final(tb).bound == old(tb).bound,
        crate::proxy::heap_grows_meta(old(rt).records@, final(rt).records@),
        crate::proxy::cells_grow(old(rt).cells@, final(rt).cells@),
        final(rt).classes@ == old(rt).classes@,
        final(rt).calls@.len() > old(rt).calls@.len(),
        ({
            match request {
                Request::Format { .. } => final(rt).calls@.last() is Format,
                Request::ToJson { .. } => final(rt).calls@.last() is ToJson,
                Request::ToYaml { .. } => final(rt).calls@.last() is ToYaml,
                Request::Analyze { .. } => final(rt).calls@.last() is Analyze,
                Request::ParseSchema { .. } => final(rt).calls@.last() is ParseSchema,
                Request::Validate { .. } => final(rt).calls@.last() is ParseSchema
                    || final(rt).calls@.last() is Validate,
            }
        }),
        ({
            match request {
                Request::Format { .. } => r matches Ok(resp) ==> resp is Format,
                Request::ToJson { .. } => r matches Ok(resp) ==> resp is ToJson,
                Request::ToYaml { .. } => r matches Ok(resp) ==> resp is ToYaml,
                Request::Analyze { .. } => r matches Ok(resp) ==> resp is Analyze,
                Request::ParseSchema { .. } => r matches Ok(resp) ==> resp is ParseSchema,
                Request::Validate { .. } => r matches Ok(resp) ==> resp is Validate,
            }
        }),
        ({
            let recs = old(rt).records@;
            match request {
                Request::Format { .. } => old(rt).replies@[0] matches Reply::Value(h) ==> (
                recs[h as int].payload matches Payload::Text(u) ==> (r matches Ok(resp)
                    && resp matches Response::Format { output } && output@
                    == crate::text::decode_utf16(u@))),
                Request::ToJson { .. } => old(rt).replies@[0] matches Reply::Value(h) ==> ({
                    &&& (recs[h as int].payload matches Payload::TranspileOk { output } ==> (
                    recs[output as int].payload matches Payload::Text(u) ==> (r matches Ok(resp)
                        && resp matches Response::ToJson { success, output: out, errors }
                        && success && (out matches Some(o) && o@ == crate::text::decode_utf16(u@))
                        && errors@.len() == 0)))
                    &&& (recs[h as int].payload matches Payload::TranspileFail { errors: l } ==> (
                    crate::api::is_list(recs, l as int) && crate::api::messages_all_ok(
                        recs,
                        crate::api::list_elems(recs, l as int),
                    ) ==> (r matches Ok(resp) && resp matches Response::ToJson {
                        success,
                        output: out,
                        errors,
                    } && !success && out is None && crate::api::messages_match(
                        recs,
                        crate::api::list_elems(recs, l as int),
                        errors@,
                    ))))
                }),
                Request::ToYaml { .. } => old(rt).replies@[0] matches Reply::Value(h) ==> ({
                    &&& (recs[h as int].payload matches Payload::TranspileOk { output } ==> (
                    recs[output as int].payload matches Payload::Text(u) ==> (r matches Ok(resp)
                        && resp matches Response::ToYaml { success, output: out, errors }
                        && success && (out matches Some(o) && o@ == crate::text::decode_utf16(u@))
                        && errors@.len() == 0)))
                    &&& (recs[h as int].payload matches Payload::TranspileFail { errors: l } ==> (
                    crate::api::is_list(recs, l as int) && crate::api::messages_all_ok(
                        recs,
                        crate::api::list_elems(recs, l as int),
                    ) ==> (r matches Ok(resp) && resp matches Response::ToYaml {
                        success,
                        output: out,
                        errors,
                    } && !success && out is None && crate::api::messages_match(
                        recs,
                        crate::api::list_elems(recs, l as int),
                        errors@,
                    ))))
                }),
                Request::Analyze { .. } => old(rt).replies@[0] matches Reply::Value(h) ==> (
                recs[h as int].payload matches Payload::Report { errors: el, tokens: tl, value }
                    ==> (r matches Ok(resp) ==> (resp matches Response::Analyze {
                    errors,
                    tokens,
                    kson_value,
                } && crate::api::messages_match(
                    recs,
                    crate::api::list_elems(recs, el as int),
                    errors@,
                ) && crate::api::tokens_match(
                    recs,
                    crate::api::list_elems(recs, tl as int),
                    tokens@,
                ) && (value is None ==> kson_value is None) && (value matches Some(v) ==> (
                kson_value matches Some(kv) && crate::proxy::value_matches(
                    *final(rt),
                    kv,
                    v as int,
                )))))),
                Request::ParseSchema { .. } => old(rt).replies@[0] matches Reply::Value(h) ==> ({
                    &&& (recs[h as int].payload is SchemaOk ==> (r matches Ok(resp)
                        && resp matches Response::ParseSchema { success, errors } && success
                        && errors@.len() == 0))
                    &&& (recs[h as int].payload matches Payload::SchemaFail { errors: l } ==> (
                    crate::api::is_list(recs, l as int) && crate::api::messages_all_ok(
                        recs,
                        crate::api::list_elems(recs, l as int),
                    ) ==> (r matches Ok(resp) && resp matches Response::ParseSchema {
                        success,
                        errors,
                    } && !success && crate::api::messages_match(
                        recs,
                        crate::api::list_elems(recs, l as int),
                        errors@,
                    ))))
                }),
                Request::Validate { .. } => old(rt).replies@[0] matches Reply::Value(h) ==> ({
                    &&& (recs[h as int].payload matches Payload::SchemaFail { errors: l } ==> (
                    crate::api::is_list(recs, l as int) && crate::api::messages_all_ok(
                        recs,
                        crate::api::list_elems(recs, l as int),
                    ) ==> (r matches Ok(resp) && resp matches Response::Validate {
                        success,
                        errors,
                    } && !success && crate::api::messages_match(
                        recs,
                        crate::api::list_elems(recs, l as int),
                        errors@,
                    ))))
                    &&& (recs[h as int].payload is SchemaOk ==> match old(rt).replies@[1] {
                        Reply::Fault => r matches Err(e) && e is ForeignFault,
                        Reply::Value(h2) => crate::api::is_list(recs, h2 as int)
                            && crate::api::messages_all_ok(
                            recs,
                            crate::api::list_elems(recs, h2 as int),
                        ) ==> (r matches Ok(resp) && resp matches Response::Validate {
                            success,
                            errors,
                        } && crate::api::messages_match(
                            recs,
                            crate::api::list_elems(recs, h2 as int),
                            errors@,
                        ) && (success <==> crate::api::list_elems(recs, h2 as int).len() == 0)),
                    })
                }),
            }
        }),
        (old(rt).replies@[0] is Fault ==> (r matches Err(e) && e is ForeignFault)),
        ({
            match r {
                Ok(resp) => match resp {
                    Response::ToJson { success, output, errors } => (success <==> output is Some)
                        && (success ==> errors@.len() == 0),
                    Response::ToYaml { success, output, errors } => (success <==> output is Some)
                        && (success ==> errors@.len() == 0),
                    Response::Validate { success, errors } => success ==> errors@.len() == 0,
                    _ => true,
                },
                Err(_) => true,
            }
        }),
{
    match request {
        Request::Format { kson, format_options } => {
            let opts = convert_format_options(&format_options);
            match Kson::format(rt, tb, kson.as_str(), &opts) {
                Ok(output) => Ok(Response::Format { output }),
                Err(e) => Err(e),
            }
        },
        Request::ToJson { kson, retain_embed_tags } => {
            let opts = crate::values::Json::new(retain_embed_tags);
            match Kson::to_json(rt, tb, kson.as_str(), opts) {
                Ok(TranspileResult::Success(s)) => Ok(
                    Response::ToJson { success: true, output: Some(s.output()), errors: Vec::new() },
                ),
                Ok(TranspileResult::Failure(f)) => Ok(
                    Response::ToJson { success: false, output: None, errors: f.into_errors() },
                ),
                Err(e) => Err(e),
            }
        },
        Request::ToYaml { kson, retain_embed_tags } => {
            let opts = crate::values::Yaml::new(retain_embed_tags);
            match Kson::to_yaml(rt, tb, kson.as_str(), opts) {
                Ok(TranspileResult::Success(s)) => Ok(
                    Response::ToYaml { success: true, output: Some(s.output()), errors: Vec::new() },
                ),
                Ok(TranspileResult::Failure(f)) => Ok(
                    Response::ToYaml { success: false, output: None, errors: f.into_errors() },
                ),
                Err(e) => Err(e),
            }
        },
        Request::Analyze { kson, filepath } => {
            let fp: Option<&str> = match &filepath {
                Some(s) => Some(s.as_str()),
                None => None,
            };
            match Kson::analyze(rt, tb, kson.as_str(), fp) {
                Ok(analysis) => {
                    let (errors, tokens, kson_value) = analysis.into_parts();
                    Ok(Response::Analyze { errors, tokens, kson_value })
                },
                Err(e) => Err(e),
            }
        },
        Request::ParseSchema { schema_kson } => {
            match Kson::parse_schema(rt, tb, schema_kson.as_str()) {
                Ok(SchemaResult::Success(_)) => Ok(
                    Response::ParseSchema { success: true, errors: Vec::new() },
                ),
                Ok(SchemaResult::Failure(f)) => Ok(
                    Response::ParseSchema { success: false, errors: f.into_errors() },
                ),
                Err(e) => Err(e),
            }
        },
        Request::Validate { schema_kson, kson, filepath } => {
            match Kson::parse_schema(rt, tb, schema_kson.as_str()) {
                Ok(SchemaResult::Success(success)) => {
                    let validator = success.schema_validator();
                    let fp: Option<&str> = match &filepath {
                        Some(s) => Some(s.as_str()),
                        None => None,
                    };
                    let ghost mid = *rt;
                    proof {
                        assert(mid.replies@[0] == old(rt).replies@[1]);
                    }
                    match validator.validate(rt, tb, kson.as_str(), fp) {
                        Ok(errors) => {
                            proof {
                                match mid.replies@[0] {
                                    Reply::Value(h2) => {
                                        crate::api::lemma_messages_stable(
                                            old(rt).records@,
                                            mid.records@,
                                            h2 as int,
                                            errors@,
                                        );
                                    },
                                    Reply::Fault => {},
                                }
                            }
                            let ok: bool = errors.len() == 0;
                            Ok(Response::Validate { success: ok, errors })
                        },
                        Err(e) => Err(e),
                    }
                },
                Ok(SchemaResult::Failure(f)) => Ok(
                    Response::Validate { success: false, errors: f.into_errors() },
                ),
                Err(e) => Err(e),
            }
        },
    }
}

} // verus!
