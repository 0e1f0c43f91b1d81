//! A host-side proxy layer for a document-language engine that lives in a
//! separately compiled, garbage-collected foreign runtime.
//!
//! The engine itself (lexer, parser, formatter, schema validator) is an
//! external collaborator and is not implemented here.  What this crate
//! implements, and what is verified, is the bridge: lifetime management of
//! opaque foreign object handles, the per-thread attachment protocol that
//! must hold before any foreign call, reification of foreign class
//! hierarchies into local tagged unions, marshalling of strings and
//! collections across the encoding boundary, and the translation of
//! foreign-side faults into host-side fatal conditions.
//!
//! Every operation runs against an explicit model of the foreign runtime
//! ([`ForeignRuntime`]): a heap of object records together with the
//! bookkeeping the bridge relies on (garbage-collection roots, reference
//! counts, a pending-fault flag, and the replies the engine gives to entry
//! point invocations).  The contracts state exactly how each bridge
//! operation reads and transforms that state, for every reply the engine
//! may give.

mod api;
mod binding;
mod dispatch;
mod handles;
mod proxy;
mod reflect;
mod runtime;
mod server;
mod text;
mod values;

pub use api::Analysis;
pub use api::Failure;
pub use api::Kson;
pub use api::SchemaFailure;
pub use api::SchemaResult;
pub use api::SchemaSuccess;
pub use api::SchemaValidatorService;
pub use api::Success;
pub use api::TranspileResult;
pub use api::kson_result_into_rust_result;
pub use api::kson_schema_result_into_rust_result;
pub use api::messages_from_list;
pub use api::tokens_from_list;
pub use binding::DetachGuard;
pub use dispatch::FormattingStyle;
pub use dispatch::KsonValueType;
pub use dispatch::MessageSeverity;
pub use dispatch::TokenEntry;
pub use dispatch::TokenType;
pub use dispatch::dispatch_value_class;
pub use dispatch::dispatch_value_token;
pub use dispatch::resolve_value_token_table;
pub use binding::ThreadBinding;
pub use handles::KsonPtr;
pub use handles::OwnedKotlinPtr;
pub use runtime::ClassDef;
pub use runtime::ContractViolation;
pub use runtime::EngineCall;
pub use runtime::ForeignRuntime;
pub use runtime::ObjectRecord;
pub use runtime::Payload;
pub use runtime::Reply;
pub use runtime::EmbedRuleRec;
pub use runtime::ShareCell;
pub use proxy::KsonDecimal;
pub use proxy::KsonInteger;
pub use proxy::KsonArray;
pub use proxy::KsonBoolean;
pub use proxy::KsonEmbed;
pub use proxy::KsonNull;
pub use proxy::KsonNumber;
pub use proxy::KsonObject;
pub use proxy::KsonString;
pub use proxy::KsonValue;
pub use proxy::dispatch_value;
pub use proxy::drain_list;
pub use proxy::drain_map;
pub use reflect::apply_hash_code;
pub use reflect::class_name;
pub use reflect::enum_name;
pub use reflect::enum_ordinal;
pub use reflect::equals;
pub use reflect::to_string;
pub use server::EmbedRuleDto;
pub use server::FormatOptionsDto;
pub use server::IndentTypeDto;
pub use server::Request;
pub use server::Response;
pub use server::convert_format_options;
pub use server::convert_formatting_style;
pub use server::convert_indent_type;
pub use server::handle_request;
pub use text::str_of_utf16;
pub use text::utf16_of_str;
pub use values::EmbedRule;
pub use values::FormatOptions;
pub use values::IndentType;
pub use values::Json;
pub use values::Message;
pub use values::Position;
pub use values::Spaces;
pub use values::Tabs;
pub use values::Token;
pub use values::TranspileOptions;
pub use values::Yaml;
pub use values::message_from_handle;
pub use values::position_from_handle;
pub use values::token_from_handle;

use vstd::prelude::*;

verus! {

/// Serde-style default for options whose absent value means "enabled".
pub fn default_true() -> (r: bool)
    ensures
        r,
{
    true
}

} // verus!
