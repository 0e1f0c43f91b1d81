//! Host-native value types, and their materialization from foreign reply
//! objects.
//!
//! Small, frequently-destructured values (positions, diagnostics, tokens,
//! option objects) are flattened eagerly into host-native fields the moment
//! they cross the boundary, so destructuring them costs no further foreign
//! round trips.  The parsed document tree, by contrast, stays
//! foreign-resident behind shared handles (see the proxy types).

use vstd::prelude::*;

use crate::dispatch::FormattingStyle;
use crate::dispatch::MessageSeverity;
use crate::dispatch::TokenType;
use crate::runtime::ContractViolation;
use crate::runtime::ForeignRuntime;
use crate::runtime::ObjectRecord;
use crate::runtime::Payload;
use crate::text::decode_utf16;
use crate::text::str_of_utf16;

verus! {

/// A position in a source document, zero-based.
#[derive(Clone, Copy, PartialEq, Eq, Structural, Debug)]
pub struct Position {
    pub line: i32,
    pub column: i32,
}

impl Position {
    /// The line, zero-based.
    pub open spec fn spec_line(self) -> i32 {
        self.line
    }

    /// The column, zero-based.
    pub open spec fn spec_column(self) -> i32 {
        self.column
    }

    /// Construct a position.
    pub fn new(line: i32, column: i32) -> (p: Position)
        ensures
            p.spec_line() == line,
            p.spec_column() == column,
    {
        Position { line, column }
    }

    /// The line, zero-based.
    pub fn line(&self) -> (r: i32)
        ensures
            r == self.spec_line(),
    {
        self.line
    }

    /// The column, zero-based.
    pub fn column(&self) -> (r: i32)
        ensures
            r == self.spec_column(),
    {
        self.column
    }
}

/// A user-facing diagnostic: these are ordinary data, never faults.
#[derive(Clone, Debug)]
pub struct Message {
    message: String,
    severity: MessageSeverity,
    start: Position,
    end: Position,
}

impl Message {
    /// The diagnostic text.
    pub closed spec fn spec_message(self) -> Seq<char> {
        self.message@
    }

    /// The severity.
    pub closed spec fn spec_severity(self) -> MessageSeverity {
        self.severity
    }

    /// Where the diagnosed range starts.
    pub closed spec fn spec_start(self) -> Position {
        self.start
    }

    /// Where the diagnosed range ends.
    pub closed spec fn spec_end(self) -> Position {
        self.end
    }

    /// Construct a diagnostic.
    pub fn new(message: String, severity: MessageSeverity, start: Position, end: Position) -> (m:
        Message)
        ensures
            m.spec_message() == message@,
            m.spec_severity() == severity,
            m.spec_start() == start,
            m.spec_end() == end,
    {
        Message { message, severity, start, end }
    }

    /// The diagnostic text.
    pub fn message(&self) -> (r: String)
        ensures
            r@ == self.spec_message(),
    {
        self.message.clone()
    }

    /// The severity.
    pub fn severity(&self) -> (r: MessageSeverity)
        ensures
            r == self.spec_severity(),
    {
        self.severity
    }

    /// Where the diagnosed range starts.
    pub fn start(&self) -> (r: Position)
        ensures
            r == self.spec_start(),
    {
        self.start
    }

    /// Where the diagnosed range ends.
    pub fn end(&self) -> (r: Position)
        ensures
            r == self.spec_end(),
    {
        self.end
    }
}

/// One lexer token of an analyzed document.
#[derive(Clone, Debug)]
pub struct Token {
    token_type: TokenType,
    text: String,
    start: Position,
    end: Position,
}

impl Token {
    /// The token's kind.
    pub closed spec fn spec_token_type(self) -> TokenType {
        self.token_type
    }

    /// The token's source text.
    pub closed spec fn spec_text(self) -> Seq<char> {
        self.text@
    }

    /// Where the token starts.
    pub closed spec fn spec_start(self) -> Position {
        self.start
    }

    /// Where the token ends.
    pub closed spec fn spec_end(self) -> Position {
        self.end
    }

    /// Construct a token.
    pub fn new(token_type: TokenType, text: String, start: Position, end: Position) -> (t: Token)
        ensures
            t.spec_token_type() == token_type,
            t.spec_text() == text@,
            t.spec_start() == start,
            t.spec_end() == end,
    {
        Token { token_type, text, start, end }
    }

    /// The token's kind.
    pub fn token_type(&self) -> (r: TokenType)
        ensures
            r == self.spec_token_type(),
    {
        self.token_type
    }

    /// The token's source text.
    pub fn text(&self) -> (r: String)
        ensures
            r@ == self.spec_text(),
    {
        self.text.clone()
    }

    /// Where the token starts.
    pub fn start(&self) -> (r: Position)
        ensures
            r == self.spec_start(),
    {
        self.start
    }

    /// Where the token ends.
    pub fn end(&self) -> (r: Position)
        ensures
            r == self.spec_end(),
    {
        self.end
    }
}

/// The UTF-16 units of a foreign string record, empty for any other shape.
pub open spec fn units_at(recs: Seq<ObjectRecord>, h: int) -> Seq<u16> {
    match recs[h].payload {
        Payload::Text(u) => u@,
        _ => Seq::empty(),
    }
}

/// The host text of a foreign string record.
pub open spec fn chars_at(recs: Seq<ObjectRecord>, h: int) -> Seq<char> {
    decode_utf16(units_at(recs, h))
}

/// The position a foreign position record denotes, origin for any other
/// shape.
pub open spec fn pos_at(recs: Seq<ObjectRecord>, h: int) -> Position {
    match recs[h].payload {
        Payload::Pos { line, column } => Position { line, column },
        _ => Position { line: 0, column: 0 },
    }
}

/// The record is a well-shaped position object.
pub open spec fn position_ok(recs: Seq<ObjectRecord>, h: int) -> bool {
    &&& 0 <= h < recs.len()
    &&& recs[h].payload is Pos
}

/// The record is a message object whose references have the shapes the
/// message class promises, severity ordinal aside.
pub open spec fn message_shape_ok(recs: Seq<ObjectRecord>, h: int) -> bool {
    &&& 0 <= h < recs.len()
    &&& (recs[h].payload matches Payload::Msg { text, severity, start, end } && {
        &&& recs[text as int].payload is Text
        &&& recs[start as int].payload is Pos
        &&& recs[end as int].payload is Pos
    })
}

/// The record is a fully well-shaped message object: shape and severity
/// ordinal both in order.
pub open spec fn message_ok(recs: Seq<ObjectRecord>, h: int) -> bool {
    &&& message_shape_ok(recs, h)
    &&& (recs[h].payload matches Payload::Msg { severity, .. }
        && MessageSeverity::spec_from_ordinal(recs[severity as int].ordinal) is Some)
}

/// The host diagnostic carries exactly what the message record holds.
pub open spec fn message_matches(recs: Seq<ObjectRecord>, h: int, m: Message) -> bool {
    recs[h].payload matches Payload::Msg { text, severity, start, end } && {
        &&& m.spec_message() == chars_at(recs, text as int)
        &&& Some(m.spec_severity()) == MessageSeverity::spec_from_ordinal(
            recs[severity as int].ordinal,
        )
        &&& m.spec_start() == pos_at(recs, start as int)
        &&& m.spec_end() == pos_at(recs, end as int)
    }
}

/// The record is a token object whose references have the shapes the token
/// class promises, kind ordinal aside.
pub open spec fn token_shape_ok(recs: Seq<ObjectRecord>, h: int) -> bool {
    &&& 0 <= h < recs.len()
    &&& (recs[h].payload matches Payload::Tok { kind, text, start, end } && {
        &&& recs[text as int].payload is Text
        &&& recs[start as int].payload is Pos
        &&& recs[end as int].payload is Pos
    })
}

/// The record is a fully well-shaped token object.
pub open spec fn token_ok(recs: Seq<ObjectRecord>, h: int) -> bool {
    &&& token_shape_ok(recs, h)
    &&& (recs[h].payload matches Payload::Tok { kind, .. } && TokenType::spec_from_ordinal(
        recs[kind as int].ordinal,
    ) is Some)
}

/// The host token carries exactly what the token record holds.
pub open spec fn token_matches(recs: Seq<ObjectRecord>, h: int, t: Token) -> bool {
    recs[h].payload matches Payload::Tok { kind, text, start, end } && {
        &&& Some(t.spec_token_type()) == TokenType::spec_from_ordinal(recs[kind as int].ordinal)
        &&& t.spec_text() == chars_at(recs, text as int)
        &&& t.spec_start() == pos_at(recs, start as int)
        &&& t.spec_end() == pos_at(recs, end as int)
    }
}

/// Materialize a position object into host-native fields.  Fails exactly
/// when the record is not a position object: a malformed reply, fatal for
/// the caller.
pub fn position_from_handle(rt: &ForeignRuntime, h: usize) -> (r: Result<
    Position,
    ContractViolation,
>)
    requires
        (h as int) < rt.records@.len(),
    ensures
        match r {
            Ok(p) => position_ok(rt.records@, h as int) && p == pos_at(rt.records@, h as int),
            Err(e) => e is MalformedReply && !position_ok(rt.records@, h as int),
        },
{
    match &rt.records[h].payload {
        Payload::Pos { line, column } => Ok(Position { line: *line, column: *column }),
        _ => Err(ContractViolation::MalformedReply),
    }
}

/// Materialize a message object: its text is transcoded out of the foreign
/// string, its severity mapped by validated ordinal, its positions
/// flattened.  Fails with the ordinal-range violation exactly when only the
/// severity ordinal is out of range, and with a malformed-reply violation
/// exactly when the object graph has the wrong shape.
pub fn message_from_handle(rt: &ForeignRuntime, h: usize) -> (r: Result<
    Message,
    ContractViolation,
>)
    requires
        rt.wf(),
        (h as int) < rt.records@.len(),
    ensures
        match r {
            Ok(m) => message_ok(rt.records@, h as int) && message_matches(rt.records@, h as int, m),
            Err(e) => {
                &&& !message_ok(rt.records@, h as int)
                &&& (e is OrdinalRange <==> message_shape_ok(rt.records@, h as int))
                &&& (e is MalformedReply <==> !message_shape_ok(rt.records@, h as int))
            },
        },
{
    match &rt.records[h].payload {
        Payload::Msg { text, severity, start, end } => {
            let text_h: usize = *text;
            let severity_h: usize = *severity;
            let start_h: usize = *start;
            let end_h: usize = *end;
            let message: String = match &rt.records[text_h].payload {
                Payload::Text(u) => str_of_utf16(u),
                _ => {
                    return Err(ContractViolation::MalformedReply);
                },
            };
            let start_p: Position = match &rt.records[start_h].payload {
                Payload::Pos { line, column } => Position { line: *line, column: *column },
                _ => {
                    return Err(ContractViolation::MalformedReply);
                },
            };
            let end_p: Position = match &rt.records[end_h].payload {
                Payload::Pos { line, column } => Position { line: *line, column: *column },
                _ => {
                    return Err(ContractViolation::MalformedReply);
                },
            };
            let severity: MessageSeverity = match MessageSeverity::from_ordinal(
                rt.records[severity_h].ordinal,
            ) {
                Some(s) => s,
                None => {
                    return Err(ContractViolation::OrdinalRange);
                },
            };
            Ok(Message { message, severity, start: start_p, end: end_p })
        },
        _ => Err(ContractViolation::MalformedReply),
    }
}

/// Materialize a token object, like [`message_from_handle`].
pub fn token_from_handle(rt: &ForeignRuntime, h: usize) -> (r: Result<Token, ContractViolation>)
    requires
        rt.wf(),
        (h as int) < rt.records@.len(),
    ensures
        match r {
            Ok(t) => token_ok(rt.records@, h as int) && token_matches(rt.records@, h as int, t),
            Err(e) => {
                &&& !token_ok(rt.records@, h as int)
                &&& (e is OrdinalRange <==> token_shape_ok(rt.records@, h as int))
                &&& (e is MalformedReply <==> !token_shape_ok(rt.records@, h as int))
            },
        },
{
    match &rt.records[h].payload {
        Payload::Tok { kind, text, start, end } => {
            let kind_h: usize = *kind;
            let text_h: usize = *text;
            let start_h: usize = *start;
            let end_h: usize = *end;
            let text_s: String = match &rt.records[text_h].payload {
                Payload::Text(u) => str_of_utf16(u),
                _ => {
                    return Err(ContractViolation::MalformedReply);
                },
            };
            let start_p: Position = match &rt.records[start_h].payload {
                Payload::Pos { line, column } => Position { line: *line, column: *column },
                _ => {
                    return Err(ContractViolation::MalformedReply);
                },
            };
            let end_p: Position = match &rt.records[end_h].payload {
                Payload::Pos { line, column } => Position { line: *line, column: *column },
                _ => {
                    return Err(ContractViolation::MalformedReply);
                },
            };
            let token_type: TokenType = match TokenType::from_ordinal(rt.records[kind_h].ordinal) {
                Some(t) => t,
                None => {
                    return Err(ContractViolation::OrdinalRange);
                },
            };
            Ok(Token { token_type, text: text_s, start: start_p, end: end_p })
        },
        _ => Err(ContractViolation::MalformedReply),
    }
}

/// Indentation by a fixed count of spaces.
#[derive(Clone, Copy, PartialEq, Eq, Structural, Debug)]
pub struct Spaces {
    pub size: i32,
}

impl Spaces {
    /// The count of spaces per indent level.
    pub open spec fn spec_size(self) -> i32 {
        self.size
    }

    /// Construct a spaces indent.
    pub fn new(size: i32) -> (s: Spaces)
        ensures
            s.spec_size() == size,
    {
        Spaces { size }
    }

    /// The count of spaces per indent level.
    pub fn size(&self) -> (r: i32)
        ensures
            r == self.spec_size(),
    {
        self.size
    }
}

/// Indentation by tabs.
#[derive(Clone, Copy, PartialEq, Eq, Structural, Debug)]
pub struct Tabs {}

impl Tabs {
    /// Construct a tabs indent.
    pub fn new() -> Tabs {
        Tabs {  }
    }
}

/// How a formatted document is indented.
#[derive(Clone, Copy, PartialEq, Eq, Structural, Debug)]
pub enum IndentType {
    Spaces(Spaces),
    Tabs(Tabs),
}

impl IndentType {
    /// The foreign subtype's simple name.
    pub open spec fn spec_name(self) -> Seq<char> {
        match self {
            IndentType::Spaces(_) => "Spaces"@,
            IndentType::Tabs(_) => "Tabs"@,
        }
    }

    /// The foreign subtype's simple name.
    pub fn name(&self) -> (r: String)
        ensures
            r@ == self.spec_name(),
    {
        match self {
            IndentType::Spaces(_) => String::from_str("Spaces"),
            IndentType::Tabs(_) => String::from_str("Tabs"),
        }
    }
}

/// A rule selecting which object paths are formatted as embed blocks.
#[derive(Clone, Debug)]
pub struct EmbedRule {
    path_pattern: String,
    tag: Option<String>,
}

impl EmbedRule {
    /// The path pattern the rule applies to.
    pub closed spec fn spec_path_pattern(self) -> Seq<char> {
        self.path_pattern@
    }

    /// The tag the embed block carries, if any.
    pub closed spec fn spec_tag(self) -> Option<Seq<char>> {
        match self.tag {
            Some(t) => Some(t@),
            None => None,
        }
    }

    /// Construct an embed rule.
    pub fn new(path_pattern: String, tag: Option<String>) -> (r: EmbedRule)
        ensures
            r.spec_path_pattern() == path_pattern@,
            match tag {
                Some(t) => r.spec_tag() == Some(t@),
                None => r.spec_tag() is None,
            },
    {
        EmbedRule { path_pattern, tag }
    }

    /// The path pattern the rule applies to.
    pub fn path_pattern(&self) -> (r: String)
        ensures
            r@ == self.spec_path_pattern(),
    {
        self.path_pattern.clone()
    }

    /// The tag the embed block carries, if any.
    pub fn tag(&self) -> (r: Option<String>)
        ensures
            match r {
                Some(t) => self.spec_tag() == Some(t@),
                None => self.spec_tag() is None,
            },
    {
        match &self.tag {
            Some(t) => Some(t.clone()),
            None => None,
        }
    }
}

/// Options for formatting a document.
#[derive(Clone, Debug)]
pub struct FormatOptions {
    indent_type: IndentType,
    formatting_style: FormattingStyle,
    embed_block_rules: Vec<EmbedRule>,
}

impl FormatOptions {
    /// The indentation choice.
    pub closed spec fn spec_indent_type(self) -> IndentType {
        self.indent_type
    }

    /// The formatting style.
    pub closed spec fn spec_formatting_style(self) -> FormattingStyle {
        self.formatting_style
    }

    /// The embed-block rules.
    pub closed spec fn spec_embed_block_rules(self) -> Seq<EmbedRule> {
        self.embed_block_rules@
    }

    /// Construct format options.
    pub fn new(
        indent_type: IndentType,
        formatting_style: FormattingStyle,
        embed_block_rules: Vec<EmbedRule>,
    ) -> (r: FormatOptions)
        ensures
            r.spec_indent_type() == indent_type,
            r.spec_formatting_style() == formatting_style,
            r.spec_embed_block_rules() == embed_block_rules@,
    {
        FormatOptions { indent_type, formatting_style, embed_block_rules }
    }

    /// The indentation choice.
    pub fn indent_type(&self) -> (r: IndentType)
        ensures
            r == self.spec_indent_type(),
    {
        self.indent_type
    }

    /// The formatting style.
    pub fn formatting_style(&self) -> (r: FormattingStyle)
        ensures
            r == self.spec_formatting_style(),
    {
        self.formatting_style
    }

    /// The embed-block rules.
    pub fn embed_block_rules(&self) -> (r: &Vec<EmbedRule>)
        ensures
            r@ == self.spec_embed_block_rules(),
    {
        &self.embed_block_rules
    }
}

/// Options for transpiling a document to JSON.
#[derive(Clone, Copy, PartialEq, Eq, Structural, Debug)]
pub struct Json {
    retain_embed_tags: bool,
}

impl Json {
    /// Whether embed tags are kept in the output.
    pub closed spec fn spec_retain_embed_tags(self) -> bool {
        self.retain_embed_tags
    }

    /// Construct JSON transpile options.
    pub fn new(retain_embed_tags: bool) -> (r: Json)
        ensures
            r.spec_retain_embed_tags() == retain_embed_tags,
    {
        Json { retain_embed_tags }
    }

    /// Whether embed tags are kept in the output.
    pub fn retain_embed_tags(&self) -> (r: bool)
        ensures
            r == self.spec_retain_embed_tags(),
    {
        self.retain_embed_tags
    }
}

/// Options for transpiling a document to YAML.
#[derive(Clone, Copy, PartialEq, Eq, Structural, Debug)]
pub struct Yaml {
    retain_embed_tags: bool,
}

impl Yaml {
    /// Whether embed tags are kept in the output.
    pub closed spec fn spec_retain_embed_tags(self) -> bool {
        self.retain_embed_tags
    }

    /// Construct YAML transpile options.
    pub fn new(retain_embed_tags: bool) -> (r: Yaml)
        ensures
            r.spec_retain_embed_tags() == retain_embed_tags,
    {
        Yaml { retain_embed_tags }
    }

    /// Whether embed tags are kept in the output.
    pub fn retain_embed_tags(&self) -> (r: bool)
        ensures
            r == self.spec_retain_embed_tags(),
    {
        self.retain_embed_tags
    }
}

/// Options for a transpilation, whichever the target language.
#[derive(Clone, Copy, PartialEq, Eq, Structural, Debug)]
pub enum TranspileOptions {
    Json(Json),
    Yaml(Yaml),
}

impl TranspileOptions {
    /// The foreign subtype's simple name.
    pub open spec fn spec_name(self) -> Seq<char> {
        match self {
            TranspileOptions::Json(_) => "Json"@,
            TranspileOptions::Yaml(_) => "Yaml"@,
        }
    }

    /// Whether embed tags are kept in the output.
    pub closed spec fn spec_retain_embed_tags(self) -> bool {
        match self {
            TranspileOptions::Json(j) => j.spec_retain_embed_tags(),
            TranspileOptions::Yaml(y) => y.spec_retain_embed_tags(),
        }
    }

    /// The foreign subtype's simple name.
    pub fn name(&self) -> (r: String)
        ensures
            r@ == self.spec_name(),
    {
        match self {
            TranspileOptions::Json(_) => String::from_str("Json"),
            TranspileOptions::Yaml(_) => String::from_str("Yaml"),
        }
    }

    /// Whether embed tags are kept in the output.
    pub fn retain_embed_tags(&self) -> (r: bool)
        ensures
            r == self.spec_retain_embed_tags(),
    {
        match self {
            TranspileOptions::Json(j) => j.retain_embed_tags(),
            TranspileOptions::Yaml(y) => y.retain_embed_tags(),
        }
    }
}

} // verus!
