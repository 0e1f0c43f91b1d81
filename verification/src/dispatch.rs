//! Recovering a foreign object's concrete subtype.
//!
//! A foreign polymorphic value arrives as an opaque handle; the bridge must
//! decide which local variant it instantiates.  Two interchangeable
//! strategies exist, selected by backend: matching the object's
//! fully-qualified class name against a fixed set of known names
//! ([`dispatch_value_class`]), or testing its runtime type token against a
//! table resolved once at first use ([`dispatch_value_token`]).  Either way
//! the mapping is total over the declared classes and an unrecognized
//! descriptor is a fatal contract violation, not a recoverable error.
//!
//! Enumerations with small closed ranges bypass this machinery entirely and
//! are mapped by ordinal index, validated against the declared contiguous
//! range ([`MessageSeverity::from_ordinal`] and friends).

use vstd::prelude::*;

use crate::runtime::ContractViolation;
use crate::runtime::ForeignRuntime;
use crate::text::str_eq;
use vstd::string::StringExecFns;

verus! {

/// Severity of a diagnostic message.
#[derive(Clone, Copy, PartialEq, Eq, Structural, Debug)]
pub enum MessageSeverity {
    Error,
    Warning,
}

/// Style a document is formatted in.
#[derive(Clone, Copy, PartialEq, Eq, Structural, Debug)]
pub enum FormattingStyle {
    Plain,
    Delimited,
    Compact,
    Classic,
}

/// The concrete subtype of a document value node.
#[derive(Clone, Copy, PartialEq, Eq, Structural, Debug)]
pub enum KsonValueType {
    Object,
    Array,
    Str,
    Integer,
    Decimal,
    Boolean,
    Null,
    Embed,
}

/// The kind of a lexer token.
#[derive(Clone, Copy, PartialEq, Eq, Structural, Debug)]
pub enum TokenType {
    CurlyBraceL,
    CurlyBraceR,
    SquareBracketL,
    SquareBracketR,
    AngleBracketL,
    AngleBracketR,
    Colon,
    Dot,
    EndDash,
    Comma,
    Comment,
    EmbedOpenDelim,
    EmbedCloseDelim,
    EmbedTag,
    EmbedPreambleNewline,
    EmbedContent,
    False,
    UnquotedString,
    IllegalChar,
    ListDash,
    Null,
    Number,
    StringOpenQuote,
    StringCloseQuote,
    StringContent,
    True,
    Whitespace,
    Eof,
}

impl MessageSeverity {
    /// The ordinal of this constant in its foreign enum class.
    pub open spec fn spec_ordinal(self) -> u64 {
        match self {
            MessageSeverity::Error => 0,
            MessageSeverity::Warning => 1,
        }
    }

    /// The constant with the given ordinal, if the ordinal lies in the
    /// declared range.
    pub open spec fn spec_from_ordinal(x: u64) -> Option<MessageSeverity> {
        if x == 0 {
            Some(MessageSeverity::Error)
        } else if x == 1 {
            Some(MessageSeverity::Warning)
        } else {
            None
        }
    }

    /// The foreign constant's name.
    pub open spec fn spec_name(self) -> Seq<char> {
        match self {
            MessageSeverity::Error => "ERROR"@,
            MessageSeverity::Warning => "WARNING"@,
        }
    }

    /// Map an ordinal to its constant, `None` exactly outside the declared
    /// contiguous range (a fatal condition for the caller).
    pub fn from_ordinal(x: u64) -> (r: Option<MessageSeverity>)
        ensures
            r == MessageSeverity::spec_from_ordinal(x),
    {
        match x {
            0 => Some(MessageSeverity::Error),
            1 => Some(MessageSeverity::Warning),
            _ => None,
        }
    }

    /// The ordinal of this constant.
    pub fn ordinal(self) -> (r: u64)
        ensures
            r == self.spec_ordinal(),
    {
        match self {
            MessageSeverity::Error => 0,
            MessageSeverity::Warning => 1,
        }
    }

    /// The foreign constant's name.
    pub fn name(self) -> (r: String)
        ensures
            r@ == self.spec_name(),
    {
        match self {
            MessageSeverity::Error => String::from_str("ERROR"),
            MessageSeverity::Warning => String::from_str("WARNING"),
        }
    }
}

impl FormattingStyle {
    /// The ordinal of this constant in its foreign enum class.
    pub open spec fn spec_ordinal(self) -> u64 {
        match self {
            FormattingStyle::Plain => 0,
            FormattingStyle::Delimited => 1,
            FormattingStyle::Compact => 2,
            FormattingStyle::Classic => 3,
        }
    }

    /// The constant with the given ordinal, if in range.
    pub open spec fn spec_from_ordinal(x: u64) -> Option<FormattingStyle> {
        if x == 0 {
            Some(FormattingStyle::Plain)
        } else if x == 1 {
            Some(FormattingStyle::Delimited)
        } else if x == 2 {
            Some(FormattingStyle::Compact)
        } else if x == 3 {
            Some(FormattingStyle::Classic)
        } else {
            None
        }
    }

    /// The foreign constant's name.
    pub open spec fn spec_name(self) -> Seq<char> {
        match self {
            FormattingStyle::Plain => "PLAIN"@,
            FormattingStyle::Delimited => "DELIMITED"@,
            FormattingStyle::Compact => "COMPACT"@,
            FormattingStyle::Classic => "CLASSIC"@,
        }
    }

    /// Map an ordinal to its constant, `None` exactly outside the range.
    pub fn from_ordinal(x: u64) -> (r: Option<FormattingStyle>)
        ensures
            r == FormattingStyle::spec_from_ordinal(x),
    {
        match x {
            0 => Some(FormattingStyle::Plain),
            1 => Some(FormattingStyle::Delimited),
            2 => Some(FormattingStyle::Compact),
            3 => Some(FormattingStyle::Classic),
            _ => None,
        }
    }

    /// The ordinal of this constant.
    pub fn ordinal(self) -> (r: u64)
        ensures
            r == self.spec_ordinal(),
    {
        match self {
            FormattingStyle::Plain => 0,
            FormattingStyle::Delimited => 1,
            FormattingStyle::Compact => 2,
            FormattingStyle::Classic => 3,
        }
    }

    /// The foreign constant's name.
    pub fn name(self) -> (r: String)
        ensures
            r@ == self.spec_name(),
    {
        match self {
            FormattingStyle::Plain => String::from_str("PLAIN"),
            FormattingStyle::Delimited => String::from_str("DELIMITED"),
            FormattingStyle::Compact => String::from_str("COMPACT"),
            FormattingStyle::Classic => String::from_str("CLASSIC"),
        }
    }
}

impl KsonValueType {
    /// The ordinal of this constant in its foreign enum class.
    pub open spec fn spec_ordinal(self) -> u64 {
        match self {
            KsonValueType::Object => 0,
            KsonValueType::Array => 1,
            KsonValueType::Str => 2,
            KsonValueType::Integer => 3,
            KsonValueType::Decimal => 4,
            KsonValueType::Boolean => 5,
            KsonValueType::Null => 6,
            KsonValueType::Embed => 7,
        }
    }

    /// The constant with the given ordinal, if in range.
    pub open spec fn spec_from_ordinal(x: u64) -> Option<KsonValueType> {
        if x == 0 {
            Some(KsonValueType::Object)
        } else if x == 1 {
            Some(KsonValueType::Array)
        } else if x == 2 {
            Some(KsonValueType::Str)
        } else if x == 3 {
            Some(KsonValueType::Integer)
        } else if x == 4 {
            Some(KsonValueType::Decimal)
        } else if x == 5 {
            Some(KsonValueType::Boolean)
        } else if x == 6 {
            Some(KsonValueType::Null)
        } else if x == 7 {
            Some(KsonValueType::Embed)
        } else {
            None
        }
    }

    /// The foreign constant's name.
    pub open spec fn spec_name(self) -> Seq<char> {
        match self {
            KsonValueType::Object => "OBJECT"@,
            KsonValueType::Array => "ARRAY"@,
            KsonValueType::Str => "STRING"@,
            KsonValueType::Integer => "INTEGER"@,
            KsonValueType::Decimal => "DECIMAL"@,
            KsonValueType::Boolean => "BOOLEAN"@,
            KsonValueType::Null => "NULL"@,
            KsonValueType::Embed => "EMBED"@,
        }
    }

    /// Map an ordinal to its constant, `None` exactly outside the range.
    pub fn from_ordinal(x: u64) -> (r: Option<KsonValueType>)
        ensures
            r == KsonValueType::spec_from_ordinal(x),
    {
        match x {
            0 => Some(KsonValueType::Object),
            1 => Some(KsonValueType::Array),
            2 => Some(KsonValueType::Str),
            3 => Some(KsonValueType::Integer),
            4 => Some(KsonValueType::Decimal),
            5 => Some(KsonValueType::Boolean),
            6 => Some(KsonValueType::Null),
            7 => Some(KsonValueType::Embed),
            _ => None,
        }
    }

    /// The ordinal of this constant.
    pub fn ordinal(self) -> (r: u64)
        ensures
            r == self.spec_ordinal(),
    {
        match self {
            KsonValueType::Object => 0,
            KsonValueType::Array => 1,
            KsonValueType::Str => 2,
            KsonValueType::Integer => 3,
            KsonValueType::Decimal => 4,
            KsonValueType::Boolean => 5,
            KsonValueType::Null => 6,
            KsonValueType::Embed => 7,
        }
    }

    /// The foreign constant's name.
    pub fn name(self) -> (r: String)
        ensures
            r@ == self.spec_name(),
    {
        match self {
            KsonValueType::Object => String::from_str("OBJECT"),
            KsonValueType::Array => String::from_str("ARRAY"),
            KsonValueType::Str => String::from_str("STRING"),
            KsonValueType::Integer => String::from_str("INTEGER"),
            KsonValueType::Decimal => String::from_str("DECIMAL"),
            KsonValueType::Boolean => String::from_str("BOOLEAN"),
            KsonValueType::Null => String::from_str("NULL"),
            KsonValueType::Embed => String::from_str("EMBED"),
        }
    }
}

impl TokenType {
    /// The ordinal of this constant in its foreign enum class.
    pub open spec fn spec_ordinal(self) -> u64 {
        match self {
            TokenType::CurlyBraceL => 0,
            TokenType::CurlyBraceR => 1,
            TokenType::SquareBracketL => 2,
            TokenType::SquareBracketR => 3,
            TokenType::AngleBracketL => 4,
            TokenType::AngleBracketR => 5,
            TokenType::Colon => 6,
            TokenType::Dot => 7,
            TokenType::EndDash => 8,
            TokenType::Comma => 9,
            TokenType::Comment => 10,
            TokenType::EmbedOpenDelim => 11,
            TokenType::EmbedCloseDelim => 12,
            TokenType::EmbedTag => 13,
            TokenType::EmbedPreambleNewline => 14,
            TokenType::EmbedContent => 15,
            TokenType::False => 16,
            TokenType::UnquotedString => 17,
            TokenType::IllegalChar => 18,
            TokenType::ListDash => 19,
            TokenType::Null => 20,
            TokenType::Number => 21,
            TokenType::StringOpenQuote => 22,
            TokenType::StringCloseQuote => 23,
            TokenType::StringContent => 24,
            TokenType::True => 25,
            TokenType::Whitespace => 26,
            TokenType::Eof => 27,
        }
    }

    /// The constant with the given ordinal, if in range.
    pub open spec fn spec_from_ordinal(x: u64) -> Option<TokenType> {
        if x == 0 {
            Some(TokenType::CurlyBraceL)
        } else if x == 1 {
            Some(TokenType::CurlyBraceR)
        } else if x == 2 {
            Some(TokenType::SquareBracketL)
        } else if x == 3 {
            Some(TokenType::SquareBracketR)
        } else if x == 4 {
            Some(TokenType::AngleBracketL)
        } else if x == 5 {
            Some(TokenType::AngleBracketR)
        } else if x == 6 {
            Some(TokenType::Colon)
        } else if x == 7 {
            Some(TokenType::Dot)
        } else if x == 8 {
            Some(TokenType::EndDash)
        } else if x == 9 {
            Some(TokenType::Comma)
        } else if x == 10 {
            Some(TokenType::Comment)
        } else if x == 11 {
            Some(TokenType::EmbedOpenDelim)
        } else if x == 12 {
            Some(TokenType::EmbedCloseDelim)
        } else if x == 13 {
            Some(TokenType::EmbedTag)
        } else if x == 14 {
            Some(TokenType::EmbedPreambleNewline)
        } else if x == 15 {
            Some(TokenType::EmbedContent)
        } else if x == 16 {
            Some(TokenType::False)
        } else if x == 17 {
            Some(TokenType::UnquotedString)
        } else if x == 18 {
            Some(TokenType::IllegalChar)
        } else if x == 19 {
            Some(TokenType::ListDash)
        } else if x == 20 {
            Some(TokenType::Null)
        } else if x == 21 {
            Some(TokenType::Number)
        } else if x == 22 {
            Some(TokenType::StringOpenQuote)
        } else if x == 23 {
            Some(TokenType::StringCloseQuote)
        } else if x == 24 {
            Some(TokenType::StringContent)
        } else if x == 25 {
            Some(TokenType::True)
        } else if x == 26 {
            Some(TokenType::Whitespace)
        } else if x == 27 {
            Some(TokenType::Eof)
        } else {
            None
        }
    }

    /// The foreign constant's name.
    pub open spec fn spec_name(self) -> Seq<char> {
        match self {
            TokenType::CurlyBraceL => "CURLY_BRACE_L"@,
            TokenType::CurlyBraceR => "CURLY_BRACE_R"@,
            TokenType::SquareBracketL => "SQUARE_BRACKET_L"@,
            TokenType::SquareBracketR => "SQUARE_BRACKET_R"@,
            TokenType::AngleBracketL => "ANGLE_BRACKET_L"@,
            TokenType::AngleBracketR => "ANGLE_BRACKET_R"@,
            TokenType::Colon => "COLON"@,
            TokenType::Dot => "DOT"@,
            TokenType::EndDash => "END_DASH"@,
            TokenType::Comma => "COMMA"@,
            TokenType::Comment => "COMMENT"@,
            TokenType::EmbedOpenDelim => "EMBED_OPEN_DELIM"@,
            TokenType::EmbedCloseDelim => "EMBED_CLOSE_DELIM"@,
            TokenType::EmbedTag => "EMBED_TAG"@,
            TokenType::EmbedPreambleNewline => "EMBED_PREAMBLE_NEWLINE"@,
            TokenType::EmbedContent => "EMBED_CONTENT"@,
            TokenType::False => "FALSE"@,
            TokenType::UnquotedString => "UNQUOTED_STRING"@,
            TokenType::IllegalChar => "ILLEGAL_CHAR"@,
            TokenType::ListDash => "LIST_DASH"@,
            TokenType::Null => "NULL"@,
            TokenType::Number => "NUMBER"@,
            TokenType::StringOpenQuote => "STRING_OPEN_QUOTE"@,
            TokenType::StringCloseQuote => "STRING_CLOSE_QUOTE"@,
            TokenType::StringContent => "STRING_CONTENT"@,
            TokenType::True => "TRUE"@,
            TokenType::Whitespace => "WHITESPACE"@,
            TokenType::Eof => "EOF"@,
        }
    }

    /// Map an ordinal to its constant, `None` exactly outside the range.
    pub fn from_ordinal(x: u64) -> (r: Option<TokenType>)
        ensures
            r == TokenType::spec_from_ordinal(x),
    {
        match x {
            0 => Some(TokenType::CurlyBraceL),
            1 => Some(TokenType::CurlyBraceR),
            2 => Some(TokenType::SquareBracketL),
            3 => Some(TokenType::SquareBracketR),
            4 => Some(TokenType::AngleBracketL),
            5 => Some(TokenType::AngleBracketR),
            6 => Some(TokenType::Colon),
            7 => Some(TokenType::Dot),
            8 => Some(TokenType::EndDash),
            9 => Some(TokenType::Comma),
            10 => Some(TokenType::Comment),
            11 => Some(TokenType::EmbedOpenDelim),
            12 => Some(TokenType::EmbedCloseDelim),
            13 => Some(TokenType::EmbedTag),
            14 => Some(TokenType::EmbedPreambleNewline),
            15 => Some(TokenType::EmbedContent),
            16 => Some(TokenType::False),
            17 => Some(TokenType::UnquotedString),
            18 => Some(TokenType::IllegalChar),
            19 => Some(TokenType::ListDash),
            20 => Some(TokenType::Null),
            21 => Some(TokenType::Number),
            22 => Some(TokenType::StringOpenQuote),
            23 => Some(TokenType::StringCloseQuote),
            24 => Some(TokenType::StringContent),
            25 => Some(TokenType::True),
            26 => Some(TokenType::Whitespace),
            27 => Some(TokenType::Eof),
            _ => None,
        }
    }

    /// The ordinal of this constant.
    pub fn ordinal(self) -> (r: u64)
        ensures
            r == self.spec_ordinal(),
    {
        match self {
            TokenType::CurlyBraceL => 0,
            TokenType::CurlyBraceR => 1,
            TokenType::SquareBracketL => 2,
            TokenType::SquareBracketR => 3,
            TokenType::AngleBracketL => 4,
            TokenType::AngleBracketR => 5,
            TokenType::Colon => 6,
            TokenType::Dot => 7,
            TokenType::EndDash => 8,
            TokenType::Comma => 9,
            TokenType::Comment => 10,
            TokenType::EmbedOpenDelim => 11,
            TokenType::EmbedCloseDelim => 12,
            TokenType::EmbedTag => 13,
            TokenType::EmbedPreambleNewline => 14,
            TokenType::EmbedContent => 15,
            TokenType::False => 16,
            TokenType::UnquotedString => 17,
            TokenType::IllegalChar => 18,
            TokenType::ListDash => 19,
            TokenType::Null => 20,
            TokenType::Number => 21,
            TokenType::StringOpenQuote => 22,
            TokenType::StringCloseQuote => 23,
            TokenType::StringContent => 24,
            TokenType::True => 25,
            TokenType::Whitespace => 26,
            TokenType::Eof => 27,
        }
    }

    /// The foreign constant's name.
    pub fn name(self) -> (r: String)
        ensures
            r@ == self.spec_name(),
    {
        match self {
            TokenType::CurlyBraceL => String::from_str("CURLY_BRACE_L"),
            TokenType::CurlyBraceR => String::from_str("CURLY_BRACE_R"),
            TokenType::SquareBracketL => String::from_str("SQUARE_BRACKET_L"),
            TokenType::SquareBracketR => String::from_str("SQUARE_BRACKET_R"),
            TokenType::AngleBracketL => String::from_str("ANGLE_BRACKET_L"),
            TokenType::AngleBracketR => String::from_str("ANGLE_BRACKET_R"),
            TokenType::Colon => String::from_str("COLON"),
            TokenType::Dot => String::from_str("DOT"),
            TokenType::EndDash => String::from_str("END_DASH"),
            TokenType::Comma => String::from_str("COMMA"),
            TokenType::Comment => String::from_str("COMMENT"),
            TokenType::EmbedOpenDelim => String::from_str("EMBED_OPEN_DELIM"),
            TokenType::EmbedCloseDelim => String::from_str("EMBED_CLOSE_DELIM"),
            TokenType::EmbedTag => String::from_str("EMBED_TAG"),
            TokenType::EmbedPreambleNewline => String::from_str("EMBED_PREAMBLE_NEWLINE"),
            TokenType::EmbedContent => String::from_str("EMBED_CONTENT"),
            TokenType::False => String::from_str("FALSE"),
            TokenType::UnquotedString => String::from_str("UNQUOTED_STRING"),
            TokenType::IllegalChar => String::from_str("ILLEGAL_CHAR"),
            TokenType::ListDash => String::from_str("LIST_DASH"),
            TokenType::Null => String::from_str("NULL"),
            TokenType::Number => String::from_str("NUMBER"),
            TokenType::StringOpenQuote => String::from_str("STRING_OPEN_QUOTE"),
            TokenType::StringCloseQuote => String::from_str("STRING_CLOSE_QUOTE"),
            TokenType::StringContent => String::from_str("STRING_CONTENT"),
            TokenType::True => String::from_str("TRUE"),
            TokenType::Whitespace => String::from_str("WHITESPACE"),
            TokenType::Eof => String::from_str("EOF"),
        }
    }
}

/// The fully-qualified foreign class name instantiating each value variant.
pub open spec fn value_class_name(t: KsonValueType) -> Seq<char> {
    match t {
        KsonValueType::Object => "org.kson.api.KsonValue$KsonObject"@,
        KsonValueType::Array => "org.kson.api.KsonValue$KsonArray"@,
        KsonValueType::Str => "org.kson.api.KsonValue$KsonString"@,
        KsonValueType::Integer => "org.kson.api.KsonValue$KsonNumber$Integer"@,
        KsonValueType::Decimal => "org.kson.api.KsonValue$KsonNumber$Decimal"@,
        KsonValueType::Boolean => "org.kson.api.KsonValue$KsonBoolean"@,
        KsonValueType::Null => "org.kson.api.KsonValue$KsonNull"@,
        KsonValueType::Embed => "org.kson.api.KsonValue$KsonEmbed"@,
    }
}

/// The declared class name instantiating a variant, as a string slice.
pub fn value_class_name_str(t: KsonValueType) -> (r: &'static str)
    ensures
        r@ == value_class_name(t),
{
    match t {
        KsonValueType::Object => "org.kson.api.KsonValue$KsonObject",
        KsonValueType::Array => "org.kson.api.KsonValue$KsonArray",
        KsonValueType::Str => "org.kson.api.KsonValue$KsonString",
        KsonValueType::Integer => "org.kson.api.KsonValue$KsonNumber$Integer",
        KsonValueType::Decimal => "org.kson.api.KsonValue$KsonNumber$Decimal",
        KsonValueType::Boolean => "org.kson.api.KsonValue$KsonBoolean",
        KsonValueType::Null => "org.kson.api.KsonValue$KsonNull",
        KsonValueType::Embed => "org.kson.api.KsonValue$KsonEmbed",
    }
}

/// Name-string dispatch: match a foreign class name against the declared
/// set.  Returns the unique variant whose class carries the name, and a
/// fatal dispatch miss exactly when the name is not declared.
pub fn dispatch_value_class(name: &str) -> (r: Result<KsonValueType, ContractViolation>)
    ensures
        match r {
            Ok(t) => value_class_name(t) == name@,
            Err(e) => e is DispatchMiss && forall|t: KsonValueType|
                #[trigger] value_class_name(t) != name@,
        },
{
    if str_eq(name, "org.kson.api.KsonValue$KsonObject") {
        Ok(KsonValueType::Object)
    } else if str_eq(name, "org.kson.api.KsonValue$KsonArray") {
        Ok(KsonValueType::Array)
    } else if str_eq(name, "org.kson.api.KsonValue$KsonString") {
        Ok(KsonValueType::Str)
    } else if str_eq(name, "org.kson.api.KsonValue$KsonNumber$Integer") {
        Ok(KsonValueType::Integer)
    } else if str_eq(name, "org.kson.api.KsonValue$KsonNumber$Decimal") {
        Ok(KsonValueType::Decimal)
    } else if str_eq(name, "org.kson.api.KsonValue$KsonBoolean") {
        Ok(KsonValueType::Boolean)
    } else if str_eq(name, "org.kson.api.KsonValue$KsonNull") {
        Ok(KsonValueType::Null)
    } else if str_eq(name, "org.kson.api.KsonValue$KsonEmbed") {
        Ok(KsonValueType::Embed)
    } else {
        proof {
            assert forall|t: KsonValueType| #[trigger] value_class_name(t) != name@ by {
                match t {
                    KsonValueType::Object => {},
                    KsonValueType::Array => {},
                    KsonValueType::Str => {},
                    KsonValueType::Integer => {},
                    KsonValueType::Decimal => {},
                    KsonValueType::Boolean => {},
                    KsonValueType::Null => {},
                    KsonValueType::Embed => {},
                }
            }
        }
        Err(ContractViolation::DispatchMiss)
    }
}

/// The declared class names are pairwise distinct, so a name resolves to at
/// most one variant; together with [`dispatch_value_class`]'s contract this
/// gives dispatch totality: every declared class name resolves to exactly
/// one local variant, and only undeclared names miss.
pub proof fn lemma_value_class_names_distinct(t1: KsonValueType, t2: KsonValueType)
    requires
        value_class_name(t1) == value_class_name(t2),
    ensures
        t1 == t2,
{
    reveal_strlit("org.kson.api.KsonValue$KsonObject");
    reveal_strlit("org.kson.api.KsonValue$KsonArray");
    reveal_strlit("org.kson.api.KsonValue$KsonString");
    reveal_strlit("org.kson.api.KsonValue$KsonNumber$Integer");
    reveal_strlit("org.kson.api.KsonValue$KsonNumber$Decimal");
    reveal_strlit("org.kson.api.KsonValue$KsonBoolean");
    reveal_strlit("org.kson.api.KsonValue$KsonNull");
    reveal_strlit("org.kson.api.KsonValue$KsonEmbed");
    // names of different length differ outright ...
    assert(value_class_name(KsonValueType::Object).len() == 33);
    assert(value_class_name(KsonValueType::Array).len() == 32);
    assert(value_class_name(KsonValueType::Str).len() == 33);
    assert(value_class_name(KsonValueType::Integer).len() == 41);
    assert(value_class_name(KsonValueType::Decimal).len() == 41);
    assert(value_class_name(KsonValueType::Boolean).len() == 34);
    assert(value_class_name(KsonValueType::Null).len() == 31);
    assert(value_class_name(KsonValueType::Embed).len() == 32);
    // ... and names of equal length are told apart by one character
    assert(value_class_name(KsonValueType::Object)[27] == 'O');
    assert(value_class_name(KsonValueType::Str)[27] == 'S');
    assert(value_class_name(KsonValueType::Array)[27] == 'A');
    assert(value_class_name(KsonValueType::Embed)[27] == 'E');
    assert(value_class_name(KsonValueType::Integer)[34] == 'I');
    assert(value_class_name(KsonValueType::Decimal)[34] == 'D');
}

/// An entry of the cached identity table: one resolved type token and the
/// local variant its class instantiates.
pub struct TokenEntry {
    pub token: u64,
    pub tag: KsonValueType,
}

/// The table's tokens are pairwise distinct, as runtime type identities
/// are.
pub open spec fn token_table_wf(entries: Seq<TokenEntry>) -> bool {
    forall|i: int, j: int|
        0 <= i < entries.len() && 0 <= j < entries.len() && i != j ==> (#[trigger] entries[i]).token
            != (#[trigger] entries[j]).token
}

/// Identity-table dispatch: test a handle's runtime type token against each
/// cached token in turn.  Returns the first (under
/// [`token_table_wf`], the only) matching variant, and a fatal dispatch
/// miss exactly when no cached token matches.
pub fn dispatch_value_token(table: &Vec<TokenEntry>, token: u64) -> (r: Result<
    KsonValueType,
    ContractViolation,
>)
    ensures
        match r {
            Ok(t) => exists|i: int|
                0 <= i < table@.len() && (#[trigger] table@[i]).token == token && table@[i].tag
                    == t,
            Err(e) => e is DispatchMiss && forall|i: int|
                0 <= i < table@.len() ==> (#[trigger] table@[i]).token != token,
        },
{
    let mut i: usize = 0;
    while i < table.len()
        invariant
            i <= table@.len(),
            forall|j: int| 0 <= j < i ==> (#[trigger] table@[j]).token != token,
        decreases table@.len() - i,
    {
        if table[i].token == token {
            return Ok(table[i].tag);
        }
        i = i + 1;
    }
    Err(ContractViolation::DispatchMiss)
}

/// Under a well-formed table, token dispatch is single-valued: a token
/// resolves to exactly one variant.
pub proof fn lemma_token_dispatch_unique(entries: Seq<TokenEntry>, i: int, j: int)
    requires
        token_table_wf(entries),
        0 <= i < entries.len(),
        0 <= j < entries.len(),
        entries[i].token == entries[j].token,
    ensures
        entries[i].tag == entries[j].tag,
{
    if i != j {
        assert(entries[i].token != entries[j].token);
    }
}

/// The entry's token is one the runtime declares for the class
/// instantiating the entry's variant.
pub open spec fn entry_resolved(classes: Seq<crate::runtime::ClassDef>, e: TokenEntry) -> bool {
    exists|i: int|
        0 <= i < classes.len() && (#[trigger] classes[i]).name@ == value_class_name(e.tag)
            && classes[i].token == e.token
}

/// Resolve the identity table once, by looking each declared class up in
/// the runtime: the cached token of each entry is a token the runtime
/// declares for the class instantiating that entry's variant.  Fails with
/// the fatal dispatch condition when some declared class is missing.
pub fn resolve_value_token_table(rt: &ForeignRuntime) -> (r: Result<
    Vec<TokenEntry>,
    ContractViolation,
>)
    ensures
        match r {
            Ok(table) => table@.len() == 8 && forall|k: int|
                0 <= k < table@.len() ==> entry_resolved(rt.classes@, #[trigger] table@[k]),
            Err(e) => e is DispatchMiss,
        },
{
    let mut table: Vec<TokenEntry> = Vec::new();
    let tags: [KsonValueType; 8] = [
        KsonValueType::Object,
        KsonValueType::Array,
        KsonValueType::Str,
        KsonValueType::Integer,
        KsonValueType::Decimal,
        KsonValueType::Boolean,
        KsonValueType::Null,
        KsonValueType::Embed,
    ];
    let mut k: usize = 0;
    while k < 8
        invariant
            k <= 8,
            table@.len() == k,
            tags@ =~= seq![
                KsonValueType::Object,
                KsonValueType::Array,
                KsonValueType::Str,
                KsonValueType::Integer,
                KsonValueType::Decimal,
                KsonValueType::Boolean,
                KsonValueType::Null,
                KsonValueType::Embed,
            ],
            forall|m: int| 0 <= m < k ==> entry_resolved(rt.classes@, #[trigger] table@[m]),
        decreases 8 - k,
    {
        let tag = tags[k];
        let name: &str = value_class_name_str(tag);
        match rt.find_class(name) {
            Ok(token) => {
                table.push(TokenEntry { token, tag });
            },
            Err(_) => {
                return Err(ContractViolation::DispatchMiss);
            },
        }
        k = k + 1;
    }
    Ok(table)
}

} // verus!
