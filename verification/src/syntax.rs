//! The kinds of syntax elements, numbered as the `cstree` crate stores them.

use vstd::prelude::*;
use cstree::RawSyntaxKind;

verus! {

#[verifier::external_type_specification]
#[verifier::external_body]
pub struct ExRawSyntaxKind(RawSyntaxKind);

/// The compact tag of the kind numbered `value`: `RawSyntaxKind(value)`.
pub uninterp spec fn raw_syntax_kind(value: u32) -> RawSyntaxKind;

/// Builds `RawSyntaxKind(value)`.
#[verifier::external_body]
fn make_raw_kind(value: u32) -> (r: RawSyntaxKind)
    ensures
        r == raw_syntax_kind(value),
{
    RawSyntaxKind(value)
}

/// The number in a tag, its field `0`: the tag is that of this number, and of no other.
#[verifier::external_body]
fn raw_kind_value(raw: RawSyntaxKind) -> (r: u32)
    ensures
        raw == raw_syntax_kind(r),
        forall|n: u32| #[trigger] raw_syntax_kind(n) == raw ==> n == r,
{
    raw.0
}

/// The number of kinds.
pub const SYNTAX_KIND_COUNT: u32 = 73;

pub type Mo = SyntaxKind;

/// The kinds of tokens and nodes of a syntax tree.
#[derive(Debug, Clone, Copy, PartialEq, Eq, Structural)]
pub enum SyntaxKind {
    /* Tokens - Operators/Symbols */
    AddAssign,           // +=
    Ampersand,           // &
    Equals,              // =
    At,                  // @
    BitAndAssign,        // &=
    BitOrAssign,         // |=
    Tilde,               // ~
    BitXorAssign,        // ^=
    BitNotAssign,        // ~=
    BitShiftLeft,        // <<
    BitShiftRight,       // >>
    BitShiftLeftAssign,  // <<=
    BitShiftRightAssign, // >>=
    Caret,               // ^
    OpenBrace,           // {
    CloseBrace,          // }
    OpenParen,           // (
    CloseParen,          // )
    OpenBrack,           // [
    CloseBrack,          // ]
    Colon,               // :
    Semicolon,           // ;
    Comma,               // ,
    DeclareAssign,       // :=
    DivAssign,           // /=
    Dot,                 // .
    DoubleEquals,        // ==
    Excl,                // !
    Greater,             // >
    GreaterOrEqual,      // >=
    Ident,
    Less,        // <
    LessOrEqual, // <=
    LineBreak,   // encompassing CRLF and LF in one token.
    Plus,        // +
    Minus,       // -
    Star,        // *
    Percent,     // %
    Pipe,        // |
    ModAssign,   // %=
    MultAssign,  // *=
    ExclEquals,  // !=
    Slash,       // /
    SubAssign,   // -=
    /* Tokens - Number literals */
    DecimalIntegerNumberLiteral,
    DecimalPointNumberLiteral,
    HexadecimalIntegerNumberLiteral,
    OctalIntegerNumberLiteral,
    BinaryIntegerNumberLiteral,
    ScientificDecimalNumberLiteral, // 1e9 = 1,000,000,000 | 1e-9 = 0.000000001 | 0.1e9 = 100,000,000 | 0.1e-9 = 0.0000000001
    ScientificHexNumberLiteral,     // 0x10p10 =  0x10 * 2^10 | 0x10p-10 = 0x10 * 2^-10

    StringLiteral,
    /* Tokens - Keywords */
    Defer,
    True,
    False,
    Fn,
    For,
    If,
    In,
    Impl,
    Break,
    Else,
    Loop,
    Is,
    Next, // keyword, like 'continue' in other languages
    Ret,
    Trait,
    Struct,
    Sum,
    Use,

    /* Nodes */
    Expr,
    Root,
    EndOfFile,
}

/// The number of a kind: its place in the declaration, from 0.
pub open spec fn syntax_index(k: SyntaxKind) -> u32 {
    match k {
        SyntaxKind::AddAssign => 0,
        SyntaxKind::Ampersand => 1,
        SyntaxKind::Equals => 2,
        SyntaxKind::At => 3,
        SyntaxKind::BitAndAssign => 4,
        SyntaxKind::BitOrAssign => 5,
        SyntaxKind::Tilde => 6,
        SyntaxKind::BitXorAssign => 7,
        SyntaxKind::BitNotAssign => 8,
        SyntaxKind::BitShiftLeft => 9,
        SyntaxKind::BitShiftRight => 10,
        SyntaxKind::BitShiftLeftAssign => 11,
        SyntaxKind::BitShiftRightAssign => 12,
        SyntaxKind::Caret => 13,
        SyntaxKind::OpenBrace => 14,
        SyntaxKind::CloseBrace => 15,
        SyntaxKind::OpenParen => 16,
        SyntaxKind::CloseParen => 17,
        SyntaxKind::OpenBrack => 18,
        SyntaxKind::CloseBrack => 19,
        SyntaxKind::Colon => 20,
        SyntaxKind::Semicolon => 21,
        SyntaxKind::Comma => 22,
        SyntaxKind::DeclareAssign => 23,
        SyntaxKind::DivAssign => 24,
        SyntaxKind::Dot => 25,
        SyntaxKind::DoubleEquals => 26,
        SyntaxKind::Excl => 27,
        SyntaxKind::Greater => 28,
        SyntaxKind::GreaterOrEqual => 29,
        SyntaxKind::Ident => 30,
        SyntaxKind::Less => 31,
        SyntaxKind::LessOrEqual => 32,
        SyntaxKind::LineBreak => 33,
        SyntaxKind::Plus => 34,
        SyntaxKind::Minus => 35,
        SyntaxKind::Star => 36,
        SyntaxKind::Percent => 37,
        SyntaxKind::Pipe => 38,
        SyntaxKind::ModAssign => 39,
        SyntaxKind::MultAssign => 40,
        SyntaxKind::ExclEquals => 41,
        SyntaxKind::Slash => 42,
        SyntaxKind::SubAssign => 43,
        SyntaxKind::DecimalIntegerNumberLiteral => 44,
        SyntaxKind::DecimalPointNumberLiteral => 45,
        SyntaxKind::HexadecimalIntegerNumberLiteral => 46,
        SyntaxKind::OctalIntegerNumberLiteral => 47,
        SyntaxKind::BinaryIntegerNumberLiteral => 48,
        SyntaxKind::ScientificDecimalNumberLiteral => 49,
        SyntaxKind::ScientificHexNumberLiteral => 50,
        SyntaxKind::StringLiteral => 51,
        SyntaxKind::Defer => 52,
        SyntaxKind::True => 53,
        SyntaxKind::False => 54,
        SyntaxKind::Fn => 55,
        SyntaxKind::For => 56,
        SyntaxKind::If => 57,
        SyntaxKind::In => 58,
        SyntaxKind::Impl => 59,
        SyntaxKind::Break => 60,
        SyntaxKind::Else => 61,
        SyntaxKind::Loop => 62,
        SyntaxKind::Is => 63,
        SyntaxKind::Next => 64,
        SyntaxKind::Ret => 65,
        SyntaxKind::Trait => 66,
        SyntaxKind::Struct => 67,
        SyntaxKind::Sum => 68,
        SyntaxKind::Use => 69,
        SyntaxKind::Expr => 70,
        SyntaxKind::Root => 71,
        SyntaxKind::EndOfFile => 72,
    }
}

/// The kind numbered `n`, for `n` below the number of kinds.
pub open spec fn syntax_of_index(n: u32) -> SyntaxKind
    recommends
        n < SYNTAX_KIND_COUNT,
{
    if n == 0 {
        SyntaxKind::AddAssign
    } else if n == 1 {
        SyntaxKind::Ampersand
    } else if n == 2 {
        SyntaxKind::Equals
    } else if n == 3 {
        SyntaxKind::At
    } else if n == 4 {
        SyntaxKind::BitAndAssign
    } else if n == 5 {
        SyntaxKind::BitOrAssign
    } else if n == 6 {
        SyntaxKind::Tilde
    } else if n == 7 {
        SyntaxKind::BitXorAssign
    } else if n == 8 {
        SyntaxKind::BitNotAssign
    } else if n == 9 {
        SyntaxKind::BitShiftLeft
    } else if n == 10 {
        SyntaxKind::BitShiftRight
    } else if n == 11 {
        SyntaxKind::BitShiftLeftAssign
    } else if n == 12 {
        SyntaxKind::BitShiftRightAssign
    } else if n == 13 {
        SyntaxKind::Caret
    } else if n == 14 {
        SyntaxKind::OpenBrace
    } else if n == 15 {
        SyntaxKind::CloseBrace
    } else if n == 16 {
        SyntaxKind::OpenParen
    } else if n == 17 {
        SyntaxKind::CloseParen
    } else if n == 18 {
        SyntaxKind::OpenBrack
    } else if n == 19 {
        SyntaxKind::CloseBrack
    } else if n == 20 {
        SyntaxKind::Colon
    } else if n == 21 {
        SyntaxKind::Semicolon
    } else if n == 22 {
        SyntaxKind::Comma
    } else if n == 23 {
        SyntaxKind::DeclareAssign
    } else if n == 24 {
        SyntaxKind::DivAssign
    } else if n == 25 {
        SyntaxKind::Dot
    } else if n == 26 {
        SyntaxKind::DoubleEquals
    } else if n == 27 {
        SyntaxKind::Excl
    } else if n == 28 {
        SyntaxKind::Greater
    } else if n == 29 {
        SyntaxKind::GreaterOrEqual
    } else if n == 30 {
        SyntaxKind::Ident
    } else if n == 31 {
        SyntaxKind::Less
    } else if n == 32 {
        SyntaxKind::LessOrEqual
    } else if n == 33 {
        SyntaxKind::LineBreak
    } else if n == 34 {
        SyntaxKind::Plus
    } else if n == 35 {
        SyntaxKind::Minus
    } else if n == 36 {
        SyntaxKind::Star
    } else if n == 37 {
        SyntaxKind::Percent
    } else if n == 38 {
        SyntaxKind::Pipe
    } else if n == 39 {
        SyntaxKind::ModAssign
    } else if n == 40 {
        SyntaxKind::MultAssign
    } else if n == 41 {
        SyntaxKind::ExclEquals
    } else if n == 42 {
        SyntaxKind::Slash
    } else if n == 43 {
        SyntaxKind::SubAssign
    } else if n == 44 {
        SyntaxKind::DecimalIntegerNumberLiteral
    } else if n == 45 {
        SyntaxKind::DecimalPointNumberLiteral
    } else if n == 46 {
        SyntaxKind::HexadecimalIntegerNumberLiteral
    } else if n == 47 {
        SyntaxKind::OctalIntegerNumberLiteral
    } else if n == 48 {
        SyntaxKind::BinaryIntegerNumberLiteral
    } else if n == 49 {
        SyntaxKind::ScientificDecimalNumberLiteral
    } else if n == 50 {
        SyntaxKind::ScientificHexNumberLiteral
    } else if n == 51 {
        SyntaxKind::StringLiteral
    } else if n == 52 {
        SyntaxKind::Defer
    } else if n == 53 {
        SyntaxKind::True
    } else if n == 54 {
        SyntaxKind::False
    } else if n == 55 {
        SyntaxKind::Fn
    } else if n == 56 {
        SyntaxKind::For
    } else if n == 57 {
        SyntaxKind::If
    } else if n == 58 {
        SyntaxKind::In
    } else if n == 59 {
        SyntaxKind::Impl
    } else if n == 60 {
        SyntaxKind::Break
    } else if n == 61 {
        SyntaxKind::Else
    } else if n == 62 {
        SyntaxKind::Loop
    } else if n == 63 {
        SyntaxKind::Is
    } else if n == 64 {
        SyntaxKind::Next
    } else if n == 65 {
        SyntaxKind::Ret
    } else if n == 66 {
        SyntaxKind::Trait
    } else if n == 67 {
        SyntaxKind::Struct
    } else if n == 68 {
        SyntaxKind::Sum
    } else if n == 69 {
        SyntaxKind::Use
    } else if n == 70 {
        SyntaxKind::Expr
    } else if n == 71 {
        SyntaxKind::Root
    } else {
        SyntaxKind::EndOfFile
    }
}

/// The fixed text of a kind, for punctuation, operators and keywords.
pub open spec fn spec_static_text(k: SyntaxKind) -> Option<Seq<char>> {
    match k {
        SyntaxKind::AddAssign => Some("+="@),
        SyntaxKind::Ampersand => Some("&"@),
        SyntaxKind::Equals => Some("="@),
        SyntaxKind::At => Some("@"@),
        SyntaxKind::BitAndAssign => Some("&="@),
        SyntaxKind::BitOrAssign => Some("|="@),
        SyntaxKind::Tilde => Some("~"@),
        SyntaxKind::BitXorAssign => Some("^="@),
        SyntaxKind::BitNotAssign => Some("~="@),
        SyntaxKind::BitShiftLeft => Some("<<"@),
        SyntaxKind::BitShiftRight => Some(">>"@),
        SyntaxKind::BitShiftLeftAssign => Some("<<="@),
        SyntaxKind::BitShiftRightAssign => Some(">>="@),
        SyntaxKind::Caret => Some("^"@),
        SyntaxKind::OpenBrace => Some("{"@),
        SyntaxKind::CloseBrace => Some("}"@),
        SyntaxKind::OpenParen => Some("("@),
        SyntaxKind::CloseParen => Some(")"@),
        SyntaxKind::OpenBrack => Some("["@),
        SyntaxKind::CloseBrack => Some("]"@),
        SyntaxKind::Colon => Some(":"@),
        SyntaxKind::Semicolon => Some(";"@),
        SyntaxKind::Comma => Some(","@),
        SyntaxKind::DeclareAssign => Some(":="@),
        SyntaxKind::DivAssign => Some("/="@),
        SyntaxKind::Dot => Some("."@),
        SyntaxKind::DoubleEquals => Some("=="@),
        SyntaxKind::Excl => Some("!"@),
        SyntaxKind::Greater => Some(">"@),
        SyntaxKind::GreaterOrEqual => Some(">="@),
        SyntaxKind::Less => Some("<"@),
        SyntaxKind::LessOrEqual => Some("<="@),
        SyntaxKind::LineBreak => Some("\n"@),
        SyntaxKind::Plus => Some("+"@),
        SyntaxKind::Minus => Some("-"@),
        SyntaxKind::Star => Some("*"@),
        SyntaxKind::Percent => Some("%"@),
        SyntaxKind::Pipe => Some("|"@),
        SyntaxKind::ModAssign => Some("%="@),
        SyntaxKind::MultAssign => Some("*="@),
        SyntaxKind::ExclEquals => Some("!="@),
        SyntaxKind::Slash => Some("/"@),
        SyntaxKind::SubAssign => Some("-="@),
        SyntaxKind::Defer => Some("defer"@),
        SyntaxKind::True => Some("true"@),
        SyntaxKind::False => Some("false"@),
        SyntaxKind::Fn => Some("fn"@),
        SyntaxKind::For => Some("for"@),
        SyntaxKind::If => Some("if"@),
        SyntaxKind::In => Some("in"@),
        SyntaxKind::Impl => Some("impl"@),
        SyntaxKind::Break => Some("break"@),
        SyntaxKind::Else => Some("else"@),
        SyntaxKind::Loop => Some("loop"@),
        SyntaxKind::Is => Some("is"@),
        SyntaxKind::Next => Some("next"@),
        SyntaxKind::Ret => Some("ret"@),
        SyntaxKind::Trait => Some("trait"@),
        SyntaxKind::Struct => Some("struct"@),
        SyntaxKind::Sum => Some("sum"@),
        SyntaxKind::Use => Some("use"@),
        _ => None,
    }
}

/// The view of an optional text.
pub open spec fn opt_text(t: Option<&str>) -> Option<Seq<char>> {
    match t {
        Some(s) => Some(s@),
        None => None,
    }
}

impl SyntaxKind {
    /// The fixed text of this kind, if it has one.
    pub fn static_text(self) -> (r: Option<&'static str>)
        ensures
            opt_text(r) == spec_static_text(self),
    {
        match self {
            SyntaxKind::AddAssign => Some("+="),
            SyntaxKind::Ampersand => Some("&"),
            SyntaxKind::Equals => Some("="),
            SyntaxKind::At => Some("@"),
            SyntaxKind::BitAndAssign => Some("&="),
            SyntaxKind::BitOrAssign => Some("|="),
            SyntaxKind::Tilde => Some("~"),
            SyntaxKind::BitXorAssign => Some("^="),
            SyntaxKind::BitNotAssign => Some("~="),
            SyntaxKind::BitShiftLeft => Some("<<"),
            SyntaxKind::BitShiftRight => Some(">>"),
            SyntaxKind::BitShiftLeftAssign => Some("<<="),
            SyntaxKind::BitShiftRightAssign => Some(">>="),
            SyntaxKind::Caret => Some("^"),
            SyntaxKind::OpenBrace => Some("{"),
            SyntaxKind::CloseBrace => Some("}"),
            SyntaxKind::OpenParen => Some("("),
            SyntaxKind::CloseParen => Some(")"),
            SyntaxKind::OpenBrack => Some("["),
            SyntaxKind::CloseBrack => Some("]"),
            SyntaxKind::Colon => Some(":"),
            SyntaxKind::Semicolon => Some(";"),
            SyntaxKind::Comma => Some(","),
            SyntaxKind::DeclareAssign => Some(":="),
            SyntaxKind::DivAssign => Some("/="),
            SyntaxKind::Dot => Some("."),
            SyntaxKind::DoubleEquals => Some("=="),
            SyntaxKind::Excl => Some("!"),
            SyntaxKind::Greater => Some(">"),
            SyntaxKind::GreaterOrEqual => Some(">="),
            SyntaxKind::Less => Some("<"),
            SyntaxKind::LessOrEqual => Some("<="),
            SyntaxKind::LineBreak => Some("\n"),
            SyntaxKind::Plus => Some("+"),
            SyntaxKind::Minus => Some("-"),
            SyntaxKind::Star => Some("*"),
            SyntaxKind::Percent => Some("%"),
            SyntaxKind::Pipe => Some("|"),
            SyntaxKind::ModAssign => Some("%="),
            SyntaxKind::MultAssign => Some("*="),
            SyntaxKind::ExclEquals => Some("!="),
            SyntaxKind::Slash => Some("/"),
            SyntaxKind::SubAssign => Some("-="),
            SyntaxKind::Defer => Some("defer"),
            SyntaxKind::True => Some("true"),
            SyntaxKind::False => Some("false"),
            SyntaxKind::Fn => Some("fn"),
            SyntaxKind::For => Some("for"),
            SyntaxKind::If => Some("if"),
            SyntaxKind::In => Some("in"),
            SyntaxKind::Impl => Some("impl"),
            SyntaxKind::Break => Some("break"),
            SyntaxKind::Else => Some("else"),
            SyntaxKind::Loop => Some("loop"),
            SyntaxKind::Is => Some("is"),
            SyntaxKind::Next => Some("next"),
            SyntaxKind::Ret => Some("ret"),
            SyntaxKind::Trait => Some("trait"),
            SyntaxKind::Struct => Some("struct"),
            SyntaxKind::Sum => Some("sum"),
            SyntaxKind::Use => Some("use"),
            _ => None,
        }
    }

    /// The number of this kind.
    pub fn index(self) -> (r: u32)
        ensures
            r == syntax_index(self),
    {
        match self {
            SyntaxKind::AddAssign => 0,
            SyntaxKind::Ampersand => 1,
            SyntaxKind::Equals => 2,
            SyntaxKind::At => 3,
            SyntaxKind::BitAndAssign => 4,
            SyntaxKind::BitOrAssign => 5,
            SyntaxKind::Tilde => 6,
            SyntaxKind::BitXorAssign => 7,
            SyntaxKind::BitNotAssign => 8,
            SyntaxKind::BitShiftLeft => 9,
            SyntaxKind::BitShiftRight => 10,
            SyntaxKind::BitShiftLeftAssign => 11,
            SyntaxKind::BitShiftRightAssign => 12,
            SyntaxKind::Caret => 13,
            SyntaxKind::OpenBrace => 14,
            SyntaxKind::CloseBrace => 15,
            SyntaxKind::OpenParen => 16,
            SyntaxKind::CloseParen => 17,
            SyntaxKind::OpenBrack => 18,
            SyntaxKind::CloseBrack => 19,
            SyntaxKind::Colon => 20,
            SyntaxKind::Semicolon => 21,
            SyntaxKind::Comma => 22,
            SyntaxKind::DeclareAssign => 23,
            SyntaxKind::DivAssign => 24,
            SyntaxKind::Dot => 25,
            SyntaxKind::DoubleEquals => 26,
            SyntaxKind::Excl => 27,
            SyntaxKind::Greater => 28,
            SyntaxKind::GreaterOrEqual => 29,
            SyntaxKind::Ident => 30,
            SyntaxKind::Less => 31,
            SyntaxKind::LessOrEqual => 32,
            SyntaxKind::LineBreak => 33,
            SyntaxKind::Plus => 34,
            SyntaxKind::Minus => 35,
            SyntaxKind::Star => 36,
            SyntaxKind::Percent => 37,
            SyntaxKind::Pipe => 38,
            SyntaxKind::ModAssign => 39,
            SyntaxKind::MultAssign => 40,
            SyntaxKind::ExclEquals => 41,
            SyntaxKind::Slash => 42,
            SyntaxKind::SubAssign => 43,
            SyntaxKind::DecimalIntegerNumberLiteral => 44,
            SyntaxKind::DecimalPointNumberLiteral => 45,
            SyntaxKind::HexadecimalIntegerNumberLiteral => 46,
            SyntaxKind::OctalIntegerNumberLiteral => 47,
            SyntaxKind::BinaryIntegerNumberLiteral => 48,
            SyntaxKind::ScientificDecimalNumberLiteral => 49,
            SyntaxKind::ScientificHexNumberLiteral => 50,
            SyntaxKind::StringLiteral => 51,
            SyntaxKind::Defer => 52,
            SyntaxKind::True => 53,
            SyntaxKind::False => 54,
            SyntaxKind::Fn => 55,
            SyntaxKind::For => 56,
            SyntaxKind::If => 57,
            SyntaxKind::In => 58,
            SyntaxKind::Impl => 59,
            SyntaxKind::Break => 60,
            SyntaxKind::Else => 61,
            SyntaxKind::Loop => 62,
            SyntaxKind::Is => 63,
            SyntaxKind::Next => 64,
            SyntaxKind::Ret => 65,
            SyntaxKind::Trait => 66,
            SyntaxKind::Struct => 67,
            SyntaxKind::Sum => 68,
            SyntaxKind::Use => 69,
            SyntaxKind::Expr => 70,
            SyntaxKind::Root => 71,
            SyntaxKind::EndOfFile => 72,
        }
    }

    /// The kind numbered `n`.
    pub fn from_index(n: u32) -> (r: Self)
        requires
            n < SYNTAX_KIND_COUNT,
        ensures
            r == syntax_of_index(n),
    {
        match n {
            0 => SyntaxKind::AddAssign,
            1 => SyntaxKind::Ampersand,
            2 => SyntaxKind::Equals,
            3 => SyntaxKind::At,
            4 => SyntaxKind::BitAndAssign,
            5 => SyntaxKind::BitOrAssign,
            6 => SyntaxKind::Tilde,
            7 => SyntaxKind::BitXorAssign,
            8 => SyntaxKind::BitNotAssign,
            9 => SyntaxKind::BitShiftLeft,
            10 => SyntaxKind::BitShiftRight,
            11 => SyntaxKind::BitShiftLeftAssign,
            12 => SyntaxKind::BitShiftRightAssign,
            13 => SyntaxKind::Caret,
            14 => SyntaxKind::OpenBrace,
            15 => SyntaxKind::CloseBrace,
            16 => SyntaxKind::OpenParen,
            17 => SyntaxKind::CloseParen,
            18 => SyntaxKind::OpenBrack,
            19 => SyntaxKind::CloseBrack,
            20 => SyntaxKind::Colon,
            21 => SyntaxKind::Semicolon,
            22 => SyntaxKind::Comma,
            23 => SyntaxKind::DeclareAssign,
            24 => SyntaxKind::DivAssign,
            25 => SyntaxKind::Dot,
            26 => SyntaxKind::DoubleEquals,
            27 => SyntaxKind::Excl,
            28 => SyntaxKind::Greater,
            29 => SyntaxKind::GreaterOrEqual,
            30 => SyntaxKind::Ident,
            31 => SyntaxKind::Less,
            32 => SyntaxKind::LessOrEqual,
            33 => SyntaxKind::LineBreak,
            34 => SyntaxKind::Plus,
            35 => SyntaxKind::Minus,
            36 => SyntaxKind::Star,
            37 => SyntaxKind::Percent,
            38 => SyntaxKind::Pipe,
            39 => SyntaxKind::ModAssign,
            40 => SyntaxKind::MultAssign,
            41 => SyntaxKind::ExclEquals,
            42 => SyntaxKind::Slash,
            43 => SyntaxKind::SubAssign,
            44 => SyntaxKind::DecimalIntegerNumberLiteral,
            45 => SyntaxKind::DecimalPointNumberLiteral,
            46 => SyntaxKind::HexadecimalIntegerNumberLiteral,
            47 => SyntaxKind::OctalIntegerNumberLiteral,
            48 => SyntaxKind::BinaryIntegerNumberLiteral,
            49 => SyntaxKind::ScientificDecimalNumberLiteral,
            50 => SyntaxKind::ScientificHexNumberLiteral,
            51 => SyntaxKind::StringLiteral,
            52 => SyntaxKind::Defer,
            53 => SyntaxKind::True,
            54 => SyntaxKind::False,
            55 => SyntaxKind::Fn,
            56 => SyntaxKind::For,
            57 => SyntaxKind::If,
            58 => SyntaxKind::In,
            59 => SyntaxKind::Impl,
            60 => SyntaxKind::Break,
            61 => SyntaxKind::Else,
            62 => SyntaxKind::Loop,
            63 => SyntaxKind::Is,
            64 => SyntaxKind::Next,
            65 => SyntaxKind::Ret,
            66 => SyntaxKind::Trait,
            67 => SyntaxKind::Struct,
            68 => SyntaxKind::Sum,
            69 => SyntaxKind::Use,
            70 => SyntaxKind::Expr,
            71 => SyntaxKind::Root,
            _ => SyntaxKind::EndOfFile,
        }
    }

    /// The kind whose tag is `raw`; the tag must number a kind.
    pub fn from_raw(raw: RawSyntaxKind) -> (r: Self)
        requires
            exists|n: u32| n < SYNTAX_KIND_COUNT && raw == #[trigger] raw_syntax_kind(n),
        ensures
            raw == raw_syntax_kind(syntax_index(r)),
            tag_numbers(raw, r),
    {
        let n = raw_kind_value(raw);
        proof {
            let m = choose|m: u32| m < SYNTAX_KIND_COUNT && raw == #[trigger] raw_syntax_kind(m);
            lemma_index_of_kind(n);
        }
        Self::from_index(n)
    }

    /// The kind whose tag is `raw`, or `None` where the tag numbers no kind.
    pub fn try_from_raw(raw: RawSyntaxKind) -> (r: Option<Self>)
        ensures
            match r {
                Some(k) => raw == raw_syntax_kind(syntax_index(k)) && tag_numbers(raw, k),
                None => forall|n: u32| #[trigger] raw_syntax_kind(n) == raw ==> n >= SYNTAX_KIND_COUNT,
            },
    {
        let n = raw_kind_value(raw);
        if n < SYNTAX_KIND_COUNT {
            Some(Self::from_raw(raw))
        } else {
            None
        }
    }

    /// The tag of this kind.
    pub fn into_raw(self) -> (r: RawSyntaxKind)
        ensures
            r == raw_syntax_kind(syntax_index(self)),
    {
        make_raw_kind(self.index())
    }
}

/// The tag `raw` numbers `k` and no other kind.
pub open spec fn tag_numbers(raw: RawSyntaxKind, k: SyntaxKind) -> bool {
    forall|n: u32| #[trigger] raw_syntax_kind(n) == raw ==> n == syntax_index(k)
}

/// A kind read back from its own tag is that kind: where `r` is what
/// `from_raw` gives for `into_raw(k)`, `r` is `k`.
pub proof fn lemma_from_raw_of_into_raw(k: SyntaxKind, r: SyntaxKind)
    requires
        tag_numbers(raw_syntax_kind(syntax_index(k)), r),
    ensures
        r == k,
{
    assert(syntax_index(k) == syntax_index(r));
    lemma_kind_of_index(k);
    lemma_kind_of_index(r);
}

/// The tag of a kind read from a tag is that tag: where `r` is what
/// `from_raw` gives for `raw` and `t` what `into_raw` gives for `r`, `t` is `raw`.
pub proof fn lemma_into_raw_of_from_raw(raw: RawSyntaxKind, r: SyntaxKind, t: RawSyntaxKind)
    requires
        raw == raw_syntax_kind(syntax_index(r)),
        t == raw_syntax_kind(syntax_index(r)),
    ensures
        t == raw,
{
}

/// Numbering a kind and taking the kind of that number gives the kind back.
pub proof fn lemma_kind_of_index(k: SyntaxKind)
    ensures
        syntax_index(k) < SYNTAX_KIND_COUNT,
        syntax_of_index(syntax_index(k)) == k,
{
}

/// Taking the kind numbered `n` and numbering it gives `n` back.
pub proof fn lemma_index_of_kind(n: u32)
    requires
        n < SYNTAX_KIND_COUNT,
    ensures
        syntax_index(syntax_of_index(n)) == n,
{
}

/// No two kinds share a fixed text: two kinds with the same fixed text are
/// the same kind.
pub proof fn lemma_static_texts_are_distinct(a: SyntaxKind, b: SyntaxKind)
    requires
        spec_static_text(a) is Some,
        spec_static_text(a) == spec_static_text(b),
    ensures
        a == b,
{
    reveal_strlit("+=");
    assert("+="@.len() == 2 && "+="@[0] == '+' && "+="@[1] == '=');
    reveal_strlit("&");
    assert("&"@.len() == 1 && "&"@[0] == '&');
    reveal_strlit("=");
    assert("="@.len() == 1 && "="@[0] == '=');
    reveal_strlit("@");
    assert("@"@.len() == 1 && "@"@[0] == '@');
    reveal_strlit("&=");
    assert("&="@.len() == 2 && "&="@[0] == '&' && "&="@[1] == '=');
    reveal_strlit("|=");
    assert("|="@.len() == 2 && "|="@[0] == '|' && "|="@[1] == '=');
    reveal_strlit("~");
    assert("~"@.len() == 1 && "~"@[0] == '~');
    reveal_strlit("^=");
    assert("^="@.len() == 2 && "^="@[0] == '^' && "^="@[1] == '=');
    reveal_strlit("~=");
    assert("~="@.len() == 2 && "~="@[0] == '~' && "~="@[1] == '=');
    reveal_strlit("<<");
    assert("<<"@.len() == 2 && "<<"@[0] == '<' && "<<"@[1] == '<');
    reveal_strlit(">>");
    assert(">>"@.len() == 2 && ">>"@[0] == '>' && ">>"@[1] == '>');
    reveal_strlit("<<=");
    assert("<<="@.len() == 3 && "<<="@[0] == '<' && "<<="@[1] == '<' && "<<="@[2] == '=');
    reveal_strlit(">>=");
    assert(">>="@.len() == 3 && ">>="@[0] == '>' && ">>="@[1] == '>' && ">>="@[2] == '=');
    reveal_strlit("^");
    assert("^"@.len() == 1 && "^"@[0] == '^');
    reveal_strlit("{");
    assert("{"@.len() == 1 && "{"@[0] == '{');
    reveal_strlit("}");
    assert("}"@.len() == 1 && "}"@[0] == '}');
    reveal_strlit("(");
    assert("("@.len() == 1 && "("@[0] == '(');
    reveal_strlit(")");
    assert(")"@.len() == 1 && ")"@[0] == ')');
    reveal_strlit("[");
    assert("["@.len() == 1 && "["@[0] == '[');
    reveal_strlit("]");
    assert("]"@.len() == 1 && "]"@[0] == ']');
    reveal_strlit(":");
    assert(":"@.len() == 1 && ":"@[0] == ':');
    reveal_strlit(";");
    assert(";"@.len() == 1 && ";"@[0] == ';');
    reveal_strlit(",");
    assert(","@.len() == 1 && ","@[0] == ',');
    reveal_strlit(":=");
    assert(":="@.len() == 2 && ":="@[0] == ':' && ":="@[1] == '=');
    reveal_strlit("/=");
    assert("/="@.len() == 2 && "/="@[0] == '/' && "/="@[1] == '=');
    reveal_strlit(".");
    assert("."@.len() == 1 && "."@[0] == '.');
    reveal_strlit("==");
    assert("=="@.len() == 2 && "=="@[0] == '=' && "=="@[1] == '=');
    reveal_strlit("!");
    assert("!"@.len() == 1 && "!"@[0] == '!');
    reveal_strlit(">");
    assert(">"@.len() == 1 && ">"@[0] == '>');
    reveal_strlit(">=");
    assert(">="@.len() == 2 && ">="@[0] == '>' && ">="@[1] == '=');
    reveal_strlit("<");
    assert("<"@.len() == 1 && "<"@[0] == '<');
    reveal_strlit("<=");
    assert("<="@.len() == 2 && "<="@[0] == '<' && "<="@[1] == '=');
    reveal_strlit("\n");
    assert("\n"@.len() == 1 && "\n"@[0] == '\n');
    reveal_strlit("+");
    assert("+"@.len() == 1 && "+"@[0] == '+');
    reveal_strlit("-");
    assert("-"@.len() == 1 && "-"@[0] == '-');
    reveal_strlit("*");
    assert("*"@.len() == 1 && "*"@[0] == '*');
    reveal_strlit("%");
    assert("%"@.len() == 1 && "%"@[0] == '%');
    reveal_strlit("|");
    assert("|"@.len() == 1 && "|"@[0] == '|');
    reveal_strlit("%=");
    assert("%="@.len() == 2 && "%="@[0] == '%' && "%="@[1] == '=');
    reveal_strlit("*=");
    assert("*="@.len() == 2 && "*="@[0] == '*' && "*="@[1] == '=');
    reveal_strlit("!=");
    assert("!="@.len() == 2 && "!="@[0] == '!' && "!="@[1] == '=');
    reveal_strlit("/");
    assert("/"@.len() == 1 && "/"@[0] == '/');
    reveal_strlit("-=");
    assert("-="@.len() == 2 && "-="@[0] == '-' && "-="@[1] == '=');
    reveal_strlit("defer");
    assert("defer"@.len() == 5 && "defer"@[0] == 'd' && "defer"@[1] == 'e' && "defer"@[2] == 'f' && "defer"@[3] == 'e' && "defer"@[4] == 'r');
    reveal_strlit("true");
    assert("true"@.len() == 4 && "true"@[0] == 't' && "true"@[1] == 'r' && "true"@[2] == 'u' && "true"@[3] == 'e');
    reveal_strlit("false");
    assert("false"@.len() == 5 && "false"@[0] == 'f' && "false"@[1] == 'a' && "false"@[2] == 'l' && "false"@[3] == 's' && "false"@[4] == 'e');
    reveal_strlit("fn");
    assert("fn"@.len() == 2 && "fn"@[0] == 'f' && "fn"@[1] == 'n');
    reveal_strlit("for");
    assert("for"@.len() == 3 && "for"@[0] == 'f' && "for"@[1] == 'o' && "for"@[2] == 'r');
    reveal_strlit("if");
    assert("if"@.len() == 2 && "if"@[0] == 'i' && "if"@[1] == 'f');
    reveal_strlit("in");
    assert("in"@.len() == 2 && "in"@[0] == 'i' && "in"@[1] == 'n');
    reveal_strlit("impl");
    assert("impl"@.len() == 4 && "impl"@[0] == 'i' && "impl"@[1] == 'm' && "impl"@[2] == 'p' && "impl"@[3] == 'l');
    reveal_strlit("break");
    assert("break"@.len() == 5 && "break"@[0] == 'b' && "break"@[1] == 'r' && "break"@[2] == 'e' && "break"@[3] == 'a' && "break"@[4] == 'k');
    reveal_strlit("else");
    assert("else"@.len() == 4 && "else"@[0] == 'e' && "else"@[1] == 'l' && "else"@[2] == 's' && "else"@[3] == 'e');
    reveal_strlit("loop");
    assert("loop"@.len() == 4 && "loop"@[0] == 'l' && "loop"@[1] == 'o' && "loop"@[2] == 'o' && "loop"@[3] == 'p');
    reveal_strlit("is");
    assert("is"@.len() == 2 && "is"@[0] == 'i' && "is"@[1] == 's');
    reveal_strlit("next");
    assert("next"@.len() == 4 && "next"@[0] == 'n' && "next"@[1] == 'e' && "next"@[2] == 'x' && "next"@[3] == 't');
    reveal_strlit("ret");
    assert("ret"@.len() == 3 && "ret"@[0] == 'r' && "ret"@[1] == 'e' && "ret"@[2] == 't');
    reveal_strlit("trait");
    assert("trait"@.len() == 5 && "trait"@[0] == 't' && "trait"@[1] == 'r' && "trait"@[2] == 'a' && "trait"@[3] == 'i' && "trait"@[4] == 't');
    reveal_strlit("struct");
    assert("struct"@.len() == 6 && "struct"@[0] == 's' && "struct"@[1] == 't' && "struct"@[2] == 'r' && "struct"@[3] == 'u' && "struct"@[4] == 'c' && "struct"@[5] == 't');
    reveal_strlit("sum");
    assert("sum"@.len() == 3 && "sum"@[0] == 's' && "sum"@[1] == 'u' && "sum"@[2] == 'm');
    reveal_strlit("use");
    assert("use"@.len() == 3 && "use"@[0] == 'u' && "use"@[1] == 's' && "use"@[2] == 'e');
}

} // verus!
