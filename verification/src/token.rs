//! Tokens: what the lexer makes of the source text and the parser reads.

use vstd::prelude::*;
use crate::span::{CodeSpan, default_span, location_text};
use crate::text::{escaped, push_escaped};
use crate::op::{BinaryOp, UnaryOp, spec_binary_op_of, spec_unary_op_of, spec_binary_bp};

verus! {

/// The kinds of token of the Mo language.
#[derive(Debug, Clone, Copy, PartialEq, Eq, Structural)]
pub enum TokenKind {
    AddAssign,
    Ampersand,
    Equals,
    At,
    BitAndAssign,
    BitOrAssign,
    BitXorAssign,
    BitNotAssign,
    BitShiftLeft,
    BitShiftRight,
    BitShiftLeftAssign,
    BitShiftRightAssign,
    Break,
    Caret,
    CloseBrace,
    CloseParen,
    OpenBrack,
    CloseBrack,
    Colon,
    Comma,
    DeclareAssign,
    Defer,
    DivAssign,
    Dot,
    DoubleEquals,
    Excl,
    Else,
    EndOfFile,
    False,
    Fn,
    For,
    Greater,
    GreaterOrEqual,
    Ident,
    If,
    In,
    Impl,
    Is,
    Less,
    LessOrEqual,
    LineBreak,
    Loop,
    Minus,
    Percent,
    Pipe,
    ModAssign,
    MultAssign,
    Next,
    ExclEquals,
    DecimalIntegerNumberLiteral,
    DecimalPointNumberLiteral,
    HexadecimalIntegerNumberLiteral,
    OctalIntegerNumberLiteral,
    BinaryIntegerNumberLiteral,
    ScientificDecimalNumberLiteral,
    ScientificHexNumberLiteral,
    OpenBrace,
    OpenParen,
    Plus,
    Ret,
    Semicolon,
    Slash,
    StringLiteral,
    Star,
    Struct,
    SubAssign,
    Sum,
    Tilde,
    Trait,
    True,
    Use,
}

/// The kinds of number literal.
#[derive(Debug, Clone, Copy, PartialEq, Eq, Structural)]
pub enum NumberLiteralKind {
    DecimalInteger,
    DecimalPoint,
    BinaryInteger,
    OctalInteger,
    HexadecimalInteger,
    ScientificDecimal,
    ScientificHex,
}

/// The radix in which the digits of a number literal of this kind are written.
pub open spec fn spec_radix(k: NumberLiteralKind) -> u32 {
    match k {
        NumberLiteralKind::DecimalInteger
        | NumberLiteralKind::ScientificDecimal
        | NumberLiteralKind::DecimalPoint => 10,
        NumberLiteralKind::BinaryInteger => 2,
        NumberLiteralKind::OctalInteger => 8,
        NumberLiteralKind::HexadecimalInteger | NumberLiteralKind::ScientificHex => 16,
    }
}

/// The token kind of a number literal of this kind.
pub open spec fn spec_number_token_kind(k: NumberLiteralKind) -> TokenKind {
    match k {
        NumberLiteralKind::DecimalInteger => TokenKind::DecimalIntegerNumberLiteral,
        NumberLiteralKind::DecimalPoint => TokenKind::DecimalPointNumberLiteral,
        NumberLiteralKind::BinaryInteger => TokenKind::BinaryIntegerNumberLiteral,
        NumberLiteralKind::OctalInteger => TokenKind::OctalIntegerNumberLiteral,
        NumberLiteralKind::HexadecimalInteger => TokenKind::HexadecimalIntegerNumberLiteral,
        NumberLiteralKind::ScientificDecimal => TokenKind::ScientificDecimalNumberLiteral,
        NumberLiteralKind::ScientificHex => TokenKind::ScientificHexNumberLiteral,
    }
}

/// The number literal kind of a token kind, if it is one of a number literal.
pub open spec fn spec_number_kind_of(k: TokenKind) -> Option<NumberLiteralKind> {
    match k {
        TokenKind::DecimalIntegerNumberLiteral => Some(NumberLiteralKind::DecimalInteger),
        TokenKind::DecimalPointNumberLiteral => Some(NumberLiteralKind::DecimalPoint),
        TokenKind::BinaryIntegerNumberLiteral => Some(NumberLiteralKind::BinaryInteger),
        TokenKind::OctalIntegerNumberLiteral => Some(NumberLiteralKind::OctalInteger),
        TokenKind::HexadecimalIntegerNumberLiteral => Some(NumberLiteralKind::HexadecimalInteger),
        TokenKind::ScientificDecimalNumberLiteral => Some(NumberLiteralKind::ScientificDecimal),
        TokenKind::ScientificHexNumberLiteral => Some(NumberLiteralKind::ScientificHex),
        _ => None,
    }
}

impl NumberLiteralKind {
    /// The radix of the digits of this kind of literal.
    pub fn get_radix(&self) -> (r: u32)
        ensures
            r == spec_radix(*self),
    {
        match self {
            NumberLiteralKind::DecimalInteger
            | NumberLiteralKind::ScientificDecimal
            | NumberLiteralKind::DecimalPoint => 10,
            NumberLiteralKind::BinaryInteger => 2,
            NumberLiteralKind::OctalInteger => 8,
            NumberLiteralKind::HexadecimalInteger | NumberLiteralKind::ScientificHex => 16,
        }
    }

    /// The token kind that carries a literal of this kind.
    pub fn get_token_type(&self) -> (r: TokenKind)
        ensures
            r == spec_number_token_kind(*self),
    {
        match self {
            NumberLiteralKind::DecimalInteger => TokenKind::DecimalIntegerNumberLiteral,
            NumberLiteralKind::DecimalPoint => TokenKind::DecimalPointNumberLiteral,
            NumberLiteralKind::BinaryInteger => TokenKind::BinaryIntegerNumberLiteral,
            NumberLiteralKind::OctalInteger => TokenKind::OctalIntegerNumberLiteral,
            NumberLiteralKind::HexadecimalInteger => TokenKind::HexadecimalIntegerNumberLiteral,
            NumberLiteralKind::ScientificDecimal => TokenKind::ScientificDecimalNumberLiteral,
            NumberLiteralKind::ScientificHex => TokenKind::ScientificHexNumberLiteral,
        }
    }
}

/// The error of a token kind that is not one of a number literal.
#[derive(Debug, Clone, Copy, PartialEq, Eq, Structural)]
pub struct NonNumberLiteralTokenTypeError;

impl TryFrom<TokenKind> for NumberLiteralKind {
    type Error = NonNumberLiteralTokenTypeError;

    fn try_from(value: TokenKind) -> (r: Result<Self, Self::Error>) {
        match value {
            TokenKind::DecimalIntegerNumberLiteral => Ok(NumberLiteralKind::DecimalInteger),
            TokenKind::DecimalPointNumberLiteral => Ok(NumberLiteralKind::DecimalPoint),
            TokenKind::BinaryIntegerNumberLiteral => Ok(NumberLiteralKind::BinaryInteger),
            TokenKind::OctalIntegerNumberLiteral => Ok(NumberLiteralKind::OctalInteger),
            TokenKind::HexadecimalIntegerNumberLiteral => Ok(NumberLiteralKind::HexadecimalInteger),
            TokenKind::ScientificDecimalNumberLiteral => Ok(NumberLiteralKind::ScientificDecimal),
            TokenKind::ScientificHexNumberLiteral => Ok(NumberLiteralKind::ScientificHex),
            _ => Err(NonNumberLiteralTokenTypeError),
        }
    }
}

impl vstd::std_specs::convert::TryFromSpecImpl<TokenKind> for NumberLiteralKind {
    open spec fn obeys_try_from_spec() -> bool {
        true
    }

    open spec fn try_from_spec(value: TokenKind) -> Result<Self, Self::Error> {
        match spec_number_kind_of(value) {
            Some(k) => Ok(k),
            None => Err(NonNumberLiteralTokenTypeError),
        }
    }
}

impl From<NumberLiteralKind> for TokenKind {
    fn from(value: NumberLiteralKind) -> (r: Self) {
        value.get_token_type()
    }
}

impl vstd::std_specs::convert::FromSpecImpl<NumberLiteralKind> for TokenKind {
    open spec fn obeys_from_spec() -> bool {
        true
    }

    open spec fn from_spec(value: NumberLiteralKind) -> Self {
        spec_number_token_kind(value)
    }
}

/// A token: its kind, the text it carries (identifiers, literals) and where it stands.
#[derive(Debug)]
pub struct Token {
    pub kind: TokenKind,
    pub value: Option<String>,
    pub span: CodeSpan,
}

/// What a token is, with its text as a sequence of characters.
pub struct TokenM {
    pub kind: TokenKind,
    pub value: Option<Seq<char>>,
    pub span: CodeSpan,
}

/// The characters of an optional string.
pub open spec fn opt_chars(o: Option<String>) -> Option<Seq<char>> {
    match o {
        Some(s) => Some(s@),
        None => None,
    }
}

impl View for Token {
    type V = TokenM;

    open spec fn view(&self) -> TokenM {
        TokenM { kind: self.kind, value: opt_chars(self.value), span: self.span }
    }
}

/// The token of kind `kind` that carries no text.
pub open spec fn plain_token(kind: TokenKind, span: CodeSpan) -> TokenM {
    TokenM { kind, value: None, span }
}

/// The token of kind `kind` that carries the text `value`.
pub open spec fn valued_token(kind: TokenKind, value: Seq<char>, span: CodeSpan) -> TokenM {
    TokenM { kind, value: Some(value), span }
}

impl Clone for Token {
    fn clone(&self) -> (r: Self)
        ensures
            r == *self,
    {
        let value = match &self.value {
            Some(s) => Some(s.clone()),
            None => None,
        };
        Token { kind: self.kind, value, span: self.span }
    }
}

/// True of the kinds of assignment operator.
pub open spec fn spec_is_assignment_kind(k: TokenKind) -> bool {
    match k {
        TokenKind::Equals
        | TokenKind::DeclareAssign
        | TokenKind::AddAssign
        | TokenKind::SubAssign
        | TokenKind::MultAssign
        | TokenKind::ModAssign
        | TokenKind::DivAssign
        | TokenKind::BitAndAssign
        | TokenKind::BitXorAssign
        | TokenKind::BitNotAssign
        | TokenKind::BitOrAssign
        | TokenKind::BitShiftLeftAssign
        | TokenKind::BitShiftRightAssign => true,
        _ => false,
    }
}

/// The binding powers (left, right) of a token that can follow an expression:
/// a binary operator, a call, a field access, an index, a generic call or an assignment.
pub open spec fn spec_token_infix_bp(k: TokenKind) -> Option<(u8, u8)> {
    match spec_binary_op_of(k) {
        Some(op) => Some(spec_binary_bp(op)),
        None => match k {
            TokenKind::OpenParen => Some((110u8, 0u8)),
            TokenKind::Dot => Some((120u8, 0u8)),
            TokenKind::OpenBrack => Some((110u8, 0u8)),
            TokenKind::Colon => Some((9u8, 10u8)),
            _ => if spec_is_assignment_kind(k) {
                Some((10u8, 9u8))
            } else {
                None
            },
        },
    }
}

/// The name of a token kind, as it is printed.
pub open spec fn spec_kind_name(k: TokenKind) -> Seq<char> {
    match k {
        TokenKind::AddAssign => "AddAssign"@,
        TokenKind::Ampersand => "Ampersand"@,
        TokenKind::Equals => "Equals"@,
        TokenKind::At => "At"@,
        TokenKind::BitAndAssign => "BitAndAssign"@,
        TokenKind::BitOrAssign => "BitOrAssign"@,
        TokenKind::BitXorAssign => "BitXorAssign"@,
        TokenKind::BitNotAssign => "BitNotAssign"@,
        TokenKind::BitShiftLeft => "BitShiftLeft"@,
        TokenKind::BitShiftRight => "BitShiftRight"@,
        TokenKind::BitShiftLeftAssign => "BitShiftLeftAssign"@,
        TokenKind::BitShiftRightAssign => "BitShiftRightAssign"@,
        TokenKind::Break => "Break"@,
        TokenKind::Caret => "Caret"@,
        TokenKind::CloseBrace => "CloseBrace"@,
        TokenKind::CloseParen => "CloseParen"@,
        TokenKind::OpenBrack => "OpenBrack"@,
        TokenKind::CloseBrack => "CloseBrack"@,
        TokenKind::Colon => "Colon"@,
        TokenKind::Comma => "Comma"@,
        TokenKind::DeclareAssign => "DeclareAssign"@,
        TokenKind::Defer => "Defer"@,
        TokenKind::DivAssign => "DivAssign"@,
        TokenKind::Dot => "Dot"@,
        TokenKind::DoubleEquals => "DoubleEquals"@,
        TokenKind::Excl => "Excl"@,
        TokenKind::Else => "Else"@,
        TokenKind::EndOfFile => "EndOfFile"@,
        TokenKind::False => "False"@,
        TokenKind::Fn => "Fn"@,
        TokenKind::For => "For"@,
        TokenKind::Greater => "Greater"@,
        TokenKind::GreaterOrEqual => "GreaterOrEqual"@,
        TokenKind::Ident => "Ident"@,
        TokenKind::If => "If"@,
        TokenKind::In => "In"@,
        TokenKind::Impl => "Impl"@,
        TokenKind::Is => "Is"@,
        TokenKind::Less => "Less"@,
        TokenKind::LessOrEqual => "LessOrEqual"@,
        TokenKind::LineBreak => "LineBreak"@,
        TokenKind::Loop => "Loop"@,
        TokenKind::Minus => "Minus"@,
        TokenKind::Percent => "Percent"@,
        TokenKind::Pipe => "Pipe"@,
        TokenKind::ModAssign => "ModAssign"@,
        TokenKind::MultAssign => "MultAssign"@,
        TokenKind::Next => "Next"@,
        TokenKind::ExclEquals => "ExclEquals"@,
        TokenKind::DecimalIntegerNumberLiteral => "DecimalIntegerNumberLiteral"@,
        TokenKind::DecimalPointNumberLiteral => "DecimalPointNumberLiteral"@,
        TokenKind::HexadecimalIntegerNumberLiteral => "HexadecimalIntegerNumberLiteral"@,
        TokenKind::OctalIntegerNumberLiteral => "OctalIntegerNumberLiteral"@,
        TokenKind::BinaryIntegerNumberLiteral => "BinaryIntegerNumberLiteral"@,
        TokenKind::ScientificDecimalNumberLiteral => "ScientificDecimalNumberLiteral"@,
        TokenKind::ScientificHexNumberLiteral => "ScientificHexNumberLiteral"@,
        TokenKind::OpenBrace => "OpenBrace"@,
        TokenKind::OpenParen => "OpenParen"@,
        TokenKind::Plus => "Plus"@,
        TokenKind::Ret => "Ret"@,
        TokenKind::Semicolon => "Semicolon"@,
        TokenKind::Slash => "Slash"@,
        TokenKind::StringLiteral => "StringLiteral"@,
        TokenKind::Star => "Star"@,
        TokenKind::Struct => "Struct"@,
        TokenKind::SubAssign => "SubAssign"@,
        TokenKind::Sum => "Sum"@,
        TokenKind::Tilde => "Tilde"@,
        TokenKind::Trait => "Trait"@,
        TokenKind::True => "True"@,
        TokenKind::Use => "Use"@,
    }
}

impl TokenKind {
    /// The name of this kind, as it is printed.
    pub fn name(&self) -> (r: &'static str)
        ensures
            r@ == spec_kind_name(*self),
    {
        match self {
            TokenKind::AddAssign => "AddAssign",
            TokenKind::Ampersand => "Ampersand",
            TokenKind::Equals => "Equals",
            TokenKind::At => "At",
            TokenKind::BitAndAssign => "BitAndAssign",
            TokenKind::BitOrAssign => "BitOrAssign",
            TokenKind::BitXorAssign => "BitXorAssign",
            TokenKind::BitNotAssign => "BitNotAssign",
            TokenKind::BitShiftLeft => "BitShiftLeft",
            TokenKind::BitShiftRight => "BitShiftRight",
            TokenKind::BitShiftLeftAssign => "BitShiftLeftAssign",
            TokenKind::BitShiftRightAssign => "BitShiftRightAssign",
            TokenKind::Break => "Break",
            TokenKind::Caret => "Caret",
            TokenKind::CloseBrace => "CloseBrace",
            TokenKind::CloseParen => "CloseParen",
            TokenKind::OpenBrack => "OpenBrack",
            TokenKind::CloseBrack => "CloseBrack",
            TokenKind::Colon => "Colon",
            TokenKind::Comma => "Comma",
            TokenKind::DeclareAssign => "DeclareAssign",
            TokenKind::Defer => "Defer",
            TokenKind::DivAssign => "DivAssign",
            TokenKind::Dot => "Dot",
            TokenKind::DoubleEquals => "DoubleEquals",
            TokenKind::Excl => "Excl",
            TokenKind::Else => "Else",
            TokenKind::EndOfFile => "EndOfFile",
            TokenKind::False => "False",
            TokenKind::Fn => "Fn",
            TokenKind::For => "For",
            TokenKind::Greater => "Greater",
            TokenKind::GreaterOrEqual => "GreaterOrEqual",
            TokenKind::Ident => "Ident",
            TokenKind::If => "If",
            TokenKind::In => "In",
            TokenKind::Impl => "Impl",
            TokenKind::Is => "Is",
            TokenKind::Less => "Less",
            TokenKind::LessOrEqual => "LessOrEqual",
            TokenKind::LineBreak => "LineBreak",
            TokenKind::Loop => "Loop",
            TokenKind::Minus => "Minus",
            TokenKind::Percent => "Percent",
            TokenKind::Pipe => "Pipe",
            TokenKind::ModAssign => "ModAssign",
            TokenKind::MultAssign => "MultAssign",
            TokenKind::Next => "Next",
            TokenKind::ExclEquals => "ExclEquals",
            TokenKind::DecimalIntegerNumberLiteral => "DecimalIntegerNumberLiteral",
            TokenKind::DecimalPointNumberLiteral => "DecimalPointNumberLiteral",
            TokenKind::HexadecimalIntegerNumberLiteral => "HexadecimalIntegerNumberLiteral",
            TokenKind::OctalIntegerNumberLiteral => "OctalIntegerNumberLiteral",
            TokenKind::BinaryIntegerNumberLiteral => "BinaryIntegerNumberLiteral",
            TokenKind::ScientificDecimalNumberLiteral => "ScientificDecimalNumberLiteral",
            TokenKind::ScientificHexNumberLiteral => "ScientificHexNumberLiteral",
            TokenKind::OpenBrace => "OpenBrace",
            TokenKind::OpenParen => "OpenParen",
            TokenKind::Plus => "Plus",
            TokenKind::Ret => "Ret",
            TokenKind::Semicolon => "Semicolon",
            TokenKind::Slash => "Slash",
            TokenKind::StringLiteral => "StringLiteral",
            TokenKind::Star => "Star",
            TokenKind::Struct => "Struct",
            TokenKind::SubAssign => "SubAssign",
            TokenKind::Sum => "Sum",
            TokenKind::Tilde => "Tilde",
            TokenKind::Trait => "Trait",
            TokenKind::True => "True",
            TokenKind::Use => "Use",
        }
    }
}

/// A token as text: its kind, where it starts and ends, and its text, escaped,
/// where it carries one.
pub open spec fn token_text(t: TokenM) -> Seq<char> {
    spec_kind_name(t.kind) + " from "@ + location_text(t.span.start) + " to "@ + location_text(t.span.end)
        + match t.value {
            Some(v) => ", value: \""@ + escaped(v) + "\""@,
            None => Seq::empty(),
        }
}

impl Token {
    /// The token as text: `Kind from line:column to line:column`, followed by
    /// `, value: "text"` with the text escaped where the token carries one.
    pub fn to_text(&self) -> (r: String)
        ensures
            r@ == token_text(self@),
    {
        let mut text = String::from_str(self.kind.name());
        text.append(" from ");
        let start = self.span.start.to_text();
        text.append(start.as_str());
        text.append(" to ");
        let end = self.span.end.to_text();
        text.append(end.as_str());
        match &self.value {
            Some(value) => {
                text.append(", value: \"");
                push_escaped(value.as_str(), &mut text);
                text.append("\"");
            },
            None => {},
        }
        assert(text@ =~= token_text(self@));
        text
    }

    /// A string literal token.
    pub fn string_literal(literal: String, span: CodeSpan) -> (r: Self)
        ensures
            r@ == valued_token(TokenKind::StringLiteral, literal@, span),
    {
        Token { kind: TokenKind::StringLiteral, value: Some(literal), span }
    }

    /// An identifier token.
    pub fn ident(ident: String, span: CodeSpan) -> (r: Self)
        ensures
            r@ == valued_token(TokenKind::Ident, ident@, span),
    {
        Token { kind: TokenKind::Ident, value: Some(ident), span }
    }

    /// A decimal integer literal token.
    pub fn integer(value: String, span: CodeSpan) -> (r: Self)
        ensures
            r@ == valued_token(TokenKind::DecimalIntegerNumberLiteral, value@, span),
    {
        Token { kind: TokenKind::DecimalIntegerNumberLiteral, value: Some(value), span }
    }

    /// A number literal token of the given literal kind.
    pub fn number_literal(value: String, number_literal_type: NumberLiteralKind, span: CodeSpan) -> (r: Self)
        ensures
            r@ == valued_token(spec_number_token_kind(number_literal_type), value@, span),
    {
        Token { kind: number_literal_type.get_token_type(), value: Some(value), span }
    }

    /// A token that carries no text.
    pub fn new(kind: TokenKind, span: CodeSpan) -> (r: Self)
        ensures
            r@ == plain_token(kind, span),
    {
        Token { kind, value: None, span }
    }

    /// A token of any kind that carries the given text.
    pub fn with_value(kind: TokenKind, value: String, span: CodeSpan) -> (r: Self)
        ensures
            r@ == valued_token(kind, value@, span),
    {
        Token { kind, value: Some(value), span }
    }

    /// The text of the token, if it carries one.
    pub fn value(&self) -> (r: Option<&String>)
        ensures
            r == match self.value {
                Some(s) => Some(&s),
                None => None::<&String>,
            },
    {
        match &self.value {
            Some(s) => Some(s),
            None => None,
        }
    }

    /// A copy of the text of the token, which must carry one.
    pub fn unwrap_value(&self) -> (r: String)
        requires
            self.value is Some,
        ensures
            r == self.value->Some_0,
    {
        match &self.value {
            Some(s) => s.clone(),
            None => String::new(),
        }
    }

    /// True of assignment operators (`=`, `:=`, `+=`, ...).
    pub fn is_assignment_operator(&self) -> (r: bool)
        ensures
            r == spec_is_assignment_kind(self.kind),
    {
        match self.kind {
            TokenKind::Equals
            | TokenKind::DeclareAssign
            | TokenKind::AddAssign
            | TokenKind::SubAssign
            | TokenKind::MultAssign
            | TokenKind::ModAssign
            | TokenKind::DivAssign
            | TokenKind::BitAndAssign
            | TokenKind::BitXorAssign
            | TokenKind::BitNotAssign
            | TokenKind::BitOrAssign
            | TokenKind::BitShiftLeftAssign
            | TokenKind::BitShiftRightAssign => true,
            _ => false,
        }
    }

    /// True of tokens that stand for a binary operator.
    pub fn is_binary_op(&self) -> (r: bool)
        ensures
            r == spec_binary_op_of(self.kind) is Some,
    {
        BinaryOp::try_from(self.kind).is_ok()
    }

    /// True of tokens that stand for a prefix operator.
    pub fn is_unary_op(&self) -> (r: bool)
        ensures
            r == spec_unary_op_of(self.kind) is Some,
    {
        UnaryOp::try_from(self.kind).is_ok()
    }

    /// True when the token is of the given kind.
    pub fn is_of_kind(&self, kind: TokenKind) -> (r: bool)
        ensures
            r == (self.kind == kind),
    {
        self.kind == kind
    }

    /// True when the token is of one of the given kinds.
    pub fn is_of_any_kinds(&self, types: &[TokenKind]) -> (r: bool)
        ensures
            r == types@.contains(self.kind),
    {
        let mut i: usize = 0;
        while i < types.len()
            invariant
                0 <= i <= types@.len(),
                forall|j: int| 0 <= j < i ==> types@[j] != self.kind,
            decreases types@.len() - i,
        {
            if self.is_of_kind(types[i]) {
                return true;
            }
            i = i + 1;
        }
        false
    }

    /// True of number literal tokens.
    pub fn is_number_literal(&self) -> (r: bool)
        ensures
            r == spec_number_kind_of(self.kind) is Some,
    {
        NumberLiteralKind::try_from(self.kind).is_ok()
    }

    /// The binding powers of the token where it follows an expression, if it can.
    pub fn infix_binding_power(&self) -> (r: Option<(u8, u8)>)
        ensures
            r == spec_token_infix_bp(self.kind),
    {
        if let Ok(binary_op) = BinaryOp::try_from(self.kind) {
            return Some(binary_op.infix_binding_power());
        }
        match self.kind {
            TokenKind::OpenParen => Some((110, 0)),
            TokenKind::Dot => Some((120, 0)),
            TokenKind::OpenBrack => Some((110, 0)),
            TokenKind::Colon => Some((9, 10)),
            TokenKind::DeclareAssign
            | TokenKind::Equals
            | TokenKind::AddAssign
            | TokenKind::SubAssign
            | TokenKind::MultAssign
            | TokenKind::DivAssign
            | TokenKind::ModAssign
            | TokenKind::BitAndAssign
            | TokenKind::BitOrAssign
            | TokenKind::BitNotAssign
            | TokenKind::BitXorAssign
            | TokenKind::BitShiftLeftAssign
            | TokenKind::BitShiftRightAssign => Some((10, 9)),
            _ => None,
        }
    }
}

impl From<TokenKind> for Token {
    fn from(kind: TokenKind) -> (r: Self) {
        Token { kind, value: None, span: CodeSpan::default() }
    }
}

impl vstd::std_specs::convert::FromSpecImpl<TokenKind> for Token {
    open spec fn obeys_from_spec() -> bool {
        true
    }

    open spec fn from_spec(kind: TokenKind) -> Self {
        Token { kind, value: None, span: default_span() }
    }
}

} // verus!
