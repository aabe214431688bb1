//! Operators: what forms an expression together with other expressions.
//! Unary operators form unary expressions, binary operators binary ones.

use vstd::prelude::*;
use crate::token::TokenKind;

verus! {

/// Prefix (and the postfix dereference) operators.
#[derive(Debug, Clone, Copy, PartialEq, Eq, Structural)]
pub enum UnaryOp {
    Negative,
    Not,
    BitNot,
    Deref,
    AddressOf,
}

/// The error of a token kind that is no prefix operator.
#[derive(Debug, Clone, Copy, PartialEq, Eq, Structural)]
pub struct TokenNotAUnaryOpError;

/// The prefix operator that a token kind stands for, if any.
pub open spec fn spec_unary_op_of(k: TokenKind) -> Option<UnaryOp> {
    match k {
        TokenKind::Minus => Some(UnaryOp::Negative),
        TokenKind::Excl => Some(UnaryOp::Not),
        TokenKind::Tilde => Some(UnaryOp::BitNot),
        TokenKind::Ampersand => Some(UnaryOp::AddressOf),
        _ => None,
    }
}

impl TryFrom<TokenKind> for UnaryOp {
    type Error = TokenNotAUnaryOpError;

    fn try_from(value: TokenKind) -> (r: Result<Self, Self::Error>) {
        match value {
            TokenKind::Minus => Ok(UnaryOp::Negative),
            TokenKind::Excl => Ok(UnaryOp::Not),
            TokenKind::Tilde => Ok(UnaryOp::BitNot),
            TokenKind::Ampersand => Ok(UnaryOp::AddressOf),
            _ => Err(TokenNotAUnaryOpError),
        }
    }
}

impl vstd::std_specs::convert::TryFromSpecImpl<TokenKind> for UnaryOp {
    open spec fn obeys_try_from_spec() -> bool {
        true
    }

    open spec fn try_from_spec(value: TokenKind) -> Result<Self, Self::Error> {
        match spec_unary_op_of(value) {
            Some(op) => Ok(op),
            None => Err(TokenNotAUnaryOpError),
        }
    }
}

impl UnaryOp {
    /// The binding power of prefix operators: above every binary operator,
    /// so that `-a * b` is `(-a) * b`.
    pub fn prefix_binding_power(&self) -> (r: u8)
        ensures
            r == 17,
    {
        17
    }
}

/// Binary operators.
#[derive(Debug, Clone, Copy, PartialEq, Eq, Structural)]
pub enum BinaryOp {
    Add,
    Sub,
    Mult,
    Div,
    Mod,
    BitShiftLeft,
    BitShiftRight,
    BitOr,
    BitAnd,
    BitXor,
    Greater,
    Less,
    Equal,
    NotEqual,
    GreaterOrEqual,
    LessOrEqual,
}

/// The binding powers (left, right) of a binary operator; a higher power binds
/// more tightly, and the right power is one above the left, so that operators of
/// one level group to the left.
pub open spec fn spec_binary_bp(op: BinaryOp) -> (u8, u8) {
    match op {
        BinaryOp::Equal | BinaryOp::NotEqual => (1u8, 2u8),
        BinaryOp::Greater | BinaryOp::Less | BinaryOp::GreaterOrEqual | BinaryOp::LessOrEqual => (3u8, 4u8),
        BinaryOp::BitOr => (5u8, 6u8),
        BinaryOp::BitXor => (7u8, 8u8),
        BinaryOp::BitAnd => (9u8, 10u8),
        BinaryOp::BitShiftLeft | BinaryOp::BitShiftRight => (11u8, 12u8),
        BinaryOp::Add | BinaryOp::Sub => (13u8, 14u8),
        BinaryOp::Mult | BinaryOp::Div | BinaryOp::Mod => (15u8, 16u8),
    }
}

impl BinaryOp {
    /// The binding powers of the operator.
    pub fn infix_binding_power(&self) -> (r: (u8, u8))
        ensures
            r == spec_binary_bp(*self),
    {
        match self {
            BinaryOp::Equal | BinaryOp::NotEqual => (1, 2),
            BinaryOp::Greater | BinaryOp::Less | BinaryOp::GreaterOrEqual | BinaryOp::LessOrEqual => (3, 4),
            BinaryOp::BitOr => (5, 6),
            BinaryOp::BitXor => (7, 8),
            BinaryOp::BitAnd => (9, 10),
            BinaryOp::BitShiftLeft | BinaryOp::BitShiftRight => (11, 12),
            BinaryOp::Add | BinaryOp::Sub => (13, 14),
            BinaryOp::Mult | BinaryOp::Div | BinaryOp::Mod => (15, 16),
        }
    }
}

/// The error of a token kind that is no binary operator.
#[derive(Debug, Clone, Copy, PartialEq, Eq, Structural)]
pub struct TokenNotABinaryOpError;

/// The binary operator that a token kind stands for, if any.
pub open spec fn spec_binary_op_of(k: TokenKind) -> Option<BinaryOp> {
    match k {
        TokenKind::Plus => Some(BinaryOp::Add),
        TokenKind::Minus => Some(BinaryOp::Sub),
        TokenKind::Star => Some(BinaryOp::Mult),
        TokenKind::Slash => Some(BinaryOp::Div),
        TokenKind::Percent => Some(BinaryOp::Mod),
        TokenKind::BitShiftLeft => Some(BinaryOp::BitShiftLeft),
        TokenKind::BitShiftRight => Some(BinaryOp::BitShiftRight),
        TokenKind::Pipe => Some(BinaryOp::BitOr),
        TokenKind::Ampersand => Some(BinaryOp::BitAnd),
        TokenKind::Caret => Some(BinaryOp::BitXor),
        TokenKind::DoubleEquals => Some(BinaryOp::Equal),
        TokenKind::ExclEquals => Some(BinaryOp::NotEqual),
        TokenKind::Greater => Some(BinaryOp::Greater),
        TokenKind::Less => Some(BinaryOp::Less),
        TokenKind::GreaterOrEqual => Some(BinaryOp::GreaterOrEqual),
        TokenKind::LessOrEqual => Some(BinaryOp::LessOrEqual),
        _ => None,
    }
}

impl TryFrom<TokenKind> for BinaryOp {
    type Error = TokenNotABinaryOpError;

    fn try_from(value: TokenKind) -> (r: Result<Self, Self::Error>) {
        match value {
            TokenKind::Plus => Ok(BinaryOp::Add),
            TokenKind::Minus => Ok(BinaryOp::Sub),
            TokenKind::Star => Ok(BinaryOp::Mult),
            TokenKind::Slash => Ok(BinaryOp::Div),
            TokenKind::Percent => Ok(BinaryOp::Mod),
            TokenKind::BitShiftLeft => Ok(BinaryOp::BitShiftLeft),
            TokenKind::BitShiftRight => Ok(BinaryOp::BitShiftRight),
            TokenKind::Pipe => Ok(BinaryOp::BitOr),
            TokenKind::Ampersand => Ok(BinaryOp::BitAnd),
            TokenKind::Caret => Ok(BinaryOp::BitXor),
            TokenKind::DoubleEquals => Ok(BinaryOp::Equal),
            TokenKind::ExclEquals => Ok(BinaryOp::NotEqual),
            TokenKind::Greater => Ok(BinaryOp::Greater),
            TokenKind::Less => Ok(BinaryOp::Less),
            TokenKind::GreaterOrEqual => Ok(BinaryOp::GreaterOrEqual),
            TokenKind::LessOrEqual => Ok(BinaryOp::LessOrEqual),
            _ => Err(TokenNotABinaryOpError),
        }
    }
}

impl vstd::std_specs::convert::TryFromSpecImpl<TokenKind> for BinaryOp {
    open spec fn obeys_try_from_spec() -> bool {
        true
    }

    open spec fn try_from_spec(value: TokenKind) -> Result<Self, Self::Error> {
        match spec_binary_op_of(value) {
            Some(op) => Ok(op),
            None => Err(TokenNotABinaryOpError),
        }
    }
}

/// Every binary operator's right binding power is one above its left one, so
/// chains of operators of one level group to the left, and the left power of
/// every binary operator lies between 1 and 15.
pub proof fn lemma_binary_ops_group_left(op: BinaryOp)
    ensures
        spec_binary_bp(op).1 == spec_binary_bp(op).0 + 1,
        1 <= spec_binary_bp(op).0 <= 15,
{
}

/// The binding powers of two binary operators are the same or lie apart: the
/// left power of an operator of a higher level exceeds the right power of one of
/// a lower level, so that it takes the operand between them, as `*` takes `4`
/// in `3 + 4 * 5`.
pub proof fn lemma_binary_levels_apart(a: BinaryOp, b: BinaryOp)
    ensures
        spec_binary_bp(a) == spec_binary_bp(b)
            || spec_binary_bp(a).0 > spec_binary_bp(b).1
            || spec_binary_bp(b).0 > spec_binary_bp(a).1,
{
}

/// `a` binds more tightly than `b`: in `x b y a z`, `a` takes `y`.
pub open spec fn binds_tighter(a: BinaryOp, b: BinaryOp) -> bool {
    spec_binary_bp(a).0 > spec_binary_bp(b).1
}

/// The precedence of the binary operators, from the tightest: products (`*`,
/// `/`, `%`), sums (`+`, `-`), shifts, `&`, `^`, `|`, comparisons, and `==`,
/// `!=`. The operators of one level have the same binding powers, and each
/// level binds more tightly than the next, so that `a + b % c` is
/// `a + (b % c)` and `a % b + c` is `(a % b) + c`.
pub proof fn lemma_precedence_levels()
    ensures
        spec_binary_bp(BinaryOp::Mod) == spec_binary_bp(BinaryOp::Mult),
        spec_binary_bp(BinaryOp::Div) == spec_binary_bp(BinaryOp::Mult),
        spec_binary_bp(BinaryOp::Sub) == spec_binary_bp(BinaryOp::Add),
        spec_binary_bp(BinaryOp::BitShiftRight) == spec_binary_bp(BinaryOp::BitShiftLeft),
        spec_binary_bp(BinaryOp::Less) == spec_binary_bp(BinaryOp::Greater),
        spec_binary_bp(BinaryOp::GreaterOrEqual) == spec_binary_bp(BinaryOp::Greater),
        spec_binary_bp(BinaryOp::LessOrEqual) == spec_binary_bp(BinaryOp::Greater),
        spec_binary_bp(BinaryOp::NotEqual) == spec_binary_bp(BinaryOp::Equal),
        binds_tighter(BinaryOp::Mult, BinaryOp::Add),
        binds_tighter(BinaryOp::Add, BinaryOp::BitShiftLeft),
        binds_tighter(BinaryOp::BitShiftLeft, BinaryOp::BitAnd),
        binds_tighter(BinaryOp::BitAnd, BinaryOp::BitXor),
        binds_tighter(BinaryOp::BitXor, BinaryOp::BitOr),
        binds_tighter(BinaryOp::BitOr, BinaryOp::Greater),
        binds_tighter(BinaryOp::Greater, BinaryOp::Equal),
{
}

/// Each level binds more tightly than every lower one: `binds_tighter` is a
/// strict order between levels and holds of no two operators of one level.
pub proof fn lemma_binds_tighter_is_an_order(a: BinaryOp, b: BinaryOp, c: BinaryOp)
    ensures
        !binds_tighter(a, a),
        binds_tighter(a, b) ==> !binds_tighter(b, a),
        binds_tighter(a, b) && binds_tighter(b, c) ==> binds_tighter(a, c),
{
}

} // verus!
