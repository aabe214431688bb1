//! What the tokens of fixed text spell, and how token kinds are named.
//!
//! Each kind of token corresponds to the kind of syntax element of the same
//! name; where that kind has a fixed text, the token spells it. The lexer makes
//! each operator, punctuation and keyword token from exactly the characters of
//! its text.

use vstd::prelude::*;
use crate::token::{TokenKind, spec_kind_name};
use crate::syntax::{SyntaxKind, spec_static_text};
use crate::lexer_spec::{
    LexState, is_op_char, op_kind, op_assign_kind, single_char_kind, pair_kinds, keyword_kind, lex_operator_s,
};

verus! {

/// The kind of syntax element of the same name as the token kind `k`.
pub open spec fn syntax_kind_of_token(k: TokenKind) -> SyntaxKind {
    match k {
        TokenKind::AddAssign => SyntaxKind::AddAssign,
        TokenKind::Ampersand => SyntaxKind::Ampersand,
        TokenKind::Equals => SyntaxKind::Equals,
        TokenKind::At => SyntaxKind::At,
        TokenKind::BitAndAssign => SyntaxKind::BitAndAssign,
        TokenKind::BitOrAssign => SyntaxKind::BitOrAssign,
        TokenKind::BitXorAssign => SyntaxKind::BitXorAssign,
        TokenKind::BitNotAssign => SyntaxKind::BitNotAssign,
        TokenKind::BitShiftLeft => SyntaxKind::BitShiftLeft,
        TokenKind::BitShiftRight => SyntaxKind::BitShiftRight,
        TokenKind::BitShiftLeftAssign => SyntaxKind::BitShiftLeftAssign,
        TokenKind::BitShiftRightAssign => SyntaxKind::BitShiftRightAssign,
        TokenKind::Break => SyntaxKind::Break,
        TokenKind::Caret => SyntaxKind::Caret,
        TokenKind::CloseBrace => SyntaxKind::CloseBrace,
        TokenKind::CloseParen => SyntaxKind::CloseParen,
        TokenKind::OpenBrack => SyntaxKind::OpenBrack,
        TokenKind::CloseBrack => SyntaxKind::CloseBrack,
        TokenKind::Colon => SyntaxKind::Colon,
        TokenKind::Comma => SyntaxKind::Comma,
        TokenKind::DeclareAssign => SyntaxKind::DeclareAssign,
        TokenKind::Defer => SyntaxKind::Defer,
        TokenKind::DivAssign => SyntaxKind::DivAssign,
        TokenKind::Dot => SyntaxKind::Dot,
        TokenKind::DoubleEquals => SyntaxKind::DoubleEquals,
        TokenKind::Excl => SyntaxKind::Excl,
        TokenKind::Else => SyntaxKind::Else,
        TokenKind::EndOfFile => SyntaxKind::EndOfFile,
        TokenKind::False => SyntaxKind::False,
        TokenKind::Fn => SyntaxKind::Fn,
        TokenKind::For => SyntaxKind::For,
        TokenKind::Greater => SyntaxKind::Greater,
        TokenKind::GreaterOrEqual => SyntaxKind::GreaterOrEqual,
        TokenKind::Ident => SyntaxKind::Ident,
        TokenKind::If => SyntaxKind::If,
        TokenKind::In => SyntaxKind::In,
        TokenKind::Impl => SyntaxKind::Impl,
        TokenKind::Is => SyntaxKind::Is,
        TokenKind::Less => SyntaxKind::Less,
        TokenKind::LessOrEqual => SyntaxKind::LessOrEqual,
        TokenKind::LineBreak => SyntaxKind::LineBreak,
        TokenKind::Loop => SyntaxKind::Loop,
        TokenKind::Minus => SyntaxKind::Minus,
        TokenKind::Percent => SyntaxKind::Percent,
        TokenKind::Pipe => SyntaxKind::Pipe,
        TokenKind::ModAssign => SyntaxKind::ModAssign,
        TokenKind::MultAssign => SyntaxKind::MultAssign,
        TokenKind::Next => SyntaxKind::Next,
        TokenKind::ExclEquals => SyntaxKind::ExclEquals,
        TokenKind::DecimalIntegerNumberLiteral => SyntaxKind::DecimalIntegerNumberLiteral,
        TokenKind::DecimalPointNumberLiteral => SyntaxKind::DecimalPointNumberLiteral,
        TokenKind::HexadecimalIntegerNumberLiteral => SyntaxKind::HexadecimalIntegerNumberLiteral,
        TokenKind::OctalIntegerNumberLiteral => SyntaxKind::OctalIntegerNumberLiteral,
        TokenKind::BinaryIntegerNumberLiteral => SyntaxKind::BinaryIntegerNumberLiteral,
        TokenKind::ScientificDecimalNumberLiteral => SyntaxKind::ScientificDecimalNumberLiteral,
        TokenKind::ScientificHexNumberLiteral => SyntaxKind::ScientificHexNumberLiteral,
        TokenKind::OpenBrace => SyntaxKind::OpenBrace,
        TokenKind::OpenParen => SyntaxKind::OpenParen,
        TokenKind::Plus => SyntaxKind::Plus,
        TokenKind::Ret => SyntaxKind::Ret,
        TokenKind::Semicolon => SyntaxKind::Semicolon,
        TokenKind::Slash => SyntaxKind::Slash,
        TokenKind::StringLiteral => SyntaxKind::StringLiteral,
        TokenKind::Star => SyntaxKind::Star,
        TokenKind::Struct => SyntaxKind::Struct,
        TokenKind::SubAssign => SyntaxKind::SubAssign,
        TokenKind::Sum => SyntaxKind::Sum,
        TokenKind::Tilde => SyntaxKind::Tilde,
        TokenKind::Trait => SyntaxKind::Trait,
        TokenKind::True => SyntaxKind::True,
        TokenKind::Use => SyntaxKind::Use,
    }
}

/// The fixed text of a token kind: that of its syntax element, if it has one.
pub open spec fn fixed_text(k: TokenKind) -> Option<Seq<char>> {
    spec_static_text(syntax_kind_of_token(k))
}

/// Each operator character makes the token that spells it, and followed by
/// `=` the token that spells both: `%` gives `%`, `%=` gives `%=`.
pub proof fn lemma_operator_kinds_spell_their_text(c: char)
    requires
        is_op_char(c),
    ensures
        fixed_text(op_kind(c)) == Some(seq![c]),
        fixed_text(op_assign_kind(c)) == Some(seq![c, '=']),
{
    reveal_strlit("%");
    assert("%"@.len() == 1 && "%"@[0] == '%');
    reveal_strlit("%=");
    assert("%="@.len() == 2 && "%="@[0] == '%' && "%="@[1] == '=');
    reveal_strlit("&");
    assert("&"@.len() == 1 && "&"@[0] == '&');
    reveal_strlit("&=");
    assert("&="@.len() == 2 && "&="@[0] == '&' && "&="@[1] == '=');
    reveal_strlit("*");
    assert("*"@.len() == 1 && "*"@[0] == '*');
    reveal_strlit("*=");
    assert("*="@.len() == 2 && "*="@[0] == '*' && "*="@[1] == '=');
    reveal_strlit("+");
    assert("+"@.len() == 1 && "+"@[0] == '+');
    reveal_strlit("+=");
    assert("+="@.len() == 2 && "+="@[0] == '+' && "+="@[1] == '=');
    reveal_strlit("-");
    assert("-"@.len() == 1 && "-"@[0] == '-');
    reveal_strlit("-=");
    assert("-="@.len() == 2 && "-="@[0] == '-' && "-="@[1] == '=');
    reveal_strlit("/");
    assert("/"@.len() == 1 && "/"@[0] == '/');
    reveal_strlit("/=");
    assert("/="@.len() == 2 && "/="@[0] == '/' && "/="@[1] == '=');
    reveal_strlit("<");
    assert("<"@.len() == 1 && "<"@[0] == '<');
    reveal_strlit("<<");
    assert("<<"@.len() == 2 && "<<"@[0] == '<' && "<<"@[1] == '<');
    reveal_strlit("<<=");
    assert("<<="@.len() == 3 && "<<="@[0] == '<' && "<<="@[1] == '<' && "<<="@[2] == '=');
    reveal_strlit("<=");
    assert("<="@.len() == 2 && "<="@[0] == '<' && "<="@[1] == '=');
    reveal_strlit(">");
    assert(">"@.len() == 1 && ">"@[0] == '>');
    reveal_strlit(">=");
    assert(">="@.len() == 2 && ">="@[0] == '>' && ">="@[1] == '=');
    reveal_strlit(">>");
    assert(">>"@.len() == 2 && ">>"@[0] == '>' && ">>"@[1] == '>');
    reveal_strlit(">>=");
    assert(">>="@.len() == 3 && ">>="@[0] == '>' && ">>="@[1] == '>' && ">>="@[2] == '=');
    reveal_strlit("^");
    assert("^"@.len() == 1 && "^"@[0] == '^');
    reveal_strlit("^=");
    assert("^="@.len() == 2 && "^="@[0] == '^' && "^="@[1] == '=');
    reveal_strlit("|");
    assert("|"@.len() == 1 && "|"@[0] == '|');
    reveal_strlit("|=");
    assert("|="@.len() == 2 && "|="@[0] == '|' && "|="@[1] == '=');
    reveal_strlit("~");
    assert("~"@.len() == 1 && "~"@[0] == '~');
    reveal_strlit("~=");
    assert("~="@.len() == 2 && "~="@[0] == '~' && "~="@[1] == '=');
    assert(seq![c] =~= seq![c]);
}

/// Each punctuation character makes the token that spells it, and `!`, `:`
/// and `=`, followed by `=`, the token that spells both characters.
pub proof fn lemma_punctuation_kinds_spell_their_text(c: char)
    ensures
        single_char_kind(c) matches Some(k) ==> fixed_text(k) == Some(seq![c]),
        pair_kinds(c) matches Some((one, two)) ==> fixed_text(one) == Some(seq![c]) && fixed_text(two) == Some(seq![c, '=']),
{
    reveal_strlit("!");
    assert("!"@.len() == 1 && "!"@[0] == '!');
    reveal_strlit("!=");
    assert("!="@.len() == 2 && "!="@[0] == '!' && "!="@[1] == '=');
    reveal_strlit("(");
    assert("("@.len() == 1 && "("@[0] == '(');
    reveal_strlit(")");
    assert(")"@.len() == 1 && ")"@[0] == ')');
    reveal_strlit(",");
    assert(","@.len() == 1 && ","@[0] == ',');
    reveal_strlit(".");
    assert("."@.len() == 1 && "."@[0] == '.');
    reveal_strlit(":");
    assert(":"@.len() == 1 && ":"@[0] == ':');
    reveal_strlit(":=");
    assert(":="@.len() == 2 && ":="@[0] == ':' && ":="@[1] == '=');
    reveal_strlit(";");
    assert(";"@.len() == 1 && ";"@[0] == ';');
    reveal_strlit("=");
    assert("="@.len() == 1 && "="@[0] == '=');
    reveal_strlit("==");
    assert("=="@.len() == 2 && "=="@[0] == '=' && "=="@[1] == '=');
    reveal_strlit("@");
    assert("@"@.len() == 1 && "@"@[0] == '@');
    reveal_strlit("[");
    assert("["@.len() == 1 && "["@[0] == '[');
    reveal_strlit("]");
    assert("]"@.len() == 1 && "]"@[0] == ']');
    reveal_strlit("{");
    assert("{"@.len() == 1 && "{"@[0] == '{');
    reveal_strlit("}");
    assert("}"@.len() == 1 && "}"@[0] == '}');
}

/// A word is the keyword whose text it is.
pub proof fn lemma_keywords_spell_their_text(w: Seq<char>)
    ensures
        keyword_kind(w) matches Some(k) ==> fixed_text(k) == Some(w),
{
}

/// An operator token is made of exactly the characters it spells: the
/// characters the lexer reads for it are the fixed text of its kind.
pub proof fn lemma_operator_tokens_spell_what_was_read(s: LexState, ch: char)
    requires
        s.rest.len() > 0,
        s.rest[0] == ch,
        is_op_char(ch),
    ensures
        lex_operator_s(s, ch) matches (Ok(t), s2)
            && s2.rest.len() <= s.rest.len()
            && fixed_text(t.kind) == Some(s.rest.subrange(0, s.rest.len() - s2.rest.len())),
{
    reveal_strlit("%");
    assert("%"@.len() == 1 && "%"@[0] == '%');
    reveal_strlit("%=");
    assert("%="@.len() == 2 && "%="@[0] == '%' && "%="@[1] == '=');
    reveal_strlit("&");
    assert("&"@.len() == 1 && "&"@[0] == '&');
    reveal_strlit("&=");
    assert("&="@.len() == 2 && "&="@[0] == '&' && "&="@[1] == '=');
    reveal_strlit("*");
    assert("*"@.len() == 1 && "*"@[0] == '*');
    reveal_strlit("*=");
    assert("*="@.len() == 2 && "*="@[0] == '*' && "*="@[1] == '=');
    reveal_strlit("+");
    assert("+"@.len() == 1 && "+"@[0] == '+');
    reveal_strlit("+=");
    assert("+="@.len() == 2 && "+="@[0] == '+' && "+="@[1] == '=');
    reveal_strlit("-");
    assert("-"@.len() == 1 && "-"@[0] == '-');
    reveal_strlit("-=");
    assert("-="@.len() == 2 && "-="@[0] == '-' && "-="@[1] == '=');
    reveal_strlit("/");
    assert("/"@.len() == 1 && "/"@[0] == '/');
    reveal_strlit("/=");
    assert("/="@.len() == 2 && "/="@[0] == '/' && "/="@[1] == '=');
    reveal_strlit("<");
    assert("<"@.len() == 1 && "<"@[0] == '<');
    reveal_strlit("<<");
    assert("<<"@.len() == 2 && "<<"@[0] == '<' && "<<"@[1] == '<');
    reveal_strlit("<<=");
    assert("<<="@.len() == 3 && "<<="@[0] == '<' && "<<="@[1] == '<' && "<<="@[2] == '=');
    reveal_strlit("<=");
    assert("<="@.len() == 2 && "<="@[0] == '<' && "<="@[1] == '=');
    reveal_strlit(">");
    assert(">"@.len() == 1 && ">"@[0] == '>');
    reveal_strlit(">=");
    assert(">="@.len() == 2 && ">="@[0] == '>' && ">="@[1] == '=');
    reveal_strlit(">>");
    assert(">>"@.len() == 2 && ">>"@[0] == '>' && ">>"@[1] == '>');
    reveal_strlit(">>=");
    assert(">>="@.len() == 3 && ">>="@[0] == '>' && ">>="@[1] == '>' && ">>="@[2] == '=');
    reveal_strlit("^");
    assert("^"@.len() == 1 && "^"@[0] == '^');
    reveal_strlit("^=");
    assert("^="@.len() == 2 && "^="@[0] == '^' && "^="@[1] == '=');
    reveal_strlit("|");
    assert("|"@.len() == 1 && "|"@[0] == '|');
    reveal_strlit("|=");
    assert("|="@.len() == 2 && "|="@[0] == '|' && "|="@[1] == '=');
    reveal_strlit("~");
    assert("~"@.len() == 1 && "~"@[0] == '~');
    reveal_strlit("~=");
    assert("~="@.len() == 2 && "~="@[0] == '~' && "~="@[1] == '=');
    let r = s.rest;
    if r.len() > 1 {
        assert(r.subrange(0, 2) =~= seq![r[0], r[1]]);
    }
    if r.len() > 2 {
        assert(r.subrange(0, 3) =~= seq![r[0], r[1], r[2]]);
    }
    assert(r.subrange(0, 1) =~= seq![r[0]]);
}

/// No two token kinds are printed by the same name.
pub proof fn lemma_kind_names_are_distinct(a: TokenKind, b: TokenKind)
    requires
        spec_kind_name(a) == spec_kind_name(b),
    ensures
        a == b,
{
    reveal_strlit("AddAssign");
    assert("AddAssign"@.len() == 9 && "AddAssign"@[0] == 'A' && "AddAssign"@[1] == 'd' && "AddAssign"@[2] == 'd' && "AddAssign"@[3] == 'A' && "AddAssign"@[4] == 's' && "AddAssign"@[5] == 's' && "AddAssign"@[6] == 'i' && "AddAssign"@[7] == 'g' && "AddAssign"@[8] == 'n');
    reveal_strlit("Ampersand");
    assert("Ampersand"@.len() == 9 && "Ampersand"@[0] == 'A' && "Ampersand"@[1] == 'm' && "Ampersand"@[2] == 'p' && "Ampersand"@[3] == 'e' && "Ampersand"@[4] == 'r' && "Ampersand"@[5] == 's' && "Ampersand"@[6] == 'a' && "Ampersand"@[7] == 'n' && "Ampersand"@[8] == 'd');
    reveal_strlit("Equals");
    assert("Equals"@.len() == 6 && "Equals"@[0] == 'E' && "Equals"@[1] == 'q' && "Equals"@[2] == 'u' && "Equals"@[3] == 'a' && "Equals"@[4] == 'l' && "Equals"@[5] == 's');
    reveal_strlit("At");
    assert("At"@.len() == 2 && "At"@[0] == 'A' && "At"@[1] == 't');
    reveal_strlit("BitAndAssign");
    assert("BitAndAssign"@.len() == 12 && "BitAndAssign"@[0] == 'B' && "BitAndAssign"@[1] == 'i' && "BitAndAssign"@[2] == 't' && "BitAndAssign"@[3] == 'A' && "BitAndAssign"@[4] == 'n' && "BitAndAssign"@[5] == 'd' && "BitAndAssign"@[6] == 'A' && "BitAndAssign"@[7] == 's' && "BitAndAssign"@[8] == 's' && "BitAndAssign"@[9] == 'i' && "BitAndAssign"@[10] == 'g' && "BitAndAssign"@[11] == 'n');
    reveal_strlit("BitOrAssign");
    assert("BitOrAssign"@.len() == 11 && "BitOrAssign"@[0] == 'B' && "BitOrAssign"@[1] == 'i' && "BitOrAssign"@[2] == 't' && "BitOrAssign"@[3] == 'O' && "BitOrAssign"@[4] == 'r' && "BitOrAssign"@[5] == 'A' && "BitOrAssign"@[6] == 's' && "BitOrAssign"@[7] == 's' && "BitOrAssign"@[8] == 'i' && "BitOrAssign"@[9] == 'g' && "BitOrAssign"@[10] == 'n');
    reveal_strlit("BitXorAssign");
    assert("BitXorAssign"@.len() == 12 && "BitXorAssign"@[0] == 'B' && "BitXorAssign"@[1] == 'i' && "BitXorAssign"@[2] == 't' && "BitXorAssign"@[3] == 'X' && "BitXorAssign"@[4] == 'o' && "BitXorAssign"@[5] == 'r' && "BitXorAssign"@[6] == 'A' && "BitXorAssign"@[7] == 's' && "BitXorAssign"@[8] == 's' && "BitXorAssign"@[9] == 'i' && "BitXorAssign"@[10] == 'g' && "BitXorAssign"@[11] == 'n');
    reveal_strlit("BitNotAssign");
    assert("BitNotAssign"@.len() == 12 && "BitNotAssign"@[0] == 'B' && "BitNotAssign"@[1] == 'i' && "BitNotAssign"@[2] == 't' && "BitNotAssign"@[3] == 'N' && "BitNotAssign"@[4] == 'o' && "BitNotAssign"@[5] == 't' && "BitNotAssign"@[6] == 'A' && "BitNotAssign"@[7] == 's' && "BitNotAssign"@[8] == 's' && "BitNotAssign"@[9] == 'i' && "BitNotAssign"@[10] == 'g' && "BitNotAssign"@[11] == 'n');
    reveal_strlit("BitShiftLeft");
    assert("BitShiftLeft"@.len() == 12 && "BitShiftLeft"@[0] == 'B' && "BitShiftLeft"@[1] == 'i' && "BitShiftLeft"@[2] == 't' && "BitShiftLeft"@[3] == 'S' && "BitShiftLeft"@[4] == 'h' && "BitShiftLeft"@[5] == 'i' && "BitShiftLeft"@[6] == 'f' && "BitShiftLeft"@[7] == 't' && "BitShiftLeft"@[8] == 'L' && "BitShiftLeft"@[9] == 'e' && "BitShiftLeft"@[10] == 'f' && "BitShiftLeft"@[11] == 't');
    reveal_strlit("BitShiftRight");
    assert("BitShiftRight"@.len() == 13 && "BitShiftRight"@[0] == 'B' && "BitShiftRight"@[1] == 'i' && "BitShiftRight"@[2] == 't' && "BitShiftRight"@[3] == 'S' && "BitShiftRight"@[4] == 'h' && "BitShiftRight"@[5] == 'i' && "BitShiftRight"@[6] == 'f' && "BitShiftRight"@[7] == 't' && "BitShiftRight"@[8] == 'R' && "BitShiftRight"@[9] == 'i' && "BitShiftRight"@[10] == 'g' && "BitShiftRight"@[11] == 'h' && "BitShiftRight"@[12] == 't');
    reveal_strlit("BitShiftLeftAssign");
    assert("BitShiftLeftAssign"@.len() == 18 && "BitShiftLeftAssign"@[0] == 'B' && "BitShiftLeftAssign"@[1] == 'i' && "BitShiftLeftAssign"@[2] == 't' && "BitShiftLeftAssign"@[3] == 'S' && "BitShiftLeftAssign"@[4] == 'h' && "BitShiftLeftAssign"@[5] == 'i' && "BitShiftLeftAssign"@[6] == 'f' && "BitShiftLeftAssign"@[7] == 't' && "BitShiftLeftAssign"@[8] == 'L' && "BitShiftLeftAssign"@[9] == 'e' && "BitShiftLeftAssign"@[10] == 'f' && "BitShiftLeftAssign"@[11] == 't' && "BitShiftLeftAssign"@[12] == 'A' && "BitShiftLeftAssign"@[13] == 's' && "BitShiftLeftAssign"@[14] == 's' && "BitShiftLeftAssign"@[15] == 'i' && "BitShiftLeftAssign"@[16] == 'g' && "BitShiftLeftAssign"@[17] == 'n');
    reveal_strlit("BitShiftRightAssign");
    assert("BitShiftRightAssign"@.len() == 19 && "BitShiftRightAssign"@[0] == 'B' && "BitShiftRightAssign"@[1] == 'i' && "BitShiftRightAssign"@[2] == 't' && "BitShiftRightAssign"@[3] == 'S' && "BitShiftRightAssign"@[4] == 'h' && "BitShiftRightAssign"@[5] == 'i' && "BitShiftRightAssign"@[6] == 'f' && "BitShiftRightAssign"@[7] == 't' && "BitShiftRightAssign"@[8] == 'R' && "BitShiftRightAssign"@[9] == 'i' && "BitShiftRightAssign"@[10] == 'g' && "BitShiftRightAssign"@[11] == 'h' && "BitShiftRightAssign"@[12] == 't' && "BitShiftRightAssign"@[13] == 'A' && "BitShiftRightAssign"@[14] == 's' && "BitShiftRightAssign"@[15] == 's' && "BitShiftRightAssign"@[16] == 'i' && "BitShiftRightAssign"@[17] == 'g' && "BitShiftRightAssign"@[18] == 'n');
    reveal_strlit("Break");
    assert("Break"@.len() == 5 && "Break"@[0] == 'B' && "Break"@[1] == 'r' && "Break"@[2] == 'e' && "Break"@[3] == 'a' && "Break"@[4] == 'k');
    reveal_strlit("Caret");
    assert("Caret"@.len() == 5 && "Caret"@[0] == 'C' && "Caret"@[1] == 'a' && "Caret"@[2] == 'r' && "Caret"@[3] == 'e' && "Caret"@[4] == 't');
    reveal_strlit("CloseBrace");
    assert("CloseBrace"@.len() == 10 && "CloseBrace"@[0] == 'C' && "CloseBrace"@[1] == 'l' && "CloseBrace"@[2] == 'o' && "CloseBrace"@[3] == 's' && "CloseBrace"@[4] == 'e' && "CloseBrace"@[5] == 'B' && "CloseBrace"@[6] == 'r' && "CloseBrace"@[7] == 'a' && "CloseBrace"@[8] == 'c' && "CloseBrace"@[9] == 'e');
    reveal_strlit("CloseParen");
    assert("CloseParen"@.len() == 10 && "CloseParen"@[0] == 'C' && "CloseParen"@[1] == 'l' && "CloseParen"@[2] == 'o' && "CloseParen"@[3] == 's' && "CloseParen"@[4] == 'e' && "CloseParen"@[5] == 'P' && "CloseParen"@[6] == 'a' && "CloseParen"@[7] == 'r' && "CloseParen"@[8] == 'e' && "CloseParen"@[9] == 'n');
    reveal_strlit("OpenBrack");
    assert("OpenBrack"@.len() == 9 && "OpenBrack"@[0] == 'O' && "OpenBrack"@[1] == 'p' && "OpenBrack"@[2] == 'e' && "OpenBrack"@[3] == 'n' && "OpenBrack"@[4] == 'B' && "OpenBrack"@[5] == 'r' && "OpenBrack"@[6] == 'a' && "OpenBrack"@[7] == 'c' && "OpenBrack"@[8] == 'k');
    reveal_strlit("CloseBrack");
    assert("CloseBrack"@.len() == 10 && "CloseBrack"@[0] == 'C' && "CloseBrack"@[1] == 'l' && "CloseBrack"@[2] == 'o' && "CloseBrack"@[3] == 's' && "CloseBrack"@[4] == 'e' && "CloseBrack"@[5] == 'B' && "CloseBrack"@[6] == 'r' && "CloseBrack"@[7] == 'a' && "CloseBrack"@[8] == 'c' && "CloseBrack"@[9] == 'k');
    reveal_strlit("Colon");
    assert("Colon"@.len() == 5 && "Colon"@[0] == 'C' && "Colon"@[1] == 'o' && "Colon"@[2] == 'l' && "Colon"@[3] == 'o' && "Colon"@[4] == 'n');
    reveal_strlit("Comma");
    assert("Comma"@.len() == 5 && "Comma"@[0] == 'C' && "Comma"@[1] == 'o' && "Comma"@[2] == 'm' && "Comma"@[3] == 'm' && "Comma"@[4] == 'a');
    reveal_strlit("DeclareAssign");
    assert("DeclareAssign"@.len() == 13 && "DeclareAssign"@[0] == 'D' && "DeclareAssign"@[1] == 'e' && "DeclareAssign"@[2] == 'c' && "DeclareAssign"@[3] == 'l' && "DeclareAssign"@[4] == 'a' && "DeclareAssign"@[5] == 'r' && "DeclareAssign"@[6] == 'e' && "DeclareAssign"@[7] == 'A' && "DeclareAssign"@[8] == 's' && "DeclareAssign"@[9] == 's' && "DeclareAssign"@[10] == 'i' && "DeclareAssign"@[11] == 'g' && "DeclareAssign"@[12] == 'n');
    reveal_strlit("Defer");
    assert("Defer"@.len() == 5 && "Defer"@[0] == 'D' && "Defer"@[1] == 'e' && "Defer"@[2] == 'f' && "Defer"@[3] == 'e' && "Defer"@[4] == 'r');
    reveal_strlit("DivAssign");
    assert("DivAssign"@.len() == 9 && "DivAssign"@[0] == 'D' && "DivAssign"@[1] == 'i' && "DivAssign"@[2] == 'v' && "DivAssign"@[3] == 'A' && "DivAssign"@[4] == 's' && "DivAssign"@[5] == 's' && "DivAssign"@[6] == 'i' && "DivAssign"@[7] == 'g' && "DivAssign"@[8] == 'n');
    reveal_strlit("Dot");
    assert("Dot"@.len() == 3 && "Dot"@[0] == 'D' && "Dot"@[1] == 'o' && "Dot"@[2] == 't');
    reveal_strlit("DoubleEquals");
    assert("DoubleEquals"@.len() == 12 && "DoubleEquals"@[0] == 'D' && "DoubleEquals"@[1] == 'o' && "DoubleEquals"@[2] == 'u' && "DoubleEquals"@[3] == 'b' && "DoubleEquals"@[4] == 'l' && "DoubleEquals"@[5] == 'e' && "DoubleEquals"@[6] == 'E' && "DoubleEquals"@[7] == 'q' && "DoubleEquals"@[8] == 'u' && "DoubleEquals"@[9] == 'a' && "DoubleEquals"@[10] == 'l' && "DoubleEquals"@[11] == 's');
    reveal_strlit("Excl");
    assert("Excl"@.len() == 4 && "Excl"@[0] == 'E' && "Excl"@[1] == 'x' && "Excl"@[2] == 'c' && "Excl"@[3] == 'l');
    reveal_strlit("Else");
    assert("Else"@.len() == 4 && "Else"@[0] == 'E' && "Else"@[1] == 'l' && "Else"@[2] == 's' && "Else"@[3] == 'e');
    reveal_strlit("EndOfFile");
    assert("EndOfFile"@.len() == 9 && "EndOfFile"@[0] == 'E' && "EndOfFile"@[1] == 'n' && "EndOfFile"@[2] == 'd' && "EndOfFile"@[3] == 'O' && "EndOfFile"@[4] == 'f' && "EndOfFile"@[5] == 'F' && "EndOfFile"@[6] == 'i' && "EndOfFile"@[7] == 'l' && "EndOfFile"@[8] == 'e');
    reveal_strlit("False");
    assert("False"@.len() == 5 && "False"@[0] == 'F' && "False"@[1] == 'a' && "False"@[2] == 'l' && "False"@[3] == 's' && "False"@[4] == 'e');
    reveal_strlit("Fn");
    assert("Fn"@.len() == 2 && "Fn"@[0] == 'F' && "Fn"@[1] == 'n');
    reveal_strlit("For");
    assert("For"@.len() == 3 && "For"@[0] == 'F' && "For"@[1] == 'o' && "For"@[2] == 'r');
    reveal_strlit("Greater");
    assert("Greater"@.len() == 7 && "Greater"@[0] == 'G' && "Greater"@[1] == 'r' && "Greater"@[2] == 'e' && "Greater"@[3] == 'a' && "Greater"@[4] == 't' && "Greater"@[5] == 'e' && "Greater"@[6] == 'r');
    reveal_strlit("GreaterOrEqual");
    assert("GreaterOrEqual"@.len() == 14 && "GreaterOrEqual"@[0] == 'G' && "GreaterOrEqual"@[1] == 'r' && "GreaterOrEqual"@[2] == 'e' && "GreaterOrEqual"@[3] == 'a' && "GreaterOrEqual"@[4] == 't' && "GreaterOrEqual"@[5] == 'e' && "GreaterOrEqual"@[6] == 'r' && "GreaterOrEqual"@[7] == 'O' && "GreaterOrEqual"@[8] == 'r' && "GreaterOrEqual"@[9] == 'E' && "GreaterOrEqual"@[10] == 'q' && "GreaterOrEqual"@[11] == 'u' && "GreaterOrEqual"@[12] == 'a' && "GreaterOrEqual"@[13] == 'l');
    reveal_strlit("Ident");
    assert("Ident"@.len() == 5 && "Ident"@[0] == 'I' && "Ident"@[1] == 'd' && "Ident"@[2] == 'e' && "Ident"@[3] == 'n' && "Ident"@[4] == 't');
    reveal_strlit("If");
    assert("If"@.len() == 2 && "If"@[0] == 'I' && "If"@[1] == 'f');
    reveal_strlit("In");
    assert("In"@.len() == 2 && "In"@[0] == 'I' && "In"@[1] == 'n');
    reveal_strlit("Impl");
    assert("Impl"@.len() == 4 && "Impl"@[0] == 'I' && "Impl"@[1] == 'm' && "Impl"@[2] == 'p' && "Impl"@[3] == 'l');
    reveal_strlit("Is");
    assert("Is"@.len() == 2 && "Is"@[0] == 'I' && "Is"@[1] == 's');
    reveal_strlit("Less");
    assert("Less"@.len() == 4 && "Less"@[0] == 'L' && "Less"@[1] == 'e' && "Less"@[2] == 's' && "Less"@[3] == 's');
    reveal_strlit("LessOrEqual");
    assert("LessOrEqual"@.len() == 11 && "LessOrEqual"@[0] == 'L' && "LessOrEqual"@[1] == 'e' && "LessOrEqual"@[2] == 's' && "LessOrEqual"@[3] == 's' && "LessOrEqual"@[4] == 'O' && "LessOrEqual"@[5] == 'r' && "LessOrEqual"@[6] == 'E' && "LessOrEqual"@[7] == 'q' && "LessOrEqual"@[8] == 'u' && "LessOrEqual"@[9] == 'a' && "LessOrEqual"@[10] == 'l');
    reveal_strlit("LineBreak");
    assert("LineBreak"@.len() == 9 && "LineBreak"@[0] == 'L' && "LineBreak"@[1] == 'i' && "LineBreak"@[2] == 'n' && "LineBreak"@[3] == 'e' && "LineBreak"@[4] == 'B' && "LineBreak"@[5] == 'r' && "LineBreak"@[6] == 'e' && "LineBreak"@[7] == 'a' && "LineBreak"@[8] == 'k');
    reveal_strlit("Loop");
    assert("Loop"@.len() == 4 && "Loop"@[0] == 'L' && "Loop"@[1] == 'o' && "Loop"@[2] == 'o' && "Loop"@[3] == 'p');
    reveal_strlit("Minus");
    assert("Minus"@.len() == 5 && "Minus"@[0] == 'M' && "Minus"@[1] == 'i' && "Minus"@[2] == 'n' && "Minus"@[3] == 'u' && "Minus"@[4] == 's');
    reveal_strlit("Percent");
    assert("Percent"@.len() == 7 && "Percent"@[0] == 'P' && "Percent"@[1] == 'e' && "Percent"@[2] == 'r' && "Percent"@[3] == 'c' && "Percent"@[4] == 'e' && "Percent"@[5] == 'n' && "Percent"@[6] == 't');
    reveal_strlit("Pipe");
    assert("Pipe"@.len() == 4 && "Pipe"@[0] == 'P' && "Pipe"@[1] == 'i' && "Pipe"@[2] == 'p' && "Pipe"@[3] == 'e');
    reveal_strlit("ModAssign");
    assert("ModAssign"@.len() == 9 && "ModAssign"@[0] == 'M' && "ModAssign"@[1] == 'o' && "ModAssign"@[2] == 'd' && "ModAssign"@[3] == 'A' && "ModAssign"@[4] == 's' && "ModAssign"@[5] == 's' && "ModAssign"@[6] == 'i' && "ModAssign"@[7] == 'g' && "ModAssign"@[8] == 'n');
    reveal_strlit("MultAssign");
    assert("MultAssign"@.len() == 10 && "MultAssign"@[0] == 'M' && "MultAssign"@[1] == 'u' && "MultAssign"@[2] == 'l' && "MultAssign"@[3] == 't' && "MultAssign"@[4] == 'A' && "MultAssign"@[5] == 's' && "MultAssign"@[6] == 's' && "MultAssign"@[7] == 'i' && "MultAssign"@[8] == 'g' && "MultAssign"@[9] == 'n');
    reveal_strlit("Next");
    assert("Next"@.len() == 4 && "Next"@[0] == 'N' && "Next"@[1] == 'e' && "Next"@[2] == 'x' && "Next"@[3] == 't');
    reveal_strlit("ExclEquals");
    assert("ExclEquals"@.len() == 10 && "ExclEquals"@[0] == 'E' && "ExclEquals"@[1] == 'x' && "ExclEquals"@[2] == 'c' && "ExclEquals"@[3] == 'l' && "ExclEquals"@[4] == 'E' && "ExclEquals"@[5] == 'q' && "ExclEquals"@[6] == 'u' && "ExclEquals"@[7] == 'a' && "ExclEquals"@[8] == 'l' && "ExclEquals"@[9] == 's');
    reveal_strlit("DecimalIntegerNumberLiteral");
    assert("DecimalIntegerNumberLiteral"@.len() == 27 && "DecimalIntegerNumberLiteral"@[0] == 'D' && "DecimalIntegerNumberLiteral"@[1] == 'e' && "DecimalIntegerNumberLiteral"@[2] == 'c' && "DecimalIntegerNumberLiteral"@[3] == 'i' && "DecimalIntegerNumberLiteral"@[4] == 'm' && "DecimalIntegerNumberLiteral"@[5] == 'a' && "DecimalIntegerNumberLiteral"@[6] == 'l' && "DecimalIntegerNumberLiteral"@[7] == 'I' && "DecimalIntegerNumberLiteral"@[8] == 'n' && "DecimalIntegerNumberLiteral"@[9] == 't' && "DecimalIntegerNumberLiteral"@[10] == 'e' && "DecimalIntegerNumberLiteral"@[11] == 'g' && "DecimalIntegerNumberLiteral"@[12] == 'e' && "DecimalIntegerNumberLiteral"@[13] == 'r' && "DecimalIntegerNumberLiteral"@[14] == 'N' && "DecimalIntegerNumberLiteral"@[15] == 'u' && "DecimalIntegerNumberLiteral"@[16] == 'm' && "DecimalIntegerNumberLiteral"@[17] == 'b' && "DecimalIntegerNumberLiteral"@[18] == 'e' && "DecimalIntegerNumberLiteral"@[19] == 'r' && "DecimalIntegerNumberLiteral"@[20] == 'L' && "DecimalIntegerNumberLiteral"@[21] == 'i' && "DecimalIntegerNumberLiteral"@[22] == 't' && "DecimalIntegerNumberLiteral"@[23] == 'e' && "DecimalIntegerNumberLiteral"@[24] == 'r' && "DecimalIntegerNumberLiteral"@[25] == 'a' && "DecimalIntegerNumberLiteral"@[26] == 'l');
    reveal_strlit("DecimalPointNumberLiteral");
    assert("DecimalPointNumberLiteral"@.len() == 25 && "DecimalPointNumberLiteral"@[0] == 'D' && "DecimalPointNumberLiteral"@[1] == 'e' && "DecimalPointNumberLiteral"@[2] == 'c' && "DecimalPointNumberLiteral"@[3] == 'i' && "DecimalPointNumberLiteral"@[4] == 'm' && "DecimalPointNumberLiteral"@[5] == 'a' && "DecimalPointNumberLiteral"@[6] == 'l' && "DecimalPointNumberLiteral"@[7] == 'P' && "DecimalPointNumberLiteral"@[8] == 'o' && "DecimalPointNumberLiteral"@[9] == 'i' && "DecimalPointNumberLiteral"@[10] == 'n' && "DecimalPointNumberLiteral"@[11] == 't' && "DecimalPointNumberLiteral"@[12] == 'N' && "DecimalPointNumberLiteral"@[13] == 'u' && "DecimalPointNumberLiteral"@[14] == 'm' && "DecimalPointNumberLiteral"@[15] == 'b' && "DecimalPointNumberLiteral"@[16] == 'e' && "DecimalPointNumberLiteral"@[17] == 'r' && "DecimalPointNumberLiteral"@[18] == 'L' && "DecimalPointNumberLiteral"@[19] == 'i' && "DecimalPointNumberLiteral"@[20] == 't' && "DecimalPointNumberLiteral"@[21] == 'e' && "DecimalPointNumberLiteral"@[22] == 'r' && "DecimalPointNumberLiteral"@[23] == 'a' && "DecimalPointNumberLiteral"@[24] == 'l');
    reveal_strlit("HexadecimalIntegerNumberLiteral");
    assert("HexadecimalIntegerNumberLiteral"@.len() == 31 && "HexadecimalIntegerNumberLiteral"@[0] == 'H' && "HexadecimalIntegerNumberLiteral"@[1] == 'e' && "HexadecimalIntegerNumberLiteral"@[2] == 'x' && "HexadecimalIntegerNumberLiteral"@[3] == 'a' && "HexadecimalIntegerNumberLiteral"@[4] == 'd' && "HexadecimalIntegerNumberLiteral"@[5] == 'e' && "HexadecimalIntegerNumberLiteral"@[6] == 'c' && "HexadecimalIntegerNumberLiteral"@[7] == 'i' && "HexadecimalIntegerNumberLiteral"@[8] == 'm' && "HexadecimalIntegerNumberLiteral"@[9] == 'a' && "HexadecimalIntegerNumberLiteral"@[10] == 'l' && "HexadecimalIntegerNumberLiteral"@[11] == 'I' && "HexadecimalIntegerNumberLiteral"@[12] == 'n' && "HexadecimalIntegerNumberLiteral"@[13] == 't' && "HexadecimalIntegerNumberLiteral"@[14] == 'e' && "HexadecimalIntegerNumberLiteral"@[15] == 'g' && "HexadecimalIntegerNumberLiteral"@[16] == 'e' && "HexadecimalIntegerNumberLiteral"@[17] == 'r' && "HexadecimalIntegerNumberLiteral"@[18] == 'N' && "HexadecimalIntegerNumberLiteral"@[19] == 'u' && "HexadecimalIntegerNumberLiteral"@[20] == 'm' && "HexadecimalIntegerNumberLiteral"@[21] == 'b' && "HexadecimalIntegerNumberLiteral"@[22] == 'e' && "HexadecimalIntegerNumberLiteral"@[23] == 'r' && "HexadecimalIntegerNumberLiteral"@[24] == 'L' && "HexadecimalIntegerNumberLiteral"@[25] == 'i' && "HexadecimalIntegerNumberLiteral"@[26] == 't' && "HexadecimalIntegerNumberLiteral"@[27] == 'e' && "HexadecimalIntegerNumberLiteral"@[28] == 'r' && "HexadecimalIntegerNumberLiteral"@[29] == 'a' && "HexadecimalIntegerNumberLiteral"@[30] == 'l');
    reveal_strlit("OctalIntegerNumberLiteral");
    assert("OctalIntegerNumberLiteral"@.len() == 25 && "OctalIntegerNumberLiteral"@[0] == 'O' && "OctalIntegerNumberLiteral"@[1] == 'c' && "OctalIntegerNumberLiteral"@[2] == 't' && "OctalIntegerNumberLiteral"@[3] == 'a' && "OctalIntegerNumberLiteral"@[4] == 'l' && "OctalIntegerNumberLiteral"@[5] == 'I' && "OctalIntegerNumberLiteral"@[6] == 'n' && "OctalIntegerNumberLiteral"@[7] == 't' && "OctalIntegerNumberLiteral"@[8] == 'e' && "OctalIntegerNumberLiteral"@[9] == 'g' && "OctalIntegerNumberLiteral"@[10] == 'e' && "OctalIntegerNumberLiteral"@[11] == 'r' && "OctalIntegerNumberLiteral"@[12] == 'N' && "OctalIntegerNumberLiteral"@[13] == 'u' && "OctalIntegerNumberLiteral"@[14] == 'm' && "OctalIntegerNumberLiteral"@[15] == 'b' && "OctalIntegerNumberLiteral"@[16] == 'e' && "OctalIntegerNumberLiteral"@[17] == 'r' && "OctalIntegerNumberLiteral"@[18] == 'L' && "OctalIntegerNumberLiteral"@[19] == 'i' && "OctalIntegerNumberLiteral"@[20] == 't' && "OctalIntegerNumberLiteral"@[21] == 'e' && "OctalIntegerNumberLiteral"@[22] == 'r' && "OctalIntegerNumberLiteral"@[23] == 'a' && "OctalIntegerNumberLiteral"@[24] == 'l');
    reveal_strlit("BinaryIntegerNumberLiteral");
    assert("BinaryIntegerNumberLiteral"@.len() == 26 && "BinaryIntegerNumberLiteral"@[0] == 'B' && "BinaryIntegerNumberLiteral"@[1] == 'i' && "BinaryIntegerNumberLiteral"@[2] == 'n' && "BinaryIntegerNumberLiteral"@[3] == 'a' && "BinaryIntegerNumberLiteral"@[4] == 'r' && "BinaryIntegerNumberLiteral"@[5] == 'y' && "BinaryIntegerNumberLiteral"@[6] == 'I' && "BinaryIntegerNumberLiteral"@[7] == 'n' && "BinaryIntegerNumberLiteral"@[8] == 't' && "BinaryIntegerNumberLiteral"@[9] == 'e' && "BinaryIntegerNumberLiteral"@[10] == 'g' && "BinaryIntegerNumberLiteral"@[11] == 'e' && "BinaryIntegerNumberLiteral"@[12] == 'r' && "BinaryIntegerNumberLiteral"@[13] == 'N' && "BinaryIntegerNumberLiteral"@[14] == 'u' && "BinaryIntegerNumberLiteral"@[15] == 'm' && "BinaryIntegerNumberLiteral"@[16] == 'b' && "BinaryIntegerNumberLiteral"@[17] == 'e' && "BinaryIntegerNumberLiteral"@[18] == 'r' && "BinaryIntegerNumberLiteral"@[19] == 'L' && "BinaryIntegerNumberLiteral"@[20] == 'i' && "BinaryIntegerNumberLiteral"@[21] == 't' && "BinaryIntegerNumberLiteral"@[22] == 'e' && "BinaryIntegerNumberLiteral"@[23] == 'r' && "BinaryIntegerNumberLiteral"@[24] == 'a' && "BinaryIntegerNumberLiteral"@[25] == 'l');
    reveal_strlit("ScientificDecimalNumberLiteral");
    assert("ScientificDecimalNumberLiteral"@.len() == 30 && "ScientificDecimalNumberLiteral"@[0] == 'S' && "ScientificDecimalNumberLiteral"@[1] == 'c' && "ScientificDecimalNumberLiteral"@[2] == 'i' && "ScientificDecimalNumberLiteral"@[3] == 'e' && "ScientificDecimalNumberLiteral"@[4] == 'n' && "ScientificDecimalNumberLiteral"@[5] == 't' && "ScientificDecimalNumberLiteral"@[6] == 'i' && "ScientificDecimalNumberLiteral"@[7] == 'f' && "ScientificDecimalNumberLiteral"@[8] == 'i' && "ScientificDecimalNumberLiteral"@[9] == 'c' && "ScientificDecimalNumberLiteral"@[10] == 'D' && "ScientificDecimalNumberLiteral"@[11] == 'e' && "ScientificDecimalNumberLiteral"@[12] == 'c' && "ScientificDecimalNumberLiteral"@[13] == 'i' && "ScientificDecimalNumberLiteral"@[14] == 'm' && "ScientificDecimalNumberLiteral"@[15] == 'a' && "ScientificDecimalNumberLiteral"@[16] == 'l' && "ScientificDecimalNumberLiteral"@[17] == 'N' && "ScientificDecimalNumberLiteral"@[18] == 'u' && "ScientificDecimalNumberLiteral"@[19] == 'm' && "ScientificDecimalNumberLiteral"@[20] == 'b' && "ScientificDecimalNumberLiteral"@[21] == 'e' && "ScientificDecimalNumberLiteral"@[22] == 'r' && "ScientificDecimalNumberLiteral"@[23] == 'L' && "ScientificDecimalNumberLiteral"@[24] == 'i' && "ScientificDecimalNumberLiteral"@[25] == 't' && "ScientificDecimalNumberLiteral"@[26] == 'e' && "ScientificDecimalNumberLiteral"@[27] == 'r' && "ScientificDecimalNumberLiteral"@[28] == 'a' && "ScientificDecimalNumberLiteral"@[29] == 'l');
    reveal_strlit("ScientificHexNumberLiteral");
    assert("ScientificHexNumberLiteral"@.len() == 26 && "ScientificHexNumberLiteral"@[0] == 'S' && "ScientificHexNumberLiteral"@[1] == 'c' && "ScientificHexNumberLiteral"@[2] == 'i' && "ScientificHexNumberLiteral"@[3] == 'e' && "ScientificHexNumberLiteral"@[4] == 'n' && "ScientificHexNumberLiteral"@[5] == 't' && "ScientificHexNumberLiteral"@[6] == 'i' && "ScientificHexNumberLiteral"@[7] == 'f' && "ScientificHexNumberLiteral"@[8] == 'i' && "ScientificHexNumberLiteral"@[9] == 'c' && "ScientificHexNumberLiteral"@[10] == 'H' && "ScientificHexNumberLiteral"@[11] == 'e' && "ScientificHexNumberLiteral"@[12] == 'x' && "ScientificHexNumberLiteral"@[13] == 'N' && "ScientificHexNumberLiteral"@[14] == 'u' && "ScientificHexNumberLiteral"@[15] == 'm' && "ScientificHexNumberLiteral"@[16] == 'b' && "ScientificHexNumberLiteral"@[17] == 'e' && "ScientificHexNumberLiteral"@[18] == 'r' && "ScientificHexNumberLiteral"@[19] == 'L' && "ScientificHexNumberLiteral"@[20] == 'i' && "ScientificHexNumberLiteral"@[21] == 't' && "ScientificHexNumberLiteral"@[22] == 'e' && "ScientificHexNumberLiteral"@[23] == 'r' && "ScientificHexNumberLiteral"@[24] == 'a' && "ScientificHexNumberLiteral"@[25] == 'l');
    reveal_strlit("OpenBrace");
    assert("OpenBrace"@.len() == 9 && "OpenBrace"@[0] == 'O' && "OpenBrace"@[1] == 'p' && "OpenBrace"@[2] == 'e' && "OpenBrace"@[3] == 'n' && "OpenBrace"@[4] == 'B' && "OpenBrace"@[5] == 'r' && "OpenBrace"@[6] == 'a' && "OpenBrace"@[7] == 'c' && "OpenBrace"@[8] == 'e');
    reveal_strlit("OpenParen");
    assert("OpenParen"@.len() == 9 && "OpenParen"@[0] == 'O' && "OpenParen"@[1] == 'p' && "OpenParen"@[2] == 'e' && "OpenParen"@[3] == 'n' && "OpenParen"@[4] == 'P' && "OpenParen"@[5] == 'a' && "OpenParen"@[6] == 'r' && "OpenParen"@[7] == 'e' && "OpenParen"@[8] == 'n');
    reveal_strlit("Plus");
    assert("Plus"@.len() == 4 && "Plus"@[0] == 'P' && "Plus"@[1] == 'l' && "Plus"@[2] == 'u' && "Plus"@[3] == 's');
    reveal_strlit("Ret");
    assert("Ret"@.len() == 3 && "Ret"@[0] == 'R' && "Ret"@[1] == 'e' && "Ret"@[2] == 't');
    reveal_strlit("Semicolon");
    assert("Semicolon"@.len() == 9 && "Semicolon"@[0] == 'S' && "Semicolon"@[1] == 'e' && "Semicolon"@[2] == 'm' && "Semicolon"@[3] == 'i' && "Semicolon"@[4] == 'c' && "Semicolon"@[5] == 'o' && "Semicolon"@[6] == 'l' && "Semicolon"@[7] == 'o' && "Semicolon"@[8] == 'n');
    reveal_strlit("Slash");
    assert("Slash"@.len() == 5 && "Slash"@[0] == 'S' && "Slash"@[1] == 'l' && "Slash"@[2] == 'a' && "Slash"@[3] == 's' && "Slash"@[4] == 'h');
    reveal_strlit("StringLiteral");
    assert("StringLiteral"@.len() == 13 && "StringLiteral"@[0] == 'S' && "StringLiteral"@[1] == 't' && "StringLiteral"@[2] == 'r' && "StringLiteral"@[3] == 'i' && "StringLiteral"@[4] == 'n' && "StringLiteral"@[5] == 'g' && "StringLiteral"@[6] == 'L' && "StringLiteral"@[7] == 'i' && "StringLiteral"@[8] == 't' && "StringLiteral"@[9] == 'e' && "StringLiteral"@[10] == 'r' && "StringLiteral"@[11] == 'a' && "StringLiteral"@[12] == 'l');
    reveal_strlit("Star");
    assert("Star"@.len() == 4 && "Star"@[0] == 'S' && "Star"@[1] == 't' && "Star"@[2] == 'a' && "Star"@[3] == 'r');
    reveal_strlit("Struct");
    assert("Struct"@.len() == 6 && "Struct"@[0] == 'S' && "Struct"@[1] == 't' && "Struct"@[2] == 'r' && "Struct"@[3] == 'u' && "Struct"@[4] == 'c' && "Struct"@[5] == 't');
    reveal_strlit("SubAssign");
    assert("SubAssign"@.len() == 9 && "SubAssign"@[0] == 'S' && "SubAssign"@[1] == 'u' && "SubAssign"@[2] == 'b' && "SubAssign"@[3] == 'A' && "SubAssign"@[4] == 's' && "SubAssign"@[5] == 's' && "SubAssign"@[6] == 'i' && "SubAssign"@[7] == 'g' && "SubAssign"@[8] == 'n');
    reveal_strlit("Sum");
    assert("Sum"@.len() == 3 && "Sum"@[0] == 'S' && "Sum"@[1] == 'u' && "Sum"@[2] == 'm');
    reveal_strlit("Tilde");
    assert("Tilde"@.len() == 5 && "Tilde"@[0] == 'T' && "Tilde"@[1] == 'i' && "Tilde"@[2] == 'l' && "Tilde"@[3] == 'd' && "Tilde"@[4] == 'e');
    reveal_strlit("Trait");
    assert("Trait"@.len() == 5 && "Trait"@[0] == 'T' && "Trait"@[1] == 'r' && "Trait"@[2] == 'a' && "Trait"@[3] == 'i' && "Trait"@[4] == 't');
    reveal_strlit("True");
    assert("True"@.len() == 4 && "True"@[0] == 'T' && "True"@[1] == 'r' && "True"@[2] == 'u' && "True"@[3] == 'e');
    reveal_strlit("Use");
    assert("Use"@.len() == 3 && "Use"@[0] == 'U' && "Use"@[1] == 's' && "Use"@[2] == 'e');
}

/// A keyword kind of token.
pub open spec fn is_keyword_kind(k: TokenKind) -> bool {
    k == TokenKind::Break || k == TokenKind::Defer || k == TokenKind::Else || k == TokenKind::False || k == TokenKind::Fn || k == TokenKind::For || k == TokenKind::If || k == TokenKind::Impl || k == TokenKind::In || k == TokenKind::Is || k == TokenKind::Loop || k == TokenKind::Next || k == TokenKind::Ret || k == TokenKind::Struct || k == TokenKind::Sum || k == TokenKind::True || k == TokenKind::Trait || k == TokenKind::Use
}

/// The text of each keyword is read as that keyword.
pub proof fn lemma_keyword_texts_are_keywords(k: TokenKind)
    requires
        is_keyword_kind(k),
    ensures
        fixed_text(k) matches Some(w) && keyword_kind(w) == Some(k),
{
    reveal_strlit("break");
    assert("break"@.len() == 5 && "break"@[0] == 'b' && "break"@[1] == 'r' && "break"@[2] == 'e' && "break"@[3] == 'a' && "break"@[4] == 'k');
    reveal_strlit("defer");
    assert("defer"@.len() == 5 && "defer"@[0] == 'd' && "defer"@[1] == 'e' && "defer"@[2] == 'f' && "defer"@[3] == 'e' && "defer"@[4] == 'r');
    reveal_strlit("else");
    assert("else"@.len() == 4 && "else"@[0] == 'e' && "else"@[1] == 'l' && "else"@[2] == 's' && "else"@[3] == 'e');
    reveal_strlit("false");
    assert("false"@.len() == 5 && "false"@[0] == 'f' && "false"@[1] == 'a' && "false"@[2] == 'l' && "false"@[3] == 's' && "false"@[4] == 'e');
    reveal_strlit("fn");
    assert("fn"@.len() == 2 && "fn"@[0] == 'f' && "fn"@[1] == 'n');
    reveal_strlit("for");
    assert("for"@.len() == 3 && "for"@[0] == 'f' && "for"@[1] == 'o' && "for"@[2] == 'r');
    reveal_strlit("if");
    assert("if"@.len() == 2 && "if"@[0] == 'i' && "if"@[1] == 'f');
    reveal_strlit("impl");
    assert("impl"@.len() == 4 && "impl"@[0] == 'i' && "impl"@[1] == 'm' && "impl"@[2] == 'p' && "impl"@[3] == 'l');
    reveal_strlit("in");
    assert("in"@.len() == 2 && "in"@[0] == 'i' && "in"@[1] == 'n');
    reveal_strlit("is");
    assert("is"@.len() == 2 && "is"@[0] == 'i' && "is"@[1] == 's');
    reveal_strlit("loop");
    assert("loop"@.len() == 4 && "loop"@[0] == 'l' && "loop"@[1] == 'o' && "loop"@[2] == 'o' && "loop"@[3] == 'p');
    reveal_strlit("next");
    assert("next"@.len() == 4 && "next"@[0] == 'n' && "next"@[1] == 'e' && "next"@[2] == 'x' && "next"@[3] == 't');
    reveal_strlit("ret");
    assert("ret"@.len() == 3 && "ret"@[0] == 'r' && "ret"@[1] == 'e' && "ret"@[2] == 't');
    reveal_strlit("struct");
    assert("struct"@.len() == 6 && "struct"@[0] == 's' && "struct"@[1] == 't' && "struct"@[2] == 'r' && "struct"@[3] == 'u' && "struct"@[4] == 'c' && "struct"@[5] == 't');
    reveal_strlit("sum");
    assert("sum"@.len() == 3 && "sum"@[0] == 's' && "sum"@[1] == 'u' && "sum"@[2] == 'm');
    reveal_strlit("true");
    assert("true"@.len() == 4 && "true"@[0] == 't' && "true"@[1] == 'r' && "true"@[2] == 'u' && "true"@[3] == 'e');
    reveal_strlit("trait");
    assert("trait"@.len() == 5 && "trait"@[0] == 't' && "trait"@[1] == 'r' && "trait"@[2] == 'a' && "trait"@[3] == 'i' && "trait"@[4] == 't');
    reveal_strlit("use");
    assert("use"@.len() == 3 && "use"@[0] == 'u' && "use"@[1] == 's' && "use"@[2] == 'e');
}

} // verus!
