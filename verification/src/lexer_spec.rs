//! What the lexer does, stated over the characters it has yet to read.
//!
//! A lexer state holds the characters not yet read, the location where the
//! last token ended, the current location, and the errors reported so far.
//! Each function below says what one step of lexing yields and the state after it.

use vstd::prelude::*;
use crate::span::{CodeLocation, CodeSpan, span_of};
use crate::token::{
    TokenKind, TokenM, NumberLiteralKind, plain_token, valued_token, spec_number_token_kind, spec_number_kind_of, spec_radix,
};
use crate::error::LexerError;

verus! {

/// What the lexer knows: the characters still to read, where the last token
/// ended, where it stands, and the errors it has reported.
pub struct LexState {
    pub rest: Seq<char>,
    pub last: CodeLocation,
    pub loc: CodeLocation,
    pub errors: Seq<LexerError>,
}

/// The character `n` places ahead, if there is one.
pub open spec fn peek_at(s: LexState, n: int) -> Option<char> {
    if 0 <= n < s.rest.len() {
        Some(s.rest[n])
    } else {
        None
    }
}

/// Reading one character: it leaves the input (if any is left) and the column grows by one.
pub open spec fn adv(s: LexState) -> LexState {
    LexState {
        rest: if s.rest.len() > 0 { s.rest.drop_first() } else { s.rest },
        last: s.last,
        loc: CodeLocation { line: s.loc.line, column: (s.loc.column + 1) as usize },
        errors: s.errors,
    }
}

/// The next token starts where the lexer stands.
pub open spec fn upd(s: LexState) -> LexState {
    LexState { rest: s.rest, last: s.loc, loc: s.loc, errors: s.errors }
}

/// A line break moves the lexer to column 1 of the next line.
pub open spec fn newline(s: LexState) -> LexState {
    LexState {
        rest: s.rest,
        last: s.last,
        loc: CodeLocation { line: (s.loc.line + 1) as usize, column: 1 },
        errors: s.errors,
    }
}

/// The span from where the last token ended to where the lexer stands.
pub open spec fn cur_span(s: LexState) -> CodeSpan {
    span_of(s.last, s.loc)
}

/// The bounds under which locations cannot overflow: the column, and the line,
/// can grow by at most the number of characters left.
pub open spec fn lwf(s: LexState) -> bool {
    &&& s.rest.len() > 0 ==> s.loc.column + s.rest.len() < usize::MAX
    &&& s.loc.line + s.rest.len() <= usize::MAX
    &&& s.loc.column >= 1
}

/// `lwf`, with room for one more column even where no character is left.
pub open spec fn lwf_strong(s: LexState) -> bool {
    &&& lwf(s)
    &&& s.loc.column + s.rest.len() < usize::MAX
}

/// `c` is a digit of the given radix: 0-9, then a-z or A-Z for 10 and up.
pub open spec fn spec_is_digit(c: char, radix: u32) -> bool {
    if '0' <= c && c <= '9' {
        (c as u32) - ('0' as u32) < radix
    } else if 'a' <= c && c <= 'z' {
        (c as u32) - ('a' as u32) + 10 < radix
    } else if 'A' <= c && c <= 'Z' {
        (c as u32) - ('A' as u32) + 10 < radix
    } else {
        false
    }
}

/// Whether `char::is_alphanumeric` holds of `c` (Unicode's alphabetic or numeric).
pub uninterp spec fn spec_is_alphanumeric(c: char) -> bool;

/// The characters that start an operator.
pub open spec fn is_op_char(c: char) -> bool {
    c == '+' || c == '-' || c == '*' || c == '/' || c == '%' || c == '&' || c == '|' || c == '^'
        || c == '<' || c == '>' || c == '~'
}

/// The one-character operator token of an operator character.
pub open spec fn op_kind(c: char) -> TokenKind {
    if c == '+' { TokenKind::Plus }
    else if c == '-' { TokenKind::Minus }
    else if c == '*' { TokenKind::Star }
    else if c == '/' { TokenKind::Slash }
    else if c == '%' { TokenKind::Percent }
    else if c == '&' { TokenKind::Ampersand }
    else if c == '|' { TokenKind::Pipe }
    else if c == '^' { TokenKind::Caret }
    else if c == '<' { TokenKind::Less }
    else if c == '>' { TokenKind::Greater }
    else { TokenKind::Tilde }
}

/// The token of an operator character followed by `=`.
pub open spec fn op_assign_kind(c: char) -> TokenKind {
    if c == '+' { TokenKind::AddAssign }
    else if c == '-' { TokenKind::SubAssign }
    else if c == '*' { TokenKind::MultAssign }
    else if c == '/' { TokenKind::DivAssign }
    else if c == '%' { TokenKind::ModAssign }
    else if c == '&' { TokenKind::BitAndAssign }
    else if c == '|' { TokenKind::BitOrAssign }
    else if c == '^' { TokenKind::BitXorAssign }
    else if c == '<' { TokenKind::LessOrEqual }
    else if c == '>' { TokenKind::GreaterOrEqual }
    else { TokenKind::BitNotAssign }
}

/// The punctuation that is a token of one character whatever follows it.
pub open spec fn single_char_kind(c: char) -> Option<TokenKind> {
    if c == '.' { Some(TokenKind::Dot) }
    else if c == '@' { Some(TokenKind::At) }
    else if c == ',' { Some(TokenKind::Comma) }
    else if c == '{' { Some(TokenKind::OpenBrace) }
    else if c == '}' { Some(TokenKind::CloseBrace) }
    else if c == '[' { Some(TokenKind::OpenBrack) }
    else if c == ']' { Some(TokenKind::CloseBrack) }
    else if c == '(' { Some(TokenKind::OpenParen) }
    else if c == ')' { Some(TokenKind::CloseParen) }
    else if c == ';' { Some(TokenKind::Semicolon) }
    else { None }
}

/// The token of a character that may be followed by `=`: `!` and `!=`, `:` and `:=`, `=` and `==`.
pub open spec fn pair_kinds(c: char) -> Option<(TokenKind, TokenKind)> {
    if c == '!' { Some((TokenKind::Excl, TokenKind::ExclEquals)) }
    else if c == ':' { Some((TokenKind::Colon, TokenKind::DeclareAssign)) }
    else if c == '=' { Some((TokenKind::Equals, TokenKind::DoubleEquals)) }
    else { None }
}

/// The keyword that a word is, if it is one.
pub open spec fn keyword_kind(w: Seq<char>) -> Option<TokenKind> {
    if w == "break"@ { Some(TokenKind::Break) }
    else if w == "defer"@ { Some(TokenKind::Defer) }
    else if w == "else"@ { Some(TokenKind::Else) }
    else if w == "false"@ { Some(TokenKind::False) }
    else if w == "fn"@ { Some(TokenKind::Fn) }
    else if w == "for"@ { Some(TokenKind::For) }
    else if w == "if"@ { Some(TokenKind::If) }
    else if w == "impl"@ { Some(TokenKind::Impl) }
    else if w == "in"@ { Some(TokenKind::In) }
    else if w == "is"@ { Some(TokenKind::Is) }
    else if w == "loop"@ { Some(TokenKind::Loop) }
    else if w == "next"@ { Some(TokenKind::Next) }
    else if w == "ret"@ { Some(TokenKind::Ret) }
    else if w == "struct"@ { Some(TokenKind::Struct) }
    else if w == "sum"@ { Some(TokenKind::Sum) }
    else if w == "true"@ { Some(TokenKind::True) }
    else if w == "trait"@ { Some(TokenKind::Trait) }
    else if w == "use"@ { Some(TokenKind::Use) }
    else { None }
}

/// The character that an escape sequence `\c` stands for, if `c` is a known escape.
pub open spec fn escape_replacement(c: char) -> Option<char> {
    if c == '\\' { Some('\\') }
    else if c == '"' { Some('"') }
    else if c == 'r' { Some('\r') }
    else if c == 'n' { Some('\n') }
    else if c == '0' { Some('\0') }
    else if c == 't' { Some('\t') }
    else if c == '\'' { Some('\'') }
    else { None }
}

/// A line feed: one character, then a new line.
pub open spec fn lex_lf_s(s: LexState) -> (TokenM, LexState) {
    let s3 = newline(upd(adv(s)));
    (plain_token(TokenKind::LineBreak, cur_span(s3)), s3)
}

/// A carriage return must be followed by a line feed.
pub open spec fn lex_crlf_s(s: LexState) -> (Result<TokenM, LexerError>, LexState) {
    let s1 = adv(s);
    if peek_at(s1, 0) == Some('\n') {
        let s4 = newline(upd(adv(s1)));
        (Ok(plain_token(TokenKind::LineBreak, cur_span(s4))), s4)
    } else {
        (Err(LexerError::UnknownToken(cur_span(s1))), s1)
    }
}

/// A line break, of either form.
pub open spec fn lex_linebreak_s(s: LexState, ch: char) -> (Result<TokenM, LexerError>, LexState) {
    if ch == '\n' {
        (Ok(lex_lf_s(s).0), lex_lf_s(s).1)
    } else {
        lex_crlf_s(s)
    }
}

/// An operator: reads `ch`, then `<<`/`>>` with an optional `=`, or an optional `=`.
pub open spec fn lex_operator_s(s: LexState, ch: char) -> (Result<TokenM, LexerError>, LexState) {
    let s1 = adv(s);
    if ch == '<' && peek_at(s1, 0) == Some('<') {
        let s2 = adv(s1);
        if peek_at(s2, 0) == Some('=') {
            (Ok(plain_token(TokenKind::BitShiftLeftAssign, cur_span(adv(s2)))), adv(s2))
        } else {
            (Ok(plain_token(TokenKind::BitShiftLeft, cur_span(s2))), s2)
        }
    } else if ch == '>' && peek_at(s1, 0) == Some('>') {
        let s2 = adv(s1);
        if peek_at(s2, 0) == Some('=') {
            (Ok(plain_token(TokenKind::BitShiftRightAssign, cur_span(adv(s2)))), adv(s2))
        } else {
            (Ok(plain_token(TokenKind::BitShiftRight, cur_span(s2))), s2)
        }
    } else if peek_at(s1, 0) == Some('=') {
        (Ok(plain_token(op_assign_kind(ch), cur_span(adv(s1)))), adv(s1))
    } else {
        (Ok(plain_token(op_kind(ch), cur_span(s1))), s1)
    }
}

/// The kind of a decimal number literal with or without a point or an exponent.
pub open spec fn decimal_kind(dp: bool, exp: bool) -> NumberLiteralKind {
    if exp {
        NumberLiteralKind::ScientificDecimal
    } else if dp {
        NumberLiteralKind::DecimalPoint
    } else {
        NumberLiteralKind::DecimalInteger
    }
}

/// The rest of a decimal number literal: digits, one point before any
/// exponent, one exponent `e`/`E` with an optional sign, and `_` separators
/// that are left out of the text.
pub open spec fn number_loop(s: LexState, num: Seq<char>, dp: bool, exp: bool, first: bool) -> (Result<TokenM, LexerError>, LexState)
    decreases s.rest.len(),
{
    if s.rest.len() == 0 {
        (Ok(valued_token(spec_number_token_kind(decimal_kind(dp, exp)), num, cur_span(s))), s)
    } else {
        let ch = s.rest[0];
        if first && ch == '0' && non_decimal_s(s, num) is Some {
            (non_decimal_s(s, num)->Some_0.0, non_decimal_s(s, num)->Some_0.1)
        } else if first && ch == '0' {
            number_loop(adv(s), num.push(ch), dp, exp, false)
        } else if spec_is_digit(ch, 10) {
            number_loop(adv(s), num.push(ch), dp, exp, false)
        } else if ch == '.' {
            if !dp && !exp {
                number_loop(adv(s), num.push(ch), true, exp, false)
            } else {
                (Err(LexerError::MultiDecimalPointInNumberLiteral(cur_span(s))), s)
            }
        } else if (ch == 'e' || ch == 'E') && !exp {
            let s1 = adv(s);
            if s1.rest.len() > 0 && (s1.rest[0] == '+' || s1.rest[0] == '-') {
                number_loop(adv(s1), num.push(ch).push(s1.rest[0]), dp, true, false)
            } else {
                number_loop(s1, num.push(ch), dp, true, false)
            }
        } else if ch == '_' {
            number_loop(adv(s), num, dp, exp, false)
        } else {
            (Ok(valued_token(spec_number_token_kind(decimal_kind(dp, exp)), num, cur_span(s))), s)
        }
    }
}

/// The kind of number literal that the character after a leading `0` starts:
/// hexadecimal (`x`), octal (`o`) or binary (`b`); any other character leaves
/// the literal to the decimal rules.
pub open spec fn radix_prefix_kind(p: char) -> Option<NumberLiteralKind> {
    if p == 'x' {
        Some(NumberLiteralKind::HexadecimalInteger)
    } else if p == 'o' {
        Some(NumberLiteralKind::OctalInteger)
    } else if p == 'b' {
        Some(NumberLiteralKind::BinaryInteger)
    } else {
        None
    }
}

/// A character that, after a leading `0` and before a hexadecimal digit,
/// makes an unknown radix prefix: an ASCII letter or digit, or `_`, other than
/// `x`, `o` and `b`.
pub open spec fn bad_radix_char(p: char) -> bool {
    (('a' <= p && p <= 'z') || ('A' <= p && p <= 'Z') || ('0' <= p && p <= '9') || p == '_')
        && radix_prefix_kind(p) is None
}

/// The input starts with `0`, a character of `bad_radix_char` and a
/// hexadecimal digit.
pub open spec fn bad_radix_at(s: LexState) -> bool {
    &&& peek_at(s, 0) == Some('0')
    &&& peek_at(s, 1) matches Some(p) && bad_radix_char(p)
    &&& peek_at(s, 2) matches Some(d) && spec_is_digit(d, 16)
}

/// A number literal that starts with `0` and a radix prefix (`0x`, `0o`,
/// `0b`): the result, the state after it and the text read, appended to `num`.
/// An unknown radix prefix is an error that reads nothing. `None` where the
/// literal is left to the decimal rules.
pub open spec fn non_decimal_s(s: LexState, num: Seq<char>) -> Option<(Result<TokenM, LexerError>, LexState, Seq<char>)> {
    match peek_at(s, 1) {
        Some(p) => match radix_prefix_kind(p) {
            Some(k) => Some(nd_loop(adv(adv(s)), k, k, num, false, false, true)),
            None => if bad_radix_char(p) && (peek_at(s, 2) matches Some(d) && spec_is_digit(d, 16)) {
                Some((Err(LexerError::UnexpectedCharacterLexingNonDecimalNumberLiteral(cur_span(s))), s, num))
            } else {
                None
            },
        },
        None => None,
    }
}

/// The digits after `0x`, `0o` or `0b`. Hexadecimal literals may hold one
/// point and one exponent `p`/`P` (with an optional sign), which make them
/// scientific; octal and binary literals end at the first character that is
/// no hexadecimal digit, and a hexadecimal digit out of their radix, or a
/// literal with no digit at all, is an error. `_` separators are left out.
/// Also gives the text read, appended to `num`.
pub open spec fn nd_loop(s: LexState, kind: NumberLiteralKind, fk: NumberLiteralKind, num: Seq<char>, dec: bool, exp: bool, first: bool) -> (Result<TokenM, LexerError>, LexState, Seq<char>)
    decreases s.rest.len(),
{
    if s.rest.len() == 0 {
        (Ok(valued_token(spec_number_token_kind(fk), num, span_of(s.last, s.loc))), s, num)
    } else {
        let ch = s.rest[0];
        if ch == '_' {
            nd_loop(adv(s), kind, fk, num, dec, exp, first)
        } else if kind == NumberLiteralKind::HexadecimalInteger {
            if spec_is_digit(ch, 16) {
                nd_loop(adv(s), kind, fk, num.push(ch), dec, exp, false)
            } else if ch == '.' && !dec && !exp {
                nd_loop(adv(s), kind, NumberLiteralKind::ScientificHex, num.push(ch), true, exp, false)
            } else if (ch == 'p' || ch == 'P') && !exp {
                let s1 = adv(s);
                if s1.rest.len() > 0 && (s1.rest[0] == '+' || s1.rest[0] == '-') {
                    nd_loop(adv(s1), kind, NumberLiteralKind::ScientificHex, num.push(ch).push(s1.rest[0]), dec, true, false)
                } else {
                    nd_loop(s1, kind, NumberLiteralKind::ScientificHex, num.push(ch), dec, true, false)
                }
            } else {
                (Ok(valued_token(spec_number_token_kind(fk), num, span_of(s.last, s.loc))), s, num)
            }
        } else if spec_is_digit(ch, spec_radix(kind)) {
            nd_loop(adv(s), kind, fk, num.push(ch), dec, exp, false)
        } else if spec_is_digit(ch, 16) || first {
            (Err(LexerError::UnexpectedCharacterLexingNonDecimalNumberLiteral(cur_span(s))), s, num)
        } else {
            (Ok(valued_token(spec_number_token_kind(fk), num, span_of(s.last, s.loc))), s, num)
        }
    }
}

/// Whether `c` continues a word: `_`, an ASCII letter or digit, and beyond
/// ASCII what `char::is_alphanumeric` accepts.
pub open spec fn is_word_char(c: char) -> bool {
    if c <= '\x7f' {
        ('a' <= c && c <= 'z') || ('A' <= c && c <= 'Z') || ('0' <= c && c <= '9') || c == '_'
    } else {
        spec_is_alphanumeric(c)
    }
}

/// The longest run of alphanumeric characters and `_`, added to `word`.
pub open spec fn ident_loop(s: LexState, word: Seq<char>) -> (Seq<char>, LexState)
    decreases s.rest.len(),
{
    if s.rest.len() > 0 && is_word_char(s.rest[0]) {
        ident_loop(adv(s), word.push(s.rest[0]))
    } else {
        (word, s)
    }
}

/// A word: a keyword token if it is one, an identifier token otherwise.
pub open spec fn keyword_or_ident_s(s: LexState) -> (TokenM, LexState) {
    let (w, s1) = ident_loop(s, Seq::empty());
    match keyword_kind(w) {
        Some(k) => (plain_token(k, cur_span(s1)), s1),
        None => (valued_token(TokenKind::Ident, w, span_of(s1.last, s1.loc)), s1),
    }
}

/// A comment runs to the end of the line; the line break after it is its token.
pub open spec fn skip_comment_loop(s: LexState) -> (Option<Result<TokenM, LexerError>>, LexState)
    decreases s.rest.len(),
{
    if s.rest.len() == 0 {
        (None, upd(s))
    } else if s.rest[0] == '\r' || s.rest[0] == '\n' {
        (Some(lex_linebreak_s(s, s.rest[0]).0), upd(lex_linebreak_s(s, s.rest[0]).1))
    } else {
        skip_comment_loop(adv(s))
    }
}

/// The body of a string literal up to the closing quote, with escapes replaced.
pub open spec fn string_loop(s: LexState, value: Seq<char>) -> (Result<TokenM, LexerError>, LexState)
    decreases s.rest.len(),
{
    if s.rest.len() == 0 {
        (Err(LexerError::UnterminatedStringLiteral(cur_span(s))), s)
    } else {
        let ch = s.rest[0];
        let s1 = adv(s);
        if ch == '\\' {
            if s1.rest.len() > 0 && escape_replacement(s1.rest[0]) is Some {
                string_loop(adv(s1), value.push(escape_replacement(s1.rest[0])->Some_0))
            } else {
                (Err(LexerError::UnknownEscapeCharacter(cur_span(s1))), s1)
            }
        } else if ch == '"' {
            (Ok(valued_token(TokenKind::StringLiteral, value, cur_span(s1))), s1)
        } else {
            string_loop(s1, value.push(ch))
        }
    }
}

/// Skips spaces, tabs and comments, then reads one token. A character that
/// starts no token is reported as an error and skipped.
pub open spec fn next_token_loop(s: LexState) -> Option<(Result<TokenM, LexerError>, LexState)>
    decreases s.rest.len(),
{
    if s.rest.len() == 0 {
        Some((Ok(plain_token(TokenKind::EndOfFile, cur_span(s))), s))
    } else {
        let ch = s.rest[0];
        if single_char_kind(ch) is Some {
            Some((Ok(plain_token(single_char_kind(ch)->Some_0, cur_span(adv(s)))), adv(s)))
        } else if pair_kinds(ch) is Some {
            let s1 = adv(s);
            if peek_at(s1, 0) == Some('=') {
                Some((Ok(plain_token(pair_kinds(ch)->Some_0.1, cur_span(adv(s1)))), adv(s1)))
            } else {
                Some((Ok(plain_token(pair_kinds(ch)->Some_0.0, cur_span(s1))), s1))
            }
        } else if ch == '/' {
            if peek_at(s, 1) == Some('/') {
                let (r, s2) = skip_comment_loop(adv(s));
                match r {
                    Some(res) => Some((res, s2)),
                    None => if s2.rest.len() < s.rest.len() {
                        next_token_loop(s2)
                    } else {
                        None
                    },
                }
            } else {
                Some(lex_operator_s(s, '/'))
            }
        } else if ch == ' ' || ch == '\t' {
            next_token_loop(upd(adv(s)))
        } else if ch == '\r' || ch == '\n' {
            Some(lex_linebreak_s(s, ch))
        } else if is_op_char(ch) {
            Some(lex_operator_s(s, ch))
        } else if '0' <= ch && ch <= '9' {
            Some(number_loop(s, Seq::empty(), false, false, true))
        } else if ('a' <= ch && ch <= 'z') || ('A' <= ch && ch <= 'Z') || ch == '_' {
            Some((Ok(keyword_or_ident_s(s).0), keyword_or_ident_s(s).1))
        } else if ch == '"' {
            Some(string_loop(adv(s), Seq::empty()))
        } else {
            let s1 = adv(s);
            next_token_loop(upd(with_error(s1, LexerError::InvalidCharacter(ch, cur_span(s1)))))
        }
    }
}

/// One call of `next_token`: the next token starts where the lexer stands.
pub open spec fn next_token_s(s: LexState) -> Option<(Result<TokenM, LexerError>, LexState)> {
    next_token_loop(upd(s))
}

/// The state with one more error reported.
pub open spec fn with_error(s: LexState, e: LexerError) -> LexState {
    LexState { rest: s.rest, last: s.last, loc: s.loc, errors: s.errors.push(e) }
}

/// The error of an unknown radix prefix at the start of the input.
pub open spec fn bad_radix_error(s: LexState) -> LexerError {
    LexerError::UnexpectedCharacterLexingNonDecimalNumberLiteral(cur_span(upd(s)))
}

/// The state after the error `e` that reading a token ended in at `s`: the
/// error is added, and where it is that of an unknown radix prefix, which
/// reads nothing, its `0` is skipped.
pub open spec fn after_error(s: LexState, e: LexerError) -> LexState {
    if bad_radix_at(s) && e == bad_radix_error(s) {
        adv(with_error(s, e))
    } else {
        with_error(s, e)
    }
}

/// Reads tokens up to the end of the input, adding them to `acc` and adding
/// errors to the state; the end-of-file token is left out. An unknown radix
/// prefix is reported once and its `0` skipped. `None` where the lexer would
/// not return (it stops reading but not reporting).
pub open spec fn tokens_loop(s: LexState, acc: Seq<TokenM>) -> Option<(Seq<TokenM>, LexState)>
    decreases s.rest.len(),
{
    match next_token_s(s) {
        None => None,
        Some((Ok(t), s2)) => if t.kind == TokenKind::EndOfFile {
            Some((acc, s2))
        } else if s2.rest.len() < s.rest.len() {
            tokens_loop(s2, acc.push(t))
        } else {
            None
        },
        Some((Err(e), s2)) => if after_error(s2, e).rest.len() < s.rest.len() {
            tokens_loop(after_error(s2, e), acc)
        } else {
            None
        },
    }
}

/// What lexing all of the input gives: the tokens and the final state, or `None`
/// where the lexer does not return.
pub open spec fn tokens_s(s: LexState) -> Option<(Seq<TokenM>, LexState)> {
    tokens_loop(s, Seq::empty())
}

/// The state of a lexer that has read nothing of `input`.
pub open spec fn initial_lex_state(input: Seq<char>) -> LexState {
    LexState {
        rest: input,
        last: CodeLocation { line: 1, column: 1 },
        loc: CodeLocation { line: 1, column: 1 },
        errors: Seq::empty(),
    }
}

/// The tokens of a whole source text, if the lexer returns on it.
pub open spec fn lex_source(input: Seq<char>) -> Option<(Seq<TokenM>, LexState)> {
    tokens_s(initial_lex_state(input))
}

/// No token of `ts` is an end-of-file token.
pub open spec fn no_end_of_file(ts: Seq<TokenM>) -> bool {
    forall|i: int| 0 <= i < ts.len() ==> #[trigger] ts[i].kind != TokenKind::EndOfFile
}

/// A token carries a text exactly when it is an identifier, a string literal
/// or a number literal.
pub open spec fn text_fits_kind(t: TokenM) -> bool {
    t.value is Some <==> (t.kind == TokenKind::Ident || t.kind == TokenKind::StringLiteral
        || spec_number_kind_of(t.kind) is Some)
}

/// Each token of `ts` carries a text exactly when its kind has one.
pub open spec fn texts_fit_kinds(ts: Seq<TokenM>) -> bool {
    forall|i: int| 0 <= i < ts.len() ==> #[trigger] text_fits_kind(ts[i])
}

proof fn lemma_number_text(k: NumberLiteralKind, num: Seq<char>, sp: CodeSpan)
    ensures
        text_fits_kind(valued_token(spec_number_token_kind(k), num, sp)),
{
}

proof fn lemma_nd_loop_text(s: LexState, kind: NumberLiteralKind, fk: NumberLiteralKind, num: Seq<char>, dec: bool, exp: bool, first: bool)
    ensures
        nd_loop(s, kind, fk, num, dec, exp, first).0 matches Ok(t) ==> text_fits_kind(t),
    decreases s.rest.len(),
{
    lemma_number_text(fk, num, span_of(s.last, s.loc));
    if s.rest.len() > 0 {
        let ch = s.rest[0];
        let s1 = adv(s);
        if ch == '_' {
            lemma_nd_loop_text(s1, kind, fk, num, dec, exp, first);
        } else if kind == NumberLiteralKind::HexadecimalInteger {
            if spec_is_digit(ch, 16) {
                lemma_nd_loop_text(s1, kind, fk, num.push(ch), dec, exp, false);
            } else if ch == '.' && !dec && !exp {
                lemma_nd_loop_text(s1, kind, NumberLiteralKind::ScientificHex, num.push(ch), true, exp, false);
            } else if (ch == 'p' || ch == 'P') && !exp {
                if s1.rest.len() > 0 && (s1.rest[0] == '+' || s1.rest[0] == '-') {
                    lemma_nd_loop_text(adv(s1), kind, NumberLiteralKind::ScientificHex, num.push(ch).push(s1.rest[0]), dec, true, false);
                } else {
                    lemma_nd_loop_text(s1, kind, NumberLiteralKind::ScientificHex, num.push(ch), dec, true, false);
                }
            }
        } else if spec_is_digit(ch, spec_radix(kind)) {
            lemma_nd_loop_text(s1, kind, fk, num.push(ch), dec, exp, false);
        }
    }
}

proof fn lemma_number_loop_text(s: LexState, num: Seq<char>, dp: bool, exp: bool, first: bool)
    ensures
        number_loop(s, num, dp, exp, first).0 matches Ok(t) ==> text_fits_kind(t),
    decreases s.rest.len(),
{
    lemma_number_text(decimal_kind(dp, exp), num, cur_span(s));
    if s.rest.len() > 0 {
        let ch = s.rest[0];
        let s1 = adv(s);
        if first && ch == '0' && non_decimal_s(s, num) is Some {
            if radix_prefix_kind(s1.rest[0]) is Some {
                let k = radix_prefix_kind(s1.rest[0])->Some_0;
                lemma_nd_loop_text(adv(s1), k, k, num, false, false, true);
            }
        } else if (first && ch == '0') || spec_is_digit(ch, 10) {
            lemma_number_loop_text(s1, num.push(ch), dp, exp, false);
        } else if ch == '.' {
            if !dp && !exp {
                lemma_number_loop_text(s1, num.push(ch), true, exp, false);
            }
        } else if (ch == 'e' || ch == 'E') && !exp {
            if s1.rest.len() > 0 && (s1.rest[0] == '+' || s1.rest[0] == '-') {
                lemma_number_loop_text(adv(s1), num.push(ch).push(s1.rest[0]), dp, true, false);
            } else {
                lemma_number_loop_text(s1, num.push(ch), dp, true, false);
            }
        } else if ch == '_' {
            lemma_number_loop_text(s1, num, dp, exp, false);
        }
    }
}

proof fn lemma_string_loop_text(s: LexState, value: Seq<char>)
    ensures
        string_loop(s, value).0 matches Ok(t) ==> text_fits_kind(t),
    decreases s.rest.len(),
{
    if s.rest.len() > 0 {
        let ch = s.rest[0];
        let s1 = adv(s);
        if ch == '\\' {
            if s1.rest.len() > 0 && escape_replacement(s1.rest[0]) is Some {
                lemma_string_loop_text(adv(s1), value.push(escape_replacement(s1.rest[0])->Some_0));
            }
        } else if ch != '"' {
            lemma_string_loop_text(s1, value.push(ch));
        }
    }
}

proof fn lemma_next_token_loop_text(s: LexState)
    ensures
        next_token_loop(s) matches Some((Ok(t), _)) ==> text_fits_kind(t),
    decreases s.rest.len(),
{
    if s.rest.len() > 0 {
        let ch = s.rest[0];
        let s1 = adv(s);
        if single_char_kind(ch) is Some || pair_kinds(ch) is Some {
        } else if ch == '/' {
            if peek_at(s, 1) == Some('/') {
                let (r, s2) = skip_comment_loop(s1);
                lemma_skip_comment_text(s1);
                if r is None && s2.rest.len() < s.rest.len() {
                    lemma_next_token_loop_text(s2);
                }
            }
        } else if ch == ' ' || ch == '\t' {
            lemma_next_token_loop_text(upd(s1));
        } else if ch == '\r' || ch == '\n' || is_op_char(ch) {
        } else if '0' <= ch && ch <= '9' {
            lemma_number_loop_text(s, Seq::empty(), false, false, true);
        } else if ch == '"' {
            lemma_string_loop_text(s1, Seq::empty());
        } else if !(('a' <= ch && ch <= 'z') || ('A' <= ch && ch <= 'Z') || ch == '_') {
            lemma_next_token_loop_text(upd(with_error(s1, LexerError::InvalidCharacter(ch, cur_span(s1)))));
        }
    }
}

proof fn lemma_skip_comment_text(s: LexState)
    ensures
        skip_comment_loop(s).0 matches Some(Ok(t)) ==> text_fits_kind(t),
    decreases s.rest.len(),
{
    if s.rest.len() > 0 && !(s.rest[0] == '\r' || s.rest[0] == '\n') {
        lemma_skip_comment_text(adv(s));
    }
}

proof fn lemma_tokens_loop_shape(s: LexState, acc: Seq<TokenM>)
    requires
        no_end_of_file(acc),
        texts_fit_kinds(acc),
    ensures
        tokens_loop(s, acc) matches Some((ts, _)) ==> no_end_of_file(ts) && texts_fit_kinds(ts),
    decreases s.rest.len(),
{
    lemma_next_token_loop_text(upd(s));
    match next_token_s(s) {
        None => {},
        Some((Ok(t), s2)) => {
            if t.kind != TokenKind::EndOfFile && s2.rest.len() < s.rest.len() {
                assert(no_end_of_file(acc.push(t)));
                assert(texts_fit_kinds(acc.push(t)));
                lemma_tokens_loop_shape(s2, acc.push(t));
            }
        },
        Some((Err(e), s2)) => {
            if after_error(s2, e).rest.len() < s.rest.len() {
                lemma_tokens_loop_shape(after_error(s2, e), acc);
            }
        },
    }
}

/// The tokens of a source text never include an end-of-file token: the lexer
/// stops at the end of the input without handing that token on.
pub proof fn lemma_lexed_tokens_have_no_end_of_file(input: Seq<char>)
    ensures
        lex_source(input) matches Some((ts, _)) ==> no_end_of_file(ts),
{
    lemma_tokens_loop_shape(initial_lex_state(input), Seq::empty());
}

/// Every token of a source text carries its text exactly when it is an
/// identifier, a string literal or a number literal: keywords, operators,
/// punctuation and line breaks carry none.
pub proof fn lemma_lexed_tokens_carry_text_by_kind(input: Seq<char>)
    ensures
        lex_source(input) matches Some((ts, _)) ==> texts_fit_kinds(ts),
{
    lemma_tokens_loop_shape(initial_lex_state(input), Seq::empty());
}

proof fn lemma_nd_loop_len(s: LexState, kind: NumberLiteralKind, fk: NumberLiteralKind, num: Seq<char>, dec: bool, exp: bool, first: bool)
    ensures
        nd_loop(s, kind, fk, num, dec, exp, first).1.rest.len() <= s.rest.len(),
    decreases s.rest.len(),
{
    if s.rest.len() > 0 {
        let ch = s.rest[0];
        let s1 = adv(s);
        if ch == '_' {
            lemma_nd_loop_len(s1, kind, fk, num, dec, exp, first);
        } else if kind == NumberLiteralKind::HexadecimalInteger {
            if spec_is_digit(ch, 16) {
                lemma_nd_loop_len(s1, kind, fk, num.push(ch), dec, exp, false);
            } else if ch == '.' && !dec && !exp {
                lemma_nd_loop_len(s1, kind, NumberLiteralKind::ScientificHex, num.push(ch), true, exp, false);
            } else if (ch == 'p' || ch == 'P') && !exp {
                if s1.rest.len() > 0 && (s1.rest[0] == '+' || s1.rest[0] == '-') {
                    lemma_nd_loop_len(adv(s1), kind, NumberLiteralKind::ScientificHex, num.push(ch).push(s1.rest[0]), dec, true, false);
                } else {
                    lemma_nd_loop_len(s1, kind, NumberLiteralKind::ScientificHex, num.push(ch), dec, true, false);
                }
            }
        } else if spec_is_digit(ch, spec_radix(kind)) {
            lemma_nd_loop_len(s1, kind, fk, num.push(ch), dec, exp, false);
        }
    }
}

proof fn lemma_number_loop_len(s: LexState, num: Seq<char>, dp: bool, exp: bool, first: bool)
    ensures
        number_loop(s, num, dp, exp, first).1.rest.len() <= s.rest.len(),
        first && s.rest.len() > 0 && '0' <= s.rest[0] && s.rest[0] <= '9' && !bad_radix_at(s)
            ==> number_loop(s, num, dp, exp, first).1.rest.len() < s.rest.len(),
    decreases s.rest.len(),
{
    if s.rest.len() > 0 {
        let ch = s.rest[0];
        let s1 = adv(s);
        if first && ch == '0' && non_decimal_s(s, num) is Some {
            if radix_prefix_kind(s1.rest[0]) is Some {
                let k = radix_prefix_kind(s1.rest[0])->Some_0;
                lemma_nd_loop_len(adv(s1), k, k, num, false, false, true);
            }
        } else if (first && ch == '0') || spec_is_digit(ch, 10) {
            lemma_number_loop_len(s1, num.push(ch), dp, exp, false);
        } else if ch == '.' {
            if !dp && !exp {
                lemma_number_loop_len(s1, num.push(ch), true, exp, false);
            }
        } else if (ch == 'e' || ch == 'E') && !exp {
            if s1.rest.len() > 0 && (s1.rest[0] == '+' || s1.rest[0] == '-') {
                lemma_number_loop_len(adv(s1), num.push(ch).push(s1.rest[0]), dp, true, false);
            } else {
                lemma_number_loop_len(s1, num.push(ch), dp, true, false);
            }
        } else if ch == '_' {
            lemma_number_loop_len(s1, num, dp, exp, false);
        }
    }
}

proof fn lemma_ident_loop_len(s: LexState, word: Seq<char>)
    ensures
        ident_loop(s, word).1.rest.len() <= s.rest.len(),
        s.rest.len() > 0 && is_word_char(s.rest[0]) ==> ident_loop(s, word).1.rest.len() < s.rest.len(),
    decreases s.rest.len(),
{
    if s.rest.len() > 0 && is_word_char(s.rest[0]) {
        lemma_ident_loop_len(adv(s), word.push(s.rest[0]));
    }
}

proof fn lemma_string_loop_len(s: LexState, value: Seq<char>)
    ensures
        string_loop(s, value).1.rest.len() <= s.rest.len(),
    decreases s.rest.len(),
{
    if s.rest.len() > 0 {
        let ch = s.rest[0];
        let s1 = adv(s);
        if ch == '\\' {
            if s1.rest.len() > 0 && escape_replacement(s1.rest[0]) is Some {
                lemma_string_loop_len(adv(s1), value.push(escape_replacement(s1.rest[0])->Some_0));
            }
        } else if ch != '"' {
            lemma_string_loop_len(s1, value.push(ch));
        }
    }
}

pub proof fn lemma_skip_comment_len(s: LexState)
    ensures
        skip_comment_loop(s).1.rest.len() <= s.rest.len(),
    decreases s.rest.len(),
{
    if s.rest.len() > 0 && !(s.rest[0] == '\r' || s.rest[0] == '\n') {
        lemma_skip_comment_len(adv(s));
    }
}

/// The result is the end-of-file token.
pub open spec fn is_end_of_file(r: Result<TokenM, LexerError>) -> bool {
    r matches Ok(t) && t.kind == TokenKind::EndOfFile
}

/// One call of the lexer returns; it reads at least one character, unless it
/// gives the end-of-file token at the end of the input or stops at an unknown
/// radix prefix.
pub proof fn lemma_next_token_loop_progress(s: LexState)
    ensures
        next_token_loop(s) is Some,
        s.rest.len() == 0 ==> (next_token_loop(s) matches Some((r, _)) && is_end_of_file(r)),
        next_token_loop(s) matches Some((_, s2)) && s2.rest.len() <= s.rest.len(),
        s.rest.len() > 0 && !bad_radix_at(s) ==> (next_token_loop(s) matches Some((_, s2)) && s2.rest.len() < s.rest.len()),
    decreases s.rest.len(),
{
    if s.rest.len() > 0 {
        let ch = s.rest[0];
        let s1 = adv(s);
        if single_char_kind(ch) is Some || pair_kinds(ch) is Some {
        } else if ch == '/' {
            if peek_at(s, 1) == Some('/') {
                lemma_skip_comment_len(s1);
                let (r, s2) = skip_comment_loop(s1);
                if r is None {
                    lemma_next_token_loop_progress(s2);
                }
            }
        } else if ch == ' ' || ch == '\t' {
            lemma_next_token_loop_progress(upd(s1));
        } else if ch == '\r' || ch == '\n' || is_op_char(ch) {
        } else if '0' <= ch && ch <= '9' {
            lemma_number_loop_len(s, Seq::empty(), false, false, true);
        } else if ('a' <= ch && ch <= 'z') || ('A' <= ch && ch <= 'Z') || ch == '_' {
            lemma_ident_loop_len(s, Seq::empty());
        } else if ch == '"' {
            lemma_string_loop_len(s1, Seq::empty());
        } else {
            lemma_next_token_loop_progress(upd(with_error(s1, LexerError::InvalidCharacter(ch, cur_span(s1)))));
        }
    }
}

/// Each step of reading all tokens reads at least one character, unless it
/// reaches the end of the input.
pub proof fn lemma_tokens_step(s: LexState)
    ensures
        next_token_s(s) is Some,
        next_token_s(s) matches Some((Ok(t), s2)) ==> (t.kind != TokenKind::EndOfFile ==> s2.rest.len() < s.rest.len()),
        next_token_s(s) matches Some((Err(e), s2)) ==> after_error(s2, e).rest.len() < s.rest.len(),
{
    lemma_next_token_loop_progress(upd(s));
    if bad_radix_at(s) {
        lemma_bad_radix_stands_still(s);
        assert(bad_radix_at(upd(s)));
        assert(bad_radix_error(upd(s)) == bad_radix_error(s));
    }
}

proof fn lemma_tokens_loop_total(s: LexState, acc: Seq<TokenM>)
    ensures
        tokens_loop(s, acc) is Some,
        tokens_loop(s, acc) matches Some((ts, _)) ==> ts.len() <= acc.len() + s.rest.len(),
    decreases s.rest.len(),
{
    lemma_tokens_step(s);
    match next_token_s(s) {
        None => {},
        Some((Ok(t), s2)) => {
            if t.kind != TokenKind::EndOfFile {
                lemma_tokens_loop_total(s2, acc.push(t));
            }
        },
        Some((Err(e), s2)) => {
            lemma_tokens_loop_total(after_error(s2, e), acc);
        },
    }
}

/// The lexer returns on every input, with at most one token per character.
pub proof fn lemma_lexing_returns(s: LexState)
    ensures
        tokens_s(s) is Some,
        tokens_s(s)->Some_0.0.len() <= s.rest.len(),
        next_token_s(s) is Some,
{
    lemma_tokens_loop_total(s, Seq::empty());
    lemma_next_token_loop_progress(upd(s));
}

/// At an unknown radix prefix, reading the next token gives its error and
/// reads nothing.
pub proof fn lemma_bad_radix_stands_still(s: LexState)
    requires
        bad_radix_at(s),
    ensures
        next_token_s(s) == Some((Err::<TokenM, LexerError>(bad_radix_error(s)), upd(s))),
{
    let u = upd(s);
    assert(peek_at(u, 1) == peek_at(s, 1));
    assert(peek_at(u, 2) == peek_at(s, 2));
    assert(non_decimal_s(u, Seq::empty()) == Some((Err::<TokenM, LexerError>(bad_radix_error(s)), u, Seq::<char>::empty())));
}

/// Lexing a whole source text returns, with at most one token per character.
pub proof fn lemma_lex_source_returns(input: Seq<char>)
    ensures
        lex_source(input) is Some,
        lex_source(input)->Some_0.0.len() <= input.len(),
{
    lemma_lexing_returns(initial_lex_state(input));
}

} // verus!
