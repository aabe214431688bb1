//! The lexer: turns source text into tokens.

use vstd::prelude::*;
use vstd::string::StrSliceExecFns;
use itertools::PeekNth;
use std::vec::IntoIter;
use crate::span::{CodeLocation, CodeSpan};
use crate::token::{Token, TokenM, TokenKind, NumberLiteralKind, spec_number_token_kind, spec_radix};
use crate::error::{LexerError, push_char};
use crate::stream::{char_stream_items, char_stream_new, char_stream_next, char_stream_peek_nth};
use crate::lexer_spec::{
    LexState, peek_at, adv, upd, newline, cur_span, lwf, lwf_strong, spec_is_digit, spec_is_alphanumeric,
    is_op_char, op_kind, op_assign_kind, single_char_kind, pair_kinds, keyword_kind, escape_replacement,
    lex_lf_s, lex_crlf_s, lex_linebreak_s, lex_operator_s, decimal_kind, number_loop, non_decimal_s, nd_loop,
    ident_loop, keyword_or_ident_s, skip_comment_loop, string_loop, next_token_loop, next_token_s,
    with_error, tokens_loop, tokens_s, initial_lex_state, bad_radix_char, bad_radix_at, after_error,
};

verus! {

/// `char::is_alphanumeric`: Unicode's alphabetic or numeric characters; among
/// ASCII characters exactly the letters and the digits.
#[verifier::external_body]
fn char_is_alphanumeric(c: char) -> (r: bool)
    ensures
        r == spec_is_alphanumeric(c),
        c <= '\x7f' ==> (r <==> (('a' <= c && c <= 'z') || ('A' <= c && c <= 'Z') || ('0' <= c && c <= '9'))),
{
    c.is_alphanumeric()
}

/// Whether `c` after a leading `0` makes an unknown radix prefix.
fn is_bad_radix_char(c: char) -> (r: bool)
    ensures
        r == bad_radix_char(c),
{
    (('a' <= c && c <= 'z') || ('A' <= c && c <= 'Z') || ('0' <= c && c <= '9') || c == '_')
        && c != 'x' && c != 'o' && c != 'b'
}

/// Whether `c` is a digit of the given radix.
pub fn is_digit(c: char, radix: u32) -> (r: bool)
    ensures
        r == spec_is_digit(c, radix),
{
    if '0' <= c && c <= '9' {
        (c as u32) - ('0' as u32) < radix
    } else if 'a' <= c && c <= 'z' {
        (c as u32) - ('a' as u32) + 10 < radix
    } else if 'A' <= c && c <= 'Z' {
        (c as u32) - ('A' as u32) + 10 < radix
    } else {
        false
    }
}

fn single_char_token_kind(c: char) -> (r: Option<TokenKind>)
    ensures
        r == single_char_kind(c),
{
    if c == '.' { Some(TokenKind::Dot) }
    else if c == '@' { Some(TokenKind::At) }
    else if c == ',' { Some(TokenKind::Comma) }
    else if c == '{' { Some(TokenKind::OpenBrace) }
    else if c == '}' { Some(TokenKind::CloseBrace) }
    else if c == '[' { Some(TokenKind::OpenBrack) }
    else if c == ']' { Some(TokenKind::CloseBrack) }
    else if c == '(' { Some(TokenKind::OpenParen) }
    else if c == ')' { Some(TokenKind::CloseParen) }
    else if c == ';' { Some(TokenKind::Semicolon) }
    else { None }
}

fn pair_token_kinds(c: char) -> (r: Option<(TokenKind, TokenKind)>)
    ensures
        r == pair_kinds(c),
{
    if c == '!' { Some((TokenKind::Excl, TokenKind::ExclEquals)) }
    else if c == ':' { Some((TokenKind::Colon, TokenKind::DeclareAssign)) }
    else if c == '=' { Some((TokenKind::Equals, TokenKind::DoubleEquals)) }
    else { None }
}

fn is_operator_char(c: char) -> (r: bool)
    ensures
        r == is_op_char(c),
{
    c == '+' || c == '-' || c == '*' || c == '/' || c == '%' || c == '&' || c == '|' || c == '^'
        || c == '<' || c == '>' || c == '~'
}

fn operator_kind(c: char, assign: bool) -> (r: TokenKind)
    ensures
        r == if assign { op_assign_kind(c) } else { op_kind(c) },
{
    if assign {
        if c == '+' { TokenKind::AddAssign }
        else if c == '-' { TokenKind::SubAssign }
        else if c == '*' { TokenKind::MultAssign }
        else if c == '/' { TokenKind::DivAssign }
        else if c == '%' { TokenKind::ModAssign }
        else if c == '&' { TokenKind::BitAndAssign }
        else if c == '|' { TokenKind::BitOrAssign }
        else if c == '^' { TokenKind::BitXorAssign }
        else if c == '<' { TokenKind::LessOrEqual }
        else if c == '>' { TokenKind::GreaterOrEqual }
        else { TokenKind::BitNotAssign }
    } else {
        if c == '+' { TokenKind::Plus }
        else if c == '-' { TokenKind::Minus }
        else if c == '*' { TokenKind::Star }
        else if c == '/' { TokenKind::Slash }
        else if c == '%' { TokenKind::Percent }
        else if c == '&' { TokenKind::Ampersand }
        else if c == '|' { TokenKind::Pipe }
        else if c == '^' { TokenKind::Caret }
        else if c == '<' { TokenKind::Less }
        else if c == '>' { TokenKind::Greater }
        else { TokenKind::Tilde }
    }
}

fn escape_char(c: char) -> (r: Option<char>)
    ensures
        r == escape_replacement(c),
{
    if c == '\\' { Some('\\') }
    else if c == '"' { Some('"') }
    else if c == 'r' { Some('\r') }
    else if c == 'n' { Some('\n') }
    else if c == '0' { Some('\0') }
    else if c == 't' { Some('\t') }
    else if c == '\'' { Some('\'') }
    else { None }
}

fn string_is(a: &String, lit: &str) -> (r: bool)
    ensures
        r == (a@ == lit@),
{
    let b = String::from_str(lit);
    *a == b
}

fn keyword_kind_of(w: &String) -> (r: Option<TokenKind>)
    ensures
        r == keyword_kind(w@),
{
    if string_is(w, "break") { Some(TokenKind::Break) }
    else if string_is(w, "defer") { Some(TokenKind::Defer) }
    else if string_is(w, "else") { Some(TokenKind::Else) }
    else if string_is(w, "false") { Some(TokenKind::False) }
    else if string_is(w, "fn") { Some(TokenKind::Fn) }
    else if string_is(w, "for") { Some(TokenKind::For) }
    else if string_is(w, "if") { Some(TokenKind::If) }
    else if string_is(w, "impl") { Some(TokenKind::Impl) }
    else if string_is(w, "in") { Some(TokenKind::In) }
    else if string_is(w, "is") { Some(TokenKind::Is) }
    else if string_is(w, "loop") { Some(TokenKind::Loop) }
    else if string_is(w, "next") { Some(TokenKind::Next) }
    else if string_is(w, "ret") { Some(TokenKind::Ret) }
    else if string_is(w, "struct") { Some(TokenKind::Struct) }
    else if string_is(w, "sum") { Some(TokenKind::Sum) }
    else if string_is(w, "true") { Some(TokenKind::True) }
    else if string_is(w, "trait") { Some(TokenKind::Trait) }
    else if string_is(w, "use") { Some(TokenKind::Use) }
    else { None }
}

/// The view of a lexing result.
pub open spec fn res_view(r: Result<Token, LexerError>) -> Result<TokenM, LexerError> {
    match r {
        Ok(t) => Ok(t@),
        Err(e) => Err(e),
    }
}

/// The views of a sequence of tokens.
pub open spec fn tokens_view(ts: Seq<Token>) -> Seq<TokenM> {
    ts.map_values(|t: Token| t@)
}

/// The lexer: reads characters one by one and keeps track of where it stands.
pub struct Lexer {
    chars: PeekNth<IntoIter<char>>,
    last_token_end: CodeLocation,
    location: CodeLocation,
    pub errors: Vec<LexerError>,
}

impl View for Lexer {
    type V = LexState;

    closed spec fn view(&self) -> LexState {
        LexState {
            rest: char_stream_items(self.chars),
            last: self.last_token_end,
            loc: self.location,
            errors: self.errors@,
        }
    }
}

impl Lexer {
    /// A lexer at the start of `input`, at line 1, column 1, with no errors.
    pub fn new(input: &str) -> (r: Self)
        requires
            input@.len() < usize::MAX - 1,
        ensures
            r@ == initial_lex_state(input@),
            lwf(r@),
    {
        let n = input.unicode_len();
        let mut chars: Vec<char> = Vec::new();
        let mut i: usize = 0;
        while i < n
            invariant
                n == input@.len(),
                i <= n,
                chars@ == input@.subrange(0, i as int),
            decreases n - i,
        {
            chars.push(input.get_char(i));
            i = i + 1;
        }
        assert(chars@ == input@);
        Lexer {
            chars: char_stream_new(chars),
            last_token_end: CodeLocation::default(),
            location: CodeLocation::default(),
            errors: Vec::new(),
        }
    }

    /// The errors found so far.
    pub fn errors(&self) -> (r: &Vec<LexerError>)
        ensures
            r@ == self@.errors,
    {
        &self.errors
    }

    /// Reads the whole input: the tokens up to the end of the input, without
    /// the end-of-file token; errors are added to `errors`.
    pub fn tokens(&mut self) -> (r: Vec<Token>)
        requires
            lwf(old(self)@),
        ensures
            tokens_s(old(self)@) == Some((tokens_view(r@), final(self)@)),
    {
        proof { crate::lexer_spec::lemma_lexing_returns(self@); }
        let mut tokens: Vec<Token> = Vec::new();
        let ghost target = tokens_s(self@);
        assert(tokens_view(tokens@) == Seq::<TokenM>::empty());
        loop
            invariant
                target == tokens_s(old(self)@),
                lwf(self@),
                target is Some,
                tokens_loop(self@, tokens_view(tokens@)) == target,
            decreases self@.rest.len(),
        {
            let ghost s0 = self@;
            let ghost acc0 = tokens_view(tokens@);
            match self.next_token() {
                Ok(token) => {
                    if token.kind == TokenKind::EndOfFile {
                        return tokens;
                    } else {
                        let ghost t = token@;
                        tokens.push(token);
                        assert(tokens_view(tokens@) == acc0.push(t));
                    }
                },
                Err(error) => {
                    let ghost s2 = self@;
                    let bad_radix = self.bad_radix_ahead();
                    let here = CodeSpan { start: self.location, end: self.location };
                    let stands_still = bad_radix && error == LexerError::UnexpectedCharacterLexingNonDecimalNumberLiteral(here);
                    self.errors.push(error);
                    assert(self@ == with_error(s2, error));
                    if stands_still {
                        self.advance();
                    }
                    assert(self@ == after_error(s2, error));
                },
            }
        }
    }

    /// Whether the input starts with an unknown radix prefix.
    fn bad_radix_ahead(&mut self) -> (r: bool)
        ensures
            final(self)@ == old(self)@,
            r == bad_radix_at(old(self)@),
    {
        if self.peek_char() != Some('0') {
            return false;
        }
        let p = self.peek_nth_char(1);
        let d = self.peek_nth_char(2);
        match (p, d) {
            (Some(p), Some(d)) => is_bad_radix_char(p) && is_digit(d, 16),
            _ => false,
        }
    }

    fn current_span(&self) -> (r: CodeSpan)
        ensures
            r == cur_span(self@),
    {
        CodeSpan { start: self.last_token_end, end: self.location }
    }

    fn new_token(&self, kind: TokenKind) -> (r: Token)
        ensures
            r@ == crate::token::plain_token(kind, cur_span(self@)),
    {
        Token::new(kind, self.current_span())
    }

    fn count_line_break(&mut self)
        requires
            old(self)@.loc.line < usize::MAX,
        ensures
            final(self)@ == newline(old(self)@),
    {
        self.location.column = 1;
        self.location.line += 1;
    }

    fn update_span(&mut self)
        ensures
            final(self)@ == upd(old(self)@),
    {
        self.last_token_end = self.location;
    }

    fn advance(&mut self) -> (r: Option<char>)
        requires
            old(self)@.loc.column < usize::MAX,
        ensures
            final(self)@ == adv(old(self)@),
            r == peek_at(old(self)@, 0),
    {
        self.location.column += 1;
        char_stream_next(&mut self.chars)
    }

    fn advance_n(&mut self, n: usize)
        requires
            lwf_strong(old(self)@),
            n <= old(self)@.rest.len(),
        ensures
            final(self)@.rest == old(self)@.rest.skip(n as int),
            final(self)@.loc == (CodeLocation { line: old(self)@.loc.line, column: (old(self)@.loc.column + n) as usize }),
            final(self)@.last == old(self)@.last,
            final(self)@.errors == old(self)@.errors,
            lwf_strong(final(self)@),
    {
        let mut i: usize = 0;
        while i < n
            invariant
                i <= n,
                n <= old(self)@.rest.len(),
                lwf_strong(old(self)@),
                lwf_strong(self@),
                self@.rest == old(self)@.rest.skip(i as int),
                self@.loc == (CodeLocation { line: old(self)@.loc.line, column: (old(self)@.loc.column + i) as usize }),
                self@.last == old(self)@.last,
                self@.errors == old(self)@.errors,
            decreases n - i,
        {
            self.advance();
            assert(self@.rest == old(self)@.rest.skip(i + 1));
            i = i + 1;
        }
    }

    fn peek_char(&mut self) -> (r: Option<char>)
        ensures
            final(self)@ == old(self)@,
            r == peek_at(old(self)@, 0),
    {
        char_stream_peek_nth(&mut self.chars, 0)
    }

    fn peek_nth_char(&mut self, n: usize) -> (r: Option<char>)
        requires
            n < usize::MAX,
        ensures
            final(self)@ == old(self)@,
            r == peek_at(old(self)@, n as int),
    {
        char_stream_peek_nth(&mut self.chars, n)
    }

    fn lex_linebreak(&mut self, ch: char) -> (r: Result<Token, LexerError>)
        requires
            lwf_strong(old(self)@),
            old(self)@.rest.len() > 0,
            old(self)@.rest[0] == ch,
            ch == '\n' || ch == '\r',
        ensures
            (res_view(r), final(self)@) == lex_linebreak_s(old(self)@, ch),
            lwf(final(self)@),
    {
        if ch == '\n' {
            return Ok(self.lex_lf());
        }
        self.lex_crlf()
    }

    fn lex_crlf(&mut self) -> (r: Result<Token, LexerError>)
        requires
            lwf_strong(old(self)@),
            old(self)@.rest.len() > 0,
        ensures
            (res_view(r), final(self)@) == lex_crlf_s(old(self)@),
            lwf(final(self)@),
    {
        self.advance();
        if self.peek_char() == Some('\n') {
            self.advance();
            self.update_span();
            self.count_line_break();
            return Ok(self.new_token(TokenKind::LineBreak));
        }
        Err(LexerError::UnknownToken(self.current_span()))
    }

    fn lex_lf(&mut self) -> (r: Token)
        requires
            lwf_strong(old(self)@),
            old(self)@.rest.len() > 0,
        ensures
            (r@, final(self)@) == lex_lf_s(old(self)@),
            lwf(final(self)@),
    {
        self.advance();
        self.update_span();
        self.count_line_break();
        self.new_token(TokenKind::LineBreak)
    }

    /// Skips spaces, tabs and comments and reads the next token; at the end of
    /// the input, the end-of-file token.
    pub fn next_token(&mut self) -> (r: Result<Token, LexerError>)
        requires
            lwf(old(self)@),
        ensures
            next_token_s(old(self)@) == Some((res_view(r), final(self)@)),
            lwf(final(self)@),
    {
        proof { crate::lexer_spec::lemma_lexing_returns(old(self)@); }
        self.update_span();
        let ghost target = next_token_s(old(self)@);
        loop
            invariant
                target == next_token_s(old(self)@),
                lwf(self@),
                target is Some,
                next_token_loop(self@) == target,
            decreases self@.rest.len(),
        {
            let c = self.peek_char();
            match c {
                None => {
                    return Ok(self.new_token(TokenKind::EndOfFile));
                },
                Some(ch) => {
                    if let Some(kind) = single_char_token_kind(ch) {
                        self.advance();
                        return Ok(self.new_token(kind));
                    } else if let Some((single, double)) = pair_token_kinds(ch) {
                        self.advance();
                        if self.peek_char() == Some('=') {
                            self.advance();
                            return Ok(self.new_token(double));
                        }
                        return Ok(self.new_token(single));
                    } else if ch == '/' {
                        if self.peek_nth_char(1) == Some('/') {
                            self.advance();
                            if let Some(token) = self.skip_comment() {
                                return token;
                            } else {
                                continue;
                            }
                        }
                        return self.lex_operator(ch);
                    } else if ch == ' ' || ch == '\t' {
                        self.advance();
                        self.update_span();
                        continue;
                    } else if ch == '\r' || ch == '\n' {
                        return self.lex_linebreak(ch);
                    } else if is_operator_char(ch) {
                        return self.lex_operator(ch);
                    } else if '0' <= ch && ch <= '9' {
                        return self.lex_number();
                    } else if ('a' <= ch && ch <= 'z') || ('A' <= ch && ch <= 'Z') || ch == '_' {
                        return Ok(self.lex_keyword_or_ident());
                    } else if ch == '"' {
                        return self.lex_string_literal();
                    } else {
                        self.advance();
                        let span = self.current_span();
                        self.errors.push(LexerError::InvalidCharacter(ch, span));
                        self.update_span();
                    }
                },
            }
        }
    }

    fn lex_operator(&mut self, ch: char) -> (r: Result<Token, LexerError>)
        requires
            lwf_strong(old(self)@),
            is_op_char(ch),
        ensures
            (res_view(r), final(self)@) == lex_operator_s(old(self)@, ch),
            lwf(final(self)@),
    {
        self.advance();
        if ch == '<' {
            if self.peek_char() == Some('<') {
                self.advance();
                if self.peek_char() == Some('=') {
                    self.advance();
                    return Ok(self.new_token(TokenKind::BitShiftLeftAssign));
                }
                return Ok(self.new_token(TokenKind::BitShiftLeft));
            }
        }
        if ch == '>' {
            if self.peek_char() == Some('>') {
                self.advance();
                if self.peek_char() == Some('=') {
                    self.advance();
                    return Ok(self.new_token(TokenKind::BitShiftRightAssign));
                }
                return Ok(self.new_token(TokenKind::BitShiftRight));
            }
        }
        if self.peek_char() == Some('=') {
            let token_kind = operator_kind(ch, true);
            self.advance();
            return Ok(self.new_token(token_kind));
        } else {
            let token_kind = operator_kind(ch, false);
            return Ok(self.new_token(token_kind));
        }
    }

    fn lex_number(&mut self) -> (r: Result<Token, LexerError>)
        requires
            lwf_strong(old(self)@),
        ensures
            (res_view(r), final(self)@) == number_loop(old(self)@, Seq::empty(), false, false, true),
            lwf(final(self)@),
    {
        let mut num = String::new();
        let mut has_decimal_point = false;
        let mut has_exponent = false;
        let mut first_iter = true;
        let ghost target = number_loop(self@, num@, false, false, true);
        loop
            invariant
                first_iter ==> num@ == Seq::<char>::empty(),
                target == number_loop(old(self)@, Seq::empty(), false, false, true),
                lwf_strong(self@),
                number_loop(self@, num@, has_decimal_point, has_exponent, first_iter) == target,
            ensures
                lwf_strong(self@),
                target == (Ok::<TokenM, LexerError>(crate::token::valued_token(spec_number_token_kind(decimal_kind(has_decimal_point, has_exponent)), num@, cur_span(self@))), self@),
            decreases self@.rest.len(),
        {
            let c = self.peek_char();
            let ch = match c {
                None => break,
                Some(ch) => ch,
            };
            if first_iter && ch == '0' {
                if let Some(lex_result) = self.lex_non_decimal_literal(&mut num) {
                    return lex_result;
                } else {
                    push_char(&mut num, ch);
                    self.advance();
                }
            } else if is_digit(ch, 10) {
                push_char(&mut num, ch);
                self.advance();
            } else if ch == '.' {
                if !has_decimal_point && !has_exponent {
                    has_decimal_point = true;
                    push_char(&mut num, ch);
                    self.advance();
                } else {
                    return Err(LexerError::MultiDecimalPointInNumberLiteral(self.current_span()));
                }
            } else if ch == 'e' || ch == 'E' {
                if !has_exponent {
                    has_exponent = true;
                    push_char(&mut num, ch);
                    self.advance();
                    if let Some(next_ch) = self.peek_char() {
                        if next_ch == '+' || next_ch == '-' {
                            push_char(&mut num, next_ch);
                            self.advance();
                        }
                    }
                } else {
                    break;
                }
            } else if ch == '_' {
                self.advance();
            } else {
                break;
            }
            first_iter = false;
        }
        let kind = if has_exponent {
            NumberLiteralKind::ScientificDecimal
        } else if has_decimal_point {
            NumberLiteralKind::DecimalPoint
        } else {
            NumberLiteralKind::DecimalInteger
        };
        Ok(Token::number_literal(num, kind, self.current_span()))
    }

    fn lex_non_decimal_literal(&mut self, num: &mut String) -> (r: Option<Result<Token, LexerError>>)
        requires
            lwf_strong(old(self)@),
        ensures
            match r {
                Some(res) => non_decimal_s(old(self)@, old(num)@) == Some((res_view(res), final(self)@, final(num)@)),
                None => non_decimal_s(old(self)@, old(num)@) is None && final(self)@ == old(self)@ && final(num)@ == old(num)@,
            },
            lwf(final(self)@),
    {
        let prefix = self.peek_nth_char(1);
        if let Some(prefix) = prefix {
            if prefix == 'x' {
                return Some(self.lex_non_decimal_literal_value(num, NumberLiteralKind::HexadecimalInteger));
            } else if prefix == 'o' {
                return Some(self.lex_non_decimal_literal_value(num, NumberLiteralKind::OctalInteger));
            } else if prefix == 'b' {
                return Some(self.lex_non_decimal_literal_value(num, NumberLiteralKind::BinaryInteger));
            } else if is_bad_radix_char(prefix) {
                if let Some(ch) = self.peek_nth_char(2) {
                    if is_digit(ch, 16) {
                        return Some(Err(LexerError::UnexpectedCharacterLexingNonDecimalNumberLiteral(self.current_span())));
                    }
                }
            }
        }
        None
    }

    fn lex_non_decimal_literal_value(&mut self, num: &mut String, literal_kind: NumberLiteralKind) -> (r: Result<Token, LexerError>)
        requires
            lwf_strong(old(self)@),
            old(self)@.rest.len() >= 2,
        ensures
            (res_view(r), final(self)@, final(num)@) == nd_loop(adv(adv(old(self)@)), literal_kind, literal_kind, old(num)@, false, false, true),
            lwf(final(self)@),
    {
        let mut final_kind = literal_kind;
        let mut has_decimal = false;
        let mut has_exponent = false;
        self.advance_n(2);
        assert(self@.rest =~= adv(adv(old(self)@)).rest);
        assert(self@ == adv(adv(old(self)@)));
        let mut first = true;
        let ghost target = nd_loop(self@, literal_kind, literal_kind, num@, false, false, true);
        loop
            invariant
                target == nd_loop(adv(adv(old(self)@)), literal_kind, literal_kind, old(num)@, false, false, true),
                lwf_strong(self@),
                nd_loop(self@, literal_kind, final_kind, num@, has_decimal, has_exponent, first) == target,
            ensures
                lwf_strong(self@),
                target == (Ok::<TokenM, LexerError>(crate::token::valued_token(spec_number_token_kind(final_kind), num@, crate::span::span_of(self@.last, self@.loc))), self@, num@),
            decreases self@.rest.len(),
        {
            let c = self.peek_char();
            let ch = match c {
                None => break,
                Some(ch) => ch,
            };
            if ch == '_' {
                self.advance();
                continue;
            }
            if literal_kind == NumberLiteralKind::HexadecimalInteger {
                if is_digit(ch, 16) {
                    push_char(num, ch);
                    self.advance();
                } else if ch == '.' && !has_decimal && !has_exponent {
                    has_decimal = true;
                    final_kind = NumberLiteralKind::ScientificHex;
                    push_char(num, ch);
                    self.advance();
                } else if (ch == 'p' || ch == 'P') && !has_exponent {
                    has_exponent = true;
                    final_kind = NumberLiteralKind::ScientificHex;
                    push_char(num, ch);
                    self.advance();
                    if let Some(next_ch) = self.peek_char() {
                        if next_ch == '+' || next_ch == '-' {
                            push_char(num, next_ch);
                            self.advance();
                        }
                    }
                } else {
                    break;
                }
            } else {
                if is_digit(ch, literal_kind.get_radix()) {
                    push_char(num, ch);
                    self.advance();
                } else if is_digit(ch, 16) || first {
                    return Err(LexerError::UnexpectedCharacterLexingNonDecimalNumberLiteral(self.current_span()));
                } else {
                    break;
                }
            }
            first = false;
        }
        Ok(Token::number_literal(num.clone(), final_kind, CodeSpan { start: self.last_token_end, end: self.location }))
    }

    fn lex_keyword_or_ident(&mut self) -> (r: Token)
        requires
            lwf_strong(old(self)@),
        ensures
            (r@, final(self)@) == keyword_or_ident_s(old(self)@),
            lwf(final(self)@),
    {
        let mut ident = String::new();
        let ghost target = ident_loop(self@, ident@);
        loop
            invariant
                target == ident_loop(old(self)@, Seq::empty()),
                lwf_strong(self@),
                ident_loop(self@, ident@) == target,
            ensures
                lwf_strong(self@),
                target == (ident@, self@),
            decreases self@.rest.len(),
        {
            let c = self.peek_char();
            let ch = match c {
                None => break,
                Some(ch) => ch,
            };
            if char_is_alphanumeric(ch) || ch == '_' {
                push_char(&mut ident, ch);
                self.advance();
            } else {
                break;
            }
        }
        match keyword_kind_of(&ident) {
            Some(kind) => self.new_token(kind),
            None => Token::ident(ident, CodeSpan { start: self.last_token_end, end: self.location }),
        }
    }

    fn skip_comment(&mut self) -> (r: Option<Result<Token, LexerError>>)
        requires
            lwf_strong(old(self)@),
        ensures
            (match r {
                Some(res) => Some(res_view(res)),
                None => None,
            }, final(self)@) == skip_comment_loop(old(self)@),
            lwf(final(self)@),
    {
        let mut line_break: Option<Result<Token, LexerError>> = None;
        let ghost target = skip_comment_loop(self@);
        loop
            invariant
                target == skip_comment_loop(old(self)@),
                lwf_strong(self@),
                line_break is None,
                skip_comment_loop(self@) == target,
            ensures
                lwf_strong(self@),
                line_break is None,
                target == (None::<Result<TokenM, LexerError>>, upd(self@)),
            decreases self@.rest.len(),
        {
            let c = self.peek_char();
            let ch = match c {
                None => break,
                Some(ch) => ch,
            };
            if ch == '\r' || ch == '\n' {
                let lb = self.lex_linebreak(ch);
                line_break = Some(lb);
                self.update_span();
                return line_break;
            } else {
                self.advance();
            }
        }
        self.update_span();
        line_break
    }

    fn lex_string_literal(&mut self) -> (r: Result<Token, LexerError>)
        requires
            lwf_strong(old(self)@),
            old(self)@.rest.len() > 0,
        ensures
            (res_view(r), final(self)@) == string_loop(adv(old(self)@), Seq::empty()),
            lwf(final(self)@),
    {
        self.advance();
        let mut value = String::new();
        let mut ends_by_quote = false;
        let ghost target = string_loop(self@, value@);
        loop
            invariant
                target == string_loop(adv(old(self)@), Seq::empty()),
                lwf_strong(self@),
                !ends_by_quote,
                string_loop(self@, value@) == target,
            ensures
                lwf_strong(self@),
                !ends_by_quote,
                target == (Err::<TokenM, LexerError>(LexerError::UnterminatedStringLiteral(cur_span(self@))), self@),
            decreases self@.rest.len(),
        {
            let c = self.peek_char();
            let ch = match c {
                None => break,
                Some(ch) => ch,
            };
            self.advance();
            if ch == '\\' {
                self.handle_escape_character(&mut value)?;
            } else if ch == '"' {
                ends_by_quote = true;
                return Ok(Token::string_literal(value, self.current_span()));
            } else {
                push_char(&mut value, ch);
            }
        }
        if ends_by_quote {
            Ok(Token::string_literal(value, self.current_span()))
        } else {
            Err(LexerError::UnterminatedStringLiteral(self.current_span()))
        }
    }

    fn handle_escape_character(&mut self, literal: &mut String) -> (r: Result<(), LexerError>)
        requires
            lwf_strong(old(self)@),
        ensures
            old(self)@.rest.len() > 0 && escape_replacement(old(self)@.rest[0]) is Some ==> {
                &&& r is Ok
                &&& final(self)@ == adv(old(self)@)
                &&& final(literal)@ == old(literal)@.push(escape_replacement(old(self)@.rest[0])->Some_0)
            },
            !(old(self)@.rest.len() > 0 && escape_replacement(old(self)@.rest[0]) is Some) ==> {
                &&& r == Err::<(), LexerError>(LexerError::UnknownEscapeCharacter(cur_span(old(self)@)))
                &&& final(self)@ == old(self)@
                &&& final(literal)@ == old(literal)@
            },
            lwf_strong(final(self)@),
    {
        if let Some(ch) = self.peek_char() {
            if let Some(replacement) = escape_char(ch) {
                self.advance();
                push_char(literal, replacement);
                return Ok(());
            }
        }
        Err(LexerError::UnknownEscapeCharacter(self.current_span()))
    }
}

} // verus!
