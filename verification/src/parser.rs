//! The parser: turns tokens into the declarations of a program.

use vstd::prelude::*;
use vstd::string::StrSliceExecFns;
use itertools::PeekNth;
use std::vec::IntoIter;
use std::collections::VecDeque;
use crate::span::{CodeSpan, span_of};
use crate::token::{Token, TokenM, TokenKind, NumberLiteralKind, spec_number_kind_of};
use crate::op::{UnaryOp, BinaryOp};
use crate::error::{ParserError, ParserErrorM, opt_token_m, unexpected};
use crate::stream::{token_stream_items, token_stream_new, token_stream_next, token_stream_peek_nth};
use crate::lexer::tokens_view;
use crate::parser_laws::{fits, carries_text, all_carry_texts};
use crate::ast::{
    Ast, Ident, ModulePath, TypeExpr, Expr, ExprKind, ExprM, ExprKindM, Stmt, StmtKind, StmtM, StmtKindM, CodeBlock,
    GenericParam, TraitBound, TypedVar, FnSignature, Decl, DeclKind, Variant, VariantData,
    ident_m, idents_m, type_m, types_m, strings_m, decls_m, decl_m, expr_m, exprs_m, stmt_m, stmts_m,
    generic_param_m, generic_params_m, trait_bound_m, trait_bounds_m, typed_var_m, typed_vars_m,
    fn_signature_m, fn_signatures_m, variant_m, variants_m, variant_data_m,
    lemma_types_m_push, lemma_exprs_m_push, lemma_stmts_m_push,
};
use crate::parser_spec::{
    PState, PRes, p_peek, p_adv, p_adv_n, next_is, next_is_any, next_kind, cur_value, end_of, skip_kind, skip_kinds,
    skip_lt, skip_unless, line_terminators, consume, consume_any, path_loop, sp_path_or_ident, lemma_path_loop_len,
    all_digits, digits_value, spec_parse_usize, sp_type_expr, sp_type_list, msg_type_arg, err_at_next, next_span,
    sp_call_type_args, sp_expr, sp_expr_loop, sp_prefix, sp_for_loop, sp_if_else, sp_array_literal,
    sp_array_elems, sp_fn_call_args, sp_call_args, sp_code_block, sp_block_stmts, sp_stmt, sp_expr_stmt,
    decl_stop, decl_separator, separator_msg, sp_var_decl, sp_ret, sp_defer, sp_break, push_error, push_decl, keeps, grows, expression_mode_result,
    sp_generic_params, sp_bounds, sp_generic_param_list, sp_impl_traits, sp_impl_list, sp_params, sp_fn_signature,
    sp_fn_decl, sp_use_decl, sp_struct_fields, sp_struct_decl, sp_tuple_types, sp_variant_fields, sp_variant_data,
    sp_variants, sp_sum_decl, sp_methods, sp_trait_decl, decl_start_kinds, sp_decl_at, sp_top_level, sp_parse,
};

verus! {

/// The views of the parser's errors.
pub open spec fn errors_m(s: Seq<ParserError>) -> Seq<ParserErrorM> {
    s.map_values(|e: ParserError| e@)
}

/// A parser result agrees with the outcome `sp`, `f` giving the model of a value.
pub open spec fn agrees<T, M>(sp: PRes<M>, r: Result<T, ParserError>, s: PState, f: spec_fn(T) -> M) -> bool {
    match r {
        Ok(v) => sp == PRes::Done(f(v), s),
        Err(e) => sp == PRes::<M>::Fail(e@, s),
    }
}

/// The token count is below `usize::MAX`, so positions among them cannot overflow.
pub open spec fn pwf(s: PState) -> bool {
    s.rest.len() < usize::MAX
}

proof fn lemma_digits_prefix(d: Seq<char>, k: int)
    requires
        0 <= k <= d.len(),
        all_digits(d),
    ensures
        digits_value(d.take(k)) <= digits_value(d),
        digits_value(d.take(k)) >= 0,
    decreases d.len() - k,
{
    if k < d.len() {
        lemma_digits_prefix(d, k + 1);
        assert(d.take(k + 1).drop_last() =~= d.take(k));
        assert(d.take(k + 1).last() == d[k]);
    } else {
        assert(d.take(k) =~= d);
    }
    lemma_digits_nonneg(d.take(k));
}

proof fn lemma_digits_nonneg(d: Seq<char>)
    requires
        all_digits(d),
    ensures
        digits_value(d) >= 0,
    decreases d.len(),
{
    if d.len() > 0 {
        assert(all_digits(d.drop_last()));
        lemma_digits_nonneg(d.drop_last());
        assert('0' <= d[d.len() - 1]);
    }
}

/// `str::parse::<usize>` on a text: an optional `+`, then decimal digits whose value fits.
pub fn parse_usize(s: &String) -> (r: Option<usize>)
    ensures
        r == spec_parse_usize(s@),
{
    let t = s.as_str();
    let n = t.unicode_len();
    let mut start: usize = 0;
    if n > 0 && t.get_char(0) == '+' {
        start = 1;
    }
    let ghost d = if s@.len() > 0 && s@[0] == '+' { s@.drop_first() } else { s@ };
    assert(d =~= s@.subrange(start as int, n as int));
    if start == n {
        assert(d.len() == 0);
        return None;
    }
    let mut v: usize = 0;
    let mut i: usize = start;
    while i < n
        invariant
            t@ == s@,
            n == s@.len(),
            start <= i <= n,
            start < n,
            d =~= s@.subrange(start as int, n as int),
            d == (if s@.len() > 0 && s@[0] == '+' { s@.drop_first() } else { s@ }),
            all_digits(d.take(i - start)),
            v == digits_value(d.take(i - start)),
        decreases n - i,
    {
        let c = t.get_char(i);
        assert(c == d[i - start]);
        if c < '0' || c > '9' {
            assert(!all_digits(d));
            return None;
        }
        let dgt = ((c as u32) - ('0' as u32)) as usize;
        assert(d.take(i + 1 - start).drop_last() =~= d.take(i - start));
        assert(all_digits(d.take(i + 1 - start)));
        match v.checked_mul(10) {
            Some(v10) => match v10.checked_add(dgt) {
                Some(v2) => {
                    v = v2;
                },
                None => {
                    proof {
                        let k = (i + 1 - start) as int;
                        assert(d.take(k).last() == c);
                        assert(digits_value(d.take(k)) == v * 10 + dgt);
                        if all_digits(d) {
                            lemma_digits_prefix(d, k);
                        }
                    }
                    return None;
                },
            },
            None => {
                proof {
                    if all_digits(d) {
                        lemma_digits_prefix(d, i + 1 - start);
                        lemma_digits_nonneg(d.take(i - start));
                    }
                }
                return None;
            },
        }
        i = i + 1;
    }
    assert(d.take(n - start) =~= d);
    Some(v)
}

/// The parser: reads tokens one by one and collects declarations and errors.
pub struct Parser {
    token_stream: PeekNth<IntoIter<Token>>,
    current_token: Option<Token>,
    ast: Ast,
    pub errors: Vec<ParserError>,
    only_expr: bool,
}

impl View for Parser {
    type V = PState;

    closed spec fn view(&self) -> PState {
        PState {
            rest: tokens_view(token_stream_items(self.token_stream)),
            cur: opt_token_m(self.current_token),
            ast: decls_m(self.ast@),
            errors: errors_m(self.errors@),
            only_expr: self.only_expr,
        }
    }
}

/// Whether each identifier, string literal and number literal among `tokens`
/// carries its text, so that a parser over them can run to the end.
pub fn tokens_carry_texts(tokens: &Vec<Token>) -> (r: bool)
    ensures
        r == all_carry_texts(tokens_view(tokens@)),
{
    let mut i: usize = 0;
    while i < tokens.len()
        invariant
            i <= tokens@.len(),
            forall|j: int| 0 <= j < i ==> #[trigger] carries_text(tokens_view(tokens@)[j]),
        decreases tokens@.len() - i,
    {
        let t = &tokens[i];
        let needs_text = t.kind == TokenKind::Ident || t.kind == TokenKind::StringLiteral || t.is_number_literal();
        if needs_text && t.value.is_none() {
            assert(!carries_text(tokens_view(tokens@)[i as int]));
            return false;
        }
        i = i + 1;
    }
    true
}

impl Parser {
    /// A parser over `tokens`; with `only_expr` it parses a single expression.
    pub fn new(tokens: Vec<Token>, only_expr: bool) -> (r: Self)
        requires
            tokens@.len() < usize::MAX,
        ensures
            r@ == crate::parser_spec::initial_parse_state(tokens_view(tokens@), only_expr),
    {
        let parser = Parser {
            token_stream: token_stream_new(tokens),
            current_token: None,
            ast: Vec::new(),
            errors: Vec::new(),
            only_expr,
        };
        assert(parser@.ast =~= Seq::<crate::ast::DeclM>::empty());
        assert(parser@.errors =~= Seq::<ParserErrorM>::empty());
        parser
    }

    /// The span of the current token.
    pub fn start_span_at_current(&self) -> (r: CodeSpan)
        requires
            self@.cur is Some,
        ensures
            r == self@.cur->Some_0.span,
    {
        self.unwrap_current_token().span
    }

    /// The span of the next token; the span at the start of the file where
    /// there is none.
    pub fn start_span_at_next(&mut self) -> (r: CodeSpan)
        ensures
            r == next_span(old(self)@),
            final(self)@ == old(self)@,
    {
        match self.peek() {
            Some(t) => t.span,
            None => CodeSpan::default(),
        }
    }

    /// Sets the end of `span` to the end of the current token.
    pub fn end_span(&self, span: &mut CodeSpan)
        requires
            self@.cur is Some,
        ensures
            *final(span) == span_of(old(span).start, self@.cur->Some_0.span.end),
    {
        span.end = self.unwrap_current_token().span.end;
    }

    fn unwrap_current_token(&self) -> (r: Token)
        requires
            self@.cur is Some,
        ensures
            Some(r@) == self@.cur,
    {
        match &self.current_token {
            Some(t) => t.clone(),
            None => Token::new(TokenKind::EndOfFile, CodeSpan::default()),
        }
    }

    fn current_token(&self) -> (r: Option<Token>)
        ensures
            opt_token_m(r) == self@.cur,
    {
        match &self.current_token {
            Some(t) => Some(t.clone()),
            None => None,
        }
    }

    fn advance(&mut self) -> (r: Option<Token>)
        ensures
            final(self)@ == p_adv(old(self)@),
            opt_token_m(r) == final(self)@.cur,
    {
        let ghost items = token_stream_items(self.token_stream);
        self.current_token = token_stream_next(&mut self.token_stream);
        proof {
            if items.len() > 0 {
                assert(tokens_view(items.drop_first()) =~= tokens_view(items).drop_first());
            }
        }
        self.current_token()
    }

    /// Reads `n` tokens.
    fn advance_n(&mut self, n: usize)
        ensures
            final(self)@ == p_adv_n(old(self)@, n as nat),
            final(self)@.rest.len() <= old(self)@.rest.len(),
    {
        let mut i: usize = 0;
        while i < n
            invariant
                i <= n,
                self@ == p_adv_n(old(self)@, i as nat),
                self@.rest.len() <= old(self)@.rest.len(),
            decreases n - i,
        {
            self.advance();
            i = i + 1;
        }
    }

    fn peek(&mut self) -> (r: Option<Token>)
        ensures
            final(self)@ == old(self)@,
            opt_token_m(r) == p_peek(old(self)@),
    {
        token_stream_peek_nth(&mut self.token_stream, 0)
    }

    fn at_end(&mut self) -> (r: bool)
        ensures
            final(self)@ == old(self)@,
            r == (old(self)@.rest.len() == 0),
    {
        self.peek().is_none()
    }

    fn peek_nth(&mut self, n: usize) -> (r: Option<Token>)
        requires
            n < usize::MAX,
        ensures
            final(self)@ == old(self)@,
            opt_token_m(r) == if n < old(self)@.rest.len() { Some(old(self)@.rest[n as int]) } else { None },
    {
        token_stream_peek_nth(&mut self.token_stream, n)
    }

    fn skip_tokens(&mut self, token_kind: TokenKind)
        ensures
            final(self)@ == skip_kind(old(self)@, token_kind),
            final(self)@.rest.len() <= old(self)@.rest.len(),
            keeps(old(self)@, final(self)@),
    {
        loop
            invariant
                skip_kind(self@, token_kind) == skip_kind(old(self)@, token_kind),
                self@.rest.len() <= old(self)@.rest.len(),
                keeps(old(self)@, self@),
            ensures
                self@ == skip_kind(old(self)@, token_kind),
            decreases self@.rest.len(),
        {
            match self.peek() {
                Some(token) => {
                    if token.is_of_kind(token_kind) {
                        self.advance();
                    } else {
                        break;
                    }
                },
                None => break,
            }
        }
    }

    fn skip_tokens_of_kinds(&mut self, token_kinds: &[TokenKind])
        ensures
            final(self)@ == skip_kinds(old(self)@, token_kinds@),
            final(self)@.rest.len() <= old(self)@.rest.len(),
            keeps(old(self)@, final(self)@),
    {
        loop
            invariant
                skip_kinds(self@, token_kinds@) == skip_kinds(old(self)@, token_kinds@),
                self@.rest.len() <= old(self)@.rest.len(),
                keeps(old(self)@, self@),
            ensures
                self@ == skip_kinds(old(self)@, token_kinds@),
            decreases self@.rest.len(),
        {
            match self.peek() {
                Some(token) => {
                    if token.is_of_any_kinds(token_kinds) {
                        self.advance();
                    } else {
                        break;
                    }
                },
                None => break,
            }
        }
    }

    /// Skips tokens until the next one is of one of the given kinds.
    fn skip_tokens_unless_of_kinds(&mut self, token_kinds: &[TokenKind])
        ensures
            final(self)@ == skip_unless(old(self)@, token_kinds@),
            final(self)@.rest.len() <= old(self)@.rest.len(),
            keeps(old(self)@, final(self)@),
    {
        loop
            invariant
                skip_unless(self@, token_kinds@) == skip_unless(old(self)@, token_kinds@),
                self@.rest.len() <= old(self)@.rest.len(),
                keeps(old(self)@, self@),
            ensures
                self@ == skip_unless(old(self)@, token_kinds@),
            decreases self@.rest.len(),
        {
            match self.peek() {
                Some(_) => {
                    if !self.is_next_of_kinds(token_kinds) {
                        self.advance();
                    } else {
                        break;
                    }
                },
                None => break,
            }
        }
    }

    fn skip_line_terminators(&mut self)
        ensures
            final(self)@ == skip_lt(old(self)@),
            final(self)@.rest.len() <= old(self)@.rest.len(),
            keeps(old(self)@, final(self)@),
    {
        let kinds = [TokenKind::LineBreak, TokenKind::Semicolon];
        assert(kinds@ =~= line_terminators());
        self.skip_tokens_of_kinds(&kinds);
    }

    /// Reads the next token if it is of one of the given kinds.
    fn matches_any_advance(&mut self, tokens: &[TokenKind]) -> (r: bool)
        ensures
            r == next_is_any(old(self)@, tokens@),
            final(self)@ == if r { p_adv(old(self)@) } else { old(self)@ },
    {
        if self.is_next_of_kinds(tokens) {
            self.advance();
            return true;
        }
        false
    }

    /// Reads the next token if it is of the given kind.
    fn matches_advance(&mut self, token_kind: TokenKind) -> (r: bool)
        ensures
            r == next_is(old(self)@, token_kind),
            final(self)@ == if r { p_adv(old(self)@) } else { old(self)@ },
    {
        if self.is_next_of_kind(token_kind) {
            self.advance();
            return true;
        }
        false
    }

    fn matches_any(&mut self, token_kinds: &[TokenKind]) -> (r: bool)
        ensures
            r == next_is_any(old(self)@, token_kinds@),
            final(self)@ == old(self)@,
    {
        if self.is_next_of_kinds(token_kinds) {
            return true;
        }
        false
    }

    fn matches(&mut self, token_kind: TokenKind) -> (r: bool)
        ensures
            r == next_is(old(self)@, token_kind),
            final(self)@ == old(self)@,
    {
        if self.is_next_of_kind(token_kind) {
            return true;
        }
        false
    }

    /// Whether the next tokens are of the given kinds in a row (as far as there are tokens).
    fn matches_in_row(&mut self, token_kinds: &[TokenKind]) -> (r: bool)
        requires
            token_kinds@.len() < usize::MAX,
        ensures
            r == forall|n: int| 0 <= n < token_kinds@.len() && n < old(self)@.rest.len()
                ==> old(self)@.rest[n].kind == #[trigger] token_kinds@[n],
            final(self)@ == old(self)@,
    {
        let mut n: usize = 0;
        while n < token_kinds.len()
            invariant
                self@ == old(self)@,
                n <= token_kinds@.len(),
                token_kinds@.len() < usize::MAX,
                forall|m: int| 0 <= m < n && m < old(self)@.rest.len() ==> old(self)@.rest[m].kind == #[trigger] token_kinds@[m],
            decreases token_kinds@.len() - n,
        {
            if let Some(peeked_token) = self.peek_nth(n) {
                if peeked_token.kind != token_kinds[n] {
                    return false;
                }
            }
            n = n + 1;
        }
        true
    }

    fn is_next_of_kind(&mut self, token_kind: TokenKind) -> (r: bool)
        ensures
            r == next_is(old(self)@, token_kind),
            final(self)@ == old(self)@,
    {
        if let Some(current_token) = self.peek() {
            if token_kind == current_token.kind && token_kind != TokenKind::EndOfFile {
                return true;
            }
        }
        false
    }

    fn is_next_of_kinds(&mut self, token_kinds: &[TokenKind]) -> (r: bool)
        ensures
            r == next_is_any(old(self)@, token_kinds@),
            final(self)@ == old(self)@,
    {
        let mut i: usize = 0;
        while i < token_kinds.len()
            invariant
                self@ == old(self)@,
                i <= token_kinds@.len(),
                forall|j: int| 0 <= j < i ==> !next_is(old(self)@, #[trigger] token_kinds@[j]),
            decreases token_kinds@.len() - i,
        {
            if self.is_next_of_kind(token_kinds[i]) {
                return true;
            }
            i = i + 1;
        }
        proof {
            if next_is_any(old(self)@, token_kinds@) {
                let j = choose|j: int| 0 <= j < token_kinds@.len() && token_kinds@[j] == old(self)@.rest[0].kind;
                assert(next_is(old(self)@, token_kinds@[j]));
            }
        }
        false
    }

    /// Reads a token of the given kind, or fails with `msg` at the next token.
    pub fn try_consume_token(&mut self, token_kind: TokenKind, msg: &str) -> (r: Result<(), ParserError>)
        ensures
            agrees(consume(old(self)@, token_kind, msg@), r, final(self)@, |u: ()| u),
    {
        if self.is_next_of_kind(token_kind) {
            self.advance();
            return Ok(());
        }
        let token = self.peek();
        let span = match &token {
            Some(t) => t.span,
            None => CodeSpan::default(),
        };
        Err(ParserError::unexpected_token(msg, token, span))
    }

    /// Reads a token of one of the given kinds, or fails with `msg` at the next token.
    pub fn try_consume_token2(&mut self, token_kinds: &[TokenKind], msg: &str) -> (r: Result<(), ParserError>)
        ensures
            agrees(consume_any(old(self)@, token_kinds@, msg@), r, final(self)@, |u: ()| u),
    {
        if self.is_next_of_kinds(token_kinds) {
            self.advance();
            return Ok(());
        }
        let token = self.peek();
        let span = match &token {
            Some(t) => t.span,
            None => CodeSpan::default(),
        };
        Err(ParserError::unexpected_token(msg, token, span))
    }

    /// Reads a line break or a semicolon.
    fn consume_line_terminator(&mut self) -> (r: Result<(), ParserError>)
        requires
            consume_any(old(self)@, line_terminators(), "Expected line break or ;"@) !is Stuck,
        ensures
            agrees(consume_any(old(self)@, line_terminators(), "Expected line break or ;"@), r, final(self)@, |u: ()| u),
    {
        let kinds = [TokenKind::LineBreak, TokenKind::Semicolon];
        assert(kinds@ =~= line_terminators());
        self.try_consume_token2(&kinds, "Expected line break or ;")
    }

    /// Parses a path or a simple identifier whose first part is the current token.
    fn parse_path_or_ident(&mut self) -> (r: Ident)
        requires
            sp_path_or_ident(old(self)@) is Some,
        ensures
            sp_path_or_ident(old(self)@) == Some((ident_m(r), final(self)@)),
            keeps(old(self)@, final(self)@),
    {
        let first_ident = self.unwrap_current_token().unwrap_value();
        let mut path_parts: VecDeque<String> = VecDeque::new();
        path_parts.push_back(first_ident);
        let ghost target = path_loop(self@, seq![first_ident@]);
        assert(strings_m(path_parts@) =~= seq![first_ident@]);
        loop
            invariant
                target == path_loop(old(self)@, seq![first_ident@]),
                target is Some,
                path_loop(self@, strings_m(path_parts@)) == target,
                keeps(old(self)@, self@),
            ensures
                target == Some((strings_m(path_parts@), self@)),
            decreases self@.rest.len(),
        {
            if !self.is_next_of_kind(TokenKind::Colon) {
                break;
            }
            if let Some(next_token) = self.peek_nth(1) {
                if next_token.kind == TokenKind::Ident {
                    self.advance();
                    self.advance();
                    let part = self.unwrap_current_token().unwrap_value();
                    let ghost before = strings_m(path_parts@);
                    path_parts.push_back(part);
                    assert(strings_m(path_parts@) =~= before.push(part@));
                    continue;
                }
            }
            break;
        }
        proof {
            lemma_path_loop_len(old(self)@, seq![first_ident@]);
        }
        if path_parts.len() > 1 {
            let ghost parts = strings_m(path_parts@);
            let ident_name = match path_parts.pop_back() {
                Some(n) => n,
                None => String::new(),
            };
            assert(strings_m(path_parts@) =~= parts.drop_last());
            let prefix_path = ModulePath { path: path_parts };
            Ident::WithModulePrefix(prefix_path, ident_name)
        } else {
            let name = match path_parts.pop_front() {
                Some(n) => n,
                None => String::new(),
            };
            Ident::Simple(name)
        }
    }

    /// Parses a type expression.
    fn parse_type_expr(&mut self) -> (r: Result<TypeExpr, ParserError>)
        requires
            sp_type_expr(old(self)@) !is Stuck,
        ensures
            agrees(sp_type_expr(old(self)@), r, final(self)@, |t: TypeExpr| type_m(t)),
            final(self)@.rest.len() <= old(self)@.rest.len(),
            keeps(old(self)@, final(self)@),
        decreases old(self)@.rest.len(), 1nat,
    {
        if self.at_end() {
            return Err(ParserError::unexpected_token("Expected type expression", None, CodeSpan::default()));
        }
        let mut span = self.start_span_at_next();
        let mut array_length: Option<usize> = None;
        if self.matches_advance(TokenKind::OpenBrack) {
            let kinds = [TokenKind::DecimalIntegerNumberLiteral];
            assert(kinds@ =~= seq![TokenKind::DecimalIntegerNumberLiteral]);
            if self.matches_any_advance(&kinds) {
                let current = self.unwrap_current_token();
                let text = current.unwrap_value();
                let length = match parse_usize(&text) {
                    Some(n) => n,
                    None => {
                        let span = current.span;
                        return Err(ParserError::unexpected_token("Array length out of range", Some(current), span));
                    },
                };
                array_length = Some(length);
            }
            self.try_consume_token(TokenKind::CloseBrack, "Expected closed bracket ']'")?;
            let inner = self.parse_type_expr()?;
            return Ok(TypeExpr::Array { length: array_length, type_expr: Box::new(inner) });
        }
        if self.matches_advance(TokenKind::Star) {
            return Ok(TypeExpr::pointer(self.parse_type_expr()?));
        }
        let kinds = [TokenKind::Ident];
        assert(kinds@ =~= seq![TokenKind::Ident]);
        if self.matches_any_advance(&kinds) {
            proof { crate::parser_spec::lemma_path_len(self@); }
            let base_ident = self.parse_path_or_ident();
            if self.matches_advance(TokenKind::OpenBrack) {
                let generic_params = if self.matches_advance(TokenKind::CloseBrack) {
                    let empty: Vec<TypeExpr> = Vec::new();
                    assert(types_m(empty@) =~= Seq::<crate::ast::TypeExprM>::empty());
                    empty
                } else {
                    self.parse_type_list("Expected ',' or ']' after generic type argument")?
                };
                return Ok(TypeExpr::Generic { ident: base_ident, params: generic_params });
            }
            return Ok(TypeExpr::Ident(base_ident));
        }
        self.end_span(&mut span);
        ParserError::unexpected_token("Expected type expression", self.peek(), span).wrap()
    }

    /// Parses type expressions separated by commas up to `]`.
    fn parse_type_list(&mut self, msg: &str) -> (r: Result<Vec<TypeExpr>, ParserError>)
        requires
            sp_type_list(old(self)@, Seq::empty(), msg@) !is Stuck,
        ensures
            agrees(sp_type_list(old(self)@, Seq::empty(), msg@), r, final(self)@, |v: Vec<TypeExpr>| types_m(v@)),
            final(self)@.rest.len() <= old(self)@.rest.len(),
            keeps(old(self)@, final(self)@),
        decreases old(self)@.rest.len(), 2nat,
    {
        let mut params: Vec<TypeExpr> = Vec::new();
        let ghost target = sp_type_list(self@, Seq::empty(), msg@);
        loop
            invariant
                target == sp_type_list(old(self)@, Seq::empty(), msg@),
                target !is Stuck,
                sp_type_list(self@, types_m(params@), msg@) == target,
                self@.rest.len() <= old(self)@.rest.len(),
                keeps(old(self)@, self@),
            decreases self@.rest.len(),
        {
            let ghost s0 = self@;
            self.skip_line_terminators();
            proof { crate::parser_spec::lemma_skip_kinds_len(s0, line_terminators()); }
            let t = self.parse_type_expr()?;
            proof { lemma_types_m_push(params@, t); }
            params.push(t);
            self.skip_line_terminators();
            if self.matches_advance(TokenKind::CloseBrack) {
                return Ok(params);
            }
            if self.matches_advance(TokenKind::Comma) {
                continue;
            }
            let token = self.peek();
            let span = match &token {
                Some(t) => t.span,
                None => CodeSpan::default(),
            };
            return Err(ParserError::unexpected_token(msg, token, span));
        }
    }

    /// The error `msg` at the next token, if any.
    fn error_at_next(&mut self, msg: &str) -> (r: ParserError)
        ensures
            final(self)@ == old(self)@,
            r@ == unexpected(msg@, p_peek(old(self)@), next_span(old(self)@)),
    {
        let token = self.peek();
        let span = match &token {
            Some(t) => t.span,
            None => CodeSpan::default(),
        };
        ParserError::unexpected_token(msg, token, span)
    }

    /// The type arguments of an explicit generic call, after `[`, up to `]`.
    fn parse_call_type_args(&mut self, span: CodeSpan) -> (r: Result<Vec<TypeExpr>, ParserError>)
        requires
            sp_call_type_args(old(self)@, Seq::empty(), span) !is Stuck,
        ensures
            agrees(sp_call_type_args(old(self)@, Seq::empty(), span), r, final(self)@, |v: Vec<TypeExpr>| types_m(v@)),
            final(self)@.rest.len() <= old(self)@.rest.len(),
            keeps(old(self)@, final(self)@),
    {
        let mut type_args: Vec<TypeExpr> = Vec::new();
        let ghost target = sp_call_type_args(self@, Seq::empty(), span);
        loop
            invariant
                target == sp_call_type_args(old(self)@, Seq::empty(), span),
                target !is Stuck,
                sp_call_type_args(self@, types_m(type_args@), span) == target,
                self@.rest.len() <= old(self)@.rest.len(),
                keeps(old(self)@, self@),
            decreases self@.rest.len(),
        {
            let ghost s0 = self@;
            self.skip_line_terminators();
            proof { crate::parser_spec::lemma_skip_kinds_len(s0, line_terminators()); }
            let t = self.parse_type_expr()?;
            proof { lemma_types_m_push(type_args@, t); }
            type_args.push(t);
            self.skip_line_terminators();
            if self.matches_advance(TokenKind::CloseBrack) {
                return Ok(type_args);
            }
            if self.matches_advance(TokenKind::Comma) {
                continue;
            }
            return ParserError::unexpected_token("Expected ',' or ']'", self.peek(), span).wrap();
        }
    }

    /// Parses an expression whose operators bind at least as tightly as `min_bp`.
    fn expr(&mut self, min_bp: u8) -> (r: Result<Expr, ParserError>)
        requires
            pwf(old(self)@),
            sp_expr(old(self)@, min_bp) !is Stuck,
        ensures
            agrees(sp_expr(old(self)@, min_bp), r, final(self)@, |e: Expr| expr_m(e)),
            final(self)@.rest.len() <= old(self)@.rest.len(),
            keeps(old(self)@, final(self)@),
        decreases old(self)@.rest.len(), 2nat,
    {
        proof {
            reveal(sp_expr);
            reveal(sp_expr_loop);
            reveal(sp_prefix);
            reveal(sp_fn_call_args);
        }
        if self.at_end() {
            return Err(ParserError::unexpected_token("Expected an expression", None, CodeSpan::default()));
        }
        let mut span = self.start_span_at_next();
        let mut left = self.parse_prefix()?;
        let ghost target = sp_expr(old(self)@, min_bp);
        loop
            invariant
                pwf(old(self)@),
                target == sp_expr(old(self)@, min_bp),
                target !is Stuck,
                sp_expr_loop(self@, min_bp, expr_m(left), span) == target,
                self@.rest.len() < old(self)@.rest.len(),
                keeps(old(self)@, self@),
            ensures
                target == PRes::Done(expr_m(left), self@),
            decreases self@.rest.len(),
        {
            proof {
                reveal(sp_expr);
                reveal(sp_expr_loop);
                reveal(sp_prefix);
                reveal(sp_fn_call_args);
            }
            let op_token = match self.peek() {
                Some(t) => t,
                None => break,
            };
            let (l_bp, r_bp) = match op_token.infix_binding_power() {
                Some(bp) => bp,
                None => break,
            };
            if l_bp < min_bp {
                break;
            }
            self.advance();
            if op_token.is_assignment_operator() {
                let right = self.expr(r_bp)?;
                self.end_span(&mut span);
                left = Expr::new(
                    ExprKind::Assign { assignee: Box::new(left), operator: op_token.kind, value: Box::new(right) },
                    span,
                );
                continue;
            }
            match op_token.kind {
                TokenKind::OpenParen => {
                    let args = self.parse_fn_call_args()?;
                    self.end_span(&mut span);
                    left = Expr::new(ExprKind::FnCall { callee: Box::new(left), args }, span);
                },
                TokenKind::Dot => {
                    if self.matches_advance(TokenKind::Star) {
                        self.end_span(&mut span);
                        left = Expr::new(ExprKind::Unary { operator: UnaryOp::Deref, expr: Box::new(left) }, span);
                        continue;
                    }
                    let ghost s1 = self@;
                    self.skip_line_terminators();
                    proof { crate::parser_spec::lemma_skip_kinds_len(s1, line_terminators()); }
                    self.try_consume_token(TokenKind::Ident, "Expected identifier or '*' after '.'")?;
                    proof { crate::parser_spec::lemma_path_len(self@); }
                    let member_ident = self.parse_path_or_ident();
                    self.end_span(&mut span);
                    left = Expr::new(ExprKind::FieldAccess { called_on: Box::new(left), member_ident }, span);
                },
                TokenKind::OpenBrack => {
                    let index_expr = self.expr(0)?;
                    self.try_consume_token(TokenKind::CloseBrack, "Expected ']' after array index")?;
                    self.end_span(&mut span);
                    left = Expr::new(ExprKind::ArrayAccessor { array: Box::new(left), index: Box::new(index_expr) }, span);
                },
                TokenKind::Colon => {
                    self.try_consume_token(TokenKind::OpenBrack, "Expected '[' after ':' for generic call")?;
                    let type_args = if self.matches_advance(TokenKind::CloseBrack) {
                        let empty: Vec<TypeExpr> = Vec::new();
                        assert(types_m(empty@) =~= Seq::<crate::ast::TypeExprM>::empty());
                        empty
                    } else {
                        self.parse_call_type_args(span)?
                    };
                    self.end_span(&mut span);
                    left = Expr::new(
                        ExprKind::GenericFnCallPart { callee: Box::new(left), type_args: Some(type_args) },
                        span,
                    );
                },
                _ => {
                    let op = match BinaryOp::try_from(op_token.kind) {
                        Ok(op) => op,
                        Err(_) => {
                            proof { assert(false); }
                            return ParserError::unexpected_token("", None, span).wrap();
                        },
                    };
                    let ghost s1 = self@;
                    self.skip_line_terminators();
                    proof { crate::parser_spec::lemma_skip_kinds_len(s1, line_terminators()); }
                    let right = self.expr(r_bp)?;
                    self.end_span(&mut span);
                    left = Expr::new(
                        ExprKind::Binary { left_expr: Box::new(left), operator: op, right_expr: Box::new(right) },
                        span,
                    );
                },
            }
        }
        Ok(left)
    }

    /// Parses the expression that starts with the next token: a literal, a
    /// variable, a prefix operator with its operand, a grouping, an array
    /// literal, a `for` loop or an `if`.
    fn parse_prefix(&mut self) -> (r: Result<Expr, ParserError>)
        requires
            pwf(old(self)@),
            sp_prefix(old(self)@) !is Stuck,
        ensures
            agrees(sp_prefix(old(self)@), r, final(self)@, |e: Expr| expr_m(e)),
            final(self)@.rest.len() <= old(self)@.rest.len(),
            keeps(old(self)@, final(self)@),
        decreases old(self)@.rest.len(), 1nat,
    {
        proof {
            reveal(sp_prefix);
            reveal(sp_expr);
            reveal(sp_for_loop);
            reveal(sp_array_literal);
            reveal(sp_if_else);
        }
        let token = self.advance().unwrap();
        if let Ok(number_kind) = NumberLiteralKind::try_from(token.kind) {
            return Ok(Expr::new(ExprKind::NumberLiteral(token.unwrap_value(), number_kind), token.span));
        }
        if token.kind == TokenKind::Ident {
            let mut span = self.start_span_at_current();
            proof { crate::parser_spec::lemma_path_len(self@); }
            let ident = self.parse_path_or_ident();
            self.end_span(&mut span);
            return Ok(Expr::new(ExprKind::Variable { ident }, span));
        }
        if let Ok(operator) = UnaryOp::try_from(token.kind) {
            let bp = operator.prefix_binding_power();
            let start = token.span.start;
            let right = self.expr(bp)?;
            return Ok(Expr::unary(start, operator, right));
        }
        match token.kind {
            TokenKind::For => self.parse_for_loop(),
            TokenKind::True => Ok(Expr::new(ExprKind::BoolLiteral(true), token.span)),
            TokenKind::False => Ok(Expr::new(ExprKind::BoolLiteral(false), token.span)),
            TokenKind::StringLiteral => Ok(Expr::new(ExprKind::StringLiteral(token.unwrap_value()), token.span)),
            TokenKind::OpenParen => {
                let mut span = self.start_span_at_current();
                let inner = self.expr(0)?;
                self.try_consume_token(TokenKind::CloseParen, "Expected ')'")?;
                self.end_span(&mut span);
                Ok(Expr::new(ExprKind::Grouping(inner.boxed()), span))
            },
            TokenKind::OpenBrack => self.parse_array_literal(),
            TokenKind::If => self.parse_if_else_expr(),
            _ => {
                let span = token.span;
                Err(ParserError::unexpected_token("Expected an expression", Some(token), span))
            },
        }
    }

    /// Parses an expression.
    fn parse_expression(&mut self) -> (r: Result<Expr, ParserError>)
        requires
            pwf(old(self)@),
            sp_expr(old(self)@, 0) !is Stuck,
        ensures
            agrees(sp_expr(old(self)@, 0), r, final(self)@, |e: Expr| expr_m(e)),
            final(self)@.rest.len() <= old(self)@.rest.len(),
            keeps(old(self)@, final(self)@),
        decreases old(self)@.rest.len(), 3nat,
    {
        self.expr(0)
    }

    /// Parses the arguments of a call after `(`, up to `)`.
    fn parse_fn_call_args(&mut self) -> (r: Result<Vec<Expr>, ParserError>)
        requires
            pwf(old(self)@),
            sp_fn_call_args(old(self)@) !is Stuck,
        ensures
            agrees(sp_fn_call_args(old(self)@), r, final(self)@, |v: Vec<Expr>| exprs_m(v@)),
            final(self)@.rest.len() <= old(self)@.rest.len(),
            keeps(old(self)@, final(self)@),
        decreases old(self)@.rest.len(), 4nat,
    {
        proof {
            reveal(sp_fn_call_args);
            reveal(sp_call_args);
            reveal(sp_expr);
        }
        let mut args: Vec<Expr> = Vec::new();
        if !self.matches_advance(TokenKind::CloseParen) {
            let ghost target = sp_call_args(self@, Seq::empty());
            assert(exprs_m(args@) =~= Seq::<ExprM>::empty());
            loop
                invariant_except_break
                    sp_call_args(self@, exprs_m(args@)) == target,
                invariant
                    pwf(old(self)@),
                    target == sp_call_args(old(self)@, Seq::empty()),
                    target == sp_fn_call_args(old(self)@),
                    target !is Stuck,
                    self@.rest.len() <= old(self)@.rest.len(),
                    keeps(old(self)@, self@),
                ensures
                    target == PRes::Done(exprs_m(args@), self@),
                decreases self@.rest.len(),
            {
                proof {
                    reveal(sp_fn_call_args);
                    reveal(sp_call_args);
                    reveal(sp_expr);
                }
                let expr = self.parse_expression()?;
                proof { lemma_exprs_m_push(args@, expr); }
                args.push(expr);
                self.skip_line_terminators();
                if self.matches_advance(TokenKind::CloseParen) {
                    break;
                }
                if self.matches_advance(TokenKind::Comma) {
                    self.skip_line_terminators();
                    if self.matches_advance(TokenKind::CloseParen) {
                        break;
                    }
                    continue;
                }
                return self.error_at_next("Expected argument delimiter ',' or closed parenthesis ')'").wrap();
            }
        } else {
            assert(exprs_m(args@) =~= Seq::<ExprM>::empty());
        }
        Ok(args)
    }

    /// Parses a `for` loop after `for`: an optional condition and a block.
    fn parse_for_loop(&mut self) -> (r: Result<Expr, ParserError>)
        requires
            pwf(old(self)@),
            sp_for_loop(old(self)@) !is Stuck,
        ensures
            agrees(sp_for_loop(old(self)@), r, final(self)@, |e: Expr| expr_m(e)),
            final(self)@.rest.len() <= old(self)@.rest.len(),
            keeps(old(self)@, final(self)@),
        decreases old(self)@.rest.len(), 4nat,
    {
        proof {
            reveal(sp_for_loop);
            reveal(sp_code_block);
            reveal(sp_expr);
        }
        let mut span = self.start_span_at_current();
        let block_follows = match self.peek() {
            Some(token) => token.is_of_kind(TokenKind::OpenBrace),
            None => false,
        };
        if block_follows {
            let code_block = self.parse_code_block()?;
            self.end_span(&mut span);
            return Ok(Expr::new(ExprKind::ForLoop { condition: None, code_block }, span));
        }
        let condition = Some(self.parse_expression()?.boxed());
        let code_block = self.parse_code_block()?;
        self.end_span(&mut span);
        Ok(Expr::new(ExprKind::ForLoop { condition, code_block }, span))
    }

    /// Parses an `if` after `if`: a condition, a block and an optional `else` block.
    fn parse_if_else_expr(&mut self) -> (r: Result<Expr, ParserError>)
        requires
            pwf(old(self)@),
            sp_if_else(old(self)@) !is Stuck,
        ensures
            agrees(sp_if_else(old(self)@), r, final(self)@, |e: Expr| expr_m(e)),
            final(self)@.rest.len() <= old(self)@.rest.len(),
            keeps(old(self)@, final(self)@),
        decreases old(self)@.rest.len(), 4nat,
    {
        proof {
            reveal(sp_if_else);
            reveal(sp_code_block);
            reveal(sp_expr);
        }
        let mut span = self.start_span_at_current();
        let condition = self.parse_expression()?.boxed();
        let if_block = self.parse_code_block()?;
        let else_block = if self.matches_advance(TokenKind::Else) {
            Some(self.parse_code_block()?)
        } else {
            None
        };
        self.end_span(&mut span);
        Ok(Expr::new(ExprKind::If { condition, if_block, else_block }, span))
    }

    /// Parses an array literal after `[`, like `[1, 2, 3]`.
    fn parse_array_literal(&mut self) -> (r: Result<Expr, ParserError>)
        requires
            pwf(old(self)@),
            sp_array_literal(old(self)@) !is Stuck,
        ensures
            agrees(sp_array_literal(old(self)@), r, final(self)@, |e: Expr| expr_m(e)),
            final(self)@.rest.len() <= old(self)@.rest.len(),
            keeps(old(self)@, final(self)@),
        decreases old(self)@.rest.len(), 4nat,
    {
        proof {
            reveal(sp_array_literal);
            reveal(sp_array_elems);
            reveal(sp_expr);
        }
        let mut elements: Vec<Expr> = Vec::new();
        let mut span = self.start_span_at_current();
        if !self.matches_advance(TokenKind::CloseBrack) {
            let ghost target = sp_array_elems(self@, Seq::empty(), span);
            assert(exprs_m(elements@) =~= Seq::<ExprM>::empty());
            loop
                invariant_except_break
                    sp_array_elems(self@, exprs_m(elements@), span) == target,
                invariant
                    pwf(old(self)@),
                    target == sp_array_elems(old(self)@, Seq::empty(), span),
                    target == sp_array_literal(old(self)@),
                    span == old(self)@.cur->Some_0.span,
                    target !is Stuck,
                    self@.rest.len() <= old(self)@.rest.len(),
                    keeps(old(self)@, self@),
                ensures
                    self@.cur is Some,
                    target == PRes::Done(ExprM {
                        span: span_of(span.start, self@.cur->Some_0.span.end),
                        kind: ExprKindM::ArrayLiteral { elements: exprs_m(elements@) },
                    }, self@),
                decreases self@.rest.len(),
            {
                proof {
                    reveal(sp_array_literal);
                    reveal(sp_array_elems);
                    reveal(sp_expr);
                }
                let element = self.parse_expression()?;
                proof { lemma_exprs_m_push(elements@, element); }
                elements.push(element);
                self.skip_line_terminators();
                if self.matches_advance(TokenKind::CloseBrack) {
                    break;
                }
                if self.matches_advance(TokenKind::Comma) {
                    self.skip_line_terminators();
                    if self.matches_advance(TokenKind::CloseBrack) {
                        break;
                    }
                    continue;
                }
                return self.error_at_next("Expected comma ',' or closed bracket ']'").wrap();
            }
        } else {
            assert(exprs_m(elements@) =~= Seq::<ExprM>::empty());
        }
        self.end_span(&mut span);
        Ok(Expr::new(ExprKind::ArrayLiteral { elements }, span))
    }

    /// Parses a block: `{`, statements, `}`.
    fn parse_code_block(&mut self) -> (r: Result<CodeBlock, ParserError>)
        requires
            pwf(old(self)@),
            sp_code_block(old(self)@) !is Stuck,
        ensures
            agrees(sp_code_block(old(self)@), r, final(self)@, |b: CodeBlock| stmts_m(b.stmts@)),
            final(self)@.rest.len() <= old(self)@.rest.len(),
            keeps(old(self)@, final(self)@),
        decreases old(self)@.rest.len(), 1nat,
    {
        proof {
            reveal(sp_code_block);
            reveal(sp_block_stmts);
            reveal(sp_stmt);
        }
        self.try_consume_token(TokenKind::OpenBrace, "Expected open brace")?;
        self.skip_tokens(TokenKind::LineBreak);
        let mut code_block = CodeBlock::new();
        let ghost target = sp_block_stmts(self@, Seq::empty());
        assert(stmts_m(code_block.stmts@) =~= Seq::<StmtM>::empty());
        loop
            invariant
                pwf(old(self)@),
                target == sp_code_block(old(self)@),
                target !is Stuck,
                sp_block_stmts(self@, stmts_m(code_block.stmts@)) == target,
                self@.rest.len() < old(self)@.rest.len(),
                keeps(old(self)@, self@),
            decreases self@.rest.len(),
        {
            proof {
                reveal(sp_code_block);
                reveal(sp_block_stmts);
                reveal(sp_stmt);
            }
            if self.matches_advance(TokenKind::CloseBrace) {
                return Ok(code_block);
            }
            let stmt = self.parse_stmt()?;
            proof { lemma_stmts_m_push(code_block.stmts@, stmt); }
            code_block.stmts.push(stmt);
            self.skip_tokens(TokenKind::LineBreak);
        }
    }

    /// Parses a statement.
    #[verifier::rlimit(40)]
    fn parse_stmt(&mut self) -> (r: Result<Stmt, ParserError>)
        requires
            pwf(old(self)@),
            sp_stmt(old(self)@) !is Stuck,
        ensures
            agrees(sp_stmt(old(self)@), r, final(self)@, |st: Stmt| stmt_m(st)),
            final(self)@.rest.len() <= old(self)@.rest.len(),
            keeps(old(self)@, final(self)@),
        decreases old(self)@.rest.len(), 4nat,
    {
        proof {
            reveal(sp_stmt);
            reveal(sp_ret);
            reveal(sp_defer);
            reveal(sp_break);
            reveal(sp_code_block);
            reveal(sp_var_decl);
            reveal(sp_expr_stmt);
            reveal(sp_expr);
        }
        if let Some(token) = self.peek() {
            match token.kind {
                TokenKind::Ret => return self.parse_ret_stmt(),
                TokenKind::Defer => return self.parse_defer_stmt(),
                TokenKind::Break => return self.parse_break_stmt(),
                TokenKind::Next => {
                    self.advance();
                    return Ok(Stmt::new(StmtKind::Next, token.span));
                },
                TokenKind::OpenBrace => {
                    let mut span = self.start_span_at_next();
                    let code_block = self.parse_code_block()?;
                    self.end_span(&mut span);
                    return Ok(Stmt::new(StmtKind::CodeBlock(code_block), span));
                },
                TokenKind::Ident => {
                    if let Some(var_decl) = self.parse_var_decl()? {
                        self.skip_line_terminators();
                        return Ok(var_decl);
                    }
                },
                _ => {},
            }
        }
        let mut span = self.start_span_at_next();
        let expr = self.parse_expression()?;
        let terminators = [TokenKind::LineBreak, TokenKind::Semicolon];
        assert(terminators@ =~= line_terminators());
        if !self.matches_any(&terminators) && !self.matches(TokenKind::CloseBrace) {
            return Err(self.error_at_next("Expected newline or semicolon after expression statement"));
        }
        self.end_span(&mut span);
        self.skip_line_terminators();
        Ok(Stmt::new(StmtKind::Expr(expr), span))
    }

    /// Parses a variable declaration `name [type] := value` or `name type = value`;
    /// `None`, with nothing read, where the statement ahead declares nothing.
    fn parse_var_decl(&mut self) -> (r: Result<Option<Stmt>, ParserError>)
        requires
            pwf(old(self)@),
            sp_var_decl(old(self)@) !is Stuck,
        ensures
            agrees(sp_var_decl(old(self)@), r, final(self)@, |o: Option<Stmt>| match o {
                Some(st) => Some(stmt_m(st)),
                None => None,
            }),
            r matches Ok(None) ==> final(self)@ == old(self)@,
            final(self)@.rest.len() <= old(self)@.rest.len(),
            keeps(old(self)@, final(self)@),
        decreases old(self)@.rest.len(), 1nat,
    {
        proof {
            reveal(sp_var_decl);
            reveal(sp_expr);
        }
        let mut span = self.start_span_at_current();
        let mut i: usize = 0;
        let mut stop: Option<TokenKind> = None;
        let stops = [TokenKind::LineBreak, TokenKind::Semicolon, TokenKind::OpenBrace];
        loop
            invariant_except_break
                stop is None,
            invariant
                self@ == old(self)@,
                pwf(old(self)@),
                i <= self@.rest.len(),
                stops@ == seq![TokenKind::LineBreak, TokenKind::Semicolon, TokenKind::OpenBrace],
                decl_stop(self@.rest, 0) == decl_stop(self@.rest, i as int),
            ensures
                self@ == old(self)@,
                stop == decl_stop(self@.rest, 0),
            decreases self@.rest.len() - i,
        {
            match self.peek_nth(i) {
                Some(token) => {
                    if token.kind == TokenKind::DeclareAssign || token.kind == TokenKind::Equals {
                        stop = Some(token.kind);
                        break;
                    }
                    if token.is_of_any_kinds(&stops) {
                        proof {
                            let j = choose|j: int| 0 <= j < stops@.len() && stops@[j] == token.kind;
                            assert(j == 0 || j == 1 || j == 2);
                        }
                        break;
                    }
                    i = i + 1;
                },
                None => break,
            }
        }
        let typed_name = match self.peek_nth(1) {
            Some(t) => t.kind == TokenKind::Ident,
            None => false,
        };
        let separator = match stop {
            Some(k) => if k == TokenKind::DeclareAssign || typed_name { k } else { return Ok(None); },
            None => { return Ok(None); },
        };
        let ident = self.advance().unwrap().unwrap_value();
        let mut type_expr = None;
        if !self.matches(separator) {
            type_expr = Some(self.parse_type_expr()?);
        }
        let msg: &str = if separator == TokenKind::DeclareAssign { "Expected ':='" } else { "Expected '='" };
        self.try_consume_token(separator, msg)?;
        let value = self.parse_expression()?;
        self.end_span(&mut span);
        Ok(Some(Stmt::new(StmtKind::LocalVarDeclAssign { ident, type_expr, value }, span)))
    }

    /// Parses `ret`, then a line terminator or an expression.
    #[verifier::spinoff_prover]
    #[verifier::rlimit(80)]
    fn parse_ret_stmt(&mut self) -> (r: Result<Stmt, ParserError>)
        requires
            pwf(old(self)@),
            sp_ret(old(self)@) !is Stuck,
        ensures
            agrees(sp_ret(old(self)@), r, final(self)@, |st: Stmt| stmt_m(st)),
            final(self)@.rest.len() <= old(self)@.rest.len(),
            keeps(old(self)@, final(self)@),
        decreases old(self)@.rest.len(), 1nat,
    {
        proof {
            reveal(sp_ret);
            reveal(sp_expr);
        }
        self.advance();
        let mut span = self.start_span_at_current();
        let terminators = [TokenKind::LineBreak, TokenKind::Semicolon];
        assert(terminators@ =~= line_terminators());
        if self.matches_any_advance(&terminators) {
            self.end_span(&mut span);
            Ok(Stmt::new(StmtKind::Ret(None), span))
        } else {
            let expr = self.parse_expression()?;
            Ok(Stmt::new(StmtKind::Ret(Some(expr)), span))
        }
    }

    /// Parses `defer`, then a statement.
    fn parse_defer_stmt(&mut self) -> (r: Result<Stmt, ParserError>)
        requires
            pwf(old(self)@),
            sp_defer(old(self)@) !is Stuck,
        ensures
            agrees(sp_defer(old(self)@), r, final(self)@, |st: Stmt| stmt_m(st)),
            final(self)@.rest.len() <= old(self)@.rest.len(),
            keeps(old(self)@, final(self)@),
        decreases old(self)@.rest.len(), 1nat,
    {
        proof {
            reveal(sp_defer);
            reveal(sp_stmt);
        }
        self.advance();
        let mut span = self.start_span_at_current();
        let stmt = self.parse_stmt()?;
        self.end_span(&mut span);
        Ok(Stmt::new(StmtKind::Defer(Box::new(stmt)), span))
    }

    /// Parses `break`, then a line terminator or an expression.
    #[verifier::rlimit(40)]
    fn parse_break_stmt(&mut self) -> (r: Result<Stmt, ParserError>)
        requires
            pwf(old(self)@),
            sp_break(old(self)@) !is Stuck,
        ensures
            agrees(sp_break(old(self)@), r, final(self)@, |st: Stmt| stmt_m(st)),
            final(self)@.rest.len() <= old(self)@.rest.len(),
            keeps(old(self)@, final(self)@),
        decreases old(self)@.rest.len(), 1nat,
    {
        proof {
            reveal(sp_break);
            reveal(sp_expr);
        }
        self.advance();
        let mut span = self.start_span_at_current();
        let terminators = [TokenKind::LineBreak, TokenKind::Semicolon];
        assert(terminators@ =~= line_terminators());
        if self.matches_any(&terminators) {
            self.end_span(&mut span);
            return Ok(Stmt::new(StmtKind::Break { value: None }, span));
        }
        let expr = self.parse_expression()?;
        self.end_span(&mut span);
        Ok(Stmt::new(StmtKind::Break { value: Some(expr) }, span))
    }

    /// Parses trait names after `impl`, each a path or an identifier, while identifiers follow.
    fn parse_bounds(&mut self) -> (r: Result<Vec<Ident>, ParserError>)
        requires
            sp_bounds(old(self)@, Seq::empty()) !is Stuck,
        ensures
            agrees(sp_bounds(old(self)@, Seq::empty()), r, final(self)@, |v: Vec<Ident>| idents_m(v@)),
            final(self)@.rest.len() <= old(self)@.rest.len(),
            grows(old(self)@, final(self)@),
    {
        let mut bounds: Vec<Ident> = Vec::new();
        let ghost target = sp_bounds(self@, Seq::empty());
        assert(idents_m(bounds@) =~= Seq::<crate::ast::IdentM>::empty());
        loop
            invariant_except_break
                sp_bounds(self@, idents_m(bounds@)) == target,
            invariant
                target == sp_bounds(old(self)@, Seq::empty()),
                target !is Stuck,
                self@.rest.len() <= old(self)@.rest.len(),
                grows(old(self)@, self@),
            ensures
                target == PRes::Done(idents_m(bounds@), self@),
            decreases self@.rest.len(),
        {
            self.try_consume_token(TokenKind::Ident, "Expected trait")?;
            proof { crate::parser_spec::lemma_path_len(self@); }
            let bound = self.parse_path_or_ident();
            let ghost before = idents_m(bounds@);
            bounds.push(bound);
            assert(idents_m(bounds@) =~= before.push(ident_m(bound)));
            if !self.matches(TokenKind::Ident) {
                break;
            }
        }
        Ok(bounds)
    }

    /// Parses optional generic parameters: `[T, U]` or `[T impl Trait1 Trait2]`.
    fn parse_generic_params(&mut self) -> (r: Result<Vec<GenericParam>, ParserError>)
        requires
            sp_generic_params(old(self)@) !is Stuck,
        ensures
            agrees(sp_generic_params(old(self)@), r, final(self)@, |v: Vec<GenericParam>| generic_params_m(v@)),
            final(self)@.rest.len() <= old(self)@.rest.len(),
            grows(old(self)@, final(self)@),
    {
        let mut generics: Vec<GenericParam> = Vec::new();
        assert(generic_params_m(generics@) =~= Seq::<crate::ast::GenericParamM>::empty());
        if self.matches_advance(TokenKind::OpenBrack) {
            if !self.matches_advance(TokenKind::CloseBrack) {
                let ghost target = sp_generic_param_list(self@, Seq::empty());
                loop
                    invariant_except_break
                        sp_generic_param_list(self@, generic_params_m(generics@)) == target,
                    invariant
                        target == sp_generic_params(old(self)@),
                        target !is Stuck,
                        self@.rest.len() <= old(self)@.rest.len(),
                        grows(old(self)@, self@),
                    ensures
                        target == PRes::Done(generic_params_m(generics@), self@),
                    decreases self@.rest.len(),
                {
                    self.try_consume_token(TokenKind::Ident, "Expected generic type identifier")?;
                    let generic_ident = self.unwrap_current_token().unwrap_value();
                    let bounds = if self.matches_advance(TokenKind::Impl) {
                        self.parse_bounds()?
                    } else {
                        let none: Vec<Ident> = Vec::new();
                        assert(idents_m(none@) =~= Seq::<crate::ast::IdentM>::empty());
                        none
                    };
                    let param = GenericParam { ident: generic_ident, bounds: Some(bounds) };
                    let ghost before = generic_params_m(generics@);
                    generics.push(param);
                    assert(generic_params_m(generics@) =~= before.push(generic_param_m(param)));
                    if self.matches_advance(TokenKind::CloseBrack) {
                        break;
                    }
                    if self.matches_advance(TokenKind::Comma) {
                        self.skip_line_terminators();
                        if self.matches_advance(TokenKind::CloseBrack) {
                            break;
                        }
                        continue;
                    }
                    return Err(self.error_at_next("Expected ',' or ')'"));
                }
            }
        }
        Ok(generics)
    }

    /// Parses optional trait implementations: `impl Trait1, Trait2[T]`.
    fn parse_impl_traits(&mut self) -> (r: Result<Vec<TraitBound>, ParserError>)
        requires
            sp_impl_traits(old(self)@) !is Stuck,
        ensures
            agrees(sp_impl_traits(old(self)@), r, final(self)@, |v: Vec<TraitBound>| trait_bounds_m(v@)),
            final(self)@.rest.len() <= old(self)@.rest.len(),
            grows(old(self)@, final(self)@),
    {
        let mut traits: Vec<TraitBound> = Vec::new();
        assert(trait_bounds_m(traits@) =~= Seq::<crate::ast::TraitBoundM>::empty());
        if self.matches_advance(TokenKind::Impl) {
            let ghost target = sp_impl_list(self@, Seq::empty());
            loop
                invariant_except_break
                    sp_impl_list(self@, trait_bounds_m(traits@)) == target,
                invariant
                    target == sp_impl_traits(old(self)@),
                    target !is Stuck,
                    self@.rest.len() <= old(self)@.rest.len(),
                    grows(old(self)@, self@),
                ensures
                    target == PRes::Done(trait_bounds_m(traits@), self@),
                decreases self@.rest.len(),
            {
                self.try_consume_token(TokenKind::Ident, "Expected trait")?;
                proof { crate::parser_spec::lemma_path_len(self@); }
                let ident = self.parse_path_or_ident();
                let mut args: Vec<TypeExpr> = Vec::new();
                assert(types_m(args@) =~= Seq::<crate::ast::TypeExprM>::empty());
                if self.matches_advance(TokenKind::OpenBrack) {
                    if !self.matches_advance(TokenKind::CloseBrack) {
                        args = self.parse_type_list("Expected ',' or ']'")?;
                    }
                }
                let bound = TraitBound { ident, args };
                let ghost before = trait_bounds_m(traits@);
                traits.push(bound);
                assert(trait_bounds_m(traits@) =~= before.push(trait_bound_m(bound)));
                if !self.matches_advance(TokenKind::Comma) {
                    break;
                }
                self.skip_line_terminators();
            }
        }
        Ok(traits)
    }

    /// Parses parameters `name type` up to `)`; a missing `,` or `)` is
    /// reported, the token is skipped and reading goes on.
    fn parse_params(&mut self) -> (r: Result<Vec<TypedVar>, ParserError>)
        requires
            sp_params(old(self)@, Seq::empty()) !is Stuck,
        ensures
            agrees(sp_params(old(self)@, Seq::empty()), r, final(self)@, |v: Vec<TypedVar>| typed_vars_m(v@)),
            final(self)@.rest.len() <= old(self)@.rest.len(),
            grows(old(self)@, final(self)@),
    {
        let mut params: Vec<TypedVar> = Vec::new();
        assert(typed_vars_m(params@) =~= Seq::<crate::ast::TypedVarM>::empty());
        let ghost target = sp_params(self@, Seq::empty());
        loop
            invariant_except_break
                sp_params(self@, typed_vars_m(params@)) == target,
            invariant
                target == sp_params(old(self)@, Seq::empty()),
                target !is Stuck,
                self@.rest.len() <= old(self)@.rest.len(),
                grows(old(self)@, self@),
            ensures
                target == PRes::Done(typed_vars_m(params@), self@),
            decreases self@.rest.len(),
        {
            self.try_consume_token(TokenKind::Ident, "Expected variable identifier")?;
            let var_ident = self.unwrap_current_token().unwrap_value();
            let type_expr = self.parse_type_expr()?;
            let param = TypedVar::new(var_ident, type_expr);
            let ghost before = typed_vars_m(params@);
            params.push(param);
            assert(typed_vars_m(params@) =~= before.push(typed_var_m(param)));
            if self.matches_advance(TokenKind::CloseParen) {
                break;
            }
            if self.matches_advance(TokenKind::Comma) {
                continue;
            }
            let error = self.error_at_next("Expected argument delimiter ',' or closed parenthesis ')'");
            if self.at_end() {
                return Err(error);
            }
            let ghost errs = errors_m(self.errors@);
            self.errors.push(error);
            assert(errors_m(self.errors@) =~= errs.push(error@));
            self.advance();
        }
        Ok(params)
    }

    /// Parses a function signature: `fn`, a name, optional generic parameters,
    /// the parameters in parentheses and an optional return type.
    fn parse_fn_signature(&mut self) -> (r: Result<FnSignature, ParserError>)
        requires
            sp_fn_signature(old(self)@) !is Stuck,
        ensures
            agrees(sp_fn_signature(old(self)@), r, final(self)@, |f: FnSignature| fn_signature_m(f)),
            final(self)@.rest.len() <= old(self)@.rest.len(),
            grows(old(self)@, final(self)@),
    {
        self.advance();
        self.try_consume_token(TokenKind::Ident, "Expected function identifier")?;
        let ident = self.unwrap_current_token().unwrap_value();
        let generics = self.parse_generic_params()?;
        self.try_consume_token(TokenKind::OpenParen, "Expected open parenthesis")?;
        let params = if !self.matches_advance(TokenKind::CloseParen) {
            self.parse_params()?
        } else {
            let none: Vec<TypedVar> = Vec::new();
            assert(typed_vars_m(none@) =~= Seq::<crate::ast::TypedVarM>::empty());
            none
        };
        let mut return_type = None;
        let ends = [TokenKind::LineBreak, TokenKind::OpenBrace];
        assert(ends@ =~= seq![TokenKind::LineBreak, TokenKind::OpenBrace]);
        if !self.matches_any(&ends) {
            return_type = Some(self.parse_type_expr()?);
        }
        Ok(FnSignature { ident, generics, params, return_type })
    }

    /// Parses a function declaration: its signature, any line breaks and its body.
    fn parse_fn_decl(&mut self) -> (r: Result<Decl, ParserError>)
        requires
            pwf(old(self)@),
            sp_fn_decl(old(self)@) !is Stuck,
        ensures
            agrees(sp_fn_decl(old(self)@), r, final(self)@, |d: Decl| decl_m(d)),
            final(self)@.rest.len() <= old(self)@.rest.len(),
            grows(old(self)@, final(self)@),
    {
        let mut span = self.start_span_at_next();
        let signature = self.parse_fn_signature()?;
        self.skip_tokens(TokenKind::LineBreak);
        let body = self.parse_code_block()?;
        self.end_span(&mut span);
        Ok(Decl::new(DeclKind::Fn { signature, body }, span))
    }

    /// Parses `use path` with an optional alias, like `use io:print "printie"`.
    fn parse_use_decl(&mut self) -> (r: Result<Decl, ParserError>)
        requires
            sp_use_decl(old(self)@) !is Stuck,
        ensures
            agrees(sp_use_decl(old(self)@), r, final(self)@, |d: Decl| decl_m(d)),
            final(self)@.rest.len() <= old(self)@.rest.len(),
            grows(old(self)@, final(self)@),
    {
        self.advance();
        let mut span = self.start_span_at_current();
        self.try_consume_token(TokenKind::Ident, "Expected identifier")?;
        proof { crate::parser_spec::lemma_path_len(self@); }
        let path = self.parse_path_or_ident();
        let alias = if self.matches_advance(TokenKind::StringLiteral) {
            Some(self.unwrap_current_token().unwrap_value())
        } else {
            None
        };
        self.end_span(&mut span);
        Ok(Decl::new(DeclKind::Use { path, alias }, span))
    }

    /// Parses struct fields `name type`, separated by commas or line breaks, up to `}`.
    fn parse_struct_fields(&mut self) -> (r: Result<Vec<TypedVar>, ParserError>)
        requires
            sp_struct_fields(old(self)@, Seq::empty()) !is Stuck,
        ensures
            agrees(sp_struct_fields(old(self)@, Seq::empty()), r, final(self)@, |v: Vec<TypedVar>| typed_vars_m(v@)),
            final(self)@.rest.len() <= old(self)@.rest.len(),
            grows(old(self)@, final(self)@),
    {
        let mut fields: Vec<TypedVar> = Vec::new();
        assert(typed_vars_m(fields@) =~= Seq::<crate::ast::TypedVarM>::empty());
        let ghost target = sp_struct_fields(self@, Seq::empty());
        loop
            invariant_except_break
                sp_struct_fields(self@, typed_vars_m(fields@)) == target,
            invariant
                target == sp_struct_fields(old(self)@, Seq::empty()),
                target !is Stuck,
                self@.rest.len() <= old(self)@.rest.len(),
                grows(old(self)@, self@),
            ensures
                target == PRes::Done(typed_vars_m(fields@), self@),
            decreases self@.rest.len(),
        {
            self.skip_tokens(TokenKind::LineBreak);
            if self.matches_advance(TokenKind::CloseBrace) {
                break;
            }
            self.try_consume_token(TokenKind::Ident, "Expected variable identifier")?;
            let var_ident = self.unwrap_current_token().unwrap_value();
            let type_expr = self.parse_type_expr()?;
            let field = TypedVar::new(var_ident, type_expr);
            let ghost before = typed_vars_m(fields@);
            fields.push(field);
            assert(typed_vars_m(fields@) =~= before.push(typed_var_m(field)));
            let at_close = match self.peek() {
                Some(t) => t.is_of_kind(TokenKind::CloseBrace),
                None => false,
            };
            if !at_close {
                let separators = [TokenKind::LineBreak, TokenKind::Comma];
                assert(separators@ =~= seq![TokenKind::LineBreak, TokenKind::Comma]);
                self.try_consume_token2(&separators, "Expected comma ',' or linebreak")?;
            }
        }
        Ok(fields)
    }

    /// Parses `struct Name [generics] [impl traits] { fields }`.
    fn parse_struct_decl(&mut self) -> (r: Result<Decl, ParserError>)
        requires
            sp_struct_decl(old(self)@) !is Stuck,
        ensures
            agrees(sp_struct_decl(old(self)@), r, final(self)@, |d: Decl| decl_m(d)),
            final(self)@.rest.len() <= old(self)@.rest.len(),
            grows(old(self)@, final(self)@),
    {
        self.advance();
        let mut span = self.start_span_at_current();
        self.try_consume_token(TokenKind::Ident, "Expected struct identifier")?;
        let struct_ident = self.unwrap_current_token().unwrap_value();
        let generics = self.parse_generic_params()?;
        let impl_traits = self.parse_impl_traits()?;
        self.skip_tokens(TokenKind::LineBreak);
        self.try_consume_token(TokenKind::OpenBrace, "Expected open brace or impl")?;
        let fields = self.parse_struct_fields()?;
        self.end_span(&mut span);
        Ok(Decl::new(DeclKind::Struct { ident: struct_ident, fields, generics, impl_traits }, span))
    }

    /// Parses what a variant holds: `( types )`, `{ fields }`, or nothing.
    fn parse_variant_data(&mut self) -> (r: Result<VariantData, ParserError>)
        requires
            sp_variant_data(old(self)@) !is Stuck,
        ensures
            agrees(sp_variant_data(old(self)@), r, final(self)@, |d: VariantData| variant_data_m(d)),
            final(self)@.rest.len() <= old(self)@.rest.len(),
            grows(old(self)@, final(self)@),
    {
        if self.matches_advance(TokenKind::OpenParen) {
            let mut types: Vec<TypeExpr> = Vec::new();
            assert(types_m(types@) =~= Seq::<crate::ast::TypeExprM>::empty());
            if !self.matches_advance(TokenKind::CloseParen) {
                let ghost target = sp_tuple_types(self@, Seq::empty());
                loop
                    invariant_except_break
                        sp_tuple_types(self@, types_m(types@)) == target,
                    invariant
                        target == sp_tuple_types(p_adv(old(self)@), Seq::empty()),
                        target !is Stuck,
                        sp_variant_data(old(self)@) == match target {
                            PRes::Done(ts, s2) => PRes::Done(crate::ast::VariantDataM::Tuple(ts), s2),
                            PRes::Fail(e, s2) => PRes::Fail(e, s2),
                            PRes::Stuck => PRes::Stuck,
                        },
                        self@.rest.len() <= old(self)@.rest.len(),
                        grows(old(self)@, self@),
                    ensures
                        target == PRes::Done(types_m(types@), self@),
                    decreases self@.rest.len(),
                {
                    let ghost s0 = self@;
                    self.skip_line_terminators();
                    proof { crate::parser_spec::lemma_skip_kinds_len(s0, line_terminators()); }
                    let t = self.parse_type_expr()?;
                    proof { lemma_types_m_push(types@, t); }
                    types.push(t);
                    self.skip_line_terminators();
                    if self.matches_advance(TokenKind::CloseParen) {
                        break;
                    }
                    self.try_consume_token(TokenKind::Comma, "Expected ',' or ')'")?;
                }
            }
            Ok(VariantData::Tuple(types))
        } else if self.matches_advance(TokenKind::OpenBrace) {
            let mut fields: Vec<TypedVar> = Vec::new();
            assert(typed_vars_m(fields@) =~= Seq::<crate::ast::TypedVarM>::empty());
            let ghost target = sp_variant_fields(self@, Seq::empty());
            loop
                invariant_except_break
                    sp_variant_fields(self@, typed_vars_m(fields@)) == target,
                invariant
                    target == sp_variant_fields(p_adv(old(self)@), Seq::empty()),
                    target !is Stuck,
                    sp_variant_data(old(self)@) == match target {
                        PRes::Done(fs, s2) => PRes::Done(crate::ast::VariantDataM::Struct(fs), s2),
                        PRes::Fail(e, s2) => PRes::Fail(e, s2),
                        PRes::Stuck => PRes::Stuck,
                    },
                    self@.rest.len() <= old(self)@.rest.len(),
                    grows(old(self)@, self@),
                ensures
                    target == PRes::Done(typed_vars_m(fields@), self@),
                decreases self@.rest.len(),
            {
                self.skip_line_terminators();
                if self.matches_advance(TokenKind::CloseBrace) {
                    break;
                }
                self.try_consume_token(TokenKind::Ident, "Expected field identifier")?;
                let field_ident = self.unwrap_current_token().unwrap_value();
                let type_expr = self.parse_type_expr()?;
                let field = TypedVar::new(field_ident, type_expr);
                let ghost before = typed_vars_m(fields@);
                fields.push(field);
                assert(typed_vars_m(fields@) =~= before.push(typed_var_m(field)));
                let separators = [TokenKind::Comma, TokenKind::LineBreak];
                assert(separators@ =~= seq![TokenKind::Comma, TokenKind::LineBreak]);
                self.matches_any_advance(&separators);
            }
            Ok(VariantData::Struct(fields))
        } else {
            Ok(VariantData::Unit)
        }
    }

    /// Parses the variants of a sum type, separated by commas or line breaks, up to `}`.
    fn parse_variants(&mut self) -> (r: Result<Vec<Variant>, ParserError>)
        requires
            sp_variants(old(self)@, Seq::empty()) !is Stuck,
        ensures
            agrees(sp_variants(old(self)@, Seq::empty()), r, final(self)@, |v: Vec<Variant>| variants_m(v@)),
            final(self)@.rest.len() <= old(self)@.rest.len(),
            grows(old(self)@, final(self)@),
    {
        let mut variants: Vec<Variant> = Vec::new();
        assert(variants_m(variants@) =~= Seq::<crate::ast::VariantM>::empty());
        let ghost target = sp_variants(self@, Seq::empty());
        loop
            invariant_except_break
                sp_variants(self@, variants_m(variants@)) == target,
            invariant
                target == sp_variants(old(self)@, Seq::empty()),
                target !is Stuck,
                self@.rest.len() <= old(self)@.rest.len(),
                grows(old(self)@, self@),
            ensures
                target == PRes::Done(variants_m(variants@), self@),
            decreases self@.rest.len(),
        {
            self.skip_line_terminators();
            if self.matches_advance(TokenKind::CloseBrace) {
                break;
            }
            self.try_consume_token(TokenKind::Ident, "Expected variant identifier")?;
            let variant_ident = self.unwrap_current_token().unwrap_value();
            let data = self.parse_variant_data()?;
            let variant = Variant { ident: variant_ident, data };
            let ghost before = variants_m(variants@);
            variants.push(variant);
            assert(variants_m(variants@) =~= before.push(variant_m(variant)));
            let at_close = match self.peek() {
                Some(t) => t.is_of_kind(TokenKind::CloseBrace),
                None => false,
            };
            if !at_close {
                let separators = [TokenKind::LineBreak, TokenKind::Comma];
                assert(separators@ =~= seq![TokenKind::LineBreak, TokenKind::Comma]);
                self.try_consume_token2(&separators, "Expected ',', or linebreak between variants")?;
            }
        }
        Ok(variants)
    }

    /// Parses `sum Name [generics] [impl traits] { variants }`.
    fn parse_sum_decl(&mut self) -> (r: Result<Decl, ParserError>)
        requires
            sp_sum_decl(old(self)@) !is Stuck,
        ensures
            agrees(sp_sum_decl(old(self)@), r, final(self)@, |d: Decl| decl_m(d)),
            final(self)@.rest.len() <= old(self)@.rest.len(),
            grows(old(self)@, final(self)@),
    {
        self.advance();
        let mut span = self.start_span_at_current();
        self.try_consume_token(TokenKind::Ident, "Expected sum type identifier")?;
        let sum_ident = self.unwrap_current_token().unwrap_value();
        let generics = self.parse_generic_params()?;
        let impl_traits = self.parse_impl_traits()?;
        self.skip_line_terminators();
        self.try_consume_token(TokenKind::OpenBrace, "Expected '{'")?;
        let variants = self.parse_variants()?;
        self.end_span(&mut span);
        Ok(Decl::new(DeclKind::Sum { ident: sum_ident, generics, impl_traits, variants }, span))
    }

    /// Parses method signatures, with any line terminators around them, up to `}`.
    fn parse_methods(&mut self) -> (r: Result<Vec<FnSignature>, ParserError>)
        requires
            sp_methods(old(self)@, Seq::empty()) !is Stuck,
        ensures
            agrees(sp_methods(old(self)@, Seq::empty()), r, final(self)@, |v: Vec<FnSignature>| fn_signatures_m(v@)),
            final(self)@.rest.len() <= old(self)@.rest.len(),
            grows(old(self)@, final(self)@),
    {
        let mut methods: Vec<FnSignature> = Vec::new();
        assert(fn_signatures_m(methods@) =~= Seq::<crate::ast::FnSignatureM>::empty());
        let ghost target = sp_methods(self@, Seq::empty());
        loop
            invariant_except_break
                sp_methods(self@, fn_signatures_m(methods@)) == target,
            invariant
                target == sp_methods(old(self)@, Seq::empty()),
                target !is Stuck,
                self@.rest.len() <= old(self)@.rest.len(),
                grows(old(self)@, self@),
            ensures
                target == PRes::Done(fn_signatures_m(methods@), self@),
            decreases self@.rest.len(),
        {
            self.skip_line_terminators();
            if self.matches_advance(TokenKind::CloseBrace) {
                break;
            }
            let method = self.parse_fn_signature()?;
            let ghost before = fn_signatures_m(methods@);
            methods.push(method);
            assert(fn_signatures_m(methods@) =~= before.push(fn_signature_m(method)));
            self.skip_line_terminators();
        }
        Ok(methods)
    }

    /// Parses `trait Name [generics] { method signatures }`.
    fn parse_trait_decl(&mut self) -> (r: Result<Decl, ParserError>)
        requires
            sp_trait_decl(old(self)@) !is Stuck,
        ensures
            agrees(sp_trait_decl(old(self)@), r, final(self)@, |d: Decl| decl_m(d)),
            final(self)@.rest.len() <= old(self)@.rest.len(),
            grows(old(self)@, final(self)@),
    {
        self.advance();
        let mut span = self.start_span_at_current();
        self.try_consume_token(TokenKind::Ident, "Expected trait identifier")?;
        let ident = self.unwrap_current_token().unwrap_value();
        let generics = self.parse_generic_params()?;
        self.skip_line_terminators();
        self.try_consume_token(TokenKind::OpenBrace, "Expected '{'")?;
        let methods = self.parse_methods()?;
        self.end_span(&mut span);
        Ok(Decl::new(DeclKind::Trait { ident, generics, methods }, span))
    }

    /// Skips the offending token and what follows, up to the next token that
    /// starts a declaration.
    fn synchronize_top_level(&mut self)
        ensures
            final(self)@ == crate::parser_spec::skip_unless(p_adv(old(self)@), decl_start_kinds()),
            final(self)@.rest.len() <= old(self)@.rest.len(),
            grows(old(self)@, final(self)@),
    {
        self.advance();
        let kinds = [TokenKind::Fn, TokenKind::Struct, TokenKind::Use, TokenKind::Sum, TokenKind::Trait];
        assert(kinds@ =~= decl_start_kinds());
        self.skip_tokens_unless_of_kinds(&kinds);
    }

    /// Adds a declaration to the program.
    fn push_decl(&mut self, decl: Decl)
        ensures
            final(self)@ == push_decl(old(self)@, decl_m(decl)),
    {
        let ghost before = decls_m(self.ast@);
        self.ast.push(decl);
        assert(decls_m(self.ast@) =~= before.push(decl_m(decl)));
    }

    /// Adds an error to those reported.
    fn push_error(&mut self, error: ParserError)
        ensures
            final(self)@ == push_error(old(self)@, error@),
    {
        let ghost before = errors_m(self.errors@);
        self.errors.push(error);
        assert(errors_m(self.errors@) =~= before.push(error@));
    }

    /// Parses the declaration that a token of kind `kind` starts.
    fn parse_decl_at(&mut self, kind: TokenKind) -> (r: Result<Decl, ParserError>)
        requires
            pwf(old(self)@),
            sp_decl_at(old(self)@, kind) !is Stuck,
        ensures
            agrees(sp_decl_at(old(self)@, kind), r, final(self)@, |d: Decl| decl_m(d)),
            final(self)@.rest.len() <= old(self)@.rest.len(),
            grows(old(self)@, final(self)@),
    {
        match kind {
            TokenKind::Use => self.parse_use_decl(),
            TokenKind::Struct => self.parse_struct_decl(),
            TokenKind::Sum => self.parse_sum_decl(),
            TokenKind::Fn => self.parse_fn_decl(),
            _ => self.parse_trait_decl(),
        }
    }

    /// Parses the top-level declarations up to the end of the input; an
    /// unexpected token is reported, and reading resumes at the next declaration.
    fn parse_top_level_decls(&mut self) -> (r: Result<(), ParserError>)
        requires
            pwf(old(self)@),
            sp_top_level(old(self)@) !is Stuck,
        ensures
            agrees(sp_top_level(old(self)@), r, final(self)@, |u: ()| u),
            final(self)@.rest.len() <= old(self)@.rest.len(),
            grows(old(self)@, final(self)@),
    {
        let ghost target = sp_top_level(self@);
        loop
            invariant_except_break
                sp_top_level(self@) == target,
            invariant
                pwf(old(self)@),
                target == sp_top_level(old(self)@),
                target !is Stuck,
                self@.rest.len() <= old(self)@.rest.len(),
                grows(old(self)@, self@),
            ensures
                target == PRes::Done((), self@),
            decreases self@.rest.len(),
        {
            let ghost s0 = self@;
            if let Some(token) = self.peek() {
                match token.kind {
                    TokenKind::Use | TokenKind::Struct | TokenKind::Sum | TokenKind::Fn | TokenKind::Trait => {
                        let decl = self.parse_decl_at(token.kind)?;
                        self.push_decl(decl);
                    },
                    TokenKind::LineBreak => {
                        self.advance();
                        continue;
                    },
                    TokenKind::EndOfFile => {
                        self.advance();
                        break;
                    },
                    _ => {
                        let span = token.span;
                        let error = ParserError::unexpected_token(
                            "Unexpected token parsing top-level declarations",
                            Some(token),
                            span,
                        );
                        self.push_error(error);
                        self.synchronize_top_level();
                        proof {
                            crate::parser_spec::lemma_skip_unless_len(
                                p_adv(push_error(s0, error@)), decl_start_kinds());
                        }
                    },
                }
            } else {
                break;
            }
        }
        Ok(())
    }

    /// Parses the whole program (or, in expression mode, one expression) and
    /// returns its declarations; the errors found are in `errors`. It runs to
    /// the end on tokens that carry their texts (see `tokens_carry_texts`).
    pub fn parse(&mut self) -> (r: &Ast)
        requires
            pwf(old(self)@),
            fits(old(self)@),
        ensures
            sp_parse(old(self)@) is Some,
            Some(final(self)@) == sp_parse(old(self)@),
            decls_m(r@) == final(self)@.ast,
            old(self)@.only_expr ==> expression_mode_result(old(self)@, final(self)@),
            grows(old(self)@, final(self)@),
    {
        proof { crate::parser_laws::lemma_parse_finishes(self@); }
        if self.only_expr {
            match self.expr(0) {
                Ok(expr) => {
                    let span = expr.span;
                    self.push_decl(Decl::new(DeclKind::LooseExpr(expr), span));
                },
                Err(error) => self.push_error(error),
            }
        } else {
            if let Err(error) = self.parse_top_level_decls() {
                self.push_error(error);
            }
        }
        &self.ast
    }

    /// The declarations and the errors, taking the parser apart.
    pub fn into_parts(self) -> (r: (Ast, Vec<ParserError>))
        ensures
            decls_m(r.0@) == self@.ast,
            errors_m(r.1@) == self@.errors,
    {
        (self.ast, self.errors)
    }
}

} // verus!
