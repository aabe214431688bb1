//! What the parser does, stated over the tokens it has yet to read.
//!
//! A parser state holds the tokens not yet read, the token read last, the
//! declarations and the errors collected so far. Each function below gives the
//! outcome of one parsing routine: a value and the state after it, an error
//! and the state at that point, or `Stuck` where the routine would panic.

use vstd::prelude::*;
use crate::span::{CodeSpan, span_of, default_span};
use crate::token::{TokenKind, TokenM, spec_number_kind_of, spec_token_infix_bp, spec_is_assignment_kind};
use crate::op::{UnaryOp, spec_unary_op_of, spec_binary_op_of};
use crate::error::{ParserErrorM, unexpected};
use crate::ast::{
    IdentM, TypeExprM, TypedVarM, TraitBoundM, GenericParamM, ExprM, ExprKindM, StmtM, StmtKindM,
    FnSignatureM, VariantM, VariantDataM, DeclM, DeclKindM,
};

verus! {

/// What the parser knows.
pub struct PState {
    pub rest: Seq<TokenM>,
    pub cur: Option<TokenM>,
    pub ast: Seq<DeclM>,
    pub errors: Seq<ParserErrorM>,
    pub only_expr: bool,
}

/// The outcome of a parsing routine.
pub enum PRes<T> {
    Done(T, PState),
    Fail(ParserErrorM, PState),
    Stuck,
}

// ---------------------------------------------------------------- reading tokens

pub open spec fn p_peek(s: PState) -> Option<TokenM> {
    if s.rest.len() > 0 { Some(s.rest[0]) } else { None }
}

/// Reading a token: it becomes the current token; at the end of the input
/// there is no current token any more.
pub open spec fn p_adv(s: PState) -> PState {
    if s.rest.len() > 0 {
        PState { rest: s.rest.drop_first(), cur: Some(s.rest[0]), ast: s.ast, errors: s.errors, only_expr: s.only_expr }
    } else {
        PState { rest: s.rest, cur: None, ast: s.ast, errors: s.errors, only_expr: s.only_expr }
    }
}

/// Reading `n` tokens, one after the other.
pub open spec fn p_adv_n(s: PState, n: nat) -> PState
    decreases n,
{
    if n == 0 { s } else { p_adv(p_adv_n(s, (n - 1) as nat)) }
}

/// The next token is of kind `k`, which is not the end of the file.
pub open spec fn next_is(s: PState, k: TokenKind) -> bool {
    s.rest.len() > 0 && s.rest[0].kind == k && k != TokenKind::EndOfFile
}

/// The next token is of one of the kinds `ks`, and not the end of the file.
pub open spec fn next_is_any(s: PState, ks: Seq<TokenKind>) -> bool {
    s.rest.len() > 0 && ks.contains(s.rest[0].kind) && s.rest[0].kind != TokenKind::EndOfFile
}

/// The next token is of kind `k` (whatever kind that is).
pub open spec fn next_kind(s: PState, k: TokenKind) -> bool {
    s.rest.len() > 0 && s.rest[0].kind == k
}

/// `b` holds the declarations, the errors and the mode of `a`.
pub open spec fn keeps(a: PState, b: PState) -> bool {
    b.ast == a.ast && b.errors == a.errors && b.only_expr == a.only_expr
}

/// `b` starts with the elements of `a`.
pub open spec fn extends<T>(a: Seq<T>, b: Seq<T>) -> bool {
    a.len() <= b.len() && forall|i: int| 0 <= i < a.len() ==> #[trigger] b[i] == a[i]
}

/// `b` holds the declarations and the errors of `a`, perhaps followed by more,
/// in the same mode.
pub open spec fn grows(a: PState, b: PState) -> bool {
    extends(a.ast, b.ast) && extends(a.errors, b.errors) && b.only_expr == a.only_expr
}

pub open spec fn push_error(s: PState, e: ParserErrorM) -> PState {
    PState { rest: s.rest, cur: s.cur, ast: s.ast, errors: s.errors.push(e), only_expr: s.only_expr }
}

pub open spec fn push_decl(s: PState, d: DeclM) -> PState {
    PState { rest: s.rest, cur: s.cur, ast: s.ast.push(d), errors: s.errors, only_expr: s.only_expr }
}

/// The text of the current token; `None` where there is none.
pub open spec fn cur_value(s: PState) -> Option<Seq<char>> {
    match s.cur {
        Some(t) => t.value,
        None => None,
    }
}

/// `span` ending where the current token ends.
pub open spec fn end_of(span: CodeSpan, s: PState) -> Option<CodeSpan> {
    match s.cur {
        Some(t) => Some(span_of(span.start, t.span.end)),
        None => None,
    }
}

pub open spec fn skip_kind(s: PState, k: TokenKind) -> PState
    decreases s.rest.len(),
{
    if next_kind(s, k) { skip_kind(p_adv(s), k) } else { s }
}

pub open spec fn skip_kinds(s: PState, ks: Seq<TokenKind>) -> PState
    decreases s.rest.len(),
{
    if s.rest.len() > 0 && ks.contains(s.rest[0].kind) { skip_kinds(p_adv(s), ks) } else { s }
}

/// Line breaks and semicolons both end a line.
pub open spec fn line_terminators() -> Seq<TokenKind> {
    seq![TokenKind::LineBreak, TokenKind::Semicolon]
}

pub open spec fn skip_lt(s: PState) -> PState {
    skip_kinds(s, line_terminators())
}

/// Skips tokens until the next one is of one of the kinds `ks`.
pub open spec fn skip_unless(s: PState, ks: Seq<TokenKind>) -> PState
    decreases s.rest.len(),
{
    if s.rest.len() > 0 && !next_is_any(s, ks) { skip_unless(p_adv(s), ks) } else { s }
}

/// The span of the next token; the span at the start of the file where there
/// is none.
pub open spec fn next_span(s: PState) -> CodeSpan {
    match p_peek(s) {
        Some(t) => t.span,
        None => default_span(),
    }
}

/// The error `msg` at the next token, if any.
pub open spec fn err_at_next<T>(s: PState, msg: Seq<char>) -> PRes<T> {
    PRes::Fail(unexpected(msg, p_peek(s), next_span(s)), s)
}

/// Reads a token of kind `k`, or fails with `msg` at the next token.
pub open spec fn consume(s: PState, k: TokenKind, msg: Seq<char>) -> PRes<()> {
    if next_is(s, k) { PRes::Done((), p_adv(s)) } else { err_at_next(s, msg) }
}

/// Reads a token of one of the kinds `ks`, or fails with `msg` at the next token.
pub open spec fn consume_any(s: PState, ks: Seq<TokenKind>, msg: Seq<char>) -> PRes<()> {
    if next_is_any(s, ks) { PRes::Done((), p_adv(s)) } else { err_at_next(s, msg) }
}

pub proof fn lemma_skip_kind_len(s: PState, k: TokenKind)
    ensures
        skip_kind(s, k).rest.len() <= s.rest.len(),
    decreases s.rest.len(),
{
    if next_kind(s, k) {
        lemma_skip_kind_len(p_adv(s), k);
    }
}

pub proof fn lemma_skip_kinds_len(s: PState, ks: Seq<TokenKind>)
    ensures
        skip_kinds(s, ks).rest.len() <= s.rest.len(),
    decreases s.rest.len(),
{
    if s.rest.len() > 0 && ks.contains(s.rest[0].kind) {
        lemma_skip_kinds_len(p_adv(s), ks);
    }
}

// ---------------------------------------------------------------- paths and numbers

/// `:ident` parts after the first identifier of a path.
pub open spec fn path_loop(s: PState, parts: Seq<Seq<char>>) -> Option<(Seq<Seq<char>>, PState)>
    decreases s.rest.len(),
{
    if next_is(s, TokenKind::Colon) && s.rest.len() > 1 && s.rest[1].kind == TokenKind::Ident {
        let s2 = p_adv(p_adv(s));
        match cur_value(s2) {
            Some(v) => path_loop(s2, parts.push(v)),
            None => None,
        }
    } else {
        Some((parts, s))
    }
}

/// An identifier whose first part is the current token, with the parts that
/// follow after colons; more than one part make a module path.
pub open spec fn sp_path_or_ident(s: PState) -> Option<(IdentM, PState)> {
    match cur_value(s) {
        None => None,
        Some(first) => match path_loop(s, seq![first]) {
            None => None,
            Some((parts, s2)) => if parts.len() > 1 {
                Some((IdentM::WithModulePrefix(parts.drop_last(), parts.last()), s2))
            } else {
                Some((IdentM::Simple(parts[0]), s2))
            },
        },
    }
}

pub proof fn lemma_path_loop_len(s: PState, parts: Seq<Seq<char>>)
    ensures
        path_loop(s, parts) matches Some((_, s2)) ==> s2.rest.len() <= s.rest.len(),
        path_loop(s, parts) matches Some((p, _)) ==> p.len() >= parts.len() && p.subrange(0, parts.len() as int) == parts,
    decreases s.rest.len(),
{
    if next_is(s, TokenKind::Colon) && s.rest.len() > 1 && s.rest[1].kind == TokenKind::Ident {
        let s2 = p_adv(p_adv(s));
        if let Some(v) = cur_value(s2) {
            lemma_path_loop_len(s2, parts.push(v));
            if let Some((p, _)) = path_loop(s2, parts.push(v)) {
                assert(p.subrange(0, parts.len() as int) == p.subrange(0, (parts.len() + 1) as int).subrange(0, parts.len() as int));
                assert(parts.push(v).subrange(0, parts.len() as int) =~= parts);
            }
        }
    } else {
        assert(parts.subrange(0, parts.len() as int) =~= parts);
    }
}

pub proof fn lemma_path_len(s: PState)
    ensures
        sp_path_or_ident(s) matches Some((_, s2)) ==> s2.rest.len() <= s.rest.len(),
{
    if let Some(first) = cur_value(s) {
        lemma_path_loop_len(s, seq![first]);
    }
}

pub open spec fn all_digits(d: Seq<char>) -> bool {
    forall|i: int| 0 <= i < d.len() ==> '0' <= #[trigger] d[i] && d[i] <= '9'
}

/// The number that a sequence of decimal digits writes.
pub open spec fn digits_value(d: Seq<char>) -> int
    decreases d.len(),
{
    if d.len() == 0 {
        0
    } else {
        digits_value(d.drop_last()) * 10 + ((d.last() as int) - ('0' as int))
    }
}

/// What `str::parse::<usize>` makes of a text: an optional `+`, then one or
/// more decimal digits whose value fits in `usize`.
pub open spec fn spec_parse_usize(t: Seq<char>) -> Option<usize> {
    let d = if t.len() > 0 && t[0] == '+' { t.drop_first() } else { t };
    if d.len() > 0 && all_digits(d) && digits_value(d) <= usize::MAX {
        Some(digits_value(d) as usize)
    } else {
        None
    }
}

// ---------------------------------------------------------------- type expressions

pub open spec fn msg_type_arg() -> Seq<char> {
    "Expected ',' or ']' after generic type argument"@
}

/// A type expression: `[n]T` or `[]T` (arrays), `*T` (pointers), an
/// identifier, or an identifier with type arguments in brackets.
pub open spec fn sp_type_expr(s: PState) -> PRes<TypeExprM>
    decreases s.rest.len(), 1nat,
{
    match p_peek(s) {
        None => PRes::Fail(unexpected("Expected type expression"@, None, default_span()), s),
        Some(t0) => if next_is(s, TokenKind::OpenBrack) {
            let s1 = p_adv(s);
            let has_len = next_is_any(s1, seq![TokenKind::DecimalIntegerNumberLiteral]);
            let s2 = if has_len { p_adv(s1) } else { s1 };
            let length: Option<Option<usize>> = if has_len {
                match cur_value(s2) {
                    Some(v) => match spec_parse_usize(v) {
                        Some(n) => Some(Some(n)),
                        None => None,
                    },
                    None => None,
                }
            } else {
                Some(None)
            };
            match length {
                None => match (s2.cur, cur_value(s2)) {
                    (Some(t), Some(_)) => PRes::Fail(unexpected("Array length out of range"@, Some(t), t.span), s2),
                    _ => PRes::Stuck,
                },
                Some(length) => match consume(s2, TokenKind::CloseBrack, "Expected closed bracket ']'"@) {
                    PRes::Done(_, s3) => match sp_type_expr(s3) {
                        PRes::Done(t, s4) => PRes::Done(TypeExprM::Array { length, type_expr: Box::new(t) }, s4),
                        PRes::Fail(e, s4) => PRes::Fail(e, s4),
                        PRes::Stuck => PRes::Stuck,
                    },
                    PRes::Fail(e, s3) => PRes::Fail(e, s3),
                    PRes::Stuck => PRes::Stuck,
                },
            }
        } else if next_is(s, TokenKind::Star) {
            match sp_type_expr(p_adv(s)) {
                PRes::Done(t, s2) => PRes::Done(TypeExprM::Pointer(Box::new(t)), s2),
                PRes::Fail(e, s2) => PRes::Fail(e, s2),
                PRes::Stuck => PRes::Stuck,
            }
        } else if next_is_any(s, seq![TokenKind::Ident]) {
            let s1 = p_adv(s);
            proof { lemma_path_len(s1); }
            match sp_path_or_ident(s1) {
                None => PRes::Stuck,
                Some((base, s2)) => if next_is(s2, TokenKind::OpenBrack) {
                    let s3 = p_adv(s2);
                    if next_is(s3, TokenKind::CloseBrack) {
                        PRes::Done(TypeExprM::Generic { ident: base, params: Seq::empty() }, p_adv(s3))
                    } else {
                        match sp_type_list(s3, Seq::empty(), msg_type_arg()) {
                            PRes::Done(ps, s4) => PRes::Done(TypeExprM::Generic { ident: base, params: ps }, s4),
                            PRes::Fail(e, s4) => PRes::Fail(e, s4),
                            PRes::Stuck => PRes::Stuck,
                        }
                    }
                } else {
                    PRes::Done(TypeExprM::Ident(base), s2)
                },
            }
        } else {
            match end_of(t0.span, s) {
                Some(sp) => PRes::Fail(unexpected("Expected type expression"@, Some(t0), sp), s),
                None => PRes::Stuck,
            }
        },
    }
}

/// Type expressions separated by commas up to `]`, line terminators allowed
/// around each; `msg` is the error where neither follows a type.
pub open spec fn sp_type_list(s: PState, acc: Seq<TypeExprM>, msg: Seq<char>) -> PRes<Seq<TypeExprM>>
    decreases s.rest.len(), 2nat,
{
    let s1 = skip_lt(s);
    proof { lemma_skip_kinds_len(s, line_terminators()); }
    match sp_type_expr(s1) {
        PRes::Done(t, s2) => {
            let s3 = skip_lt(s2);
            let acc2 = acc.push(t);
            if next_is(s3, TokenKind::CloseBrack) {
                PRes::Done(acc2, p_adv(s3))
            } else if next_is(s3, TokenKind::Comma) {
                let s4 = p_adv(s3);
                if s4.rest.len() >= s.rest.len() {
                    PRes::Stuck
                } else {
                    sp_type_list(s4, acc2, msg)
                }
            } else {
                err_at_next(s3, msg)
            }
        },
        PRes::Fail(e, s2) => PRes::Fail(e, s2),
        PRes::Stuck => PRes::Stuck,
    }
}


// ---------------------------------------------------------------- expressions and statements

/// Type arguments of an explicit generic call `f:[T, U]`, up to `]`; an error
/// there is reported at the span of the whole expression.
pub open spec fn sp_call_type_args(s: PState, acc: Seq<TypeExprM>, span: CodeSpan) -> PRes<Seq<TypeExprM>>
    decreases s.rest.len(),
{
    let s1 = skip_lt(s);
    proof { lemma_skip_kinds_len(s, line_terminators()); }
    match sp_type_expr(s1) {
        PRes::Done(t, s2) => {
            let s3 = skip_lt(s2);
            let acc2 = acc.push(t);
            if next_is(s3, TokenKind::CloseBrack) {
                PRes::Done(acc2, p_adv(s3))
            } else if next_is(s3, TokenKind::Comma) {
                let s4 = p_adv(s3);
                if s4.rest.len() >= s.rest.len() {
                    PRes::Stuck
                } else {
                    sp_call_type_args(s4, acc2, span)
                }
            } else {
                PRes::Fail(unexpected("Expected ',' or ']'"@, p_peek(s3), span), s3)
            }
        },
        PRes::Fail(e, s2) => PRes::Fail(e, s2),
        PRes::Stuck => PRes::Stuck,
    }
}

/// An expression whose operators bind at least as tightly as `min_bp` (Pratt parsing).
#[verifier::opaque]
pub open spec fn sp_expr(s: PState, min_bp: u8) -> PRes<ExprM>
    decreases s.rest.len(), 2nat,
{
    match p_peek(s) {
        None => PRes::Fail(unexpected("Expected an expression"@, None, default_span()), s),
        Some(t0) => match sp_prefix(s) {
            PRes::Done(left, s1) => if s1.rest.len() >= s.rest.len() {
                PRes::Stuck
            } else {
                sp_expr_loop(s1, min_bp, left, t0.span)
            },
            PRes::Fail(e, s1) => PRes::Fail(e, s1),
            PRes::Stuck => PRes::Stuck,
        },
    }
}

/// The operators that follow `left` while they bind at least as tightly as `min_bp`.
#[verifier::opaque]
pub open spec fn sp_expr_loop(s: PState, min_bp: u8, left: ExprM, span: CodeSpan) -> PRes<ExprM>
    decreases s.rest.len(), 1nat,
{
    match p_peek(s) {
        None => PRes::Done(left, s),
        Some(op) => match spec_token_infix_bp(op.kind) {
            None => PRes::Done(left, s),
            Some((l_bp, r_bp)) => if l_bp < min_bp {
                PRes::Done(left, s)
            } else {
                let s1 = p_adv(s);
                if spec_is_assignment_kind(op.kind) {
                    match sp_expr(s1, r_bp) {
                        PRes::Done(right, s2) => match end_of(span, s2) {
                            None => PRes::Stuck,
                            Some(sp) => if s2.rest.len() >= s.rest.len() {
                                PRes::Stuck
                            } else {
                                sp_expr_loop(s2, min_bp, ExprM {
                                    span: sp,
                                    kind: ExprKindM::Assign { assignee: Box::new(left), operator: op.kind, value: Box::new(right) },
                                }, sp)
                            },
                        },
                        PRes::Fail(e, s2) => PRes::Fail(e, s2),
                        PRes::Stuck => PRes::Stuck,
                    }
                } else if op.kind == TokenKind::OpenParen {
                    match sp_fn_call_args(s1) {
                        PRes::Done(args, s2) => match end_of(span, s2) {
                            None => PRes::Stuck,
                            Some(sp) => if s2.rest.len() >= s.rest.len() {
                                PRes::Stuck
                            } else {
                                sp_expr_loop(s2, min_bp, ExprM {
                                    span: sp,
                                    kind: ExprKindM::FnCall { callee: Box::new(left), args },
                                }, sp)
                            },
                        },
                        PRes::Fail(e, s2) => PRes::Fail(e, s2),
                        PRes::Stuck => PRes::Stuck,
                    }
                } else if op.kind == TokenKind::Dot {
                    if next_is(s1, TokenKind::Star) {
                        let s2 = p_adv(s1);
                        match end_of(span, s2) {
                            None => PRes::Stuck,
                            Some(sp) => sp_expr_loop(s2, min_bp, ExprM {
                                span: sp,
                                kind: ExprKindM::Unary { operator: UnaryOp::Deref, expr: Box::new(left) },
                            }, sp),
                        }
                    } else {
                        let s2 = skip_lt(s1);
                        proof { lemma_skip_kinds_len(s1, line_terminators()); }
                        match consume(s2, TokenKind::Ident, "Expected identifier or '*' after '.'"@) {
                            PRes::Done(_, s3) => {
                                proof { lemma_path_len(s3); }
                                match sp_path_or_ident(s3) {
                                    None => PRes::Stuck,
                                    Some((member, s4)) => match end_of(span, s4) {
                                        None => PRes::Stuck,
                                        Some(sp) => sp_expr_loop(s4, min_bp, ExprM {
                                            span: sp,
                                            kind: ExprKindM::FieldAccess { called_on: Box::new(left), member_ident: member },
                                        }, sp),
                                    },
                                }
                            },
                            PRes::Fail(e, s3) => PRes::Fail(e, s3),
                            PRes::Stuck => PRes::Stuck,
                        }
                    }
                } else if op.kind == TokenKind::OpenBrack {
                    match sp_expr(s1, 0) {
                        PRes::Done(index, s2) => match consume(s2, TokenKind::CloseBrack, "Expected ']' after array index"@) {
                            PRes::Done(_, s3) => match end_of(span, s3) {
                                None => PRes::Stuck,
                                Some(sp) => if s3.rest.len() >= s.rest.len() {
                                    PRes::Stuck
                                } else {
                                    sp_expr_loop(s3, min_bp, ExprM {
                                        span: sp,
                                        kind: ExprKindM::ArrayAccessor { array: Box::new(left), index: Box::new(index) },
                                    }, sp)
                                },
                            },
                            PRes::Fail(e, s3) => PRes::Fail(e, s3),
                            PRes::Stuck => PRes::Stuck,
                        },
                        PRes::Fail(e, s2) => PRes::Fail(e, s2),
                        PRes::Stuck => PRes::Stuck,
                    }
                } else if op.kind == TokenKind::Colon {
                    match consume(s1, TokenKind::OpenBrack, "Expected '[' after ':' for generic call"@) {
                        PRes::Done(_, s2) => {
                            let args = if next_is(s2, TokenKind::CloseBrack) {
                                PRes::Done(Seq::empty(), p_adv(s2))
                            } else {
                                sp_call_type_args(s2, Seq::empty(), span)
                            };
                            match args {
                                PRes::Done(type_args, s3) => match end_of(span, s3) {
                                    None => PRes::Stuck,
                                    Some(sp) => if s3.rest.len() >= s.rest.len() {
                                        PRes::Stuck
                                    } else {
                                        sp_expr_loop(s3, min_bp, ExprM {
                                            span: sp,
                                            kind: ExprKindM::GenericFnCallPart { callee: Box::new(left), type_args: Some(type_args) },
                                        }, sp)
                                    },
                                },
                                PRes::Fail(e, s3) => PRes::Fail(e, s3),
                                PRes::Stuck => PRes::Stuck,
                            }
                        },
                        PRes::Fail(e, s2) => PRes::Fail(e, s2),
                        PRes::Stuck => PRes::Stuck,
                    }
                } else {
                    match spec_binary_op_of(op.kind) {
                        None => PRes::Stuck,
                        Some(bop) => {
                            let s2 = skip_lt(s1);
                            proof { lemma_skip_kinds_len(s1, line_terminators()); }
                            match sp_expr(s2, r_bp) {
                                PRes::Done(right, s3) => match end_of(span, s3) {
                                    None => PRes::Stuck,
                                    Some(sp) => if s3.rest.len() >= s.rest.len() {
                                        PRes::Stuck
                                    } else {
                                        sp_expr_loop(s3, min_bp, ExprM {
                                            span: sp,
                                            kind: ExprKindM::Binary { left_expr: Box::new(left), operator: bop, right_expr: Box::new(right) },
                                        }, sp)
                                    },
                                },
                                PRes::Fail(e, s3) => PRes::Fail(e, s3),
                                PRes::Stuck => PRes::Stuck,
                            }
                        },
                    }
                }
            },
        },
    }
}

/// The expression that starts with the next token: a literal, a variable, a
/// prefix operator and its operand, a grouping, an array literal, a `for`
/// loop or an `if`.
#[verifier::opaque]
pub open spec fn sp_prefix(s: PState) -> PRes<ExprM>
    decreases s.rest.len(), 1nat,
{
    match p_peek(s) {
        None => PRes::Stuck,
        Some(tok) => {
            let s1 = p_adv(s);
            if spec_number_kind_of(tok.kind) is Some {
                match tok.value {
                    Some(v) => PRes::Done(ExprM {
                        span: tok.span,
                        kind: ExprKindM::NumberLiteral(v, spec_number_kind_of(tok.kind)->Some_0),
                    }, s1),
                    None => PRes::Stuck,
                }
            } else if tok.kind == TokenKind::Ident {
                match sp_path_or_ident(s1) {
                    None => PRes::Stuck,
                    Some((ident, s2)) => match end_of(tok.span, s2) {
                        None => PRes::Stuck,
                        Some(sp) => PRes::Done(ExprM { span: sp, kind: ExprKindM::Variable { ident } }, s2),
                    },
                }
            } else if spec_unary_op_of(tok.kind) is Some {
                match sp_expr(s1, 17) {
                    PRes::Done(right, s2) => PRes::Done(ExprM {
                        span: span_of(tok.span.start, right.span.end),
                        kind: ExprKindM::Unary { operator: spec_unary_op_of(tok.kind)->Some_0, expr: Box::new(right) },
                    }, s2),
                    PRes::Fail(e, s2) => PRes::Fail(e, s2),
                    PRes::Stuck => PRes::Stuck,
                }
            } else if tok.kind == TokenKind::For {
                sp_for_loop(s1)
            } else if tok.kind == TokenKind::True {
                PRes::Done(ExprM { span: tok.span, kind: ExprKindM::BoolLiteral(true) }, s1)
            } else if tok.kind == TokenKind::False {
                PRes::Done(ExprM { span: tok.span, kind: ExprKindM::BoolLiteral(false) }, s1)
            } else if tok.kind == TokenKind::StringLiteral {
                match tok.value {
                    Some(v) => PRes::Done(ExprM { span: tok.span, kind: ExprKindM::StringLiteral(v) }, s1),
                    None => PRes::Stuck,
                }
            } else if tok.kind == TokenKind::OpenParen {
                match sp_expr(s1, 0) {
                    PRes::Done(inner, s2) => match consume(s2, TokenKind::CloseParen, "Expected ')'"@) {
                        PRes::Done(_, s3) => match end_of(tok.span, s3) {
                            None => PRes::Stuck,
                            Some(sp) => PRes::Done(ExprM { span: sp, kind: ExprKindM::Grouping(Box::new(inner)) }, s3),
                        },
                        PRes::Fail(e, s3) => PRes::Fail(e, s3),
                        PRes::Stuck => PRes::Stuck,
                    },
                    PRes::Fail(e, s2) => PRes::Fail(e, s2),
                    PRes::Stuck => PRes::Stuck,
                }
            } else if tok.kind == TokenKind::OpenBrack {
                sp_array_literal(s1)
            } else if tok.kind == TokenKind::If {
                sp_if_else(s1)
            } else {
                PRes::Fail(unexpected("Expected an expression"@, Some(tok), tok.span), s1)
            }
        },
    }
}

/// `for` (already read), then an optional condition and a block.
#[verifier::opaque]
pub open spec fn sp_for_loop(s: PState) -> PRes<ExprM>
    decreases s.rest.len(), 3nat,
{
    match s.cur {
        None => PRes::Stuck,
        Some(c) => if next_kind(s, TokenKind::OpenBrace) {
            match sp_code_block(s) {
                PRes::Done(b, s2) => match end_of(c.span, s2) {
                    None => PRes::Stuck,
                    Some(sp) => PRes::Done(ExprM { span: sp, kind: ExprKindM::ForLoop { condition: None, code_block: b } }, s2),
                },
                PRes::Fail(e, s2) => PRes::Fail(e, s2),
                PRes::Stuck => PRes::Stuck,
            }
        } else {
            match sp_expr(s, 0) {
                PRes::Done(cond, s2) => if s2.rest.len() > s.rest.len() {
                    PRes::Stuck
                } else {
                    match sp_code_block(s2) {
                        PRes::Done(b, s3) => match end_of(c.span, s3) {
                            None => PRes::Stuck,
                            Some(sp) => PRes::Done(ExprM {
                                span: sp,
                                kind: ExprKindM::ForLoop { condition: Some(Box::new(cond)), code_block: b },
                            }, s3),
                        },
                        PRes::Fail(e, s3) => PRes::Fail(e, s3),
                        PRes::Stuck => PRes::Stuck,
                    }
                },
                PRes::Fail(e, s2) => PRes::Fail(e, s2),
                PRes::Stuck => PRes::Stuck,
            }
        },
    }
}

/// `if` (already read), then a condition, a block and an optional `else` block.
#[verifier::opaque]
pub open spec fn sp_if_else(s: PState) -> PRes<ExprM>
    decreases s.rest.len(), 3nat,
{
    match s.cur {
        None => PRes::Stuck,
        Some(c) => match sp_expr(s, 0) {
            PRes::Done(cond, s2) => if s2.rest.len() > s.rest.len() {
                PRes::Stuck
            } else {
                match sp_code_block(s2) {
                    PRes::Done(if_block, s3) => {
                        let else_part = if next_is(s3, TokenKind::Else) {
                            if s3.rest.len() > s.rest.len() {
                                PRes::Stuck
                            } else {
                                match sp_code_block(p_adv(s3)) {
                                    PRes::Done(b, s4) => PRes::Done(Some(b), s4),
                                    PRes::Fail(e, s4) => PRes::Fail(e, s4),
                                    PRes::Stuck => PRes::Stuck,
                                }
                            }
                        } else {
                            PRes::Done(None, s3)
                        };
                        match else_part {
                            PRes::Done(else_block, s4) => match end_of(c.span, s4) {
                                None => PRes::Stuck,
                                Some(sp) => PRes::Done(ExprM {
                                    span: sp,
                                    kind: ExprKindM::If { condition: Box::new(cond), if_block, else_block },
                                }, s4),
                            },
                            PRes::Fail(e, s4) => PRes::Fail(e, s4),
                            PRes::Stuck => PRes::Stuck,
                        }
                    },
                    PRes::Fail(e, s3) => PRes::Fail(e, s3),
                    PRes::Stuck => PRes::Stuck,
                }
            },
            PRes::Fail(e, s2) => PRes::Fail(e, s2),
            PRes::Stuck => PRes::Stuck,
        },
    }
}

/// `[` (already read), then expressions separated by commas (a trailing comma
/// allowed) up to `]`.
#[verifier::opaque]
pub open spec fn sp_array_literal(s: PState) -> PRes<ExprM>
    decreases s.rest.len(), 4nat,
{
    match s.cur {
        None => PRes::Stuck,
        Some(c) => if next_is(s, TokenKind::CloseBrack) {
            match end_of(c.span, p_adv(s)) {
                None => PRes::Stuck,
                Some(sp) => PRes::Done(ExprM { span: sp, kind: ExprKindM::ArrayLiteral { elements: Seq::empty() } }, p_adv(s)),
            }
        } else {
            sp_array_elems(s, Seq::empty(), c.span)
        },
    }
}

#[verifier::opaque]
pub open spec fn sp_array_elems(s: PState, elems: Seq<ExprM>, span: CodeSpan) -> PRes<ExprM>
    decreases s.rest.len(), 3nat,
{
    match sp_expr(s, 0) {
        PRes::Done(e, s1) => {
            let s2 = skip_lt(s1);
            let elems2 = elems.push(e);
            if next_is(s2, TokenKind::CloseBrack) {
                match end_of(span, p_adv(s2)) {
                    None => PRes::Stuck,
                    Some(sp) => PRes::Done(ExprM { span: sp, kind: ExprKindM::ArrayLiteral { elements: elems2 } }, p_adv(s2)),
                }
            } else if next_is(s2, TokenKind::Comma) {
                let s4 = skip_lt(p_adv(s2));
                if next_is(s4, TokenKind::CloseBrack) {
                    match end_of(span, p_adv(s4)) {
                        None => PRes::Stuck,
                        Some(sp) => PRes::Done(ExprM { span: sp, kind: ExprKindM::ArrayLiteral { elements: elems2 } }, p_adv(s4)),
                    }
                } else if s4.rest.len() >= s.rest.len() {
                    PRes::Stuck
                } else {
                    sp_array_elems(s4, elems2, span)
                }
            } else {
                err_at_next(s2, "Expected comma ',' or closed bracket ']'"@)
            }
        },
        PRes::Fail(e, s1) => PRes::Fail(e, s1),
        PRes::Stuck => PRes::Stuck,
    }
}

/// The arguments of a call after `(`: expressions separated by commas (a
/// trailing comma allowed) up to `)`.
#[verifier::opaque]
pub open spec fn sp_fn_call_args(s: PState) -> PRes<Seq<ExprM>>
    decreases s.rest.len(), 4nat,
{
    if next_is(s, TokenKind::CloseParen) {
        PRes::Done(Seq::empty(), p_adv(s))
    } else {
        sp_call_args(s, Seq::empty())
    }
}

#[verifier::opaque]
pub open spec fn sp_call_args(s: PState, args: Seq<ExprM>) -> PRes<Seq<ExprM>>
    decreases s.rest.len(), 3nat,
{
    match sp_expr(s, 0) {
        PRes::Done(e, s1) => {
            let s2 = skip_lt(s1);
            let args2 = args.push(e);
            if next_is(s2, TokenKind::CloseParen) {
                PRes::Done(args2, p_adv(s2))
            } else if next_is(s2, TokenKind::Comma) {
                let s4 = skip_lt(p_adv(s2));
                if next_is(s4, TokenKind::CloseParen) {
                    PRes::Done(args2, p_adv(s4))
                } else if s4.rest.len() >= s.rest.len() {
                    PRes::Stuck
                } else {
                    sp_call_args(s4, args2)
                }
            } else {
                err_at_next(s2, "Expected argument delimiter ',' or closed parenthesis ')'"@)
            }
        },
        PRes::Fail(e, s1) => PRes::Fail(e, s1),
        PRes::Stuck => PRes::Stuck,
    }
}

/// A block: `{`, then statements each followed by any line breaks, up to `}`.
#[verifier::opaque]
pub open spec fn sp_code_block(s: PState) -> PRes<Seq<StmtM>>
    decreases s.rest.len(), 1nat,
{
    match consume(s, TokenKind::OpenBrace, "Expected open brace"@) {
        PRes::Done(_, s1) => {
            let s2 = skip_kind(s1, TokenKind::LineBreak);
            proof { lemma_skip_kind_len(s1, TokenKind::LineBreak); }
            sp_block_stmts(s2, Seq::empty())
        },
        PRes::Fail(e, s1) => PRes::Fail(e, s1),
        PRes::Stuck => PRes::Stuck,
    }
}

#[verifier::opaque]
pub open spec fn sp_block_stmts(s: PState, stmts: Seq<StmtM>) -> PRes<Seq<StmtM>>
    decreases s.rest.len(), 5nat,
{
    if next_is(s, TokenKind::CloseBrace) {
        PRes::Done(stmts, p_adv(s))
    } else {
        match sp_stmt(s) {
            PRes::Done(st, s1) => {
                let s2 = skip_kind(s1, TokenKind::LineBreak);
                if s2.rest.len() >= s.rest.len() {
                    PRes::Stuck
                } else {
                    sp_block_stmts(s2, stmts.push(st))
                }
            },
            PRes::Fail(e, s1) => PRes::Fail(e, s1),
            PRes::Stuck => PRes::Stuck,
        }
    }
}

/// A statement: `ret`, `defer`, `break`, `next`, a block, a variable
/// declaration, or an expression that ends a line or stands before `}`.
#[verifier::opaque]
pub open spec fn sp_stmt(s: PState) -> PRes<StmtM>
    decreases s.rest.len(), 4nat,
{
    match p_peek(s) {
        None => sp_expr_stmt(s, default_span()),
        Some(tok) => if tok.kind == TokenKind::Ret {
            sp_ret(s)
        } else if tok.kind == TokenKind::Defer {
            sp_defer(s)
        } else if tok.kind == TokenKind::Break {
            sp_break(s)
        } else if tok.kind == TokenKind::Next {
            PRes::Done(StmtM { span: tok.span, kind: StmtKindM::Next }, p_adv(s))
        } else if tok.kind == TokenKind::OpenBrace {
            match sp_code_block(s) {
                PRes::Done(b, s2) => match end_of(tok.span, s2) {
                    None => PRes::Stuck,
                    Some(sp) => PRes::Done(StmtM { span: sp, kind: StmtKindM::CodeBlock(b) }, s2),
                },
                PRes::Fail(e, s2) => PRes::Fail(e, s2),
                PRes::Stuck => PRes::Stuck,
            }
        } else if tok.kind == TokenKind::Ident {
            match sp_var_decl(s) {
                PRes::Done(Some(st), s2) => PRes::Done(st, skip_lt(s2)),
                PRes::Done(None, s2) => sp_expr_stmt(s, tok.span),
                PRes::Fail(e, s2) => PRes::Fail(e, s2),
                PRes::Stuck => PRes::Stuck,
            }
        } else {
            sp_expr_stmt(s, tok.span)
        },
    }
}

/// An expression statement starting at `span`; the expression must be
/// followed by a line break, a semicolon or `}`.
#[verifier::opaque]
pub open spec fn sp_expr_stmt(s: PState, span: CodeSpan) -> PRes<StmtM>
    decreases s.rest.len(), 3nat,
{
    match sp_expr(s, 0) {
        PRes::Done(e, s2) => if !(next_is_any(s2, line_terminators()) || next_is(s2, TokenKind::CloseBrace)) {
            err_at_next(s2, "Expected newline or semicolon after expression statement"@)
        } else {
            match end_of(span, s2) {
                None => PRes::Stuck,
                Some(sp) => PRes::Done(StmtM { span: sp, kind: StmtKindM::Expr(e) }, skip_lt(s2)),
            }
        },
        PRes::Fail(e, s2) => PRes::Fail(e, s2),
        PRes::Stuck => PRes::Stuck,
    }
}

/// The first `:=` or `=` from the `i`-th token on, before a line break, a
/// semicolon or `{`.
pub open spec fn decl_stop(rest: Seq<TokenM>, i: int) -> Option<TokenKind>
    decreases rest.len() - i,
{
    if i < 0 || i >= rest.len() {
        None
    } else if rest[i].kind == TokenKind::DeclareAssign || rest[i].kind == TokenKind::Equals {
        Some(rest[i].kind)
    } else if rest[i].kind == TokenKind::LineBreak || rest[i].kind == TokenKind::Semicolon
        || rest[i].kind == TokenKind::OpenBrace {
        None
    } else {
        decl_stop(rest, i + 1)
    }
}

/// Where the statement ahead declares a variable, the token between its name
/// (and type) and its value: `:=` (`name [type] := value`), or `=` after a name
/// directly followed by a type name (`name type = value`). `None` where the
/// statement declares nothing, such as the assignment `name = value`.
pub open spec fn decl_separator(rest: Seq<TokenM>) -> Option<TokenKind> {
    match decl_stop(rest, 0) {
        Some(k) => if k == TokenKind::DeclareAssign {
            Some(k)
        } else if rest.len() > 1 && rest[1].kind == TokenKind::Ident {
            Some(k)
        } else {
            None
        },
        None => None,
    }
}

/// The error where the separator `k` of a declaration is missing.
pub open spec fn separator_msg(k: TokenKind) -> Seq<char> {
    if k == TokenKind::DeclareAssign { "Expected ':='"@ } else { "Expected '='"@ }
}

/// A variable declaration `name [type] := value` or `name type = value`;
/// `None`, with nothing read, where the statement ahead declares nothing. Its
/// span starts at the current token.
#[verifier::opaque]
pub open spec fn sp_var_decl(s: PState) -> PRes<Option<StmtM>>
    decreases s.rest.len(), 1nat,
{
    match s.cur {
        None => PRes::Stuck,
        Some(c) => if decl_separator(s.rest) is None {
            PRes::Done(None, s)
        } else {
            let sep = decl_separator(s.rest)->Some_0;
            let s1 = p_adv(s);
            match cur_value(s1) {
                None => PRes::Stuck,
                Some(ident) => {
                    let ty = if !next_is(s1, sep) {
                        match sp_type_expr(s1) {
                            PRes::Done(t, s2) => PRes::Done(Some(t), s2),
                            PRes::Fail(e, s2) => PRes::Fail(e, s2),
                            PRes::Stuck => PRes::Stuck,
                        }
                    } else {
                        PRes::Done(None, s1)
                    };
                    match ty {
                        PRes::Done(type_expr, s2) => match consume(s2, sep, separator_msg(sep)) {
                            PRes::Done(_, s3) => if s3.rest.len() >= s.rest.len() {
                                PRes::Stuck
                            } else {
                                match sp_expr(s3, 0) {
                                    PRes::Done(value, s4) => match end_of(c.span, s4) {
                                        None => PRes::Stuck,
                                        Some(sp) => PRes::Done(Some(StmtM {
                                            span: sp,
                                            kind: StmtKindM::LocalVarDeclAssign { ident, type_expr, value },
                                        }), s4),
                                    },
                                    PRes::Fail(e, s4) => PRes::Fail(e, s4),
                                    PRes::Stuck => PRes::Stuck,
                                }
                            },
                            PRes::Fail(e, s3) => PRes::Fail(e, s3),
                            PRes::Stuck => PRes::Stuck,
                        },
                        PRes::Fail(e, s2) => PRes::Fail(e, s2),
                        PRes::Stuck => PRes::Stuck,
                    }
                },
            }
        },
    }
}

/// `ret`, then a line terminator (a line break or a semicolon) or an expression.
#[verifier::opaque]
pub open spec fn sp_ret(s: PState) -> PRes<StmtM>
    decreases s.rest.len(), 1nat,
{
    let s1 = p_adv(s);
    match s1.cur {
        None => PRes::Stuck,
        Some(c) => if next_is_any(s1, line_terminators()) {
            match end_of(c.span, p_adv(s1)) {
                None => PRes::Stuck,
                Some(sp) => PRes::Done(StmtM { span: sp, kind: StmtKindM::Ret(None) }, p_adv(s1)),
            }
        } else if s1.rest.len() >= s.rest.len() {
            PRes::Stuck
        } else {
            match sp_expr(s1, 0) {
                PRes::Done(e, s2) => PRes::Done(StmtM { span: c.span, kind: StmtKindM::Ret(Some(e)) }, s2),
                PRes::Fail(e, s2) => PRes::Fail(e, s2),
                PRes::Stuck => PRes::Stuck,
            }
        },
    }
}

/// `defer`, then a statement.
#[verifier::opaque]
pub open spec fn sp_defer(s: PState) -> PRes<StmtM>
    decreases s.rest.len(), 1nat,
{
    let s1 = p_adv(s);
    match s1.cur {
        None => PRes::Stuck,
        Some(c) => if s1.rest.len() >= s.rest.len() {
            PRes::Stuck
        } else {
            match sp_stmt(s1) {
                PRes::Done(st, s2) => match end_of(c.span, s2) {
                    None => PRes::Stuck,
                    Some(sp) => PRes::Done(StmtM { span: sp, kind: StmtKindM::Defer(Box::new(st)) }, s2),
                },
                PRes::Fail(e, s2) => PRes::Fail(e, s2),
                PRes::Stuck => PRes::Stuck,
            }
        },
    }
}

/// `break`, then a line terminator or an expression.
#[verifier::opaque]
pub open spec fn sp_break(s: PState) -> PRes<StmtM>
    decreases s.rest.len(), 1nat,
{
    let s1 = p_adv(s);
    match s1.cur {
        None => PRes::Stuck,
        Some(c) => if next_is_any(s1, line_terminators()) {
            match end_of(c.span, s1) {
                None => PRes::Stuck,
                Some(sp) => PRes::Done(StmtM { span: sp, kind: StmtKindM::Break { value: None } }, s1),
            }
        } else if s1.rest.len() >= s.rest.len() {
            PRes::Stuck
        } else {
            match sp_expr(s1, 0) {
                PRes::Done(e, s2) => match end_of(c.span, s2) {
                    None => PRes::Stuck,
                    Some(sp) => PRes::Done(StmtM { span: sp, kind: StmtKindM::Break { value: Some(e) } }, s2),
                },
                PRes::Fail(e, s2) => PRes::Fail(e, s2),
                PRes::Stuck => PRes::Stuck,
            }
        },
    }
}


// ---------------------------------------------------------------- declarations

/// Optional generic parameters `[T, U impl A B]`, possibly none: `[]`.
pub open spec fn sp_generic_params(s: PState) -> PRes<Seq<GenericParamM>> {
    if next_is(s, TokenKind::OpenBrack) {
        let s1 = p_adv(s);
        if next_is(s1, TokenKind::CloseBrack) {
            PRes::Done(Seq::empty(), p_adv(s1))
        } else {
            sp_generic_param_list(s1, Seq::empty())
        }
    } else {
        PRes::Done(Seq::empty(), s)
    }
}

/// Trait names after `impl`, one or more, each a path or identifier.
pub open spec fn sp_bounds(s: PState, bounds: Seq<IdentM>) -> PRes<Seq<IdentM>>
    decreases s.rest.len(),
{
    match consume(s, TokenKind::Ident, "Expected trait"@) {
        PRes::Done(_, s1) => match sp_path_or_ident(s1) {
            None => PRes::Stuck,
            Some((b, s2)) => if next_is(s2, TokenKind::Ident) {
                if s2.rest.len() >= s.rest.len() {
                    PRes::Stuck
                } else {
                    sp_bounds(s2, bounds.push(b))
                }
            } else {
                PRes::Done(bounds.push(b), s2)
            },
        },
        PRes::Fail(e, s1) => PRes::Fail(e, s1),
        PRes::Stuck => PRes::Stuck,
    }
}

pub open spec fn sp_generic_param_list(s: PState, gens: Seq<GenericParamM>) -> PRes<Seq<GenericParamM>>
    decreases s.rest.len(),
{
    match consume(s, TokenKind::Ident, "Expected generic type identifier"@) {
        PRes::Done(_, s1) => match cur_value(s1) {
            None => PRes::Stuck,
            Some(ident) => {
                let bounds = if next_is(s1, TokenKind::Impl) {
                    sp_bounds(p_adv(s1), Seq::empty())
                } else {
                    PRes::Done(Seq::empty(), s1)
                };
                match bounds {
                    PRes::Done(bs, s3) => {
                        let gens2 = gens.push(GenericParamM { ident, bounds: Some(bs) });
                        if next_is(s3, TokenKind::CloseBrack) {
                            PRes::Done(gens2, p_adv(s3))
                        } else if next_is(s3, TokenKind::Comma) {
                            let s5 = skip_lt(p_adv(s3));
                            if next_is(s5, TokenKind::CloseBrack) {
                                PRes::Done(gens2, p_adv(s5))
                            } else if s5.rest.len() >= s.rest.len() {
                                PRes::Stuck
                            } else {
                                sp_generic_param_list(s5, gens2)
                            }
                        } else {
                            err_at_next(s3, "Expected ',' or ')'"@)
                        }
                    },
                    PRes::Fail(e, s3) => PRes::Fail(e, s3),
                    PRes::Stuck => PRes::Stuck,
                }
            },
        },
        PRes::Fail(e, s1) => PRes::Fail(e, s1),
        PRes::Stuck => PRes::Stuck,
    }
}

/// Optional `impl Trait1, Trait2[T]`.
pub open spec fn sp_impl_traits(s: PState) -> PRes<Seq<TraitBoundM>> {
    if next_is(s, TokenKind::Impl) {
        sp_impl_list(p_adv(s), Seq::empty())
    } else {
        PRes::Done(Seq::empty(), s)
    }
}

pub open spec fn sp_impl_list(s: PState, traits: Seq<TraitBoundM>) -> PRes<Seq<TraitBoundM>>
    decreases s.rest.len(),
{
    match consume(s, TokenKind::Ident, "Expected trait"@) {
        PRes::Done(_, s1) => match sp_path_or_ident(s1) {
            None => PRes::Stuck,
            Some((ident, s2)) => {
                let args = if next_is(s2, TokenKind::OpenBrack) {
                    let s3 = p_adv(s2);
                    if next_is(s3, TokenKind::CloseBrack) {
                        PRes::Done(Seq::empty(), p_adv(s3))
                    } else {
                        sp_type_list(s3, Seq::empty(), "Expected ',' or ']'"@)
                    }
                } else {
                    PRes::Done(Seq::empty(), s2)
                };
                match args {
                    PRes::Done(a, s4) => {
                        let traits2 = traits.push(TraitBoundM { ident, args: a });
                        if next_is(s4, TokenKind::Comma) {
                            let s6 = skip_lt(p_adv(s4));
                            if s6.rest.len() >= s.rest.len() {
                                PRes::Stuck
                            } else {
                                sp_impl_list(s6, traits2)
                            }
                        } else {
                            PRes::Done(traits2, s4)
                        }
                    },
                    PRes::Fail(e, s4) => PRes::Fail(e, s4),
                    PRes::Stuck => PRes::Stuck,
                }
            },
        },
        PRes::Fail(e, s1) => PRes::Fail(e, s1),
        PRes::Stuck => PRes::Stuck,
    }
}

/// Parameters `name type` up to `)`; a missing `,` or `)` is reported, the
/// token is skipped and reading goes on; at the end of the input it is the error.
pub open spec fn sp_params(s: PState, ps: Seq<TypedVarM>) -> PRes<Seq<TypedVarM>>
    decreases s.rest.len(),
{
    match consume(s, TokenKind::Ident, "Expected variable identifier"@) {
        PRes::Done(_, s1) => match cur_value(s1) {
            None => PRes::Stuck,
            Some(v) => match sp_type_expr(s1) {
                PRes::Done(t, s2) => {
                    let ps2 = ps.push(TypedVarM { ident: v, type_expr: t });
                    if next_is(s2, TokenKind::CloseParen) {
                        PRes::Done(ps2, p_adv(s2))
                    } else if next_is(s2, TokenKind::Comma) {
                        if s2.rest.len() >= s.rest.len() {
                            PRes::Stuck
                        } else {
                            sp_params(p_adv(s2), ps2)
                        }
                    } else {
                        match p_peek(s2) {
                            None => err_at_next(s2, "Expected argument delimiter ',' or closed parenthesis ')'"@),
                            Some(t) => {
                                let s3 = p_adv(push_error(s2, unexpected(
                                    "Expected argument delimiter ',' or closed parenthesis ')'"@, Some(t), t.span)));
                                if s3.rest.len() >= s.rest.len() {
                                    PRes::Stuck
                                } else {
                                    sp_params(s3, ps2)
                                }
                            },
                        }
                    }
                },
                PRes::Fail(e, s2) => PRes::Fail(e, s2),
                PRes::Stuck => PRes::Stuck,
            },
        },
        PRes::Fail(e, s1) => PRes::Fail(e, s1),
        PRes::Stuck => PRes::Stuck,
    }
}

/// `fn` (whatever the token), a name, optional generic parameters, the
/// parameters in parentheses and a return type unless a line break or `{` follows.
pub open spec fn sp_fn_signature(s: PState) -> PRes<FnSignatureM> {
    match consume(p_adv(s), TokenKind::Ident, "Expected function identifier"@) {
        PRes::Done(_, s2) => match cur_value(s2) {
            None => PRes::Stuck,
            Some(ident) => match sp_generic_params(s2) {
                PRes::Done(generics, s3) => match consume(s3, TokenKind::OpenParen, "Expected open parenthesis"@) {
                    PRes::Done(_, s4) => {
                        let params = if next_is(s4, TokenKind::CloseParen) {
                            PRes::Done(Seq::empty(), p_adv(s4))
                        } else {
                            sp_params(s4, Seq::empty())
                        };
                        match params {
                            PRes::Done(ps, s5) => {
                                let ret = if !next_is_any(s5, seq![TokenKind::LineBreak, TokenKind::OpenBrace]) {
                                    match sp_type_expr(s5) {
                                        PRes::Done(t, s6) => PRes::Done(Some(t), s6),
                                        PRes::Fail(e, s6) => PRes::Fail(e, s6),
                                        PRes::Stuck => PRes::Stuck,
                                    }
                                } else {
                                    PRes::Done(None, s5)
                                };
                                match ret {
                                    PRes::Done(return_type, s6) => PRes::Done(
                                        FnSignatureM { ident, generics, params: ps, return_type }, s6),
                                    PRes::Fail(e, s6) => PRes::Fail(e, s6),
                                    PRes::Stuck => PRes::Stuck,
                                }
                            },
                            PRes::Fail(e, s5) => PRes::Fail(e, s5),
                            PRes::Stuck => PRes::Stuck,
                        }
                    },
                    PRes::Fail(e, s4) => PRes::Fail(e, s4),
                    PRes::Stuck => PRes::Stuck,
                },
                PRes::Fail(e, s3) => PRes::Fail(e, s3),
                PRes::Stuck => PRes::Stuck,
            },
        },
        PRes::Fail(e, s2) => PRes::Fail(e, s2),
        PRes::Stuck => PRes::Stuck,
    }
}

/// A function: its signature, any line breaks, and its body.
pub open spec fn sp_fn_decl(s: PState) -> PRes<DeclM> {
    match p_peek(s) {
        None => PRes::Stuck,
        Some(t0) => match sp_fn_signature(s) {
            PRes::Done(signature, s1) => match sp_code_block(skip_kind(s1, TokenKind::LineBreak)) {
                PRes::Done(body, s3) => match end_of(t0.span, s3) {
                    None => PRes::Stuck,
                    Some(sp) => PRes::Done(DeclM { span: sp, kind: DeclKindM::Fn { signature, body } }, s3),
                },
                PRes::Fail(e, s3) => PRes::Fail(e, s3),
                PRes::Stuck => PRes::Stuck,
            },
            PRes::Fail(e, s1) => PRes::Fail(e, s1),
            PRes::Stuck => PRes::Stuck,
        },
    }
}

/// `use path` with an optional alias in a string literal.
pub open spec fn sp_use_decl(s: PState) -> PRes<DeclM> {
    let s1 = p_adv(s);
    match s1.cur {
        None => PRes::Stuck,
        Some(c) => match consume(s1, TokenKind::Ident, "Expected identifier"@) {
            PRes::Done(_, s2) => match sp_path_or_ident(s2) {
                None => PRes::Stuck,
                Some((path, s3)) => {
                    let has_alias = next_is(s3, TokenKind::StringLiteral);
                    let s4 = if has_alias { p_adv(s3) } else { s3 };
                    if has_alias && cur_value(s4) is None {
                        PRes::Stuck
                    } else {
                        let alias = if has_alias { cur_value(s4) } else { None };
                        match end_of(c.span, s4) {
                            None => PRes::Stuck,
                            Some(sp) => PRes::Done(DeclM { span: sp, kind: DeclKindM::Use { path, alias } }, s4),
                        }
                    }
                },
            },
            PRes::Fail(e, s2) => PRes::Fail(e, s2),
            PRes::Stuck => PRes::Stuck,
        },
    }
}

/// Struct fields `name type`, separated by commas or line breaks, up to `}`.
pub open spec fn sp_struct_fields(s: PState, fields: Seq<TypedVarM>) -> PRes<Seq<TypedVarM>>
    decreases s.rest.len(),
{
    let s1 = skip_kind(s, TokenKind::LineBreak);
    if next_is(s1, TokenKind::CloseBrace) {
        PRes::Done(fields, p_adv(s1))
    } else {
        match consume(s1, TokenKind::Ident, "Expected variable identifier"@) {
            PRes::Done(_, s2) => match cur_value(s2) {
                None => PRes::Stuck,
                Some(v) => match sp_type_expr(s2) {
                    PRes::Done(t, s3) => {
                        let fields2 = fields.push(TypedVarM { ident: v, type_expr: t });
                        let sep = if !next_kind(s3, TokenKind::CloseBrace) {
                            consume_any(s3, seq![TokenKind::LineBreak, TokenKind::Comma], "Expected comma ',' or linebreak"@)
                        } else {
                            PRes::Done((), s3)
                        };
                        match sep {
                            PRes::Done(_, s4) => if s4.rest.len() >= s.rest.len() {
                                PRes::Stuck
                            } else {
                                sp_struct_fields(s4, fields2)
                            },
                            PRes::Fail(e, s4) => PRes::Fail(e, s4),
                            PRes::Stuck => PRes::Stuck,
                        }
                    },
                    PRes::Fail(e, s3) => PRes::Fail(e, s3),
                    PRes::Stuck => PRes::Stuck,
                },
            },
            PRes::Fail(e, s2) => PRes::Fail(e, s2),
            PRes::Stuck => PRes::Stuck,
        }
    }
}

/// `struct Name [generics] [impl traits] { fields }`.
pub open spec fn sp_struct_decl(s: PState) -> PRes<DeclM> {
    let s1 = p_adv(s);
    match s1.cur {
        None => PRes::Stuck,
        Some(c) => match consume(s1, TokenKind::Ident, "Expected struct identifier"@) {
            PRes::Done(_, s2) => match cur_value(s2) {
                None => PRes::Stuck,
                Some(ident) => match sp_generic_params(s2) {
                    PRes::Done(generics, s3) => match sp_impl_traits(s3) {
                        PRes::Done(impl_traits, s4) => match consume(skip_kind(s4, TokenKind::LineBreak), TokenKind::OpenBrace, "Expected open brace or impl"@) {
                            PRes::Done(_, s5) => match sp_struct_fields(s5, Seq::empty()) {
                                PRes::Done(fields, s6) => match end_of(c.span, s6) {
                                    None => PRes::Stuck,
                                    Some(sp) => PRes::Done(DeclM {
                                        span: sp,
                                        kind: DeclKindM::Struct { ident, fields, generics, impl_traits },
                                    }, s6),
                                },
                                PRes::Fail(e, s6) => PRes::Fail(e, s6),
                                PRes::Stuck => PRes::Stuck,
                            },
                            PRes::Fail(e, s5) => PRes::Fail(e, s5),
                            PRes::Stuck => PRes::Stuck,
                        },
                        PRes::Fail(e, s4) => PRes::Fail(e, s4),
                        PRes::Stuck => PRes::Stuck,
                    },
                    PRes::Fail(e, s3) => PRes::Fail(e, s3),
                    PRes::Stuck => PRes::Stuck,
                },
            },
            PRes::Fail(e, s2) => PRes::Fail(e, s2),
            PRes::Stuck => PRes::Stuck,
        },
    }
}

/// The types of a tuple variant, separated by commas, up to `)`.
pub open spec fn sp_tuple_types(s: PState, ts: Seq<TypeExprM>) -> PRes<Seq<TypeExprM>>
    decreases s.rest.len(),
{
    let s1 = skip_lt(s);
    match sp_type_expr(s1) {
        PRes::Done(t, s2) => {
            let s3 = skip_lt(s2);
            let ts2 = ts.push(t);
            if next_is(s3, TokenKind::CloseParen) {
                PRes::Done(ts2, p_adv(s3))
            } else {
                match consume(s3, TokenKind::Comma, "Expected ',' or ')'"@) {
                    PRes::Done(_, s4) => if s4.rest.len() >= s.rest.len() {
                        PRes::Stuck
                    } else {
                        sp_tuple_types(s4, ts2)
                    },
                    PRes::Fail(e, s4) => PRes::Fail(e, s4),
                    PRes::Stuck => PRes::Stuck,
                }
            }
        },
        PRes::Fail(e, s2) => PRes::Fail(e, s2),
        PRes::Stuck => PRes::Stuck,
    }
}

/// The fields of a struct variant, each optionally followed by a comma or a line break, up to `}`.
pub open spec fn sp_variant_fields(s: PState, fs: Seq<TypedVarM>) -> PRes<Seq<TypedVarM>>
    decreases s.rest.len(),
{
    let s1 = skip_lt(s);
    if next_is(s1, TokenKind::CloseBrace) {
        PRes::Done(fs, p_adv(s1))
    } else {
        match consume(s1, TokenKind::Ident, "Expected field identifier"@) {
            PRes::Done(_, s2) => match cur_value(s2) {
                None => PRes::Stuck,
                Some(v) => match sp_type_expr(s2) {
                    PRes::Done(t, s3) => {
                        let s4 = if next_is_any(s3, seq![TokenKind::Comma, TokenKind::LineBreak]) { p_adv(s3) } else { s3 };
                        if s4.rest.len() >= s.rest.len() {
                            PRes::Stuck
                        } else {
                            sp_variant_fields(s4, fs.push(TypedVarM { ident: v, type_expr: t }))
                        }
                    },
                    PRes::Fail(e, s3) => PRes::Fail(e, s3),
                    PRes::Stuck => PRes::Stuck,
                },
            },
            PRes::Fail(e, s2) => PRes::Fail(e, s2),
            PRes::Stuck => PRes::Stuck,
        }
    }
}

/// The data of a variant: a tuple `( types )`, a struct `{ fields }`, or nothing.
pub open spec fn sp_variant_data(s: PState) -> PRes<VariantDataM> {
    if next_is(s, TokenKind::OpenParen) {
        let s1 = p_adv(s);
        if next_is(s1, TokenKind::CloseParen) {
            PRes::Done(VariantDataM::Tuple(Seq::empty()), p_adv(s1))
        } else {
            match sp_tuple_types(s1, Seq::empty()) {
                PRes::Done(ts, s2) => PRes::Done(VariantDataM::Tuple(ts), s2),
                PRes::Fail(e, s2) => PRes::Fail(e, s2),
                PRes::Stuck => PRes::Stuck,
            }
        }
    } else if next_is(s, TokenKind::OpenBrace) {
        match sp_variant_fields(p_adv(s), Seq::empty()) {
            PRes::Done(fs, s2) => PRes::Done(VariantDataM::Struct(fs), s2),
            PRes::Fail(e, s2) => PRes::Fail(e, s2),
            PRes::Stuck => PRes::Stuck,
        }
    } else {
        PRes::Done(VariantDataM::Unit, s)
    }
}

/// Variants separated by commas or line breaks, up to `}`.
pub open spec fn sp_variants(s: PState, vs: Seq<VariantM>) -> PRes<Seq<VariantM>>
    decreases s.rest.len(),
{
    let s1 = skip_lt(s);
    if next_is(s1, TokenKind::CloseBrace) {
        PRes::Done(vs, p_adv(s1))
    } else {
        match consume(s1, TokenKind::Ident, "Expected variant identifier"@) {
            PRes::Done(_, s2) => match cur_value(s2) {
                None => PRes::Stuck,
                Some(vid) => match sp_variant_data(s2) {
                    PRes::Done(data, s3) => {
                        let vs2 = vs.push(VariantM { ident: vid, data });
                        let sep = if !next_kind(s3, TokenKind::CloseBrace) {
                            consume_any(s3, seq![TokenKind::LineBreak, TokenKind::Comma], "Expected ',', or linebreak between variants"@)
                        } else {
                            PRes::Done((), s3)
                        };
                        match sep {
                            PRes::Done(_, s4) => if s4.rest.len() >= s.rest.len() {
                                PRes::Stuck
                            } else {
                                sp_variants(s4, vs2)
                            },
                            PRes::Fail(e, s4) => PRes::Fail(e, s4),
                            PRes::Stuck => PRes::Stuck,
                        }
                    },
                    PRes::Fail(e, s3) => PRes::Fail(e, s3),
                    PRes::Stuck => PRes::Stuck,
                },
            },
            PRes::Fail(e, s2) => PRes::Fail(e, s2),
            PRes::Stuck => PRes::Stuck,
        }
    }
}

/// `sum Name [generics] [impl traits] { variants }`.
pub open spec fn sp_sum_decl(s: PState) -> PRes<DeclM> {
    let s1 = p_adv(s);
    match s1.cur {
        None => PRes::Stuck,
        Some(c) => match consume(s1, TokenKind::Ident, "Expected sum type identifier"@) {
            PRes::Done(_, s2) => match cur_value(s2) {
                None => PRes::Stuck,
                Some(ident) => match sp_generic_params(s2) {
                    PRes::Done(generics, s3) => match sp_impl_traits(s3) {
                        PRes::Done(impl_traits, s4) => match consume(skip_lt(s4), TokenKind::OpenBrace, "Expected '{'"@) {
                            PRes::Done(_, s5) => match sp_variants(s5, Seq::empty()) {
                                PRes::Done(variants, s6) => match end_of(c.span, s6) {
                                    None => PRes::Stuck,
                                    Some(sp) => PRes::Done(DeclM {
                                        span: sp,
                                        kind: DeclKindM::Sum { ident, generics, impl_traits, variants },
                                    }, s6),
                                },
                                PRes::Fail(e, s6) => PRes::Fail(e, s6),
                                PRes::Stuck => PRes::Stuck,
                            },
                            PRes::Fail(e, s5) => PRes::Fail(e, s5),
                            PRes::Stuck => PRes::Stuck,
                        },
                        PRes::Fail(e, s4) => PRes::Fail(e, s4),
                        PRes::Stuck => PRes::Stuck,
                    },
                    PRes::Fail(e, s3) => PRes::Fail(e, s3),
                    PRes::Stuck => PRes::Stuck,
                },
            },
            PRes::Fail(e, s2) => PRes::Fail(e, s2),
            PRes::Stuck => PRes::Stuck,
        },
    }
}

/// Method signatures, with any line terminators around them, up to `}`.
pub open spec fn sp_methods(s: PState, ms: Seq<FnSignatureM>) -> PRes<Seq<FnSignatureM>>
    decreases s.rest.len(),
{
    let s1 = skip_lt(s);
    if next_is(s1, TokenKind::CloseBrace) {
        PRes::Done(ms, p_adv(s1))
    } else {
        match sp_fn_signature(s1) {
            PRes::Done(m, s2) => {
                let s3 = skip_lt(s2);
                if s3.rest.len() >= s.rest.len() {
                    PRes::Stuck
                } else {
                    sp_methods(s3, ms.push(m))
                }
            },
            PRes::Fail(e, s2) => PRes::Fail(e, s2),
            PRes::Stuck => PRes::Stuck,
        }
    }
}

/// `trait Name [generics] { method signatures }`.
pub open spec fn sp_trait_decl(s: PState) -> PRes<DeclM> {
    let s1 = p_adv(s);
    match s1.cur {
        None => PRes::Stuck,
        Some(c) => match consume(s1, TokenKind::Ident, "Expected trait identifier"@) {
            PRes::Done(_, s2) => match cur_value(s2) {
                None => PRes::Stuck,
                Some(ident) => match sp_generic_params(s2) {
                    PRes::Done(generics, s3) => match consume(skip_lt(s3), TokenKind::OpenBrace, "Expected '{'"@) {
                        PRes::Done(_, s4) => match sp_methods(s4, Seq::empty()) {
                            PRes::Done(methods, s5) => match end_of(c.span, s5) {
                                None => PRes::Stuck,
                                Some(sp) => PRes::Done(DeclM { span: sp, kind: DeclKindM::Trait { ident, generics, methods } }, s5),
                            },
                            PRes::Fail(e, s5) => PRes::Fail(e, s5),
                            PRes::Stuck => PRes::Stuck,
                        },
                        PRes::Fail(e, s4) => PRes::Fail(e, s4),
                        PRes::Stuck => PRes::Stuck,
                    },
                    PRes::Fail(e, s3) => PRes::Fail(e, s3),
                    PRes::Stuck => PRes::Stuck,
                },
            },
            PRes::Fail(e, s2) => PRes::Fail(e, s2),
            PRes::Stuck => PRes::Stuck,
        },
    }
}

/// The kinds at which reading resumes after an unexpected token at the top level.
pub open spec fn decl_start_kinds() -> Seq<TokenKind> {
    seq![TokenKind::Fn, TokenKind::Struct, TokenKind::Use, TokenKind::Sum, TokenKind::Trait]
}

/// The declaration that the next token starts, as `sp_top_level` parses it.
pub open spec fn sp_decl_at(s: PState, k: TokenKind) -> PRes<DeclM> {
    if k == TokenKind::Use {
        sp_use_decl(s)
    } else if k == TokenKind::Struct {
        sp_struct_decl(s)
    } else if k == TokenKind::Sum {
        sp_sum_decl(s)
    } else if k == TokenKind::Fn {
        sp_fn_decl(s)
    } else {
        sp_trait_decl(s)
    }
}

/// Top-level declarations up to the end: each is added to the AST; line
/// breaks are skipped; an end-of-file token ends the program; any other token
/// is reported and skipped with what follows up to the next declaration keyword.
pub open spec fn sp_top_level(s: PState) -> PRes<()>
    decreases s.rest.len(),
{
    match p_peek(s) {
        None => PRes::Done((), s),
        Some(t) => if t.kind == TokenKind::Use || t.kind == TokenKind::Struct || t.kind == TokenKind::Sum
            || t.kind == TokenKind::Fn || t.kind == TokenKind::Trait {
            match sp_decl_at(s, t.kind) {
                PRes::Done(d, s2) => if s2.rest.len() >= s.rest.len() {
                    PRes::Stuck
                } else {
                    sp_top_level(push_decl(s2, d))
                },
                PRes::Fail(e, s2) => PRes::Fail(e, s2),
                PRes::Stuck => PRes::Stuck,
            }
        } else if t.kind == TokenKind::LineBreak {
            sp_top_level(p_adv(s))
        } else if t.kind == TokenKind::EndOfFile {
            PRes::Done((), p_adv(s))
        } else {
            let s2 = push_error(s, unexpected("Unexpected token parsing top-level declarations"@, Some(t), t.span));
            let s3 = skip_unless(p_adv(s2), decl_start_kinds());
            proof { lemma_skip_unless_len(p_adv(s2), decl_start_kinds()); }
            sp_top_level(s3)
        },
    }
}

pub proof fn lemma_skip_unless_len(s: PState, ks: Seq<TokenKind>)
    ensures
        skip_unless(s, ks).rest.len() <= s.rest.len(),
    decreases s.rest.len(),
{
    if s.rest.len() > 0 && !next_is_any(s, ks) {
        lemma_skip_unless_len(p_adv(s), ks);
    }
}

/// The state after parsing: the whole program (or, in expression mode, one
/// expression) with its declarations and errors; `None` where the parser panics.
pub open spec fn sp_parse(s: PState) -> Option<PState> {
    if s.only_expr {
        match sp_expr(s, 0) {
            PRes::Done(e, s2) => Some(push_decl(s2, DeclM { span: e.span, kind: DeclKindM::LooseExpr(e) })),
            PRes::Fail(e, s2) => Some(push_error(s2, e)),
            PRes::Stuck => None,
        }
    } else {
        match sp_top_level(s) {
            PRes::Done(_, s2) => Some(s2),
            PRes::Fail(e, s2) => Some(push_error(s2, e)),
            PRes::Stuck => None,
        }
    }
}

/// In expression mode parsing adds exactly one thing: the expression, as a
/// loose declaration, or the error that stopped it.
pub open spec fn expression_mode_result(before: PState, after: PState) -> bool {
    ||| (after.ast.len() == before.ast.len() + 1 && after.ast.last().kind is LooseExpr
        && after.errors == before.errors)
    ||| (after.errors.len() == before.errors.len() + 1 && after.ast == before.ast)
}

/// The state of a parser that has read nothing of `tokens`.
pub open spec fn initial_parse_state(tokens: Seq<TokenM>, only_expr: bool) -> PState {
    PState { rest: tokens, cur: None, ast: Seq::empty(), errors: Seq::empty(), only_expr }
}

} // verus!
