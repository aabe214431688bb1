//! Laws of the parser: it always finishes on tokens that carry their texts
//! (every parsing routine either builds its node or reports an error, and never
//! stops short), and an expression's span runs from its first token to the last
//! token read for it.

use vstd::prelude::*;
use crate::token::{TokenKind, TokenM, spec_number_kind_of};
use crate::parser_spec::{
    PState, PRes, p_adv, next_is, next_is_any, next_kind, cur_value, skip_kind, skip_kinds, skip_unless,
    consume, consume_any, path_loop, sp_path_or_ident, skip_lt, line_terminators, sp_type_expr, sp_type_list,
    msg_type_arg, sp_call_type_args, sp_expr, sp_expr_loop, sp_prefix, sp_for_loop, sp_if_else, sp_array_literal,
    sp_array_elems, sp_fn_call_args, sp_call_args, sp_code_block, sp_block_stmts, sp_stmt, sp_expr_stmt,
    sp_var_decl, decl_separator, separator_msg, sp_ret, sp_defer, sp_break, end_of,
    push_error, push_decl, sp_generic_params, sp_bounds, sp_generic_param_list, sp_impl_traits, sp_impl_list,
    sp_params, sp_fn_signature, sp_fn_decl, sp_use_decl, sp_struct_fields, sp_struct_decl, sp_tuple_types,
    sp_variant_fields, sp_variant_data, sp_variants, sp_sum_decl, sp_methods, sp_trait_decl, sp_decl_at,
    sp_top_level, decl_start_kinds, sp_parse, initial_parse_state, lemma_skip_kinds_len, lemma_path_len,
};
use crate::error::{ParserErrorM, unexpected};
use crate::lexer_spec::{texts_fit_kinds, text_fits_kind};
use crate::ast::{TypeExprM, ExprM, ExprKindM, StmtM, StmtKindM, DeclKindM, IdentM, GenericParamM, TraitBoundM, TypedVarM, FnSignatureM, VariantM, DeclM};
use crate::span::{CodeSpan, span_of, default_span};
use crate::op::{UnaryOp, spec_unary_op_of, spec_binary_op_of};
use crate::token::{spec_token_infix_bp, spec_is_assignment_kind};

verus! {

/// A token of a kind that names or writes something (an identifier, a string
/// literal or a number literal) carries its text.
pub open spec fn carries_text(t: TokenM) -> bool {
    (t.kind == TokenKind::Ident || t.kind == TokenKind::StringLiteral || spec_number_kind_of(t.kind) is Some)
        ==> t.value is Some
}

/// Every token of `ts` that should carry a text does.
pub open spec fn all_carry_texts(ts: Seq<TokenM>) -> bool {
    forall|i: int| 0 <= i < ts.len() ==> #[trigger] carries_text(ts[i])
}

/// The tokens still to read, and the current token, carry their texts.
#[verifier::opaque]
pub open spec fn fits(s: PState) -> bool {
    all_carry_texts(s.rest) && (s.cur matches Some(c) ==> carries_text(c))
}

/// The state where a routine that started at `s` ends: it carries its texts,
/// has a current token, and has read no more than there was.
pub open spec fn lands<T>(r: PRes<T>, s: PState) -> bool {
    match r {
        PRes::Done(_, s2) => fits(s2) && s2.cur is Some && s2.rest.len() <= s.rest.len(),
        PRes::Fail(_, _) => true,
        PRes::Stuck => false,
    }
}

/// `lands`, where the routine has read at least one token.
pub open spec fn lands_past<T>(r: PRes<T>, s: PState) -> bool {
    lands(r, s) && (r matches PRes::Done(_, s2) ==> s2.rest.len() < s.rest.len())
}

proof fn lemma_adv(s: PState)
    requires
        fits(s),
    ensures
        fits(p_adv(s)),
        s.rest.len() > 0 ==> p_adv(s).cur is Some && p_adv(s).rest.len() < s.rest.len(),
        s.rest.len() > 0 ==> carries_text(s.rest[0]) && p_adv(s).cur == Some(s.rest[0]),
        s.cur matches Some(c) ==> carries_text(c),
{
    reveal(fits);
    if s.rest.len() > 0 {
        assert forall|i: int| 0 <= i < p_adv(s).rest.len() implies #[trigger] carries_text(p_adv(s).rest[i]) by {
            assert(p_adv(s).rest[i] == s.rest[i + 1]);
        }
    }
}

proof fn lemma_skip_kinds(s: PState, ks: Seq<TokenKind>)
    requires
        fits(s),
    ensures
        fits(skip_kinds(s, ks)),
        skip_kinds(s, ks).rest.len() <= s.rest.len(),
        s.cur is Some ==> skip_kinds(s, ks).cur is Some,
    decreases s.rest.len(),
{
    if s.rest.len() > 0 && ks.contains(s.rest[0].kind) {
        lemma_adv(s);
        lemma_skip_kinds(p_adv(s), ks);
    }
}

proof fn lemma_skip_kind(s: PState, k: TokenKind)
    requires
        fits(s),
    ensures
        fits(skip_kind(s, k)),
        skip_kind(s, k).rest.len() <= s.rest.len(),
        s.cur is Some ==> skip_kind(s, k).cur is Some,
    decreases s.rest.len(),
{
    if next_kind(s, k) {
        lemma_adv(s);
        lemma_skip_kind(p_adv(s), k);
    }
}

proof fn lemma_skip_unless(s: PState, ks: Seq<TokenKind>)
    requires
        fits(s),
    ensures
        fits(skip_unless(s, ks)),
        skip_unless(s, ks).rest.len() <= s.rest.len(),
        s.cur is Some ==> skip_unless(s, ks).cur is Some,
    decreases s.rest.len(),
{
    if s.rest.len() > 0 && !next_is_any(s, ks) {
        lemma_adv(s);
        lemma_skip_unless(p_adv(s), ks);
    }
}

proof fn lemma_consume(s: PState, k: TokenKind, msg: Seq<char>)
    requires
        fits(s),
    ensures
        lands_past(consume(s, k, msg), s),
        consume(s, k, msg) matches PRes::Done(_, s2) ==> s2 == p_adv(s) && s.rest.len() > 0 && s.rest[0].kind == k,
{
    lemma_adv(s);
}

proof fn lemma_consume_any(s: PState, ks: Seq<TokenKind>, msg: Seq<char>)
    requires
        fits(s),
    ensures
        lands_past(consume_any(s, ks, msg), s),
        consume_any(s, ks, msg) matches PRes::Done(_, s2) ==> s2 == p_adv(s),
{
    lemma_adv(s);
}

proof fn lemma_path_loop(s: PState, parts: Seq<Seq<char>>)
    requires
        fits(s),
    ensures
        path_loop(s, parts) matches Some((_, s2)) && fits(s2) && s2.rest.len() <= s.rest.len()
            && (s.cur is Some ==> s2.cur is Some),
    decreases s.rest.len(),
{
    if next_is(s, TokenKind::Colon) && s.rest.len() > 1 && s.rest[1].kind == TokenKind::Ident {
        lemma_adv(s);
        lemma_adv(p_adv(s));
        let s2 = p_adv(p_adv(s));
        lemma_path_loop(s2, parts.push(cur_value(s2)->Some_0));
    }
}

/// The current token is an identifier that carries its name.
pub open spec fn at_named(s: PState) -> bool {
    s.cur matches Some(c) && c.kind == TokenKind::Ident && c.value is Some
}

proof fn lemma_path(s: PState)
    requires
        fits(s),
        at_named(s),
    ensures
        sp_path_or_ident(s) matches Some((_, s2)) && fits(s2) && s2.cur is Some && s2.rest.len() <= s.rest.len(),
{
    lemma_path_loop(s, seq![cur_value(s)->Some_0]);
}

#[verifier::spinoff_prover]
proof fn lemma_type_expr(s: PState)
    requires
        fits(s),
        s.cur is Some,
    ensures
        lands(sp_type_expr(s), s),
    decreases s.rest.len(), 1nat,
{
    if s.rest.len() > 0 {
        lemma_adv(s);
        let s1 = p_adv(s);
        if next_is(s, TokenKind::OpenBrack) {
            lemma_adv(s1);
            let has_len = next_is_any(s1, seq![TokenKind::DecimalIntegerNumberLiteral]);
            let s2 = if has_len { p_adv(s1) } else { s1 };
            if has_len {
            }
            lemma_consume(s2, TokenKind::CloseBrack, "Expected closed bracket ']'"@);
            if let PRes::Done(_, s3) = consume(s2, TokenKind::CloseBrack, "Expected closed bracket ']'"@) {
                lemma_type_expr(s3);
            }
        } else if next_is(s, TokenKind::Star) {
            lemma_type_expr(s1);
        } else if next_is_any(s, seq![TokenKind::Ident]) {
            lemma_path(s1);
            let s2 = sp_path_or_ident(s1)->Some_0.1;
            if next_is(s2, TokenKind::OpenBrack) {
                lemma_adv(s2);
                let s3 = p_adv(s2);
                lemma_adv(s3);
                if !next_is(s3, TokenKind::CloseBrack) {
                    lemma_type_list(s3, Seq::empty(), msg_type_arg());
                }
            }
        }
    }
}

#[verifier::spinoff_prover]
proof fn lemma_type_list(s: PState, acc: Seq<TypeExprM>, msg: Seq<char>)
    requires
        fits(s),
        s.cur is Some,
    ensures
        lands(sp_type_list(s, acc, msg), s),
    decreases s.rest.len(), 2nat,
{
    let s1 = skip_lt(s);
    lemma_skip_kinds(s, line_terminators());
    lemma_type_expr(s1);
    if let PRes::Done(t, s2) = sp_type_expr(s1) {
        let s3 = skip_lt(s2);
        lemma_skip_kinds(s2, line_terminators());
        lemma_adv(s3);
        if !next_is(s3, TokenKind::CloseBrack) && next_is(s3, TokenKind::Comma) {
            lemma_type_list(p_adv(s3), acc.push(t), msg);
        }
    }
}

#[verifier::spinoff_prover]
proof fn lemma_call_type_args(s: PState, acc: Seq<TypeExprM>, span: CodeSpan)
    requires
        fits(s),
        s.cur is Some,
    ensures
        lands(sp_call_type_args(s, acc, span), s),
    decreases s.rest.len(),
{
    let s1 = skip_lt(s);
    lemma_skip_kinds(s, line_terminators());
    lemma_type_expr(s1);
    if let PRes::Done(t, s2) = sp_type_expr(s1) {
        let s3 = skip_lt(s2);
        lemma_skip_kinds(s2, line_terminators());
        lemma_adv(s3);
        if !next_is(s3, TokenKind::CloseBrack) && next_is(s3, TokenKind::Comma) {
            lemma_call_type_args(p_adv(s3), acc.push(t), span);
        }
    }
}

#[verifier::spinoff_prover]
proof fn lemma_expr(s: PState, min_bp: u8)
    requires
        fits(s),
    ensures
        lands_past(sp_expr(s, min_bp), s),
    decreases s.rest.len(), 2nat,
{
    reveal(sp_expr);
    reveal(sp_prefix);
    reveal(sp_expr_loop);
    if s.rest.len() > 0 {
        lemma_prefix(s);
        if let PRes::Done(left, s1) = sp_prefix(s) {
            lemma_expr_loop(s1, min_bp, left, s.rest[0].span);
        }
    }
}

#[verifier::spinoff_prover]
proof fn lemma_prefix(s: PState)
    requires
        fits(s),
        s.rest.len() > 0,
    ensures
        lands_past(sp_prefix(s), s),
    decreases s.rest.len(), 1nat,
{
    reveal(sp_prefix);
    reveal(sp_expr);
    reveal(sp_for_loop);
    reveal(sp_array_literal);
    reveal(sp_if_else);
    if s.rest.len() > 0 {
        let tok = s.rest[0];
        let s1 = p_adv(s);
        lemma_adv(s);
        if spec_number_kind_of(tok.kind) is Some {
        } else if tok.kind == TokenKind::Ident {
            lemma_path(s1);
        } else if spec_unary_op_of(tok.kind) is Some {
            lemma_expr(s1, 17);
        } else if tok.kind == TokenKind::For {
            lemma_for_loop(s1);
        } else if tok.kind == TokenKind::OpenParen {
            lemma_expr(s1, 0);
            if let PRes::Done(_, s2) = sp_expr(s1, 0) {
                lemma_consume(s2, TokenKind::CloseParen, "Expected ')'"@);
            }
        } else if tok.kind == TokenKind::OpenBrack {
            lemma_array_literal(s1);
        } else if tok.kind == TokenKind::If {
            lemma_if_else(s1);
        }
    }
}

#[verifier::spinoff_prover]
proof fn lemma_expr_loop(s: PState, min_bp: u8, left: ExprM, span: CodeSpan)
    requires
        fits(s),
        s.cur is Some,
    ensures
        lands(sp_expr_loop(s, min_bp, left, span), s),
    decreases s.rest.len(), 1nat,
{
    reveal(sp_expr_loop);
    reveal(sp_expr);
    reveal(sp_fn_call_args);
    if s.rest.len() > 0 {
        let op = s.rest[0];
        if let Some((l_bp, r_bp)) = spec_token_infix_bp(op.kind) {
            if l_bp >= min_bp {
                let s1 = p_adv(s);
                lemma_adv(s);
                if spec_is_assignment_kind(op.kind) {
                    lemma_expr(s1, r_bp);
                    if let PRes::Done(right, s2) = sp_expr(s1, r_bp) {
                        let sp = end_of(span, s2)->Some_0;
                        lemma_expr_loop(s2, min_bp, ExprM {
                            span: sp,
                            kind: ExprKindM::Assign { assignee: Box::new(left), operator: op.kind, value: Box::new(right) },
                        }, sp);
                    }
                } else if op.kind == TokenKind::OpenParen {
                    lemma_fn_call_args(s1);
                    if let PRes::Done(args, s2) = sp_fn_call_args(s1) {
                        let sp = end_of(span, s2)->Some_0;
                        lemma_expr_loop(s2, min_bp, ExprM { span: sp, kind: ExprKindM::FnCall { callee: Box::new(left), args } }, sp);
                    }
                } else if op.kind == TokenKind::Dot {
                    if next_is(s1, TokenKind::Star) {
                        let s2 = p_adv(s1);
                        lemma_adv(s1);
                        let sp = end_of(span, s2)->Some_0;
                        lemma_expr_loop(s2, min_bp, ExprM {
                            span: sp,
                            kind: ExprKindM::Unary { operator: UnaryOp::Deref, expr: Box::new(left) },
                        }, sp);
                    } else {
                        let s2 = skip_lt(s1);
                        lemma_skip_kinds(s1, line_terminators());
                        lemma_consume(s2, TokenKind::Ident, "Expected identifier or '*' after '.'"@);
                        if let PRes::Done(_, s3) = consume(s2, TokenKind::Ident, "Expected identifier or '*' after '.'"@) {
                            lemma_adv(s2);
                            lemma_path(s3);
                            let (member, s4) = sp_path_or_ident(s3)->Some_0;
                            let sp = end_of(span, s4)->Some_0;
                            lemma_expr_loop(s4, min_bp, ExprM {
                                span: sp,
                                kind: ExprKindM::FieldAccess { called_on: Box::new(left), member_ident: member },
                            }, sp);
                        }
                    }
                } else if op.kind == TokenKind::OpenBrack {
                    lemma_expr(s1, 0);
                    if let PRes::Done(index, s2) = sp_expr(s1, 0) {
                        lemma_consume(s2, TokenKind::CloseBrack, "Expected ']' after array index"@);
                        if let PRes::Done(_, s3) = consume(s2, TokenKind::CloseBrack, "Expected ']' after array index"@) {
                            let sp = end_of(span, s3)->Some_0;
                            lemma_expr_loop(s3, min_bp, ExprM {
                                span: sp,
                                kind: ExprKindM::ArrayAccessor { array: Box::new(left), index: Box::new(index) },
                            }, sp);
                        }
                    }
                } else if op.kind == TokenKind::Colon {
                    lemma_consume(s1, TokenKind::OpenBrack, "Expected '[' after ':' for generic call"@);
                    if let PRes::Done(_, s2) = consume(s1, TokenKind::OpenBrack, "Expected '[' after ':' for generic call"@) {
                        lemma_adv(s2);
                        let args = if next_is(s2, TokenKind::CloseBrack) {
                            PRes::Done(Seq::empty(), p_adv(s2))
                        } else {
                            lemma_call_type_args(s2, Seq::empty(), span);
                            sp_call_type_args(s2, Seq::empty(), span)
                        };
                        if let PRes::Done(type_args, s3) = args {
                            let sp = end_of(span, s3)->Some_0;
                            lemma_expr_loop(s3, min_bp, ExprM {
                                span: sp,
                                kind: ExprKindM::GenericFnCallPart { callee: Box::new(left), type_args: Some(type_args) },
                            }, sp);
                        }
                    }
                } else {
                    let bop = spec_binary_op_of(op.kind)->Some_0;
                    let s2 = skip_lt(s1);
                    lemma_skip_kinds(s1, line_terminators());
                    lemma_expr(s2, r_bp);
                    if let PRes::Done(right, s3) = sp_expr(s2, r_bp) {
                        let sp = end_of(span, s3)->Some_0;
                        lemma_expr_loop(s3, min_bp, ExprM {
                            span: sp,
                            kind: ExprKindM::Binary { left_expr: Box::new(left), operator: bop, right_expr: Box::new(right) },
                        }, sp);
                    }
                }
            }
        }
    }
}

#[verifier::spinoff_prover]
proof fn lemma_for_loop(s: PState)
    requires
        fits(s),
        s.cur is Some,
    ensures
        lands(sp_for_loop(s), s),
    decreases s.rest.len(), 3nat,
{
    reveal(sp_for_loop);
    reveal(sp_code_block);
    reveal(sp_expr);
    if next_kind(s, TokenKind::OpenBrace) {
        lemma_code_block(s);
    } else {
        lemma_expr(s, 0);
        if let PRes::Done(_, s2) = sp_expr(s, 0) {
            lemma_code_block(s2);
        }
    }
}

#[verifier::spinoff_prover]
proof fn lemma_if_else(s: PState)
    requires
        fits(s),
        s.cur is Some,
    ensures
        lands(sp_if_else(s), s),
    decreases s.rest.len(), 3nat,
{
    reveal(sp_if_else);
    reveal(sp_expr);
    reveal(sp_code_block);
    lemma_expr(s, 0);
    if let PRes::Done(_, s2) = sp_expr(s, 0) {
        lemma_code_block(s2);
        if let PRes::Done(_, s3) = sp_code_block(s2) {
            if next_is(s3, TokenKind::Else) {
                lemma_adv(s3);
                lemma_code_block(p_adv(s3));
            }
        }
    }
}

#[verifier::spinoff_prover]
proof fn lemma_array_literal(s: PState)
    requires
        fits(s),
        s.cur is Some,
    ensures
        lands(sp_array_literal(s), s),
    decreases s.rest.len(), 4nat,
{
    reveal(sp_array_literal);
    reveal(sp_array_elems);
    lemma_adv(s);
    if !next_is(s, TokenKind::CloseBrack) {
        lemma_array_elems(s, Seq::empty(), s.cur->Some_0.span);
    }
}

#[verifier::spinoff_prover]
proof fn lemma_array_elems(s: PState, elems: Seq<ExprM>, span: CodeSpan)
    requires
        fits(s),
    ensures
        lands(sp_array_elems(s, elems, span), s),
    decreases s.rest.len(), 3nat,
{
    reveal(sp_array_elems);
    reveal(sp_expr);
    lemma_expr(s, 0);
    if let PRes::Done(e, s1) = sp_expr(s, 0) {
        let s2 = skip_lt(s1);
        lemma_skip_kinds(s1, line_terminators());
        lemma_adv(s2);
        if !next_is(s2, TokenKind::CloseBrack) && next_is(s2, TokenKind::Comma) {
            let s4 = skip_lt(p_adv(s2));
            lemma_skip_kinds(p_adv(s2), line_terminators());
            lemma_adv(s4);
            if !next_is(s4, TokenKind::CloseBrack) {
                lemma_array_elems(s4, elems.push(e), span);
            }
        }
    }
}

#[verifier::spinoff_prover]
proof fn lemma_fn_call_args(s: PState)
    requires
        fits(s),
    ensures
        lands(sp_fn_call_args(s), s),
    decreases s.rest.len(), 4nat,
{
    reveal(sp_fn_call_args);
    reveal(sp_call_args);
    lemma_adv(s);
    if !next_is(s, TokenKind::CloseParen) {
        lemma_call_args(s, Seq::empty());
    }
}

#[verifier::spinoff_prover]
proof fn lemma_call_args(s: PState, args: Seq<ExprM>)
    requires
        fits(s),
    ensures
        lands(sp_call_args(s, args), s),
    decreases s.rest.len(), 3nat,
{
    reveal(sp_call_args);
    reveal(sp_expr);
    lemma_expr(s, 0);
    if let PRes::Done(e, s1) = sp_expr(s, 0) {
        let s2 = skip_lt(s1);
        lemma_skip_kinds(s1, line_terminators());
        lemma_adv(s2);
        if !next_is(s2, TokenKind::CloseParen) && next_is(s2, TokenKind::Comma) {
            let s4 = skip_lt(p_adv(s2));
            lemma_skip_kinds(p_adv(s2), line_terminators());
            lemma_adv(s4);
            if !next_is(s4, TokenKind::CloseParen) {
                lemma_call_args(s4, args.push(e));
            }
        }
    }
}

#[verifier::spinoff_prover]
proof fn lemma_code_block(s: PState)
    requires
        fits(s),
    ensures
        lands_past(sp_code_block(s), s),
    decreases s.rest.len(), 1nat,
{
    reveal(sp_code_block);
    reveal(sp_block_stmts);
    lemma_consume(s, TokenKind::OpenBrace, "Expected open brace"@);
    if let PRes::Done(_, s1) = consume(s, TokenKind::OpenBrace, "Expected open brace"@) {
        lemma_skip_kind(s1, TokenKind::LineBreak);
        lemma_block_stmts(skip_kind(s1, TokenKind::LineBreak), Seq::empty());
    }
}

#[verifier::spinoff_prover]
proof fn lemma_block_stmts(s: PState, stmts: Seq<StmtM>)
    requires
        fits(s),
        s.cur is Some,
    ensures
        lands(sp_block_stmts(s, stmts), s),
    decreases s.rest.len(), 5nat,
{
    reveal(sp_block_stmts);
    reveal(sp_stmt);
    lemma_adv(s);
    if !next_is(s, TokenKind::CloseBrace) {
        lemma_stmt(s);
        if let PRes::Done(st, s1) = sp_stmt(s) {
            lemma_skip_kind(s1, TokenKind::LineBreak);
            lemma_block_stmts(skip_kind(s1, TokenKind::LineBreak), stmts.push(st));
        }
    }
}

#[verifier::spinoff_prover]
proof fn lemma_stmt(s: PState)
    requires
        fits(s),
        s.cur is Some,
    ensures
        lands_past(sp_stmt(s), s),
    decreases s.rest.len(), 4nat,
{
    reveal(sp_stmt);
    reveal(sp_ret);
    reveal(sp_defer);
    reveal(sp_break);
    reveal(sp_code_block);
    reveal(sp_var_decl);
    reveal(sp_expr_stmt);
    if s.rest.len() == 0 {
        lemma_expr_stmt(s, default_span());
    } else {
        let tok = s.rest[0];
        lemma_adv(s);
        if tok.kind == TokenKind::Ret {
            lemma_ret(s);
        } else if tok.kind == TokenKind::Defer {
            lemma_defer(s);
        } else if tok.kind == TokenKind::Break {
            lemma_break(s);
        } else if tok.kind == TokenKind::Next {
        } else if tok.kind == TokenKind::OpenBrace {
            lemma_code_block(s);
        } else if tok.kind == TokenKind::Ident {
            lemma_var_decl(s);
            if let PRes::Done(Some(_), s2) = sp_var_decl(s) {
                lemma_skip_kinds(s2, line_terminators());
            }
            lemma_expr_stmt(s, tok.span);
        } else {
            lemma_expr_stmt(s, tok.span);
        }
    }
}

#[verifier::spinoff_prover]
proof fn lemma_expr_stmt(s: PState, span: CodeSpan)
    requires
        fits(s),
    ensures
        lands_past(sp_expr_stmt(s, span), s),
    decreases s.rest.len(), 3nat,
{
    reveal(sp_expr_stmt);
    reveal(sp_expr);
    lemma_expr(s, 0);
    if let PRes::Done(_, s2) = sp_expr(s, 0) {
        lemma_skip_kinds(s2, line_terminators());
    }
}

#[verifier::spinoff_prover]
proof fn lemma_var_decl(s: PState)
    requires
        fits(s),
        s.cur is Some,
        s.rest.len() > 0,
        s.rest[0].kind == TokenKind::Ident,
    ensures
        lands(sp_var_decl(s), s),
        sp_var_decl(s) matches PRes::Done(Some(_), s2) ==> s2.rest.len() < s.rest.len(),
        sp_var_decl(s) matches PRes::Done(None, s2) ==> s2 == s,
    decreases s.rest.len(), 1nat,
{
    reveal(sp_var_decl);
    reveal(sp_expr);
    if decl_separator(s.rest) is Some {
        let sep = decl_separator(s.rest)->Some_0;
        let s1 = p_adv(s);
        lemma_adv(s);
        let ty = if !next_is(s1, sep) {
            lemma_type_expr(s1);
            match sp_type_expr(s1) {
                PRes::Done(t, s2) => PRes::Done(Some(t), s2),
                PRes::Fail(e, s2) => PRes::Fail(e, s2),
                PRes::Stuck => PRes::Stuck,
            }
        } else {
            PRes::Done(None, s1)
        };
        if let PRes::Done(_, s2) = ty {
            lemma_consume(s2, sep, separator_msg(sep));
            if let PRes::Done(_, s3) = consume(s2, sep, separator_msg(sep)) {
                lemma_expr(s3, 0);
            }
        }
    }
}

#[verifier::spinoff_prover]
proof fn lemma_ret(s: PState)
    requires
        fits(s),
        s.rest.len() > 0,
    ensures
        lands_past(sp_ret(s), s),
    decreases s.rest.len(), 1nat,
{
    reveal(sp_ret);
    reveal(sp_expr);
    let s1 = p_adv(s);
    lemma_adv(s);
    lemma_adv(s1);
    if !next_is_any(s1, line_terminators()) {
        lemma_expr(s1, 0);
    }
}

#[verifier::spinoff_prover]
proof fn lemma_defer(s: PState)
    requires
        fits(s),
        s.rest.len() > 0,
    ensures
        lands_past(sp_defer(s), s),
    decreases s.rest.len(), 1nat,
{
    reveal(sp_defer);
    reveal(sp_stmt);
    let s1 = p_adv(s);
    lemma_adv(s);
    lemma_stmt(s1);
}

#[verifier::spinoff_prover]
proof fn lemma_break(s: PState)
    requires
        fits(s),
        s.rest.len() > 0,
    ensures
        lands_past(sp_break(s), s),
    decreases s.rest.len(), 1nat,
{
    reveal(sp_break);
    reveal(sp_expr);
    let s1 = p_adv(s);
    lemma_adv(s);
    if !next_is_any(s1, line_terminators()) {
        lemma_expr(s1, 0);
    }
}

proof fn lemma_push(s: PState, e: ParserErrorM, d: DeclM)
    requires
        fits(s),
    ensures
        fits(push_error(s, e)),
        fits(push_decl(s, d)),
        push_error(s, e).rest == s.rest,
        push_decl(s, d).rest == s.rest,
{
    reveal(fits);
}

proof fn lemma_generic_params(s: PState)
    requires
        fits(s),
        s.cur is Some,
    ensures
        lands(sp_generic_params(s), s),
{
    lemma_adv(s);
    if next_is(s, TokenKind::OpenBrack) {
        let s1 = p_adv(s);
        lemma_adv(s1);
        if !next_is(s1, TokenKind::CloseBrack) {
            lemma_generic_param_list(s1, Seq::empty());
        }
    }
}

proof fn lemma_bounds(s: PState, bounds: Seq<IdentM>)
    requires
        fits(s),
    ensures
        lands_past(sp_bounds(s, bounds), s),
    decreases s.rest.len(),
{
    lemma_adv(s);
    lemma_consume(s, TokenKind::Ident, "Expected trait"@);
    if let PRes::Done(_, s1) = consume(s, TokenKind::Ident, "Expected trait"@) {
        lemma_path(s1);
        let (b, s2) = sp_path_or_ident(s1)->Some_0;
        if next_is(s2, TokenKind::Ident) {
            lemma_bounds(s2, bounds.push(b));
        }
    }
}

proof fn lemma_generic_param_list(s: PState, gens: Seq<GenericParamM>)
    requires
        fits(s),
    ensures
        lands_past(sp_generic_param_list(s, gens), s),
    decreases s.rest.len(),
{
    lemma_adv(s);
    lemma_consume(s, TokenKind::Ident, "Expected generic type identifier"@);
    if let PRes::Done(_, s1) = consume(s, TokenKind::Ident, "Expected generic type identifier"@) {
        lemma_adv(s1);
        let ident = cur_value(s1)->Some_0;
        let bounds = if next_is(s1, TokenKind::Impl) {
            lemma_bounds(p_adv(s1), Seq::empty());
            sp_bounds(p_adv(s1), Seq::empty())
        } else {
            PRes::Done(Seq::empty(), s1)
        };
        if let PRes::Done(bs, s3) = bounds {
            lemma_adv(s3);
            if !next_is(s3, TokenKind::CloseBrack) && next_is(s3, TokenKind::Comma) {
                let s5 = skip_lt(p_adv(s3));
                lemma_skip_kinds(p_adv(s3), line_terminators());
                lemma_adv(s5);
                if !next_is(s5, TokenKind::CloseBrack) {
                    lemma_generic_param_list(s5, gens.push(GenericParamM { ident, bounds: Some(bs) }));
                }
            }
        }
    }
}

proof fn lemma_impl_traits(s: PState)
    requires
        fits(s),
        s.cur is Some,
    ensures
        lands(sp_impl_traits(s), s),
{
    lemma_adv(s);
    if next_is(s, TokenKind::Impl) {
        lemma_impl_list(p_adv(s), Seq::empty());
    }
}

proof fn lemma_impl_list(s: PState, traits: Seq<TraitBoundM>)
    requires
        fits(s),
    ensures
        lands_past(sp_impl_list(s, traits), s),
    decreases s.rest.len(),
{
    lemma_adv(s);
    lemma_consume(s, TokenKind::Ident, "Expected trait"@);
    if let PRes::Done(_, s1) = consume(s, TokenKind::Ident, "Expected trait"@) {
        lemma_path(s1);
        let (ident, s2) = sp_path_or_ident(s1)->Some_0;
        lemma_adv(s2);
        let args = if next_is(s2, TokenKind::OpenBrack) {
            let s3 = p_adv(s2);
            lemma_adv(s3);
            if next_is(s3, TokenKind::CloseBrack) {
                PRes::Done(Seq::empty(), p_adv(s3))
            } else {
                lemma_type_list(s3, Seq::empty(), "Expected ',' or ']'"@);
                sp_type_list(s3, Seq::empty(), "Expected ',' or ']'"@)
            }
        } else {
            PRes::Done(Seq::empty(), s2)
        };
        if let PRes::Done(a, s4) = args {
            lemma_adv(s4);
            if next_is(s4, TokenKind::Comma) {
                let s6 = skip_lt(p_adv(s4));
                lemma_skip_kinds(p_adv(s4), line_terminators());
                lemma_impl_list(s6, traits.push(TraitBoundM { ident, args: a }));
            }
        }
    }
}

proof fn lemma_params(s: PState, ps: Seq<TypedVarM>)
    requires
        fits(s),
    ensures
        lands_past(sp_params(s, ps), s),
    decreases s.rest.len(),
{
    lemma_adv(s);
    lemma_consume(s, TokenKind::Ident, "Expected variable identifier"@);
    if let PRes::Done(_, s1) = consume(s, TokenKind::Ident, "Expected variable identifier"@) {
        lemma_adv(s1);
        let v = cur_value(s1)->Some_0;
        lemma_type_expr(s1);
        if let PRes::Done(t, s2) = sp_type_expr(s1) {
            lemma_adv(s2);
            let ps2 = ps.push(TypedVarM { ident: v, type_expr: t });
            if next_is(s2, TokenKind::CloseParen) {
            } else if next_is(s2, TokenKind::Comma) {
                lemma_params(p_adv(s2), ps2);
            } else if s2.rest.len() > 0 {
                let t = s2.rest[0];
                let e = unexpected("Expected argument delimiter ',' or closed parenthesis ')'"@, Some(t), t.span);
                lemma_push(s2, e, arbitrary());
                lemma_adv(push_error(s2, e));
                lemma_params(p_adv(push_error(s2, e)), ps2);
            }
        }
    }
}

proof fn lemma_fn_signature(s: PState)
    requires
        fits(s),
    ensures
        lands_past(sp_fn_signature(s), s),
{
    lemma_adv(s);
    let s1 = p_adv(s);
    lemma_adv(s1);
    lemma_consume(s1, TokenKind::Ident, "Expected function identifier"@);
    if let PRes::Done(_, s2) = consume(s1, TokenKind::Ident, "Expected function identifier"@) {
        lemma_generic_params(s2);
        if let PRes::Done(_, s3) = sp_generic_params(s2) {
            lemma_consume(s3, TokenKind::OpenParen, "Expected open parenthesis"@);
            if let PRes::Done(_, s4) = consume(s3, TokenKind::OpenParen, "Expected open parenthesis"@) {
                lemma_adv(s4);
                let params = if next_is(s4, TokenKind::CloseParen) {
                    PRes::Done(Seq::empty(), p_adv(s4))
                } else {
                    lemma_params(s4, Seq::empty());
                    sp_params(s4, Seq::empty())
                };
                if let PRes::Done(_, s5) = params {
                    if !next_is_any(s5, seq![TokenKind::LineBreak, TokenKind::OpenBrace]) {
                        lemma_type_expr(s5);
                    }
                }
            }
        }
    }
}

proof fn lemma_fn_decl(s: PState)
    requires
        fits(s),
        s.rest.len() > 0,
    ensures
        lands_past(sp_fn_decl(s), s),
{
    lemma_fn_signature(s);
    if let PRes::Done(_, s1) = sp_fn_signature(s) {
        lemma_skip_kind(s1, TokenKind::LineBreak);
        lemma_code_block(skip_kind(s1, TokenKind::LineBreak));
    }
}

proof fn lemma_use_decl(s: PState)
    requires
        fits(s),
        s.rest.len() > 0,
    ensures
        lands_past(sp_use_decl(s), s),
{
    lemma_adv(s);
    let s1 = p_adv(s);
    lemma_consume(s1, TokenKind::Ident, "Expected identifier"@);
    if let PRes::Done(_, s2) = consume(s1, TokenKind::Ident, "Expected identifier"@) {
        lemma_adv(s1);
        lemma_path(s2);
        let s3 = sp_path_or_ident(s2)->Some_0.1;
        lemma_adv(s3);
    }
}

proof fn lemma_struct_fields(s: PState, fields: Seq<TypedVarM>)
    requires
        fits(s),
    ensures
        lands(sp_struct_fields(s, fields), s),
    decreases s.rest.len(),
{
    let s1 = skip_kind(s, TokenKind::LineBreak);
    lemma_skip_kind(s, TokenKind::LineBreak);
    lemma_adv(s1);
    if !next_is(s1, TokenKind::CloseBrace) {
        lemma_consume(s1, TokenKind::Ident, "Expected variable identifier"@);
        if let PRes::Done(_, s2) = consume(s1, TokenKind::Ident, "Expected variable identifier"@) {
            lemma_adv(s1);
            lemma_type_expr(s2);
            if let PRes::Done(t, s3) = sp_type_expr(s2) {
                let fields2 = fields.push(TypedVarM { ident: cur_value(s2)->Some_0, type_expr: t });
                lemma_consume_any(s3, seq![TokenKind::LineBreak, TokenKind::Comma], "Expected comma ',' or linebreak"@);
                let sep = if !next_kind(s3, TokenKind::CloseBrace) {
                    consume_any(s3, seq![TokenKind::LineBreak, TokenKind::Comma], "Expected comma ',' or linebreak"@)
                } else {
                    PRes::Done((), s3)
                };
                if let PRes::Done(_, s4) = sep {
                    lemma_struct_fields(s4, fields2);
                }
            }
        }
    }
}

proof fn lemma_struct_decl(s: PState)
    requires
        fits(s),
        s.rest.len() > 0,
    ensures
        lands_past(sp_struct_decl(s), s),
{
    lemma_adv(s);
    let s1 = p_adv(s);
    lemma_consume(s1, TokenKind::Ident, "Expected struct identifier"@);
    if let PRes::Done(_, s2) = consume(s1, TokenKind::Ident, "Expected struct identifier"@) {
        lemma_adv(s1);
        lemma_generic_params(s2);
        if let PRes::Done(_, s3) = sp_generic_params(s2) {
            lemma_impl_traits(s3);
            if let PRes::Done(_, s4) = sp_impl_traits(s3) {
                let s4b = skip_kind(s4, TokenKind::LineBreak);
                lemma_skip_kind(s4, TokenKind::LineBreak);
                lemma_consume(s4b, TokenKind::OpenBrace, "Expected open brace or impl"@);
                if let PRes::Done(_, s5) = consume(s4b, TokenKind::OpenBrace, "Expected open brace or impl"@) {
                    lemma_struct_fields(s5, Seq::empty());
                }
            }
        }
    }
}

proof fn lemma_tuple_types(s: PState, ts: Seq<TypeExprM>)
    requires
        fits(s),
        s.cur is Some,
    ensures
        lands(sp_tuple_types(s, ts), s),
    decreases s.rest.len(),
{
    let s1 = skip_lt(s);
    lemma_skip_kinds(s, line_terminators());
    lemma_type_expr(s1);
    if let PRes::Done(t, s2) = sp_type_expr(s1) {
        let s3 = skip_lt(s2);
        lemma_skip_kinds(s2, line_terminators());
        lemma_adv(s3);
        if !next_is(s3, TokenKind::CloseParen) {
            lemma_consume(s3, TokenKind::Comma, "Expected ',' or ')'"@);
            if let PRes::Done(_, s4) = consume(s3, TokenKind::Comma, "Expected ',' or ')'"@) {
                lemma_tuple_types(s4, ts.push(t));
            }
        }
    }
}

proof fn lemma_variant_fields(s: PState, fs: Seq<TypedVarM>)
    requires
        fits(s),
    ensures
        lands(sp_variant_fields(s, fs), s),
    decreases s.rest.len(),
{
    let s1 = skip_lt(s);
    lemma_skip_kinds(s, line_terminators());
    lemma_adv(s1);
    if !next_is(s1, TokenKind::CloseBrace) {
        lemma_consume(s1, TokenKind::Ident, "Expected field identifier"@);
        if let PRes::Done(_, s2) = consume(s1, TokenKind::Ident, "Expected field identifier"@) {
            lemma_adv(s1);
            lemma_type_expr(s2);
            if let PRes::Done(t, s3) = sp_type_expr(s2) {
                lemma_adv(s3);
                let s4 = if next_is_any(s3, seq![TokenKind::Comma, TokenKind::LineBreak]) { p_adv(s3) } else { s3 };
                lemma_variant_fields(s4, fs.push(TypedVarM { ident: cur_value(s2)->Some_0, type_expr: t }));
            }
        }
    }
}

proof fn lemma_variant_data(s: PState)
    requires
        fits(s),
        s.cur is Some,
    ensures
        lands(sp_variant_data(s), s),
{
    lemma_adv(s);
    if next_is(s, TokenKind::OpenParen) {
        let s1 = p_adv(s);
        lemma_adv(s1);
        if !next_is(s1, TokenKind::CloseParen) {
            lemma_tuple_types(s1, Seq::empty());
        }
    } else if next_is(s, TokenKind::OpenBrace) {
        lemma_variant_fields(p_adv(s), Seq::empty());
    }
}

proof fn lemma_variants(s: PState, vs: Seq<VariantM>)
    requires
        fits(s),
    ensures
        lands(sp_variants(s, vs), s),
    decreases s.rest.len(),
{
    let s1 = skip_lt(s);
    lemma_skip_kinds(s, line_terminators());
    lemma_adv(s1);
    if !next_is(s1, TokenKind::CloseBrace) {
        lemma_consume(s1, TokenKind::Ident, "Expected variant identifier"@);
        if let PRes::Done(_, s2) = consume(s1, TokenKind::Ident, "Expected variant identifier"@) {
            lemma_adv(s1);
            lemma_variant_data(s2);
            if let PRes::Done(data, s3) = sp_variant_data(s2) {
                lemma_consume_any(s3, seq![TokenKind::LineBreak, TokenKind::Comma], "Expected ',', or linebreak between variants"@);
                let sep = if !next_kind(s3, TokenKind::CloseBrace) {
                    consume_any(s3, seq![TokenKind::LineBreak, TokenKind::Comma], "Expected ',', or linebreak between variants"@)
                } else {
                    PRes::Done((), s3)
                };
                if let PRes::Done(_, s4) = sep {
                    lemma_variants(s4, vs.push(VariantM { ident: cur_value(s2)->Some_0, data }));
                }
            }
        }
    }
}

proof fn lemma_sum_decl(s: PState)
    requires
        fits(s),
        s.rest.len() > 0,
    ensures
        lands_past(sp_sum_decl(s), s),
{
    lemma_adv(s);
    let s1 = p_adv(s);
    lemma_consume(s1, TokenKind::Ident, "Expected sum type identifier"@);
    if let PRes::Done(_, s2) = consume(s1, TokenKind::Ident, "Expected sum type identifier"@) {
        lemma_adv(s1);
        lemma_generic_params(s2);
        if let PRes::Done(_, s3) = sp_generic_params(s2) {
            lemma_impl_traits(s3);
            if let PRes::Done(_, s4) = sp_impl_traits(s3) {
                lemma_skip_kinds(s4, line_terminators());
                lemma_consume(skip_lt(s4), TokenKind::OpenBrace, "Expected '{'"@);
                if let PRes::Done(_, s5) = consume(skip_lt(s4), TokenKind::OpenBrace, "Expected '{'"@) {
                    lemma_variants(s5, Seq::empty());
                }
            }
        }
    }
}

proof fn lemma_methods(s: PState, ms: Seq<FnSignatureM>)
    requires
        fits(s),
    ensures
        lands(sp_methods(s, ms), s),
    decreases s.rest.len(),
{
    let s1 = skip_lt(s);
    lemma_skip_kinds(s, line_terminators());
    lemma_adv(s1);
    if !next_is(s1, TokenKind::CloseBrace) {
        lemma_fn_signature(s1);
        if let PRes::Done(m, s2) = sp_fn_signature(s1) {
            lemma_skip_kinds(s2, line_terminators());
            lemma_methods(skip_lt(s2), ms.push(m));
        }
    }
}

proof fn lemma_trait_decl(s: PState)
    requires
        fits(s),
        s.rest.len() > 0,
    ensures
        lands_past(sp_trait_decl(s), s),
{
    lemma_adv(s);
    let s1 = p_adv(s);
    lemma_consume(s1, TokenKind::Ident, "Expected trait identifier"@);
    if let PRes::Done(_, s2) = consume(s1, TokenKind::Ident, "Expected trait identifier"@) {
        lemma_adv(s1);
        lemma_generic_params(s2);
        if let PRes::Done(_, s3) = sp_generic_params(s2) {
            lemma_skip_kinds(s3, line_terminators());
            lemma_consume(skip_lt(s3), TokenKind::OpenBrace, "Expected '{'"@);
            if let PRes::Done(_, s4) = consume(skip_lt(s3), TokenKind::OpenBrace, "Expected '{'"@) {
                lemma_methods(s4, Seq::empty());
            }
        }
    }
}

proof fn lemma_decl_at(s: PState, k: TokenKind)
    requires
        fits(s),
        s.rest.len() > 0,
    ensures
        lands_past(sp_decl_at(s, k), s),
{
    if k == TokenKind::Use {
        lemma_use_decl(s);
    } else if k == TokenKind::Struct {
        lemma_struct_decl(s);
    } else if k == TokenKind::Sum {
        lemma_sum_decl(s);
    } else if k == TokenKind::Fn {
        lemma_fn_decl(s);
    } else {
        lemma_trait_decl(s);
    }
}

proof fn lemma_top_level(s: PState)
    requires
        fits(s),
    ensures
        sp_top_level(s) !is Stuck,
    decreases s.rest.len(),
{
    lemma_adv(s);
    if s.rest.len() > 0 {
        let t = s.rest[0];
        if t.kind == TokenKind::Use || t.kind == TokenKind::Struct || t.kind == TokenKind::Sum
            || t.kind == TokenKind::Fn || t.kind == TokenKind::Trait {
            lemma_decl_at(s, t.kind);
            if let PRes::Done(d, s2) = sp_decl_at(s, t.kind) {
                lemma_push(s2, arbitrary(), d);
                lemma_top_level(push_decl(s2, d));
            }
        } else if t.kind == TokenKind::LineBreak {
            lemma_top_level(p_adv(s));
        } else if t.kind != TokenKind::EndOfFile {
            let e = unexpected("Unexpected token parsing top-level declarations"@, Some(t), t.span);
            let s2 = push_error(s, e);
            lemma_push(s, e, arbitrary());
            lemma_adv(s2);
            lemma_skip_unless(p_adv(s2), decl_start_kinds());
            lemma_top_level(skip_unless(p_adv(s2), decl_start_kinds()));
        }
    }
}

/// Parsing finishes whenever the tokens still to read, and the current token,
/// carry their texts: every routine builds its node or reports an error, and
/// none stops short, also where the tokens run out inside a construct.
pub proof fn lemma_parse_finishes(s: PState)
    requires
        fits(s),
    ensures
        sp_parse(s) is Some,
{
    if s.only_expr {
        lemma_adv(s);
        lemma_expr(s, 0);
    } else {
        lemma_top_level(s);
    }
}

/// A parser that has read nothing of tokens that carry their texts meets the
/// condition under which parsing finishes.
pub proof fn lemma_tokens_fit(tokens: Seq<TokenM>, only_expr: bool)
    requires
        all_carry_texts(tokens),
    ensures
        fits(initial_parse_state(tokens, only_expr)),
{
    reveal(fits);
}

/// Parsing a token sequence in which each identifier, string literal and number
/// literal carries its text finishes, in either mode.
pub proof fn lemma_parse_of_tokens_finishes(tokens: Seq<TokenM>, only_expr: bool)
    requires
        all_carry_texts(tokens),
    ensures
        sp_parse(initial_parse_state(tokens, only_expr)) is Some,
{
    reveal(fits);
    lemma_parse_finishes(initial_parse_state(tokens, only_expr));
}

/// Lexed tokens carry their texts.
pub proof fn lemma_lexed_tokens_carry_texts(ts: Seq<TokenM>)
    requires
        texts_fit_kinds(ts),
    ensures
        all_carry_texts(ts),
{
    assert forall|i: int| 0 <= i < ts.len() implies #[trigger] carries_text(ts[i]) by {
        assert(text_fits_kind(ts[i]));
    }
}

/// `span` runs from the start of `first` to the end of the current token of `s`.
pub open spec fn spans_to(span: CodeSpan, first: CodeSpan, s: PState) -> bool {
    s.cur matches Some(c) && span == span_of(first.start, c.span.end)
}

#[verifier::spinoff_prover]
proof fn lemma_expr_span_rec(s: PState, min_bp: u8)
    ensures
        sp_expr(s, min_bp) matches PRes::Done(e, s2) ==> s.rest.len() > 0 && spans_to(e.span, s.rest[0].span, s2),
    decreases s.rest.len(), 2nat,
{
    reveal(sp_expr);
    reveal(sp_prefix);
    reveal(sp_expr_loop);
    if s.rest.len() > 0 {
        lemma_prefix_span(s);
        if let PRes::Done(left, s1) = sp_prefix(s) {
            if s1.rest.len() < s.rest.len() {
                lemma_expr_loop_span(s1, min_bp, left, s.rest[0].span);
            }
        }
    }
}

#[verifier::spinoff_prover]
proof fn lemma_prefix_span(s: PState)
    requires
        s.rest.len() > 0,
    ensures
        sp_prefix(s) matches PRes::Done(e, s2) ==> spans_to(e.span, s.rest[0].span, s2),
    decreases s.rest.len(), 1nat,
{
    reveal(sp_prefix);
    reveal(sp_expr);
    reveal(sp_for_loop);
    reveal(sp_array_literal);
    reveal(sp_if_else);
    let tok = s.rest[0];
    let s1 = p_adv(s);
    if spec_unary_op_of(tok.kind) is Some {
        lemma_expr_span_rec(s1, 17);
    } else if tok.kind == TokenKind::OpenBrack {
        lemma_array_literal_span(s1);
    }
}

#[verifier::spinoff_prover]
proof fn lemma_array_literal_span(s: PState)
    ensures
        sp_array_literal(s) matches PRes::Done(e, s2) ==> spans_to(e.span, s.cur->Some_0.span, s2),
    decreases s.rest.len(), 4nat,
{
    reveal(sp_array_literal);
    reveal(sp_array_elems);
    if s.cur is Some && !next_is(s, TokenKind::CloseBrack) {
        lemma_array_elems_span(s, Seq::empty(), s.cur->Some_0.span);
    }
}

#[verifier::spinoff_prover]
proof fn lemma_array_elems_span(s: PState, elems: Seq<ExprM>, span: CodeSpan)
    ensures
        sp_array_elems(s, elems, span) matches PRes::Done(e, s2) ==> spans_to(e.span, span, s2),
    decreases s.rest.len(), 3nat,
{
    reveal(sp_array_elems);
    reveal(sp_expr);
    if let PRes::Done(e, s1) = sp_expr(s, 0) {
        let s2 = skip_lt(s1);
        if !next_is(s2, TokenKind::CloseBrack) && next_is(s2, TokenKind::Comma) {
            let s4 = skip_lt(p_adv(s2));
            if !next_is(s4, TokenKind::CloseBrack) && s4.rest.len() < s.rest.len() {
                lemma_array_elems_span(s4, elems.push(e), span);
            }
        }
    }
}

#[verifier::spinoff_prover]
proof fn lemma_expr_loop_span(s: PState, min_bp: u8, left: ExprM, span: CodeSpan)
    requires
        spans_to(left.span, span, s),
    ensures
        sp_expr_loop(s, min_bp, left, span) matches PRes::Done(e, s2) ==> spans_to(e.span, span, s2),
    decreases s.rest.len(), 1nat,
{
    reveal(sp_expr_loop);
    reveal(sp_expr);
    reveal(sp_fn_call_args);
    if s.rest.len() > 0 {
        let op = s.rest[0];
        if let Some((l_bp, r_bp)) = spec_token_infix_bp(op.kind) {
            if l_bp >= min_bp {
                let s1 = p_adv(s);
                if spec_is_assignment_kind(op.kind) {
                    if let PRes::Done(right, s2) = sp_expr(s1, r_bp) {
                        if let Some(sp) = end_of(span, s2) {
                            if s2.rest.len() < s.rest.len() {
                                lemma_expr_loop_span(s2, min_bp, ExprM {
                                    span: sp,
                                    kind: ExprKindM::Assign { assignee: Box::new(left), operator: op.kind, value: Box::new(right) },
                                }, sp);
                            }
                        }
                    }
                } else if op.kind == TokenKind::OpenParen {
                    if let PRes::Done(args, s2) = sp_fn_call_args(s1) {
                        if let Some(sp) = end_of(span, s2) {
                            if s2.rest.len() < s.rest.len() {
                                lemma_expr_loop_span(s2, min_bp, ExprM { span: sp, kind: ExprKindM::FnCall { callee: Box::new(left), args } }, sp);
                            }
                        }
                    }
                } else if op.kind == TokenKind::Dot {
                    if next_is(s1, TokenKind::Star) {
                        let s2 = p_adv(s1);
                        if let Some(sp) = end_of(span, s2) {
                            lemma_expr_loop_span(s2, min_bp, ExprM {
                                span: sp,
                                kind: ExprKindM::Unary { operator: UnaryOp::Deref, expr: Box::new(left) },
                            }, sp);
                        }
                    } else {
                        let s2 = skip_lt(s1);
                        lemma_skip_kinds_len(s1, line_terminators());
                        if let PRes::Done(_, s3) = consume(s2, TokenKind::Ident, "Expected identifier or '*' after '.'"@) {
                            lemma_path_len(s3);
                            if let Some((member, s4)) = sp_path_or_ident(s3) {
                                if let Some(sp) = end_of(span, s4) {
                                    lemma_expr_loop_span(s4, min_bp, ExprM {
                                        span: sp,
                                        kind: ExprKindM::FieldAccess { called_on: Box::new(left), member_ident: member },
                                    }, sp);
                                }
                            }
                        }
                    }
                } else if op.kind == TokenKind::OpenBrack {
                    if let PRes::Done(index, s2) = sp_expr(s1, 0) {
                        if let PRes::Done(_, s3) = consume(s2, TokenKind::CloseBrack, "Expected ']' after array index"@) {
                            if let Some(sp) = end_of(span, s3) {
                                if s3.rest.len() < s.rest.len() {
                                    lemma_expr_loop_span(s3, min_bp, ExprM {
                                        span: sp,
                                        kind: ExprKindM::ArrayAccessor { array: Box::new(left), index: Box::new(index) },
                                    }, sp);
                                }
                            }
                        }
                    }
                } else if op.kind == TokenKind::Colon {
                    if let PRes::Done(_, s2) = consume(s1, TokenKind::OpenBrack, "Expected '[' after ':' for generic call"@) {
                        let args = if next_is(s2, TokenKind::CloseBrack) {
                            PRes::Done(Seq::empty(), p_adv(s2))
                        } else {
                            sp_call_type_args(s2, Seq::empty(), span)
                        };
                        if let PRes::Done(type_args, s3) = args {
                            if let Some(sp) = end_of(span, s3) {
                                if s3.rest.len() < s.rest.len() {
                                    lemma_expr_loop_span(s3, min_bp, ExprM {
                                        span: sp,
                                        kind: ExprKindM::GenericFnCallPart { callee: Box::new(left), type_args: Some(type_args) },
                                    }, sp);
                                }
                            }
                        }
                    }
                } else if let Some(bop) = spec_binary_op_of(op.kind) {
                    let s2 = skip_lt(s1);
                    lemma_skip_kinds_len(s1, line_terminators());
                    if let PRes::Done(right, s3) = sp_expr(s2, r_bp) {
                        if let Some(sp) = end_of(span, s3) {
                            if s3.rest.len() < s.rest.len() {
                                lemma_expr_loop_span(s3, min_bp, ExprM {
                                    span: sp,
                                    kind: ExprKindM::Binary { left_expr: Box::new(left), operator: bop, right_expr: Box::new(right) },
                                }, sp);
                            }
                        }
                    }
                }
            }
        }
    }
}

/// An expression's span runs from the start of its first token to the end of
/// the last token read for it: where parsing an expression succeeds, the span
/// starts where the first token starts and ends where the token read last ends.
pub proof fn lemma_expr_span(s: PState, min_bp: u8)
    ensures
        sp_expr(s, min_bp) matches PRes::Done(e, s2) ==> s.rest.len() > 0 && s2.cur is Some
            && e.span == span_of(s.rest[0].span.start, s2.cur->Some_0.span.end),
{
    lemma_expr_span_rec(s, min_bp);
}

/// `ret` returns what follows it: before a line terminator, nothing; else the
/// expression read after it, with the state and any error of that reading.
pub proof fn lemma_ret_returns_the_expression(s: PState)
    requires
        s.rest.len() > 0,
    ensures
        next_is_any(p_adv(s), line_terminators()) ==> (sp_ret(s) matches PRes::Done(st, s2)
            && st.kind == StmtKindM::Ret(None) && s2 == p_adv(p_adv(s))),
        !next_is_any(p_adv(s), line_terminators()) ==> match sp_expr(p_adv(s), 0) {
            PRes::Done(e, s2) => sp_ret(s) == PRes::Done(StmtM { span: s.rest[0].span, kind: StmtKindM::Ret(Some(e)) }, s2),
            PRes::Fail(err, s2) => sp_ret(s) == PRes::Fail::<StmtM>(err, s2),
            PRes::Stuck => sp_ret(s) is Stuck,
        },
{
    reveal(sp_ret);
    reveal(sp_expr);
}

proof fn lemma_params_end_at_paren(s: PState, ps: Seq<TypedVarM>)
    ensures
        sp_params(s, ps) matches PRes::Done(_, s2) ==> (s2.cur matches Some(c) && c.kind == TokenKind::CloseParen),
    decreases s.rest.len(),
{
    if let PRes::Done(_, s1) = consume(s, TokenKind::Ident, "Expected variable identifier"@) {
        if let Some(v) = cur_value(s1) {
            if let PRes::Done(t, s2) = sp_type_expr(s1) {
                let ps2 = ps.push(TypedVarM { ident: v, type_expr: t });
                if next_is(s2, TokenKind::CloseParen) {
                } else if next_is(s2, TokenKind::Comma) {
                    if s2.rest.len() < s.rest.len() {
                        lemma_params_end_at_paren(p_adv(s2), ps2);
                    }
                } else if s2.rest.len() > 0 {
                    let t = s2.rest[0];
                    let s3 = p_adv(push_error(s2, unexpected(
                        "Expected argument delimiter ',' or closed parenthesis ')'"@, Some(t), t.span)));
                    if s3.rest.len() < s.rest.len() {
                        lemma_params_end_at_paren(s3, ps2);
                    }
                }
            }
        }
    }
}

/// A function's return type is the type written after its parameters: where
/// the signature has one, it is what reading a type right after the closing
/// parenthesis gives, and the signature ends there; where it has none, the
/// signature ends at the closing parenthesis.
pub proof fn lemma_return_type_is_read_after_the_parameters(s: PState)
    ensures
        sp_fn_signature(s) matches PRes::Done(sig, s6) ==> match sig.return_type {
            Some(t) => exists|s5: PState| (s5.cur matches Some(c) && c.kind == TokenKind::CloseParen)
                && #[trigger] sp_type_expr(s5) == PRes::Done(t, s6),
            None => s6.cur matches Some(c) && c.kind == TokenKind::CloseParen,
        },
{
    if let PRes::Done(_, s2) = consume(p_adv(s), TokenKind::Ident, "Expected function identifier"@) {
        if let PRes::Done(_, s3) = sp_generic_params(s2) {
            if let PRes::Done(_, s4) = consume(s3, TokenKind::OpenParen, "Expected open parenthesis"@) {
                if !next_is(s4, TokenKind::CloseParen) {
                    lemma_params_end_at_paren(s4, Seq::empty());
                }
                let params = if next_is(s4, TokenKind::CloseParen) {
                    PRes::Done(Seq::empty(), p_adv(s4))
                } else {
                    sp_params(s4, Seq::empty())
                };
                if let PRes::Done(_, s5) = params {
                    if !next_is_any(s5, seq![TokenKind::LineBreak, TokenKind::OpenBrace]) {
                        if let PRes::Done(t, s6) = sp_type_expr(s5) {
                            assert(sp_type_expr(s5) == PRes::Done(t, s6));
                        }
                    }
                }
            }
        }
    }
}

/// A function declaration holds the signature that reading a signature gives
/// and, as its body, the block after it (past any line breaks).
pub proof fn lemma_fn_decl_keeps_its_signature(s: PState)
    ensures
        sp_fn_decl(s) matches PRes::Done(d, s3) ==> (sp_fn_signature(s) matches PRes::Done(sig, s1)
            && sp_code_block(skip_kind(s1, TokenKind::LineBreak)) matches PRes::Done(body, s4)
            && s4 == s3 && d.kind == DeclKindM::Fn { signature: sig, body }),
{
}

} // verus!
