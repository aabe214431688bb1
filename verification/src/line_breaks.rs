//! Line feeds and carriage-return line feeds lex alike: writing each line
//! break of a text as `\r\n` in place of `\n` gives the same tokens, kind for
//! kind and text for text, and the same errors.

use vstd::prelude::*;
use crate::token::{TokenKind, TokenM, NumberLiteralKind};
use crate::error::LexerError;
use crate::lexer_spec::{
    LexState, peek_at, adv, upd, skip_comment_loop, cur_span, is_word_char, is_op_char, single_char_kind, pair_kinds,
    number_loop, non_decimal_s, radix_prefix_kind, nd_loop, spec_is_digit, ident_loop,
    next_token_loop, next_token_s, with_error, tokens_loop, lex_source, initial_lex_state,
    lemma_lexing_returns, lemma_next_token_loop_progress, bad_radix_at, bad_radix_error, after_error, lemma_tokens_step,
};
use crate::token::spec_radix;

verus! {

/// `t` with each line feed written as a carriage return and a line feed.
pub open spec fn crlf(t: Seq<char>) -> Seq<char>
    decreases t.len(),
{
    if t.len() == 0 {
        t
    } else if t[0] == '\n' {
        seq!['\r', '\n'] + crlf(t.drop_first())
    } else {
        seq![t[0]] + crlf(t.drop_first())
    }
}

/// The text holds no string quote and no carriage return.
pub open spec fn plain_text(t: Seq<char>) -> bool {
    forall|i: int| 0 <= i < t.len() ==> #[trigger] t[i] != '"' && t[i] != '\r'
}

/// Two tokens of the same kind with the same text.
pub open spec fn same_token(x: TokenM, y: TokenM) -> bool {
    x.kind == y.kind && x.value == y.value
}

/// Two token sequences that agree kind for kind and text for text.
pub open spec fn same_tokens(xs: Seq<TokenM>, ys: Seq<TokenM>) -> bool {
    xs.len() == ys.len() && forall|i: int| 0 <= i < xs.len() ==> #[trigger] same_token(xs[i], ys[i])
}

/// Two outcomes of one lexing step: the same error, or tokens of the same
/// kind and text.
pub open spec fn same_outcome(x: Result<TokenM, LexerError>, y: Result<TokenM, LexerError>) -> bool {
    match (x, y) {
        (Ok(a), Ok(b)) => same_token(a, b),
        (Err(a), Err(b)) => a == b,
        _ => false,
    }
}

/// `b` is the state `a` in the text with `\r\n` line breaks, where the last
/// token may have ended elsewhere.
pub open spec fn crlf_state(a: LexState, b: LexState) -> bool {
    b.rest == crlf(a.rest) && b.loc == a.loc && b.errors == a.errors
}

/// `crlf_state`, where the last token ended at the same place.
pub open spec fn crlf_twin(a: LexState, b: LexState) -> bool {
    crlf_state(a, b) && b.last == a.last
}

proof fn lemma_crlf_step(a: LexState, b: LexState)
    requires
        crlf_twin(a, b),
        plain_text(a.rest),
    ensures
        a.rest.len() == 0 <==> b.rest.len() == 0,
        a.rest.len() > 0 ==> plain_text(a.rest.drop_first()),
        a.rest.len() > 0 && a.rest[0] != '\n' ==> b.rest[0] == a.rest[0] && crlf_twin(adv(a), adv(b)),
        a.rest.len() > 0 && a.rest[0] == '\n' ==> b.rest.len() > 1 && b.rest[0] == '\r' && b.rest[1] == '\n'
            && crlf(a.rest.drop_first()) == b.rest.drop_first().drop_first(),
{
    let t = a.rest;
    if t.len() > 0 {
        assert forall|i: int| 0 <= i < t.drop_first().len() implies
            #[trigger] t.drop_first()[i] != '"' && t.drop_first()[i] != '\r' by {
            assert(t.drop_first()[i] == t[i + 1]);
        }
        if t[0] == '\n' {
            assert(b.rest.drop_first().drop_first() =~= crlf(t.drop_first()));
        } else {
            assert(b.rest.drop_first() =~= crlf(t.drop_first()));
        }
    }
}

proof fn lemma_nd_loop_crlf(a: LexState, b: LexState, kind: NumberLiteralKind, fk: NumberLiteralKind, num: Seq<char>, dec: bool, exp: bool, first: bool)
    requires
        crlf_twin(a, b),
        plain_text(a.rest),
    ensures
        nd_loop(a, kind, fk, num, dec, exp, first).0 == nd_loop(b, kind, fk, num, dec, exp, first).0,
        nd_loop(a, kind, fk, num, dec, exp, first).2 == nd_loop(b, kind, fk, num, dec, exp, first).2,
        crlf_twin(nd_loop(a, kind, fk, num, dec, exp, first).1, nd_loop(b, kind, fk, num, dec, exp, first).1),
        plain_text(nd_loop(a, kind, fk, num, dec, exp, first).1.rest),
    decreases a.rest.len(),
{
    lemma_crlf_step(a, b);
    if a.rest.len() > 0 && a.rest[0] != '\n' {
        let ch = a.rest[0];
        let (a1, b1) = (adv(a), adv(b));
        lemma_crlf_step(a1, b1);
        if ch == '_' {
            lemma_nd_loop_crlf(a1, b1, kind, fk, num, dec, exp, first);
        } else if kind == NumberLiteralKind::HexadecimalInteger {
            if spec_is_digit(ch, 16) {
                lemma_nd_loop_crlf(a1, b1, kind, fk, num.push(ch), dec, exp, false);
            } else if ch == '.' && !dec && !exp {
                lemma_nd_loop_crlf(a1, b1, kind, NumberLiteralKind::ScientificHex, num.push(ch), true, exp, false);
            } else if (ch == 'p' || ch == 'P') && !exp {
                if a1.rest.len() > 0 && (a1.rest[0] == '+' || a1.rest[0] == '-') {
                    lemma_nd_loop_crlf(adv(a1), adv(b1), kind, NumberLiteralKind::ScientificHex, num.push(ch).push(a1.rest[0]), dec, true, false);
                } else {
                    lemma_nd_loop_crlf(a1, b1, kind, NumberLiteralKind::ScientificHex, num.push(ch), dec, true, false);
                }
            }
        } else if spec_is_digit(ch, spec_radix(kind)) {
            lemma_nd_loop_crlf(a1, b1, kind, fk, num.push(ch), dec, exp, false);
        }
    }
}

proof fn lemma_number_loop_crlf(a: LexState, b: LexState, num: Seq<char>, dp: bool, exp: bool, first: bool)
    requires
        crlf_twin(a, b),
        plain_text(a.rest),
    ensures
        number_loop(a, num, dp, exp, first).0 == number_loop(b, num, dp, exp, first).0,
        crlf_twin(number_loop(a, num, dp, exp, first).1, number_loop(b, num, dp, exp, first).1),
        plain_text(number_loop(a, num, dp, exp, first).1.rest),
    decreases a.rest.len(),
{
    lemma_crlf_step(a, b);
    if a.rest.len() > 0 && a.rest[0] != '\n' {
        let ch = a.rest[0];
        let (a1, b1) = (adv(a), adv(b));
        lemma_crlf_step(a1, b1);
        if a1.rest.len() > 0 && a1.rest[0] != '\n' {
            lemma_crlf_step(adv(a1), adv(b1));
        }
        if first && ch == '0' && non_decimal_s(a, num) is Some {
            if radix_prefix_kind(a1.rest[0]) is Some {
                let k = radix_prefix_kind(a1.rest[0])->Some_0;
                lemma_nd_loop_crlf(adv(a1), adv(b1), k, k, num, false, false, true);
            }
        } else if (first && ch == '0') || spec_is_digit(ch, 10) {
            lemma_number_loop_crlf(a1, b1, num.push(ch), dp, exp, false);
        } else if ch == '.' {
            if !dp && !exp {
                lemma_number_loop_crlf(a1, b1, num.push(ch), true, exp, false);
            }
        } else if (ch == 'e' || ch == 'E') && !exp {
            if a1.rest.len() > 0 && (a1.rest[0] == '+' || a1.rest[0] == '-') {
                lemma_number_loop_crlf(adv(a1), adv(b1), num.push(ch).push(a1.rest[0]), dp, true, false);
            } else {
                lemma_number_loop_crlf(a1, b1, num.push(ch), dp, true, false);
            }
        } else if ch == '_' {
            lemma_number_loop_crlf(a1, b1, num, dp, exp, false);
        }
    }
}

proof fn lemma_ident_loop_crlf(a: LexState, b: LexState, word: Seq<char>)
    requires
        crlf_twin(a, b),
        plain_text(a.rest),
    ensures
        ident_loop(a, word).0 == ident_loop(b, word).0,
        crlf_twin(ident_loop(a, word).1, ident_loop(b, word).1),
        plain_text(ident_loop(a, word).1.rest),
    decreases a.rest.len(),
{
    lemma_crlf_step(a, b);
    if a.rest.len() > 0 && is_word_char(a.rest[0]) {
        lemma_ident_loop_crlf(adv(a), adv(b), word.push(a.rest[0]));
    }
}

proof fn lemma_skip_comment_crlf(a: LexState, b: LexState)
    requires
        crlf_twin(a, b),
        plain_text(a.rest),
    ensures
        match (skip_comment_loop(a), skip_comment_loop(b)) {
            ((Some(r1), a2), (Some(r2), b2)) => same_outcome(r1, r2) && crlf_twin(a2, b2),
            ((None, a2), (None, b2)) => crlf_twin(a2, b2),
            _ => false,
        },
        plain_text(skip_comment_loop(a).1.rest),
    decreases a.rest.len(),
{
    lemma_crlf_step(a, b);
    if a.rest.len() > 0 {
        if a.rest[0] == '\n' {
            assert(adv(adv(b)).rest == crlf(adv(a).rest));
        } else {
            lemma_skip_comment_crlf(adv(a), adv(b));
        }
    }
}

/// One lexing step on a text and on the same text with `\r\n` line breaks.
proof fn lemma_next_token_loop_crlf(a: LexState, b: LexState)
    requires
        crlf_twin(a, b),
        plain_text(a.rest),
    ensures
        next_token_loop(a) matches Some((r1, a2)) && next_token_loop(b) matches Some((r2, b2))
            && same_outcome(r1, r2) && crlf_state(a2, b2) && plain_text(a2.rest),
    decreases a.rest.len(),
{
    lemma_lexing_returns(a);
    lemma_lexing_returns(b);
    lemma_crlf_step(a, b);
    if a.rest.len() > 0 {
        let ch = a.rest[0];
        if ch == '\n' {
            let b1 = adv(b);
            assert(adv(adv(b)).rest == crlf(adv(a).rest));
        } else {
            let (a1, b1) = (adv(a), adv(b));
            lemma_crlf_step(a1, b1);
            if single_char_kind(ch) is Some || pair_kinds(ch) is Some {
                if a1.rest.len() > 0 && a1.rest[0] != '\n' {
                    lemma_crlf_step(adv(a1), adv(b1));
                }
            } else if ch == '/' {
                if a1.rest.len() > 0 && a1.rest[0] != '\n' {
                    lemma_crlf_step(adv(a1), adv(b1));
                }
                if peek_at(a, 1) == Some('/') {
                    lemma_skip_comment_crlf(a1, b1);
                    crate::lexer_spec::lemma_skip_comment_len(a1);
                    crate::lexer_spec::lemma_skip_comment_len(b1);
                    let (r, a2) = skip_comment_loop(a1);
                    if r is None {
                        crate::lexer_spec::lemma_lexing_returns(a2);
                        lemma_next_token_loop_crlf(a2, skip_comment_loop(b1).1);
                    }
                }
            } else if ch == ' ' || ch == '\t' {
                lemma_next_token_loop_crlf(upd(a1), upd(b1));
            } else if is_op_char(ch) {
                if a1.rest.len() > 0 && a1.rest[0] != '\n' {
                    let (a2, b2) = (adv(a1), adv(b1));
                    lemma_crlf_step(a2, b2);
                    if a2.rest.len() > 0 && a2.rest[0] != '\n' {
                        lemma_crlf_step(adv(a2), adv(b2));
                    }
                }
            } else if '0' <= ch && ch <= '9' {
                lemma_number_loop_crlf(a, b, Seq::empty(), false, false, true);
            } else if ('a' <= ch && ch <= 'z') || ('A' <= ch && ch <= 'Z') || ch == '_' {
                lemma_ident_loop_crlf(a, b, Seq::empty());
            } else {
                let e = LexerError::InvalidCharacter(ch, cur_span(a1));
                lemma_next_token_loop_crlf(upd(with_error(a1, e)), upd(with_error(b1, e)));
            }
        }
    }
}

proof fn lemma_tokens_loop_crlf(a: LexState, b: LexState, acc1: Seq<TokenM>, acc2: Seq<TokenM>)
    requires
        crlf_state(a, b),
        plain_text(a.rest),
        same_tokens(acc1, acc2),
    ensures
        tokens_loop(a, acc1) matches Some((ts1, a2)) && tokens_loop(b, acc2) matches Some((ts2, b2))
            && same_tokens(ts1, ts2) && a2.errors == b2.errors,
    decreases a.rest.len(),
{
    lemma_lexing_returns(a);
    lemma_lexing_returns(b);
    lemma_next_token_loop_crlf(upd(a), upd(b));
    lemma_tokens_step(a);
    lemma_tokens_step(b);
    match (next_token_s(a), next_token_s(b)) {
        (Some((Ok(t1), a2)), Some((Ok(t2), b2))) => {
            if t1.kind != TokenKind::EndOfFile {
                let (n1, n2) = (acc1.push(t1), acc2.push(t2));
                assert forall|i: int| 0 <= i < n1.len() implies #[trigger] same_token(n1[i], n2[i]) by {
                    if i < acc1.len() {
                        assert(same_token(acc1[i], acc2[i]));
                    }
                }
                lemma_tokens_loop_crlf(a2, b2, n1, n2);
            }
        },
        (Some((Err(e), a2)), Some((Err(e2), b2))) => {
            let (ua, ub) = (upd(a2), upd(b2));
            lemma_crlf_step(ua, ub);
            if ua.rest.len() > 0 && ua.rest[0] != '\n' {
                lemma_crlf_step(adv(ua), adv(ub));
                if adv(ua).rest.len() > 0 && adv(ua).rest[0] != '\n' {
                    lemma_crlf_step(adv(adv(ua)), adv(adv(ub)));
                }
            }
            assert(bad_radix_at(a2) == bad_radix_at(b2));
            assert(bad_radix_error(a2) == bad_radix_error(b2));
            if bad_radix_at(a2) {
                lemma_crlf_step(with_error(ua, e), with_error(ub, e));
            }
            lemma_tokens_loop_crlf(after_error(a2, e), after_error(b2, e2), acc1, acc2);
        },
        _ => {},
    }
}

/// Writing each line feed of a text as a carriage return and a line feed
/// changes nothing of what the lexer reads from it, as long as the text holds
/// no string literal (whose text would keep the carriage return) and no
/// carriage return of its own: the tokens agree kind for kind and text for
/// text, and the errors are the same.
pub proof fn lemma_crlf_lexes_like_lf(t: Seq<char>)
    requires
        plain_text(t),
    ensures
        lex_source(t) matches Some((ts1, s1)) && lex_source(crlf(t)) matches Some((ts2, s2))
            && same_tokens(ts1, ts2) && s1.errors == s2.errors,
{
    lemma_tokens_loop_crlf(initial_lex_state(t), initial_lex_state(crlf(t)), Seq::empty(), Seq::empty());
}

} // verus!
