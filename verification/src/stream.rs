//! Look-ahead streams of characters and of tokens, built on itertools' `PeekNth`.

use vstd::prelude::*;
use itertools::PeekNth;
use std::vec::IntoIter;
use crate::token::Token;

verus! {

#[verifier::external_type_specification]
#[verifier::external_body]
#[verifier::reject_recursive_types(I)]
pub struct ExPeekNth<I: Iterator>(PeekNth<I>);

/// The characters that a character stream has yet to yield, in order.
pub uninterp spec fn char_stream_items(s: PeekNth<IntoIter<char>>) -> Seq<char>;

/// The tokens that a token stream has yet to yield, in order.
pub uninterp spec fn token_stream_items(s: PeekNth<IntoIter<Token>>) -> Seq<Token>;

/// `itertools::peek_nth` over the characters of a vector: the stream yields them in order.
#[verifier::external_body]
pub(crate) fn char_stream_new(chars: Vec<char>) -> (r: PeekNth<IntoIter<char>>)
    ensures
        char_stream_items(r) == chars@,
{
    itertools::peek_nth(chars)
}

/// `PeekNth::next`: yields the first character and drops it from the stream;
/// an empty stream yields `None` and stays empty.
#[verifier::external_body]
pub(crate) fn char_stream_next(s: &mut PeekNth<IntoIter<char>>) -> (r: Option<char>)
    ensures
        char_stream_items(*old(s)).len() == 0 ==> r is None && char_stream_items(*final(s)) == char_stream_items(*old(s)),
        char_stream_items(*old(s)).len() > 0 ==> r == Some(char_stream_items(*old(s))[0])
            && char_stream_items(*final(s)) == char_stream_items(*old(s)).drop_first(),
{
    s.next()
}

/// `PeekNth::peek_nth`: the character `n` places ahead, if there is one; the
/// stream yields what it yielded before.
#[verifier::external_body]
pub(crate) fn char_stream_peek_nth(s: &mut PeekNth<IntoIter<char>>, n: usize) -> (r: Option<char>)
    requires
        n < usize::MAX,
    ensures
        char_stream_items(*final(s)) == char_stream_items(*old(s)),
        n < char_stream_items(*old(s)).len() ==> r == Some(char_stream_items(*old(s))[n as int]),
        n >= char_stream_items(*old(s)).len() ==> r is None,
{
    s.peek_nth(n).copied()
}

/// `itertools::peek_nth` over a vector of tokens: the stream yields them in order.
#[verifier::external_body]
pub(crate) fn token_stream_new(tokens: Vec<Token>) -> (r: PeekNth<IntoIter<Token>>)
    ensures
        token_stream_items(r) == tokens@,
{
    itertools::peek_nth(tokens)
}

/// `PeekNth::next`: yields the first token and drops it from the stream;
/// an empty stream yields `None` and stays empty.
#[verifier::external_body]
pub(crate) fn token_stream_next(s: &mut PeekNth<IntoIter<Token>>) -> (r: Option<Token>)
    ensures
        token_stream_items(*old(s)).len() == 0 ==> r is None && token_stream_items(*final(s)) == token_stream_items(*old(s)),
        token_stream_items(*old(s)).len() > 0 ==> r == Some(token_stream_items(*old(s))[0])
            && token_stream_items(*final(s)) == token_stream_items(*old(s)).drop_first(),
{
    s.next()
}

/// `PeekNth::peek_nth`: a copy of the token `n` places ahead, if there is one;
/// the stream yields what it yielded before.
#[verifier::external_body]
pub(crate) fn token_stream_peek_nth(s: &mut PeekNth<IntoIter<Token>>, n: usize) -> (r: Option<Token>)
    requires
        n < usize::MAX,
    ensures
        token_stream_items(*final(s)) == token_stream_items(*old(s)),
        n < token_stream_items(*old(s)).len() ==> r == Some(token_stream_items(*old(s))[n as int]),
        n >= token_stream_items(*old(s)).len() ==> r is None,
{
    s.peek_nth(n).cloned()
}

} // verus!
