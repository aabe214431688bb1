//! Writing numbers and characters as text, the way Rust's formatting does.

use vstd::prelude::*;
use vstd::string::StrSliceExecFns;
use crate::error::push_char;

verus! {

/// The digit character of `d`, for `d` below 16: `0`-`9`, then `a`-`f`.
pub open spec fn digit_char(d: nat) -> char {
    if d == 0 { '0' }
    else if d == 1 { '1' }
    else if d == 2 { '2' }
    else if d == 3 { '3' }
    else if d == 4 { '4' }
    else if d == 5 { '5' }
    else if d == 6 { '6' }
    else if d == 7 { '7' }
    else if d == 8 { '8' }
    else if d == 9 { '9' }
    else if d == 10 { 'a' }
    else if d == 11 { 'b' }
    else if d == 12 { 'c' }
    else if d == 13 { 'd' }
    else if d == 14 { 'e' }
    else { 'f' }
}

/// The digits of `n` in base `radix`, most significant first, without leading zeros.
pub open spec fn digits(n: nat, radix: nat) -> Seq<char>
    recommends
        2 <= radix <= 16,
    decreases n,
{
    if radix < 2 || n < radix {
        seq![digit_char(n)]
    } else {
        proof {
            assert(n / radix < n) by (nonlinear_arith)
                requires
                    radix >= 2,
                    n >= radix,
            ;
        }
        digits(n / radix, radix) + seq![digit_char(n % radix)]
    }
}

fn digit_of(d: u32) -> (r: char)
    requires
        d < 16,
    ensures
        r == digit_char(d as nat),
{
    match d {
        0 => '0',
        1 => '1',
        2 => '2',
        3 => '3',
        4 => '4',
        5 => '5',
        6 => '6',
        7 => '7',
        8 => '8',
        9 => '9',
        10 => 'a',
        11 => 'b',
        12 => 'c',
        13 => 'd',
        14 => 'e',
        _ => 'f',
    }
}

/// Appends the decimal digits of `n`.
pub fn push_decimal(n: usize, out: &mut String)
    ensures
        final(out)@ == old(out)@ + digits(n as nat, 10),
    decreases n,
{
    if n >= 10 {
        push_decimal(n / 10, out);
    }
    push_char(out, digit_of((n % 10) as u32));
    proof {
        if n >= 10 {
            assert(digits(n as nat, 10) == digits((n / 10) as nat, 10) + seq![digit_char((n % 10) as nat)]);
        }
    }
}

fn push_hex(n: u32, out: &mut String)
    ensures
        final(out)@ == old(out)@ + digits(n as nat, 16),
    decreases n,
{
    if n >= 16 {
        push_hex(n / 16, out);
    }
    push_char(out, digit_of(n % 16));
    proof {
        if n >= 16 {
            assert(digits(n as nat, 16) == digits((n / 16) as nat, 16) + seq![digit_char((n % 16) as nat)]);
        }
    }
}

/// What `char::escape_default` writes for `c`: a backslash before tab,
/// carriage return, line feed, quotes and backslash; printable ASCII as it is;
/// any other character as `\u{..}` with its code point in hexadecimal.
pub open spec fn escaped_char(c: char) -> Seq<char> {
    if c == '\t' {
        seq!['\\', 't']
    } else if c == '\r' {
        seq!['\\', 'r']
    } else if c == '\n' {
        seq!['\\', 'n']
    } else if c == '\'' || c == '"' || c == '\\' {
        seq!['\\', c]
    } else if ' ' <= c && c <= '~' {
        seq![c]
    } else {
        seq!['\\', 'u', '{'] + digits(c as nat, 16) + seq!['}']
    }
}

/// What `str::escape_default` writes for a text: each character escaped in turn.
pub open spec fn escaped(t: Seq<char>) -> Seq<char>
    decreases t.len(),
{
    if t.len() == 0 {
        Seq::empty()
    } else {
        escaped(t.drop_last()) + escaped_char(t.last())
    }
}

/// Appends `c` escaped as `char::escape_default` does.
fn push_escaped_char(c: char, out: &mut String)
    ensures
        final(out)@ == old(out)@ + escaped_char(c),
{
    let ghost start = out@;
    if c == '\t' {
        push_char(out, '\\');
        push_char(out, 't');
    } else if c == '\r' {
        push_char(out, '\\');
        push_char(out, 'r');
    } else if c == '\n' {
        push_char(out, '\\');
        push_char(out, 'n');
    } else if c == '\'' || c == '"' || c == '\\' {
        push_char(out, '\\');
        push_char(out, c);
    } else if ' ' <= c && c <= '~' {
        push_char(out, c);
    } else {
        push_char(out, '\\');
        push_char(out, 'u');
        push_char(out, '{');
        push_hex(c as u32, out);
        push_char(out, '}');
        assert(out@ =~= start + escaped_char(c));
    }
    assert(out@ =~= start + escaped_char(c));
}

/// Appends `t` escaped as `str::escape_default` does.
pub fn push_escaped(t: &str, out: &mut String)
    ensures
        final(out)@ == old(out)@ + escaped(t@),
{
    let n = t.unicode_len();
    let mut i: usize = 0;
    let ghost start = out@;
    assert(t@.take(0) =~= Seq::<char>::empty());
    while i < n
        invariant
            n == t@.len(),
            i <= n,
            out@ == start + escaped(t@.take(i as int)),
        decreases n - i,
    {
        let c = t.get_char(i);
        push_escaped_char(c, out);
        assert(t@.take(i + 1).drop_last() =~= t@.take(i as int));
        assert(t@.take(i + 1).last() == c);
        i = i + 1;
        assert(out@ =~= start + escaped(t@.take(i as int)));
    }
    assert(t@.take(n as int) =~= t@);
}

} // verus!
