//! Helpers for printing the compiler's data.

use vstd::prelude::*;

verus! {

/// One level of indentation.
pub const INDENT: &'static str = "  ";

/// `depth` levels of indentation: `depth` times two spaces.
pub open spec fn indentation(depth: nat) -> Seq<char>
    decreases depth,
{
    if depth == 0 {
        Seq::empty()
    } else {
        indentation((depth - 1) as nat) + seq![' ', ' ']
    }
}

/// A line break followed by `depth` levels of indentation.
pub fn create_indent(depth: usize) -> (r: String)
    ensures
        r@ == seq!['\n'] + indentation(depth as nat),
{
    let mut text = String::from_str("\n");
    proof {
        reveal_strlit("\n");
    }
    let mut i: usize = 0;
    while i < depth
        invariant
            i <= depth,
            text@ == seq!['\n'] + indentation(i as nat),
        decreases depth - i,
    {
        proof {
            reveal_strlit("  ");
        }
        assert(INDENT@ == seq![' ', ' ']);
        text.append(INDENT);
        i = i + 1;
        assert(text@ =~= seq!['\n'] + indentation(i as nat));
    }
    text
}

} // verus!
