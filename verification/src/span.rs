//! Locations in a source file and spans between two locations.

use vstd::prelude::*;
use crate::text::{digits, push_decimal};

verus! {

/// A position in a source file; lines and columns count from 1.
#[derive(Debug, Clone, Copy, PartialEq, Eq, Structural)]
pub struct CodeLocation {
    pub line: usize,
    pub column: usize,
}

/// A location as text: `line:column`.
pub open spec fn location_text(l: CodeLocation) -> Seq<char> {
    digits(l.line as nat, 10) + seq![':'] + digits(l.column as nat, 10)
}

impl CodeLocation {
    /// The location as text, `line:column`.
    pub fn to_text(&self) -> (r: String)
        ensures
            r@ == location_text(*self),
    {
        let mut text = String::new();
        push_decimal(self.line, &mut text);
        crate::error::push_char(&mut text, ':');
        push_decimal(self.column, &mut text);
        assert(text@ =~= location_text(*self));
        text
    }

    /// True when both locations lie on the same line.
    pub fn is_in_same_line(&self, other: &Self) -> (r: bool)
        ensures
            r == (self.line == other.line),
    {
        self.line == other.line
    }
}

/// The first position of a file: line 1, column 1.
pub open spec fn start_of_file() -> CodeLocation {
    CodeLocation { line: 1, column: 1 }
}

impl Default for CodeLocation {
    fn default() -> (r: Self)
        ensures
            r == start_of_file(),
    {
        CodeLocation { line: 1, column: 1 }
    }
}

/// The stretch of source between two locations.
#[derive(Debug, Clone, Copy, PartialEq, Eq, Structural)]
pub struct CodeSpan {
    pub start: CodeLocation,
    pub end: CodeLocation,
}

/// The error of a span that cannot be widened to the left.
#[derive(Debug, Clone, Copy, PartialEq, Eq, Structural)]
pub struct ExpandCodeSpanError;

impl ExpandCodeSpanError {
    /// The error as text: its name.
    pub fn to_text(&self) -> (r: String)
        ensures
            r@ == "ExpandCodeSpanError"@,
    {
        String::from_str("ExpandCodeSpanError")
    }
}

/// The span that starts and ends at the first position of a file.
pub open spec fn default_span() -> CodeSpan {
    CodeSpan { start: start_of_file(), end: start_of_file() }
}

impl Default for CodeSpan {
    fn default() -> (r: Self)
        ensures
            r == default_span(),
    {
        CodeSpan { start: CodeLocation::default(), end: CodeLocation::default() }
    }
}

/// The span from `start` to `end`.
pub open spec fn span_of(start: CodeLocation, end: CodeLocation) -> CodeSpan {
    CodeSpan { start, end }
}

/// `a` comes no later than `b`: on an earlier line, or on the same line at a
/// column no greater.
pub open spec fn loc_le(a: CodeLocation, b: CodeLocation) -> bool {
    a.line < b.line || (a.line == b.line && a.column <= b.column)
}

/// The span that encloses `a` and `b`: from the earlier start to the later end.
pub open spec fn merged(a: CodeSpan, b: CodeSpan) -> CodeSpan {
    CodeSpan {
        start: if loc_le(a.start, b.start) { a.start } else { b.start },
        end: if loc_le(a.end, b.end) { b.end } else { a.end },
    }
}

/// `outer` covers `inner`: it starts no later and ends no earlier.
pub open spec fn covers(outer: CodeSpan, inner: CodeSpan) -> bool {
    loc_le(outer.start, inner.start) && loc_le(inner.end, outer.end)
}

impl CodeSpan {
    /// True when the span starts and ends on the same line.
    pub fn is_single_line(&self) -> (r: bool)
        ensures
            r == (self.start.line == self.end.line),
    {
        self.start.line == self.end.line
    }

    /// The number of columns between start and end.
    pub fn length(&self) -> (r: usize)
        requires
            self.start.column <= self.end.column,
        ensures
            r == self.end.column - self.start.column,
    {
        self.end.column - self.start.column
    }

    /// Moves the start `chars` columns to the left, unless that would reach
    /// column 0 or go past it.
    pub fn try_extend_left(&mut self, chars: usize) -> (r: Result<(), ExpandCodeSpanError>)
        ensures
            r is Ok <==> chars < old(self).start.column,
            r is Ok ==> *final(self) == (CodeSpan {
                start: CodeLocation {
                    line: old(self).start.line,
                    column: (old(self).start.column - chars) as usize,
                },
                end: old(self).end,
            }),
            r is Err ==> *final(self) == *old(self),
    {
        if chars < self.start.column {
            self.start.column -= chars;
            Ok(())
        } else {
            Err(ExpandCodeSpanError)
        }
    }

    /// Adds `chars` to the column of the start; the end stays where it is.
    pub fn extend_right(&mut self, chars: usize)
        requires
            old(self).start.column + chars <= usize::MAX,
        ensures
            *final(self) == (CodeSpan {
                start: CodeLocation {
                    line: old(self).start.line,
                    column: (old(self).start.column + chars) as usize,
                },
                end: old(self).end,
            }),
    {
        self.start.column += chars;
    }

    /// Extends the span left by `chars` columns, then applies `extend_right`;
    /// as that moves the start back, a success leaves the span as it was. Fails,
    /// with the span unchanged, where the start would reach column 0.
    pub fn try_extend_both_sides(&mut self, chars: usize) -> (r: Result<(), ExpandCodeSpanError>)
        ensures
            r is Ok <==> chars < old(self).start.column,
            *final(self) == *old(self),
    {
        self.try_extend_left(chars)?;
        self.extend_right(chars);
        Ok(())
    }

    /// Creates a new span that encompasses both `self` and `other`.
    pub fn merge(self, other: Self) -> (r: Self)
        ensures
            r == merged(self, other),
    {
        let start = if self.start.line < other.start.line
            || (self.start.line == other.start.line && self.start.column <= other.start.column) {
            self.start
        } else {
            other.start
        };
        let end = if self.end.line < other.end.line
            || (self.end.line == other.end.line && self.end.column <= other.end.column) {
            other.end
        } else {
            self.end
        };
        CodeSpan { start, end }
    }
}

impl From<(CodeLocation, CodeLocation)> for CodeSpan {
    fn from(value: (CodeLocation, CodeLocation)) -> (r: Self) {
        CodeSpan { start: value.0, end: value.1 }
    }
}

impl vstd::std_specs::convert::FromSpecImpl<(CodeLocation, CodeLocation)> for CodeSpan {
    open spec fn obeys_from_spec() -> bool {
        true
    }

    open spec fn from_spec(value: (CodeLocation, CodeLocation)) -> Self {
        span_of(value.0, value.1)
    }
}

/// Merging spans is associative.
pub proof fn lemma_merge_associative(a: CodeSpan, b: CodeSpan, c: CodeSpan)
    ensures
        merged(merged(a, b), c) == merged(a, merged(b, c)),
{
}

/// The merge of two spans covers both, and it is the least span that does:
/// any span that covers both covers the merge.
pub proof fn lemma_merge_covers(a: CodeSpan, b: CodeSpan, c: CodeSpan)
    ensures
        covers(merged(a, b), a),
        covers(merged(a, b), b),
        covers(c, a) && covers(c, b) ==> covers(c, merged(a, b)),
{
}

} // verus!
