//! Where a token stands in the text.
use vstd::prelude::*;

verus! {

/// Span represents a range of characters in the source text, from
/// `start` up to, but not including, `end`.
#[derive(Clone, Copy, Debug, PartialEq, Eq, Structural)]
pub struct Span {
    start: usize,
    end: usize,
}

impl Span {
    /// Where the span starts.
    pub closed spec fn lo(self) -> int {
        self.start as int
    }

    /// Where the span ends.
    pub closed spec fn hi(self) -> int {
        self.end as int
    }

    /// The span from `start` to `end`.
    pub fn new(start: usize, end: usize) -> (span: Self)
        ensures
            span.lo() == start,
            span.hi() == end,
    {
        Self { start, end }
    }

    /// Where the span starts.
    pub fn start(&self) -> (start: usize)
        ensures
            start == self.lo(),
    {
        self.start
    }

    /// Where the span ends.
    pub fn end(&self) -> (end: usize)
        ensures
            end == self.hi(),
    {
        self.end
    }

    /// How many places the span covers: none where it ends before it starts.
    pub fn len(&self) -> (n: usize)
        ensures
            n == if self.hi() >= self.lo() {
                self.hi() - self.lo()
            } else {
                0
            },
    {
        if self.end >= self.start {
            self.end - self.start
        } else {
            0
        }
    }

    /// Whether the span covers no place.
    pub fn is_empty(&self) -> (b: bool)
        ensures
            b == (self.lo() >= self.hi()),
    {
        self.start >= self.end
    }

    /// Merges this span with another span, returning a span that covers both.
    ///
    /// The resulting span will start at the minimum start position and end at
    /// the maximum end position of the two input spans.
    pub fn merge(self, other: Span) -> (span: Span)
        ensures
            span.lo() == if self.lo() <= other.lo() {
                self.lo()
            } else {
                other.lo()
            },
            span.hi() == if self.hi() >= other.hi() {
                self.hi()
            } else {
                other.hi()
            },
    {
        Span {
            start: if self.start <= other.start {
                self.start
            } else {
                other.start
            },
            end: if self.end >= other.end {
                self.end
            } else {
                other.end
            },
        }
    }
}

} // verus!
