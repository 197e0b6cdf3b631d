use vstd::prelude::*;

verus! {

/// A byte range `[start, end)` into the original source text, as attached to
/// every node of the source tree by the external parser.
#[derive(Clone, Copy, Debug, PartialEq, Eq, Structural)]
pub struct ByteRange {
    pub start: u32,
    pub end: u32,
}

/// A position pair in the target tree's coordinate space.  The target and the
/// source share the same byte-offset origin, so the two fields are byte
/// offsets as well.
#[derive(Clone, Copy, Debug, PartialEq, Eq, Structural)]
pub struct Span {
    pub lo: u32,
    pub hi: u32,
}

/// What the span mapping yields: the identity on offsets, re-packaged into
/// the target representation.
pub open spec fn span_map(r: ByteRange) -> Span {
    Span { lo: r.start, hi: r.end }
}

/// The synthesized span for target nodes that have no direct source
/// correspondent (for example the fixed intrinsic identifier).
pub open spec fn empty_span() -> Span {
    Span { lo: 0, hi: 0 }
}

/// The smallest range that encompasses both `a` and `b`.
pub open spec fn join_ranges(a: ByteRange, b: ByteRange) -> ByteRange {
    ByteRange {
        start: if a.start <= b.start { a.start } else { b.start },
        end: if a.end >= b.end { a.end } else { b.end },
    }
}

impl Span {
    /// The span used where a target node has no originating source token.
    pub fn synthesized() -> (s: Span)
        ensures
            s == empty_span(),
    {
        Span { lo: 0, hi: 0 }
    }
}

/// Maps a source byte range onto target position metadata.  Pure, stateless
/// and total: the coordinate spaces share their origin, so the mapping is the
/// identity on offsets.
pub fn span_mapper(r: ByteRange) -> (s: Span)
    ensures
        s == span_map(r),
{
    Span { lo: r.start, hi: r.end }
}

/// The span mapping is a pure function: equal ranges always map to identical
/// output, so repeated calls on one range cannot differ.
pub proof fn lemma_span_mapper_pure(r1: ByteRange, r2: ByteRange)
    requires
        r1 == r2,
    ensures
        span_map(r1) == span_map(r2),
{
}

/// Joins the two byte ranges into the smallest range encompassing both.
pub fn join_byte_ranges(a: ByteRange, b: ByteRange) -> (r: ByteRange)
    ensures
        r == join_ranges(a, b),
{
    ByteRange {
        start: if a.start <= b.start { a.start } else { b.start },
        end: if a.end >= b.end { a.end } else { b.end },
    }
}

} // verus!
