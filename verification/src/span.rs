//! Source provenance ranges.
//!
//! Every node of the tree carries a `Span`: a byte range into the original
//! source. The tree never interprets a span; it only stores and copies it.
//! Nodes synthesized by a pass carry the dummy (empty) span.
use vstd::prelude::*;

verus! {

/// A half-open byte range `lo..hi` into the original source text.
#[derive(Clone, Copy, Debug, PartialEq, Eq, Structural)]
pub struct Span {
    pub lo: u32,
    pub hi: u32,
}

impl Span {
    /// The empty span given to nodes that were built programmatically
    /// rather than parsed.
    pub fn dummy() -> (s: Span)
        ensures
            s == (Span { lo: 0, hi: 0 }),
    {
        Span { lo: 0, hi: 0 }
    }

    pub fn new(lo: u32, hi: u32) -> (s: Span)
        ensures
            s == (Span { lo, hi }),
    {
        Span { lo, hi }
    }
}

/// The span of synthesized nodes, as a spec value.
pub open spec fn dummy_span() -> Span {
    Span { lo: 0, hi: 0 }
}

} // verus!
