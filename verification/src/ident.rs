//! Identifiers.
use crate::span::Span;
use vstd::prelude::*;

verus! {

/// A plain identifier: a name occurring in the source, or one synthesized
/// by a pass (a hoisting temporary, a helper reference).
#[derive(Debug, PartialEq, Eq)]
pub struct Ident {
    pub span: Span,
    pub sym: String,
}

impl Ident {
    /// An identifier with the dummy span, as synthesized nodes use.
    pub fn synthesized(sym: String) -> (i: Ident)
        ensures
            i.span == crate::span::dummy_span(),
            i.sym@ == sym@,
    {
        Ident { span: Span::dummy(), sym }
    }
}

} // verus!
