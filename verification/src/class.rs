//! Class-related nodes used by the TypeScript sublanguage.
use crate::expr::Expr;
use crate::span::Span;
use vstd::prelude::*;

verus! {

/// A decorator attached to a declaration or parameter property.
#[derive(Debug, PartialEq, Eq)]
pub struct Decorator {
    pub span: Span,
    pub expr: Box<Expr>,
}

} // verus!
