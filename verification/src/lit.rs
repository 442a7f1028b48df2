//! Literal values.
use crate::span::Span;
use vstd::prelude::*;

verus! {

/// A string literal.
#[derive(Debug, PartialEq, Eq)]
pub struct Str {
    pub span: Span,
    pub value: String,
}

/// A boolean literal.
#[derive(Clone, Copy, Debug, PartialEq, Eq, Structural)]
pub struct Bool {
    pub span: Span,
    pub value: bool,
}

/// A numeric literal. The payload is the integral value of the token;
/// the tree stores it verbatim and never computes with it.
#[derive(Clone, Copy, Debug, PartialEq, Eq, Structural)]
pub struct Number {
    pub span: Span,
    pub value: i64,
}

/// The closed set of literal forms.
#[derive(Debug, PartialEq, Eq)]
pub enum Lit {
    Str(Str),
    Bool(Bool),
    Num(Number),
}

} // verus!
