//! Binding patterns.
use crate::expr::Expr;
use crate::ident::Ident;
use crate::span::Span;
use vstd::prelude::*;

verus! {

/// The closed set of pattern forms.
#[derive(Debug, PartialEq, Eq)]
pub enum Pat {
    Ident(Ident),
    Array(ArrayPat),
    Rest(RestPat),
    Object(ObjectPat),
    Assign(AssignPat),
}

/// An array destructuring pattern; `None` elements are elisions (holes).
#[derive(Debug, PartialEq, Eq)]
pub struct ArrayPat {
    pub span: Span,
    pub elems: Vec<Option<Pat>>,
}

/// A rest pattern `...arg`.
#[derive(Debug, PartialEq, Eq)]
pub struct RestPat {
    pub span: Span,
    pub arg: Box<Pat>,
}

/// An object destructuring pattern.
#[derive(Debug, PartialEq, Eq)]
pub struct ObjectPat {
    pub span: Span,
    pub props: Vec<Pat>,
}

/// A pattern with a default expression: `left = right`.
#[derive(Debug, PartialEq, Eq)]
pub struct AssignPat {
    pub span: Span,
    pub left: Box<Pat>,
    pub right: Box<Expr>,
}

} // verus!
