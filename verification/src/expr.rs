//! Expressions.
use crate::ident::Ident;
use crate::lit::Lit;
use crate::pat::Pat;
use crate::span::Span;
use crate::typescript::TsAsExpr;
use crate::typescript::TsNonNullExpr;
use crate::typescript::TsTypeAssertion;
use vstd::prelude::*;

verus! {

/// The closed set of expression forms.
#[derive(Debug, PartialEq, Eq)]
pub enum Expr {
    This(ThisExpr),
    Ident(Ident),
    Lit(Lit),
    Array(ArrayLit),
    Unary(UnaryExpr),
    Assign(AssignExpr),
    Member(MemberExpr),
    Call(CallExpr),
    New(NewExpr),
    TsTypeAssertion(TsTypeAssertion),
    TsNonNull(TsNonNullExpr),
    TsAs(TsAsExpr),
}

#[derive(Clone, Copy, Debug, PartialEq, Eq, Structural)]
pub struct ThisExpr {
    pub span: Span,
}

/// An array literal; `None` elements are elisions (holes).
#[derive(Debug, PartialEq, Eq)]
pub struct ArrayLit {
    pub span: Span,
    pub elems: Vec<Option<ExprOrSpread>>,
}

/// One position of an argument or element list: a plain expression, or a
/// spread element `...expr` when `spread` is set.
#[derive(Debug, PartialEq, Eq)]
pub struct ExprOrSpread {
    pub spread: bool,
    pub expr: Box<Expr>,
}

/// A callee or member object: either the `super` keyword or an expression.
#[derive(Debug, PartialEq, Eq)]
pub enum ExprOrSuper {
    Super(Span),
    Expr(Box<Expr>),
}

/// Member access `obj.prop` (static) or `obj[prop]` (computed).
#[derive(Debug, PartialEq, Eq)]
pub struct MemberExpr {
    pub span: Span,
    pub obj: ExprOrSuper,
    pub prop: Box<Expr>,
    pub computed: bool,
}

#[derive(Debug, PartialEq, Eq)]
pub struct CallExpr {
    pub span: Span,
    pub callee: ExprOrSuper,
    pub args: Vec<ExprOrSpread>,
}

#[derive(Debug, PartialEq, Eq)]
pub struct NewExpr {
    pub span: Span,
    pub callee: Box<Expr>,
    pub args: Vec<ExprOrSpread>,
}

#[derive(Clone, Copy, Debug, PartialEq, Eq, Structural)]
pub enum UnaryOp {
    Minus,
    Plus,
    Bang,
    Tilde,
    TypeOf,
    Void,
    Delete,
}

#[derive(Debug, PartialEq, Eq)]
pub struct UnaryExpr {
    pub span: Span,
    pub op: UnaryOp,
    pub arg: Box<Expr>,
}

#[derive(Clone, Copy, Debug, PartialEq, Eq, Structural)]
pub enum AssignOp {
    Assign,
    AddAssign,
    SubAssign,
}

/// An assignment expression `left op right`.
#[derive(Debug, PartialEq, Eq)]
pub struct AssignExpr {
    pub span: Span,
    pub op: AssignOp,
    pub left: Box<Pat>,
    pub right: Box<Expr>,
}

} // verus!
