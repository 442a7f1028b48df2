//! Statements and declarations.
use crate::expr::Expr;
use crate::ident::Ident;
use crate::pat::Pat;
use crate::span::Span;
use crate::typescript::TsEnumDecl;
use crate::typescript::TsInterfaceDecl;
use crate::typescript::TsModuleDecl;
use crate::typescript::TsTypeAliasDecl;
use vstd::prelude::*;

verus! {

/// The closed set of statement forms.
#[derive(Debug, PartialEq, Eq)]
pub enum Stmt {
    Expr(ExprStmt),
    Block(BlockStmt),
    Return(ReturnStmt),
    Decl(Decl),
}

/// An expression statement `expr;`.
#[derive(Debug, PartialEq, Eq)]
pub struct ExprStmt {
    pub span: Span,
    pub expr: Box<Expr>,
}

#[derive(Debug, PartialEq, Eq)]
pub struct BlockStmt {
    pub span: Span,
    pub stmts: Vec<Stmt>,
}

#[derive(Debug, PartialEq, Eq)]
pub struct ReturnStmt {
    pub span: Span,
    pub arg: Option<Box<Expr>>,
}

/// The closed set of declaration forms.
#[derive(Debug, PartialEq, Eq)]
pub enum Decl {
    Var(VarDecl),
    Fn(FnDecl),
    TsInterface(TsInterfaceDecl),
    TsTypeAlias(TsTypeAliasDecl),
    TsEnum(TsEnumDecl),
    TsModule(TsModuleDecl),
}

#[derive(Clone, Copy, Debug, PartialEq, Eq, Structural)]
pub enum VarDeclKind {
    Var,
    Let,
    Const,
}

#[derive(Debug, PartialEq, Eq)]
pub struct VarDecl {
    pub span: Span,
    pub kind: VarDeclKind,
    pub decls: Vec<VarDeclarator>,
}

/// One `name = init` binding of a variable declaration.
#[derive(Debug, PartialEq, Eq)]
pub struct VarDeclarator {
    pub span: Span,
    pub name: Pat,
    pub init: Option<Box<Expr>>,
}

#[derive(Debug, PartialEq, Eq)]
pub struct FnDecl {
    pub ident: Ident,
    pub function: Function,
}

/// A function: parameter patterns and a body block.
#[derive(Debug, PartialEq, Eq)]
pub struct Function {
    pub span: Span,
    pub params: Vec<Pat>,
    pub body: BlockStmt,
}

} // verus!
