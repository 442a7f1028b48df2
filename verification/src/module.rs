//! The module: the root of one source file's tree.
use crate::span::Span;
use crate::stmt::Stmt;
use vstd::prelude::*;

verus! {

/// One item of a module body. A closed set so that consumers are forced
/// to handle every new item form when one is added.
#[derive(Debug, PartialEq, Eq)]
pub enum ModuleItem {
    Stmt(Stmt),
}

/// A whole parsed module.
#[derive(Debug, PartialEq, Eq)]
pub struct Module {
    pub span: Span,
    pub body: Vec<ModuleItem>,
}

} // verus!
