//! A typed syntax tree for JavaScript/TypeScript sources, with a
//! structural rewrite framework and a spread-lowering compatibility pass,
//! and a tagged-value serialization contract for interop with other
//! tooling.
//!
//! The tree lives in `span`, `ident`, `lit`, `expr`, `pat`, `stmt`,
//! `module`, `class` and `typescript`; `views` gives every node family
//! its mathematical mirror, which all contracts speak about. `fold`
//! holds the traversal and the pass pipeline, `spread` the lowering
//! rules, `laws` the proved properties of the pass, and `serial` the
//! serialization contract with its round-trip proofs.

pub mod class;
pub mod config;
pub mod expr;
pub mod fold;
pub mod ident;
pub mod laws;
pub mod lit;
pub mod module;
pub mod pat;
pub mod serial;
pub mod span;
pub mod spread;
pub mod stmt;
pub mod typescript;
pub mod views;
