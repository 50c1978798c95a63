//! Front end of a schema-description compiler: reduces a grammar-produced
//! concrete syntax tree (CST) for a declarative schema DSL into a typed,
//! order-preserving abstract syntax tree (AST), with located diagnostics
//! when a tree node does not match any expected shape.

use vstd::prelude::*;

pub mod ast;
pub mod cst;
pub mod err;
pub mod laws;
pub mod literals;
pub mod model;
pub mod parser;
pub mod report;

verus! {

/// Generation target selector for downstream code generation.
#[derive(Debug, PartialEq, Eq, Structural, Clone, Copy)]
pub enum Target {
    SeaORMPostgreSQL,
}

} // verus!
