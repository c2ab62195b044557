//! Front end of the Woland language: the syntax tree and the parser that
//! builds it from source text, a concrete syntax tree for later use, and the
//! handles through which the code generator reaches MLIR.

pub mod ast;
pub mod cst;
pub mod grammar;
pub mod laws;
pub mod mlir;
pub mod parser;
