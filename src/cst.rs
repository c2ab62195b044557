//! A concrete syntax tree that mirrors the source closely: definitions of
//! names by expressions, with room for source spans. The parser does not
//! build it yet.
use vstd::prelude::*;

verus! {

#[derive(Debug)]
pub struct AST {
    pub items: Vec<Item>,
}

/// An attribute: a name with its arguments.
pub struct Attr {
    pub name: String,
    pub args: Vec<String>,
}

/// A range of positions in the source text.
pub struct Span {
    pub start: usize,
    pub end: usize,
}

#[derive(Debug)]
pub struct Item {
    pub kind: ItemKind,
}

#[derive(Debug)]
pub enum ItemKind {
    Def(Def),
}

/// A name defined by an expression.
#[derive(Debug)]
pub struct Def {
    pub name: String,
    pub expr: Expr,
}

#[derive(Debug)]
pub struct Expr {
    pub kind: ExprKind,
}

#[derive(Debug)]
pub enum ExprKind {
    Literal(Literal),
    Name(String),
    Lambda(String, Box<Expr>),
    Apply(String, Literal),
}

#[derive(Debug)]
pub struct Literal {
    pub kind: LitKind,
}

#[derive(Debug)]
pub enum LitKind {
    Int(i64),
}

} // verus!
