//! The syntax tree of the small typed language that the intermediate
//! representation is generated from.

use vstd::prelude::*;
use crate::inst::CmpKind;

verus! {

/// An expression.  A float literal is kept as its bits.
#[derive(Debug)]
pub enum Expr {
    Integer(i32),
    Float(u64),
    Neg(Box<Expr>),
    Add(Box<Expr>, Box<Expr>),
    Sub(Box<Expr>, Box<Expr>),
    Mul(Box<Expr>, Box<Expr>),
    Div(Box<Expr>, Box<Expr>),
    Cmp(CmpKind, Box<Expr>, Box<Expr>),
    /// Assignment to a local variable.
    LocalStore(String, Box<Expr>),
    /// The value of a local variable.
    LocalLoad(String),
    /// Condition, then-branch, else-branch.
    If(Box<Expr>, Box<Expr>, Box<Expr>),
}

/// A declaration.
#[derive(Debug)]
pub enum Decl {
    /// Name, names of the arguments, body.
    MethodDef(String, Vec<String>, Vec<Expr>),
}

/// A statement.
#[derive(Debug)]
pub enum Stmt {
    Expr(Expr),
    Decl(Decl),
}

/// The number of nodes of an expression.
pub open spec fn size(e: Expr) -> nat
    decreases e,
{
    match e {
        Expr::Integer(_) => 1,
        Expr::Float(_) => 1,
        Expr::Neg(a) => 1 + size(*a),
        Expr::Add(a, b) => 2 + size(*a) + size(*b),
        Expr::Sub(a, b) => 2 + size(*a) + size(*b),
        Expr::Mul(a, b) => 2 + size(*a) + size(*b),
        Expr::Div(a, b) => 2 + size(*a) + size(*b),
        Expr::Cmp(_, a, b) => 2 + size(*a) + size(*b),
        Expr::LocalStore(_, a) => 1 + size(*a),
        Expr::LocalLoad(_) => 1,
        Expr::If(c, t, e) => 3 + size(*c) + size(*t) + size(*e),
    }
}

} // verus!
