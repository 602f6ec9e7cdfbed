//! The types of expressions.
//!
//! Arithmetic is on integers and floats; an integer that meets a float is
//! converted.  A comparison is a boolean.  A local variable has the type of
//! the first value that is assigned to it.

use vstd::prelude::*;
use crate::ast::{size, Decl, Expr, Stmt};
use crate::hir::Type;

verus! {

/// A local variable: its name, its place, and its type.
pub struct Local {
    pub name: Seq<char>,
    pub offset: usize,
    pub ty: Type,
}

/// What is wrong with the types of an expression.
pub enum TypeErr {
    UndefinedLocal(Seq<char>),
    TypeMismatch(Type, Type),
}

/// The first local variable of the name.
pub open spec fn find(locals: Seq<Local>, name: Seq<char>) -> Option<Local>
    decreases locals.len(),
{
    if locals.len() == 0 {
        None
    } else if locals[0].name == name {
        Some(locals[0])
    } else {
        find(locals.skip(1), name)
    }
}

/// The type of an arithmetic operation on operands of two types.
pub open spec fn join(l: Type, r: Type) -> Result<Type, TypeErr> {
    match (l, r) {
        (Type::Integer, Type::Integer) => Ok(Type::Integer),
        (Type::Integer, Type::Float) => Ok(Type::Float),
        (Type::Float, Type::Integer) => Ok(Type::Float),
        (Type::Float, Type::Float) => Ok(Type::Float),
        (l, r) => Err(TypeErr::TypeMismatch(l, r)),
    }
}

/// The type of an arithmetic operation of which one operand is a literal
/// of the type `lit` and the other has the type `t`.
pub open spec fn join_literal(lit: Type, t: Type, literal_first: bool) -> Result<Type, TypeErr> {
    match t {
        Type::Integer => Ok(lit),
        Type::Float => Ok(Type::Float),
        ty => Err(
            TypeErr::TypeMismatch(
                ty,
                if literal_first {
                    t
                } else {
                    lit
                },
            ),
        ),
    }
}

/// The expression is a literal of the given type.
pub open spec fn literal(e: Expr) -> Option<Type> {
    match e {
        Expr::Integer(_) => Some(Type::Integer),
        Expr::Float(_) => Some(Type::Float),
        _ => None,
    }
}

/// The type of `lhs op rhs` for addition and subtraction, and the local
/// variables after it.  A literal operand needs no register and is not
/// generated on its own.
pub open spec fn type_of_arith(lhs: Expr, rhs: Expr, locals: Seq<Local>) -> Result<(Type, Seq<Local>), TypeErr>
    decreases size(lhs) + size(rhs) + 1,
{
    match (literal(lhs), literal(rhs)) {
        (Some(l), Some(r)) => match join(l, r) {
            Ok(t) => Ok((t, locals)),
            Err(e) => Err(e),
        },
        (Some(l), None) => match type_of(rhs, locals) {
            Err(e) => Err(e),
            Ok((rt, l1)) => match join_literal(l, rt, true) {
                Ok(t) => Ok((t, l1)),
                Err(e) => Err(e),
            },
        },
        (None, Some(r)) => match type_of(lhs, locals) {
            Err(e) => Err(e),
            Ok((lt, l1)) => match join_literal(r, lt, false) {
                Ok(t) => Ok((t, l1)),
                Err(e) => Err(e),
            },
        },
        (None, None) => type_of_both(lhs, rhs, locals),
    }
}

/// The type of an arithmetic operation whose operands are both generated,
/// left before right.
pub open spec fn type_of_both(lhs: Expr, rhs: Expr, locals: Seq<Local>) -> Result<(Type, Seq<Local>), TypeErr>
    decreases size(lhs) + size(rhs), 1int,
{
    match type_of(lhs, locals) {
        Err(e) => Err(e),
        Ok((lt, l1)) => match type_of(rhs, l1) {
            Err(e) => Err(e),
            Ok((rt, l2)) => match join(lt, rt) {
                Ok(t) => Ok((t, l2)),
                Err(e) => Err(e),
            },
        },
    }
}

/// The local variables after the operands of a comparison were generated;
/// an error where they cannot be compared.  An integer literal on either
/// side is not generated on its own.
pub open spec fn type_of_cmp(lhs: Expr, rhs: Expr, locals: Seq<Local>) -> Result<Seq<Local>, TypeErr>
    decreases size(lhs) + size(rhs) + 1,
{
    match (lhs, rhs) {
        (Expr::Integer(_), Expr::Integer(_)) => Ok(locals),
        (Expr::Integer(_), _) => match type_of(rhs, locals) {
            Err(e) => Err(e),
            Ok((rt, l1)) => match join_literal(Type::Integer, rt, true) {
                Ok(_) => Ok(l1),
                Err(e) => Err(e),
            },
        },
        (_, Expr::Integer(_)) => match type_of(lhs, locals) {
            Err(e) => Err(e),
            Ok((lt, l1)) => match join_literal(Type::Integer, lt, false) {
                Ok(_) => Ok(l1),
                Err(e) => Err(e),
            },
        },
        _ => match type_of_both(lhs, rhs, locals) {
            Ok((_, l2)) => Ok(l2),
            Err(e) => Err(e),
        },
    }
}

/// The local variables after an assignment of a value of the type `ty` to
/// the variable `name`: a new variable gets the next place.
pub open spec fn stored(locals: Seq<Local>, name: Seq<char>, ty: Type) -> Result<Seq<Local>, TypeErr> {
    match find(locals, name) {
        Some(l) => if l.ty != ty {
            Err(TypeErr::TypeMismatch(l.ty, ty))
        } else {
            Ok(locals)
        },
        None => Ok(locals.push(Local { name, offset: locals.len() as usize, ty })),
    }
}

/// The local variables after the condition of a conditional was generated.
/// A comparison as the condition is fused with the branch; any other
/// condition has to be a boolean.
pub open spec fn type_of_cond(cond: Expr, locals: Seq<Local>) -> Result<Seq<Local>, TypeErr>
    decreases size(cond), 3int,
{
    match cond {
        Expr::Cmp(_, lhs, rhs) => match type_of(*lhs, locals) {
            Err(e) => Err(e),
            Ok((lt, l1)) => match *rhs {
                Expr::Integer(_) => match lt {
                    Type::Integer => Ok(l1),
                    Type::Float => Ok(l1),
                    _ => Err(TypeErr::TypeMismatch(lt, Type::Integer)),
                },
                _ => match type_of(*rhs, l1) {
                    Err(e) => Err(e),
                    Ok((rt, l2)) => match join(lt, rt) {
                        Ok(_) => Ok(l2),
                        Err(e) => Err(e),
                    },
                },
            },
        },
        _ => match type_of(cond, locals) {
            Err(e) => Err(e),
            Ok((Type::Bool, l1)) => Ok(l1),
            Ok((ty, _)) => Err(TypeErr::TypeMismatch(ty, Type::Bool)),
        },
    }
}

/// The type of an expression and the local variables after it, or what is
/// wrong with it.
pub open spec fn type_of(e: Expr, locals: Seq<Local>) -> Result<(Type, Seq<Local>), TypeErr>
    decreases size(e), 2int,
{
    match e {
        Expr::Integer(_) => Ok((Type::Integer, locals)),
        Expr::Float(_) => Ok((Type::Float, locals)),
        Expr::Neg(a) => match literal(*a) {
            Some(t) => Ok((t, locals)),
            None => match type_of(*a, locals) {
                Err(e) => Err(e),
                Ok((Type::Integer, l1)) => Ok((Type::Integer, l1)),
                Ok((Type::Float, l1)) => Ok((Type::Float, l1)),
                Ok((ty, _)) => Err(TypeErr::TypeMismatch(ty, ty)),
            },
        },
        Expr::Add(a, b) => type_of_arith(*a, *b, locals),
        Expr::Sub(a, b) => type_of_arith(*a, *b, locals),
        Expr::Mul(a, b) => type_of_both(*a, *b, locals),
        Expr::Div(a, b) => type_of_both(*a, *b, locals),
        Expr::Cmp(_, a, b) => match type_of_cmp(*a, *b, locals) {
            Ok(l1) => Ok((Type::Bool, l1)),
            Err(e) => Err(e),
        },
        Expr::LocalStore(name, a) => match type_of(*a, locals) {
            Err(e) => Err(e),
            Ok((t, l1)) => match stored(l1, name@, t) {
                Ok(l2) => Ok((t, l2)),
                Err(e) => Err(e),
            },
        },
        Expr::LocalLoad(name) => match find(locals, name@) {
            Some(l) => Ok((l.ty, locals)),
            None => Err(TypeErr::UndefinedLocal(name@)),
        },
        Expr::If(c, t, f) => match type_of_cond(*c, locals) {
            Err(e) => Err(e),
            Ok(l1) => match type_of(*f, l1) {
                Err(e) => Err(e),
                Ok((ft, l2)) => match type_of(*t, l2) {
                    Err(e) => Err(e),
                    Ok((tt, l3)) => if tt != ft {
                        Err(TypeErr::TypeMismatch(tt, ft))
                    } else {
                        Ok((tt, l3))
                    },
                },
            },
        },
    }
}

/// The local variables after an expression whose value is not used was
/// generated.  Only the assignments in it, and the conditions of its
/// conditionals, are generated.
pub open spec fn check_nouse(e: Expr, locals: Seq<Local>) -> Result<Seq<Local>, TypeErr>
    decreases size(e), 0int,
{
    match e {
        Expr::Neg(a) => match literal(*a) {
            Some(_) => Ok(locals),
            None => check_nouse(*a, locals),
        },
        Expr::Add(a, b) | Expr::Sub(a, b) | Expr::Mul(a, b) | Expr::Div(a, b) => match check_nouse(*a, locals) {
            Err(e) => Err(e),
            Ok(l1) => check_nouse(*b, l1),
        },
        Expr::LocalStore(name, a) => match type_of(*a, locals) {
            Err(e) => Err(e),
            Ok((t, l1)) => stored(l1, name@, t),
        },
        Expr::If(c, t, f) => match type_of(*c, locals) {
            Err(e) => Err(e),
            Ok((_, l1)) => match check_nouse(*t, l1) {
                Err(e) => Err(e),
                Ok(l2) => check_nouse(*f, l2),
            },
        },
        _ => Ok(locals),
    }
}

/// The type of the body of a function: of its last expression, after the
/// first `n - 1` were generated without a value.  An empty body is the
/// integer 0.
pub open spec fn type_of_body(body: Seq<Expr>, n: int, locals: Seq<Local>) -> Result<(Type, Seq<Local>), TypeErr> {
    if n <= 0 {
        Ok((Type::Integer, locals))
    } else {
        match check_exprs(body, n - 1, locals) {
            Err(e) => Err(e),
            Ok(l) => type_of(body[n - 1], l),
        }
    }
}

/// The local variables after the first `n` expressions of a body were
/// generated without a value.
pub open spec fn check_exprs(body: Seq<Expr>, n: int, locals: Seq<Local>) -> Result<Seq<Local>, TypeErr>
    decreases n,
{
    if n <= 0 {
        Ok(locals)
    } else {
        match check_exprs(body, n - 1, locals) {
            Err(e) => Err(e),
            Ok(l) => check_nouse(body[n - 1], l),
        }
    }
}

/// What is wrong with a declaration, if anything: the body of a method is
/// typed with local variables of its own.
pub open spec fn check_decl(d: Decl) -> Result<(), TypeErr> {
    match d {
        Decl::MethodDef(_, _, body) => match type_of_body(body@, body@.len() as int, seq![]) {
            Ok(_) => Ok(()),
            Err(e) => Err(e),
        },
    }
}

/// The local variables after a statement whose value is not used.
pub open spec fn check_stmt(s: Stmt, locals: Seq<Local>) -> Result<Seq<Local>, TypeErr> {
    match s {
        Stmt::Expr(e) => check_nouse(e, locals),
        Stmt::Decl(d) => match check_decl(d) {
            Ok(_) => Ok(locals),
            Err(e) => Err(e),
        },
    }
}

/// The local variables after the first `n` statements.
pub open spec fn check_stmts(stmts: Seq<Stmt>, n: int, locals: Seq<Local>) -> Result<Seq<Local>, TypeErr>
    decreases n,
{
    if n <= 0 {
        Ok(locals)
    } else {
        match check_stmts(stmts, n - 1, locals) {
            Err(e) => Err(e),
            Ok(l) => check_stmt(stmts[n - 1], l),
        }
    }
}

/// The type of a program: of its last statement, after all statements
/// before it.  A declaration has the value 0, and so has the empty program.
pub open spec fn type_of_stmts(stmts: Seq<Stmt>, locals: Seq<Local>) -> Result<(Type, Seq<Local>), TypeErr> {
    if stmts.len() == 0 {
        Ok((Type::Integer, locals))
    } else {
        match check_stmts(stmts, stmts.len() - 1, locals) {
            Err(e) => Err(e),
            Ok(l) => match stmts.last() {
                Stmt::Expr(e) => type_of(e, l),
                Stmt::Decl(d) => match check_decl(d) {
                    Ok(_) => Ok((Type::Integer, l)),
                    Err(e) => Err(e),
                },
            },
        }
    }
}

} // verus!
