//! The generation of the intermediate representation from the syntax tree.
//!
//! Generation assigns types as it goes.  It succeeds exactly on the
//! expressions that have a type, and the register of the result has that
//! type.

use vstd::prelude::*;
use crate::ast::{size, Decl, Expr, Stmt};
use crate::hir::{
    HIRBinop, HIRContext, Hir, HirBinop2, HirErr, HirOperand, HirUnop, SsaReg, SsaRegInfo, Type, Value,
};
use crate::inst::CmpKind;
use crate::mcir_gen::{negated, sign_flipped};
use crate::typing::{
    check_decl, check_exprs, check_nouse, check_stmt, check_stmts, find, join, join_literal, literal,
    stored, type_of, type_of_arith, type_of_body, type_of_both, type_of_cmp, type_of_cond,
    type_of_stmts, Local, TypeErr,
};

verus! {

/// A local variable.
#[derive(Debug)]
pub struct LocalInfo {
    pub name: String,
    pub offset: usize,
    pub ty: Type,
}

/// The contents of a table of local variables.
pub open spec fn locals_view(map: Seq<LocalInfo>) -> Seq<Local> {
    map.map_values(|l: LocalInfo| Local { name: l.name@, offset: l.offset, ty: l.ty })
}

/// The contents of an error.
pub open spec fn err_view(e: HirErr) -> TypeErr {
    match e {
        HirErr::UndefinedLocal(name) => TypeErr::UndefinedLocal(name@),
        HirErr::TypeMismatch(l, r) => TypeErr::TypeMismatch(l, r),
    }
}

/// The arithmetic operations that have a form on integers and a form on
/// floats.
#[derive(Clone, Copy, Debug, PartialEq, Eq, Structural)]
pub enum ArithOp {
    Add,
    Sub,
    Mul,
    Div,
}

/// The new context has every register of the old one, with its type, and
/// the same functions.
pub open spec fn grows(old: &HIRContext, new: &HIRContext) -> bool {
    &&& old.types().is_prefix_of(new.types())
    &&& new.functions@.len() == old.functions@.len()
    &&& forall|i: int|
        0 <= i < old.functions@.len() ==> (#[trigger] new.functions@[i]).name == old.functions@[i].name
            && new.functions@[i].ret_ty == old.functions@[i].ret_ty
    &&& new.cur_fn == old.cur_fn
    &&& old.basic_block@.len() <= new.basic_block@.len()
}

/// What the generation of an expression with a value leaves behind, given
/// the type that the expression has, or what is wrong with it.
pub open spec fn generated(
    old: &HIRContext,
    new: &HIRContext,
    r: Result<SsaReg, HirErr>,
    locals: Seq<Local>,
    expect: Result<(Type, Seq<Local>), TypeErr>,
) -> bool {
    match expect {
        Err(e) => r is Err && err_view(r->Err_0) == e,
        Ok((ty, l)) => {
            &&& r is Ok
            &&& new.wf()
            &&& grows(old, new)
            &&& (r->Ok_0).0 + 1 == new.types().len()
            &&& new.types().last() == ty
            &&& locals == l
        },
    }
}

/// What the generation of an expression without a value leaves behind.
pub open spec fn checked(
    old: &HIRContext,
    new: &HIRContext,
    r: Result<(), HirErr>,
    locals: Seq<Local>,
    expect: Result<Seq<Local>, TypeErr>,
) -> bool {
    match expect {
        Err(e) => r is Err && err_view(r->Err_0) == e,
        Ok(l) => r is Ok && new.wf() && grows(old, new) && locals == l,
    }
}

/// The place of the local variable of the name: the place it has, or the
/// next free place where the name is new.
pub open spec fn place_of(locals: Seq<Local>, name: Seq<char>) -> usize {
    match find(locals, name) {
        Some(l) => l.offset,
        None => locals.len() as usize,
    }
}

/// The one instruction that the generation of a literal, of a negated
/// literal, or of a local variable appends, where `r` is the register of the
/// result; and the type of that register.
pub open spec fn leaf_inst(e: Expr, r: SsaReg, locals: Seq<Local>) -> Option<(Hir, Type)> {
    match e {
        Expr::Integer(i) => Some((Hir::Integer(r, i), Type::Integer)),
        Expr::Float(f) => Some((Hir::Float(r, f), Type::Float)),
        Expr::Neg(a) => match *a {
            Expr::Integer(i) => Some((Hir::Integer(r, negated(i)), Type::Integer)),
            Expr::Float(f) => Some((Hir::Float(r, sign_flipped(f)), Type::Float)),
            _ => None,
        },
        Expr::LocalLoad(name) => match find(locals, name@) {
            Some(l) => Some((Hir::LocalLoad((l.offset, l.ty), r), l.ty)),
            None => None,
        },
        _ => None,
    }
}

/// Finds the first local variable of the name.
fn find_local(map: &Vec<LocalInfo>, ident: &String) -> (r: Option<(usize, Type)>)
    ensures
        match find(locals_view(map@), ident@) {
            Some(l) => r == Some((l.offset, l.ty)),
            None => r is None,
        },
{
    let mut i: usize = 0;
    assert(locals_view(map@).skip(0) =~= locals_view(map@));
    while i < map.len()
        invariant
            i <= map.len(),
            find(locals_view(map@).skip(i as int), ident@) == find(locals_view(map@), ident@),
        decreases map.len() - i,
    {
        let ghost v = locals_view(map@);
        assert(v.skip(i as int)[0] == v[i as int]);
        assert(v.skip(i as int).skip(1) =~= v.skip(i + 1));
        if map[i].name == *ident {
            return Some((map[i].offset, map[i].ty));
        }
        i += 1;
    }
    None
}

/// Finds the local variable of the name, or makes it with the type `ty`.
fn find_or_insert(map: &mut Vec<LocalInfo>, ident: &String, ty: Type) -> (info: (usize, Type))
    ensures
        match find(locals_view(old(map)@), ident@) {
            Some(l) => info == (l.offset, l.ty) && final(map)@ == old(map)@,
            None => info == (old(map)@.len() as usize, ty) && locals_view(final(map)@) == locals_view(
                old(map)@,
            ).push(Local { name: ident@, offset: old(map)@.len() as usize, ty }),
        },
{
    match find_local(map, ident) {
        Some(info) => info,
        None => {
            let len = map.len();
            map.push(LocalInfo { name: ident.clone(), offset: len, ty });
            assert(locals_view(map@) =~= locals_view(old(map)@).push(
                Local { name: ident@, offset: len, ty },
            ));
            (len, ty)
        },
    }
}

fn is_literal(e: &Expr) -> (r: Option<Type>)
    ensures
        r == literal(*e),
{
    match e {
        Expr::Integer(_) => Some(Type::Integer),
        Expr::Float(_) => Some(Type::Float),
        _ => None,
    }
}

/// The operand that a literal stands for: the constant of its value.
pub open spec fn literal_value(e: Expr) -> HirOperand {
    match e {
        Expr::Integer(i) => HirOperand::Const(Value::Integer(i)),
        Expr::Float(f) => HirOperand::Const(Value::Float(f)),
        _ => HirOperand::Const(Value::Integer(0)),
    }
}

/// The operand of a literal.
fn literal_operand(e: &Expr) -> (o: HirOperand)
    requires
        literal(*e) is Some,
    ensures
        o == literal_value(*e),
{
    match e {
        Expr::Integer(i) => HirOperand::integer(*i),
        Expr::Float(f) => HirOperand::float(*f),
        _ => HirOperand::integer(0),
    }
}

/// The operand of the type is an integer register or an integer constant,
/// which has to be converted before it is used as a float.
pub open spec fn needs_cast(o: HirOperand, ty: Type) -> bool {
    !(ty is Float) && (o is Reg || o matches HirOperand::Const(Value::Integer(_)))
}

impl HIRContext {
    /// Appends the arithmetic instruction on integers.
    fn new_iarith(&mut self, op: ArithOp, lhs: HirOperand, rhs: HirOperand) -> (r: SsaReg)
        requires
            old(self).wf(),
        ensures
            final(self).wf(),
            grows(old(self), final(self)),
            r.0 + 1 == final(self).types().len(),
            final(self).types().last() == Type::Integer,
            final(self).cur_bb == old(self).cur_bb,
            final(self).basic_block@.len() == old(self).basic_block@.len(),
    {
        match op {
            ArithOp::Add => self.new_iadd(lhs, rhs),
            ArithOp::Sub => self.new_isub(lhs, rhs),
            ArithOp::Mul => {
                let l = self.operand_reg(lhs, Type::Integer);
                let r = self.operand_reg(rhs, Type::Integer);
                self.new_imul(l, r)
            },
            ArithOp::Div => {
                let l = self.operand_reg(lhs, Type::Integer);
                let r = self.operand_reg(rhs, Type::Integer);
                self.new_idiv(l, r)
            },
        }
    }

    /// The register of an operand; a constant is loaded into a new one.
    fn operand_reg(&mut self, o: HirOperand, ty: Type) -> (r: SsaReg)
        requires
            old(self).wf(),
        ensures
            final(self).wf(),
            grows(old(self), final(self)),
            final(self).cur_bb == old(self).cur_bb,
            final(self).basic_block@.len() == old(self).basic_block@.len(),
            o is Reg ==> final(self).types() == old(self).types() && r == o->Reg_0,
    {
        match o {
            HirOperand::Reg(r) => r,
            HirOperand::Const(Value::Integer(i)) => self.new_integer(i),
            HirOperand::Const(Value::Float(f)) => self.new_float(f),
            HirOperand::Const(Value::Bool(_)) => self.new_integer(0),
        }
    }

    /// Appends the arithmetic instruction on floats.
    fn new_farith(&mut self, op: ArithOp, lhs: HirOperand, rhs: HirOperand) -> (r: SsaReg)
        requires
            old(self).wf(),
        ensures
            final(self).wf(),
            grows(old(self), final(self)),
            r.0 + 1 == final(self).types().len(),
            final(self).types().last() == Type::Float,
            final(self).cur_bb == old(self).cur_bb,
            final(self).basic_block@.len() == old(self).basic_block@.len(),
    {
        match op {
            ArithOp::Add => self.new_fadd(lhs, rhs),
            ArithOp::Sub => self.new_fsub(lhs, rhs),
            ArithOp::Mul => self.new_fmul(lhs, rhs),
            ArithOp::Div => self.new_fdiv(lhs, rhs),
        }
    }

    /// The operand as a float: an integer register or literal is converted
    /// into a new register by an instruction that is appended to the
    /// current block.  A float operand, and a constant that is no integer,
    /// is handed back as it is, and nothing is appended.
    fn as_float_operand(&mut self, o: HirOperand, ty: Type) -> (r: HirOperand)
        requires
            old(self).wf(),
        ensures
            final(self).wf(),
            grows(old(self), final(self)),
            final(self).cur_bb == old(self).cur_bb,
            final(self).basic_block@.len() == old(self).basic_block@.len(),
            if needs_cast(o, ty) {
                &&& r matches HirOperand::Reg(ret)
                &&& ret.0 == old(self).reginfo@.len()
                &&& final(self).appended(
                    old(self),
                    Hir::CastIntFloat(HirUnop { ret: r->Reg_0, src: o }),
                    Some(Type::Float),
                )
            } else {
                &&& r == o
                &&& *final(self) == *old(self)
            },
    {
        match ty {
            Type::Float => o,
            _ => match o {
                HirOperand::Reg(r) => HirOperand::Reg(self.new_as_float(r)),
                HirOperand::Const(Value::Integer(i)) => HirOperand::Reg(self.new_as_float_imm(i)),
                other => other,
            },
        }
    }

    /// Appends the arithmetic instruction for operands of the given types.
    fn new_arith(&mut self, op: ArithOp, lhs: HirOperand, lt: Type, rhs: HirOperand, rt: Type) -> (r: Result<
        SsaReg,
        HirErr,
    >)
        requires
            old(self).wf(),
        ensures
            match join(lt, rt) {
                Err(e) => r is Err && err_view(r->Err_0) == e,
                Ok(ty) => {
                    &&& r is Ok
                    &&& final(self).wf()
                    &&& grows(old(self), final(self))
                    &&& (r->Ok_0).0 + 1 == final(self).types().len()
                    &&& final(self).types().last() == ty
                    &&& final(self).cur_bb == old(self).cur_bb
                    &&& final(self).basic_block@.len() == old(self).basic_block@.len()
                },
            },
    {
        match (lt, rt) {
            (Type::Integer, Type::Integer) => Ok(self.new_iarith(op, lhs, rhs)),
            (Type::Integer, Type::Float) => {
                let l = self.as_float_operand(lhs, lt);
                Ok(self.new_farith(op, l, rhs))
            },
            (Type::Float, Type::Integer) => {
                let r = self.as_float_operand(rhs, rt);
                Ok(self.new_farith(op, lhs, r))
            },
            (Type::Float, Type::Float) => Ok(self.new_farith(op, lhs, rhs)),
            (l, r) => Err(HirErr::TypeMismatch(l, r)),
        }
    }

    /// Appends an assignment to a local variable whose value is used: one
    /// `LocalStore` into the variable's place, whose value is a new register
    /// of the type of `rhs`.  A name that is new gets the next free place.
    /// Where the variable has another type nothing is changed.
    pub fn new_local_store(&mut self, local_map: &mut Vec<LocalInfo>, ident: &String, rhs: SsaReg) -> (r: Result<
        SsaReg,
        HirErr,
    >)
        requires
            old(self).wf(),
            rhs.0 < old(self).reginfo@.len(),
        ensures
            final(self).cur_bb == old(self).cur_bb,
            final(self).basic_block@.len() == old(self).basic_block@.len(),
            generated(
                old(self),
                final(self),
                r,
                locals_view(final(local_map)@),
                match stored(locals_view(old(local_map)@), ident@, old(self).types()[rhs.0 as int]) {
                    Ok(l) => Ok((old(self).types()[rhs.0 as int], l)),
                    Err(e) => Err(e),
                },
            ),
            r is Err ==> *final(self) == *old(self) && final(local_map)@ == old(local_map)@,
            r matches Ok(ret) ==> {
                let ty = old(self).types()[rhs.0 as int];
                let place = place_of(locals_view(old(local_map)@), ident@);
                &&& ret.0 == old(self).reginfo@.len()
                &&& final(self).appended(old(self), Hir::LocalStore(Some(ret), (place, ty), rhs), Some(ty))
            },
    {
        let ty = self.ty(rhs);
        let info = find_or_insert(local_map, ident, ty);
        if !type_eq(info.1, ty) {
            return Err(HirErr::TypeMismatch(info.1, ty));
        }
        let ret = self.next_reg();
        Ok(self.add_assign(Hir::LocalStore(Some(ret), info, rhs), ty))
    }

    /// Appends an assignment to a local variable whose value is not used:
    /// one `LocalStore` without a register for its value.  Where the
    /// variable has another type nothing is changed.
    pub fn new_local_store_nouse(&mut self, local_map: &mut Vec<LocalInfo>, ident: &String, rhs: SsaReg) -> (r:
        Result<(), HirErr>)
        requires
            old(self).wf(),
            rhs.0 < old(self).reginfo@.len(),
        ensures
            final(self).cur_bb == old(self).cur_bb,
            final(self).basic_block@.len() == old(self).basic_block@.len(),
            checked(
                old(self),
                final(self),
                r,
                locals_view(final(local_map)@),
                stored(locals_view(old(local_map)@), ident@, old(self).types()[rhs.0 as int]),
            ),
            r is Err ==> *final(self) == *old(self) && final(local_map)@ == old(local_map)@,
            r is Ok ==> {
                let ty = old(self).types()[rhs.0 as int];
                let place = place_of(locals_view(old(local_map)@), ident@);
                final(self).appended(old(self), Hir::LocalStore(None, (place, ty), rhs), None)
            },
    {
        let ty = self.ty(rhs);
        let info = find_or_insert(local_map, ident, ty);
        if !type_eq(info.1, ty) {
            return Err(HirErr::TypeMismatch(info.1, ty));
        }
        self.push_inst(Hir::LocalStore(None, info, rhs));
        Ok(())
    }

    /// Appends the load of a local variable: one `LocalLoad` from the
    /// variable's place into a new register.  Where the name is unknown
    /// nothing is changed.
    pub fn new_local_load(&mut self, local_map: &Vec<LocalInfo>, ident: &String) -> (r: Result<SsaReg, HirErr>)
        requires
            old(self).wf(),
        ensures
            final(self).cur_bb == old(self).cur_bb,
            final(self).basic_block@.len() == old(self).basic_block@.len(),
            generated(
                old(self),
                final(self),
                r,
                locals_view(local_map@),
                match find(locals_view(local_map@), ident@) {
                    Some(l) => Ok((l.ty, locals_view(local_map@))),
                    None => Err(TypeErr::UndefinedLocal(ident@)),
                },
            ),
            r is Err ==> *final(self) == *old(self),
            r matches Ok(ret) ==> {
                let l = find(locals_view(local_map@), ident@)->0;
                &&& ret.0 == old(self).reginfo@.len()
                &&& final(self).appended(old(self), Hir::LocalLoad((l.offset, l.ty), ret), Some(l.ty))
            },
    {
        let info = match find_local(local_map, ident) {
            Some(info) => info,
            None => {
                return Err(HirErr::UndefinedLocal(ident.clone()));
            },
        };
        let ty = info.1;
        let ret = self.next_reg();
        Ok(self.add_assign(Hir::LocalLoad(info, ret), ty))
    }

    /// Generates both operands, left before right, and the arithmetic
    /// instruction on them.
    fn gen_both(&mut self, local_map: &mut Vec<LocalInfo>, op: ArithOp, lhs: &Expr, rhs: &Expr) -> (r: Result<
        SsaReg,
        HirErr,
    >)
        requires
            old(self).wf(),
        ensures
            generated(
                old(self),
                final(self),
                r,
                locals_view(final(local_map)@),
                type_of_both(*lhs, *rhs, locals_view(old(local_map)@)),
            ),
        decreases size(*lhs) + size(*rhs), 1int,
    {
        let l = match self.gen(local_map, lhs) {
            Ok(r) => r,
            Err(e) => {
                return Err(e);
            },
        };
        let lt = self.ty(l);
        let r = match self.gen(local_map, rhs) {
            Ok(r) => r,
            Err(e) => {
                return Err(e);
            },
        };
        let rt = self.ty(r);
        assert(self.types()[l.0 as int] == lt);
        self.new_arith(op, HirOperand::Reg(l), lt, HirOperand::Reg(r), rt)
    }

    /// Generates an addition or subtraction.  A literal operand goes into
    /// the instruction itself.
    fn gen_arith(&mut self, local_map: &mut Vec<LocalInfo>, op: ArithOp, lhs: &Expr, rhs: &Expr) -> (r: Result<
        SsaReg,
        HirErr,
    >)
        requires
            old(self).wf(),
        ensures
            generated(
                old(self),
                final(self),
                r,
                locals_view(final(local_map)@),
                type_of_arith(*lhs, *rhs, locals_view(old(local_map)@)),
            ),
        decreases size(*lhs) + size(*rhs) + 1,
    {
        match (is_literal(lhs), is_literal(rhs)) {
            (Some(lt), Some(rt)) => self.new_arith(op, literal_operand(lhs), lt, literal_operand(rhs), rt),
            (Some(lt), None) => {
                let r = match self.gen(local_map, rhs) {
                    Ok(r) => r,
                    Err(e) => {
                        return Err(e);
                    },
                };
                let rt = self.ty(r);
                match rt {
                    Type::Integer | Type::Float => self.new_arith(
                        op,
                        literal_operand(lhs),
                        lt,
                        HirOperand::Reg(r),
                        rt,
                    ),
                    ty => Err(HirErr::TypeMismatch(ty, rt)),
                }
            },
            (None, Some(rt)) => {
                let l = match self.gen(local_map, lhs) {
                    Ok(r) => r,
                    Err(e) => {
                        return Err(e);
                    },
                };
                let lt = self.ty(l);
                match lt {
                    Type::Integer | Type::Float => self.new_arith(
                        op,
                        HirOperand::Reg(l),
                        lt,
                        literal_operand(rhs),
                        rt,
                    ),
                    ty => Err(HirErr::TypeMismatch(ty, rt)),
                }
            },
            (None, None) => self.gen_both(local_map, op, lhs, rhs),
        }
    }

    /// Generates the operands of a comparison and brings them to one type.
    /// Returns both operands and whether they are floats.
    fn gen_cmp_operands(&mut self, local_map: &mut Vec<LocalInfo>, lhs: &Expr, rhs: &Expr) -> (r: Result<
        (HirOperand, HirOperand, bool),
        HirErr,
    >)
        requires
            old(self).wf(),
        ensures
            match type_of_cmp(*lhs, *rhs, locals_view(old(local_map)@)) {
                Err(e) => r is Err && err_view(r->Err_0) == e,
                Ok(l) => r is Ok && final(self).wf() && grows(old(self), final(self)) && locals_view(
                    final(local_map)@,
                ) == l && ((r->Ok_0).2 ==> (r->Ok_0).0 is Reg && (r->Ok_0).1 is Reg),
            },
        decreases size(*lhs) + size(*rhs) + 1,
    {
        match (lhs, rhs) {
            (Expr::Integer(l), Expr::Integer(r)) => Ok((HirOperand::integer(*l), HirOperand::integer(*r), false)),
            (Expr::Integer(l), _) => {
                let r = match self.gen(local_map, rhs) {
                    Ok(r) => r,
                    Err(e) => {
                        return Err(e);
                    },
                };
                let rt = self.ty(r);
                match rt {
                    Type::Integer => Ok((HirOperand::integer(*l), HirOperand::Reg(r), false)),
                    Type::Float => {
                        let l = self.new_as_float_imm(*l);
                        Ok((HirOperand::Reg(l), HirOperand::Reg(r), true))
                    },
                    ty => Err(HirErr::TypeMismatch(ty, rt)),
                }
            },
            (_, Expr::Integer(r)) => {
                let l = match self.gen(local_map, lhs) {
                    Ok(r) => r,
                    Err(e) => {
                        return Err(e);
                    },
                };
                let lt = self.ty(l);
                match lt {
                    Type::Integer => Ok((HirOperand::Reg(l), HirOperand::integer(*r), false)),
                    Type::Float => {
                        let r = self.new_as_float_imm(*r);
                        Ok((HirOperand::Reg(l), HirOperand::Reg(r), true))
                    },
                    ty => Err(HirErr::TypeMismatch(ty, Type::Integer)),
                }
            },
            _ => {
                let l = match self.gen(local_map, lhs) {
                    Ok(r) => r,
                    Err(e) => {
                        return Err(e);
                    },
                };
                let lt = self.ty(l);
                let r = match self.gen(local_map, rhs) {
                    Ok(r) => r,
                    Err(e) => {
                        return Err(e);
                    },
                };
                let rt = self.ty(r);
                match (lt, rt) {
                    (Type::Integer, Type::Integer) => Ok((HirOperand::Reg(l), HirOperand::Reg(r), false)),
                    (Type::Integer, Type::Float) => {
                        let l = self.new_as_float(l);
                        Ok((HirOperand::Reg(l), HirOperand::Reg(r), true))
                    },
                    (Type::Float, Type::Integer) => {
                        let r = self.new_as_float(r);
                        Ok((HirOperand::Reg(l), HirOperand::Reg(r), true))
                    },
                    (Type::Float, Type::Float) => Ok((HirOperand::Reg(l), HirOperand::Reg(r), true)),
                    (l, r) => Err(HirErr::TypeMismatch(l, r)),
                }
            },
        }
    }

    /// Generates the condition of a conditional and the branch on it.
    fn gen_cond(&mut self, local_map: &mut Vec<LocalInfo>, cond: &Expr, then_bb: usize, else_bb: usize) -> (r:
        Result<(), HirErr>)
        requires
            old(self).wf(),
        ensures
            checked(
                old(self),
                final(self),
                r,
                locals_view(final(local_map)@),
                type_of_cond(*cond, locals_view(old(local_map)@)),
            ),
        decreases size(*cond), 3int,
    {
        match cond {
            Expr::Cmp(kind, lhs, rhs) => {
                let l = match self.gen(local_map, &**lhs) {
                    Ok(r) => r,
                    Err(e) => {
                        return Err(e);
                    },
                };
                let lt = self.ty(l);
                match &**rhs {
                    Expr::Integer(r) => {
                        match lt {
                            Type::Integer => {
                                self.push_inst(
                                    Hir::ICmpBr(*kind, l, HirOperand::Const(Value::Integer(*r)), then_bb, else_bb),
                                );
                            },
                            Type::Float => {
                                let r = self.new_as_float_imm(*r);
                                self.push_inst(Hir::FCmpBr(*kind, l, r, then_bb, else_bb));
                            },
                            _ => {
                                return Err(HirErr::TypeMismatch(lt, Type::Integer));
                            },
                        }
                        Ok(())
                    },
                    _ => {
                        let r = match self.gen(local_map, &**rhs) {
                            Ok(r) => r,
                            Err(e) => {
                                return Err(e);
                            },
                        };
                        let rt = self.ty(r);
                        match (lt, rt) {
                            (Type::Integer, Type::Integer) => {
                                self.push_inst(Hir::ICmpBr(*kind, l, HirOperand::Reg(r), then_bb, else_bb));
                            },
                            (Type::Float, Type::Float) => {
                                self.push_inst(Hir::FCmpBr(*kind, l, r, then_bb, else_bb));
                            },
                            (Type::Integer, Type::Float) => {
                                let l = self.new_as_float(l);
                                self.push_inst(Hir::FCmpBr(*kind, l, r, then_bb, else_bb));
                            },
                            (Type::Float, Type::Integer) => {
                                let r = self.new_as_float(r);
                                self.push_inst(Hir::FCmpBr(*kind, l, r, then_bb, else_bb));
                            },
                            (l, r) => {
                                return Err(HirErr::TypeMismatch(l, r));
                            },
                        }
                        Ok(())
                    },
                }
            },
            _ => {
                let c = match self.gen(local_map, cond) {
                    Ok(r) => r,
                    Err(e) => {
                        return Err(e);
                    },
                };
                match self.ty(c) {
                    Type::Bool => {},
                    ty => {
                        return Err(HirErr::TypeMismatch(ty, Type::Bool));
                    },
                }
                self.push_inst(Hir::CondBr(c, then_bb, else_bb));
                Ok(())
            },
        }
    }

    /// Generate HIR from an *Expr*.
    ///
    /// Succeeds where the expression has a type.  The register of the
    /// result is the one that was made last, and has that type.  A literal,
    /// a negated literal and a local variable append one instruction to the
    /// current block; an unknown variable changes nothing.
    pub fn gen(&mut self, local_map: &mut Vec<LocalInfo>, ast: &Expr) -> (r: Result<SsaReg, HirErr>)
        requires
            old(self).wf(),
        ensures
            generated(
                old(self),
                final(self),
                r,
                locals_view(final(local_map)@),
                type_of(*ast, locals_view(old(local_map)@)),
            ),
            r matches Ok(ret) ==> (leaf_inst(*ast, ret, locals_view(old(local_map)@)) matches Some(leaf)
                ==> ret.0 == old(self).reginfo@.len() && final(self).appended(old(self), leaf.0, Some(leaf.1))),
            ast is LocalLoad && r is Err ==> *final(self) == *old(self),
        decreases size(*ast), 2int,
    {
        match ast {
            Expr::Integer(i) => Ok(self.new_integer(*i)),
            Expr::Float(f) => Ok(self.new_float(*f)),
            Expr::Neg(a) => {
                match &**a {
                    Expr::Integer(i) => {
                        return Ok(self.new_integer(negate(*i)));
                    },
                    Expr::Float(f) => {
                        return Ok(self.new_float(flip_sign(*f)));
                    },
                    _ => {},
                }
                let lhs = match self.gen(local_map, &**a) {
                    Ok(r) => r,
                    Err(e) => {
                        return Err(e);
                    },
                };
                match self.ty(lhs) {
                    Type::Integer => Ok(self.new_ineg(lhs)),
                    Type::Float => Ok(self.new_fneg(lhs)),
                    ty => Err(HirErr::TypeMismatch(ty, ty)),
                }
            },
            Expr::Add(a, b) => self.gen_arith(local_map, ArithOp::Add, &**a, &**b),
            Expr::Sub(a, b) => self.gen_arith(local_map, ArithOp::Sub, &**a, &**b),
            Expr::Mul(a, b) => self.gen_both(local_map, ArithOp::Mul, &**a, &**b),
            Expr::Div(a, b) => self.gen_both(local_map, ArithOp::Div, &**a, &**b),
            Expr::Cmp(kind, a, b) => {
                match self.gen_cmp_operands(local_map, &**a, &**b) {
                    Err(e) => Err(e),
                    Ok((l, r, float)) => {
                        if float {
                            match (l, r) {
                                (HirOperand::Reg(l), HirOperand::Reg(r)) => Ok(self.new_fcmp(*kind, l, r)),
                                _ => Ok(self.new_icmp(*kind, l, r)),
                            }
                        } else {
                            Ok(self.new_icmp(*kind, l, r))
                        }
                    },
                }
            },
            Expr::LocalStore(ident, a) => {
                let rhs = match self.gen(local_map, &**a) {
                    Ok(r) => r,
                    Err(e) => {
                        return Err(e);
                    },
                };
                        let r = self.new_local_store(local_map, ident, rhs);
                r
            },
            Expr::LocalLoad(ident) => self.new_local_load(local_map, ident),
            Expr::If(c, t, f) => {
                let else_bb = self.new_bb();
                let then_bb = self.new_bb();
                let succ_bb = self.new_bb();
                match self.gen_cond(local_map, &**c, then_bb, else_bb) {
                    Ok(_) => {},
                    Err(e) => {
                        return Err(e);
                    },
                }
                if !(else_bb < self.basic_block.len() && then_bb < self.basic_block.len() && succ_bb
                    < self.basic_block.len()) {
                    return Err(HirErr::TypeMismatch(Type::Bool, Type::Bool));
                }
                self.cur_bb = else_bb;
                let else_ = match self.gen(local_map, &**f) {
                    Ok(r) => r,
                    Err(e) => {
                        return Err(e);
                    },
                };
                let else_ty = self.ty(else_);
                let else_bb = self.cur_bb;
                self.push_inst(Hir::Br(succ_bb));
                self.cur_bb = then_bb;
                let then_ = match self.gen(local_map, &**t) {
                    Ok(r) => r,
                    Err(e) => {
                        return Err(e);
                    },
                };
                let then_ty = self.ty(then_);
                let then_bb = self.cur_bb;
                self.push_inst(Hir::Br(succ_bb));
                assert(self.reg_type(else_) == else_ty);
                if !type_eq(then_ty, else_ty) {
                    return Err(HirErr::TypeMismatch(then_ty, else_ty));
                }
                self.cur_bb = succ_bb;
                let mut phi: Vec<(usize, SsaReg)> = Vec::new();
                phi.push((then_bb, then_));
                phi.push((else_bb, else_));
                Ok(self.new_phi(phi))
            },
        }
    }
}

/// The new context has every register of the old one and at least its
/// functions and blocks, and the same current function.
pub open spec fn extends(old: &HIRContext, new: &HIRContext) -> bool {
    &&& new.wf()
    &&& new.types() == old.types()
    &&& new.cur_fn == old.cur_fn
    &&& new.cur_bb == old.cur_bb
    &&& old.functions@.len() <= new.functions@.len()
    &&& old.basic_block@.len() <= new.basic_block@.len()
}

impl HIRContext {
    /// Generate HIR from an *Expr* whose value is not used.
    ///
    /// Only the assignments in the expression, and the conditions of its
    /// conditionals, leave instructions.
    pub fn gen_nouse(&mut self, local_map: &mut Vec<LocalInfo>, ast: &Expr) -> (r: Result<(), HirErr>)
        requires
            old(self).wf(),
        ensures
            checked(
                old(self),
                final(self),
                r,
                locals_view(final(local_map)@),
                check_nouse(*ast, locals_view(old(local_map)@)),
            ),
        decreases size(*ast), 0int,
    {
        match ast {
            Expr::Neg(a) => {
                match &**a {
                    Expr::Integer(_) | Expr::Float(_) => Ok(()),
                    _ => self.gen_nouse(local_map, &**a),
                }
            },
            Expr::Add(a, b) | Expr::Sub(a, b) | Expr::Mul(a, b) | Expr::Div(a, b) => {
                match self.gen_nouse(local_map, &**a) {
                    Ok(_) => {},
                    Err(e) => {
                        return Err(e);
                    },
                }
                self.gen_nouse(local_map, &**b)
            },
            Expr::LocalStore(ident, a) => {
                let rhs = match self.gen(local_map, &**a) {
                    Ok(r) => r,
                    Err(e) => {
                        return Err(e);
                    },
                };
                self.new_local_store_nouse(local_map, ident, rhs)
            },
            Expr::If(c, t, f) => {
                let cond = match self.gen(local_map, &**c) {
                    Ok(r) => r,
                    Err(e) => {
                        return Err(e);
                    },
                };
                let then_bb = self.new_bb();
                let else_bb = self.new_bb();
                let succ_bb = self.new_bb();
                self.push_inst(Hir::CondBr(cond, then_bb, else_bb));
                self.cur_bb = then_bb;
                match self.gen_nouse(local_map, &**t) {
                    Ok(_) => {},
                    Err(e) => {
                        return Err(e);
                    },
                }
                self.push_inst(Hir::Br(succ_bb));
                if !(else_bb < self.basic_block.len() && succ_bb < self.basic_block.len()) {
                    return Err(HirErr::TypeMismatch(Type::Bool, Type::Bool));
                }
                self.cur_bb = else_bb;
                match self.gen_nouse(local_map, &**f) {
                    Ok(_) => {},
                    Err(e) => {
                        return Err(e);
                    },
                }
                self.push_inst(Hir::Br(succ_bb));
                self.cur_bb = succ_bb;
                Ok(())
            },
            _ => Ok(()),
        }
    }

    /// Generates the body of a function: every expression but the last
    /// without a value.  Returns the register of the value of the last; an
    /// empty body has the value 0.
    fn gen_body(&mut self, local_map: &mut Vec<LocalInfo>, body: &Vec<Expr>) -> (r: Result<SsaReg, HirErr>)
        requires
            old(self).wf(),
        ensures
            generated(
                old(self),
                final(self),
                r,
                locals_view(final(local_map)@),
                type_of_body(body@, body@.len() as int, locals_view(old(local_map)@)),
            ),
    {
        let len = body.len();
        if len == 0 {
            return Ok(self.new_integer(0));
        }
        let mut i: usize = 0;
        while i < len - 1
            invariant
                i <= len - 1,
                len == body@.len(),
                self.wf(),
                grows(old(self), self),
                check_exprs(body@, i as int, locals_view(old(local_map)@)) == Ok::<Seq<Local>, TypeErr>(
                    locals_view(local_map@),
                ),
            decreases len - i,
        {
            match self.gen_nouse(local_map, &body[i]) {
                Ok(_) => {},
                Err(e) => {
                    proof {
                        lemma_check_exprs_err(body@, i + 1, len - 1, locals_view(old(local_map)@));
                    }
                    return Err(e);
                },
            }
            i += 1;
        }
        self.gen(local_map, &body[len - 1])
    }

    /// Generate HIR in new function from the expressions of its body.
    ///
    /// The function gets registers of its own; afterwards the context is
    /// back in the function and block it was in.  Returns the number of the
    /// new function.
    pub fn new_func_from_ast(&mut self, func_name: String, local_map: &mut Vec<LocalInfo>, ast: &Vec<Expr>) -> (r:
        Result<usize, HirErr>)
        requires
            old(self).wf(),
        ensures
            match type_of_body(ast@, ast@.len() as int, locals_view(old(local_map)@)) {
                Err(e) => r is Err && err_view(r->Err_0) == e,
                Ok((ty, l)) => {
                    &&& r is Ok && r->Ok_0 == old(self).functions@.len()
                    &&& extends(old(self), final(self))
                    &&& final(self).functions@.len() > old(self).functions@.len()
                    &&& final(self).functions@[old(self).functions@.len() as int].ret_ty == Some(ty)
                    &&& final(self).functions@[old(self).functions@.len() as int].name == func_name
                    &&& final(self).functions@[old(self).functions@.len() as int].types().len() > 0
                    &&& final(self).functions@[old(self).functions@.len() as int].types().last() == ty
                    &&& final(self).functions@[old(self).functions@.len() as int].register_num
                        == final(self).functions@[old(self).functions@.len() as int].types().len()
                    &&& locals_view(final(local_map)@) == l
                },
            },
    {
        let save_fn = self.cur_fn;
        let save_bb = self.cur_bb;
        let mut save_reg: Vec<SsaRegInfo> = Vec::new();
        core::mem::swap(&mut save_reg, &mut self.reginfo);
        let func = self.enter_new_func(func_name);
        let ghost entered = *self;
        let ret = match self.gen_body(local_map, ast) {
            Ok(r) => r,
            Err(e) => {
                return Err(e);
            },
        };
        assert(self.types().len() == self.reginfo@.len());
        let ty = self.ty(ret);
        assert(ty == self.types().last());
        self.new_ret(ret);
        let n = self.register_num();
        self.functions[func].ret = Some(ret);
        self.functions[func].ret_ty = Some(ty);
        self.functions[func].register_num = n;
        self.cur_fn = save_fn;
        self.cur_bb = save_bb;
        core::mem::swap(&mut save_reg, &mut self.reginfo);
        self.functions[func].reginfo = save_reg;
        assert(self.types() =~= old(self).types());
        Ok(func)
    }

    /// Generates a declaration without a value.
    pub fn gen_decl_nouse(&mut self, decl: &Decl) -> (r: Result<(), HirErr>)
        requires
            old(self).wf(),
        ensures
            match check_decl(*decl) {
                Err(e) => r is Err && err_view(r->Err_0) == e,
                Ok(_) => r is Ok && extends(old(self), final(self)),
            },
    {
        match decl {
            Decl::MethodDef(name, _, body) => {
                let mut local_map: Vec<LocalInfo> = Vec::new();
                assert(locals_view(local_map@) =~= seq![]);
                match self.new_func_from_ast(name.clone(), &mut local_map, body) {
                    Ok(_) => Ok(()),
                    Err(e) => Err(e),
                }
            },
        }
    }

    /// Generates a declaration; its value is the integer 0.
    pub fn gen_decl(&mut self, decl: &Decl) -> (r: Result<SsaReg, HirErr>)
        requires
            old(self).wf(),
        ensures
            match check_decl(*decl) {
                Err(e) => r is Err && err_view(r->Err_0) == e,
                Ok(_) => r is Ok && final(self).wf() && final(self).types() == old(self).types().push(
                    Type::Integer,
                ) && (r->Ok_0).0 == old(self).types().len() && final(self).cur_fn == old(self).cur_fn,
            },
    {
        match self.gen_decl_nouse(decl) {
            Ok(_) => {},
            Err(e) => {
                return Err(e);
            },
        }
        Ok(self.new_integer(0))
    }

    /// Generate HIR from statements: every statement but the last without a
    /// value.  Returns the register of the value of the last.
    pub fn gen_stmts(&mut self, local_map: &mut Vec<LocalInfo>, ast: &Vec<Stmt>) -> (r: Result<SsaReg, HirErr>)
        requires
            old(self).wf(),
            ast@.len() > 0,
        ensures
            match type_of_stmts(ast@, locals_view(old(local_map)@)) {
                Err(e) => r is Err && err_view(r->Err_0) == e,
                Ok((ty, l)) => {
                    &&& r is Ok
                    &&& final(self).wf()
                    &&& old(self).types().is_prefix_of(final(self).types())
                    &&& final(self).cur_fn == old(self).cur_fn
                    &&& (r->Ok_0).0 + 1 == final(self).types().len()
                    &&& final(self).types().last() == ty
                    &&& locals_view(final(local_map)@) == l
                },
            },
    {
        let len = ast.len();
        let mut i: usize = 0;
        while i < len - 1
            invariant
                i <= len - 1,
                len == ast@.len(),
                self.wf(),
                old(self).types().is_prefix_of(self.types()),
                self.cur_fn == old(self).cur_fn,
                check_stmts(ast@, i as int, locals_view(old(local_map)@)) == Ok::<Seq<Local>, TypeErr>(
                    locals_view(local_map@),
                ),
            decreases len - i,
        {
            let r = match &ast[i] {
                Stmt::Expr(expr) => self.gen_nouse(local_map, expr),
                Stmt::Decl(decl) => self.gen_decl_nouse(decl),
            };
            match r {
                Ok(_) => {},
                Err(e) => {
                    proof {
                        lemma_check_stmts_err(ast@, i + 1, len - 1, locals_view(old(local_map)@));
                    }
                    return Err(e);
                },
            }
            i += 1;
        }
        match &ast[len - 1] {
            Stmt::Expr(expr) => self.gen(local_map, expr),
            Stmt::Decl(decl) => self.gen_decl(decl),
        }
    }

    /// Generate HIR in top level from statements.
    ///
    /// Returns the register of the program's value and its type, which the
    /// main function records as well.  The block that is current at the end
    /// ends with the return of that register.  The empty program has the
    /// value 0.
    pub fn from_ast(&mut self, local_map: &mut Vec<LocalInfo>, ast: &Vec<Stmt>) -> (r: Result<(SsaReg, Type), HirErr>)
        requires
            old(self).wf(),
            old(self).cur_fn == 0,
        ensures
            match type_of_stmts(ast@, locals_view(old(local_map)@)) {
                Err(e) => r is Err && err_view(r->Err_0) == e,
                Ok((ty, l)) => {
                    &&& r is Ok
                    &&& (r->Ok_0).1 == ty
                    &&& final(self).wf()
                    &&& old(self).types().is_prefix_of(final(self).types())
                    &&& (r->Ok_0).0.0 + 1 == final(self).types().len()
                    &&& final(self).types().last() == ty
                    &&& final(self).functions@[0].register_num == final(self).types().len()
                    &&& final(self).functions@[0].types() == final(self).types()
                    &&& final(self).functions@[0].ret == Some((r->Ok_0).0)
                    &&& final(self).functions@[0].ret_ty == Some(ty)
                    &&& final(self).cur_insts().len() > 0
                    &&& final(self).cur_insts().last() == Hir::Ret(HirOperand::Reg((r->Ok_0).0))
                    &&& ast@.len() == 0 ==> final(self).cur_bb == old(self).cur_bb && final(self).cur_insts()
                        == old(self).cur_insts().push(Hir::Integer((r->Ok_0).0, 0)).push(
                        Hir::Ret(HirOperand::Reg((r->Ok_0).0)),
                    )
                    &&& locals_view(final(local_map)@) == l
                },
            },
    {
        let ret = if ast.len() == 0 {
            self.new_integer(0)
        } else {
            match self.gen_stmts(local_map, ast) {
                Ok(r) => r,
                Err(e) => {
                    return Err(e);
                },
            }
        };
        assert(self.types().len() == self.reginfo@.len());
        let ty = self.ty(ret);
        assert(ty == self.types().last());
        let n = self.register_num();
        let cur = self.cur_fn;
        self.functions[cur].register_num = n;
        self.functions[cur].reginfo = copied(&self.reginfo);
        self.functions[cur].ret = Some(ret);
        self.functions[cur].ret_ty = Some(ty);
        self.new_ret(ret);
        Ok((ret, ty))
    }
}

/// An error among the first statements is the error of all of them.
proof fn lemma_check_stmts_err(stmts: Seq<crate::ast::Stmt>, k: int, n: int, locals: Seq<Local>)
    requires
        0 <= k <= n,
        check_stmts(stmts, k, locals) is Err,
    ensures
        check_stmts(stmts, n, locals) == check_stmts(stmts, k, locals),
    decreases n - k,
{
    if k < n {
        lemma_check_stmts_err(stmts, k, n - 1, locals);
    }
}

/// An error among the first expressions is the error of all of them.
proof fn lemma_check_exprs_err(body: Seq<Expr>, k: int, n: int, locals: Seq<Local>)
    requires
        0 <= k <= n,
        check_exprs(body, k, locals) is Err,
    ensures
        check_exprs(body, n, locals) == check_exprs(body, k, locals),
    decreases n - k,
{
    if k < n {
        lemma_check_exprs_err(body, k, n - 1, locals);
    }
}

/// A copy of a table of registers.
fn copied(reginfo: &Vec<SsaRegInfo>) -> (r: Vec<SsaRegInfo>)
    ensures
        r@ == reginfo@,
{
    let mut r: Vec<SsaRegInfo> = Vec::new();
    let mut i: usize = 0;
    while i < reginfo.len()
        invariant
            i <= reginfo@.len(),
            r@ == reginfo@.take(i as int),
        decreases reginfo@.len() - i,
    {
        r.push(reginfo[i]);
        assert(reginfo@.take(i as int).push(reginfo@[i as int]) =~= reginfo@.take(i + 1));
        i += 1;
    }
    assert(reginfo@.take(i as int) =~= reginfo@);
    r
}

/// The two types are the same.
pub fn type_eq(a: Type, b: Type) -> (r: bool)
    ensures
        r == (a == b),
{
    match (a, b) {
        (Type::Integer, Type::Integer) => true,
        (Type::Float, Type::Float) => true,
        (Type::Bool, Type::Bool) => true,
        _ => false,
    }
}

/// The negative of an integer, in two's complement: the least integer is
/// its own negative.
pub fn negate(i: i32) -> (r: i32)
    ensures
        r == if i == i32::MIN {
            i32::MIN
        } else {
            (-i) as i32
        },
{
    if i == i32::MIN {
        i32::MIN
    } else {
        -i
    }
}

/// The bits of the negated double: the sign bit is flipped.
pub fn flip_sign(bits: u64) -> (r: u64)
    ensures
        r == bits ^ 0x8000_0000_0000_0000,
{
    bits ^ 0x8000_0000_0000_0000
}

} // verus!
