//! Lowering of the high-level representation to machine-level
//! instructions.
//!
//! Each SSA register is given a virtual register of the file that fits its
//! type.  A register is free again once the value in it has been used, so the
//! result of an operation takes the place of its first operand.  The
//! lowering of a block is a function of the assignment before it; where the
//! block is not well formed (a register is used that holds nothing, or holds
//! a value of the other file) there is no lowering.

use vstd::prelude::*;
use crate::hir::{HIRBinop, HIRContext, Hir, HirBasicBlock, HirBinop2, HirFunction, HirOperand, SsaReg, Type, Value};
use crate::hir_gen::{flip_sign, negate, type_eq};
use crate::mcir::{
    first_free_f, first_free_g, BlockView, FReg, FRegInfo, FuncView, GReg, GRegInfo, McFloatOperand,
    McGeneralOperand, McIR, McIrBlock, McIrContext, McIrFunc, McReg, McView,
};

verus! {

/// The negative of an integer, in two's complement.
pub open spec fn negated(i: i32) -> i32 {
    if i == i32::MIN {
        i32::MIN
    } else {
        (-i) as i32
    }
}

/// The bits of the negated double.
pub open spec fn sign_flipped(bits: u64) -> u64 {
    bits ^ 0x8000_0000_0000_0000
}

/// The first register from `from` on that a phi takes from the block `cur`.
pub open spec fn phi_source(phi: Seq<(usize, SsaReg)>, cur: usize, from: int) -> Option<SsaReg>
    decreases phi.len() - from,
{
    if from < 0 || from >= phi.len() {
        None
    } else if phi[from].0 == cur {
        Some(phi[from].1)
    } else {
        phi_source(phi, cur, from + 1)
    }
}

/// The registers that the phis among the first `n` instructions take from
/// the block `cur`, in order.
pub open spec fn move_list(insts: Seq<Hir>, cur: usize, n: int) -> Seq<SsaReg>
    decreases n,
{
    if n <= 0 {
        seq![]
    } else {
        let rest = move_list(insts, cur, n - 1);
        match insts[n - 1] {
            Hir::Phi(_, phi) => match phi_source(phi@, cur, 0) {
                Some(r) => rest.push(r),
                None => rest,
            },
            _ => rest,
        }
    }
}

impl McView {
    /// The current block exists.
    pub open spec fn wf(self) -> bool {
        self.cur < self.blocks.len()
    }

    /// The instruction is appended to the current block.
    pub open spec fn push(self, inst: McIR) -> McView {
        let b = self.blocks[self.cur as int];
        McView { blocks: self.blocks.update(self.cur as int, BlockView { insts: b.insts.push(inst), ..b }), ..self }
    }

    /// The virtual register that holds an SSA register.
    pub open spec fn reg_of(self, r: SsaReg) -> Option<McReg> {
        if r.0 < self.ssa.len() {
            self.ssa[r.0 as int]
        } else {
            None
        }
    }

    /// The general register that holds an SSA register.
    pub open spec fn greg_of(self, r: SsaReg) -> Option<GReg> {
        match self.reg_of(r) {
            Some(McReg::GReg(g)) => Some(g),
            _ => None,
        }
    }

    /// The floating-point register that holds an SSA register.
    pub open spec fn freg_of(self, r: SsaReg) -> Option<FReg> {
        match self.reg_of(r) {
            Some(McReg::FReg(f)) => Some(f),
            _ => None,
        }
    }

    /// The general register is free again.
    pub open spec fn release_g(self, g: GReg) -> Option<McView> {
        if g.0 < self.g.len() {
            Some(McView { g: self.g.update(g.0 as int, GRegInfo { ssareg: None }), ..self })
        } else {
            None
        }
    }

    /// The floating-point register is free again.
    pub open spec fn release_f(self, f: FReg) -> Option<McView> {
        if f.0 < self.f.len() {
            Some(McView { f: self.f.update(f.0 as int, FRegInfo { ssareg: None }), ..self })
        } else {
            None
        }
    }

    /// The register is free again.
    pub open spec fn invalidate(self, reg: McReg) -> Option<McView> {
        match reg {
            McReg::GReg(g) => self.release_g(g),
            McReg::FReg(f) => self.release_f(f),
        }
    }

    /// The SSA register `ret` is held by `reg` from now on.
    pub open spec fn bind(self, ret: SsaReg, reg: McReg) -> Option<McView> {
        if ret.0 < self.ssa.len() {
            Some(McView { ssa: self.ssa.update(ret.0 as int, Some(reg)), ..self })
        } else {
            None
        }
    }

    /// A general register for the SSA register: the one it has, else the
    /// least free one, else a new one.
    #[verifier::opaque]
    pub open spec fn alloc_g(self, ssareg: SsaReg) -> Option<(McView, GReg)> {
        if ssareg.0 >= self.ssa.len() {
            None
        } else {
            match self.ssa[ssareg.0 as int] {
                Some(McReg::GReg(g)) => Some((self, g)),
                Some(McReg::FReg(_)) => None,
                None => {
                    let k = first_free_g(self.g, 0);
                    let info = GRegInfo { ssareg: Some(ssareg) };
                    let reg = GReg(k as usize);
                    Some(
                        (
                            McView {
                                g: if k < self.g.len() {
                                    self.g.update(k, info)
                                } else {
                                    self.g.push(info)
                                },
                                ssa: self.ssa.update(ssareg.0 as int, Some(McReg::GReg(reg))),
                                ..self
                            },
                            reg,
                        ),
                    )
                },
            }
        }
    }

    /// A floating-point register for the SSA register: the one it has, else
    /// the least free one, else a new one.
    #[verifier::opaque]
    pub open spec fn alloc_f(self, ssareg: SsaReg) -> Option<(McView, FReg)> {
        if ssareg.0 >= self.ssa.len() {
            None
        } else {
            match self.ssa[ssareg.0 as int] {
                Some(McReg::FReg(f)) => Some((self, f)),
                Some(McReg::GReg(_)) => None,
                None => {
                    let k = first_free_f(self.f, 0);
                    let info = FRegInfo { ssareg: Some(ssareg) };
                    let reg = FReg(k as usize);
                    Some(
                        (
                            McView {
                                f: if k < self.f.len() {
                                    self.f.update(k, info)
                                } else {
                                    self.f.push(info)
                                },
                                ssa: self.ssa.update(ssareg.0 as int, Some(McReg::FReg(reg))),
                                ..self
                            },
                            reg,
                        ),
                    )
                },
            }
        }
    }

    /// A register of the file that fits the type.
    #[verifier::opaque]
    pub open spec fn alloc_any(self, ssareg: SsaReg, ty: Type) -> Option<(McView, McReg)> {
        match ty {
            Type::Float => match self.alloc_f(ssareg) {
                Some((v, f)) => Some((v, McReg::FReg(f))),
                None => None,
            },
            _ => match self.alloc_g(ssareg) {
                Some((v, g)) => Some((v, McReg::GReg(g))),
                None => None,
            },
        }
    }

    /// The general register of an SSA register whose value is used for the
    /// last time.
    #[verifier::opaque]
    pub open spec fn taken_g(self, r: SsaReg) -> Option<(McView, GReg)> {
        match self.greg_of(r) {
            Some(g) => match self.release_g(g) {
                Some(v) => Some((v, g)),
                None => None,
            },
            None => None,
        }
    }

    /// The floating-point register of an SSA register whose value is used
    /// for the last time.
    #[verifier::opaque]
    pub open spec fn taken_f(self, r: SsaReg) -> Option<(McView, FReg)> {
        match self.freg_of(r) {
            Some(f) => match self.release_f(f) {
                Some(v) => Some((v, f)),
                None => None,
            },
            None => None,
        }
    }

    /// An operand as the second operand of an integer instruction.
    #[verifier::opaque]
    pub open spec fn general_operand(self, op: HirOperand) -> Option<(McView, McGeneralOperand)> {
        match op {
            HirOperand::Reg(r) => match self.taken_g(r) {
                Some((v, g)) => Some((v, McGeneralOperand::Reg(g))),
                None => None,
            },
            HirOperand::Const(Value::Integer(i)) => Some((self, McGeneralOperand::Integer(i))),
            HirOperand::Const(_) => None,
        }
    }

    /// An operand as the second operand of a float instruction.
    #[verifier::opaque]
    pub open spec fn float_operand(self, op: HirOperand) -> Option<(McView, McFloatOperand)> {
        match op {
            HirOperand::Reg(r) => match self.taken_f(r) {
                Some((v, f)) => Some((v, McFloatOperand::Reg(f))),
                None => None,
            },
            HirOperand::Const(Value::Float(f)) => Some((self, McFloatOperand::Float(f))),
            HirOperand::Const(_) => None,
        }
    }

    /// An operand as the first operand of an integer instruction, whose
    /// register then holds the result `ret`.  A constant is loaded first.
    #[verifier::opaque]
    pub open spec fn to_greg(self, op: HirOperand, ret: SsaReg) -> Option<(McView, GReg)> {
        match op {
            HirOperand::Reg(lhs) => match self.reg_of(lhs) {
                Some(McReg::GReg(g)) => match self.bind(ret, McReg::GReg(g)) {
                    Some(v) => Some((v, g)),
                    None => None,
                },
                _ => None,
            },
            HirOperand::Const(Value::Integer(n)) => match self.alloc_g(ret) {
                Some((v, g)) => Some((v.push(McIR::Integer(g, n)), g)),
                None => None,
            },
            HirOperand::Const(_) => None,
        }
    }

    /// An operand as the first operand of a float instruction, whose
    /// register then holds the result `ret`.  A constant is loaded first.
    #[verifier::opaque]
    pub open spec fn to_freg(self, op: HirOperand, ret: SsaReg) -> Option<(McView, FReg)> {
        match op {
            HirOperand::Reg(lhs) => match self.reg_of(lhs) {
                Some(McReg::FReg(f)) => match self.bind(ret, McReg::FReg(f)) {
                    Some(v) => Some((v, f)),
                    None => None,
                },
                _ => None,
            },
            HirOperand::Const(Value::Float(n)) => match self.alloc_f(ret) {
                Some((v, f)) => Some((v.push(McIR::Float(f, n)), f)),
                None => None,
            },
            HirOperand::Const(_) => None,
        }
    }

    /// The operands of an integer instruction with two operands.
    #[verifier::opaque]
    pub open spec fn int_op(self, op: HirBinop2) -> Option<(McView, GReg, McGeneralOperand)> {
        match self.to_greg(op.lhs, op.ret) {
            Some((v, lhs)) => match v.general_operand(op.rhs) {
                Some((w, rhs)) => Some((w, lhs, rhs)),
                None => None,
            },
            None => None,
        }
    }

    /// The operands of a float instruction with two operands.
    #[verifier::opaque]
    pub open spec fn float_op(self, op: HirBinop2) -> Option<(McView, FReg, McFloatOperand)> {
        match self.to_freg(op.lhs, op.ret) {
            Some((v, lhs)) => match v.float_operand(op.rhs) {
                Some((w, rhs)) => Some((w, lhs, rhs)),
                None => None,
            },
            None => None,
        }
    }

    /// The operands of an integer instruction on two registers.
    #[verifier::opaque]
    pub open spec fn int_regs(self, op: HIRBinop) -> Option<(McView, GReg, GReg)> {
        match (self.greg_of(op.lhs), self.greg_of(op.rhs)) {
            (Some(lhs), Some(rhs)) => match self.bind(op.ret, McReg::GReg(lhs)) {
                Some(v) => match v.release_g(rhs) {
                    Some(w) => Some((w, lhs, rhs)),
                    None => None,
                },
                None => None,
            },
            _ => None,
        }
    }

    /// The two float registers of a comparison, free afterwards.
    #[verifier::opaque]
    pub open spec fn float_regs(self, lhs: SsaReg, rhs: SsaReg) -> Option<(McView, FReg, FReg)> {
        match (self.freg_of(lhs), self.freg_of(rhs)) {
            (Some(l), Some(r)) => match self.release_f(l) {
                Some(v) => match v.release_f(r) {
                    Some(w) => Some((w, l, r)),
                    None => None,
                },
                None => None,
            },
            _ => None,
        }
    }

    /// The block `bb` is entered with `using` registers of the two files in
    /// use.  Every predecessor has to agree.
    #[verifier::opaque]
    pub open spec fn set_using(self, bb: usize, using: (usize, usize)) -> Option<McView> {
        if bb >= self.blocks.len() {
            None
        } else {
            let b = self.blocks[bb as int];
            match b.using_reg {
                Some(u) => if u == using {
                    Some(self)
                } else {
                    None
                },
                None => Some(McView { blocks: self.blocks.update(bb as int, BlockView { using_reg: Some(using), ..b }), ..self }),
            }
        }
    }

    /// A jump to the block `next`.  The value that a phi of `next` takes
    /// from this block is moved to the first register of its file.
    #[verifier::opaque]
    pub open spec fn jump(self, next: usize, types: Seq<Type>, ctx: &HIRContext) -> Option<McView> {
        if next >= ctx.basic_block@.len() {
            None
        } else {
            let insts = ctx.basic_block@[next as int].insts@;
            let moves = move_list(insts, self.cur, insts.len() as int);
            if moves.len() == 0 {
                self.push(McIR::Jmp(next)).set_using(next, (0usize, 0usize))
            } else if moves.len() == 1 && moves[0].0 < types.len() {
                match (self.reg_of(moves[0]), types[moves[0].0 as int]) {
                    (Some(McReg::FReg(f)), Type::Float) => match self.push(McIR::FMove(f, FReg(0))).release_f(f) {
                        Some(v) => v.push(McIR::Jmp(next)).set_using(next, (0usize, 1usize)),
                        None => None,
                    },
                    (Some(McReg::GReg(g)), Type::Integer) | (Some(McReg::GReg(g)), Type::Bool) => match self.push(
                        McIR::GMove(g, GReg(0)),
                    ).release_g(g) {
                        Some(v) => v.push(McIR::Jmp(next)).set_using(next, (1usize, 0usize)),
                        None => None,
                    },
                    _ => None,
                }
            } else {
                None
            }
        }
    }

    /// A return.
    #[verifier::opaque]
    pub open spec fn lower_ret(self, op: HirOperand, types: Seq<Type>) -> Option<McView> {
        match op {
            HirOperand::Reg(ssa) => if ssa.0 >= types.len() {
                None
            } else {
                match types[ssa.0 as int] {
                    Type::Float => match self.taken_f(ssa) {
                        Some((v, f)) => Some(v.push(McIR::FRet(McFloatOperand::Reg(f)))),
                        None => None,
                    },
                    ty => match self.taken_g(ssa) {
                        Some((v, g)) => Some(v.push(McIR::IRet(McGeneralOperand::Reg(g), ty))),
                        None => None,
                    },
                }
            },
            HirOperand::Const(Value::Integer(i)) => Some(
                self.push(McIR::IRet(McGeneralOperand::Integer(i), Type::Integer)),
            ),
            HirOperand::Const(Value::Float(f)) => Some(self.push(McIR::FRet(McFloatOperand::Float(f)))),
            HirOperand::Const(Value::Bool(b)) => Some(
                self.push(
                    McIR::IRet(
                        McGeneralOperand::Integer(
                            if b {
                                1i32
                            } else {
                                0i32
                            },
                        ),
                        Type::Bool,
                    ),
                ),
            ),
        }
    }

    /// The negation of an integer.
    #[verifier::opaque]
    pub open spec fn lower_ineg(self, src: HirOperand, ret: SsaReg) -> Option<McView> {
        match src {
            HirOperand::Const(Value::Integer(n)) => match self.alloc_g(ret) {
                Some((v, g)) => Some(v.push(McIR::Integer(g, negated(n)))),
                None => None,
            },
            HirOperand::Const(_) => None,
            HirOperand::Reg(r) => match self.greg_of(r) {
                Some(g) => match self.bind(ret, McReg::GReg(g)) {
                    Some(v) => Some(v.push(McIR::INeg(g))),
                    None => None,
                },
                None => None,
            },
        }
    }

    /// The negation of a float.
    #[verifier::opaque]
    pub open spec fn lower_fneg(self, src: HirOperand, ret: SsaReg) -> Option<McView> {
        match src {
            HirOperand::Const(Value::Float(n)) => match self.alloc_f(ret) {
                Some((v, f)) => Some(v.push(McIR::Float(f, sign_flipped(n)))),
                None => None,
            },
            HirOperand::Const(_) => None,
            HirOperand::Reg(r) => match self.freg_of(r) {
                Some(f) => match self.bind(ret, McReg::FReg(f)) {
                    Some(v) => Some(v.push(McIR::FNeg(f))),
                    None => None,
                },
                None => None,
            },
        }
    }

    /// A store to the local variable at `offset`, of type `ty`.  Its value
    /// is `ret` where one is given; else the register is free afterwards.
    #[verifier::opaque]
    pub open spec fn lower_store(self, ret: Option<SsaReg>, offset: usize, ty: Type, reg: SsaReg, types: Seq<Type>) -> Option<
        McView,
    > {
        if reg.0 >= types.len() || types[reg.0 as int] != ty {
            None
        } else {
            match self.reg_of(reg) {
                None => None,
                Some(r) => match (match ret {
                    Some(ret) => self.bind(ret, r),
                    None => self.invalidate(r),
                }) {
                    Some(v) => Some(v.push(McIR::LocalStore(offset, r))),
                    None => None,
                },
            }
        }
    }

    /// A load of the local variable at `offset`, of type `ty`.
    #[verifier::opaque]
    pub open spec fn lower_load(self, offset: usize, ty: Type, reg: SsaReg, types: Seq<Type>) -> Option<McView> {
        if reg.0 >= types.len() || types[reg.0 as int] != ty {
            None
        } else {
            match self.alloc_any(reg, ty) {
                Some((v, r)) => Some(v.push(McIR::LocalLoad(offset, r))),
                None => None,
            }
        }
    }

    /// The instructions that compute a value.
    #[verifier::opaque]
    pub open spec fn lower_value(self, hir: Hir) -> Option<McView> {
        match hir {
            Hir::Integer(ssa, i) => match self.alloc_g(ssa) {
                Some((v, g)) => Some(v.push(McIR::Integer(g, i))),
                None => None,
            },
            Hir::Float(ssa, f) => match self.alloc_f(ssa) {
                Some((v, r)) => Some(v.push(McIR::Float(r, f))),
                None => None,
            },
            Hir::CastIntFloat(op) => match self.alloc_f(op.ret) {
                Some((v, dst)) => match v.general_operand(op.src) {
                    Some((w, src)) => Some(w.push(McIR::CastIntFloat(dst, src))),
                    None => None,
                },
                None => None,
            },
            Hir::INeg(op) => self.lower_ineg(op.src, op.ret),
            Hir::FNeg(op) => self.lower_fneg(op.src, op.ret),
            Hir::IAdd(op) => match self.int_op(op) {
                Some((v, lhs, rhs)) => Some(v.push(McIR::IAdd(lhs, rhs))),
                None => None,
            },
            Hir::ISub(op) => match self.int_op(op) {
                Some((v, lhs, rhs)) => Some(v.push(McIR::ISub(lhs, rhs))),
                None => None,
            },
            Hir::IMul(op) => match self.int_regs(op) {
                Some((v, lhs, rhs)) => Some(v.push(McIR::IMul(lhs, rhs))),
                None => None,
            },
            Hir::IDiv(op) => match self.int_regs(op) {
                Some((v, lhs, rhs)) => Some(v.push(McIR::IDiv(lhs, rhs))),
                None => None,
            },
            Hir::FAdd(op) => match self.float_op(op) {
                Some((v, lhs, rhs)) => Some(v.push(McIR::FAdd(lhs, rhs))),
                None => None,
            },
            Hir::FSub(op) => match self.float_op(op) {
                Some((v, lhs, rhs)) => Some(v.push(McIR::FSub(lhs, rhs))),
                None => None,
            },
            Hir::FMul(op) => match self.float_op(op) {
                Some((v, lhs, rhs)) => Some(v.push(McIR::FMul(lhs, rhs))),
                None => None,
            },
            Hir::FDiv(op) => match self.float_op(op) {
                Some((v, lhs, rhs)) => Some(v.push(McIR::FDiv(lhs, rhs))),
                None => None,
            },
            Hir::ICmp(kind, op) => match self.int_op(op) {
                Some((v, lhs, rhs)) => Some(v.push(McIR::ICmp(kind, lhs, rhs))),
                None => None,
            },
            Hir::FCmp(kind, op) => match (self.freg_of(op.lhs), self.freg_of(op.rhs)) {
                (Some(lhs), Some(rhs)) => match self.alloc_g(op.ret) {
                    Some((v, ret)) => match v.release_f(lhs) {
                        Some(w) => match w.release_f(rhs) {
                            Some(x) => Some(x.push(McIR::FCmp(kind, ret, lhs, rhs))),
                            None => None,
                        },
                        None => None,
                    },
                    None => None,
                },
                _ => None,
            },
            _ => None,
        }
    }

    /// The lowering of one instruction of a function whose registers have
    /// the types `types`.
    #[verifier::opaque]
    pub open spec fn lower(self, hir: Hir, types: Seq<Type>, ctx: &HIRContext) -> Option<McView> {
        match hir {
            Hir::Br(next) => self.jump(next, types, ctx),
            Hir::CondBr(cond, then_bb, else_bb) => match self.reg_of(cond) {
                Some(r) => Some(self.push(McIR::CondJmp(r, then_bb, else_bb))),
                None => None,
            },
            Hir::ICmpBr(kind, lhs, rhs, then_bb, else_bb) => match self.greg_of(lhs) {
                Some(l) => match self.general_operand(rhs) {
                    Some((v, r)) => match v.release_g(l) {
                        Some(w) => Some(w.push(McIR::ICmpJmp(kind, l, r, then_bb, else_bb))),
                        None => None,
                    },
                    None => None,
                },
                None => None,
            },
            Hir::FCmpBr(kind, lhs, rhs, then_bb, else_bb) => match self.float_regs(lhs, rhs) {
                Some((v, l, r)) => Some(v.push(McIR::FCmpJmp(kind, l, r, then_bb, else_bb))),
                None => None,
            },
            Hir::Phi(ret, _) => if ret.0 >= types.len() {
                None
            } else {
                match self.alloc_any(ret, types[ret.0 as int]) {
                    Some((v, _)) => Some(v),
                    None => None,
                }
            },
            Hir::Ret(op) => self.lower_ret(op, types),
            Hir::LocalStore(ret, info, reg) => self.lower_store(ret, info.0, info.1, reg, types),
            Hir::LocalLoad(info, reg) => self.lower_load(info.0, info.1, reg, types),
            other => self.lower_value(other),
        }
    }

    /// The lowering of the first `n` instructions.
    pub open spec fn lower_insts(self, insts: Seq<Hir>, n: int, types: Seq<Type>, ctx: &HIRContext) -> Option<McView>
        decreases n,
    {
        if n <= 0 {
            Some(self)
        } else {
            match self.lower_insts(insts, n - 1, types, ctx) {
                Some(v) => v.lower(insts[n - 1], types, ctx),
                None => None,
            }
        }
    }

    /// The lowering of a block into the current block.  Every virtual
    /// register is free at its start.
    pub open spec fn compile_bb(self, bb: &HirBasicBlock, ctx: &HIRContext) -> Option<McView> {
        if bb.owner_function >= ctx.functions@.len() || !self.wf() {
            None
        } else {
            (McView { g: seq![], f: seq![], ..self }).lower_insts(
                bb.insts@,
                bb.insts@.len() as int,
                ctx.functions@[bb.owner_function as int].types(),
                ctx,
            )
        }
    }

    /// The lowering of the first `n` blocks of a function, with the greatest
    /// number of registers of either file that a block needed.
    pub open spec fn lower_blocks(self, func: &HirFunction, n: int, ctx: &HIRContext) -> Option<(McView, usize, usize)>
        decreases n,
    {
        if n <= 0 {
            Some((self, 0, 0))
        } else {
            match self.lower_blocks(func, n - 1, ctx) {
                None => None,
                Some((v, g, f)) => {
                    let bbi = func.bbs@[n - 1];
                    if bbi >= ctx.basic_block@.len() {
                        None
                    } else {
                        match (McView { cur: bbi, ..v }).compile_bb(&ctx.basic_block@[bbi as int], ctx) {
                            None => None,
                            Some(w) => Some(
                                (
                                    w,
                                    if g >= w.g.len() {
                                        g
                                    } else {
                                        w.g.len() as usize
                                    },
                                    if f >= w.f.len() {
                                        f
                                    } else {
                                        w.f.len() as usize
                                    },
                                ),
                            ),
                        }
                    }
                },
            }
        }
    }

    /// The lowering of the function `i`: none of its SSA registers is
    /// assigned at its start, and its register numbers and the type of its
    /// value are recorded at its end.
    pub open spec fn lower_func(self, i: int, ctx: &HIRContext) -> Option<McView> {
        let func = ctx.functions@[i];
        if i >= self.functions.len() {
            None
        } else {
            match (McView { ssa: Seq::new(func.register_num as nat, |k: int| None::<McReg>), ..self }).lower_blocks(
                &func,
                func.bbs@.len() as int,
                ctx,
            ) {
                None => None,
                Some((v, g, f)) => match func.ret_ty {
                    None => None,
                    Some(ty) => Some(
                        McView {
                            functions: v.functions.update(
                                i,
                                FuncView { g_regs: g, f_regs: f, ret_ty: ty, ..v.functions[i] },
                            ),
                            ..v
                        },
                    ),
                },
            }
        }
    }

    /// The lowering of the first `n` functions.
    pub open spec fn lower_funcs(self, n: int, ctx: &HIRContext) -> Option<McView>
        decreases n,
    {
        if n <= 0 {
            Some(self)
        } else {
            match self.lower_funcs(n - 1, ctx) {
                Some(v) => v.lower_func(n - 1, ctx),
                None => None,
            }
        }
    }
}

/// The context before anything is lowered: an empty block for every block,
/// and a function for every function.
pub open spec fn start(ctx: &HIRContext) -> McView {
    McView {
        g: seq![],
        f: seq![],
        ssa: seq![],
        cur: 0,
        blocks: ctx.basic_block@.map_values(
            |b: HirBasicBlock| BlockView { insts: seq![], owner_function: b.owner_function, using_reg: None },
        ),
        functions: ctx.functions@.map_values(
            |f: HirFunction| FuncView { name: f.name@, bbs: f.bbs@, g_regs: 0, f_regs: 0, ret_ty: Type::Integer },
        ),
    }
}

/// The machine-level representation of a program, where it has one.
pub open spec fn lowered(ctx: &HIRContext) -> Option<McView> {
    start(ctx).lower_funcs(ctx.functions@.len() as int, ctx)
}

/// The two contexts have the same blocks, but for what is in them, and the
/// same current block.
pub open spec fn same_shape(a: McView, b: McView) -> bool {
    a.cur == b.cur && a.blocks.len() == b.blocks.len() && a.functions == b.functions
}

/// The call left the context `fin` and returned `ok`, as `v` asks.
pub open spec fn done(v: Option<McView>, ok: bool, fin: McView) -> bool {
    match v {
        Some(x) => ok && fin == x,
        None => !ok,
    }
}

/// The call left the context `fin` and returned `r`, as `v` asks.
pub open spec fn yields<T>(v: Option<(McView, T)>, r: Option<T>, fin: McView) -> bool {
    match v {
        Some((x, t)) => r == Some(t) && fin == x,
        None => r is None,
    }
}

impl McIrContext {
    /// Appends an instruction to the current block.
    fn push_inst(&mut self, inst: McIR)
        requires
            old(self)@.wf(),
        ensures
            final(self)@ == old(self)@.push(inst),
    {
        let cur = self.cur_block;
        self.blocks[cur].insts.push(inst);
        assert(self@.blocks =~= old(self)@.push(inst).blocks);
    }

    /// The virtual register that holds an SSA register.
    fn reg_of(&self, r: SsaReg) -> (o: Option<McReg>)
        ensures
            o == self@.reg_of(r),
    {
        if r.0 < self.ssa_map.len() {
            self.ssa_map[r.0]
        } else {
            None
        }
    }

    /// The general register that holds an SSA register.
    fn greg_of(&self, r: SsaReg) -> (o: Option<GReg>)
        ensures
            o == self@.greg_of(r),
    {
        match self.reg_of(r) {
            Some(McReg::GReg(g)) => Some(g),
            _ => None,
        }
    }

    /// The floating-point register that holds an SSA register.
    fn freg_of(&self, r: SsaReg) -> (o: Option<FReg>)
        ensures
            o == self@.freg_of(r),
    {
        match self.reg_of(r) {
            Some(McReg::FReg(f)) => Some(f),
            _ => None,
        }
    }

    /// Frees a general register.
    fn release_g(&mut self, g: GReg) -> (ok: bool)
        ensures
            done(old(self)@.release_g(g), ok, final(self)@),
            ok ==> same_shape(final(self)@, old(self)@),
    {
        if g.0 < self.g_reginfo.len() {
            self.g_reginfo.set(g.0, GRegInfo { ssareg: None });
            true
        } else {
            false
        }
    }

    /// Frees a floating-point register.
    fn release_f(&mut self, f: FReg) -> (ok: bool)
        ensures
            done(old(self)@.release_f(f), ok, final(self)@),
            ok ==> same_shape(final(self)@, old(self)@),
    {
        if f.0 < self.f_reginfo.len() {
            self.f_reginfo.set(f.0, FRegInfo { ssareg: None });
            true
        } else {
            false
        }
    }

    /// Frees a register.
    fn release(&mut self, reg: McReg) -> (ok: bool)
        ensures
            done(old(self)@.invalidate(reg), ok, final(self)@),
            ok ==> same_shape(final(self)@, old(self)@),
    {
        match reg {
            McReg::GReg(g) => self.release_g(g),
            McReg::FReg(f) => self.release_f(f),
        }
    }

    /// Lets `reg` hold the SSA register `ret`.
    fn bind(&mut self, ret: SsaReg, reg: McReg) -> (ok: bool)
        ensures
            done(old(self)@.bind(ret, reg), ok, final(self)@),
            ok ==> same_shape(final(self)@, old(self)@),
    {
        if ret.0 < self.ssa_map.len() {
            self.ssa_map.set(ret.0, Some(reg));
            true
        } else {
            false
        }
    }

    /// Finds a general register for the SSA register.
    fn alloc_g(&mut self, ssareg: SsaReg) -> (r: Option<GReg>)
        ensures
            yields(old(self)@.alloc_g(ssareg), r, final(self)@),
            r is Some ==> same_shape(final(self)@, old(self)@),
    {
        reveal(McView::alloc_g);
        if ssareg.0 >= self.ssa_map.len() {
            return None;
        }
        if let Some(McReg::FReg(_)) = self.ssa_map[ssareg.0] {
            return None;
        }
        let g = self.alloc_greg(ssareg);
        proof {
            let v = (old(self)@.alloc_g(ssareg)->0).0;
            assert(self@.ssa =~= v.ssa);
            assert(self@.g =~= v.g);
        }
        Some(g)
    }

    /// Finds a floating-point register for the SSA register.
    fn alloc_f(&mut self, ssareg: SsaReg) -> (r: Option<FReg>)
        ensures
            yields(old(self)@.alloc_f(ssareg), r, final(self)@),
            r is Some ==> same_shape(final(self)@, old(self)@),
    {
        reveal(McView::alloc_f);
        if ssareg.0 >= self.ssa_map.len() {
            return None;
        }
        if let Some(McReg::GReg(_)) = self.ssa_map[ssareg.0] {
            return None;
        }
        let f = self.alloc_freg(ssareg);
        proof {
            let v = (old(self)@.alloc_f(ssareg)->0).0;
            assert(self@.ssa =~= v.ssa);
            assert(self@.f =~= v.f);
        }
        Some(f)
    }

    /// Finds a register of the file that fits the type.
    fn alloc_any(&mut self, ssareg: SsaReg, ty: Type) -> (r: Option<McReg>)
        ensures
            yields(old(self)@.alloc_any(ssareg, ty), r, final(self)@),
            r is Some ==> same_shape(final(self)@, old(self)@),
    {
        reveal(McView::alloc_any);
        match ty {
            Type::Float => match self.alloc_f(ssareg) {
                Some(f) => Some(McReg::FReg(f)),
                None => None,
            },
            _ => match self.alloc_g(ssareg) {
                Some(g) => Some(McReg::GReg(g)),
                None => None,
            },
        }
    }

    /// The general register of an SSA register whose value is used for the
    /// last time.
    fn take_g(&mut self, r: SsaReg) -> (o: Option<GReg>)
        ensures
            yields(old(self)@.taken_g(r), o, final(self)@),
            o is Some ==> same_shape(final(self)@, old(self)@),
    {
        reveal(McView::taken_g);
        match self.greg_of(r) {
            Some(g) => if self.release_g(g) {
                Some(g)
            } else {
                None
            },
            None => None,
        }
    }

    /// The floating-point register of an SSA register whose value is used
    /// for the last time.
    fn take_f(&mut self, r: SsaReg) -> (o: Option<FReg>)
        ensures
            yields(old(self)@.taken_f(r), o, final(self)@),
            o is Some ==> same_shape(final(self)@, old(self)@),
    {
        reveal(McView::taken_f);
        match self.freg_of(r) {
            Some(f) => if self.release_f(f) {
                Some(f)
            } else {
                None
            },
            None => None,
        }
    }

    /// The second operand of an integer instruction.  A register is free
    /// afterwards.
    pub fn hir_to_general_operand(&mut self, rhs: &HirOperand) -> (r: Option<McGeneralOperand>)
        ensures
            yields(old(self)@.general_operand(*rhs), r, final(self)@),
            r is Some ==> same_shape(final(self)@, old(self)@),
    {
        reveal(McView::general_operand);
        match rhs {
            HirOperand::Reg(rhs) => match self.take_g(*rhs) {
                Some(g) => Some(McGeneralOperand::Reg(g)),
                None => None,
            },
            HirOperand::Const(Value::Integer(i)) => Some(McGeneralOperand::Integer(*i)),
            HirOperand::Const(_) => None,
        }
    }

    /// The second operand of a float instruction.  A register is free
    /// afterwards.
    pub fn hir_to_float_operand(&mut self, rhs: &HirOperand) -> (r: Option<McFloatOperand>)
        ensures
            yields(old(self)@.float_operand(*rhs), r, final(self)@),
            r is Some ==> same_shape(final(self)@, old(self)@),
    {
        reveal(McView::float_operand);
        match rhs {
            HirOperand::Reg(rhs) => match self.take_f(*rhs) {
                Some(f) => Some(McFloatOperand::Reg(f)),
                None => None,
            },
            HirOperand::Const(Value::Float(f)) => Some(McFloatOperand::Float(*f)),
            HirOperand::Const(_) => None,
        }
    }

    /// The first operand of an integer instruction.  Its register holds the
    /// result `ret` from now on; a constant is loaded into a register first.
    pub fn hir_to_greg(&mut self, op: &HirOperand, ret: SsaReg) -> (r: Option<GReg>)
        requires
            old(self)@.wf(),
        ensures
            yields(old(self)@.to_greg(*op, ret), r, final(self)@),
            r is Some ==> same_shape(final(self)@, old(self)@),
    {
        reveal(McView::to_greg);
        match op {
            HirOperand::Reg(lhs) => match self.reg_of(*lhs) {
                Some(McReg::GReg(g)) => if self.bind(ret, McReg::GReg(g)) {
                    Some(g)
                } else {
                    None
                },
                _ => None,
            },
            HirOperand::Const(Value::Integer(n)) => match self.alloc_g(ret) {
                Some(g) => {
                    self.push_inst(McIR::Integer(g, *n));
                    Some(g)
                },
                None => None,
            },
            HirOperand::Const(_) => None,
        }
    }

    /// The first operand of a float instruction.  Its register holds the
    /// result `ret` from now on; a constant is loaded into a register first.
    pub fn hir_to_freg(&mut self, op: &HirOperand, ret: SsaReg) -> (r: Option<FReg>)
        requires
            old(self)@.wf(),
        ensures
            yields(old(self)@.to_freg(*op, ret), r, final(self)@),
            r is Some ==> same_shape(final(self)@, old(self)@),
    {
        reveal(McView::to_freg);
        match op {
            HirOperand::Reg(lhs) => match self.reg_of(*lhs) {
                Some(McReg::FReg(f)) => if self.bind(ret, McReg::FReg(f)) {
                    Some(f)
                } else {
                    None
                },
                _ => None,
            },
            HirOperand::Const(Value::Float(n)) => match self.alloc_f(ret) {
                Some(f) => {
                    self.push_inst(McIR::Float(f, *n));
                    Some(f)
                },
                None => None,
            },
            HirOperand::Const(_) => None,
        }
    }
}

/// The first register that a phi takes from the block `cur`.
fn phi_source_of(phi: &Vec<(usize, SsaReg)>, cur: usize) -> (r: Option<SsaReg>)
    ensures
        r == phi_source(phi@, cur, 0),
{
    let mut i: usize = 0;
    while i < phi.len()
        invariant
            i <= phi@.len(),
            phi_source(phi@, cur, i as int) == phi_source(phi@, cur, 0),
        decreases phi@.len() - i,
    {
        if phi[i].0 == cur {
            return Some(phi[i].1);
        }
        i += 1;
    }
    None
}

/// The registers that the phis of a block take from the block `cur`.
fn moves_of(insts: &Vec<Hir>, cur: usize) -> (r: Vec<SsaReg>)
    ensures
        r@ == move_list(insts@, cur, insts@.len() as int),
{
    let mut moves: Vec<SsaReg> = Vec::new();
    let mut i: usize = 0;
    while i < insts.len()
        invariant
            i <= insts@.len(),
            moves@ == move_list(insts@, cur, i as int),
        decreases insts@.len() - i,
    {
        if let Hir::Phi(_, phi) = &insts[i] {
            if let Some(r) = phi_source_of(phi, cur) {
                moves.push(r);
            }
        }
        i += 1;
    }
    moves
}

impl McIrContext {
    /// Records the registers in use on entry to the block `bb`.
    fn set_using(&mut self, bb: usize, using: (usize, usize)) -> (ok: bool)
        ensures
            done(old(self)@.set_using(bb, using), ok, final(self)@),
            ok ==> same_shape(final(self)@, old(self)@),
    {
        reveal(McView::set_using);
        if bb >= self.blocks.len() {
            return false;
        }
        match self.blocks[bb].using_reg {
            Some(u) => u.0 == using.0 && u.1 == using.1,
            None => {
                self.blocks[bb].using_reg = Some(using);
                assert(self@.blocks =~= (old(self)@.set_using(bb, using)->0).blocks);
                true
            },
        }
    }

    /// Lowers a jump.
    fn jump(&mut self, next: usize, func: &HirFunction, ctx: &HIRContext) -> (ok: bool)
        requires
            old(self)@.wf(),
        ensures
            done(old(self)@.jump(next, func.types(), ctx), ok, final(self)@),
            ok ==> same_shape(final(self)@, old(self)@),
    {
        reveal(McView::jump);
        if next >= ctx.basic_block.len() {
            return false;
        }
        let moves = moves_of(&ctx.basic_block[next].insts, self.cur_block);
        if moves.len() == 0 {
            self.push_inst(McIR::Jmp(next));
            return self.set_using(next, (0, 0));
        }
        if moves.len() != 1 || moves[0].0 >= func.reginfo.len() {
            return false;
        }
        let src = moves[0];
        match (self.reg_of(src), func.reginfo[src.0].ty) {
            (Some(McReg::FReg(f)), Type::Float) => {
                self.push_inst(McIR::FMove(f, FReg(0)));
                if !self.release_f(f) {
                    return false;
                }
                self.push_inst(McIR::Jmp(next));
                self.set_using(next, (0, 1))
            },
            (Some(McReg::GReg(g)), Type::Integer) | (Some(McReg::GReg(g)), Type::Bool) => {
                self.push_inst(McIR::GMove(g, GReg(0)));
                if !self.release_g(g) {
                    return false;
                }
                self.push_inst(McIR::Jmp(next));
                self.set_using(next, (1, 0))
            },
            _ => false,
        }
    }

    /// Lowers a return.
    fn lower_ret(&mut self, op: &HirOperand, func: &HirFunction) -> (ok: bool)
        requires
            old(self)@.wf(),
        ensures
            done(old(self)@.lower_ret(*op, func.types()), ok, final(self)@),
            ok ==> same_shape(final(self)@, old(self)@),
    {
        reveal(McView::lower_ret);
        match op {
            HirOperand::Reg(ssa) => {
                if ssa.0 >= func.reginfo.len() {
                    return false;
                }
                let ty = func.reginfo[ssa.0].ty;
                match ty {
                    Type::Float => match self.take_f(*ssa) {
                        Some(f) => {
                            self.push_inst(McIR::FRet(McFloatOperand::Reg(f)));
                            true
                        },
                        None => false,
                    },
                    _ => match self.take_g(*ssa) {
                        Some(g) => {
                            self.push_inst(McIR::IRet(McGeneralOperand::Reg(g), ty));
                            true
                        },
                        None => false,
                    },
                }
            },
            HirOperand::Const(Value::Integer(i)) => {
                self.push_inst(McIR::IRet(McGeneralOperand::Integer(*i), Type::Integer));
                true
            },
            HirOperand::Const(Value::Float(f)) => {
                self.push_inst(McIR::FRet(McFloatOperand::Float(*f)));
                true
            },
            HirOperand::Const(Value::Bool(b)) => {
                let i: i32 = if *b {
                    1
                } else {
                    0
                };
                self.push_inst(McIR::IRet(McGeneralOperand::Integer(i), Type::Bool));
                true
            },
        }
    }

    /// Lowers the negation of an integer.
    fn lower_ineg(&mut self, src: &HirOperand, ret: SsaReg) -> (ok: bool)
        requires
            old(self)@.wf(),
        ensures
            done(old(self)@.lower_ineg(*src, ret), ok, final(self)@),
            ok ==> same_shape(final(self)@, old(self)@),
    {
        reveal(McView::lower_ineg);
        match src {
            HirOperand::Const(Value::Integer(n)) => match self.alloc_g(ret) {
                Some(g) => {
                    self.push_inst(McIR::Integer(g, negate(*n)));
                    true
                },
                None => false,
            },
            HirOperand::Const(_) => false,
            HirOperand::Reg(r) => match self.greg_of(*r) {
                Some(g) => {
                    if !self.bind(ret, McReg::GReg(g)) {
                        return false;
                    }
                    self.push_inst(McIR::INeg(g));
                    true
                },
                None => false,
            },
        }
    }

    /// Lowers the negation of a float.
    fn lower_fneg(&mut self, src: &HirOperand, ret: SsaReg) -> (ok: bool)
        requires
            old(self)@.wf(),
        ensures
            done(old(self)@.lower_fneg(*src, ret), ok, final(self)@),
            ok ==> same_shape(final(self)@, old(self)@),
    {
        reveal(McView::lower_fneg);
        match src {
            HirOperand::Const(Value::Float(n)) => match self.alloc_f(ret) {
                Some(f) => {
                    self.push_inst(McIR::Float(f, flip_sign(*n)));
                    true
                },
                None => false,
            },
            HirOperand::Const(_) => false,
            HirOperand::Reg(r) => match self.freg_of(*r) {
                Some(f) => {
                    if !self.bind(ret, McReg::FReg(f)) {
                        return false;
                    }
                    self.push_inst(McIR::FNeg(f));
                    true
                },
                None => false,
            },
        }
    }

    /// Lowers a store to a local variable.
    fn lower_store(&mut self, ret: Option<SsaReg>, offset: usize, ty: Type, reg: SsaReg, func: &HirFunction) -> (ok:
        bool)
        requires
            old(self)@.wf(),
        ensures
            done(old(self)@.lower_store(ret, offset, ty, reg, func.types()), ok, final(self)@),
            ok ==> same_shape(final(self)@, old(self)@),
    {
        reveal(McView::lower_store);
        if reg.0 >= func.reginfo.len() || !type_eq(func.reginfo[reg.0].ty, ty) {
            return false;
        }
        let r = match self.reg_of(reg) {
            Some(r) => r,
            None => {
                return false;
            },
        };
        let ok = match ret {
            Some(ret) => self.bind(ret, r),
            None => self.release(r),
        };
        if !ok {
            return false;
        }
        self.push_inst(McIR::LocalStore(offset, r));
        true
    }

    /// Lowers a load of a local variable.
    fn lower_load(&mut self, offset: usize, ty: Type, reg: SsaReg, func: &HirFunction) -> (ok: bool)
        requires
            old(self)@.wf(),
        ensures
            done(old(self)@.lower_load(offset, ty, reg, func.types()), ok, final(self)@),
            ok ==> same_shape(final(self)@, old(self)@),
    {
        reveal(McView::lower_load);
        if reg.0 >= func.reginfo.len() || !type_eq(func.reginfo[reg.0].ty, ty) {
            return false;
        }
        match self.alloc_any(reg, ty) {
            Some(r) => {
                self.push_inst(McIR::LocalLoad(offset, r));
                true
            },
            None => false,
        }
    }

    /// The operands of an integer instruction with two operands.
    fn int_op(&mut self, op: &HirBinop2) -> (r: Option<(GReg, McGeneralOperand)>)
        requires
            old(self)@.wf(),
        ensures
            match old(self)@.int_op(*op) {
                Some((v, lhs, rhs)) => r == Some((lhs, rhs)) && final(self)@ == v,
                None => r is None,
            },
            r is Some ==> same_shape(final(self)@, old(self)@),
    {
        reveal(McView::int_op);
        let lhs = match self.hir_to_greg(&op.lhs, op.ret) {
            Some(lhs) => lhs,
            None => {
                return None;
            },
        };
        match self.hir_to_general_operand(&op.rhs) {
            Some(rhs) => Some((lhs, rhs)),
            None => None,
        }
    }

    /// The operands of a float instruction with two operands.
    fn float_op(&mut self, op: &HirBinop2) -> (r: Option<(FReg, McFloatOperand)>)
        requires
            old(self)@.wf(),
        ensures
            match old(self)@.float_op(*op) {
                Some((v, lhs, rhs)) => r == Some((lhs, rhs)) && final(self)@ == v,
                None => r is None,
            },
            r is Some ==> same_shape(final(self)@, old(self)@),
    {
        reveal(McView::float_op);
        let lhs = match self.hir_to_freg(&op.lhs, op.ret) {
            Some(lhs) => lhs,
            None => {
                return None;
            },
        };
        match self.hir_to_float_operand(&op.rhs) {
            Some(rhs) => Some((lhs, rhs)),
            None => None,
        }
    }

    /// The operands of an integer instruction on two registers.
    fn int_regs(&mut self, op: &HIRBinop) -> (r: Option<(GReg, GReg)>)
        ensures
            match old(self)@.int_regs(*op) {
                Some((v, lhs, rhs)) => r == Some((lhs, rhs)) && final(self)@ == v,
                None => r is None,
            },
            r is Some ==> same_shape(final(self)@, old(self)@),
    {
        reveal(McView::int_regs);
        match (self.greg_of(op.lhs), self.greg_of(op.rhs)) {
            (Some(lhs), Some(rhs)) => {
                if !self.bind(op.ret, McReg::GReg(lhs)) {
                    return None;
                }
                if !self.release_g(rhs) {
                    return None;
                }
                Some((lhs, rhs))
            },
            _ => None,
        }
    }

    /// The two float registers of a comparison, free afterwards.
    fn float_regs(&mut self, lhs: SsaReg, rhs: SsaReg) -> (r: Option<(FReg, FReg)>)
        ensures
            match old(self)@.float_regs(lhs, rhs) {
                Some((v, l, r0)) => r == Some((l, r0)) && final(self)@ == v,
                None => r is None,
            },
            r is Some ==> same_shape(final(self)@, old(self)@),
    {
        reveal(McView::float_regs);
        match (self.freg_of(lhs), self.freg_of(rhs)) {
            (Some(l), Some(r)) => {
                if !self.release_f(l) {
                    return None;
                }
                if !self.release_f(r) {
                    return None;
                }
                Some((l, r))
            },
            _ => None,
        }
    }
}

impl McIrContext {
    /// Lowers an instruction that computes a value.
    fn lower_value(&mut self, hir: &Hir) -> (ok: bool)
        requires
            old(self)@.wf(),
        ensures
            done(old(self)@.lower_value(*hir), ok, final(self)@),
            ok ==> same_shape(final(self)@, old(self)@),
    {
        reveal(McView::lower_value);
        match hir {
            Hir::Integer(ssa, i) => match self.alloc_g(*ssa) {
                Some(g) => {
                    self.push_inst(McIR::Integer(g, *i));
                    true
                },
                None => false,
            },
            Hir::Float(ssa, f) => match self.alloc_f(*ssa) {
                Some(r) => {
                    self.push_inst(McIR::Float(r, *f));
                    true
                },
                None => false,
            },
            Hir::CastIntFloat(op) => {
                let dst = match self.alloc_f(op.ret) {
                    Some(dst) => dst,
                    None => {
                        return false;
                    },
                };
                match self.hir_to_general_operand(&op.src) {
                    Some(src) => {
                        self.push_inst(McIR::CastIntFloat(dst, src));
                        true
                    },
                    None => false,
                }
            },
            Hir::INeg(op) => self.lower_ineg(&op.src, op.ret),
            Hir::FNeg(op) => self.lower_fneg(&op.src, op.ret),
            Hir::IAdd(op) => match self.int_op(op) {
                Some((lhs, rhs)) => {
                    self.push_inst(McIR::IAdd(lhs, rhs));
                    true
                },
                None => false,
            },
            Hir::ISub(op) => match self.int_op(op) {
                Some((lhs, rhs)) => {
                    self.push_inst(McIR::ISub(lhs, rhs));
                    true
                },
                None => false,
            },
            Hir::IMul(op) => match self.int_regs(op) {
                Some((lhs, rhs)) => {
                    self.push_inst(McIR::IMul(lhs, rhs));
                    true
                },
                None => false,
            },
            Hir::IDiv(op) => match self.int_regs(op) {
                Some((lhs, rhs)) => {
                    self.push_inst(McIR::IDiv(lhs, rhs));
                    true
                },
                None => false,
            },
            Hir::FAdd(op) => match self.float_op(op) {
                Some((lhs, rhs)) => {
                    self.push_inst(McIR::FAdd(lhs, rhs));
                    true
                },
                None => false,
            },
            Hir::FSub(op) => match self.float_op(op) {
                Some((lhs, rhs)) => {
                    self.push_inst(McIR::FSub(lhs, rhs));
                    true
                },
                None => false,
            },
            Hir::FMul(op) => match self.float_op(op) {
                Some((lhs, rhs)) => {
                    self.push_inst(McIR::FMul(lhs, rhs));
                    true
                },
                None => false,
            },
            Hir::FDiv(op) => match self.float_op(op) {
                Some((lhs, rhs)) => {
                    self.push_inst(McIR::FDiv(lhs, rhs));
                    true
                },
                None => false,
            },
            Hir::ICmp(kind, op) => match self.int_op(op) {
                Some((lhs, rhs)) => {
                    self.push_inst(McIR::ICmp(*kind, lhs, rhs));
                    true
                },
                None => false,
            },
            Hir::FCmp(kind, op) => match (self.freg_of(op.lhs), self.freg_of(op.rhs)) {
                (Some(lhs), Some(rhs)) => {
                    let ret = match self.alloc_g(op.ret) {
                        Some(ret) => ret,
                        None => {
                            return false;
                        },
                    };
                    if !self.release_f(lhs) {
                        return false;
                    }
                    if !self.release_f(rhs) {
                        return false;
                    }
                    self.push_inst(McIR::FCmp(*kind, ret, lhs, rhs));
                    true
                },
                _ => false,
            },
            _ => false,
        }
    }

    /// Lowers one instruction of the function `func` into the current
    /// block.  Returns whether the instruction could be lowered; where it
    /// could not, the context is left as it was when that was found.
    pub fn lower(&mut self, hir: &Hir, func: &HirFunction, ctx: &HIRContext) -> (ok: bool)
        requires
            old(self)@.wf(),
        ensures
            done(old(self)@.lower(*hir, func.types(), ctx), ok, final(self)@),
            ok ==> same_shape(final(self)@, old(self)@),
    {
        reveal(McView::lower);
        match hir {
            Hir::Br(next) => self.jump(*next, func, ctx),
            Hir::CondBr(cond, then_bb, else_bb) => match self.reg_of(*cond) {
                Some(r) => {
                    self.push_inst(McIR::CondJmp(r, *then_bb, *else_bb));
                    true
                },
                None => false,
            },
            Hir::ICmpBr(kind, lhs, rhs, then_bb, else_bb) => {
                let l = match self.greg_of(*lhs) {
                    Some(l) => l,
                    None => {
                        return false;
                    },
                };
                let r = match self.hir_to_general_operand(rhs) {
                    Some(r) => r,
                    None => {
                        return false;
                    },
                };
                if !self.release_g(l) {
                    return false;
                }
                self.push_inst(McIR::ICmpJmp(*kind, l, r, *then_bb, *else_bb));
                true
            },
            Hir::FCmpBr(kind, lhs, rhs, then_bb, else_bb) => match self.float_regs(*lhs, *rhs) {
                Some((l, r)) => {
                    self.push_inst(McIR::FCmpJmp(*kind, l, r, *then_bb, *else_bb));
                    true
                },
                None => false,
            },
            Hir::Phi(ret, _) => {
                if ret.0 >= func.reginfo.len() {
                    return false;
                }
                self.alloc_any(*ret, func.reginfo[ret.0].ty).is_some()
            },
            Hir::Ret(op) => self.lower_ret(op, func),
            Hir::LocalStore(ret, info, reg) => self.lower_store(*ret, info.0, info.1, *reg, func),
            Hir::LocalLoad(info, reg) => self.lower_load(info.0, info.1, *reg, func),
            other => self.lower_value(other),
        }
    }

    /// Lowers a block into the current block.  Every virtual register is
    /// free at its start.  Returns whether the block could be lowered.
    pub fn compile_bb(&mut self, bb: &HirBasicBlock, ctx: &HIRContext) -> (ok: bool)
        ensures
            done(old(self)@.compile_bb(bb, ctx), ok, final(self)@),
            ok ==> same_shape(final(self)@, old(self)@),
    {
        if bb.owner_function >= ctx.functions.len() || self.cur_block >= self.blocks.len() {
            return false;
        }
        self.g_reginfo = Vec::new();
        self.f_reginfo = Vec::new();
        let func = &ctx.functions[bb.owner_function];
        let ghost first = self@;
        assert(first == (McView { g: seq![], f: seq![], ..old(self)@ })) by {
            assert(first.g =~= seq![]);
            assert(first.f =~= seq![]);
        }
        let mut i: usize = 0;
        while i < bb.insts.len()
            invariant
                i <= bb.insts@.len(),
                self@.wf(),
                old(self)@.wf(),
                bb.owner_function < ctx.functions@.len(),
                *func == ctx.functions@[bb.owner_function as int],
                first == (McView { g: seq![], f: seq![], ..old(self)@ }),
                same_shape(self@, first),
                first.lower_insts(bb.insts@, i as int, func.types(), ctx) == Some(self@),
            decreases bb.insts@.len() - i,
        {
            if !self.lower(&bb.insts[i], func, ctx) {
                proof {
                    lemma_lower_insts_none(first, bb.insts@, i + 1, bb.insts@.len() as int, func.types(), ctx);
                }
                return false;
            }
            i += 1;
        }
        true
    }
}

/// Where some instructions cannot be lowered, none that follow can.
proof fn lemma_lower_insts_none(v: McView, insts: Seq<Hir>, k: int, n: int, types: Seq<Type>, ctx: &HIRContext)
    requires
        0 <= k <= n,
        v.lower_insts(insts, k, types, ctx) is None,
    ensures
        v.lower_insts(insts, n, types, ctx) is None,
    decreases n - k,
{
    if k < n {
        lemma_lower_insts_none(v, insts, k, n - 1, types, ctx);
    }
}

/// Where some blocks cannot be lowered, none that follow can.
proof fn lemma_lower_blocks_none(v: McView, func: &HirFunction, k: int, n: int, ctx: &HIRContext)
    requires
        0 <= k <= n,
        v.lower_blocks(func, k, ctx) is None,
    ensures
        v.lower_blocks(func, n, ctx) is None,
    decreases n - k,
{
    if k < n {
        lemma_lower_blocks_none(v, func, k, n - 1, ctx);
    }
}

/// Where some functions cannot be lowered, none that follow can.
proof fn lemma_lower_funcs_none(v: McView, k: int, n: int, ctx: &HIRContext)
    requires
        0 <= k <= n,
        v.lower_funcs(k, ctx) is None,
    ensures
        v.lower_funcs(n, ctx) is None,
    decreases n - k,
{
    if k < n {
        lemma_lower_funcs_none(v, k, n - 1, ctx);
    }
}

/// A map in which no SSA register is assigned.
fn none_map(n: usize) -> (r: Vec<Option<McReg>>)
    ensures
        r@ == Seq::new(n as nat, |k: int| None::<McReg>),
{
    let mut r: Vec<Option<McReg>> = Vec::new();
    let mut i: usize = 0;
    while i < n
        invariant
            i <= n,
            r@.len() == i,
            forall|k: int| 0 <= k < i ==> r@[k] is None,
        decreases n - i,
    {
        r.push(None);
        i += 1;
    }
    assert(r@ =~= Seq::new(n as nat, |k: int| None::<McReg>));
    r
}

/// A copy of a list of block numbers.
fn copied(bbs: &Vec<usize>) -> (r: Vec<usize>)
    ensures
        r@ == bbs@,
{
    let mut r: Vec<usize> = Vec::new();
    let mut i: usize = 0;
    while i < bbs.len()
        invariant
            i <= bbs@.len(),
            r@ == bbs@.take(i as int),
        decreases bbs@.len() - i,
    {
        r.push(bbs[i]);
        assert(bbs@.take(i as int).push(bbs@[i as int]) =~= bbs@.take(i + 1));
        i += 1;
    }
    assert(bbs@.take(i as int) =~= bbs@);
    r
}

/// The greater of two numbers.
fn greater(a: usize, b: usize) -> (r: usize)
    ensures
        r == if a >= b {
            a
        } else {
            b
        },
{
    if a >= b {
        a
    } else {
        b
    }
}

impl McIrContext {
    /// Lowers the function `i`.  Returns whether it could be lowered.
    fn lower_func(&mut self, i: usize, ctx: &HIRContext) -> (ok: bool)
        requires
            i < ctx.functions@.len(),
        ensures
            done(old(self)@.lower_func(i as int, ctx), ok, final(self)@),
    {
        if i >= self.functions.len() {
            return false;
        }
        let func = &ctx.functions[i];
        self.ssa_map = none_map(func.register_num);
        let ghost first = self@;
        let mut g_reg_num: usize = 0;
        let mut f_reg_num: usize = 0;
        let mut k: usize = 0;
        while k < func.bbs.len()
            invariant
                k <= func.bbs@.len(),
                i < ctx.functions@.len(),
                *func == ctx.functions@[i as int],
                i < old(self)@.functions.len(),
                first == (McView { ssa: Seq::new(func.register_num as nat, |k: int| None::<McReg>), ..old(self)@ }),
                self@.functions == old(self)@.functions,
                first.lower_blocks(func, k as int, ctx) == Some((self@, g_reg_num, f_reg_num)),
            decreases func.bbs@.len() - k,
        {
            let bbi = func.bbs[k];
            if bbi >= ctx.basic_block.len() {
                proof {
                    lemma_lower_blocks_none(first, func, k + 1, func.bbs@.len() as int, ctx);
                }
                return false;
            }
            self.cur_block = bbi;
            if !self.compile_bb(&ctx.basic_block[bbi], ctx) {
                proof {
                    lemma_lower_blocks_none(first, func, k + 1, func.bbs@.len() as int, ctx);
                }
                return false;
            }
            g_reg_num = greater(g_reg_num, self.g_reg_num());
            f_reg_num = greater(f_reg_num, self.f_reg_num());
            k += 1;
        }
        let ty = match func.ret_ty {
            Some(ty) => ty,
            None => {
                return false;
            },
        };
        if i >= self.functions.len() {
            return false;
        }
        let ghost before = self@;
        self.functions[i].g_regs = g_reg_num;
        self.functions[i].f_regs = f_reg_num;
        self.functions[i].ret_ty = ty;
        assert(self@.functions =~= before.functions.update(
            i as int,
            FuncView { g_regs: g_reg_num, f_regs: f_reg_num, ret_ty: ty, ..before.functions[i as int] },
        ));
        true
    }

    /// The machine-level representation of a program, where it has one:
    /// where every register is assigned before it is used, to a register of
    /// the file that fits the use, and the predecessors of a block agree on
    /// the registers that carry values into it.
    pub fn try_from_hir(hir_context: &HIRContext) -> (r: Option<McIrContext>)
        ensures
            match lowered(hir_context) {
                Some(v) => r is Some && r->0@ == v,
                None => r is None,
            },
    {
        let mut ctx = McIrContext::new(0);
        let mut i: usize = 0;
        while i < hir_context.functions.len()
            invariant
                i <= hir_context.functions@.len(),
                ctx.functions@.len() == i,
                ctx@.functions == start(hir_context).functions.take(i as int),
                ctx@.g == start(hir_context).g,
                ctx@.f == start(hir_context).f,
                ctx@.ssa == start(hir_context).ssa,
                ctx@.cur == 0,
                ctx.blocks@.len() == 0,
            decreases hir_context.functions@.len() - i,
        {
            let func = &hir_context.functions[i];
            let ghost before = ctx.functions@;
            let added = McIrFunc::new(func.name.clone(), copied(&func.bbs));
            ctx.functions.push(added);
            assert(ctx.functions@ == before.push(added));
            assert forall|k: int| 0 <= k < i + 1 implies ctx@.functions[k] == start(hir_context).functions[k] by {
                if k < i {
                    assert(ctx.functions@[k] == before[k]);
                    assert(start(hir_context).functions.take(i as int)[k] == start(hir_context).functions[k]);
                }
            }
            assert(ctx@.functions =~= start(hir_context).functions.take(i + 1));
            i += 1;
        }
        assert(ctx@.functions =~= start(hir_context).functions);
        let mut i: usize = 0;
        while i < hir_context.basic_block.len()
            invariant
                i <= hir_context.basic_block@.len(),
                ctx@.functions == start(hir_context).functions,
                ctx.blocks@.len() == i,
                ctx@.blocks == start(hir_context).blocks.take(i as int),
                ctx@.g == start(hir_context).g,
                ctx@.f == start(hir_context).f,
                ctx@.ssa == start(hir_context).ssa,
                ctx@.cur == 0,
            decreases hir_context.basic_block@.len() - i,
        {
            let ghost before = ctx.blocks@;
            let added = McIrBlock::new(hir_context.basic_block[i].owner_function);
            ctx.blocks.push(added);
            assert(ctx.blocks@ == before.push(added));
            assert forall|k: int| 0 <= k < i + 1 implies ctx@.blocks[k] == start(hir_context).blocks[k] by {
                if k < i {
                    assert(ctx.blocks@[k] == before[k]);
                    assert(start(hir_context).blocks.take(i as int)[k] == start(hir_context).blocks[k]);
                } else {
                    assert(added@.insts =~= seq![]);
                }
            }
            assert(ctx@.blocks =~= start(hir_context).blocks.take(i + 1));
            i += 1;
        }
        assert(ctx@.blocks =~= start(hir_context).blocks);
        assert(ctx@ == start(hir_context));
        let mut i: usize = 0;
        while i < hir_context.functions.len()
            invariant
                i <= hir_context.functions@.len(),
                start(hir_context).lower_funcs(i as int, hir_context) == Some(ctx@),
            decreases hir_context.functions@.len() - i,
        {
            if !ctx.lower_func(i, hir_context) {
                proof {
                    lemma_lower_funcs_none(
                        start(hir_context),
                        i + 1,
                        hir_context.functions@.len() as int,
                        hir_context,
                    );
                }
                return None;
            }
            i += 1;
        }
        Some(ctx)
    }

    /// The machine-level representation of a program that has one.
    pub fn from_hir(hir_context: &HIRContext) -> (ctx: McIrContext)
        requires
            lowered(hir_context) is Some,
        ensures
            Some(ctx@) == lowered(hir_context),
    {
        match McIrContext::try_from_hir(hir_context) {
            Some(ctx) => ctx,
            None => McIrContext::new(0),
        }
    }
}

} // verus!
