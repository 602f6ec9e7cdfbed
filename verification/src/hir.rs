//! A small typed intermediate representation in SSA form: every instruction
//! that yields a value defines a fresh register, and every register has one
//! type.
//!
//! Float constants are kept as their IEEE-754 bits.

use vstd::prelude::*;
use crate::inst::CmpKind;

verus! {

/// The type of an SSA register.
#[derive(Clone, Copy, Debug, PartialEq, Eq, Structural)]
pub enum Type {
    Integer,
    Float,
    Bool,
}

/// A constant operand.
#[derive(Clone, Copy, Debug, PartialEq, Eq, Structural)]
pub enum Value {
    Integer(i32),
    /// A double, by its bits.
    Float(u64),
    Bool(bool),
}

impl Value {
    /// The type of the constant.
    pub open spec fn ty_spec(self) -> Type {
        match self {
            Value::Integer(_) => Type::Integer,
            Value::Float(_) => Type::Float,
            Value::Bool(_) => Type::Bool,
        }
    }

    pub fn ty(&self) -> (t: Type)
        ensures
            t == self.ty_spec(),
    {
        match self {
            Value::Integer(_) => Type::Integer,
            Value::Float(_) => Type::Float,
            Value::Bool(_) => Type::Bool,
        }
    }

    /// The integer of an integer constant.
    pub fn as_i(self) -> (i: i32)
        requires
            self is Integer,
        ensures
            self == Value::Integer(i),
    {
        match self {
            Value::Integer(i) => i,
            _ => 0,
        }
    }

    /// The bits of a float constant.
    pub fn as_f(self) -> (f: u64)
        requires
            self is Float,
        ensures
            self == Value::Float(f),
    {
        match self {
            Value::Float(f) => f,
            _ => 0,
        }
    }
}

/// ID of SSA registers.
#[derive(Clone, Copy, Debug, PartialEq, Eq, Structural)]
pub struct SsaReg(pub usize);

impl SsaReg {
    pub fn to_usize(self) -> (i: usize)
        ensures
            i == self.0,
    {
        self.0
    }
}

/// Information of SSA registers.
#[derive(Clone, Copy, Debug, PartialEq, Eq, Structural)]
pub struct SsaRegInfo {
    /// *Type* of the register.
    pub ty: Type,
}

impl SsaRegInfo {
    pub fn new(ty: Type) -> (info: SsaRegInfo)
        ensures
            info.ty == ty,
    {
        SsaRegInfo { ty }
    }
}

/// An operand: a register or a constant.
#[derive(Clone, Copy, Debug, PartialEq, Eq, Structural)]
pub enum HirOperand {
    Reg(SsaReg),
    Const(Value),
}

impl HirOperand {
    pub fn integer(n: i32) -> (o: HirOperand)
        ensures
            o == HirOperand::Const(Value::Integer(n)),
    {
        HirOperand::Const(Value::Integer(n))
    }

    /// The constant double with the given bits.
    pub fn float(bits: u64) -> (o: HirOperand)
        ensures
            o == HirOperand::Const(Value::Float(bits)),
    {
        HirOperand::Const(Value::Float(bits))
    }

    pub fn reg(r: SsaReg) -> (o: HirOperand)
        ensures
            o == HirOperand::Reg(r),
    {
        HirOperand::Reg(r)
    }
}

/// Binary operations on two registers.
#[derive(Clone, Copy, Debug, PartialEq, Eq, Structural)]
pub struct HIRBinop {
    /// Register ID of return value.
    pub ret: SsaReg,
    /// Register ID of left-hand side.
    pub lhs: SsaReg,
    /// Register ID of right-hand side.
    pub rhs: SsaReg,
}

/// Binary operations on two operands.
#[derive(Clone, Copy, Debug, PartialEq, Eq, Structural)]
pub struct HirBinop2 {
    /// Register ID of return value.
    pub ret: SsaReg,
    /// Left-hand side.
    pub lhs: HirOperand,
    /// Right-hand side.
    pub rhs: HirOperand,
}

/// Unary operations.
#[derive(Clone, Copy, Debug, PartialEq, Eq, Structural)]
pub struct HirUnop {
    /// Register ID of return value.
    pub ret: SsaReg,
    /// Source value.
    pub src: HirOperand,
}

/// Instructions of High-level IR.
#[derive(Debug)]
pub enum Hir {
    Br(usize),
    CondBr(SsaReg, usize, usize),
    ICmpBr(CmpKind, SsaReg, HirOperand, usize, usize),
    FCmpBr(CmpKind, SsaReg, SsaReg, usize, usize),
    Phi(SsaReg, Vec<(usize, SsaReg)>),
    Integer(SsaReg, i32),
    Float(SsaReg, u64),
    CastIntFloat(HirUnop),
    INeg(HirUnop),
    FNeg(HirUnop),
    IAdd(HirBinop2),
    ISub(HirBinop2),
    IMul(HIRBinop),
    IDiv(HIRBinop),
    FAdd(HirBinop2),
    FSub(HirBinop2),
    FMul(HirBinop2),
    FDiv(HirBinop2),
    ICmp(CmpKind, HirBinop2),
    FCmp(CmpKind, HIRBinop),
    Ret(HirOperand),
    /// (ret, (offset, type), rhs)
    LocalStore(Option<SsaReg>, (usize, Type), SsaReg),
    LocalLoad((usize, Type), SsaReg),
}

/// A basic block.
#[derive(Debug)]
pub struct HirBasicBlock {
    /// HIR instructions.
    pub insts: Vec<Hir>,
    /// The function this bb is owned.
    pub owner_function: usize,
}

impl HirBasicBlock {
    pub fn new(owner_function: usize) -> (bb: HirBasicBlock)
        ensures
            bb.insts@.len() == 0,
            bb.owner_function == owner_function,
    {
        HirBasicBlock { insts: Vec::new(), owner_function }
    }
}

/// A function.
#[derive(Debug)]
pub struct HirFunction {
    pub name: String,
    pub entry_bb: usize,
    pub ret: Option<SsaReg>,
    pub ret_ty: Option<Type>,
    pub register_num: usize,
    /// The basic blocks of the function, in increasing order.
    pub bbs: Vec<usize>,
    /// The registers of the function, once its body is complete.
    pub reginfo: Vec<SsaRegInfo>,
}

impl HirFunction {
    /// The types of the function's registers, by register number.
    pub open spec fn types(&self) -> Seq<Type> {
        self.reginfo@.map_values(|i: SsaRegInfo| i.ty)
    }
}

impl HirFunction {
    pub fn new(name: String, entry_bb: usize) -> (f: HirFunction)
        ensures
            f.name == name,
            f.entry_bb == entry_bb,
            f.ret is None,
            f.ret_ty is None,
            f.register_num == 0,
            f.bbs@.len() == 0,
            f.reginfo@.len() == 0,
    {
        HirFunction {
            name,
            entry_bb,
            ret: None,
            ret_ty: None,
            register_num: 0,
            bbs: Vec::new(),
            reginfo: Vec::new(),
        }
    }
}

/// What can go wrong when types are assigned.
#[derive(Debug)]
pub enum HirErr {
    UndefinedLocal(String),
    TypeMismatch(Type, Type),
}

/// A state of HIR.
#[derive(Debug)]
pub struct HIRContext {
    /// SSA register information.
    pub reginfo: Vec<SsaRegInfo>,
    /// Basic blocks.
    pub basic_block: Vec<HirBasicBlock>,
    pub cur_bb: usize,
    /// Functions.
    pub functions: Vec<HirFunction>,
    pub cur_fn: usize,
}

impl HIRContext {
    /// The current block and the current function exist.
    pub open spec fn wf(&self) -> bool {
        &&& self.cur_bb < self.basic_block@.len()
        &&& self.cur_fn < self.functions@.len()
    }

    /// The instructions of the current block.
    pub open spec fn cur_insts(&self) -> Seq<Hir> {
        self.basic_block@[self.cur_bb as int].insts@
    }

    /// The types of the registers, by register number.
    pub open spec fn types(&self) -> Seq<Type> {
        self.reginfo@.map_values(|i: SsaRegInfo| i.ty)
    }

    /// The type of a register.
    pub open spec fn reg_type(&self, r: SsaReg) -> Type {
        self.types()[r.0 as int]
    }

    /// This context is `old` with `hir` appended to the current block, and
    /// with one more register of type `ty` where `ty` is given.
    pub open spec fn appended(&self, old: &HIRContext, hir: Hir, ty: Option<Type>) -> bool {
        &&& self.wf()
        &&& self.cur_bb == old.cur_bb
        &&& self.cur_fn == old.cur_fn
        &&& self.functions == old.functions
        &&& self.basic_block@.len() == old.basic_block@.len()
        &&& self.cur_insts() == old.cur_insts().push(hir)
        &&& self.basic_block@[self.cur_bb as int].owner_function
            == old.basic_block@[old.cur_bb as int].owner_function
        &&& forall|i: int|
            0 <= i < self.basic_block@.len() && i != self.cur_bb ==> self.basic_block@[i]
                == old.basic_block@[i]
        &&& self.types() == match ty {
            Some(t) => old.types().push(t),
            None => old.types(),
        }
    }

    /// A context with the function `/main` and its empty entry block.
    pub fn new() -> (ctx: HIRContext)
        ensures
            ctx.wf(),
            ctx.cur_bb == 0,
            ctx.cur_fn == 0,
            ctx.reginfo@.len() == 0,
            ctx.basic_block@.len() == 1,
            ctx.cur_insts().len() == 0,
            ctx.functions@.len() == 1,
            ctx.functions@[0].name@ == "/main"@,
            ctx.functions@[0].entry_bb == 0,
            ctx.functions@[0].bbs@ == seq![0usize],
    {
        let cur_bb: usize = 0;
        let cur_fn: usize = 0;
        let basic_block = HirBasicBlock::new(cur_fn);
        let mut function = HirFunction::new("/main".to_string(), cur_bb);
        function.bbs.push(cur_bb);
        let mut blocks = Vec::new();
        blocks.push(basic_block);
        let mut functions = Vec::new();
        functions.push(function);
        HIRContext { reginfo: Vec::new(), basic_block: blocks, cur_bb, functions, cur_fn }
    }

    /// The number of registers made so far.
    pub fn register_num(&self) -> (n: usize)
        ensures
            n == self.reginfo@.len(),
    {
        self.reginfo.len()
    }

    /// The register that the next defining instruction defines.
    pub fn next_reg(&self) -> (r: SsaReg)
        ensures
            r.0 == self.reginfo@.len(),
    {
        SsaReg(self.reginfo.len())
    }

    /// The type of a register.
    pub fn ty(&self, r: SsaReg) -> (t: Type)
        requires
            r.0 < self.reginfo@.len(),
        ensures
            t == self.types()[r.0 as int],
    {
        self.reginfo[r.0].ty
    }

    /// Starts a new empty block in the current function and returns its
    /// number.  The current block stays the same.
    pub fn new_bb(&mut self) -> (next: usize)
        requires
            old(self).wf(),
        ensures
            final(self).wf(),
            next == old(self).basic_block@.len(),
            final(self).basic_block@.len() == next + 1,
            final(self).basic_block@[next as int].insts@.len() == 0,
            final(self).basic_block@[next as int].owner_function == old(self).cur_fn,
            forall|i: int| 0 <= i < next ==> final(self).basic_block@[i] == old(self).basic_block@[i],
            final(self).cur_bb == old(self).cur_bb,
            final(self).cur_fn == old(self).cur_fn,
            final(self).reginfo == old(self).reginfo,
            final(self).functions@.len() == old(self).functions@.len(),
            final(self).functions@[old(self).cur_fn as int].bbs@ == old(self).functions@[old(self).cur_fn as int].bbs@.push(next),
            final(self).functions@[old(self).cur_fn as int].name == old(self).functions@[old(self).cur_fn as int].name,
            final(self).functions@[old(self).cur_fn as int].ret_ty == old(self).functions@[old(self).cur_fn as int].ret_ty,
            forall|i: int|
                0 <= i < old(self).functions@.len() && i != old(self).cur_fn ==> final(self).functions@[i] == old(self).functions@[i],
    {
        let bb = HirBasicBlock::new(self.cur_fn);
        let next = self.basic_block.len();
        self.functions[self.cur_fn].bbs.push(next);
        self.basic_block.push(bb);
        next
    }

    /// Starts a new function with an empty entry block, and makes both
    /// current.  Returns the function's number.
    pub fn enter_new_func(&mut self, name: String) -> (next_fn: usize)
        ensures
            final(self).wf(),
            next_fn == old(self).functions@.len(),
            final(self).cur_fn == next_fn,
            final(self).cur_bb == old(self).basic_block@.len(),
            final(self).basic_block@.len() == old(self).basic_block@.len() + 1,
            final(self).functions@.len() == next_fn + 1,
            final(self).cur_insts().len() == 0,
            final(self).functions@[next_fn as int].name == name,
            final(self).functions@[next_fn as int].entry_bb == final(self).cur_bb,
            final(self).functions@[next_fn as int].bbs@ == seq![final(self).cur_bb],
            final(self).reginfo == old(self).reginfo,
            forall|i: int| 0 <= i < next_fn ==> final(self).functions@[i] == old(self).functions@[i],
            forall|i: int|
                0 <= i < old(self).basic_block@.len() ==> final(self).basic_block@[i] == old(self).basic_block@[i],
    {
        let entry_bb = self.basic_block.len();
        let next_fn = self.functions.len();
        let bb = HirBasicBlock::new(next_fn);
        self.basic_block.push(bb);
        let mut func = HirFunction::new(name, entry_bb);
        func.bbs.push(entry_bb);
        self.functions.push(func);
        self.cur_fn = next_fn;
        self.cur_bb = entry_bb;
        next_fn
    }

    /// Appends an instruction that defines no register to the current block.
    pub fn push_inst(&mut self, hir: Hir)
        requires
            old(self).wf(),
        ensures
            final(self).appended(old(self), hir, None),
    {
        self.basic_block[self.cur_bb].insts.push(hir);
    }

    /// Appends an instruction that defines the next register, of type `ty`.
    pub fn add_assign(&mut self, hir: Hir, ty: Type) -> (ret_reg: SsaReg)
        requires
            old(self).wf(),
        ensures
            ret_reg.0 == old(self).reginfo@.len(),
            final(self).appended(old(self), hir, Some(ty)),
    {
        let ret_reg = self.next_reg();
        self.reginfo.push(SsaRegInfo::new(ty));
        self.basic_block[self.cur_bb].insts.push(hir);
        assert(self.types() =~= old(self).types().push(ty));
        ret_reg
    }

    pub fn new_integer(&mut self, i: i32) -> (r: SsaReg)
        requires
            old(self).wf(),
        ensures
            r.0 == old(self).reginfo@.len(),
            final(self).appended(old(self), Hir::Integer(r, i), Some(Type::Integer)),
    {
        let ret = self.next_reg();
        self.add_assign(Hir::Integer(ret, i), Type::Integer)
    }

    /// A float constant, by its bits.
    pub fn new_float(&mut self, f: u64) -> (r: SsaReg)
        requires
            old(self).wf(),
        ensures
            r.0 == old(self).reginfo@.len(),
            final(self).appended(old(self), Hir::Float(r, f), Some(Type::Float)),
    {
        let ret = self.next_reg();
        self.add_assign(Hir::Float(ret, f), Type::Float)
    }

    pub fn new_as_float(&mut self, src: SsaReg) -> (r: SsaReg)
        requires
            old(self).wf(),
        ensures
            r.0 == old(self).reginfo@.len(),
            final(self).appended(
                old(self),
                Hir::CastIntFloat(HirUnop { ret: r, src: HirOperand::Reg(src) }),
                Some(Type::Float),
            ),
    {
        let ret = self.next_reg();
        self.add_assign(Hir::CastIntFloat(HirUnop { ret, src: HirOperand::Reg(src) }), Type::Float)
    }

    pub fn new_as_float_imm(&mut self, src: i32) -> (r: SsaReg)
        requires
            old(self).wf(),
        ensures
            r.0 == old(self).reginfo@.len(),
            final(self).appended(
                old(self),
                Hir::CastIntFloat(HirUnop { ret: r, src: HirOperand::Const(Value::Integer(src)) }),
                Some(Type::Float),
            ),
    {
        let ret = self.next_reg();
        self.add_assign(
            Hir::CastIntFloat(HirUnop { ret, src: HirOperand::Const(Value::Integer(src)) }),
            Type::Float,
        )
    }

    pub fn new_ineg(&mut self, src: SsaReg) -> (r: SsaReg)
        requires
            old(self).wf(),
        ensures
            r.0 == old(self).reginfo@.len(),
            final(self).appended(
                old(self),
                Hir::INeg(HirUnop { ret: r, src: HirOperand::Reg(src) }),
                Some(Type::Integer),
            ),
    {
        let ret = self.next_reg();
        self.add_assign(Hir::INeg(HirUnop { ret, src: HirOperand::Reg(src) }), Type::Integer)
    }

    pub fn new_fneg(&mut self, src: SsaReg) -> (r: SsaReg)
        requires
            old(self).wf(),
        ensures
            r.0 == old(self).reginfo@.len(),
            final(self).appended(
                old(self),
                Hir::FNeg(HirUnop { ret: r, src: HirOperand::Reg(src) }),
                Some(Type::Float),
            ),
    {
        let ret = self.next_reg();
        self.add_assign(Hir::FNeg(HirUnop { ret, src: HirOperand::Reg(src) }), Type::Float)
    }

    pub fn new_iadd(&mut self, lhs: HirOperand, rhs: HirOperand) -> (r: SsaReg)
        requires
            old(self).wf(),
        ensures
            r.0 == old(self).reginfo@.len(),
            final(self).appended(old(self), Hir::IAdd(HirBinop2 { ret: r, lhs, rhs }), Some(Type::Integer)),
    {
        let ret = self.next_reg();
        self.add_assign(Hir::IAdd(HirBinop2 { ret, lhs, rhs }), Type::Integer)
    }

    pub fn new_fadd(&mut self, lhs: HirOperand, rhs: HirOperand) -> (r: SsaReg)
        requires
            old(self).wf(),
        ensures
            r.0 == old(self).reginfo@.len(),
            final(self).appended(old(self), Hir::FAdd(HirBinop2 { ret: r, lhs, rhs }), Some(Type::Float)),
    {
        let ret = self.next_reg();
        self.add_assign(Hir::FAdd(HirBinop2 { ret, lhs, rhs }), Type::Float)
    }

    pub fn new_isub(&mut self, lhs: HirOperand, rhs: HirOperand) -> (r: SsaReg)
        requires
            old(self).wf(),
        ensures
            r.0 == old(self).reginfo@.len(),
            final(self).appended(old(self), Hir::ISub(HirBinop2 { ret: r, lhs, rhs }), Some(Type::Integer)),
    {
        let ret = self.next_reg();
        self.add_assign(Hir::ISub(HirBinop2 { ret, lhs, rhs }), Type::Integer)
    }

    pub fn new_fsub(&mut self, lhs: HirOperand, rhs: HirOperand) -> (r: SsaReg)
        requires
            old(self).wf(),
        ensures
            r.0 == old(self).reginfo@.len(),
            final(self).appended(old(self), Hir::FSub(HirBinop2 { ret: r, lhs, rhs }), Some(Type::Float)),
    {
        let ret = self.next_reg();
        self.add_assign(Hir::FSub(HirBinop2 { ret, lhs, rhs }), Type::Float)
    }

    pub fn new_imul(&mut self, lhs: SsaReg, rhs: SsaReg) -> (r: SsaReg)
        requires
            old(self).wf(),
        ensures
            r.0 == old(self).reginfo@.len(),
            final(self).appended(old(self), Hir::IMul(HIRBinop { ret: r, lhs, rhs }), Some(Type::Integer)),
    {
        let ret = self.next_reg();
        self.add_assign(Hir::IMul(HIRBinop { ret, lhs, rhs }), Type::Integer)
    }

    pub fn new_fmul(&mut self, lhs: HirOperand, rhs: HirOperand) -> (r: SsaReg)
        requires
            old(self).wf(),
        ensures
            r.0 == old(self).reginfo@.len(),
            final(self).appended(old(self), Hir::FMul(HirBinop2 { ret: r, lhs, rhs }), Some(Type::Float)),
    {
        let ret = self.next_reg();
        self.add_assign(Hir::FMul(HirBinop2 { ret, lhs, rhs }), Type::Float)
    }

    pub fn new_idiv(&mut self, lhs: SsaReg, rhs: SsaReg) -> (r: SsaReg)
        requires
            old(self).wf(),
        ensures
            r.0 == old(self).reginfo@.len(),
            final(self).appended(old(self), Hir::IDiv(HIRBinop { ret: r, lhs, rhs }), Some(Type::Integer)),
    {
        let ret = self.next_reg();
        self.add_assign(Hir::IDiv(HIRBinop { ret, lhs, rhs }), Type::Integer)
    }

    pub fn new_fdiv(&mut self, lhs: HirOperand, rhs: HirOperand) -> (r: SsaReg)
        requires
            old(self).wf(),
        ensures
            r.0 == old(self).reginfo@.len(),
            final(self).appended(old(self), Hir::FDiv(HirBinop2 { ret: r, lhs, rhs }), Some(Type::Float)),
    {
        let ret = self.next_reg();
        self.add_assign(Hir::FDiv(HirBinop2 { ret, lhs, rhs }), Type::Float)
    }

    pub fn new_icmp(&mut self, kind: CmpKind, lhs: HirOperand, rhs: HirOperand) -> (r: SsaReg)
        requires
            old(self).wf(),
        ensures
            r.0 == old(self).reginfo@.len(),
            final(self).appended(old(self), Hir::ICmp(kind, HirBinop2 { ret: r, lhs, rhs }), Some(Type::Bool)),
    {
        let ret = self.next_reg();
        self.add_assign(Hir::ICmp(kind, HirBinop2 { ret, lhs, rhs }), Type::Bool)
    }

    pub fn new_fcmp(&mut self, kind: CmpKind, lhs: SsaReg, rhs: SsaReg) -> (r: SsaReg)
        requires
            old(self).wf(),
        ensures
            r.0 == old(self).reginfo@.len(),
            final(self).appended(old(self), Hir::FCmp(kind, HIRBinop { ret: r, lhs, rhs }), Some(Type::Bool)),
    {
        let ret = self.next_reg();
        self.add_assign(Hir::FCmp(kind, HIRBinop { ret, lhs, rhs }), Type::Bool)
    }

    pub fn new_ret(&mut self, lhs: SsaReg)
        requires
            old(self).wf(),
        ensures
            final(self).appended(old(self), Hir::Ret(HirOperand::Reg(lhs)), None),
    {
        self.push_inst(Hir::Ret(HirOperand::Reg(lhs)));
    }

    /// A phi of registers of one type: the type of the first.
    pub fn new_phi(&mut self, phi: Vec<(usize, SsaReg)>) -> (r: SsaReg)
        requires
            old(self).wf(),
            phi@.len() > 0,
            forall|i: int| 0 <= i < phi@.len() ==> (#[trigger] phi@[i]).1.0 < old(self).reginfo@.len(),
            forall|i: int|
                0 <= i < phi@.len() ==> old(self).types()[(#[trigger] phi@[i]).1.0 as int] == old(self).types()[phi@[0].1.0 as int],
        ensures
            r.0 == old(self).reginfo@.len(),
            final(self).appended(old(self), Hir::Phi(r, phi), Some(old(self).types()[phi@[0].1.0 as int])),
    {
        let ty = self.ty(phi[0].1);
        let ret = self.next_reg();
        self.add_assign(Hir::Phi(ret, phi), ty)
    }
}

} // verus!
