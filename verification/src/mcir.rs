//! Machine-level intermediate representation: instructions on virtual
//! general and floating-point registers, and the bookkeeping that assigns
//! SSA registers to them.

use vstd::prelude::*;
use crate::hir::{SsaReg, Type};
use crate::inst::CmpKind;

verus! {

/// A virtual general register.
#[derive(Clone, Copy, Debug, PartialEq, Eq, Structural)]
pub struct GReg(pub usize);

impl GReg {
    pub fn to_usize(self) -> (i: usize)
        ensures
            i == self.0,
    {
        self.0
    }
}

/// A virtual floating-point register.
#[derive(Clone, Copy, Debug, PartialEq, Eq, Structural)]
pub struct FReg(pub usize);

impl FReg {
    pub fn to_usize(self) -> (i: usize)
        ensures
            i == self.0,
    {
        self.0
    }
}

/// A virtual register of either file.
#[derive(Clone, Copy, Debug, PartialEq, Eq, Structural)]
pub enum McReg {
    GReg(GReg),
    FReg(FReg),
}

impl McReg {
    /// The general register.
    pub fn as_g(self) -> (r: GReg)
        requires
            self is GReg,
        ensures
            self == McReg::GReg(r),
    {
        match self {
            McReg::GReg(r) => r,
            McReg::FReg(_) => GReg(0),
        }
    }

    /// The floating-point register.
    pub fn as_f(self) -> (r: FReg)
        requires
            self is FReg,
        ensures
            self == McReg::FReg(r),
    {
        match self {
            McReg::FReg(r) => r,
            McReg::GReg(_) => FReg(0),
        }
    }
}

/// An integer operand: a register or a constant.
#[derive(Clone, Copy, Debug, PartialEq, Eq, Structural)]
pub enum McGeneralOperand {
    Reg(GReg),
    Integer(i32),
}

/// A float operand: a register or a constant, by its bits.
#[derive(Clone, Copy, Debug, PartialEq, Eq, Structural)]
pub enum McFloatOperand {
    Reg(FReg),
    Float(u64),
}

/// What a general register holds: the SSA register it is assigned to, or
/// nothing.
#[derive(Clone, Copy, Debug, PartialEq, Eq, Structural)]
pub struct GRegInfo {
    pub ssareg: Option<SsaReg>,
}

impl GRegInfo {
    pub fn new(ssareg: SsaReg) -> (info: GRegInfo)
        ensures
            info.ssareg == Some(ssareg),
    {
        GRegInfo { ssareg: Some(ssareg) }
    }

    pub fn assign(&mut self, ssa: SsaReg)
        ensures
            final(self).ssareg == Some(ssa),
    {
        self.ssareg = Some(ssa);
    }

    pub fn release(&mut self)
        ensures
            final(self).ssareg is None,
    {
        self.ssareg = None;
    }
}

/// What a floating-point register holds.
#[derive(Clone, Copy, Debug, PartialEq, Eq, Structural)]
pub struct FRegInfo {
    pub ssareg: Option<SsaReg>,
}

impl FRegInfo {
    pub fn new(ssareg: SsaReg) -> (info: FRegInfo)
        ensures
            info.ssareg == Some(ssareg),
    {
        FRegInfo { ssareg: Some(ssareg) }
    }

    pub fn assign(&mut self, ssa: SsaReg)
        ensures
            final(self).ssareg == Some(ssa),
    {
        self.ssareg = Some(ssa);
    }

    pub fn release(&mut self)
        ensures
            final(self).ssareg is None,
    {
        self.ssareg = None;
    }
}

/// Machine-level instructions.  Two-operand instructions overwrite their
/// first operand.
#[derive(Debug)]
pub enum McIR {
    Jmp(usize),
    /// kind, lhs, rhs, then_bb, else_bb
    ICmpJmp(CmpKind, GReg, McGeneralOperand, usize, usize),
    /// kind, lhs, rhs, then_bb, else_bb
    FCmpJmp(CmpKind, FReg, FReg, usize, usize),
    CondJmp(McReg, usize, usize),
    GMove(GReg, GReg),
    FMove(FReg, FReg),
    Integer(GReg, i32),
    Float(FReg, u64),
    CastIntFloat(FReg, McGeneralOperand),
    INeg(GReg),
    FNeg(FReg),
    IAdd(GReg, McGeneralOperand),
    ISub(GReg, McGeneralOperand),
    IMul(GReg, GReg),
    IDiv(GReg, GReg),
    FAdd(FReg, McFloatOperand),
    FSub(FReg, McFloatOperand),
    FMul(FReg, McFloatOperand),
    FDiv(FReg, McFloatOperand),
    ICmp(CmpKind, GReg, McGeneralOperand),
    FCmp(CmpKind, GReg, FReg, FReg),
    IRet(McGeneralOperand, Type),
    FRet(McFloatOperand),
    LocalStore(usize, McReg),
    LocalLoad(usize, McReg),
    /// func_id, ret, arg, using_general_registers
    Call(usize, Option<GReg>, Vec<McGeneralOperand>, Vec<GReg>),
}

/// A basic block of machine-level instructions.
#[derive(Debug)]
pub struct McIrBlock {
    pub insts: Vec<McIR>,
    pub owner_function: usize,
    /// The numbers of general and floating-point registers that carry
    /// values into the block.
    pub using_reg: Option<(usize, usize)>,
}

impl McIrBlock {
    pub fn new(owner_function: usize) -> (b: McIrBlock)
        ensures
            b.insts@.len() == 0,
            b.owner_function == owner_function,
            b.using_reg is None,
    {
        McIrBlock { insts: Vec::new(), owner_function, using_reg: None }
    }
}

/// What the contracts say of a block.
pub struct BlockView {
    pub insts: Seq<McIR>,
    pub owner_function: usize,
    pub using_reg: Option<(usize, usize)>,
}

impl View for McIrBlock {
    type V = BlockView;

    open spec fn view(&self) -> BlockView {
        BlockView { insts: self.insts@, owner_function: self.owner_function, using_reg: self.using_reg }
    }
}

/// Function information of McIr.
#[derive(Debug)]
pub struct McIrFunc {
    /// Name of the function.
    pub name: String,
    /// Basic blocks which belong to this function.
    pub bbs: Vec<usize>,
    /// Number of virtual general registers.
    pub g_regs: usize,
    /// Number of virtual float registers.
    pub f_regs: usize,
    /// Type of return value.
    pub ret_ty: Type,
}

/// What the contracts say of a function.
pub struct FuncView {
    pub name: Seq<char>,
    pub bbs: Seq<usize>,
    pub g_regs: usize,
    pub f_regs: usize,
    pub ret_ty: Type,
}

impl View for McIrFunc {
    type V = FuncView;

    open spec fn view(&self) -> FuncView {
        FuncView {
            name: self.name@,
            bbs: self.bbs@,
            g_regs: self.g_regs,
            f_regs: self.f_regs,
            ret_ty: self.ret_ty,
        }
    }
}

impl McIrFunc {
    /// A function that uses no register yet and returns an integer.
    pub fn new(name: String, bbs: Vec<usize>) -> (f: McIrFunc)
        ensures
            f@ == (FuncView { name: name@, bbs: bbs@, g_regs: 0, f_regs: 0, ret_ty: Type::Integer }),
    {
        McIrFunc { name, bbs, g_regs: 0, f_regs: 0, ret_ty: Type::Integer }
    }
}

/// The assignment of SSA registers to virtual registers within one block,
/// and the blocks and functions made so far.
#[derive(Debug)]
pub struct McIrContext {
    pub g_reginfo: Vec<GRegInfo>,
    pub f_reginfo: Vec<FRegInfo>,
    /// For each SSA register, the virtual register that holds it.
    pub ssa_map: Vec<Option<McReg>>,
    pub cur_block: usize,
    pub blocks: Vec<McIrBlock>,
    pub functions: Vec<McIrFunc>,
}

/// What the contracts say of a context.
pub struct McView {
    pub g: Seq<GRegInfo>,
    pub f: Seq<FRegInfo>,
    pub ssa: Seq<Option<McReg>>,
    pub cur: usize,
    pub blocks: Seq<BlockView>,
    pub functions: Seq<FuncView>,
}

impl View for McIrContext {
    type V = McView;

    open spec fn view(&self) -> McView {
        McView {
            g: self.g_reginfo@,
            f: self.f_reginfo@,
            ssa: self.ssa_map@,
            cur: self.cur_block,
            blocks: self.blocks@.map_values(|b: McIrBlock| b@),
            functions: self.functions@.map_values(|f: McIrFunc| f@),
        }
    }
}

/// The least general register from `k` on that holds nothing; the number of
/// registers where all are taken.
pub open spec fn first_free_g(info: Seq<GRegInfo>, k: int) -> int
    decreases info.len() - k,
{
    if k >= info.len() {
        info.len() as int
    } else if info[k].ssareg is None {
        k
    } else {
        first_free_g(info, k + 1)
    }
}

/// The least floating-point register from `k` on that holds nothing.
pub open spec fn first_free_f(info: Seq<FRegInfo>, k: int) -> int
    decreases info.len() - k,
{
    if k >= info.len() {
        info.len() as int
    } else if info[k].ssareg is None {
        k
    } else {
        first_free_f(info, k + 1)
    }
}

impl McIrContext {
    /// A context of `register_num` SSA registers, none of them assigned, and
    /// no virtual register.
    pub fn new(register_num: usize) -> (ctx: McIrContext)
        ensures
            ctx.g_reginfo@.len() == 0,
            ctx.f_reginfo@.len() == 0,
            ctx.ssa_map@ == Seq::new(register_num as nat, |i: int| None::<McReg>),
            ctx.cur_block == 0,
            ctx.blocks@.len() == 0,
            ctx.functions@.len() == 0,
    {
        let mut ssa_map: Vec<Option<McReg>> = Vec::new();
        let mut i: usize = 0;
        while i < register_num
            invariant
                i <= register_num,
                ssa_map@.len() == i,
                forall|k: int| 0 <= k < i ==> ssa_map@[k] is None,
            decreases register_num - i,
        {
            ssa_map.push(None);
            i += 1;
        }
        assert(ssa_map@ =~= Seq::new(register_num as nat, |i: int| None::<McReg>));
        McIrContext {
            g_reginfo: Vec::new(),
            f_reginfo: Vec::new(),
            ssa_map,
            cur_block: 0,
            blocks: Vec::new(),
            functions: Vec::new(),
        }
    }

    /// The number of general registers in use or used before.
    pub fn g_reg_num(&self) -> (n: usize)
        ensures
            n == self.g_reginfo@.len(),
    {
        self.g_reginfo.len()
    }

    /// The number of floating-point registers in use or used before.
    pub fn f_reg_num(&self) -> (n: usize)
        ensures
            n == self.f_reginfo@.len(),
    {
        self.f_reginfo.len()
    }

    /// Marks a virtual register as holding nothing.
    pub fn invalidate(&mut self, reg: McReg)
        requires
            reg matches McReg::GReg(g) ==> g.0 < old(self).g_reginfo@.len(),
            reg matches McReg::FReg(f) ==> f.0 < old(self).f_reginfo@.len(),
        ensures
            final(self).ssa_map == old(self).ssa_map,
            final(self).blocks == old(self).blocks,
            final(self).functions == old(self).functions,
            final(self).cur_block == old(self).cur_block,
            reg matches McReg::GReg(g) ==> final(self).g_reginfo@ == old(self).g_reginfo@.update(
                g.0 as int,
                GRegInfo { ssareg: None },
            ) && final(self).f_reginfo == old(self).f_reginfo,
            reg matches McReg::FReg(f) ==> final(self).f_reginfo@ == old(self).f_reginfo@.update(
                f.0 as int,
                FRegInfo { ssareg: None },
            ) && final(self).g_reginfo == old(self).g_reginfo,
    {
        match reg {
            McReg::FReg(f) => {
                self.f_reginfo.set(f.0, FRegInfo { ssareg: None });
            },
            McReg::GReg(g) => {
                self.g_reginfo.set(g.0, GRegInfo { ssareg: None });
            },
        }
    }

    /// Get a vacant general register and update a SSA map.
    ///
    /// An SSA register that already has a register keeps it.  Otherwise the
    /// least free register is taken, or a new one where none is free.
    pub fn alloc_greg(&mut self, ssareg: SsaReg) -> (reg: GReg)
        requires
            ssareg.0 < old(self).ssa_map@.len(),
            old(self).ssa_map@[ssareg.0 as int] is Some ==> old(self).ssa_map@[ssareg.0 as int]->0 is GReg,
        ensures
            final(self).f_reginfo == old(self).f_reginfo,
            final(self).blocks == old(self).blocks,
            final(self).functions == old(self).functions,
            final(self).cur_block == old(self).cur_block,
            final(self).ssa_map@ == old(self).ssa_map@.update(ssareg.0 as int, Some(McReg::GReg(reg))),
            old(self).ssa_map@[ssareg.0 as int] matches Some(r) ==> r == McReg::GReg(reg) && final(self).g_reginfo == old(self).g_reginfo,
            old(self).ssa_map@[ssareg.0 as int] is None ==> {
                let k = first_free_g(old(self).g_reginfo@, 0);
                &&& reg.0 == k
                &&& final(self).g_reginfo@ == if k < old(self).g_reginfo@.len() {
                    old(self).g_reginfo@.update(k, GRegInfo { ssareg: Some(ssareg) })
                } else {
                    old(self).g_reginfo@.push(GRegInfo { ssareg: Some(ssareg) })
                }
            },
    {
        if let Some(reg) = self.ssa_map[ssareg.0] {
            assert(self.ssa_map@ =~= old(self).ssa_map@.update(ssareg.0 as int, Some(reg)));
            return reg.as_g();
        }
        let n = self.g_reginfo.len();
        let mut i: usize = 0;
        while i < n
            invariant
                i <= n,
                n == self.g_reginfo@.len(),
                self.g_reginfo == old(self).g_reginfo,
                self.f_reginfo == old(self).f_reginfo,
                self.blocks == old(self).blocks,
                self.functions == old(self).functions,
                self.cur_block == old(self).cur_block,
                self.ssa_map == old(self).ssa_map,
                ssareg.0 < self.ssa_map@.len(),
                self.ssa_map@[ssareg.0 as int] is None,
                first_free_g(self.g_reginfo@, i as int) == first_free_g(self.g_reginfo@, 0),
            decreases n - i,
        {
            if self.g_reginfo[i].ssareg.is_none() {
                self.g_reginfo.set(i, GRegInfo { ssareg: Some(ssareg) });
                self.ssa_map.set(ssareg.0, Some(McReg::GReg(GReg(i))));
                return GReg(i);
            }
            i += 1;
        }
        self.g_reginfo.push(GRegInfo::new(ssareg));
        self.ssa_map.set(ssareg.0, Some(McReg::GReg(GReg(n))));
        GReg(n)
    }

    /// Get a vacant floating point register and update a SSA map.
    pub fn alloc_freg(&mut self, ssareg: SsaReg) -> (reg: FReg)
        requires
            ssareg.0 < old(self).ssa_map@.len(),
            old(self).ssa_map@[ssareg.0 as int] is Some ==> old(self).ssa_map@[ssareg.0 as int]->0 is FReg,
        ensures
            final(self).g_reginfo == old(self).g_reginfo,
            final(self).blocks == old(self).blocks,
            final(self).functions == old(self).functions,
            final(self).cur_block == old(self).cur_block,
            final(self).ssa_map@ == old(self).ssa_map@.update(ssareg.0 as int, Some(McReg::FReg(reg))),
            old(self).ssa_map@[ssareg.0 as int] matches Some(r) ==> r == McReg::FReg(reg) && final(self).f_reginfo == old(self).f_reginfo,
            old(self).ssa_map@[ssareg.0 as int] is None ==> {
                let k = first_free_f(old(self).f_reginfo@, 0);
                &&& reg.0 == k
                &&& final(self).f_reginfo@ == if k < old(self).f_reginfo@.len() {
                    old(self).f_reginfo@.update(k, FRegInfo { ssareg: Some(ssareg) })
                } else {
                    old(self).f_reginfo@.push(FRegInfo { ssareg: Some(ssareg) })
                }
            },
    {
        if let Some(reg) = self.ssa_map[ssareg.0] {
            assert(self.ssa_map@ =~= old(self).ssa_map@.update(ssareg.0 as int, Some(reg)));
            return reg.as_f();
        }
        let n = self.f_reginfo.len();
        let mut i: usize = 0;
        while i < n
            invariant
                i <= n,
                n == self.f_reginfo@.len(),
                self.g_reginfo == old(self).g_reginfo,
                self.f_reginfo == old(self).f_reginfo,
                self.blocks == old(self).blocks,
                self.functions == old(self).functions,
                self.cur_block == old(self).cur_block,
                self.ssa_map == old(self).ssa_map,
                ssareg.0 < self.ssa_map@.len(),
                self.ssa_map@[ssareg.0 as int] is None,
                first_free_f(self.f_reginfo@, i as int) == first_free_f(self.f_reginfo@, 0),
            decreases n - i,
        {
            if self.f_reginfo[i].ssareg.is_none() {
                self.f_reginfo.set(i, FRegInfo { ssareg: Some(ssareg) });
                self.ssa_map.set(ssareg.0, Some(McReg::FReg(FReg(i))));
                return FReg(i);
            }
            i += 1;
        }
        self.f_reginfo.push(FRegInfo::new(ssareg));
        self.ssa_map.set(ssareg.0, Some(McReg::FReg(FReg(n))));
        FReg(n)
    }

    /// Finds a register of the file that fits the type: the one that the SSA
    /// register has, else the least free one, else a new one.
    pub fn alloc_reg(&mut self, ssareg: SsaReg, ty: Type) -> (reg: McReg)
        requires
            ssareg.0 < old(self).ssa_map@.len(),
            old(self).ssa_map@[ssareg.0 as int] matches Some(r) ==> (r is FReg <==> ty is Float),
        ensures
            old(self)@.alloc_any(ssareg, ty) == Some((final(self)@, reg)),
            reg is FReg <==> ty is Float,
    {
        reveal(McView::alloc_any);
        reveal(McView::alloc_g);
        reveal(McView::alloc_f);
        match ty {
            Type::Integer | Type::Bool => {
                let g = self.alloc_greg(ssareg);
                proof {
                    let v = (old(self)@.alloc_g(ssareg)->0).0;
                    assert(self@.ssa =~= v.ssa);
                    assert(self@.g =~= v.g);
                }
                McReg::GReg(g)
            },
            Type::Float => {
                let f = self.alloc_freg(ssareg);
                proof {
                    let v = (old(self)@.alloc_f(ssareg)->0).0;
                    assert(self@.ssa =~= v.ssa);
                    assert(self@.f =~= v.f);
                }
                McReg::FReg(f)
            },
        }
    }
}

} // verus!
