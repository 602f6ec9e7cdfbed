//! The compilation rule of each bytecode instruction.
//!
//! A rule generates the code of one instruction and takes the context of the
//! basic block from the state before the instruction to the state after it.
//! Where type feedback says that the operands of an arithmetic operation or
//! a comparison are floats, the rule works on unboxed doubles in xmm
//! registers; every such assumption is guarded by a side exit.

use vstd::prelude::*;
use crate::assembler::{Cond, Data, DestLabel, Inst, Operand, RuntimeFn, Target};
use crate::assembler::Inst::{Addl, Call, Cmpq, Jmp, Lea, Movq, Ucomisd, Xorps, Xorq};
use crate::assembler::Operand::{Func, Imm, Imm64, Ind, Rip, R};
use crate::assembler::Reg::{R12, R8, R9, Rax, Rbp, Rbx, Rcx, Rdi, Rdx, Rsi};
use crate::bbctx::{BBContext, BBView, LinkMode};
use crate::codegen::jitgen::{lemma_using_ok, using_ok, BinOpMode};
use crate::codegen::method_call::{args_ok, NEG_SELF};
use crate::codegen::{Codegen, CodegenView};
use crate::frame::{slot, xmm};
use crate::codegen::context::inline_of;
use crate::funcs::{FnStore, InlineCached, InlineMethod, MethodInfo};
use crate::ids::{BcPc, ClassId, ConstSiteId, FuncId, IdentId, SlotId};
use crate::inst::{Bc, BcOp, BinOpK, BrKind, CmpKind};
use crate::value::{fixnum_raw, Value, NIL_VALUE, TAG_SYMBOL};

verus! {

/// The bit pattern that flips the sign of a double.
pub const SIGN_MASK: i64 = -0x8000_0000_0000_0000;

/// What the records after an instruction hold, as far as the instruction's
/// rule needs them.
#[derive(Clone, Copy, Debug, PartialEq, Eq, Structural)]
pub enum Follow {
    Nothing,
    /// The conditional branch that consumes a comparison.
    Branch { kind: BrKind },
    /// The receiver and arguments of a call, and the site's cache.
    Args { info: MethodInfo, cached: Option<InlineCached> },
}

/// How control leaves an instruction.
#[derive(Clone, Copy, Debug, PartialEq, Eq, Structural)]
pub enum Flow {
    /// On to the next record.
    Next,
    /// On to the record after the arguments and cache data of a call.
    Call,
    /// To the branch target or on to the next record.
    Branch,
    /// To the branch target or on to the record after the fused branch.
    FusedBranch,
    /// To the branch target.
    Jump,
    /// Back to the caller.
    Return,
    LoopStart,
    LoopEnd,
}

/// How control leaves the instruction.
pub open spec fn flow_of_spec(op: BcOp) -> Flow {
    match op {
        BcOp::Br(_) => Flow::Jump,
        BcOp::CondBr(_, _, _, _) => Flow::Branch,
        BcOp::Cmp(_, _, _, _, true) => Flow::FusedBranch,
        BcOp::Cmpri(_, _, _, _, true) => Flow::FusedBranch,
        BcOp::Ret(_) => Flow::Return,
        BcOp::MethodCall(_, _) => Flow::Call,
        BcOp::LoopStart(_) => Flow::LoopStart,
        BcOp::LoopEnd => Flow::LoopEnd,
        _ => Flow::Next,
    }
}

#[verifier::when_used_as_spec(flow_of_spec)]
pub fn flow_of(op: BcOp) -> (f: Flow)
    ensures
        f == flow_of_spec(op),
{
    match op {
        BcOp::Br(_) => Flow::Jump,
        BcOp::CondBr(_, _, _, _) => Flow::Branch,
        BcOp::Cmp(_, _, _, _, true) => Flow::FusedBranch,
        BcOp::Cmpri(_, _, _, _, true) => Flow::FusedBranch,
        BcOp::Ret(_) => Flow::Return,
        BcOp::MethodCall(_, _) => Flow::Call,
        BcOp::LoopStart(_) => Flow::LoopStart,
        BcOp::LoopEnd => Flow::LoopEnd,
        _ => Flow::Next,
    }
}

/// The slots from `first` on, `len` of them, exist among `n` slots.
pub open spec fn range_ok(first: SlotId, len: u16, n: int) -> bool {
    first.0 + len <= n
}

/// The instruction names only slots that exist among `n` slots, and is
/// followed by what its rule needs.
pub open spec fn inst_ok_spec(op: BcOp, follow: Follow, n: usize) -> bool {
    match op {
        BcOp::Br(_) => true,
        BcOp::CondBr(r, _, _, _) => r.0 < n,
        BcOp::Integer(r, _) => r.0 < n,
        BcOp::Symbol(r, _) => r.0 < n,
        BcOp::Literal(r, _) => r.0 < n,
        BcOp::Array(r, s, len) => r.0 < n && range_ok(s, len, n as int),
        BcOp::Index(a, b, c) => a.0 < n && b.0 < n && c.0 < n,
        BcOp::IndexAssign(a, b, c) => a.0 < n && b.0 < n && c.0 < n,
        BcOp::LoadConst(r, _) => r.0 < n,
        BcOp::StoreConst(r, _) => r.0 < n,
        BcOp::LoadIvar(r, _) => r.0 < n,
        BcOp::StoreIvar(r, _) => r.0 < n,
        BcOp::Nil(r) => r.0 < n,
        BcOp::Neg(a, b) => a.0 < n && b.0 < n,
        BcOp::BinOp(_, a, b, c) => a.0 < n && b.0 < n && c.0 < n,
        BcOp::BinOpRi(_, a, b, _) => a.0 < n && b.0 < n,
        BcOp::BinOpIr(_, a, _, c) => a.0 < n && c.0 < n,
        BcOp::Cmp(_, a, b, c, opt) => a.0 < n && b.0 < n && c.0 < n && (opt ==> follow is Branch),
        BcOp::Cmpri(_, a, b, _, opt) => a.0 < n && b.0 < n && (opt ==> follow is Branch),
        BcOp::Ret(r) => r.0 < n,
        BcOp::Mov(a, b) => a.0 < n && b.0 < n,
        BcOp::MethodCall(r, _) => r.0 < n && (follow matches Follow::Args { info, .. } && info.recv.0 < n
            && info.args.0 < n && range_ok(info.args, info.len, n as int)),
        BcOp::MethodArgs(_, _, _) => false,
        BcOp::MethodDef(_, _) => true,
        BcOp::Yield(r, a, len) => r.0 < n && range_ok(a, len, n as int),
        BcOp::ConcatStr(r, a, len) => r.0 < n && range_ok(a, len, n as int),
        BcOp::LoopStart(_) => true,
        BcOp::LoopEnd => true,
    }
}

#[verifier::when_used_as_spec(inst_ok_spec)]
pub fn inst_ok(op: BcOp, follow: Follow, n: usize) -> (b: bool)
    ensures
        b == inst_ok_spec(op, follow, n),
{
    match op {
        BcOp::Br(_) => true,
        BcOp::CondBr(r, _, _, _) => (r.0 as usize) < n,
        BcOp::Integer(r, _) => (r.0 as usize) < n,
        BcOp::Symbol(r, _) => (r.0 as usize) < n,
        BcOp::Literal(r, _) => (r.0 as usize) < n,
        BcOp::Array(r, s, len) => (r.0 as usize) < n && s.0 as usize + len as usize <= n,
        BcOp::Index(a, b, c) => (a.0 as usize) < n && (b.0 as usize) < n && (c.0 as usize) < n,
        BcOp::IndexAssign(a, b, c) => (a.0 as usize) < n && (b.0 as usize) < n && (c.0 as usize) < n,
        BcOp::LoadConst(r, _) => (r.0 as usize) < n,
        BcOp::StoreConst(r, _) => (r.0 as usize) < n,
        BcOp::LoadIvar(r, _) => (r.0 as usize) < n,
        BcOp::StoreIvar(r, _) => (r.0 as usize) < n,
        BcOp::Nil(r) => (r.0 as usize) < n,
        BcOp::Neg(a, b) => (a.0 as usize) < n && (b.0 as usize) < n,
        BcOp::BinOp(_, a, b, c) => (a.0 as usize) < n && (b.0 as usize) < n && (c.0 as usize) < n,
        BcOp::BinOpRi(_, a, b, _) => (a.0 as usize) < n && (b.0 as usize) < n,
        BcOp::BinOpIr(_, a, _, c) => (a.0 as usize) < n && (c.0 as usize) < n,
        BcOp::Cmp(_, a, b, c, opt) => {
            let f = match follow {
                Follow::Branch { .. } => true,
                _ => false,
            };
            (a.0 as usize) < n && (b.0 as usize) < n && (c.0 as usize) < n && (!opt || f)
        },
        BcOp::Cmpri(_, a, b, _, opt) => {
            let f = match follow {
                Follow::Branch { .. } => true,
                _ => false,
            };
            (a.0 as usize) < n && (b.0 as usize) < n && (!opt || f)
        },
        BcOp::Ret(r) => (r.0 as usize) < n,
        BcOp::Mov(a, b) => (a.0 as usize) < n && (b.0 as usize) < n,
        BcOp::MethodCall(r, _) => {
            match follow {
                Follow::Args { info, .. } => (r.0 as usize) < n && (info.recv.0 as usize) < n && (
                info.args.0 as usize) < n && info.args.0 as usize + info.len as usize <= n,
                _ => false,
            }
        },
        BcOp::MethodArgs(_, _, _) => false,
        BcOp::MethodDef(_, _) => true,
        BcOp::Yield(r, a, len) => (r.0 as usize) < n && a.0 as usize + len as usize <= n,
        BcOp::ConcatStr(r, a, len) => (r.0 as usize) < n && a.0 as usize + len as usize <= n,
        BcOp::LoopStart(_) => true,
        BcOp::LoopEnd => true,
    }
}

/// The tagged word of a 32-bit integer as an immediate.
pub open spec fn fixnum_imm32_spec(i: i32) -> Operand {
    Imm64(fixnum_raw(i as int))
}

#[verifier::when_used_as_spec(fixnum_imm32_spec)]
pub fn fixnum_imm32(i: i32) -> (o: Operand)
    ensures
        o == fixnum_imm32_spec(i),
{
    Imm64(Value::int32(i).0)
}

/// The word of a symbol as an immediate: the name in the upper half over
/// the symbol tag.
pub open spec fn symbol_imm_spec(id: IdentId) -> Operand {
    Imm64((id.0 * 0x1_0000_0000 + TAG_SYMBOL) as u64)
}

#[verifier::when_used_as_spec(symbol_imm_spec)]
pub fn symbol_imm(id: IdentId) -> (o: Operand)
    ensures
        o == symbol_imm_spec(id),
{
    Imm64((id.0 as u64) * 0x1_0000_0000 + TAG_SYMBOL)
}

/// The value is an immediate: it needs no copy on the heap.
pub open spec fn is_packed_spec(val: Value) -> bool {
    val.0 % 8 != 0
}

#[verifier::when_used_as_spec(is_packed_spec)]
pub fn is_packed(val: Value) -> (b: bool)
    ensures
        b == is_packed_spec(val),
{
    val.0 % 8 != 0
}

/// The context is well formed and its slots can be numbered in 16 bits.
pub open spec fn ready(ctx: BBView) -> bool {
    &&& ctx.wf()
    &&& ctx.slots.len() <= 0x1_0000
}

/// The instruction is compiled on xmm registers: type feedback says that
/// its operands are floats.
pub open spec fn on_floats(op: BcOp, bc: Bc) -> bool {
    match op {
        BcOp::Neg(_, _) => bc.is_float1(),
        BcOp::BinOp(kind, _, _, _) => !bc.is_binary_integer() && bc.is_binary_float() && kind.is_arith(),
        BcOp::BinOpRi(kind, _, _, _) => !bc.is_integer1() && bc.is_float1() && kind.is_arith(),
        BcOp::BinOpIr(kind, _, _, _) => !bc.is_integer2() && bc.is_float2() && kind.is_arith(),
        BcOp::Cmp(_, _, _, _, _) => bc.is_binary_float(),
        _ => false,
    }
}

/// The number of vacant xmm registers that the rule of the instruction
/// takes in the context: one for each operand that it reads as a float and
/// that is in no register yet, and one for the result, unless the slot of
/// the result has a register to itself.
pub open spec fn regs_needed(ctx: BBView, op: BcOp, bc: Bc) -> int {
    if !on_floats(op, bc) {
        0
    } else {
        match op {
            BcOp::Neg(dst, src) => ctx.need_reads(src, src) + ctx.need_write(dst, src, src),
            BcOp::BinOp(_, ret, lhs, rhs) => ctx.need_reads(lhs, rhs) + ctx.need_write(ret, lhs, rhs),
            BcOp::BinOpRi(_, ret, lhs, _) => ctx.need_reads(lhs, lhs) + ctx.need_write(ret, lhs, lhs),
            BcOp::BinOpIr(_, ret, _, rhs) => ctx.need_reads(rhs, rhs) + ctx.need_write(ret, rhs, rhs),
            BcOp::Cmp(_, _, lhs, rhs, _) => ctx.need_reads(lhs, rhs),
            _ => 0,
        }
    }
}

/// The number of vacant xmm registers that the inline form of a method
/// takes: the conversion of an integer writes its result; the others read
/// their argument as a float and write their result.
pub open spec fn inline_need(ctx: BBView, id: InlineMethod, args: SlotId, ret: SlotId) -> int {
    match id {
        InlineMethod::IntegerTof => if ctx.sole_owner(ret) {
            0
        } else {
            1
        },
        _ => ctx.need_reads(args, args) + ctx.need_write(ret, args, args),
    }
}

/// The context has the vacant registers that a call takes: those of the
/// inline form of the method, where the site has resolved to a method that
/// has one.
pub open spec fn call_room(fnstore: &FnStore, ctx: BBView, ret: SlotId, follow: Follow) -> bool {
    match follow {
        Follow::Args { info, cached } => match inline_of(fnstore, cached) {
            Some(id) => {
                let d = ctx.dealloc(ret).written_back(info.recv);
                d.vacant_count() >= inline_need(d, id, info.args, ret)
            },
            None => true,
        },
        _ => true,
    }
}

/// The context has the vacant registers that the rule of the instruction
/// takes.
pub open spec fn has_room_spec(fnstore: &FnStore, ctx: BBView, op: BcOp, bc: Bc, follow: Follow) -> bool {
    match op {
        BcOp::MethodCall(ret, _) => call_room(fnstore, ctx, ret, follow),
        _ => ctx.vacant_count() >= regs_needed(ctx, op, bc),
    }
}

/// Whether the context has the vacant registers that the rule of the
/// instruction takes.
pub fn has_room(fnstore: &FnStore, ctx: &BBContext, op: BcOp, bc: Bc, follow: Follow) -> (b: bool)
    requires
        ready(ctx@),
        fits(op, follow, ctx@),
    ensures
        b == has_room_spec(fnstore, ctx@, op, bc, follow),
{
    let vacant = ctx.vacant_number();
    match op {
        BcOp::MethodCall(ret, _) => match follow {
            Follow::Args { info, cached } => match inline_of(fnstore, cached) {
                Some(id) => {
                    let mut d = ctx.clone();
                    d.dealloc_xmm(ret);
                    d.set_written_back(info.recv);
                    let need = match id {
                        InlineMethod::IntegerTof => if d.is_sole_owner(ret) {
                            0
                        } else {
                            1
                        },
                        _ => d.need_number(Some(ret), info.args, info.args),
                    };
                    d.vacant_number() >= need
                },
                None => true,
            },
            _ => true,
        },
        BcOp::Neg(dst, src) => !bc.is_float1() || vacant >= ctx.need_number(Some(dst), src, src),
        BcOp::BinOp(kind, ret, lhs, rhs) => !(!bc.is_binary_integer() && bc.is_binary_float() && kind.is_arith())
            || vacant >= ctx.need_number(Some(ret), lhs, rhs),
        BcOp::BinOpRi(kind, ret, lhs, _) => !(!bc.is_integer1() && bc.is_float1() && kind.is_arith()) || vacant
            >= ctx.need_number(Some(ret), lhs, lhs),
        BcOp::BinOpIr(kind, ret, _, rhs) => !(!bc.is_integer2() && bc.is_float2() && kind.is_arith()) || vacant
            >= ctx.need_number(Some(ret), rhs, rhs),
        BcOp::Cmp(_, _, lhs, rhs, _) => !bc.is_binary_float() || vacant >= ctx.need_number(None, lhs, rhs),
        _ => true,
    }
}

/// A context in which no slot is linked has room for every rule.
pub proof fn lemma_room_when_flushed(fnstore: &FnStore, ctx: BBView, op: BcOp, bc: Bc, follow: Follow)
    requires
        ctx.wf(),
        ctx.vacant_count() == 14,
        forall|s: int| 0 <= s < ctx.slots.len() ==> ctx.slots[s] is Stack,
        fits(op, follow, ctx),
    ensures
        has_room_spec(fnstore, ctx, op, bc, follow),
{
    match op {
        BcOp::MethodCall(ret, _) => {
            match follow {
                Follow::Args { info, cached } => {
                    assert(ctx.dealloc(ret) == ctx);
                    assert(ctx.written_back(info.recv) == ctx);
                },
                _ => {},
            }
        },
        _ => {},
    }
}

/// The instruction names only slots of the context, and is followed by
/// what its rule needs.
pub open spec fn fits(op: BcOp, follow: Follow, ctx: BBView) -> bool {
    inst_ok_spec(op, follow, ctx.slots.len() as usize)
}

/// The operands that come from slots are slots of the context.
pub open spec fn mode_fits(mode: BinOpMode, ctx: BBView) -> bool {
    mode_ok(mode, ctx.slots.len() as usize)
}

impl CodegenView {
    #[verifier::opaque]
    pub open spec fn xmm_read_binary(
        self,
        ctx: BBView,
        lhs: SlotId,
        rhs: SlotId,
        class1: ClassId,
        class2: ClassId,
        pc: BcPc,
    ) -> (CodegenView, BBView) {
        let c = self;
        let (c, ctx) = c.xmm_read_assume(ctx, lhs, class1, pc);
        let (c, ctx) = if lhs != rhs {
            let (c, ctx) = c.xmm_read_assume(ctx, rhs, class2, pc);
            (c, ctx)
        } else {
            (c, ctx)
        };
        (c, ctx)
    }

    #[verifier::opaque]
    pub open spec fn compile_load(self, ctx: BBView, op: BcOp, pc: BcPc) -> (CodegenView, BBView) {
        let c = self;
        let (c, ctx) = match op {
            BcOp::Integer(ret, i) => {
                let ctx = ctx.dealloc(ret);
                let c = c.emit(seq![Movq(slot(ret), fixnum_imm32(i))]);
                (c, ctx)
            },
            BcOp::Symbol(ret, id) => {
                let ctx = ctx.dealloc(ret);
                let c = c.emit(seq![Movq(R(Rax), symbol_imm(id))]);
                let c = c.store_rax(ret);
                (c, ctx)
            },
            BcOp::Literal(ret, val) => {
                let ctx = ctx.dealloc(ret);
                let (c, ctx) = if is_packed(val) {
                    let c = c.emit(seq![Movq(R(Rax), Imm64(val.0))]);
                    (c, ctx)
                } else {
                    let xmm_using = ctx.using();
                    let c = c.xmm_save(xmm_using);
                    let c = c.emit(seq![Movq(R(Rdi), Imm64(val.0)), Movq(R(Rax), Func(RuntimeFn::Dup)), Call(Target::Reg(Rax))]);
                    let c = c.xmm_restore(xmm_using);
                    (c, ctx)
                };
                let c = c.store_rax(ret);
                (c, ctx)
            },
            BcOp::Nil(ret) => {
                let ctx = ctx.dealloc(ret);
                let c = c.emit(seq![Movq(slot(ret), Imm64(NIL_VALUE))]);
                (c, ctx)
            },
            BcOp::LoadConst(ret, id) => {
                let ctx = ctx.dealloc(ret);
                let xmm_using = ctx.using();
                let c = c.load_constant(ret, id, pc, xmm_using);
                (c, ctx)
            },
            BcOp::StoreConst(src, id) => {
                let (c, ctx) = c.write_back_slot(ctx, src);
                let xmm_using = ctx.using();
                let c = c.jit_store_constant(id, src, xmm_using);
                (c, ctx)
            },
            BcOp::LoadIvar(ret, id) => {
                let ctx = ctx.dealloc(ret);
                let cached_class = c.nth(0);
                let c = c.constant(Data::I32(0));
                let cached_ivarid = c.nth(0);
                let c = c.constant(Data::I32(0));
                let xmm_using = ctx.using();
                let c = c.xmm_save(xmm_using);
                let c = c.emit(seq![
            Movq(R(Rdi), Ind(Rbp, NEG_SELF)),
            Movq(R(Rsi), Imm(id.0 as i64)),
            Movq(R(Rdx), R(R12)),
            Lea(R(Rcx), Rip(cached_class)),
            Lea(R(R8), Rip(cached_ivarid)),
            Movq(R(Rax), Func(RuntimeFn::GetInstanceVarWithCache)),
            Call(Target::Reg(Rax)),
        ]);
                let c = c.xmm_restore(xmm_using);
                let c = c.store_rax(ret);
                (c, ctx)
            },
            BcOp::StoreIvar(src, id) => {
                let (c, ctx) = c.write_back_slot(ctx, src);
                let cached_class = c.nth(0);
                let c = c.constant(Data::I32(0));
                let cached_ivarid = c.nth(0);
                let c = c.constant(Data::I32(0));
                let xmm_using = ctx.using();
                let c = c.xmm_save(xmm_using);
                let c = c.emit(seq![
            Movq(R(Rdi), R(R12)),
            Movq(R(Rsi), Ind(Rbp, NEG_SELF)),
            Movq(R(Rdx), Imm(id.0 as i64)),
            Movq(R(Rcx), slot(src)),
            Lea(R(R8), Rip(cached_class)),
            Lea(R(R9), Rip(cached_ivarid)),
            Movq(R(Rax), Func(RuntimeFn::SetInstanceVarWithCache)),
            Call(Target::Reg(Rax)),
        ]);
                let c = c.xmm_restore(xmm_using);
                let c = c.handle_error(pc);
                (c, ctx)
            },
            _ => {
                (c, ctx)
            },
        };
        (c, ctx)
    }

    #[verifier::opaque]
    pub open spec fn compile_aggregate(
        self,
        ctx: BBView,
        op: BcOp,
        pc: BcPc,
    ) -> (CodegenView, BBView) {
        let c = self;
        let (c, ctx) = match op {
            BcOp::Array(ret, src, len) => {
                let (c, ctx) = c.write_back_range(ctx, src, len);
                let ctx = ctx.dealloc(ret);
                let xmm_using = ctx.using();
                let c = c.xmm_save(xmm_using);
                let c = c.emit(seq![
            Lea(R(Rdi), slot(src)),
            Movq(R(Rsi), Imm(len as i64)),
            Movq(R(Rax), Func(RuntimeFn::GenArray)),
            Call(Target::Reg(Rax)),
        ]);
                let c = c.xmm_restore(xmm_using);
                let c = c.store_rax(ret);
                (c, ctx)
            },
            BcOp::Index(ret, base, idx) => {
                let (c, ctx) = c.write_back_slot(ctx, base);
                let (c, ctx) = c.write_back_slot(ctx, idx);
                let ctx = ctx.dealloc(ret);
                let xmm_using = ctx.using();
                let c = c.jit_get_index(ret, base, idx, pc, xmm_using);
                (c, ctx)
            },
            BcOp::IndexAssign(src, base, idx) => {
                let (c, ctx) = c.write_back_slot(ctx, base);
                let (c, ctx) = c.write_back_slot(ctx, idx);
                let (c, ctx) = c.write_back_slot(ctx, src);
                let xmm_using = ctx.using();
                let c = c.jit_index_assign(src, base, idx, pc, xmm_using);
                (c, ctx)
            },
            BcOp::ConcatStr(ret, arg, len) => {
                let (c, ctx) = c.write_back_range(ctx, arg, len);
                let ctx = ctx.dealloc(ret);
                let xmm_using = ctx.using();
                let c = c.xmm_save(xmm_using);
                let c = c.emit(seq![
            Movq(R(Rdi), R(R12)),
            Lea(R(Rsi), slot(arg)),
            Movq(R(Rdx), Imm(len as i64)),
            Movq(R(Rax), Func(RuntimeFn::ConcatenateString)),
            Call(Target::Reg(Rax)),
        ]);
                let c = c.xmm_restore(xmm_using);
                let c = c.store_rax(ret);
                (c, ctx)
            },
            _ => {
                (c, ctx)
            },
        };
        (c, ctx)
    }

    #[verifier::opaque]
    pub open spec fn compile_generic_binop(
        self,
        ctx: BBView,
        kind: BinOpK,
        ret: SlotId,
        mode: BinOpMode,
        pc: BcPc,
    ) -> (CodegenView, BBView) {
        let c = self;
        let (c, ctx) = c.write_back_operands(ctx, mode);
        let ctx = ctx.dealloc(ret);
        let xmm_using = ctx.using();
        let c = c.load_binary_args_with_mode(mode);
        let c = c.gen_binop_kind(xmm_using, pc, kind, ret);
        (c, ctx)
    }

    #[verifier::opaque]
    pub open spec fn write_back_operands(
        self,
        ctx: BBView,
        mode: BinOpMode,
    ) -> (CodegenView, BBView) {
        let c = self;
        let (c, ctx) = match mode {
            BinOpMode::RR(lhs, rhs) => {
                let (c, ctx) = c.write_back_slot(ctx, lhs);
                let (c, ctx) = c.write_back_slot(ctx, rhs);
                (c, ctx)
            },
            BinOpMode::RI(lhs, _) => {
                let (c, ctx) = c.write_back_slot(ctx, lhs);
                (c, ctx)
            },
            BinOpMode::IR(_, rhs) => {
                let (c, ctx) = c.write_back_slot(ctx, rhs);
                (c, ctx)
            },
        };
        (c, ctx)
    }

    #[verifier::opaque]
    pub open spec fn compile_integer_binop(
        self,
        ctx: BBView,
        kind: BinOpK,
        ret: SlotId,
        mode: BinOpMode,
        pc: BcPc,
    ) -> (CodegenView, BBView) {
        let c = self;
        let (c, ctx) = c.write_back_operands(ctx, mode);
        let ctx = ctx.dealloc(ret);
        let wb = ctx.write_back();
        let xmm_using = ctx.using();
        let c = c.gen_binop_integer(pc, kind, ret, mode, wb, xmm_using);
        (c, ctx)
    }

    #[verifier::opaque]
    pub open spec fn compile_binop(
        self,
        ctx: BBView,
        op: BcOp,
        bc: Bc,
        pc: BcPc,
    ) -> (CodegenView, BBView) {
        let c = self;
        let (c, ctx) = match op {
            BcOp::Neg(dst, src) => {
                let (c, ctx) = if bc.is_float1() {
                    let fsrc = ctx.read_reg(src);
                    let (c, ctx) = c.xmm_read_assume_float(ctx, src, pc);
                    let fdst = ctx.xmm_write(dst).1;
                    let ctx = ctx.xmm_write(dst).0;
                    let c = c.xmm_mov(fsrc, fdst);
                    let imm = c.nth(0);
                    let c = c.constant(Data::I64(SIGN_MASK));
                    let c = c.emit(seq![Xorps(xmm(fdst), Rip(imm))]);
                    (c, ctx)
                } else {
                    let (c, ctx) = c.write_back_slot(ctx, src);
                    let ctx = ctx.dealloc(dst);
                    let xmm_using = ctx.using();
                    let c = c.emit(seq![Movq(R(Rdi), slot(src))]);
                    let c = c.xmm_save(xmm_using);
                    let c = c.call_unop(RuntimeFn::NegValue);
                    let c = c.xmm_restore(xmm_using);
                    let c = c.handle_error(pc);
                    let c = c.store_rax(dst);
                    (c, ctx)
                };
                (c, ctx)
            },
            BcOp::BinOp(kind, ret, lhs, rhs) => {
                let (c, ctx) = if bc.is_binary_integer() {
                    let (c, ctx) = c.compile_integer_binop(ctx, kind, ret, BinOpMode::RR(lhs, rhs), pc);
                    (c, ctx)
                } else if bc.is_binary_float() && kind.is_arith() {
                    let (c, ctx) = c.xmm_read_binary(ctx, lhs, rhs, bc.classid1(), bc.classid2(), pc);
                    let flhs = ctx.mode(lhs).xmm()->0;
                    let frhs = ctx.mode(rhs).xmm()->0;
                    let fret = ctx.xmm_write(ret).1;
                    let ctx = ctx.xmm_write(ret).0;
                    let c = c.gen_binop_float(kind, fret, flhs, frhs);
                    (c, ctx)
                } else {
                    let (c, ctx) = c.compile_generic_binop(ctx, kind, ret, BinOpMode::RR(lhs, rhs), pc);
                    (c, ctx)
                };
                (c, ctx)
            },
            BcOp::BinOpRi(kind, ret, lhs, rhs) => {
                let (c, ctx) = if bc.is_integer1() {
                    let (c, ctx) = c.compile_integer_binop(ctx, kind, ret, BinOpMode::RI(lhs, rhs), pc);
                    (c, ctx)
                } else if bc.is_float1() && kind.is_arith() {
                    let flhs = ctx.read_reg(lhs);
                    let (c, ctx) = c.xmm_read_assume_float(ctx, lhs, pc);
                    let fret = ctx.xmm_write(ret).1;
                    let ctx = ctx.xmm_write(ret).0;
                    let c = c.gen_binop_float_ri(kind, fret, flhs, rhs);
                    (c, ctx)
                } else {
                    let (c, ctx) = c.compile_generic_binop(ctx, kind, ret, BinOpMode::RI(lhs, rhs), pc);
                    (c, ctx)
                };
                (c, ctx)
            },
            BcOp::BinOpIr(kind, ret, lhs, rhs) => {
                let (c, ctx) = if bc.is_integer2() {
                    let (c, ctx) = c.compile_integer_binop(ctx, kind, ret, BinOpMode::IR(lhs, rhs), pc);
                    (c, ctx)
                } else if bc.is_float2() && kind.is_arith() {
                    let frhs = ctx.read_reg(rhs);
                    let (c, ctx) = c.xmm_read_assume_float(ctx, rhs, pc);
                    let fret = ctx.xmm_write(ret).1;
                    let ctx = ctx.xmm_write(ret).0;
                    let c = c.gen_binop_float_ir(kind, fret, lhs, frhs);
                    (c, ctx)
                } else {
                    let (c, ctx) = c.compile_generic_binop(ctx, kind, ret, BinOpMode::IR(lhs, rhs), pc);
                    (c, ctx)
                };
                (c, ctx)
            },
            _ => {
                (c, ctx)
            },
        };
        (c, ctx)
    }

    #[verifier::opaque]
    pub open spec fn compile_compare(
        self,
        ctx: BBView,
        op: BcOp,
        bc: Bc,
        pc: BcPc,
        follow: Follow,
        branch_dest: DestLabel,
    ) -> (CodegenView, BBView) {
        let c = self;
        let (c, ctx) = match op {
            BcOp::Cmp(kind, ret, lhs, rhs, optimizable) => {
                let (c, ctx) = if bc.is_binary_float() {
                    let (c, ctx) = c.xmm_read_binary(ctx, lhs, rhs, bc.classid1(), bc.classid2(), pc);
                    let flhs = ctx.mode(lhs).xmm()->0;
                    let frhs = ctx.mode(rhs).xmm()->0;
                    let ctx = ctx.dealloc(ret);
                    let c = c.emit(seq![Xorq(R(Rax), R(Rax)), Ucomisd(xmm(flhs), xmm(frhs))]);
                    let (c, ctx) = match follow {
                        Follow::Branch { kind: brkind } => {
                            let (c, ctx) = if optimizable {
                                let c = c.gen_cmp_float_opt(kind, branch_dest, brkind);
                                (c, ctx)
                            } else {
                                let c = c.setflag_float(kind);
                                let c = c.store_rax(ret);
                                (c, ctx)
                            };
                            (c, ctx)
                        },
                        _ => {
                            let c = c.setflag_float(kind);
                            let c = c.store_rax(ret);
                            (c, ctx)
                        },
                    };
                    (c, ctx)
                } else {
                    let generic = c.nth(0);
                    let c = c.label();
                    let (c, ctx) = c.write_back_slot(ctx, lhs);
                    let (c, ctx) = c.write_back_slot(ctx, rhs);
                    let ctx = ctx.dealloc(ret);
                    let xmm_using = ctx.using();
                    let c = c.gen_cmp_prep(lhs, rhs, generic);
                    let (c, ctx) = match follow {
                        Follow::Branch { kind: brkind } => {
                            let (c, ctx) = if optimizable {
                                let c = c.emit(seq![Cmpq(R(Rdi), R(Rsi))]);
                                let c = c.gen_cmp_int_opt(kind, branch_dest, generic, brkind, xmm_using);
                                (c, ctx)
                            } else {
                                let c = c.gen_cmp_kind(kind, generic, ret, xmm_using);
                                (c, ctx)
                            };
                            (c, ctx)
                        },
                        _ => {
                            let c = c.gen_cmp_kind(kind, generic, ret, xmm_using);
                            (c, ctx)
                        },
                    };
                    (c, ctx)
                };
                (c, ctx)
            },
            BcOp::Cmpri(kind, ret, lhs, rhs, optimizable) => {
                let generic = c.nth(0);
                let c = c.label();
                let (c, ctx) = c.write_back_slot(ctx, lhs);
                let ctx = ctx.dealloc(ret);
                let xmm_using = ctx.using();
                let c = c.gen_cmpri_prep(lhs, rhs, generic);
                let (c, ctx) = match follow {
                    Follow::Branch { kind: brkind } => {
                        let (c, ctx) = if optimizable {
                            let c = c.emit(seq![Cmpq(R(Rdi), R(Rsi))]);
                            let c = c.gen_cmp_int_opt(kind, branch_dest, generic, brkind, xmm_using);
                            (c, ctx)
                        } else {
                            let c = c.gen_cmp_kind(kind, generic, ret, xmm_using);
                            (c, ctx)
                        };
                        (c, ctx)
                    },
                    _ => {
                        let c = c.gen_cmp_kind(kind, generic, ret, xmm_using);
                        (c, ctx)
                    },
                };
                (c, ctx)
            },
            _ => {
                (c, ctx)
            },
        };
        (c, ctx)
    }

    #[verifier::opaque]
    pub open spec fn compile_control(
        self,
        fnstore: &FnStore,
        ctx: BBView,
        op: BcOp,
        pc: BcPc,
        follow: Follow,
        branch_dest: DestLabel,
    ) -> (CodegenView, BBView) {
        let c = self;
        let (c, ctx) = match op {
            BcOp::Mov(dst, src) => {
                let (c, ctx) = c.copy_slot(ctx, src, dst);
                (c, ctx)
            },
            BcOp::Ret(lhs) => {
                let (c, ctx) = c.write_back_slot(ctx, lhs);
                let c = c.emit(seq![Movq(R(Rax), slot(lhs))]);
                let c = c.epilogue();
                (c, ctx)
            },
            BcOp::Br(_) => {
                let c = c.emit(seq![Jmp(Target::Label(branch_dest))]);
                (c, ctx)
            },
            BcOp::CondBr(reg, _, _, kind) => {
                let (c, ctx) = c.write_back_slot(ctx, reg);
                let c = c.gen_cond_br(reg, branch_dest, kind);
                (c, ctx)
            },
            BcOp::MethodCall(ret, name) => {
                let (c, ctx) = match follow {
                    Follow::Args { info, cached } => {
                        let (c, ctx) = c.gen_method_call(fnstore, ctx, info, ret, name, pc, cached);
                        (c, ctx)
                    },
                    _ => {
                        (c, ctx)
                    },
                };
                (c, ctx)
            },
            BcOp::Yield(ret, args, len) => {
                let (c, ctx) = c.write_back_range(ctx, args, len);
                let ctx = ctx.dealloc(ret);
                let c = c.gen_yield(ctx, args, len, ret, pc);
                (c, ctx)
            },
            BcOp::MethodDef(name, func) => {
                let class_version = c.class_version;
                let xmm_using = ctx.using();
                let c = c.xmm_save(xmm_using);
                let c = c.emit(seq![
            Addl(Rip(class_version), Imm(1)),
            Movq(R(Rdi), R(Rbx)),
            Movq(R(Rsi), R(R12)),
            Movq(R(Rdx), Imm(name.0 as i64)),
            Movq(R(Rcx), Imm(func.0 as i64)),
            Movq(R(Rax), Func(RuntimeFn::DefineMethod)),
            Call(Target::Reg(Rax)),
        ]);
                let c = c.xmm_restore(xmm_using);
                (c, ctx)
            },
            _ => {
                (c, ctx)
            },
        };
        (c, ctx)
    }

    #[verifier::opaque]
    pub open spec fn compile_inst(
        self,
        fnstore: &FnStore,
        ctx: BBView,
        op: BcOp,
        bc: Bc,
        pc: BcPc,
        follow: Follow,
        branch_dest: DestLabel,
    ) -> (CodegenView, BBView) {
        let c = self;
        let (c, ctx) = match op {
            BcOp::Integer(_, _) => {
                let (c, ctx) = c.compile_load(ctx, op, pc);
                (c, ctx)
            },
            BcOp::Symbol(_, _) => {
                let (c, ctx) = c.compile_load(ctx, op, pc);
                (c, ctx)
            },
            BcOp::Literal(_, _) => {
                let (c, ctx) = c.compile_load(ctx, op, pc);
                (c, ctx)
            },
            BcOp::Nil(_) => {
                let (c, ctx) = c.compile_load(ctx, op, pc);
                (c, ctx)
            },
            BcOp::LoadConst(_, _) => {
                let (c, ctx) = c.compile_load(ctx, op, pc);
                (c, ctx)
            },
            BcOp::StoreConst(_, _) => {
                let (c, ctx) = c.compile_load(ctx, op, pc);
                (c, ctx)
            },
            BcOp::LoadIvar(_, _) => {
                let (c, ctx) = c.compile_load(ctx, op, pc);
                (c, ctx)
            },
            BcOp::StoreIvar(_, _) => {
                let (c, ctx) = c.compile_load(ctx, op, pc);
                (c, ctx)
            },
            BcOp::Array(_, _, _) => {
                let (c, ctx) = c.compile_aggregate(ctx, op, pc);
                (c, ctx)
            },
            BcOp::Index(_, _, _) => {
                let (c, ctx) = c.compile_aggregate(ctx, op, pc);
                (c, ctx)
            },
            BcOp::IndexAssign(_, _, _) => {
                let (c, ctx) = c.compile_aggregate(ctx, op, pc);
                (c, ctx)
            },
            BcOp::ConcatStr(_, _, _) => {
                let (c, ctx) = c.compile_aggregate(ctx, op, pc);
                (c, ctx)
            },
            BcOp::Neg(_, _) => {
                let (c, ctx) = c.compile_binop(ctx, op, bc, pc);
                (c, ctx)
            },
            BcOp::BinOp(_, _, _, _) => {
                let (c, ctx) = c.compile_binop(ctx, op, bc, pc);
                (c, ctx)
            },
            BcOp::BinOpRi(_, _, _, _) => {
                let (c, ctx) = c.compile_binop(ctx, op, bc, pc);
                (c, ctx)
            },
            BcOp::BinOpIr(_, _, _, _) => {
                let (c, ctx) = c.compile_binop(ctx, op, bc, pc);
                (c, ctx)
            },
            BcOp::Cmp(_, _, _, _, _) => {
                let (c, ctx) = c.compile_compare(ctx, op, bc, pc, follow, branch_dest);
                (c, ctx)
            },
            BcOp::Cmpri(_, _, _, _, _) => {
                let (c, ctx) = c.compile_compare(ctx, op, bc, pc, follow, branch_dest);
                (c, ctx)
            },
            BcOp::LoopStart(_) => {
                (c, ctx)
            },
            BcOp::LoopEnd => {
                (c, ctx)
            },
            BcOp::MethodArgs(_, _, _) => {
                (c, ctx)
            },
            _ => {
                let (c, ctx) = c.compile_control(fnstore, ctx, op, pc, follow, branch_dest);
                (c, ctx)
            },
        };
        (c, ctx)
    }
}

impl Codegen {
    /// Brings both operands of a binary operation into xmm registers, each
    /// under the assumption that type feedback makes of it.
    pub fn xmm_read_binary(
        &mut self,
        ctx: &mut BBContext,
        lhs: SlotId,
        rhs: SlotId,
        class1: ClassId,
        class2: ClassId,
        pc: BcPc,
    )
        requires
            old(ctx)@.wf(),
            lhs.0 < old(ctx)@.slots.len(),
            rhs.0 < old(ctx)@.slots.len(),
            old(ctx)@.vacant_count() >= old(ctx)@.need_reads(lhs, rhs),
        ensures
            (final(self)@, final(ctx)@) == old(self)@.xmm_read_binary(old(ctx)@, lhs, rhs, class1, class2, pc),
            final(ctx)@.wf(),
            final(ctx)@.slots.len() == old(ctx)@.slots.len(),
            final(ctx)@.vacant_count() >= old(ctx)@.vacant_count() - old(ctx)@.need_reads(lhs, rhs),
            final(ctx)@.keeps_owners(old(ctx)@),
            old(ctx)@.mode(lhs) is Stack ==> final(ctx)@.sole_owner(lhs),
            old(ctx)@.mode(rhs) is Stack ==> final(ctx)@.sole_owner(rhs),
            final(ctx)@.linked(lhs.0 as int),
            final(ctx)@.linked(rhs.0 as int),
    {
        reveal(CodegenView::xmm_read_binary);
        let l = self.xmm_read_assume(ctx, lhs, class1, pc);
        if lhs != rhs {
            let r2 = self.xmm_read_assume(ctx, rhs, class2, pc);
        }
    }

    /// The rules of the instructions that set a slot from a constant, a
    /// literal or `nil`, and of those that read and write constants and
    /// instance variables.
    pub fn compile_load(&mut self, ctx: &mut BBContext, op: BcOp, pc: BcPc)
        requires
            pc.ok(),
            ready(old(ctx)@),
            fits(op, Follow::Nothing, old(ctx)@),
        ensures
            (final(self)@, final(ctx)@) == old(self)@.compile_load(old(ctx)@, op, pc),
            final(ctx)@.wf(),
            final(ctx)@.slots.len() == old(ctx)@.slots.len(),
    {
        reveal(CodegenView::compile_load);
        match op {
            BcOp::Integer(ret, i) => {
                ctx.dealloc_xmm(ret);
                self.emit_one(Movq(slot(ret), fixnum_imm32(i)));
            },
            BcOp::Symbol(ret, id) => {
                ctx.dealloc_xmm(ret);
                self.emit_one(Movq(R(Rax), symbol_imm(id)));
                self.store_rax(ret);
            },
            BcOp::Literal(ret, val) => {
                ctx.dealloc_xmm(ret);
                if is_packed(val) {
                    self.emit_one(Movq(R(Rax), Imm64(val.0)));
                } else {
                    let xmm_using = ctx.get_xmm_using();
                    proof {
                        lemma_using_ok(ctx@);
                    }
                    self.xmm_save(&xmm_using);
                    self.emit(vec![Movq(R(Rdi), Imm64(val.0)), Movq(R(Rax), Func(RuntimeFn::Dup)), Call(Target::Reg(Rax))]);
                    self.xmm_restore(&xmm_using);
                }
                self.store_rax(ret);
            },
            BcOp::Nil(ret) => {
                ctx.dealloc_xmm(ret);
                self.emit_one(Movq(slot(ret), Imm64(NIL_VALUE)));
            },
            BcOp::LoadConst(ret, id) => {
                ctx.dealloc_xmm(ret);
                let xmm_using = ctx.get_xmm_using();
                proof {
                    lemma_using_ok(ctx@);
                }
                self.load_constant(ret, id, pc, &xmm_using);
            },
            BcOp::StoreConst(src, id) => {
                self.write_back_slot(ctx, src);
                let xmm_using = ctx.get_xmm_using();
                proof {
                    lemma_using_ok(ctx@);
                }
                self.jit_store_constant(id, src, &xmm_using);
            },
            BcOp::LoadIvar(ret, id) => {
                ctx.dealloc_xmm(ret);
                let cached_class = self.jit.const_i32(0);
                let cached_ivarid = self.jit.const_i32(0);
                let xmm_using = ctx.get_xmm_using();
                proof {
                    lemma_using_ok(ctx@);
                }
                self.xmm_save(&xmm_using);
                self.emit(vec![
                    Movq(R(Rdi), Ind(Rbp, NEG_SELF)),
                    Movq(R(Rsi), Imm(id.0 as i64)),
                    Movq(R(Rdx), R(R12)),
                    Lea(R(Rcx), Rip(cached_class)),
                    Lea(R(R8), Rip(cached_ivarid)),
                    Movq(R(Rax), Func(RuntimeFn::GetInstanceVarWithCache)),
                    Call(Target::Reg(Rax)),
                ]);
                self.xmm_restore(&xmm_using);
                self.store_rax(ret);
            },
            BcOp::StoreIvar(src, id) => {
                self.write_back_slot(ctx, src);
                let cached_class = self.jit.const_i32(0);
                let cached_ivarid = self.jit.const_i32(0);
                let xmm_using = ctx.get_xmm_using();
                proof {
                    lemma_using_ok(ctx@);
                }
                self.xmm_save(&xmm_using);
                self.emit(vec![
                    Movq(R(Rdi), R(R12)),
                    Movq(R(Rsi), Ind(Rbp, NEG_SELF)),
                    Movq(R(Rdx), Imm(id.0 as i64)),
                    Movq(R(Rcx), slot(src)),
                    Lea(R(R8), Rip(cached_class)),
                    Lea(R(R9), Rip(cached_ivarid)),
                    Movq(R(Rax), Func(RuntimeFn::SetInstanceVarWithCache)),
                    Call(Target::Reg(Rax)),
                ]);
                self.xmm_restore(&xmm_using);
                self.handle_error(pc);
            },
            _ => {},
        }
    }

    /// The rules of arrays, indexing and string concatenation: the operands
    /// are written back and the runtime is called.
    pub fn compile_aggregate(&mut self, ctx: &mut BBContext, op: BcOp, pc: BcPc)
        requires
            pc.ok(),
            ready(old(ctx)@),
            fits(op, Follow::Nothing, old(ctx)@),
        ensures
            (final(self)@, final(ctx)@) == old(self)@.compile_aggregate(old(ctx)@, op, pc),
            final(ctx)@.wf(),
            final(ctx)@.slots.len() == old(ctx)@.slots.len(),
    {
        reveal(CodegenView::compile_aggregate);
        match op {
            BcOp::Array(ret, src, len) => {
                self.write_back_range(ctx, src, len);
                ctx.dealloc_xmm(ret);
                let xmm_using = ctx.get_xmm_using();
                proof {
                    lemma_using_ok(ctx@);
                }
                self.xmm_save(&xmm_using);
                self.emit(vec![
                    Lea(R(Rdi), slot(src)),
                    Movq(R(Rsi), Imm(len as i64)),
                    Movq(R(Rax), Func(RuntimeFn::GenArray)),
                    Call(Target::Reg(Rax)),
                ]);
                self.xmm_restore(&xmm_using);
                self.store_rax(ret);
            },
            BcOp::Index(ret, base, idx) => {
                self.write_back_slot(ctx, base);
                self.write_back_slot(ctx, idx);
                ctx.dealloc_xmm(ret);
                let xmm_using = ctx.get_xmm_using();
                proof {
                    lemma_using_ok(ctx@);
                }
                self.jit_get_index(ret, base, idx, pc, &xmm_using);
            },
            BcOp::IndexAssign(src, base, idx) => {
                self.write_back_slot(ctx, base);
                self.write_back_slot(ctx, idx);
                self.write_back_slot(ctx, src);
                let xmm_using = ctx.get_xmm_using();
                proof {
                    lemma_using_ok(ctx@);
                }
                self.jit_index_assign(src, base, idx, pc, &xmm_using);
            },
            BcOp::ConcatStr(ret, arg, len) => {
                self.write_back_range(ctx, arg, len);
                ctx.dealloc_xmm(ret);
                let xmm_using = ctx.get_xmm_using();
                proof {
                    lemma_using_ok(ctx@);
                }
                self.xmm_save(&xmm_using);
                self.emit(vec![
                    Movq(R(Rdi), R(R12)),
                    Lea(R(Rsi), slot(arg)),
                    Movq(R(Rdx), Imm(len as i64)),
                    Movq(R(Rax), Func(RuntimeFn::ConcatenateString)),
                    Call(Target::Reg(Rax)),
                ]);
                self.xmm_restore(&xmm_using);
                self.store_rax(ret);
            },
            _ => {},
        }
    }

    /// A binary operation without type feedback to rely on: through the
    /// runtime.
    pub fn compile_generic_binop(
        &mut self,
        ctx: &mut BBContext,
        kind: BinOpK,
        ret: SlotId,
        mode: BinOpMode,
        pc: BcPc,
    )
        requires
            pc.ok(),
            old(ctx)@.wf(),
            ret.0 < old(ctx)@.slots.len(),
            mode_fits(mode, old(ctx)@),
        ensures
            (final(self)@, final(ctx)@) == old(self)@.compile_generic_binop(old(ctx)@, kind, ret, mode, pc),
            final(ctx)@.wf(),
            final(ctx)@.slots.len() == old(ctx)@.slots.len(),
    {
        reveal(CodegenView::compile_generic_binop);
        self.write_back_operands(ctx, mode);
        ctx.dealloc_xmm(ret);
        let xmm_using = ctx.get_xmm_using();
        proof {
            lemma_using_ok(ctx@);
        }
        self.load_binary_args_with_mode(mode);
        self.gen_binop_kind(&xmm_using, pc, kind, ret);
    }

    /// Writes back the operands that come from slots.
    pub fn write_back_operands(&mut self, ctx: &mut BBContext, mode: BinOpMode)
        requires
            old(ctx)@.wf(),
            mode_fits(mode, old(ctx)@),
        ensures
            (final(self)@, final(ctx)@) == old(self)@.write_back_operands(old(ctx)@, mode),
            final(ctx)@.wf(),
            final(ctx)@.slots.len() == old(ctx)@.slots.len(),
            final(ctx)@.vacant_count() == old(ctx)@.vacant_count(),
    {
        reveal(CodegenView::write_back_operands);
        match mode {
            BinOpMode::RR(lhs, rhs) => {
                self.write_back_slot(ctx, lhs);
                self.write_back_slot(ctx, rhs);
            },
            BinOpMode::RI(lhs, _) => {
                self.write_back_slot(ctx, lhs);
            },
            BinOpMode::IR(_, rhs) => {
                self.write_back_slot(ctx, rhs);
            },
        }
    }

    /// A binary operation whose operands type feedback says are integers.
    pub fn compile_integer_binop(
        &mut self,
        ctx: &mut BBContext,
        kind: BinOpK,
        ret: SlotId,
        mode: BinOpMode,
        pc: BcPc,
    )
        requires
            pc.ok(),
            old(ctx)@.wf(),
            ret.0 < old(ctx)@.slots.len(),
            mode_fits(mode, old(ctx)@),
        ensures
            (final(self)@, final(ctx)@) == old(self)@.compile_integer_binop(old(ctx)@, kind, ret, mode, pc),
            final(ctx)@.wf(),
            final(ctx)@.slots.len() == old(ctx)@.slots.len(),
    {
        reveal(CodegenView::compile_integer_binop);
        self.write_back_operands(ctx, mode);
        ctx.dealloc_xmm(ret);
        let wb = ctx.get_write_back();
        let xmm_using = ctx.get_xmm_using();
        proof {
            lemma_using_ok(ctx@);
        }
        self.gen_binop_integer(pc, kind, ret, mode, &wb, &xmm_using);
    }

    /// The rules of negation and of the binary operations.
    ///
    /// Type feedback in the record's second word picks the form: integers,
    /// floats for the four operations of arithmetic, or the runtime.
    pub fn compile_binop(&mut self, ctx: &mut BBContext, op: BcOp, bc: Bc, pc: BcPc)
        requires
            pc.ok(),
            ready(old(ctx)@),
            old(ctx)@.vacant_count() >= regs_needed(old(ctx)@, op, bc),
            fits(op, Follow::Nothing, old(ctx)@),
        ensures
            (final(self)@, final(ctx)@) == old(self)@.compile_binop(old(ctx)@, op, bc, pc),
            final(ctx)@.wf(),
            final(ctx)@.slots.len() == old(ctx)@.slots.len(),
    {
        reveal(CodegenView::compile_binop);
        match op {
            BcOp::Neg(dst, src) => {
                if bc.is_float1() {
                    let fsrc = self.xmm_read_assume_float(ctx, src, pc);
                    proof {
                        ctx@.lemma_can_write(old(ctx)@, dst, src, src);
                    }
                    let fdst = ctx.xmm_write(dst);
                    self.xmm_mov(fsrc, fdst);
                    let imm = self.jit.const_i64(SIGN_MASK);
                    self.emit_one(Xorps(xmm(fdst), Rip(imm)));
                } else {
                    self.write_back_slot(ctx, src);
                    ctx.dealloc_xmm(dst);
                    let xmm_using = ctx.get_xmm_using();
                    proof {
                        lemma_using_ok(ctx@);
                    }
                    self.emit_one(Movq(R(Rdi), slot(src)));
                    self.xmm_save(&xmm_using);
                    self.call_unop(RuntimeFn::NegValue);
                    self.xmm_restore(&xmm_using);
                    self.handle_error(pc);
                    self.store_rax(dst);
                }
            },
            BcOp::BinOp(kind, ret, lhs, rhs) => {
                if bc.is_binary_integer() {
                    self.compile_integer_binop(ctx, kind, ret, BinOpMode::RR(lhs, rhs), pc);
                } else if bc.is_binary_float() && kind.is_arith() {
                    self.xmm_read_binary(ctx, lhs, rhs, bc.classid1(), bc.classid2(), pc);
                    let flhs = ctx.linked_xmm(lhs);
                    let frhs = ctx.linked_xmm(rhs);
                    proof {
                        ctx@.lemma_can_write(old(ctx)@, ret, lhs, rhs);
                    }
                    let fret = ctx.xmm_write(ret);
                    self.gen_binop_float(kind, fret, flhs, frhs);
                } else {
                    self.compile_generic_binop(ctx, kind, ret, BinOpMode::RR(lhs, rhs), pc);
                }
            },
            BcOp::BinOpRi(kind, ret, lhs, rhs) => {
                if bc.is_integer1() {
                    self.compile_integer_binop(ctx, kind, ret, BinOpMode::RI(lhs, rhs), pc);
                } else if bc.is_float1() && kind.is_arith() {
                    let flhs = self.xmm_read_assume_float(ctx, lhs, pc);
                    proof {
                        ctx@.lemma_can_write(old(ctx)@, ret, lhs, lhs);
                    }
                    let fret = ctx.xmm_write(ret);
                    self.gen_binop_float_ri(kind, fret, flhs, rhs);
                } else {
                    self.compile_generic_binop(ctx, kind, ret, BinOpMode::RI(lhs, rhs), pc);
                }
            },
            BcOp::BinOpIr(kind, ret, lhs, rhs) => {
                if bc.is_integer2() {
                    self.compile_integer_binop(ctx, kind, ret, BinOpMode::IR(lhs, rhs), pc);
                } else if bc.is_float2() && kind.is_arith() {
                    let frhs = self.xmm_read_assume_float(ctx, rhs, pc);
                    proof {
                        ctx@.lemma_can_write(old(ctx)@, ret, rhs, rhs);
                    }
                    let fret = ctx.xmm_write(ret);
                    self.gen_binop_float_ir(kind, fret, lhs, frhs);
                } else {
                    self.compile_generic_binop(ctx, kind, ret, BinOpMode::IR(lhs, rhs), pc);
                }
            },
            _ => {},
        }
    }

    /// The rules of the comparisons.
    ///
    /// A comparison that the next record consumes as a branch condition is
    /// fused with that branch: a compare, a conditional jump, and no boolean.
    /// Else the comparison stores `true` or `false`.
    pub fn compile_compare(
        &mut self,
        ctx: &mut BBContext,
        op: BcOp,
        bc: Bc,
        pc: BcPc,
        follow: Follow,
        branch_dest: DestLabel,
    )
        requires
            pc.ok(),
            ready(old(ctx)@),
            old(ctx)@.vacant_count() >= regs_needed(old(ctx)@, op, bc),
            fits(op, follow, old(ctx)@),
        ensures
            (final(self)@, final(ctx)@) == old(self)@.compile_compare(old(ctx)@, op, bc, pc, follow, branch_dest),
            final(ctx)@.wf(),
            final(ctx)@.slots.len() == old(ctx)@.slots.len(),
    {
        reveal(CodegenView::compile_compare);
        match op {
            BcOp::Cmp(kind, ret, lhs, rhs, optimizable) => {
                if bc.is_binary_float() {
                    self.xmm_read_binary(ctx, lhs, rhs, bc.classid1(), bc.classid2(), pc);
                    let flhs = ctx.linked_xmm(lhs);
                    let frhs = ctx.linked_xmm(rhs);
                    ctx.dealloc_xmm(ret);
                    self.emit(vec![Xorq(R(Rax), R(Rax)), Ucomisd(xmm(flhs), xmm(frhs))]);
                    match follow {
                        Follow::Branch { kind: brkind } => {
                            if optimizable {
                                self.gen_cmp_float_opt(kind, branch_dest, brkind);
                            } else {
                                self.setflag_float(kind);
                                self.store_rax(ret);
                            }
                        },
                        _ => {
                            self.setflag_float(kind);
                            self.store_rax(ret);
                        },
                    }
                } else {
                    let generic = self.label();
                    self.write_back_slot(ctx, lhs);
                    self.write_back_slot(ctx, rhs);
                    ctx.dealloc_xmm(ret);
                    let xmm_using = ctx.get_xmm_using();
                    proof {
                        lemma_using_ok(ctx@);
                    }
                    self.gen_cmp_prep(lhs, rhs, generic);
                    match follow {
                        Follow::Branch { kind: brkind } => {
                            if optimizable {
                                self.emit_one(Cmpq(R(Rdi), R(Rsi)));
                                self.gen_cmp_int_opt(kind, branch_dest, generic, brkind, &xmm_using);
                            } else {
                                self.gen_cmp_kind(kind, generic, ret, &xmm_using);
                            }
                        },
                        _ => {
                            self.gen_cmp_kind(kind, generic, ret, &xmm_using);
                        },
                    }
                }
            },
            BcOp::Cmpri(kind, ret, lhs, rhs, optimizable) => {
                let generic = self.label();
                self.write_back_slot(ctx, lhs);
                ctx.dealloc_xmm(ret);
                let xmm_using = ctx.get_xmm_using();
                proof {
                    lemma_using_ok(ctx@);
                }
                self.gen_cmpri_prep(lhs, rhs, generic);
                match follow {
                    Follow::Branch { kind: brkind } => {
                        if optimizable {
                            self.emit_one(Cmpq(R(Rdi), R(Rsi)));
                            self.gen_cmp_int_opt(kind, branch_dest, generic, brkind, &xmm_using);
                        } else {
                            self.gen_cmp_kind(kind, generic, ret, &xmm_using);
                        }
                    },
                    _ => {
                        self.gen_cmp_kind(kind, generic, ret, &xmm_using);
                    },
                }
            },
            _ => {},
        }
    }

    /// The rules of moves, branches, returns, calls and method definitions.
    ///
    /// - A conditional branch treats `nil` and `false` as false and every
    /// other value as true.
    /// - A method definition bumps the global class version before it calls
    /// the runtime, which makes every call site resolve again.
    pub fn compile_control(
        &mut self,
        fnstore: &FnStore,
        ctx: &mut BBContext,
        op: BcOp,
        pc: BcPc,
        follow: Follow,
        branch_dest: DestLabel,
    )
        requires
            pc.ok(),
            pc.next(1).ok(),
            ready(old(ctx)@),
            op matches BcOp::MethodCall(ret, _) ==> call_room(fnstore, old(ctx)@, ret, follow),
            fits(op, follow, old(ctx)@),
        ensures
            (final(self)@, final(ctx)@) == old(self)@.compile_control(fnstore, old(ctx)@, op, pc, follow, branch_dest),
            final(ctx)@.wf(),
            final(ctx)@.slots.len() == old(ctx)@.slots.len(),
    {
        reveal(CodegenView::compile_control);
        match op {
            BcOp::Mov(dst, src) => {
                self.copy_slot(ctx, src, dst);
            },
            BcOp::Ret(lhs) => {
                self.write_back_slot(ctx, lhs);
                self.emit_one(Movq(R(Rax), slot(lhs)));
                self.epilogue();
            },
            BcOp::Br(_) => {
                self.emit_one(Jmp(Target::Label(branch_dest)));
            },
            BcOp::CondBr(reg, _, _, kind) => {
                self.write_back_slot(ctx, reg);
                self.gen_cond_br(reg, branch_dest, kind);
            },
            BcOp::MethodCall(ret, name) => {
                match follow {
                    Follow::Args { info, cached } => {
                        self.gen_method_call(fnstore, ctx, info, ret, name, pc, cached);
                    },
                    _ => {},
                }
            },
            BcOp::Yield(ret, args, len) => {
                self.write_back_range(ctx, args, len);
                ctx.dealloc_xmm(ret);
                self.gen_yield(&*ctx, args, len, ret, pc);
            },
            BcOp::MethodDef(name, func) => {
                let class_version = self.class_version;
                let xmm_using = ctx.get_xmm_using();
                proof {
                    lemma_using_ok(ctx@);
                }
                self.xmm_save(&xmm_using);
                self.emit(vec![
                    Addl(Rip(class_version), Imm(1)),
                    Movq(R(Rdi), R(Rbx)),
                    Movq(R(Rsi), R(R12)),
                    Movq(R(Rdx), Imm(name.0 as i64)),
                    Movq(R(Rcx), Imm(func.0 as i64)),
                    Movq(R(Rax), Func(RuntimeFn::DefineMethod)),
                    Call(Target::Reg(Rax)),
                ]);
                self.xmm_restore(&xmm_using);
            },
            _ => {},
        }
    }

    /// The rule of one instruction.
    pub fn compile_inst(
        &mut self,
        fnstore: &FnStore,
        ctx: &mut BBContext,
        op: BcOp,
        bc: Bc,
        pc: BcPc,
        follow: Follow,
        branch_dest: DestLabel,
    )
        requires
            pc.ok(),
            pc.next(1).ok(),
            ready(old(ctx)@),
            has_room_spec(fnstore, old(ctx)@, op, bc, follow),
            fits(op, follow, old(ctx)@),
        ensures
            (final(self)@, final(ctx)@) == old(self)@.compile_inst(fnstore, old(ctx)@, op, bc, pc, follow, branch_dest),
            final(ctx)@.wf(),
            final(ctx)@.slots.len() == old(ctx)@.slots.len(),
    {
        reveal(CodegenView::compile_inst);
        match op {
            BcOp::Integer(_, _) => { self.compile_load(ctx, op, pc); },
            BcOp::Symbol(_, _) => { self.compile_load(ctx, op, pc); },
            BcOp::Literal(_, _) => { self.compile_load(ctx, op, pc); },
            BcOp::Nil(_) => { self.compile_load(ctx, op, pc); },
            BcOp::LoadConst(_, _) => { self.compile_load(ctx, op, pc); },
            BcOp::StoreConst(_, _) => { self.compile_load(ctx, op, pc); },
            BcOp::LoadIvar(_, _) => { self.compile_load(ctx, op, pc); },
            BcOp::StoreIvar(_, _) => { self.compile_load(ctx, op, pc); },
            BcOp::Array(_, _, _) => { self.compile_aggregate(ctx, op, pc); },
            BcOp::Index(_, _, _) => { self.compile_aggregate(ctx, op, pc); },
            BcOp::IndexAssign(_, _, _) => { self.compile_aggregate(ctx, op, pc); },
            BcOp::ConcatStr(_, _, _) => { self.compile_aggregate(ctx, op, pc); },
            BcOp::Neg(_, _) => { self.compile_binop(ctx, op, bc, pc); },
            BcOp::BinOp(_, _, _, _) => { self.compile_binop(ctx, op, bc, pc); },
            BcOp::BinOpRi(_, _, _, _) => { self.compile_binop(ctx, op, bc, pc); },
            BcOp::BinOpIr(_, _, _, _) => { self.compile_binop(ctx, op, bc, pc); },
            BcOp::Cmp(_, _, _, _, _) => { self.compile_compare(ctx, op, bc, pc, follow, branch_dest); },
            BcOp::Cmpri(_, _, _, _, _) => { self.compile_compare(ctx, op, bc, pc, follow, branch_dest); },
            BcOp::LoopStart(_) => {},
            BcOp::LoopEnd => {},
            BcOp::MethodArgs(_, _, _) => {},
            _ => { self.compile_control(fnstore, ctx, op, pc, follow, branch_dest); },
        }
    }
}

/// The operands that come from slots exist among `n` slots.
pub open spec fn mode_ok(mode: BinOpMode, n: usize) -> bool {
    match mode {
        BinOpMode::RR(lhs, rhs) => lhs.0 < n && rhs.0 < n,
        BinOpMode::RI(lhs, _) => lhs.0 < n,
        BinOpMode::IR(_, rhs) => rhs.0 < n,
    }
}


} // verus!
