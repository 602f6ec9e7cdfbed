//! Compilation rules of the method JIT: guards, arithmetic on tagged
//! integers, arithmetic on unboxed floats, comparisons, constants, and the
//! side exits back to the interpreter.
//!
//! Fast paths go to the main page, calls into the runtime to the slow page,
//! side exits to the third page.

use vstd::prelude::*;
use crate::assembler::{Cond, Data, DestLabel, Inst, RuntimeFn, Target};
use crate::assembler::Inst::{
    Addq, Addsd, Andq, Bind, Call, Cmpq, Divsd, Jcc, Jmp, Leave, Lzcntq, Movq, Mulsd, Negq, Orq, Pushq, Ret,
    Salq, Sarq, Setcc, Shlq, Subq, Subsd, Testq, Xorq,
};
use crate::assembler::Operand::{Func, Imm, Imm64, Ind, Rip, Xmm, R};
use crate::assembler::Reg::{R12, R13, R8, Rax, Rbp, Rbx, Rcx, Rdi, Rdx, Rsi, Rsp};
use crate::bbctx::{wb_view, WriteBackView};
use crate::codegen::{fixnum_delta, fixnum_imm, Codegen, CodegenView, UNSET};
use crate::frame::{slot, xmm, OFFSET_SELF};
use crate::ids::{BcPc, ConstSiteId, IdentId, SlotId};
use crate::inst::{BinOpK, BrKind, CmpKind};
use crate::value::{float_bits_of_i16, FALSE_VALUE, NIL_VALUE};

verus! {

/// Where the operands of a binary operation come from.
#[derive(Clone, Copy, Debug, PartialEq, Eq, Structural)]
pub enum BinOpMode {
    /// Both from slots.
    RR(SlotId, SlotId),
    /// The left from a slot, the right a small integer.
    RI(SlotId, i16),
    /// The left a small integer, the right from a slot.
    IR(i16, SlotId),
}

/// The list names registers, each at most once: it has at most 14 entries,
/// each below 14.
pub open spec fn using_ok(xmm_using: Seq<usize>) -> bool {
    xmm_using.len() <= 14 && forall|i: int| 0 <= i < xmm_using.len() ==> xmm_using[i] < 14
}

/// The registers that a well-formed context has in use are a fit list.
pub proof fn lemma_using_ok(ctx: crate::bbctx::BBView)
    ensures
        using_ok(ctx.using()),
{
    lemma_using_upto(ctx, 14);
}

proof fn lemma_using_upto(ctx: crate::bbctx::BBView, n: int)
    requires
        0 <= n <= 14,
    ensures
        ctx.using_upto(n).len() <= n,
        forall|i: int| 0 <= i < ctx.using_upto(n).len() ==> ctx.using_upto(n)[i] < n,
    decreases n,
{
    if n > 0 {
        lemma_using_upto(ctx, n - 1);
    }
}

/// The bytes that a list of registers takes when saved on the stack, kept
/// a multiple of 16.
pub open spec fn save_area(len: int) -> int {
    (len + len % 2) * 8
}

/// The signed condition that holds when the comparison does.
pub open spec fn int_cond_spec(kind: CmpKind) -> Cond {
    match kind {
        CmpKind::Eq => Cond::Eq,
        CmpKind::Ne => Cond::Ne,
        CmpKind::Lt => Cond::Lt,
        CmpKind::Le => Cond::Le,
        CmpKind::Gt => Cond::Gt,
        CmpKind::Ge => Cond::Ge,
    }
}

#[verifier::when_used_as_spec(int_cond_spec)]
pub fn int_cond(kind: CmpKind) -> (c: Cond)
    ensures
        c == int_cond_spec(kind),
{
    match kind {
        CmpKind::Eq => Cond::Eq,
        CmpKind::Ne => Cond::Ne,
        CmpKind::Lt => Cond::Lt,
        CmpKind::Le => Cond::Le,
        CmpKind::Gt => Cond::Gt,
        CmpKind::Ge => Cond::Ge,
    }
}

/// The condition that holds, after an unordered floating-point comparison,
/// when the comparison does: the unsigned conditions.
pub open spec fn float_cond_spec(kind: CmpKind) -> Cond {
    match kind {
        CmpKind::Eq => Cond::Eq,
        CmpKind::Ne => Cond::Ne,
        CmpKind::Lt => Cond::B,
        CmpKind::Le => Cond::Be,
        CmpKind::Gt => Cond::A,
        CmpKind::Ge => Cond::Ae,
    }
}

#[verifier::when_used_as_spec(float_cond_spec)]
pub fn float_cond(kind: CmpKind) -> (c: Cond)
    ensures
        c == float_cond_spec(kind),
{
    match kind {
        CmpKind::Eq => Cond::Eq,
        CmpKind::Ne => Cond::Ne,
        CmpKind::Lt => Cond::B,
        CmpKind::Le => Cond::Be,
        CmpKind::Gt => Cond::A,
        CmpKind::Ge => Cond::Ae,
    }
}

/// The comparison that holds exactly when `kind` does not.
pub open spec fn opposite_spec(kind: CmpKind) -> CmpKind {
    match kind {
        CmpKind::Eq => CmpKind::Ne,
        CmpKind::Ne => CmpKind::Eq,
        CmpKind::Lt => CmpKind::Ge,
        CmpKind::Le => CmpKind::Gt,
        CmpKind::Gt => CmpKind::Le,
        CmpKind::Ge => CmpKind::Lt,
    }
}

#[verifier::when_used_as_spec(opposite_spec)]
pub fn opposite(kind: CmpKind) -> (k: CmpKind)
    ensures
        k == opposite_spec(kind),
{
    match kind {
        CmpKind::Eq => CmpKind::Ne,
        CmpKind::Ne => CmpKind::Eq,
        CmpKind::Lt => CmpKind::Ge,
        CmpKind::Le => CmpKind::Gt,
        CmpKind::Gt => CmpKind::Le,
        CmpKind::Ge => CmpKind::Lt,
    }
}

/// The runtime function that compares any two values.
pub open spec fn generic_cmp_spec(kind: CmpKind) -> RuntimeFn {
    match kind {
        CmpKind::Eq => RuntimeFn::CmpEqValues,
        CmpKind::Ne => RuntimeFn::CmpNeValues,
        CmpKind::Lt => RuntimeFn::CmpLtValues,
        CmpKind::Le => RuntimeFn::CmpLeValues,
        CmpKind::Gt => RuntimeFn::CmpGtValues,
        CmpKind::Ge => RuntimeFn::CmpGeValues,
    }
}

#[verifier::when_used_as_spec(generic_cmp_spec)]
pub fn generic_cmp(kind: CmpKind) -> (f: RuntimeFn)
    ensures
        f == generic_cmp_spec(kind),
{
    match kind {
        CmpKind::Eq => RuntimeFn::CmpEqValues,
        CmpKind::Ne => RuntimeFn::CmpNeValues,
        CmpKind::Lt => RuntimeFn::CmpLtValues,
        CmpKind::Le => RuntimeFn::CmpLeValues,
        CmpKind::Gt => RuntimeFn::CmpGtValues,
        CmpKind::Ge => RuntimeFn::CmpGeValues,
    }
}

impl CodegenView {
    /// `rax` stored to each of the slots, in order.
    pub open spec fn store_all(self, v: Seq<SlotId>) -> CodegenView
        decreases v.len(),
    {
        if v.len() == 0 {
            self
        } else {
            self.store_all(v.drop_last()).store_rax(v.last())
        }
    }

    /// The register boxed once and stored to each of the slots; nothing for
    /// an empty list.
    pub open spec fn gen_write_back_single(self, freg: u16, v: Seq<SlotId>) -> CodegenView {
        if v.len() == 0 {
            self
        } else {
            self.emit(seq![Movq(Xmm(0), xmm(freg)), Call(Target::Label(self.f64_to_val))]).store_all(v)
        }
    }

    /// Every step of a write-back, in order.
    pub open spec fn gen_write_back(self, wb: WriteBackView) -> CodegenView
        decreases wb.len(),
    {
        if wb.len() == 0 {
            self
        } else {
            self.gen_write_back(wb.drop_last()).gen_write_back_single(wb.last().0, wb.last().1)
        }
    }

    /// The registers of the list saved below the stack pointer.
    pub open spec fn xmm_save(self, xmm_using: Seq<usize>) -> CodegenView {
        if xmm_using.len() == 0 {
            self
        } else {
            self.emit(seq![Subq(R(Rsp), Imm(save_area(xmm_using.len() as int) as i64))]).emit(
                Seq::new(
                    xmm_using.len(),
                    |i: int| Movq(Ind(Rsp, (8 * i) as i64), Xmm((xmm_using[i] + 2) as u64)),
                ),
            )
        }
    }

    /// The registers of the list loaded back and the stack pointer restored.
    pub open spec fn xmm_restore(self, xmm_using: Seq<usize>) -> CodegenView {
        if xmm_using.len() == 0 {
            self
        } else {
            self.emit(
                Seq::new(
                    xmm_using.len(),
                    |i: int| Movq(Xmm((xmm_using[i] + 2) as u64), Ind(Rsp, (8 * i) as i64)),
                ),
            ).emit(seq![Addq(R(Rsp), Imm(save_area(xmm_using.len() as int) as i64))])
        }
    }

    /// The frame set up and the slots that are not arguments set to `nil`.
    pub open spec fn prologue(self, regs: usize, args: usize) -> CodegenView {
        let offset = ((regs * 8 + OFFSET_SELF + 15) / 16) * 16;
        let c = self.emit(seq![Pushq(R(Rbp)), Movq(R(Rbp), R(Rsp)), Subq(R(Rsp), Imm(offset as i64))]);
        let clear_len = regs - args;
        if clear_len > 2 {
            c.emit(seq![Movq(R(Rax), Imm64(NIL_VALUE))]).emit(
                Seq::new(clear_len as nat, |i: int| Movq(slot(SlotId((args + i) as u16)), R(Rax))),
            )
        } else {
            c.emit(
                Seq::new(
                    clear_len as nat,
                    |i: int| Movq(slot(SlotId((args + i) as u16)), Imm64(NIL_VALUE)),
                ),
            )
        }
    }
}

impl Codegen {
    /// Boxes xmm(*freg*) once and stores the value to each slot of `v`.
    pub fn gen_write_back_single(&mut self, freg: u16, v: &Vec<SlotId>)
        ensures
            final(self)@ == old(self)@.gen_write_back_single(freg, v@),
    {
        if v.len() == 0 {
            return ;
        }
        let f64_to_val = self.f64_to_val;
        self.emit(vec![Movq(Xmm(0), xmm(freg)), Call(Target::Label(f64_to_val))]);
        let ghost start = self@;
        let mut i: usize = 0;
        while i < v.len()
            invariant
                i <= v.len(),
                self@ == start.store_all(v@.take(i as int)),
            decreases v.len() - i,
        {
            proof {
                assert(v@.take(i + 1).drop_last() =~= v@.take(i as int));
            }
            self.store_rax(v[i]);
            i += 1;
        }
        assert(v@.take(v.len() as int) =~= v@);
    }

    /// Generate a code which write back all xmm registers to corresponding stack slots.
    ///
    /// xmms are not deallocated.
    pub fn gen_write_back(&mut self, wb: &Vec<(u16, Vec<SlotId>)>)
        ensures
            final(self)@ == old(self)@.gen_write_back(wb_view(wb@)),
    {
        let mut i: usize = 0;
        while i < wb.len()
            invariant
                i <= wb.len(),
                self@ == old(self)@.gen_write_back(wb_view(wb@).take(i as int)),
            decreases wb.len() - i,
        {
            proof {
                assert(wb_view(wb@).take(i + 1).drop_last() =~= wb_view(wb@).take(i as int));
            }
            self.gen_write_back_single(wb[i].0, &wb[i].1);
            i += 1;
        }
        assert(wb_view(wb@).take(wb.len() as int) =~= wb_view(wb@));
    }

    /// Saves the xmm registers in use below the stack pointer, before a call
    /// into the runtime.
    pub fn xmm_save(&mut self, xmm_using: &Vec<usize>)
        requires
            using_ok(xmm_using@),
        ensures
            final(self)@ == old(self)@.xmm_save(xmm_using@),
    {
        let len = xmm_using.len();
        if len == 0 {
            return ;
        }
        let sp_offset = (len + len % 2) * 8;
        self.emit(vec![Subq(R(Rsp), Imm(sp_offset as i64))]);
        let mut code: Vec<Inst> = Vec::new();
        let mut i: usize = 0;
        while i < len
            invariant
                i <= len,
                len == xmm_using.len(),
                using_ok(xmm_using@),
                code@.len() == i,
                forall|k: int|
                    0 <= k < i ==> code@[k] == Movq(
                        Ind(Rsp, (8 * k) as i64),
                        Xmm((xmm_using@[k] + 2) as u64),
                    ),
            decreases len - i,
        {
            code.push(Movq(Ind(Rsp, (8 * i) as i64), Xmm(xmm_using[i] as u64 + 2)));
            i += 1;
        }
        assert(code@ =~= Seq::new(
            xmm_using@.len(),
            |i: int| Movq(Ind(Rsp, (8 * i) as i64), Xmm((xmm_using@[i] + 2) as u64)),
        ));
        self.emit(code);
    }

    /// Loads the xmm registers in use back after a call into the runtime.
    pub fn xmm_restore(&mut self, xmm_using: &Vec<usize>)
        requires
            using_ok(xmm_using@),
        ensures
            final(self)@ == old(self)@.xmm_restore(xmm_using@),
    {
        let len = xmm_using.len();
        if len == 0 {
            return ;
        }
        let sp_offset = (len + len % 2) * 8;
        let mut code: Vec<Inst> = Vec::new();
        let mut i: usize = 0;
        while i < len
            invariant
                i <= len,
                len == xmm_using.len(),
                using_ok(xmm_using@),
                code@.len() == i,
                forall|k: int|
                    0 <= k < i ==> code@[k] == Movq(
                        Xmm((xmm_using@[k] + 2) as u64),
                        Ind(Rsp, (8 * k) as i64),
                    ),
            decreases len - i,
        {
            code.push(Movq(Xmm(xmm_using[i] as u64 + 2), Ind(Rsp, (8 * i) as i64)));
            i += 1;
        }
        assert(code@ =~= Seq::new(
            xmm_using@.len(),
            |i: int| Movq(Xmm((xmm_using@[i] + 2) as u64), Ind(Rsp, (8 * i) as i64)),
        ));
        self.emit(code);
        self.emit(vec![Addq(R(Rsp), Imm(sp_offset as i64))]);
    }

    /// The entry of a compiled function: sets up the frame of `regs` slots
    /// and sets every slot that is no argument to `nil`.
    pub fn prologue(&mut self, regs: usize, args: usize)
        requires
            args <= regs <= 0x1_0000,
        ensures
            final(self)@ == old(self)@.prologue(regs, args),
    {
        let offset = ((regs * 8 + 40 + 15) / 16) * 16;
        let clear_len = regs - args;
        self.emit(vec![Pushq(R(Rbp)), Movq(R(Rbp), R(Rsp)), Subq(R(Rsp), Imm(offset as i64))]);
        let by_rax = clear_len > 2;
        if by_rax {
            self.emit(vec![Movq(R(Rax), Imm64(NIL_VALUE))]);
        }
        let mut code: Vec<Inst> = Vec::new();
        let mut i: usize = 0;
        while i < clear_len
            invariant
                i <= clear_len,
                clear_len == regs - args,
                args <= regs <= 0x1_0000,
                code@.len() == i,
                forall|k: int|
                    0 <= k < i ==> code@[k] == Movq(
                        slot(SlotId((args + k) as u16)),
                        if by_rax {
                            R(Rax)
                        } else {
                            Imm64(NIL_VALUE)
                        },
                    ),
            decreases clear_len - i,
        {
            let dst = slot(SlotId((args + i) as u16));
            if by_rax {
                code.push(Movq(dst, R(Rax)));
            } else {
                code.push(Movq(dst, Imm64(NIL_VALUE)));
            }
            i += 1;
        }
        if by_rax {
            assert(code@ =~= Seq::new(
                clear_len as nat,
                |i: int| Movq(slot(SlotId((args + i) as u16)), R(Rax)),
            ));
        } else {
            assert(code@ =~= Seq::new(
                clear_len as nat,
                |i: int| Movq(slot(SlotId((args + i) as u16)), Imm64(NIL_VALUE)),
            ));
        }
        self.emit(code);
    }
}

impl CodegenView {
    #[verifier::opaque]
    pub open spec fn epilogue(self) -> CodegenView {
        self.emit(seq![Leave, Ret])
    }

    #[verifier::opaque]
    pub open spec fn load_guard_rdi_fixnum(self, reg: SlotId, deopt: DestLabel) -> CodegenView {
        let c = self;
        let c = c.emit(seq![Movq(R(Rdi), slot(reg))]);
        let c = c.guard_rdi_fixnum(deopt);
        c
    }

    #[verifier::opaque]
    pub open spec fn load_guard_rsi_fixnum(self, reg: SlotId, deopt: DestLabel) -> CodegenView {
        let c = self;
        let c = c.emit(seq![Movq(R(Rsi), slot(reg))]);
        let c = c.guard_rsi_fixnum(deopt);
        c
    }

    #[verifier::opaque]
    pub open spec fn load_guard_binary_fixnum(
        self,
        lhs: SlotId,
        rhs: SlotId,
        deopt: DestLabel,
    ) -> CodegenView {
        let c = self;
        let c = c.emit(seq![Movq(R(Rdi), slot(lhs)), Movq(R(Rsi), slot(rhs))]);
        let c = c.guard_rdi_fixnum(deopt);
        let c = c.guard_rsi_fixnum(deopt);
        c
    }

    #[verifier::opaque]
    pub open spec fn handle_error(self, pc: BcPc) -> CodegenView {
        let c = self;
        let jit_return = c.vm_return;
        let next = pc.next(1);
        let c = c.emit(seq![Movq(R(R13), Imm64(next.0)), Testq(R(Rax), R(Rax)), Jcc(Cond::Eq, jit_return)]);
        c
    }

    #[verifier::opaque]
    pub open spec fn jit_get_constant(
        self,
        id: ConstSiteId,
        pc: BcPc,
        xmm_using: Seq<usize>,
    ) -> CodegenView {
        let c = self;
        let c = c.xmm_save(xmm_using);
        let c = c.emit(seq![
            Movq(R(Rdx), Imm(id.0 as i64)),
            Movq(R(Rdi), R(Rbx)),
            Movq(R(Rsi), R(R12)),
            Movq(R(Rax), Func(RuntimeFn::GetConstant)),
            Call(Target::Reg(Rax)),
        ]);
        let c = c.xmm_restore(xmm_using);
        let c = c.handle_error(pc);
        c
    }

    #[verifier::opaque]
    pub open spec fn load_constant(
        self,
        dst: SlotId,
        id: ConstSiteId,
        pc: BcPc,
        xmm_using: Seq<usize>,
    ) -> CodegenView {
        let c = self;
        let cached_value = c.nth(0);
        let c = c.constant(Data::I64(0));
        let cached_const_version = c.nth(0);
        let c = c.constant(Data::I64(UNSET));
        let global_const_version = c.const_version;
        let slow_path = c.nth(0);
        let c = c.label();
        let exit = c.nth(0);
        let c = c.label();
        let c = c.select(1);
        let c = c.bind_label(slow_path);
        let c = c.jit_get_constant(id, pc, xmm_using);
        let c = c.emit(seq![
            Movq(Rip(cached_value), R(Rax)),
            Movq(R(Rdi), Rip(global_const_version)),
            Movq(Rip(cached_const_version), R(Rdi)),
            Jmp(Target::Label(exit)),
        ]);
        let c = c.select(0);
        let c = c.emit(seq![
            Movq(R(Rax), Rip(global_const_version)),
            Cmpq(R(Rax), Rip(cached_const_version)),
            Jcc(Cond::Ne, slow_path),
            Movq(R(Rax), Rip(cached_value)),
            Bind(exit),
        ]);
        let c = c.store_rax(dst);
        c
    }

    #[verifier::opaque]
    pub open spec fn gen_side_deopt_dest(self, pc: BcPc, wb: WriteBackView) -> CodegenView {
        let c = self;
        let old_p = c.jit.page;
        let c = c.select(2);
        let entry = c.nth(0);
        let c = c.label();
        let c = c.bind_label(entry);
        let c = if wb.len() != 0 {
            let c = c.gen_write_back(wb);
            c
        } else {
            c
        };
        let fetch = c.vm_fetch;
        let c = c.emit(seq![Movq(R(R13), Imm64(pc.0)), Jmp(Target::Label(fetch))]);
        let c = c.select(old_p);
        c
    }

    #[verifier::opaque]
    pub open spec fn load_float_constant(
        self,
        dst: SlotId,
        fdst: u16,
        id: ConstSiteId,
        pc: BcPc,
        xmm_using: Seq<usize>,
        wb: WriteBackView,
    ) -> CodegenView {
        let c = self;
        let cached_value = c.nth(0);
        let c = c.constant(Data::I64(0));
        let cached_const_version = c.nth(0);
        let c = c.constant(Data::I64(UNSET));
        let global_const_version = c.const_version;
        let slow_path = c.nth(0);
        let c = c.label();
        let exit = c.nth(0);
        let c = c.label();
        let cached_float = c.nth(0);
        let c = c.constant(Data::F64(0));
        let side_exit = c.nth(0);
        let c = c.gen_side_deopt_dest(pc, wb);
        let c = c.select(1);
        let c = c.bind_label(slow_path);
        let c = c.jit_get_constant(id, pc, xmm_using);
        let c = c.emit(seq![Movq(Rip(cached_value), R(Rax)), Movq(R(Rdi), R(Rax))]);
        let c = c.gen_val_to_f64_assume_float(0, side_exit);
        let c = c.emit(seq![
            Movq(Rip(cached_float), Xmm(0)),
            Movq(R(Rax), Rip(global_const_version)),
            Movq(Rip(cached_const_version), R(Rax)),
            Jmp(Target::Label(exit)),
        ]);
        let c = c.select(0);
        let c = c.emit(seq![
            Movq(R(Rax), Rip(global_const_version)),
            Cmpq(R(Rax), Rip(cached_const_version)),
            Jcc(Cond::Ne, slow_path),
            Bind(exit),
            Movq(xmm(fdst), Rip(cached_float)),
            Movq(R(Rax), Rip(cached_value)),
        ]);
        let c = c.store_rax(dst);
        c
    }

    #[verifier::opaque]
    pub open spec fn jit_store_constant(
        self,
        id: IdentId,
        src: SlotId,
        xmm_using: Seq<usize>,
    ) -> CodegenView {
        let c = self;
        let const_version = c.const_version;
        let c = c.xmm_save(xmm_using);
        let c = c.emit(seq![
            Movq(R(Rdx), Imm(id.0 as i64)),
            Movq(R(Rcx), slot(src)),
            Movq(R(Rdi), R(Rbx)),
            Movq(R(Rsi), R(R12)),
            Addq(Rip(const_version), Imm(1)),
            Movq(R(Rax), Func(RuntimeFn::SetConstant)),
            Call(Target::Reg(Rax)),
        ]);
        let c = c.xmm_restore(xmm_using);
        c
    }

    #[verifier::opaque]
    pub open spec fn jit_get_index(
        self,
        ret: SlotId,
        base: SlotId,
        idx: SlotId,
        pc: BcPc,
        xmm_using: Seq<usize>,
    ) -> CodegenView {
        let c = self;
        let c = c.xmm_save(xmm_using);
        let c = c.emit(seq![
            Movq(R(Rdx), slot(base)),
            Movq(R(Rcx), slot(idx)),
            Movq(R(Rdi), R(Rbx)),
            Movq(R(Rsi), R(R12)),
            Movq(R(Rax), Func(RuntimeFn::GetIndex)),
            Call(Target::Reg(Rax)),
        ]);
        let c = c.xmm_restore(xmm_using);
        let c = c.handle_error(pc);
        let c = c.store_rax(ret);
        c
    }

    #[verifier::opaque]
    pub open spec fn jit_index_assign(
        self,
        src: SlotId,
        base: SlotId,
        idx: SlotId,
        pc: BcPc,
        xmm_using: Seq<usize>,
    ) -> CodegenView {
        let c = self;
        let c = c.xmm_save(xmm_using);
        let c = c.emit(seq![
            Movq(R(Rdx), slot(base)),
            Movq(R(Rcx), slot(idx)),
            Movq(R(R8), slot(src)),
            Movq(R(Rdi), R(Rbx)),
            Movq(R(Rsi), R(R12)),
            Movq(R(Rax), Func(RuntimeFn::SetIndex)),
            Call(Target::Reg(Rax)),
        ]);
        let c = c.xmm_restore(xmm_using);
        let c = c.handle_error(pc);
        c
    }

    #[verifier::opaque]
    pub open spec fn load_binary_args(self, lhs: SlotId, rhs: SlotId) -> CodegenView {
        self.emit(seq![Movq(R(Rdi), slot(lhs)), Movq(R(Rsi), slot(rhs))])
    }

    #[verifier::opaque]
    pub open spec fn guard_binary_fixnum_with_mode(
        self,
        generic: DestLabel,
        mode: BinOpMode,
    ) -> CodegenView {
        let c = self;
        let c = match mode {
            BinOpMode::RR(_, _) => {
                let c = c.guard_rdi_rsi_fixnum(generic);
                c
            },
            BinOpMode::RI(_, _) => {
                let c = c.guard_rdi_fixnum(generic);
                c
            },
            BinOpMode::IR(_, _) => {
                let c = c.guard_rsi_fixnum(generic);
                c
            },
        };
        c
    }

    #[verifier::opaque]
    pub open spec fn load_binary_args_with_mode(self, mode: BinOpMode) -> CodegenView {
        let c = self;
        let c = match mode {
            BinOpMode::RR(lhs, rhs) => {
                let c = c.load_binary_args(lhs, rhs);
                c
            },
            BinOpMode::RI(lhs, rhs) => {
                let c = c.emit(seq![Movq(R(Rdi), slot(lhs)), Movq(R(Rsi), fixnum_imm(rhs))]);
                c
            },
            BinOpMode::IR(lhs, rhs) => {
                let c = c.emit(seq![Movq(R(Rdi), fixnum_imm(lhs)), Movq(R(Rsi), slot(rhs))]);
                c
            },
        };
        c
    }

    #[verifier::opaque]
    pub open spec fn generic_binop(
        self,
        ret: SlotId,
        func: RuntimeFn,
        xmm_using: Seq<usize>,
        pc: BcPc,
    ) -> CodegenView {
        let c = self;
        let c = c.xmm_save(xmm_using);
        let next = pc.next(1);
        let c = c.emit(seq![Movq(R(R13), Imm64(next.0))]);
        let c = c.call_binop(func);
        let c = c.xmm_restore(xmm_using);
        let c = c.store_rax(ret);
        c
    }

    #[verifier::opaque]
    pub open spec fn side_generic_op(
        self,
        generic: DestLabel,
        ret: SlotId,
        func: RuntimeFn,
        xmm_using: Seq<usize>,
        pc: BcPc,
    ) -> CodegenView {
        let c = self;
        let exit = c.nth(0);
        let c = c.label();
        let c = c.bind_label(exit);
        let c = c.select(1);
        let c = c.bind_label(generic);
        let c = c.generic_binop(ret, func, xmm_using, pc);
        let c = c.emit(seq![Jmp(Target::Label(exit))]);
        let c = c.select(0);
        c
    }

    #[verifier::opaque]
    pub open spec fn gen_bit_or(
        self,
        generic: DestLabel,
        ret: SlotId,
        xmm_using: Seq<usize>,
        pc: BcPc,
    ) -> CodegenView {
        let c = self;
        let c = c.emit(seq![Orq(R(Rdi), R(Rsi))]);
        let c = c.store_rdi(ret);
        let c = c.side_generic_op(generic, ret, RuntimeFn::BitOrValues, xmm_using, pc);
        c
    }

    #[verifier::opaque]
    pub open spec fn gen_bit_and(
        self,
        generic: DestLabel,
        ret: SlotId,
        xmm_using: Seq<usize>,
        pc: BcPc,
    ) -> CodegenView {
        let c = self;
        let c = c.emit(seq![Andq(R(Rdi), R(Rsi))]);
        let c = c.store_rdi(ret);
        let c = c.side_generic_op(generic, ret, RuntimeFn::BitAndValues, xmm_using, pc);
        c
    }

    #[verifier::opaque]
    pub open spec fn gen_bit_xor(
        self,
        generic: DestLabel,
        ret: SlotId,
        xmm_using: Seq<usize>,
        pc: BcPc,
    ) -> CodegenView {
        let c = self;
        let c = c.emit(seq![Xorq(R(Rdi), R(Rsi)), Addq(R(Rdi), Imm(1))]);
        let c = c.store_rdi(ret);
        let c = c.side_generic_op(generic, ret, RuntimeFn::BitXorValues, xmm_using, pc);
        c
    }

    #[verifier::opaque]
    pub open spec fn shift_under(self, under: DestLabel, after: DestLabel) -> CodegenView {
        let c = self;
        let c = c.select(1);
        let zero = c.nth(0);
        let c = c.label();
        let c = c.emit(seq![
            Bind(under),
            Testq(R(Rdi), R(Rdi)),
            Jcc(Cond::Ns, zero),
            Xorq(R(Rdi), R(Rdi)),
            Subq(R(Rdi), Imm(1)),
            Jmp(Target::Label(after)),
            Bind(zero),
            Xorq(R(Rdi), R(Rdi)),
            Jmp(Target::Label(after)),
        ]);
        let c = c.select(0);
        c
    }

    #[verifier::opaque]
    pub open spec fn gen_shr(
        self,
        generic: DestLabel,
        ret: SlotId,
        xmm_using: Seq<usize>,
        pc: BcPc,
    ) -> CodegenView {
        let c = self;
        let shl = c.nth(0);
        let c = c.label();
        let after = c.nth(0);
        let c = c.label();
        let under = c.nth(0);
        let c = c.label();
        let c = c.emit(seq![
            Movq(R(Rcx), R(Rsi)),
            Sarq(R(Rcx), Imm(1)),
            Jcc(Cond::S, shl),
            Cmpq(R(Rcx), Imm(64)),
            Jcc(Cond::Ge, under),
            Sarq(R(Rdi), R(Rcx)),
            Bind(after),
            Orq(R(Rdi), Imm(1)),
        ]);
        let c = c.store_rdi(ret);
        let c = c.side_generic_op(generic, ret, RuntimeFn::ShrValues, xmm_using, pc);
        let c = c.select(1);
        let c = c.emit(seq![
            Bind(shl),
            Negq(R(Rcx)),
            Lzcntq(R(Rax), R(Rdi)),
            Cmpq(R(Rcx), R(Rax)),
            Jcc(Cond::Ge, generic),
            Subq(R(Rdi), Imm(1)),
            Salq(R(Rdi), R(Rcx)),
            Jmp(Target::Label(after)),
        ]);
        let c = c.select(0);
        let c = c.shift_under(under, after);
        c
    }

    #[verifier::opaque]
    pub open spec fn gen_shl(
        self,
        generic: DestLabel,
        ret: SlotId,
        xmm_using: Seq<usize>,
        pc: BcPc,
    ) -> CodegenView {
        let c = self;
        let shr = c.nth(0);
        let c = c.label();
        let after = c.nth(0);
        let c = c.label();
        let under = c.nth(0);
        let c = c.label();
        let c = c.emit(seq![
            Movq(R(Rcx), R(Rsi)),
            Sarq(R(Rcx), Imm(1)),
            Jcc(Cond::S, shr),
            Lzcntq(R(Rax), R(Rdi)),
            Cmpq(R(Rcx), R(Rax)),
            Jcc(Cond::Ge, generic),
            Subq(R(Rdi), Imm(1)),
            Salq(R(Rdi), R(Rcx)),
            Bind(after),
            Orq(R(Rdi), Imm(1)),
        ]);
        let c = c.store_rdi(ret);
        let c = c.side_generic_op(generic, ret, RuntimeFn::ShlValues, xmm_using, pc);
        let c = c.select(1);
        let c = c.emit(seq![
            Bind(shr),
            Negq(R(Rcx)),
            Cmpq(R(Rcx), Imm(64)),
            Jcc(Cond::Ge, under),
            Sarq(R(Rdi), R(Rcx)),
            Jmp(Target::Label(after)),
        ]);
        let c = c.select(0);
        let c = c.shift_under(under, after);
        c
    }

    #[verifier::opaque]
    pub open spec fn gen_binop_integer(
        self,
        pc: BcPc,
        kind: BinOpK,
        ret: SlotId,
        mode: BinOpMode,
        wb: WriteBackView,
        xmm_using: Seq<usize>,
    ) -> CodegenView {
        let c = self;
        let deopt = c.nth(0);
        let c = c.gen_side_deopt_dest(pc, wb);
        let c = match kind {
            BinOpK::Add => {
                let c = match mode {
                    BinOpMode::RR(lhs, rhs) => {
                        let c = c.load_guard_binary_fixnum(lhs, rhs, deopt);
                        let c = c.emit(seq![Subq(R(Rdi), Imm(1)), Addq(R(Rdi), R(Rsi)), Jcc(Cond::O, deopt)]);
                        let c = c.store_rdi(ret);
                        c
                    },
                    BinOpMode::RI(lhs, rhs) => {
                        let c = c.load_guard_rdi_fixnum(lhs, deopt);
                        let c = c.emit(seq![Addq(R(Rdi), fixnum_delta(rhs)), Jcc(Cond::O, deopt)]);
                        let c = c.store_rdi(ret);
                        c
                    },
                    BinOpMode::IR(lhs, rhs) => {
                        let c = c.load_guard_rsi_fixnum(rhs, deopt);
                        let c = c.emit(seq![Addq(R(Rsi), fixnum_delta(lhs)), Jcc(Cond::O, deopt)]);
                        let c = c.store_rsi(ret);
                        c
                    },
                };
                c
            },
            BinOpK::Sub => {
                let c = match mode {
                    BinOpMode::RR(lhs, rhs) => {
                        let c = c.load_guard_binary_fixnum(lhs, rhs, deopt);
                        let c = c.emit(seq![Subq(R(Rdi), R(Rsi)), Jcc(Cond::O, deopt), Addq(R(Rdi), Imm(1))]);
                        let c = c.store_rdi(ret);
                        c
                    },
                    BinOpMode::RI(lhs, rhs) => {
                        let c = c.load_guard_rdi_fixnum(lhs, deopt);
                        let c = c.emit(seq![Subq(R(Rdi), fixnum_delta(rhs)), Jcc(Cond::O, deopt)]);
                        let c = c.store_rdi(ret);
                        c
                    },
                    BinOpMode::IR(lhs, rhs) => {
                        let c = c.load_guard_rsi_fixnum(rhs, deopt);
                        let c = c.emit(seq![
            Movq(R(Rdi), fixnum_imm(lhs)),
            Subq(R(Rdi), R(Rsi)),
            Jcc(Cond::O, deopt),
            Addq(R(Rdi), Imm(1)),
        ]);
                        let c = c.store_rdi(ret);
                        c
                    },
                };
                c
            },
            BinOpK::Mul => {
                let c = c.load_binary_args_with_mode(mode);
                let c = c.generic_binop(ret, RuntimeFn::MulValues, xmm_using, pc);
                c
            },
            BinOpK::Div => {
                let c = c.load_binary_args_with_mode(mode);
                let c = c.generic_binop(ret, RuntimeFn::DivValues, xmm_using, pc);
                c
            },
            BinOpK::BitOr => {
                let generic = c.nth(0);
                let c = c.label();
                let c = c.load_binary_args_with_mode(mode);
                let c = c.guard_binary_fixnum_with_mode(generic, mode);
                let c = c.gen_bit_or(generic, ret, xmm_using, pc);
                c
            },
            BinOpK::BitAnd => {
                let generic = c.nth(0);
                let c = c.label();
                let c = c.load_binary_args_with_mode(mode);
                let c = c.guard_binary_fixnum_with_mode(generic, mode);
                let c = c.gen_bit_and(generic, ret, xmm_using, pc);
                c
            },
            BinOpK::BitXor => {
                let generic = c.nth(0);
                let c = c.label();
                let c = c.load_binary_args_with_mode(mode);
                let c = c.guard_binary_fixnum_with_mode(generic, mode);
                let c = c.gen_bit_xor(generic, ret, xmm_using, pc);
                c
            },
            BinOpK::Shr => {
                let generic = c.nth(0);
                let c = c.label();
                let c = c.load_binary_args_with_mode(mode);
                let c = c.guard_binary_fixnum_with_mode(generic, mode);
                let c = c.gen_shr(generic, ret, xmm_using, pc);
                c
            },
            BinOpK::Shl => {
                let generic = c.nth(0);
                let c = c.label();
                let c = c.load_binary_args_with_mode(mode);
                let c = c.guard_binary_fixnum_with_mode(generic, mode);
                let c = c.gen_shl(generic, ret, xmm_using, pc);
                c
            },
        };
        c
    }

    #[verifier::opaque]
    pub open spec fn gen_float_div_guard(self, frhs: u16) -> CodegenView {
        let c = self;
        let div_by_zero = c.div_by_zero;
        let c = c.emit(seq![Movq(R(Rax), xmm(frhs)), Shlq(R(Rax), Imm(1)), Jcc(Cond::Eq, div_by_zero)]);
        c
    }

    #[verifier::opaque]
    pub open spec fn gen_binop_float(
        self,
        kind: BinOpK,
        fret: u16,
        flhs: u16,
        frhs: u16,
    ) -> CodegenView {
        let c = self;
        let c = if fret == frhs {
            let c = match kind {
                BinOpK::Add => {
                    let c = c.emit(seq![Addsd(xmm(fret), xmm(flhs))]);
                    c
                },
                BinOpK::Sub => {
                    let c = c.emit(seq![Movq(Xmm(0), xmm(flhs)), Subsd(Xmm(0), xmm(fret)), Movq(xmm(fret), Xmm(0))]);
                    c
                },
                BinOpK::Mul => {
                    let c = c.emit(seq![Mulsd(xmm(fret), xmm(flhs))]);
                    c
                },
                BinOpK::Div => {
                    let c = c.gen_float_div_guard(fret);
                    let c = c.emit(seq![Movq(Xmm(0), xmm(flhs)), Divsd(Xmm(0), xmm(fret)), Movq(xmm(fret), Xmm(0))]);
                    c
                },
                _ => {
                    c
                },
            };
            c
        } else {
            let c = c.xmm_mov(flhs, fret);
            let c = match kind {
                BinOpK::Add => {
                    let c = c.emit(seq![Addsd(xmm(fret), xmm(frhs))]);
                    c
                },
                BinOpK::Sub => {
                    let c = c.emit(seq![Subsd(xmm(fret), xmm(frhs))]);
                    c
                },
                BinOpK::Mul => {
                    let c = c.emit(seq![Mulsd(xmm(fret), xmm(frhs))]);
                    c
                },
                BinOpK::Div => {
                    let c = c.gen_float_div_guard(frhs);
                    let c = c.emit(seq![Divsd(xmm(fret), xmm(frhs))]);
                    c
                },
                _ => {
                    c
                },
            };
            c
        };
        c
    }

    #[verifier::opaque]
    pub open spec fn gen_binop_float_ri(
        self,
        kind: BinOpK,
        fret: u16,
        flhs: u16,
        rhs: i16,
    ) -> CodegenView {
        let c = self;
        let imm = c.nth(0);
        let c = c.constant(Data::F64(float_bits_of_i16(rhs)));
        let c = c.xmm_mov(flhs, fret);
        let c = match kind {
            BinOpK::Add => {
                let c = c.emit(seq![Addsd(xmm(fret), Rip(imm))]);
                c
            },
            BinOpK::Sub => {
                let c = c.emit(seq![Subsd(xmm(fret), Rip(imm))]);
                c
            },
            BinOpK::Mul => {
                let c = c.emit(seq![Mulsd(xmm(fret), Rip(imm))]);
                c
            },
            BinOpK::Div => {
                let c = if rhs == 0 {
                    let div_by_zero = c.div_by_zero;
                    let c = c.emit(seq![Jmp(Target::Label(div_by_zero))]);
                    c
                } else {
                    let c = c.emit(seq![Divsd(xmm(fret), Rip(imm))]);
                    c
                };
                c
            },
            _ => {
                c
            },
        };
        c
    }

    #[verifier::opaque]
    pub open spec fn gen_binop_float_ir(
        self,
        kind: BinOpK,
        fret: u16,
        lhs: i16,
        frhs: u16,
    ) -> CodegenView {
        let c = self;
        let imm0 = c.nth(0);
        let c = c.constant(Data::F64(float_bits_of_i16(lhs)));
        let c = if fret != frhs {
            let c = c.emit(seq![Movq(xmm(fret), Rip(imm0))]);
            let c = match kind {
                BinOpK::Add => {
                    let c = c.emit(seq![Addsd(xmm(fret), xmm(frhs))]);
                    c
                },
                BinOpK::Sub => {
                    let c = c.emit(seq![Subsd(xmm(fret), xmm(frhs))]);
                    c
                },
                BinOpK::Mul => {
                    let c = c.emit(seq![Mulsd(xmm(fret), xmm(frhs))]);
                    c
                },
                BinOpK::Div => {
                    let c = c.gen_float_div_guard(frhs);
                    let c = c.emit(seq![Divsd(xmm(fret), xmm(frhs))]);
                    c
                },
                _ => {
                    c
                },
            };
            c
        } else {
            let c = match kind {
                BinOpK::Add => {
                    let c = c.emit(seq![Addsd(xmm(fret), Rip(imm0))]);
                    c
                },
                BinOpK::Sub => {
                    let c = c.emit(seq![Movq(Xmm(0), xmm(frhs)), Movq(xmm(fret), Rip(imm0)), Subsd(xmm(fret), Xmm(0))]);
                    c
                },
                BinOpK::Mul => {
                    let c = c.emit(seq![Mulsd(xmm(fret), Rip(imm0))]);
                    c
                },
                BinOpK::Div => {
                    let c = c.gen_float_div_guard(frhs);
                    let c = c.emit(seq![Movq(xmm(fret), Rip(imm0)), Movq(Xmm(0), R(Rax)), Divsd(xmm(fret), Xmm(0))]);
                    c
                },
                _ => {
                    c
                },
            };
            c
        };
        c
    }

    #[verifier::opaque]
    pub open spec fn gen_binop_kind(
        self,
        using_xmm: Seq<usize>,
        pc: BcPc,
        kind: BinOpK,
        ret: SlotId,
    ) -> CodegenView {
        self.generic_binop(ret, kind.generic_func(), using_xmm, pc)
    }

    #[verifier::opaque]
    pub open spec fn setflag_float(self, kind: CmpKind) -> CodegenView {
        self.emit(seq![Setcc(float_cond(kind), Rax), Shlq(R(Rax), Imm(3)), Orq(R(Rax), Imm64(FALSE_VALUE))])
    }

    #[verifier::opaque]
    pub open spec fn gen_cmp_prep(
        self,
        lhs: SlotId,
        rhs: SlotId,
        generic: DestLabel,
    ) -> CodegenView {
        let c = self;
        let c = c.load_binary_args(lhs, rhs);
        let c = c.guard_rdi_rsi_fixnum(generic);
        c
    }

    #[verifier::opaque]
    pub open spec fn gen_cmpri_prep(
        self,
        lhs: SlotId,
        rhs: i16,
        generic: DestLabel,
    ) -> CodegenView {
        let c = self;
        let c = c.emit(seq![Movq(R(Rdi), slot(lhs)), Movq(R(Rsi), fixnum_imm(rhs))]);
        let c = c.guard_rdi_fixnum(generic);
        c
    }

    #[verifier::opaque]
    pub open spec fn gen_cmp_kind(
        self,
        kind: CmpKind,
        generic: DestLabel,
        ret: SlotId,
        xmm_using: Seq<usize>,
    ) -> CodegenView {
        let c = self;
        let exit = c.nth(0);
        let c = c.label();
        let c = c.emit(seq![
            Xorq(R(Rax), R(Rax)),
            Cmpq(R(Rdi), R(Rsi)),
            Setcc(int_cond(kind), Rax),
            Shlq(R(Rax), Imm(3)),
            Orq(R(Rax), Imm64(FALSE_VALUE)),
            Bind(exit),
        ]);
        let c = c.select(1);
        let c = c.emit(seq![Bind(generic)]);
        let c = c.xmm_save(xmm_using);
        let c = c.emit(seq![Movq(R(Rax), Func(generic_cmp(kind))), Call(Target::Reg(Rax))]);
        let c = c.xmm_restore(xmm_using);
        let c = c.emit(seq![Jmp(Target::Label(exit))]);
        let c = c.select(0);
        let c = c.store_rax(ret);
        c
    }

    #[verifier::opaque]
    pub open spec fn gen_cmp_int_opt(
        self,
        kind: CmpKind,
        branch_dest: DestLabel,
        generic: DestLabel,
        brkind: BrKind,
        xmm_using: Seq<usize>,
    ) -> CodegenView {
        let c = self;
        let cont = c.nth(0);
        let c = c.label();
        let c = match brkind {
            BrKind::BrIf => {
                let c = c.emit(seq![Jcc(int_cond(kind), branch_dest)]);
                c
            },
            BrKind::BrIfNot => {
                let c = c.emit(seq![Jcc(int_cond(opposite(kind)), branch_dest)]);
                c
            },
        };
        let c = c.bind_label(cont);
        let c = c.select(1);
        let c = c.bind_label(generic);
        let c = c.xmm_save(xmm_using);
        let c = c.emit(seq![Movq(R(Rax), Func(generic_cmp(kind))), Call(Target::Reg(Rax))]);
        let c = c.xmm_restore(xmm_using);
        let c = c.emit(seq![Orq(R(Rax), Imm(0x10)), Cmpq(R(Rax), Imm64(FALSE_VALUE))]);
        let c = match brkind {
            BrKind::BrIf => {
                let c = c.emit(seq![Jcc(Cond::Eq, cont), Jmp(Target::Label(branch_dest))]);
                c
            },
            BrKind::BrIfNot => {
                let c = c.emit(seq![Jcc(Cond::Ne, cont), Jmp(Target::Label(branch_dest))]);
                c
            },
        };
        let c = c.select(0);
        c
    }

    #[verifier::opaque]
    pub open spec fn gen_cmp_float_opt(
        self,
        kind: CmpKind,
        branch_dest: DestLabel,
        brkind: BrKind,
    ) -> CodegenView {
        let c = self;
        let cont = c.nth(0);
        let c = c.label();
        let c = match brkind {
            BrKind::BrIf => {
                let c = c.emit(seq![Jcc(float_cond(kind), branch_dest)]);
                c
            },
            BrKind::BrIfNot => {
                let c = c.emit(seq![Jcc(float_cond(opposite(kind)), branch_dest)]);
                c
            },
        };
        let c = c.bind_label(cont);
        c
    }

    #[verifier::opaque]
    pub open spec fn gen_cond_br(
        self,
        reg: SlotId,
        branch_dest: DestLabel,
        brkind: BrKind,
    ) -> CodegenView {
        let c = self;
        let c = c.emit(seq![Movq(R(Rax), slot(reg)), Orq(R(Rax), Imm(0x10)), Cmpq(R(Rax), Imm64(FALSE_VALUE))]);
        let c = match brkind {
            BrKind::BrIf => {
                let c = c.emit(seq![Jcc(Cond::Ne, branch_dest)]);
                c
            },
            BrKind::BrIfNot => {
                let c = c.emit(seq![Jcc(Cond::Eq, branch_dest)]);
                c
            },
        };
        c
    }
}

impl Codegen {
    /// Leaves the frame and returns.
    pub fn epilogue(&mut self)
        ensures
            final(self)@ == old(self)@.epilogue(),
    {
        reveal(CodegenView::epilogue);
        self.emit(vec![Leave, Ret]);
    }

    /// Loads the slot to `rdi` and leaves through `deopt` unless it is a small integer.
    pub fn load_guard_rdi_fixnum(&mut self, reg: SlotId, deopt: DestLabel)
        ensures
            final(self)@ == old(self)@.load_guard_rdi_fixnum(reg, deopt),
    {
        reveal(CodegenView::load_guard_rdi_fixnum);
        self.emit_one(Movq(R(Rdi), slot(reg)));
        self.guard_rdi_fixnum(deopt);
    }

    /// Loads the slot to `rsi` and leaves through `deopt` unless it is a small integer.
    pub fn load_guard_rsi_fixnum(&mut self, reg: SlotId, deopt: DestLabel)
        ensures
            final(self)@ == old(self)@.load_guard_rsi_fixnum(reg, deopt),
    {
        reveal(CodegenView::load_guard_rsi_fixnum);
        self.emit_one(Movq(R(Rsi), slot(reg)));
        self.guard_rsi_fixnum(deopt);
    }

    /// Loads both operands and leaves through `deopt` unless both are small integers.
    pub fn load_guard_binary_fixnum(&mut self, lhs: SlotId, rhs: SlotId, deopt: DestLabel)
        ensures
            final(self)@ == old(self)@.load_guard_binary_fixnum(lhs, rhs, deopt),
    {
        reveal(CodegenView::load_guard_binary_fixnum);
        self.emit(vec![Movq(R(Rdi), slot(lhs)), Movq(R(Rsi), slot(rhs))]);
        self.guard_rdi_fixnum(deopt);
        self.guard_rsi_fixnum(deopt);
    }

    /// Leaves through `vm_return` where the call before returned no value.
    /// `r13` is set to the record after `pc`, from which the error's place is found.
    pub fn handle_error(&mut self, pc: BcPc)
        requires
            pc.ok(),
        ensures
            final(self)@ == old(self)@.handle_error(pc),
    {
        reveal(CodegenView::handle_error);
        let jit_return = self.vm_return;
        let next = pc.next(1);
        self.emit(vec![Movq(R(R13), Imm64(next.0)), Testq(R(Rax), R(Rax)), Jcc(Cond::Eq, jit_return)]);
    }

    /// Calls the runtime for the constant of the site.
    pub fn jit_get_constant(&mut self, id: ConstSiteId, pc: BcPc, xmm_using: &Vec<usize>)
        requires
            pc.ok(),
            using_ok(xmm_using@),
        ensures
            final(self)@ == old(self)@.jit_get_constant(id, pc, xmm_using@),
    {
        reveal(CodegenView::jit_get_constant);
        self.xmm_save(xmm_using);
        self.emit(vec![
            Movq(R(Rdx), Imm(id.0 as i64)),
            Movq(R(Rdi), R(Rbx)),
            Movq(R(Rsi), R(R12)),
            Movq(R(Rax), Func(RuntimeFn::GetConstant)),
            Call(Target::Reg(Rax)),
        ]);
        self.xmm_restore(xmm_using);
        self.handle_error(pc);
    }

    /// Loads a constant through a cache that is valid while the global
    /// constant version is the one at which it was filled.
    pub fn load_constant(&mut self, dst: SlotId, id: ConstSiteId, pc: BcPc, xmm_using: &Vec<usize>)
        requires
            pc.ok(),
            using_ok(xmm_using@),
        ensures
            final(self)@ == old(self)@.load_constant(dst, id, pc, xmm_using@),
    {
        reveal(CodegenView::load_constant);
        let cached_value = self.jit.const_i64(0);
        let cached_const_version = self.jit.const_i64(UNSET);
        let global_const_version = self.const_version;
        let slow_path = self.label();
        let exit = self.label();
        self.select_page(1);
        self.bind_label(slow_path);
        self.jit_get_constant(id, pc, xmm_using);
        self.emit(vec![
            Movq(Rip(cached_value), R(Rax)),
            Movq(R(Rdi), Rip(global_const_version)),
            Movq(Rip(cached_const_version), R(Rdi)),
            Jmp(Target::Label(exit)),
        ]);
        self.select_page(0);
        self.emit(vec![
            Movq(R(Rax), Rip(global_const_version)),
            Cmpq(R(Rax), Rip(cached_const_version)),
            Jcc(Cond::Ne, slow_path),
            Movq(R(Rax), Rip(cached_value)),
            Bind(exit),
        ]);
        self.store_rax(dst);
    }

    /// Get *DestLabel* for fallback to interpreter.
    ///
    /// The side exit stands on the third page.  It writes back every stale
    /// slot, sets `r13` to the record to run again, and jumps into the
    /// interpreter's fetch loop.
    pub fn gen_side_deopt_dest(&mut self, pc: BcPc, wb: &Vec<(u16, Vec<SlotId>)>) -> (r: DestLabel)
        ensures
            final(self)@ == old(self)@.gen_side_deopt_dest(pc, wb_view(wb@)),
            r == old(self)@.nth(0),
    {
        reveal(CodegenView::gen_side_deopt_dest);
        let old_p = self.jit.get_page();
        self.select_page(2);
        let entry = self.label();
        self.bind_label(entry);
        if wb.len() != 0 {
            self.gen_write_back(wb);
        }
        let fetch = self.vm_fetch;
        self.emit(vec![Movq(R(R13), Imm64(pc.0)), Jmp(Target::Label(fetch))]);
        self.select_page(old_p);
        entry
    }

    /// Loads a constant that is expected to be a float, through a cache of
    /// both the value and its unboxed double.
    pub fn load_float_constant(
        &mut self,
        dst: SlotId,
        fdst: u16,
        id: ConstSiteId,
        pc: BcPc,
        xmm_using: &Vec<usize>,
        wb: &Vec<(u16, Vec<SlotId>)>,
    )
        requires
            pc.ok(),
            using_ok(xmm_using@),
        ensures
            final(self)@ == old(self)@.load_float_constant(dst, fdst, id, pc, xmm_using@, wb_view(wb@)),
    {
        reveal(CodegenView::load_float_constant);
        let cached_value = self.jit.const_i64(0);
        let cached_const_version = self.jit.const_i64(UNSET);
        let global_const_version = self.const_version;
        let slow_path = self.label();
        let exit = self.label();
        let cached_float = self.jit.const_f64(0);
        let side_exit = self.gen_side_deopt_dest(pc, wb);
        self.select_page(1);
        self.bind_label(slow_path);
        self.jit_get_constant(id, pc, xmm_using);
        self.emit(vec![Movq(Rip(cached_value), R(Rax)), Movq(R(Rdi), R(Rax))]);
        let entry = self.gen_val_to_f64_assume_float(0, side_exit);
        self.emit(vec![
            Movq(Rip(cached_float), Xmm(0)),
            Movq(R(Rax), Rip(global_const_version)),
            Movq(Rip(cached_const_version), R(Rax)),
            Jmp(Target::Label(exit)),
        ]);
        self.select_page(0);
        self.emit(vec![
            Movq(R(Rax), Rip(global_const_version)),
            Cmpq(R(Rax), Rip(cached_const_version)),
            Jcc(Cond::Ne, slow_path),
            Bind(exit),
            Movq(xmm(fdst), Rip(cached_float)),
            Movq(R(Rax), Rip(cached_value)),
        ]);
        self.store_rax(dst);
    }

    /// Sets a constant through the runtime and bumps the global constant version.
    pub fn jit_store_constant(&mut self, id: IdentId, src: SlotId, xmm_using: &Vec<usize>)
        requires
            using_ok(xmm_using@),
        ensures
            final(self)@ == old(self)@.jit_store_constant(id, src, xmm_using@),
    {
        reveal(CodegenView::jit_store_constant);
        let const_version = self.const_version;
        self.xmm_save(xmm_using);
        self.emit(vec![
            Movq(R(Rdx), Imm(id.0 as i64)),
            Movq(R(Rcx), slot(src)),
            Movq(R(Rdi), R(Rbx)),
            Movq(R(Rsi), R(R12)),
            Addq(Rip(const_version), Imm(1)),
            Movq(R(Rax), Func(RuntimeFn::SetConstant)),
            Call(Target::Reg(Rax)),
        ]);
        self.xmm_restore(xmm_using);
    }

    /// `ret = base[idx]` through the runtime.
    pub fn jit_get_index(
        &mut self,
        ret: SlotId,
        base: SlotId,
        idx: SlotId,
        pc: BcPc,
        xmm_using: &Vec<usize>,
    )
        requires
            pc.ok(),
            using_ok(xmm_using@),
        ensures
            final(self)@ == old(self)@.jit_get_index(ret, base, idx, pc, xmm_using@),
    {
        reveal(CodegenView::jit_get_index);
        self.xmm_save(xmm_using);
        self.emit(vec![
            Movq(R(Rdx), slot(base)),
            Movq(R(Rcx), slot(idx)),
            Movq(R(Rdi), R(Rbx)),
            Movq(R(Rsi), R(R12)),
            Movq(R(Rax), Func(RuntimeFn::GetIndex)),
            Call(Target::Reg(Rax)),
        ]);
        self.xmm_restore(xmm_using);
        self.handle_error(pc);
        self.store_rax(ret);
    }

    /// `base[idx] = src` through the runtime.
    pub fn jit_index_assign(
        &mut self,
        src: SlotId,
        base: SlotId,
        idx: SlotId,
        pc: BcPc,
        xmm_using: &Vec<usize>,
    )
        requires
            pc.ok(),
            using_ok(xmm_using@),
        ensures
            final(self)@ == old(self)@.jit_index_assign(src, base, idx, pc, xmm_using@),
    {
        reveal(CodegenView::jit_index_assign);
        self.xmm_save(xmm_using);
        self.emit(vec![
            Movq(R(Rdx), slot(base)),
            Movq(R(Rcx), slot(idx)),
            Movq(R(R8), slot(src)),
            Movq(R(Rdi), R(Rbx)),
            Movq(R(Rsi), R(R12)),
            Movq(R(Rax), Func(RuntimeFn::SetIndex)),
            Call(Target::Reg(Rax)),
        ]);
        self.xmm_restore(xmm_using);
        self.handle_error(pc);
    }

    /// Loads the operands to `rdi` and `rsi`.
    pub fn load_binary_args(&mut self, lhs: SlotId, rhs: SlotId)
        ensures
            final(self)@ == old(self)@.load_binary_args(lhs, rhs),
    {
        reveal(CodegenView::load_binary_args);
        self.emit(vec![Movq(R(Rdi), slot(lhs)), Movq(R(Rsi), slot(rhs))]);
    }

    /// Guards the operands that come from slots.
    pub fn guard_binary_fixnum_with_mode(&mut self, generic: DestLabel, mode: BinOpMode)
        ensures
            final(self)@ == old(self)@.guard_binary_fixnum_with_mode(generic, mode),
    {
        reveal(CodegenView::guard_binary_fixnum_with_mode);
        match mode {
            BinOpMode::RR(_, _) => { self.guard_rdi_rsi_fixnum(generic); },
            BinOpMode::RI(_, _) => { self.guard_rdi_fixnum(generic); },
            BinOpMode::IR(_, _) => { self.guard_rsi_fixnum(generic); },
        }
    }

    /// Loads the operands to `rdi` and `rsi`; a small integer is baked in as a tagged literal.
    pub fn load_binary_args_with_mode(&mut self, mode: BinOpMode)
        ensures
            final(self)@ == old(self)@.load_binary_args_with_mode(mode),
    {
        reveal(CodegenView::load_binary_args_with_mode);
        match mode {
            BinOpMode::RR(lhs, rhs) => { self.load_binary_args(lhs, rhs); },
            BinOpMode::RI(lhs, rhs) => {
                self.emit(vec![Movq(R(Rdi), slot(lhs)), Movq(R(Rsi), fixnum_imm(rhs))]);
            },
            BinOpMode::IR(lhs, rhs) => {
                self.emit(vec![Movq(R(Rdi), fixnum_imm(lhs)), Movq(R(Rsi), slot(rhs))]);
            },
        }
    }

    /// Calls a runtime function on `rdi` and `rsi` and stores the result.
    pub fn generic_binop(&mut self, ret: SlotId, func: RuntimeFn, xmm_using: &Vec<usize>, pc: BcPc)
        requires
            pc.ok(),
            using_ok(xmm_using@),
        ensures
            final(self)@ == old(self)@.generic_binop(ret, func, xmm_using@, pc),
    {
        reveal(CodegenView::generic_binop);
        self.xmm_save(xmm_using);
        let next = pc.next(1);
        self.emit_one(Movq(R(R13), Imm64(next.0)));
        self.call_binop(func);
        self.xmm_restore(xmm_using);
        self.store_rax(ret);
    }

    /// Binds the exit of a fast path here, and puts the call of the runtime
    /// function, reached through `generic`, on the slow page.
    pub fn side_generic_op(
        &mut self,
        generic: DestLabel,
        ret: SlotId,
        func: RuntimeFn,
        xmm_using: &Vec<usize>,
        pc: BcPc,
    )
        requires
            pc.ok(),
            using_ok(xmm_using@),
        ensures
            final(self)@ == old(self)@.side_generic_op(generic, ret, func, xmm_using@, pc),
    {
        reveal(CodegenView::side_generic_op);
        let exit = self.label();
        self.bind_label(exit);
        self.select_page(1);
        self.bind_label(generic);
        self.generic_binop(ret, func, xmm_using, pc);
        self.emit_one(Jmp(Target::Label(exit)));
        self.select_page(0);
    }

    /// Or of two tagged integers: the tag bit stays set.
    pub fn gen_bit_or(&mut self, generic: DestLabel, ret: SlotId, xmm_using: &Vec<usize>, pc: BcPc)
        requires
            pc.ok(),
            using_ok(xmm_using@),
        ensures
            final(self)@ == old(self)@.gen_bit_or(generic, ret, xmm_using@, pc),
    {
        reveal(CodegenView::gen_bit_or);
        self.emit_one(Orq(R(Rdi), R(Rsi)));
        self.store_rdi(ret);
        self.side_generic_op(generic, ret, RuntimeFn::BitOrValues, xmm_using, pc);
    }

    /// And of two tagged integers: the tag bit stays set.
    pub fn gen_bit_and(&mut self, generic: DestLabel, ret: SlotId, xmm_using: &Vec<usize>, pc: BcPc)
        requires
            pc.ok(),
            using_ok(xmm_using@),
        ensures
            final(self)@ == old(self)@.gen_bit_and(generic, ret, xmm_using@, pc),
    {
        reveal(CodegenView::gen_bit_and);
        self.emit_one(Andq(R(Rdi), R(Rsi)));
        self.store_rdi(ret);
        self.side_generic_op(generic, ret, RuntimeFn::BitAndValues, xmm_using, pc);
    }

    /// Xor of two tagged integers clears the tag bit; adding one sets it again.
    pub fn gen_bit_xor(&mut self, generic: DestLabel, ret: SlotId, xmm_using: &Vec<usize>, pc: BcPc)
        requires
            pc.ok(),
            using_ok(xmm_using@),
        ensures
            final(self)@ == old(self)@.gen_bit_xor(generic, ret, xmm_using@, pc),
    {
        reveal(CodegenView::gen_bit_xor);
        self.emit(vec![Xorq(R(Rdi), R(Rsi)), Addq(R(Rdi), Imm(1))]);
        self.store_rdi(ret);
        self.side_generic_op(generic, ret, RuntimeFn::BitXorValues, xmm_using, pc);
    }

    /// A right shift by 64 or more: all ones for a negative number, else zero.
    pub fn shift_under(&mut self, under: DestLabel, after: DestLabel)
        ensures
            final(self)@ == old(self)@.shift_under(under, after),
    {
        reveal(CodegenView::shift_under);
        self.select_page(1);
        let zero = self.label();
        self.emit(vec![
            Bind(under),
            Testq(R(Rdi), R(Rdi)),
            Jcc(Cond::Ns, zero),
            Xorq(R(Rdi), R(Rdi)),
            Subq(R(Rdi), Imm(1)),
            Jmp(Target::Label(after)),
            Bind(zero),
            Xorq(R(Rdi), R(Rdi)),
            Jmp(Target::Label(after)),
        ]);
        self.select_page(0);
    }

    /// Right shift of a tagged integer.  A negative count shifts left, as
    /// far as the count is less than the number of leading zeros.
    pub fn gen_shr(&mut self, generic: DestLabel, ret: SlotId, xmm_using: &Vec<usize>, pc: BcPc)
        requires
            pc.ok(),
            using_ok(xmm_using@),
        ensures
            final(self)@ == old(self)@.gen_shr(generic, ret, xmm_using@, pc),
    {
        reveal(CodegenView::gen_shr);
        let shl = self.label();
        let after = self.label();
        let under = self.label();
        self.emit(vec![
            Movq(R(Rcx), R(Rsi)),
            Sarq(R(Rcx), Imm(1)),
            Jcc(Cond::S, shl),
            Cmpq(R(Rcx), Imm(64)),
            Jcc(Cond::Ge, under),
            Sarq(R(Rdi), R(Rcx)),
            Bind(after),
            Orq(R(Rdi), Imm(1)),
        ]);
        self.store_rdi(ret);
        self.side_generic_op(generic, ret, RuntimeFn::ShrValues, xmm_using, pc);
        self.select_page(1);
        self.emit(vec![
            Bind(shl),
            Negq(R(Rcx)),
            Lzcntq(R(Rax), R(Rdi)),
            Cmpq(R(Rcx), R(Rax)),
            Jcc(Cond::Ge, generic),
            Subq(R(Rdi), Imm(1)),
            Salq(R(Rdi), R(Rcx)),
            Jmp(Target::Label(after)),
        ]);
        self.select_page(0);
        self.shift_under(under, after);
    }

    /// Left shift of a tagged integer.  The result fits where the count is
    /// less than the number of leading zeros of the tagged word; else the
    /// runtime is asked.  A negative count shifts right.
    pub fn gen_shl(&mut self, generic: DestLabel, ret: SlotId, xmm_using: &Vec<usize>, pc: BcPc)
        requires
            pc.ok(),
            using_ok(xmm_using@),
        ensures
            final(self)@ == old(self)@.gen_shl(generic, ret, xmm_using@, pc),
    {
        reveal(CodegenView::gen_shl);
        let shr = self.label();
        let after = self.label();
        let under = self.label();
        self.emit(vec![
            Movq(R(Rcx), R(Rsi)),
            Sarq(R(Rcx), Imm(1)),
            Jcc(Cond::S, shr),
            Lzcntq(R(Rax), R(Rdi)),
            Cmpq(R(Rcx), R(Rax)),
            Jcc(Cond::Ge, generic),
            Subq(R(Rdi), Imm(1)),
            Salq(R(Rdi), R(Rcx)),
            Bind(after),
            Orq(R(Rdi), Imm(1)),
        ]);
        self.store_rdi(ret);
        self.side_generic_op(generic, ret, RuntimeFn::ShlValues, xmm_using, pc);
        self.select_page(1);
        self.emit(vec![
            Bind(shr),
            Negq(R(Rcx)),
            Cmpq(R(Rcx), Imm(64)),
            Jcc(Cond::Ge, under),
            Sarq(R(Rdi), R(Rcx)),
            Jmp(Target::Label(after)),
        ]);
        self.select_page(0);
        self.shift_under(under, after);
    }

    /// A binary operation whose operands are expected to be integers.
    ///
    /// Addition and subtraction work on the tagged words and leave through a
    /// side exit on a wrong type or on overflow.  Multiplication and division
    /// always call the runtime.  The bit operations and shifts have a fast path
    /// and fall back to the runtime.
    pub fn gen_binop_integer(
        &mut self,
        pc: BcPc,
        kind: BinOpK,
        ret: SlotId,
        mode: BinOpMode,
        wb: &Vec<(u16, Vec<SlotId>)>,
        xmm_using: &Vec<usize>,
    )
        requires
            pc.ok(),
            using_ok(xmm_using@),
        ensures
            final(self)@ == old(self)@.gen_binop_integer(pc, kind, ret, mode, wb_view(wb@), xmm_using@),
    {
        reveal(CodegenView::gen_binop_integer);
        let deopt = self.gen_side_deopt_dest(pc, wb);
        match kind {
            BinOpK::Add => {
                match mode {
                    BinOpMode::RR(lhs, rhs) => {
                        self.load_guard_binary_fixnum(lhs, rhs, deopt);
                        self.emit(vec![Subq(R(Rdi), Imm(1)), Addq(R(Rdi), R(Rsi)), Jcc(Cond::O, deopt)]);
                        self.store_rdi(ret);
                    },
                    BinOpMode::RI(lhs, rhs) => {
                        self.load_guard_rdi_fixnum(lhs, deopt);
                        self.emit(vec![Addq(R(Rdi), fixnum_delta(rhs)), Jcc(Cond::O, deopt)]);
                        self.store_rdi(ret);
                    },
                    BinOpMode::IR(lhs, rhs) => {
                        self.load_guard_rsi_fixnum(rhs, deopt);
                        self.emit(vec![Addq(R(Rsi), fixnum_delta(lhs)), Jcc(Cond::O, deopt)]);
                        self.store_rsi(ret);
                    },
                }
            },
            BinOpK::Sub => {
                match mode {
                    BinOpMode::RR(lhs, rhs) => {
                        self.load_guard_binary_fixnum(lhs, rhs, deopt);
                        self.emit(vec![Subq(R(Rdi), R(Rsi)), Jcc(Cond::O, deopt), Addq(R(Rdi), Imm(1))]);
                        self.store_rdi(ret);
                    },
                    BinOpMode::RI(lhs, rhs) => {
                        self.load_guard_rdi_fixnum(lhs, deopt);
                        self.emit(vec![Subq(R(Rdi), fixnum_delta(rhs)), Jcc(Cond::O, deopt)]);
                        self.store_rdi(ret);
                    },
                    BinOpMode::IR(lhs, rhs) => {
                        self.load_guard_rsi_fixnum(rhs, deopt);
                        self.emit(vec![
                            Movq(R(Rdi), fixnum_imm(lhs)),
                            Subq(R(Rdi), R(Rsi)),
                            Jcc(Cond::O, deopt),
                            Addq(R(Rdi), Imm(1)),
                        ]);
                        self.store_rdi(ret);
                    },
                }
            },
            BinOpK::Mul => {
                self.load_binary_args_with_mode(mode);
                self.generic_binop(ret, RuntimeFn::MulValues, xmm_using, pc);
            },
            BinOpK::Div => {
                self.load_binary_args_with_mode(mode);
                self.generic_binop(ret, RuntimeFn::DivValues, xmm_using, pc);
            },
            BinOpK::BitOr => {
                let generic = self.label();
                self.load_binary_args_with_mode(mode);
                self.guard_binary_fixnum_with_mode(generic, mode);
                self.gen_bit_or(generic, ret, xmm_using, pc);
            },
            BinOpK::BitAnd => {
                let generic = self.label();
                self.load_binary_args_with_mode(mode);
                self.guard_binary_fixnum_with_mode(generic, mode);
                self.gen_bit_and(generic, ret, xmm_using, pc);
            },
            BinOpK::BitXor => {
                let generic = self.label();
                self.load_binary_args_with_mode(mode);
                self.guard_binary_fixnum_with_mode(generic, mode);
                self.gen_bit_xor(generic, ret, xmm_using, pc);
            },
            BinOpK::Shr => {
                let generic = self.label();
                self.load_binary_args_with_mode(mode);
                self.guard_binary_fixnum_with_mode(generic, mode);
                self.gen_shr(generic, ret, xmm_using, pc);
            },
            BinOpK::Shl => {
                let generic = self.label();
                self.load_binary_args_with_mode(mode);
                self.guard_binary_fixnum_with_mode(generic, mode);
                self.gen_shl(generic, ret, xmm_using, pc);
            },
        }
    }

    /// Leaves through `div_by_zero` where the divisor is zero, of either sign:
    /// where its bits, but for the sign, are all zero.
    pub fn gen_float_div_guard(&mut self, frhs: u16)
        ensures
            final(self)@ == old(self)@.gen_float_div_guard(frhs),
    {
        reveal(CodegenView::gen_float_div_guard);
        let div_by_zero = self.div_by_zero;
        self.emit(vec![Movq(R(Rax), xmm(frhs)), Shlq(R(Rax), Imm(1)), Jcc(Cond::Eq, div_by_zero)]);
    }

    /// An arithmetic operation on two unboxed floats: `fret = flhs op frhs`.
    ///
    /// Where the result register is the right operand, the operation goes
    /// through `xmm0` unless it commutes.
    pub fn gen_binop_float(&mut self, kind: BinOpK, fret: u16, flhs: u16, frhs: u16)
        requires
            kind.arith(),
        ensures
            final(self)@ == old(self)@.gen_binop_float(kind, fret, flhs, frhs),
    {
        reveal(CodegenView::gen_binop_float);
        if fret == frhs {
            match kind {
                BinOpK::Add => { self.emit_one(Addsd(xmm(fret), xmm(flhs))); },
                BinOpK::Sub => {
                    self.emit(vec![Movq(Xmm(0), xmm(flhs)), Subsd(Xmm(0), xmm(fret)), Movq(xmm(fret), Xmm(0))]);
                },
                BinOpK::Mul => { self.emit_one(Mulsd(xmm(fret), xmm(flhs))); },
                BinOpK::Div => {
                    self.gen_float_div_guard(fret);
                    self.emit(vec![Movq(Xmm(0), xmm(flhs)), Divsd(Xmm(0), xmm(fret)), Movq(xmm(fret), Xmm(0))]);
                },
                _ => {},
            }
        } else {
            self.xmm_mov(flhs, fret);
            match kind {
                BinOpK::Add => { self.emit_one(Addsd(xmm(fret), xmm(frhs))); },
                BinOpK::Sub => { self.emit_one(Subsd(xmm(fret), xmm(frhs))); },
                BinOpK::Mul => { self.emit_one(Mulsd(xmm(fret), xmm(frhs))); },
                BinOpK::Div => {
                    self.gen_float_div_guard(frhs);
                    self.emit_one(Divsd(xmm(fret), xmm(frhs)));
                },
                _ => {},
            }
        }
    }

    /// An arithmetic operation on an unboxed float and a small integer:
    /// `fret = flhs op rhs`.  Division by the literal zero goes straight to
    /// `div_by_zero`.
    pub fn gen_binop_float_ri(&mut self, kind: BinOpK, fret: u16, flhs: u16, rhs: i16)
        requires
            kind.arith(),
        ensures
            final(self)@ == old(self)@.gen_binop_float_ri(kind, fret, flhs, rhs),
    {
        reveal(CodegenView::gen_binop_float_ri);
        let imm = self.jit.const_f64(float_bits_of_i16(rhs));
        self.xmm_mov(flhs, fret);
        match kind {
            BinOpK::Add => { self.emit_one(Addsd(xmm(fret), Rip(imm))); },
            BinOpK::Sub => { self.emit_one(Subsd(xmm(fret), Rip(imm))); },
            BinOpK::Mul => { self.emit_one(Mulsd(xmm(fret), Rip(imm))); },
            BinOpK::Div => {
                if rhs == 0 {
                    let div_by_zero = self.div_by_zero;
                    self.emit_one(Jmp(Target::Label(div_by_zero)));
                } else {
                    self.emit_one(Divsd(xmm(fret), Rip(imm)));
                }
            },
            _ => {},
        }
    }

    /// An arithmetic operation on a small integer and an unboxed float:
    /// `fret = lhs op frhs`.
    pub fn gen_binop_float_ir(&mut self, kind: BinOpK, fret: u16, lhs: i16, frhs: u16)
        requires
            kind.arith(),
        ensures
            final(self)@ == old(self)@.gen_binop_float_ir(kind, fret, lhs, frhs),
    {
        reveal(CodegenView::gen_binop_float_ir);
        let imm0 = self.jit.const_f64(float_bits_of_i16(lhs));
        if fret != frhs {
            self.emit_one(Movq(xmm(fret), Rip(imm0)));
            match kind {
                BinOpK::Add => { self.emit_one(Addsd(xmm(fret), xmm(frhs))); },
                BinOpK::Sub => { self.emit_one(Subsd(xmm(fret), xmm(frhs))); },
                BinOpK::Mul => { self.emit_one(Mulsd(xmm(fret), xmm(frhs))); },
                BinOpK::Div => {
                    self.gen_float_div_guard(frhs);
                    self.emit_one(Divsd(xmm(fret), xmm(frhs)));
                },
                _ => {},
            }
        } else {
            match kind {
                BinOpK::Add => { self.emit_one(Addsd(xmm(fret), Rip(imm0))); },
                BinOpK::Sub => {
                    self.emit(vec![Movq(Xmm(0), xmm(frhs)), Movq(xmm(fret), Rip(imm0)), Subsd(xmm(fret), Xmm(0))]);
                },
                BinOpK::Mul => { self.emit_one(Mulsd(xmm(fret), Rip(imm0))); },
                BinOpK::Div => {
                    self.gen_float_div_guard(frhs);
                    self.emit(vec![Movq(xmm(fret), Rip(imm0)), Movq(Xmm(0), R(Rax)), Divsd(xmm(fret), Xmm(0))]);
                },
                _ => {},
            }
        }
    }

    /// A binary operation through the runtime, whatever the operands are.
    pub fn gen_binop_kind(&mut self, using_xmm: &Vec<usize>, pc: BcPc, kind: BinOpK, ret: SlotId)
        requires
            pc.ok(),
            using_ok(using_xmm@),
        ensures
            final(self)@ == old(self)@.gen_binop_kind(using_xmm@, pc, kind, ret),
    {
        reveal(CodegenView::gen_binop_kind);
        self.generic_binop(ret, kind.generic_func(), using_xmm, pc);
    }

    /// Turns the flags of a floating-point comparison into `true` or `false` in `rax`.
    pub fn setflag_float(&mut self, kind: CmpKind)
        ensures
            final(self)@ == old(self)@.setflag_float(kind),
    {
        reveal(CodegenView::setflag_float);
        self.emit(vec![Setcc(float_cond(kind), Rax), Shlq(R(Rax), Imm(3)), Orq(R(Rax), Imm64(FALSE_VALUE))]);
    }

    /// Loads both operands and goes to `generic` unless both are small integers.
    pub fn gen_cmp_prep(&mut self, lhs: SlotId, rhs: SlotId, generic: DestLabel)
        ensures
            final(self)@ == old(self)@.gen_cmp_prep(lhs, rhs, generic),
    {
        reveal(CodegenView::gen_cmp_prep);
        self.load_binary_args(lhs, rhs);
        self.guard_rdi_rsi_fixnum(generic);
    }

    /// Loads the operand and the tagged literal and goes to `generic` unless the operand is a small integer.
    pub fn gen_cmpri_prep(&mut self, lhs: SlotId, rhs: i16, generic: DestLabel)
        ensures
            final(self)@ == old(self)@.gen_cmpri_prep(lhs, rhs, generic),
    {
        reveal(CodegenView::gen_cmpri_prep);
        self.emit(vec![Movq(R(Rdi), slot(lhs)), Movq(R(Rsi), fixnum_imm(rhs))]);
        self.guard_rdi_fixnum(generic);
    }

    /// Compares the tagged integers in `rdi` and `rsi` and stores `true` or
    /// `false`: the flag, shifted left by three, or-ed onto `false`.  The
    /// runtime's comparison, reached through `generic`, stands on the slow page.
    pub fn gen_cmp_kind(
        &mut self,
        kind: CmpKind,
        generic: DestLabel,
        ret: SlotId,
        xmm_using: &Vec<usize>,
    )
        requires
            using_ok(xmm_using@),
        ensures
            final(self)@ == old(self)@.gen_cmp_kind(kind, generic, ret, xmm_using@),
    {
        reveal(CodegenView::gen_cmp_kind);
        let exit = self.label();
        self.emit(vec![
            Xorq(R(Rax), R(Rax)),
            Cmpq(R(Rdi), R(Rsi)),
            Setcc(int_cond(kind), Rax),
            Shlq(R(Rax), Imm(3)),
            Orq(R(Rax), Imm64(FALSE_VALUE)),
            Bind(exit),
        ]);
        self.select_page(1);
        self.emit_one(Bind(generic));
        self.xmm_save(xmm_using);
        self.emit(vec![Movq(R(Rax), Func(generic_cmp(kind))), Call(Target::Reg(Rax))]);
        self.xmm_restore(xmm_using);
        self.emit_one(Jmp(Target::Label(exit)));
        self.select_page(0);
        self.store_rax(ret);
    }

    /// A comparison of integers fused with the branch that consumes it: the
    /// flags of the comparison decide the jump and no boolean is made.  On
    /// the slow page the runtime's comparison is tested for truth.
    pub fn gen_cmp_int_opt(
        &mut self,
        kind: CmpKind,
        branch_dest: DestLabel,
        generic: DestLabel,
        brkind: BrKind,
        xmm_using: &Vec<usize>,
    )
        requires
            using_ok(xmm_using@),
        ensures
            final(self)@ == old(self)@.gen_cmp_int_opt(kind, branch_dest, generic, brkind, xmm_using@),
    {
        reveal(CodegenView::gen_cmp_int_opt);
        let cont = self.label();
        match brkind {
            BrKind::BrIf => { self.emit_one(Jcc(int_cond(kind), branch_dest)); },
            BrKind::BrIfNot => { self.emit_one(Jcc(int_cond(opposite(kind)), branch_dest)); },
        }
        self.bind_label(cont);
        self.select_page(1);
        self.bind_label(generic);
        self.xmm_save(xmm_using);
        self.emit(vec![Movq(R(Rax), Func(generic_cmp(kind))), Call(Target::Reg(Rax))]);
        self.xmm_restore(xmm_using);
        self.emit(vec![Orq(R(Rax), Imm(0x10)), Cmpq(R(Rax), Imm64(FALSE_VALUE))]);
        match brkind {
            BrKind::BrIf => { self.emit(vec![Jcc(Cond::Eq, cont), Jmp(Target::Label(branch_dest))]); },
            BrKind::BrIfNot => { self.emit(vec![Jcc(Cond::Ne, cont), Jmp(Target::Label(branch_dest))]); },
        }
        self.select_page(0);
    }

    /// A comparison of floats fused with the branch that consumes it.
    pub fn gen_cmp_float_opt(&mut self, kind: CmpKind, branch_dest: DestLabel, brkind: BrKind)
        ensures
            final(self)@ == old(self)@.gen_cmp_float_opt(kind, branch_dest, brkind),
    {
        reveal(CodegenView::gen_cmp_float_opt);
        let cont = self.label();
        match brkind {
            BrKind::BrIf => { self.emit_one(Jcc(float_cond(kind), branch_dest)); },
            BrKind::BrIfNot => { self.emit_one(Jcc(float_cond(opposite(kind)), branch_dest)); },
        }
        self.bind_label(cont);
    }

    /// A conditional branch on a slot: `nil` and `false` are false, every
    /// other value is true.  Setting bit 4 folds `nil` into `false`.
    pub fn gen_cond_br(&mut self, reg: SlotId, branch_dest: DestLabel, brkind: BrKind)
        ensures
            final(self)@ == old(self)@.gen_cond_br(reg, branch_dest, brkind),
    {
        reveal(CodegenView::gen_cond_br);
        self.emit(vec![Movq(R(Rax), slot(reg)), Orq(R(Rax), Imm(0x10)), Cmpq(R(Rax), Imm64(FALSE_VALUE))]);
        match brkind {
            BrKind::BrIf => { self.emit_one(Jcc(Cond::Ne, branch_dest)); },
            BrKind::BrIfNot => { self.emit_one(Jcc(Cond::Eq, branch_dest)); },
        }
    }
}

} // verus!
