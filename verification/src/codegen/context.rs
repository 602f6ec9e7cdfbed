//! Compilation rules that change the context of the basic block: copies
//! between slots, write-backs, the loading of slots into xmm registers under
//! a type assumption, and method calls.

use vstd::prelude::*;
use crate::assembler::{Cond, Data, DestLabel, Inst, RuntimeFn, Target};
use crate::assembler::Inst::{Call, Cvtsi2sdq, Jmp, Movq, Sarq, Sqrtsd};
use crate::assembler::Operand::{Func, Imm, Xmm, R};
use crate::assembler::Reg::{Rax, Rdi};
use crate::bbctx::{BBContext, BBView, LinkMode};
use crate::codegen::jitgen::{lemma_using_ok, using_ok};
use crate::codegen::method_call::args_ok;
use crate::codegen::{Codegen, CodegenView};
use crate::frame::{slot, xmm, xmm_index};
use crate::funcs::{FnStore, FuncKind, InlineCached, InlineMethod, MethodInfo};
use crate::ids::{BcPc, ClassId, IdentId, SlotId, FLOAT_CLASS, INTEGER_CLASS};

verus! {

/// The inline form of the function that a call site resolved to, if the
/// site is resolved and the function has one.
pub open spec fn inline_of_spec(fnstore: &FnStore, cached: Option<InlineCached>) -> Option<InlineMethod> {
    match cached {
        Some(c) => if c.meta.func_id_spec().0 < fnstore.functions@.len() {
            fnstore.functions@[c.meta.func_id_spec().0 as int].inline
        } else {
            None
        },
        None => None,
    }
}

#[verifier::when_used_as_spec(inline_of_spec)]
pub fn inline_of(fnstore: &FnStore, cached: Option<InlineCached>) -> (r: Option<InlineMethod>)
    ensures
        r == inline_of_spec(fnstore, cached),
{
    match cached {
        Some(c) => match fnstore.get(c.func_id()) {
            Some(info) => info.inline,
            None => None,
        },
        None => None,
    }
}

/// The cache of a call site together with the kind of the function it names,
/// where the code may rely on the cache: the site is resolved, the function
/// exists, and, for a call on *self*, the cached class is the class that the
/// code is compiled for.
pub open spec fn resolve_cached_spec(
    fnstore: &FnStore,
    self_class: ClassId,
    recv: SlotId,
    cached: Option<InlineCached>,
) -> Option<(InlineCached, FuncKind)> {
    match cached {
        Some(c) => if recv.0 == 0 && self_class != c.class_id {
            None
        } else if c.meta.func_id_spec().0 < fnstore.functions@.len() {
            Some((c, fnstore.functions@[c.meta.func_id_spec().0 as int].kind))
        } else {
            None
        },
        None => None,
    }
}

#[verifier::when_used_as_spec(resolve_cached_spec)]
pub fn resolve_cached(fnstore: &FnStore, self_class: ClassId, recv: SlotId, cached: Option<InlineCached>) -> (r:
    Option<(InlineCached, FuncKind)>)
    ensures
        r == resolve_cached_spec(fnstore, self_class, recv, cached),
{
    match cached {
        Some(c) => {
            if recv.0 == 0 && self_class.0 != c.class_id.0 {
                None
            } else {
                match fnstore.get(c.func_id()) {
                    Some(info) => Some((c, info.kind)),
                    None => None,
                }
            }
        },
        None => None,
    }
}

/// The class and version that a site's cache holds; zero where it holds
/// none.
pub open spec fn class_version_of_spec(cached: Option<InlineCached>) -> (ClassId, u32) {
    match cached {
        Some(c) => (c.class_id, c.version),
        None => (ClassId(0), 0),
    }
}

#[verifier::when_used_as_spec(class_version_of_spec)]
pub fn class_version_of(cached: Option<InlineCached>) -> (r: (ClassId, u32))
    ensures
        r == class_version_of_spec(cached),
{
    match cached {
        Some(c) => (c.class_id, c.version),
        None => (ClassId(0), 0),
    }
}

impl BBView {
    /// The state after the `len` slots from `arg` on were written back.
    pub open spec fn written_back_range(self, arg: SlotId, len: u16) -> BBView
        decreases len,
    {
        if len == 0 {
            self
        } else {
            let i = (len - 1) as u16;
            self.written_back_range(arg, i).written_back(SlotId((arg.0 + i) as u16))
        }
    }

    /// Writing slots back keeps the context well formed and takes no
    /// register.
    pub proof fn lemma_written_back_range(self, arg: SlotId, len: u16)
        requires
            self.wf(),
            arg.0 + len <= self.slots.len(),
            arg.0 + len <= 0x1_0000,
        ensures
            self.written_back_range(arg, len).wf(),
            self.written_back_range(arg, len).slots.len() == self.slots.len(),
            self.written_back_range(arg, len).vacant_count() == self.vacant_count(),
            self.written_back_range(arg, len).xmm == self.xmm,
            self.written_back_range(arg, len).self_class == self.self_class,
            self.written_back_range(arg, len).local_num == self.local_num,
        decreases len,
    {
        if len > 0 {
            let i = (len - 1) as u16;
            self.lemma_written_back_range(arg, i);
            let mid = self.written_back_range(arg, i);
            let reg = SlotId((arg.0 + i) as u16);
            mid.lemma_written_back_wf(reg);
            mid.lemma_vacant_steps(reg, LinkMode::Stack, 0, 0);
        }
    }

    /// The register through which `reg` is read: the one it is linked to, or
    /// the one it gets.
    pub open spec fn read_reg(self, reg: SlotId) -> u16 {
        match self.mode(reg).xmm() {
            Some(f) => f,
            None => self.vacant() as u16,
        }
    }
}

impl CodegenView {
    /// The `len` slots from `arg` on written back, in order.
    pub open spec fn write_back_range(self, ctx: BBView, arg: SlotId, len: u16) -> (CodegenView, BBView)
        decreases len,
    {
        if len == 0 {
            (self, ctx)
        } else {
            let i = (len - 1) as u16;
            let (c, x) = self.write_back_range(ctx, arg, i);
            c.write_back_slot(x, SlotId((arg.0 + i) as u16))
        }
    }

    /// What `write_back_range` does to the context.
    pub proof fn lemma_write_back_range(self, ctx: BBView, arg: SlotId, len: u16)
        ensures
            self.write_back_range(ctx, arg, len).1 == ctx.written_back_range(arg, len),
        decreases len,
    {
        reveal(CodegenView::write_back_slot);
        if len > 0 {
            self.lemma_write_back_range(ctx, arg, (len - 1) as u16);
        }
    }
}

impl Codegen {
    /// Writes back each of the `len` slots from `arg` on.
    pub fn write_back_range(&mut self, ctx: &mut BBContext, arg: SlotId, len: u16)
        requires
            old(ctx)@.wf(),
            arg.0 + len <= old(ctx)@.slots.len(),
            arg.0 + len <= 0x1_0000,
        ensures
            (final(self)@, final(ctx)@) == old(self)@.write_back_range(old(ctx)@, arg, len),
            final(ctx)@ == old(ctx)@.written_back_range(arg, len),
            final(ctx)@.wf(),
            final(ctx)@.slots.len() == old(ctx)@.slots.len(),
            final(ctx)@.vacant_count() == old(ctx)@.vacant_count(),
            final(ctx)@.local_num == old(ctx)@.local_num,
            final(ctx)@.self_class == old(ctx)@.self_class,
    {
        let mut i: u16 = 0;
        while i < len
            invariant
                i <= len,
                arg.0 + len <= old(ctx)@.slots.len(),
                arg.0 + len <= 0x1_0000,
                ctx@.wf(),
                ctx@.slots.len() == old(ctx)@.slots.len(),
                (self@, ctx@) == old(self)@.write_back_range(old(ctx)@, arg, i),
            decreases len - i,
        {
            self.write_back_slot(ctx, arg.offset(i));
            i += 1;
        }
        proof {
            old(self)@.lemma_write_back_range(old(ctx)@, arg, len);
            old(ctx)@.lemma_written_back_range(arg, len);
        }
    }
}

impl CodegenView {
    #[verifier::opaque]
    pub open spec fn write_back_slot(self, ctx: BBView, reg: SlotId) -> (CodegenView, BBView) {
        let c = self;
        let (c, ctx) = match ctx.mode(reg) {
            LinkMode::XmmRW(freg) => {
                let f64_to_val = c.f64_to_val;
                let c = c.emit(seq![Movq(Xmm(0), xmm(freg)), Call(Target::Label(f64_to_val))]);
                let c = c.store_rax(reg);
                let ctx = ctx.written_back(reg);
                (c, ctx)
            },
            _ => {
                (c, ctx)
            },
        };
        (c, ctx)
    }

    #[verifier::opaque]
    pub open spec fn copy_slot(
        self,
        ctx: BBView,
        src: SlotId,
        dst: SlotId,
    ) -> (CodegenView, BBView) {
        let c = self;
        let ctx = ctx.dealloc(dst);
        let (c, ctx) = match ctx.mode(src) {
            LinkMode::XmmRW(freg) => {
                let ctx = ctx.link(dst, LinkMode::XmmRW(freg));
                (c, ctx)
            },
            LinkMode::XmmR(freg) => {
                let ctx = ctx.link(dst, LinkMode::XmmRW(freg));
                (c, ctx)
            },
            LinkMode::Stack => {
                let c = c.emit(seq![Movq(R(Rax), slot(src)), Movq(slot(dst), R(Rax))]);
                (c, ctx)
            },
        };
        (c, ctx)
    }

    #[verifier::opaque]
    pub open spec fn deopt(self, ctx: BBView, pc: BcPc) -> CodegenView {
        let c = self;
        let wb = ctx.write_back();
        let fallback = c.nth(0);
        let c = c.gen_side_deopt_dest(pc, wb);
        let c = c.emit(seq![Jmp(Target::Label(fallback))]);
        c
    }

    #[verifier::opaque]
    pub open spec fn xmm_read_assume_float(
        self,
        ctx: BBView,
        reg: SlotId,
        pc: BcPc,
    ) -> (CodegenView, BBView) {
        let c = self;
        let (c, ctx) = match ctx.mode(reg) {
            LinkMode::Stack => {
                let freg = ctx.vacant() as u16;
                let ctx = ctx.link(reg, LinkMode::XmmR(freg));
                let wb = ctx.write_back();
                let side_exit = c.nth(0);
                let c = c.gen_side_deopt_dest(pc, wb);
                let c = c.emit(seq![Movq(R(Rdi), slot(reg))]);
                let c = c.gen_val_to_f64_assume_float(xmm_index(freg), side_exit);
                (c, ctx)
            },
            _ => {
                (c, ctx)
            },
        };
        (c, ctx)
    }

    #[verifier::opaque]
    pub open spec fn xmm_read_assume_integer(
        self,
        ctx: BBView,
        reg: SlotId,
        pc: BcPc,
    ) -> (CodegenView, BBView) {
        let c = self;
        let (c, ctx) = match ctx.mode(reg) {
            LinkMode::Stack => {
                let freg = ctx.vacant() as u16;
                let ctx = ctx.link(reg, LinkMode::XmmR(freg));
                let wb = ctx.write_back();
                let side_exit = c.nth(0);
                let c = c.gen_side_deopt_dest(pc, wb);
                let c = c.emit(seq![Movq(R(Rdi), slot(reg))]);
                let c = c.gen_val_to_f64_assume_integer(xmm_index(freg), side_exit);
                (c, ctx)
            },
            _ => {
                (c, ctx)
            },
        };
        (c, ctx)
    }

    #[verifier::opaque]
    pub open spec fn xmm_read_assume(
        self,
        ctx: BBView,
        reg: SlotId,
        class: ClassId,
        pc: BcPc,
    ) -> (CodegenView, BBView) {
        let c = self;
        let (c, ctx) = if class.0 == INTEGER_CLASS {
            let (c, ctx) = c.xmm_read_assume_integer(ctx, reg, pc);
            (c, ctx)
        } else {
            let (c, ctx) = c.xmm_read_assume_float(ctx, reg, pc);
            (c, ctx)
        };
        (c, ctx)
    }

    #[verifier::opaque]
    pub open spec fn gen_inlinable(
        self,
        ctx: BBView,
        method_info: MethodInfo,
        inline_id: InlineMethod,
        class: ClassId,
        version: u32,
        ret: SlotId,
        pc: BcPc,
    ) -> (CodegenView, BBView) {
        let c = self;
        let wb = ctx.write_back();
        let deopt = c.nth(0);
        let c = c.gen_side_deopt_dest(pc, wb);
        let c = c.emit(seq![Movq(R(Rdi), slot(method_info.recv))]);
        let (c, ctx) = if !method_info.recv.is_zero() {
            let c = c.guard_class(class, deopt);
            (c, ctx)
        } else {
            (c, ctx)
        };
        let c = c.guard_version(version, deopt);
        let (c, ctx) = match inline_id {
            InlineMethod::IntegerTof => {
                let fret = ctx.xmm_write(ret).1;
                let ctx = ctx.xmm_write(ret).0;
                let c = c.emit(seq![Sarq(R(Rdi), Imm(1)), Cvtsi2sdq(xmm(fret), R(Rdi))]);
                (c, ctx)
            },
            InlineMethod::MathSqrt => {
                let fsrc = ctx.read_reg(method_info.args);
                let (c, ctx) = c.xmm_read_assume_float(ctx, method_info.args, pc);
                let fret = ctx.xmm_write(ret).1;
                let ctx = ctx.xmm_write(ret).0;
                let c = c.emit(seq![Sqrtsd(xmm(fret), xmm(fsrc))]);
                (c, ctx)
            },
            InlineMethod::MathCos => {
                let fsrc = ctx.read_reg(method_info.args);
                let (c, ctx) = c.xmm_read_assume_float(ctx, method_info.args, pc);
                let fret = ctx.xmm_write(ret).1;
                let ctx = ctx.xmm_write(ret).0;
                let xmm_using = ctx.using();
                let c = c.xmm_save(xmm_using);
                let c = c.emit(seq![Movq(Xmm(0), xmm(fsrc)), Movq(R(Rax), Func(RuntimeFn::Cos)), Call(Target::Reg(Rax))]);
                let c = c.xmm_restore(xmm_using);
                let c = c.emit(seq![Movq(xmm(fret), Xmm(0))]);
                (c, ctx)
            },
            InlineMethod::MathSin => {
                let fsrc = ctx.read_reg(method_info.args);
                let (c, ctx) = c.xmm_read_assume_float(ctx, method_info.args, pc);
                let fret = ctx.xmm_write(ret).1;
                let ctx = ctx.xmm_write(ret).0;
                let xmm_using = ctx.using();
                let c = c.xmm_save(xmm_using);
                let c = c.emit(seq![Movq(Xmm(0), xmm(fsrc)), Movq(R(Rax), Func(RuntimeFn::Sin)), Call(Target::Reg(Rax))]);
                let c = c.xmm_restore(xmm_using);
                let c = c.emit(seq![Movq(xmm(fret), Xmm(0))]);
                (c, ctx)
            },
        };
        (c, ctx)
    }

    #[verifier::opaque]
    pub open spec fn gen_call(
        self,
        fnstore: &FnStore,
        ctx: BBView,
        method_info: MethodInfo,
        name: IdentId,
        block: Option<SlotId>,
        ret: SlotId,
        pc: BcPc,
        cached: Option<InlineCached>,
    ) -> CodegenView {
        let c = self;
        let c = match resolve_cached(fnstore, ctx.self_class, method_info.recv, cached) {
            Some(found) => {
                let c = c.gen_call_cached(ctx, method_info, name, block, ret, found.0, found.1, pc);
                c
            },
            None => {
                let c = c.gen_call_not_cached(ctx, method_info, name, block, ret, pc);
                c
            },
        };
        c
    }

    #[verifier::opaque]
    pub open spec fn gen_method_call(
        self,
        fnstore: &FnStore,
        ctx: BBView,
        method_info: MethodInfo,
        ret: SlotId,
        name: IdentId,
        pc: BcPc,
        cached: Option<InlineCached>,
    ) -> (CodegenView, BBView) {
        let c = self;
        let ctx = ctx.dealloc(ret);
        let (c, ctx) = c.write_back_slot(ctx, method_info.recv);
        let (c, ctx) = match inline_of(fnstore, cached) {
            Some(inline_id) => {
                let cv = class_version_of(cached);
                let (c, ctx) = c.gen_inlinable(ctx, method_info, inline_id, cv.0, cv.1, ret, pc);
                (c, ctx)
            },
            None => {
                let (c, ctx) = c.write_back_range(ctx, method_info.args, method_info.len);
                let next = pc.next(1);
                let c = c.gen_call(fnstore, ctx, method_info, name, None, ret, next, cached);
                (c, ctx)
            },
        };
        (c, ctx)
    }

    #[verifier::opaque]
    pub open spec fn gen_method_call_with_block(
        self,
        fnstore: &FnStore,
        ctx: BBView,
        method_info: MethodInfo,
        ret: SlotId,
        name: IdentId,
        pc: BcPc,
        cached: Option<InlineCached>,
    ) -> (CodegenView, BBView) {
        let c = self;
        let ctx = ctx.dealloc(ret);
        let (c, ctx) = c.write_back_range(ctx, method_info.args, (method_info.len + 1) as u16);
        let wb = ctx.locals_write_back_upto(14);
        let c = c.gen_write_back(wb);
        let ctx = ctx.dealloc_all(BBView::locals(ctx.local_num as int));
        let shifted = method_info.shift();
        let next = pc.next(1);
        let c = c.gen_call(fnstore, ctx, shifted, name, Some(method_info.args), ret, next, cached);
        (c, ctx)
    }
}

impl Codegen {
    /// Write back a corresponding xmm register to the stack slot *reg*.
    ///
    /// The slot keeps its register as a read-only copy.
    pub fn write_back_slot(&mut self, ctx: &mut BBContext, reg: SlotId)
        requires
            old(ctx)@.wf(),
            reg.0 < old(ctx)@.slots.len(),
        ensures
            (final(self)@, final(ctx)@) == old(self)@.write_back_slot(old(ctx)@, reg),
            final(ctx)@ == old(ctx)@.written_back(reg),
            final(ctx)@.wf(),
            final(ctx)@.slots.len() == old(ctx)@.slots.len(),
            final(ctx)@.vacant_count() == old(ctx)@.vacant_count(),
    {
        reveal(CodegenView::write_back_slot);
        proof {
            old(ctx)@.lemma_vacant_steps(reg, LinkMode::Stack, 0, 0);
        }
        match ctx.mode(reg) {
            LinkMode::XmmRW(freg) => {
                let f64_to_val = self.f64_to_val;
                self.emit(vec![Movq(Xmm(0), xmm(freg)), Call(Target::Label(f64_to_val))]);
                self.store_rax(reg);
                ctx.set_written_back(reg);
            },
            _ => {},
        }
    }

    /// Copy *src* to *dst*.
    ///
    /// A source that is linked to a register shares it with the destination,
    /// which becomes writable; no code is needed.  Else the value is copied
    /// from stack slot to stack slot.
    pub fn copy_slot(&mut self, ctx: &mut BBContext, src: SlotId, dst: SlotId)
        requires
            old(ctx)@.wf(),
            src.0 < old(ctx)@.slots.len(),
            dst.0 < old(ctx)@.slots.len(),
        ensures
            (final(self)@, final(ctx)@) == old(self)@.copy_slot(old(ctx)@, src, dst),
            final(ctx)@ == old(ctx)@.copy_slot(src, dst),
            final(ctx)@.wf(),
            final(ctx)@.slots.len() == old(ctx)@.slots.len(),
            final(ctx)@.vacant_count() >= old(ctx)@.vacant_count(),
    {
        reveal(CodegenView::copy_slot);
        ctx.dealloc_xmm(dst);
        proof {
            let m = ctx@.mode(src);
            if m.xmm() is Some {
                ctx@.lemma_link_wf(dst, LinkMode::XmmRW(m.xmm()->0));
                ctx@.lemma_vacant_steps(dst, LinkMode::XmmRW(m.xmm()->0), 0, 0);
                assert(ctx@.xmm[m.xmm()->0 as int].contains(src));
            }
        }
        match ctx.mode(src) {
            LinkMode::XmmRW(freg) => {
                ctx.link_rw_xmm(dst, freg);
            },
            LinkMode::XmmR(freg) => {
                ctx.link_rw_xmm(dst, freg);
            },
            LinkMode::Stack => {
                self.emit(vec![Movq(R(Rax), slot(src)), Movq(slot(dst), R(Rax))]);
            },
        }
    }

    /// Fallback to interpreter after Writing back all linked xmms.
    pub fn deopt(&mut self, ctx: &BBContext, pc: BcPc)
        requires
            ctx@.wf(),
        ensures
            final(self)@ == old(self)@.deopt(ctx@, pc),
    {
        reveal(CodegenView::deopt);
        let wb = ctx.get_write_back();
        let fallback = self.gen_side_deopt_dest(pc, &wb);
        self.emit_one(Jmp(Target::Label(fallback)));
    }

    /// The register through which the slot is read as a float.
    ///
    /// A slot that is linked is read from its register.  Else a register is
    /// linked for reading, and code is generated that unboxes the slot into it
    /// and leaves through a side exit where the slot holds no float.
    pub fn xmm_read_assume_float(&mut self, ctx: &mut BBContext, reg: SlotId, pc: BcPc) -> (r: u16)
        requires
            old(ctx)@.wf(),
            reg.0 < old(ctx)@.slots.len(),
            old(ctx)@.vacant_count() >= old(ctx)@.need_read(reg),
        ensures
            (final(self)@, final(ctx)@) == old(self)@.xmm_read_assume_float(old(ctx)@, reg, pc),
            r == old(ctx)@.read_reg(reg),
            final(ctx)@.wf(),
            final(ctx)@.slots.len() == old(ctx)@.slots.len(),
            final(ctx)@.vacant_count() >= old(ctx)@.vacant_count() - old(ctx)@.need_read(reg),
            final(ctx)@.keeps_owners(old(ctx)@),
            old(ctx)@.mode(reg) is Stack ==> final(ctx)@.sole_owner(reg),
            old(ctx)@.mode(reg).xmm() is Some ==> final(ctx)@ == old(ctx)@,
            final(ctx)@.mode(reg).xmm() == Some(r),
            r < 14,
            forall|s: int| 0 <= s < old(ctx)@.slots.len() && s != reg.0 ==> final(ctx)@.slots[s] == old(ctx)@.slots[s],
    {
        reveal(CodegenView::xmm_read_assume_float);
        match ctx.mode(reg) {
            LinkMode::Stack => {
                proof {
                    ctx@.lemma_vacant_count();
                    ctx@.lemma_vacant_from(0);
                    ctx@.lemma_link_fresh(reg, LinkMode::XmmR(ctx@.vacant() as u16));
                }
                let freg = ctx.alloc_xmm_read(reg);
                let wb = ctx.get_write_back();
                let side_exit = self.gen_side_deopt_dest(pc, &wb);
                self.emit_one(Movq(R(Rdi), slot(reg)));
                let entry = self.gen_val_to_f64_assume_float(xmm_index(freg), side_exit);
            },
            _ => {},
        }
        ctx.linked_xmm(reg)
    }

    /// The register through which a slot that holds an integer is read as a
    /// float: as for a float, but the code converts the integer.
    pub fn xmm_read_assume_integer(
        &mut self,
        ctx: &mut BBContext,
        reg: SlotId,
        pc: BcPc,
    ) -> (r: u16)
        requires
            old(ctx)@.wf(),
            reg.0 < old(ctx)@.slots.len(),
            old(ctx)@.vacant_count() >= old(ctx)@.need_read(reg),
        ensures
            (final(self)@, final(ctx)@) == old(self)@.xmm_read_assume_integer(old(ctx)@, reg, pc),
            r == old(ctx)@.read_reg(reg),
            final(ctx)@.wf(),
            final(ctx)@.slots.len() == old(ctx)@.slots.len(),
            final(ctx)@.vacant_count() >= old(ctx)@.vacant_count() - old(ctx)@.need_read(reg),
            final(ctx)@.keeps_owners(old(ctx)@),
            old(ctx)@.mode(reg) is Stack ==> final(ctx)@.sole_owner(reg),
            old(ctx)@.mode(reg).xmm() is Some ==> final(ctx)@ == old(ctx)@,
            final(ctx)@.mode(reg).xmm() == Some(r),
            r < 14,
            forall|s: int| 0 <= s < old(ctx)@.slots.len() && s != reg.0 ==> final(ctx)@.slots[s] == old(ctx)@.slots[s],
    {
        reveal(CodegenView::xmm_read_assume_integer);
        match ctx.mode(reg) {
            LinkMode::Stack => {
                proof {
                    ctx@.lemma_vacant_count();
                    ctx@.lemma_vacant_from(0);
                    ctx@.lemma_link_fresh(reg, LinkMode::XmmR(ctx@.vacant() as u16));
                }
                let freg = ctx.alloc_xmm_read(reg);
                let wb = ctx.get_write_back();
                let side_exit = self.gen_side_deopt_dest(pc, &wb);
                self.emit_one(Movq(R(Rdi), slot(reg)));
                let entry = self.gen_val_to_f64_assume_integer(xmm_index(freg), side_exit);
            },
            _ => {},
        }
        ctx.linked_xmm(reg)
    }

    /// The register through which the slot is read as a float, under the
    /// assumption that it holds an integer where `class` is the class of
    /// integers, and a float else.
    pub fn xmm_read_assume(
        &mut self,
        ctx: &mut BBContext,
        reg: SlotId,
        class: ClassId,
        pc: BcPc,
    ) -> (r: u16)
        requires
            old(ctx)@.wf(),
            reg.0 < old(ctx)@.slots.len(),
            old(ctx)@.vacant_count() >= old(ctx)@.need_read(reg),
        ensures
            (final(self)@, final(ctx)@) == old(self)@.xmm_read_assume(old(ctx)@, reg, class, pc),
            r == old(ctx)@.read_reg(reg),
            final(ctx)@.wf(),
            final(ctx)@.slots.len() == old(ctx)@.slots.len(),
            final(ctx)@.vacant_count() >= old(ctx)@.vacant_count() - old(ctx)@.need_read(reg),
            final(ctx)@.keeps_owners(old(ctx)@),
            old(ctx)@.mode(reg) is Stack ==> final(ctx)@.sole_owner(reg),
            old(ctx)@.mode(reg).xmm() is Some ==> final(ctx)@ == old(ctx)@,
            final(ctx)@.mode(reg).xmm() == Some(r),
            r < 14,
            forall|s: int| 0 <= s < old(ctx)@.slots.len() && s != reg.0 ==> final(ctx)@.slots[s] == old(ctx)@.slots[s],
    {
        reveal(CodegenView::xmm_read_assume);
        if class.0 == INTEGER_CLASS {
            let f = self.xmm_read_assume_integer(ctx, reg, pc);
        } else {
            let f = self.xmm_read_assume_float(ctx, reg, pc);
        }
        ctx.linked_xmm(reg)
    }

    /// A call of a method that has an inline form: conversion of an integer
    /// to a float, square root, cosine and sine.  The code is guarded by the
    /// cached class and version.
    pub fn gen_inlinable(
        &mut self,
        ctx: &mut BBContext,
        method_info: MethodInfo,
        inline_id: InlineMethod,
        class: ClassId,
        version: u32,
        ret: SlotId,
        pc: BcPc,
    )
        requires
            pc.ok(),
            old(ctx)@.wf(),
            method_info.recv.0 < old(ctx)@.slots.len(),
            method_info.args.0 < old(ctx)@.slots.len(),
            ret.0 < old(ctx)@.slots.len(),
            old(ctx)@.vacant_count() >= crate::codegen::rules::inline_need(old(ctx)@, inline_id, method_info.args, ret),
        ensures
            (final(self)@, final(ctx)@) == old(self)@.gen_inlinable(old(ctx)@, method_info, inline_id, class, version, ret, pc),
            final(ctx)@.wf(),
            final(ctx)@.slots.len() == old(ctx)@.slots.len(),
            final(ctx)@.vacant_count() >= old(ctx)@.vacant_count() - 2,
    {
        reveal(CodegenView::gen_inlinable);
        let wb = ctx.get_write_back();
        let deopt = self.gen_side_deopt_dest(pc, &wb);
        self.emit_one(Movq(R(Rdi), slot(method_info.recv)));
        if !method_info.recv.is_zero() {
            self.guard_class(class, deopt);
        }
        self.guard_version(version, deopt);
        match inline_id {
            InlineMethod::IntegerTof => {
                proof {
                    ctx@.lemma_vacant_steps(ret, LinkMode::Stack, 0, 0);
                    ctx@.lemma_sole_owner(ret);
                    ctx@.lemma_vacant_count();
                }
                let fret = ctx.xmm_write(ret);
                self.emit(vec![Sarq(R(Rdi), Imm(1)), Cvtsi2sdq(xmm(fret), R(Rdi))]);
            },
            InlineMethod::MathSqrt => {
                let fsrc = self.xmm_read_assume_float(ctx, method_info.args, pc);
                proof {
                    ctx@.lemma_can_write(old(ctx)@, ret, method_info.args, method_info.args);
                }
                let fret = ctx.xmm_write(ret);
                self.emit_one(Sqrtsd(xmm(fret), xmm(fsrc)));
            },
            InlineMethod::MathCos => {
                let fsrc = self.xmm_read_assume_float(ctx, method_info.args, pc);
                proof {
                    ctx@.lemma_can_write(old(ctx)@, ret, method_info.args, method_info.args);
                }
                let fret = ctx.xmm_write(ret);
                let xmm_using = ctx.get_xmm_using();
                proof {
                    lemma_using_ok(ctx@);
                }
                self.xmm_save(&xmm_using);
                self.emit(vec![Movq(Xmm(0), xmm(fsrc)), Movq(R(Rax), Func(RuntimeFn::Cos)), Call(Target::Reg(Rax))]);
                self.xmm_restore(&xmm_using);
                self.emit_one(Movq(xmm(fret), Xmm(0)));
            },
            InlineMethod::MathSin => {
                let fsrc = self.xmm_read_assume_float(ctx, method_info.args, pc);
                proof {
                    ctx@.lemma_can_write(old(ctx)@, ret, method_info.args, method_info.args);
                }
                let fret = ctx.xmm_write(ret);
                let xmm_using = ctx.get_xmm_using();
                proof {
                    lemma_using_ok(ctx@);
                }
                self.xmm_save(&xmm_using);
                self.emit(vec![Movq(Xmm(0), xmm(fsrc)), Movq(R(Rax), Func(RuntimeFn::Sin)), Call(Target::Reg(Rax))]);
                self.xmm_restore(&xmm_using);
                self.emit_one(Movq(xmm(fret), Xmm(0)));
            },
        }
    }

    /// A method call, through the site's cache where the code may rely on
    /// it, else with a cache of its own in the code.
    pub fn gen_call(
        &mut self,
        fnstore: &FnStore,
        ctx: &BBContext,
        method_info: MethodInfo,
        name: IdentId,
        block: Option<SlotId>,
        ret: SlotId,
        pc: BcPc,
        cached: Option<InlineCached>,
    )
        requires
            pc.ok(),
            ctx@.wf(),
            args_ok(method_info.args, method_info.len),
        ensures
            final(self)@ == old(self)@.gen_call(fnstore, ctx@, method_info, name, block, ret, pc, cached),
    {
        reveal(CodegenView::gen_call);
        match resolve_cached(fnstore, ctx.self_class, method_info.recv, cached) {
            Some(found) => {
                self.gen_call_cached(ctx, method_info, name, block, ret, found.0, found.1, pc);
            },
            None => {
                self.gen_call_not_cached(ctx, method_info, name, block, ret, pc);
            },
        }
    }

    /// A method call without a block.
    ///
    /// The result slot loses its register, and receiver and arguments are
    /// written back, since the callee reads them from the stack.  A method
    /// with an inline form is compiled in place.
    pub fn gen_method_call(
        &mut self,
        fnstore: &FnStore,
        ctx: &mut BBContext,
        method_info: MethodInfo,
        ret: SlotId,
        name: IdentId,
        pc: BcPc,
        cached: Option<InlineCached>,
    )
        requires
            pc.ok(),
            old(ctx)@.wf(),
            method_info.recv.0 < old(ctx)@.slots.len(),
            ret.0 < old(ctx)@.slots.len(),
            method_info.args.0 + method_info.len <= old(ctx)@.slots.len(),
            method_info.args.0 < old(ctx)@.slots.len(),
            inline_of(fnstore, cached) matches Some(id) ==> {
                let d = old(ctx)@.dealloc(ret).written_back(method_info.recv);
                d.vacant_count() >= crate::codegen::rules::inline_need(d, id, method_info.args, ret)
            },
            args_ok(method_info.args, method_info.len),
            pc.next(1).ok(),
        ensures
            (final(self)@, final(ctx)@) == old(self)@.gen_method_call(fnstore, old(ctx)@, method_info, ret, name, pc, cached),
            final(ctx)@.wf(),
            final(ctx)@.slots.len() == old(ctx)@.slots.len(),
            final(ctx)@.vacant_count() >= old(ctx)@.vacant_count() - 2,
    {
        reveal(CodegenView::gen_method_call);
        ctx.dealloc_xmm(ret);
        self.write_back_slot(ctx, method_info.recv);
        match inline_of(fnstore, cached) {
            Some(inline_id) => {
                let cv = class_version_of(cached);
                self.gen_inlinable(ctx, method_info, inline_id, cv.0, cv.1, ret, pc);
            },
            None => {
                self.write_back_range(ctx, method_info.args, method_info.len);
                let next = pc.next(1);
                self.gen_call(fnstore, &*ctx, method_info, name, None, ret, next, cached);
            },
        }
    }

    /// A method call with a block.  The block stands in the slot before the
    /// arguments.
    ///
    /// We must write back and unlink all local vars since they may be accessed
    /// from block.
    pub fn gen_method_call_with_block(
        &mut self,
        fnstore: &FnStore,
        ctx: &mut BBContext,
        method_info: MethodInfo,
        ret: SlotId,
        name: IdentId,
        pc: BcPc,
        cached: Option<InlineCached>,
    )
        requires
            pc.ok(),
            old(ctx)@.wf(),
            ret.0 < old(ctx)@.slots.len(),
            method_info.args.0 + method_info.len + 1 <= old(ctx)@.slots.len(),
            method_info.len < 0xffff,
            method_info.args.0 < 0xffff,
            args_ok(method_info.args, (method_info.len + 1) as u16),
            pc.next(1).ok(),
            old(ctx)@.local_num < old(ctx)@.slots.len(),
            old(ctx)@.local_num < 0xffff,
        ensures
            (final(self)@, final(ctx)@) == old(self)@.gen_method_call_with_block(fnstore, old(ctx)@, method_info, ret, name, pc, cached),
            final(ctx)@.wf(),
            final(ctx)@.slots.len() == old(ctx)@.slots.len(),
    {
        reveal(CodegenView::gen_method_call_with_block);
        ctx.dealloc_xmm(ret);
        self.write_back_range(ctx, method_info.args, (method_info.len + 1) as u16);
        let wb = ctx.get_locals_write_back();
        self.gen_write_back(&wb);
        ctx.dealloc_locals();
        let shifted = method_info.shift();
        let next = pc.next(1);
        self.gen_call(fnstore, &*ctx, shifted, name, Some(method_info.args), ret, next, cached);
    }
}

} // verus!
