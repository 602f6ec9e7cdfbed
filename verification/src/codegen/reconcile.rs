//! Reconciliation at the joins of the control flow.
//!
//! When several edges enter a basic block, the block is compiled for the
//! join of the contexts that the edges bring.  On each edge stands a piece
//! of code that takes the edge's own context to the joined one: it writes
//! stale slots back, moves values between xmm registers, and loads slots
//! into registers.  A slot whose register the target may write is checked to
//! hold a float.  Loads and checks leave through a side exit that resumes
//! the interpreter at the record after the branch.

use vstd::prelude::*;
use crate::assembler::{DestLabel, Inst, Target};
use crate::assembler::Inst::Movq;
use crate::assembler::Operand::{Xmm, R};
use crate::assembler::Reg::Rdi;
use crate::bbctx::{wb_view, BBContext, BBView, LinkMode};
use crate::codegen::{Codegen, CodegenView};
use crate::frame::{slot, xmm, xmm_index};
use crate::ids::{BcPc, SlotId};

verus! {

/// What is left to do for a slot once the registers are in place.
#[derive(Clone, Copy, Debug, PartialEq, Eq, Structural)]
pub enum Fixup {
    Nothing,
    /// Load the slot from the stack into the register, as a float or an
    /// integer.
    Conv(u16),
    /// Check that the slot on the stack holds a float.
    Guard,
}

/// What is left to do for a slot that has the mode `src` and is to have the
/// mode `target`.
pub open spec fn fixup_of_spec(src: LinkMode, target: LinkMode) -> Fixup {
    match (src, target) {
        (LinkMode::XmmR(_), LinkMode::XmmRW(_)) => Fixup::Guard,
        (LinkMode::Stack, LinkMode::XmmR(r)) => Fixup::Conv(r),
        _ => Fixup::Nothing,
    }
}

#[verifier::when_used_as_spec(fixup_of_spec)]
pub fn fixup_of(src: LinkMode, target: LinkMode) -> (f: Fixup)
    ensures
        f == fixup_of_spec(src, target),
{
    match (src, target) {
        (LinkMode::XmmR(_), LinkMode::XmmRW(_)) => Fixup::Guard,
        (LinkMode::Stack, LinkMode::XmmR(r)) => Fixup::Conv(r),
        _ => Fixup::Nothing,
    }
}

/// The mode of a link to register `f`, writable or read-only.
pub open spec fn link_mode_spec(rw: bool, f: u16) -> LinkMode {
    if rw {
        LinkMode::XmmRW(f)
    } else {
        LinkMode::XmmR(f)
    }
}

#[verifier::when_used_as_spec(link_mode_spec)]
pub fn link_mode(rw: bool, f: u16) -> (m: LinkMode)
    ensures
        m == link_mode_spec(rw, f),
{
    if rw {
        LinkMode::XmmRW(f)
    } else {
        LinkMode::XmmR(f)
    }
}

/// The list of one slot.
pub fn one_slot(reg: SlotId) -> (v: Vec<SlotId>)
    ensures
        v@ == seq![reg],
{
    let mut v: Vec<SlotId> = Vec::new();
    v.push(reg);
    assert(v@ =~= seq![reg]);
    v
}

/// The source can be taken to the target: both are well formed and have the
/// same slots, and every slot that the target may write in its register is
/// linked to a register in the source.
pub open spec fn reconcilable(src: BBView, target: BBView) -> bool {
    &&& src.wf()
    &&& target.wf()
    &&& src.slots.len() == target.slots.len()
    &&& src.slots.len() <= 0x1_0000
    &&& forall|i: int| 0 <= i < target.slots.len() && target.slots[i] is XmmRW ==> src.linked(i)
}

/// The state of a reconciliation: the code, the source context as far as it
/// is aligned, and the loads and checks that are still to be generated.
pub struct Recon {
    pub c: CodegenView,
    pub ctx: BBView,
    pub conv: Seq<(SlotId, u16)>,
    pub guard: Seq<SlotId>,
}

impl Recon {
    /// The lists with what is left to do for `reg` appended.
    pub open spec fn note(self, c: CodegenView, ctx: BBView, reg: SlotId, fix: Fixup) -> Recon {
        match fix {
            Fixup::Nothing => Recon { c, ctx, ..self },
            Fixup::Conv(r) => Recon { c, ctx, conv: self.conv.push((reg, r)), ..self },
            Fixup::Guard => Recon { c, ctx, guard: self.guard.push(reg), ..self },
        }
    }
}

impl CodegenView {
    /// The first pass over the slots below `n`: every slot that the target
    /// keeps on the stack is unlinked in the source.
    pub open spec fn recon_unlink_all(self, ctx: BBView, target: BBView, n: int) -> (CodegenView, BBView)
        decreases n,
    {
        if n <= 0 {
            (self, ctx)
        } else {
            let (c, x) = self.recon_unlink_all(ctx, target, n - 1);
            if target.slots[n - 1] is Stack {
                c.recon_unlink(x, SlotId((n - 1) as u16))
            } else {
                (c, x)
            }
        }
    }

    /// The second pass over the slots below `n`: every slot is given the
    /// register that the target has for it.
    pub open spec fn recon_all(self, ctx: BBView, target: BBView, n: int) -> Recon
        decreases n,
    {
        if n <= 0 {
            Recon { c: self, ctx, conv: seq![], guard: seq![] }
        } else {
            let prev = self.recon_all(ctx, target, n - 1);
            let reg = SlotId((n - 1) as u16);
            let (c, x) = prev.c.recon_step(prev.ctx, reg, target.slots[n - 1]);
            prev.note(c, x, reg, fixup_of(prev.ctx.mode(reg), target.slots[n - 1]))
        }
    }

    /// The loads of slots into registers.
    pub open spec fn gen_conv(self, conv: Seq<(SlotId, u16)>, side_exit: DestLabel) -> CodegenView
        decreases conv.len(),
    {
        if conv.len() == 0 {
            self
        } else {
            self.gen_conv(conv.drop_last(), side_exit).emit(
                seq![Movq(R(Rdi), slot(conv.last().0))],
            ).gen_val_to_f64(xmm_index(conv.last().1), side_exit)
        }
    }

    /// The checks that slots hold floats.
    pub open spec fn gen_guards(self, guard: Seq<SlotId>, side_exit: DestLabel) -> CodegenView
        decreases guard.len(),
    {
        if guard.len() == 0 {
            self
        } else {
            self.gen_guards(guard.drop_last(), side_exit).gen_assume_float(guard.last(), side_exit)
        }
    }

    /// The code on an edge that takes the context `src` to the context
    /// `target`.
    pub open spec fn gen_write_back_for_target(self, src: BBView, target: BBView, pc: BcPc) -> CodegenView {
        let n = src.slots.len() as int;
        let (c, x) = self.recon_unlink_all(src, target, n);
        let r = c.recon_all(x, target, n);
        let side_exit = r.c.nth(0);
        let c = r.c.gen_side_deopt_dest(pc.next(1), r.ctx.write_back());
        c.gen_conv(r.conv, side_exit).gen_guards(r.guard, side_exit)
    }
}

impl Codegen {
    /// Generates the code on an edge that takes the edge's context to the
    /// context that its target block is compiled for.
    ///
    /// For each slot, by the modes in source and target:
    ///
    /// | source  | target  | code                                           |
    /// |---------|---------|------------------------------------------------|
    /// | `XmmRW` | `Stack` | write back; the register becomes read-only     |
    /// | `XmmR`  | `Stack` | none; the link is forgotten                    |
    /// | linked  | `XmmRW` | align the register; check for a float if the source was read-only |
    /// | `XmmRW` | `XmmR`  | write back, then align the register            |
    /// | `XmmR`  | `XmmR`  | align the register                             |
    /// | `Stack` | `XmmR`  | load the slot into the register                |
    ///
    /// To align is to bring the value into the target's register: nothing
    /// where it is there already, a move where that register is free, else
    /// an exchange of both registers through `xmm0`.
    pub fn gen_write_back_for_target(&mut self, src_ctx: BBContext, target_ctx: &BBContext, pc: BcPc)
        requires
            reconcilable(src_ctx@, target_ctx@),
            pc.ok(),
            pc.next(1).ok(),
        ensures
            final(self)@ == old(self)@.gen_write_back_for_target(src_ctx@, target_ctx@, pc),
    {
        let mut src_ctx = src_ctx;
        let ghost src0 = src_ctx@;
        let ghost target = target_ctx@;
        let len = src_ctx.len();
        let mut i: usize = 0;
        while i < len
            invariant
                i <= len,
                len == src0.slots.len(),
                len <= 0x1_0000,
                target == target_ctx@,
                target.wf(),
                target.slots.len() == len,
                src_ctx@.wf(),
                src_ctx@.slots.len() == len,
                (self@, src_ctx@) == old(self)@.recon_unlink_all(src0, target, i as int),
                forall|j: int| 0 <= j < len && !(target.slots[j] is Stack) ==> src_ctx@.linked(j) == src0.linked(j),
            decreases len - i,
        {
            let reg = SlotId(i as u16);
            if let LinkMode::Stack = target_ctx.mode(reg) {
                self.recon_unlink(&mut src_ctx, reg);
            }
            i += 1;
        }
        let ghost mid_c = self@;
        let ghost mid = src_ctx@;
        assert forall|j: int| 0 <= j < len && target.slots[j] is XmmRW implies src_ctx@.linked(j) by {
            assert(src0.linked(j));
            assert(!(target.slots[j] is Stack));
        }
        let mut conv_list: Vec<(SlotId, u16)> = Vec::new();
        let mut guard_list: Vec<SlotId> = Vec::new();
        let mut i: usize = 0;
        while i < len
            invariant
                i <= len,
                len == mid.slots.len(),
                len <= 0x1_0000,
                target == target_ctx@,
                target.wf(),
                target.slots.len() == len,
                src_ctx@.wf(),
                src_ctx@.slots.len() == len,
                mid_c.recon_all(mid, target, i as int) == (Recon {
                    c: self@,
                    ctx: src_ctx@,
                    conv: conv_list@,
                    guard: guard_list@,
                }),
                forall|j: int| i <= j < len && target.slots[j] is XmmRW ==> src_ctx@.linked(j),
            decreases len - i,
        {
            let reg = SlotId(i as u16);
            let t = target_ctx.mode(reg);
            assert(t.xmm() is Some ==> t.xmm()->0 < 14);
            let fix = self.recon_step(&mut src_ctx, reg, t);
            match fix {
                Fixup::Nothing => {},
                Fixup::Conv(r) => {
                    conv_list.push((reg, r));
                },
                Fixup::Guard => {
                    guard_list.push(reg);
                },
            }
            i += 1;
        }
        let wb = src_ctx.get_write_back();
        let side_exit = self.gen_side_deopt_dest(pc.next(1), &wb);
        let ghost base = self@;
        let mut k: usize = 0;
        while k < conv_list.len()
            invariant
                k <= conv_list.len(),
                self@ == base.gen_conv(conv_list@.take(k as int), side_exit),
            decreases conv_list.len() - k,
        {
            proof {
                assert(conv_list@.take(k + 1).drop_last() =~= conv_list@.take(k as int));
            }
            let (reg, freg) = conv_list[k];
            self.emit_one(Movq(R(Rdi), slot(reg)));
            self.gen_val_to_f64(xmm_index(freg), side_exit);
            k += 1;
        }
        assert(conv_list@.take(conv_list.len() as int) =~= conv_list@);
        let ghost base = self@;
        let mut k: usize = 0;
        while k < guard_list.len()
            invariant
                k <= guard_list.len(),
                self@ == base.gen_guards(guard_list@.take(k as int), side_exit),
            decreases guard_list.len() - k,
        {
            proof {
                assert(guard_list@.take(k + 1).drop_last() =~= guard_list@.take(k as int));
            }
            self.gen_assume_float(guard_list[k], side_exit);
            k += 1;
        }
        assert(guard_list@.take(guard_list.len() as int) =~= guard_list@);
    }
}

impl CodegenView {
    #[verifier::opaque]
    pub open spec fn recon_align(
        self,
        ctx: BBView,
        reg: SlotId,
        l: u16,
        r: u16,
        rw: bool,
    ) -> (CodegenView, BBView) {
        let c = self;
        let (c, ctx) = if l == r {
            let ctx = ctx.set_mode(reg, link_mode(rw, l));
            (c, ctx)
        } else if ctx.xmm[r as int].len() == 0 {
            let c = c.emit(seq![Movq(xmm(r), xmm(l))]);
            let ctx = ctx.dealloc(reg);
            let (c, ctx) = if rw {
                let ctx = ctx.link(reg, LinkMode::XmmRW(r));
                (c, ctx)
            } else {
                let ctx = ctx.link(reg, LinkMode::XmmR(r));
                (c, ctx)
            };
            (c, ctx)
        } else {
            let ctx = ctx.swap(l, r);
            let c = c.emit(seq![Movq(Xmm(0), xmm(l)), Movq(xmm(l), xmm(r)), Movq(xmm(r), Xmm(0))]);
            (c, ctx)
        };
        (c, ctx)
    }

    #[verifier::opaque]
    pub open spec fn recon_unlink(self, ctx: BBView, reg: SlotId) -> (CodegenView, BBView) {
        let c = self;
        let (c, ctx) = match ctx.mode(reg) {
            LinkMode::XmmRW(freg) => {
                let v = ctx.xmm[freg as int];
                let ctx = ctx.demote(freg);
                let ctx = ctx.dealloc(reg);
                let c = c.gen_write_back_single(freg, v);
                (c, ctx)
            },
            LinkMode::XmmR(freg) => {
                let ctx = ctx.dealloc(reg);
                (c, ctx)
            },
            LinkMode::Stack => {
                (c, ctx)
            },
        };
        (c, ctx)
    }

    #[verifier::opaque]
    pub open spec fn recon_step(
        self,
        ctx: BBView,
        reg: SlotId,
        target: LinkMode,
    ) -> (CodegenView, BBView) {
        let c = self;
        let (c, ctx) = match target {
            LinkMode::Stack => {
                (c, ctx)
            },
            LinkMode::XmmRW(r) => {
                let (c, ctx) = match ctx.mode(reg) {
                    LinkMode::XmmRW(l) => {
                        let (c, ctx) = c.recon_align(ctx, reg, l, r, true);
                        (c, ctx)
                    },
                    LinkMode::XmmR(l) => {
                        let (c, ctx) = c.recon_align(ctx, reg, l, r, true);
                        (c, ctx)
                    },
                    LinkMode::Stack => {
                        (c, ctx)
                    },
                };
                (c, ctx)
            },
            LinkMode::XmmR(r) => {
                let (c, ctx) = match ctx.mode(reg) {
                    LinkMode::XmmRW(l) => {
                        let v = seq![reg];
                        let c = c.gen_write_back_single(l, v);
                        let (c, ctx) = c.recon_align(ctx, reg, l, r, false);
                        (c, ctx)
                    },
                    LinkMode::XmmR(l) => {
                        let (c, ctx) = c.recon_align(ctx, reg, l, r, false);
                        (c, ctx)
                    },
                    LinkMode::Stack => {
                        let ctx = ctx.link(reg, LinkMode::XmmR(r));
                        (c, ctx)
                    },
                };
                (c, ctx)
            },
        };
        (c, ctx)
    }
}

impl Codegen {
    /// Brings the value of `reg` from register `l` into register `r`.
    ///
    /// Nothing is moved where both are the same.  Where `r` backs no slot the
    /// value is copied and the slot linked to `r`.  Else the two registers
    /// exchange their values, through `xmm0`, and their roles.
    pub fn recon_align(&mut self, ctx: &mut BBContext, reg: SlotId, l: u16, r: u16, rw: bool)
        requires
            old(ctx)@.wf(),
            reg.0 < old(ctx)@.slots.len(),
            l < 14,
            r < 14,
            old(ctx)@.mode(reg).xmm() == Some(l),
        ensures
            (final(self)@, final(ctx)@) == old(self)@.recon_align(old(ctx)@, reg, l, r, rw),
            final(ctx)@.wf(),
            final(ctx)@.slots.len() == old(ctx)@.slots.len(),
            final(ctx)@.same_links_but(old(ctx)@, -1),
    {
        reveal(CodegenView::recon_align);
        if l == r {
            ctx.set_mode(reg, link_mode(rw, l));
        } else if ctx.is_vacant(r) {
            self.emit_one(Movq(xmm(r), xmm(l)));
            ctx.dealloc_xmm(reg);
            proof {
                ctx@.lemma_link_wf(reg, link_mode(rw, r));
            }
            if rw {
                ctx.link_rw_xmm(reg, r);
            } else {
                ctx.link_r_xmm(reg, r);
            }
        } else {
            ctx.xmm_swap(l, r);
            self.emit(vec![Movq(Xmm(0), xmm(l)), Movq(xmm(l), xmm(r)), Movq(xmm(r), Xmm(0))]);
        }
    }

    /// Unlinks a slot that the target keeps on the stack.
    ///
    /// A stale slot is written back first, together with every slot that
    /// shares its register; they all keep the register as a read-only copy.
    pub fn recon_unlink(&mut self, ctx: &mut BBContext, reg: SlotId)
        requires
            old(ctx)@.wf(),
            reg.0 < old(ctx)@.slots.len(),
        ensures
            (final(self)@, final(ctx)@) == old(self)@.recon_unlink(old(ctx)@, reg),
            final(ctx)@.wf(),
            final(ctx)@.slots.len() == old(ctx)@.slots.len(),
            final(ctx)@.same_links_but(old(ctx)@, reg.0 as int),
    {
        reveal(CodegenView::recon_unlink);
        match ctx.mode(reg) {
            LinkMode::XmmRW(freg) => {
                let v = ctx.cloned_slots(freg);
                ctx.demote(freg);
                ctx.dealloc_xmm(reg);
                self.gen_write_back_single(freg, &v);
            },
            LinkMode::XmmR(freg) => {
                ctx.dealloc_xmm(reg);
            },
            LinkMode::Stack => {},
        }
    }

    /// Gives one slot the register that the target has for it.
    pub fn recon_step(&mut self, ctx: &mut BBContext, reg: SlotId, target: LinkMode) -> (r: Fixup)
        requires
            old(ctx)@.wf(),
            reg.0 < old(ctx)@.slots.len(),
            target.xmm() is Some ==> target.xmm()->0 < 14,
            target is XmmRW ==> old(ctx)@.linked(reg.0 as int),
        ensures
            (final(self)@, final(ctx)@) == old(self)@.recon_step(old(ctx)@, reg, target),
            r == fixup_of(old(ctx)@.mode(reg), target),
            final(ctx)@.wf(),
            final(ctx)@.slots.len() == old(ctx)@.slots.len(),
            final(ctx)@.same_links_but(old(ctx)@, reg.0 as int),
    {
        reveal(CodegenView::recon_step);
        let before = ctx.mode(reg);
        match target {
            LinkMode::Stack => {},
            LinkMode::XmmRW(r) => {
                match ctx.mode(reg) {
                    LinkMode::XmmRW(l) => {
                        self.recon_align(ctx, reg, l, r, true);
                    },
                    LinkMode::XmmR(l) => {
                        self.recon_align(ctx, reg, l, r, true);
                    },
                    LinkMode::Stack => {},
                }
            },
            LinkMode::XmmR(r) => {
                match ctx.mode(reg) {
                    LinkMode::XmmRW(l) => {
                        let v = one_slot(reg);
                        self.gen_write_back_single(l, &v);
                        self.recon_align(ctx, reg, l, r, false);
                    },
                    LinkMode::XmmR(l) => {
                        self.recon_align(ctx, reg, l, r, false);
                    },
                    LinkMode::Stack => {
                        proof {
                            ctx@.lemma_link_wf(reg, LinkMode::XmmR(r));
                        }
                        ctx.link_r_xmm(reg, r);
                    },
                }
            },
        }
        fixup_of(before, target)
    }
}

} // verus!
