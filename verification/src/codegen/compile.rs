//! The driver of the method JIT.
//!
//! A function is compiled block by block, in the order of the bytecode:
//!
//! 1. The work list is seeded with an edge into the start position that
//!    brings a context in which no slot is linked.
//! 2. At the start of a block the contexts of all pending edges into it are
//!    joined, and on every such edge the code is generated that takes the
//!    edge's context to the joined one.  At the head of a loop the context
//!    keeps in registers the slots that the loop uses as floats, and has a
//!    read-only link for every slot that the loop writes as something
//!    else.
//! 3. The instructions of the block are compiled, each by its rule.
//! 4. An instruction that ends the block, or that is followed by the start
//!    of another block, leaves an edge with a copy of the context.  In the
//!    copy the slots that carry no value from one block to another are
//!    unlinked: nothing is written back for them.
//!
//! Edges that are still pending at the end lead backward.  They are taken to
//! the context that their target was compiled for.

use std::collections::HashMap;
use vstd::prelude::*;
use vstd::std_specs::hash::*;
use crate::assembler::{DestLabel, Target};
use crate::assembler::Inst::Jmp;
use crate::bbctx::{merge_slots, BBContext, BBView, LinkMode, StackSlotInfo};
use crate::codegen::loops::{
    find_temps, head_slots, head_slots_spec, lemma_head_upto, loop_uses, loop_uses_spec, soften, soften_spec,
    temps_spec, SlotUse,
};
use crate::codegen::reconcile::reconcilable;
use crate::codegen::step::{call_ok, prepare, step_of, CompileError, Step};
use crate::codegen::{Codegen, CodegenView};
use crate::funcs::FnStore;
use crate::ids::{BcPc, ClassId};
use crate::iseq::ISeqInfo;

verus! {

broadcast use vstd::std_specs::hash::group_hash_axioms;

/// A pending edge of the control flow: where it comes from, where it leads,
/// the context it brings, and the label at which its code is to stand.
#[derive(Debug)]
pub struct Edge {
    pub src_idx: usize,
    pub dest: usize,
    pub bbctx: BBContext,
    pub dest_label: DestLabel,
}

/// The mathematical content of an [`Edge`].
pub struct EdgeView {
    pub src_idx: usize,
    pub dest: usize,
    pub ctx: BBView,
    pub label: DestLabel,
}

impl View for Edge {
    type V = EdgeView;

    open spec fn view(&self) -> EdgeView {
        EdgeView { src_idx: self.src_idx, dest: self.dest, ctx: self.bbctx@, label: self.dest_label }
    }
}

/// The contents of a list of edges.
pub open spec fn edges_view(edges: Seq<Edge>) -> Seq<EdgeView> {
    edges.map_values(|e: Edge| e@)
}

/// The contents of a table of entry contexts.
pub open spec fn targets_view(targets: Map<usize, StackSlotInfo>, n: nat) -> Seq<Option<Seq<LinkMode>>> {
    Seq::new(
        n,
        |i: int|
            if targets.contains_key(i as usize) {
                Some(targets[i as usize].0@)
            } else {
                None
            },
    )
}

/// How the compilation of a block goes on after a step.
pub enum Onward {
    /// The block is done, with the given result.
    Stop(Result<bool, CompileError>),
    /// On with the record at the given place.
    Goto(usize),
}

/// What does not change while a function is compiled.
pub struct Plan {
    /// For every record, and for the place after the last, the label of the
    /// block that starts there.
    pub labels: Seq<DestLabel>,
    /// Whether a block starts at the record.
    pub starts: Seq<bool>,
    /// Whether an edge leads back to the record.
    pub heads: Seq<bool>,
    /// The last branch that leads to the record.
    pub ends: Seq<usize>,
    /// For every slot, whether it carries no value from one block to
    /// another.
    pub temps: Seq<bool>,
    /// Whether a loop is compiled rather than a whole function.
    pub is_loop: bool,
    /// The class of `self` that the code is specialised on.
    pub self_class: ClassId,
}

/// What changes while a function is compiled, but for the code.
pub struct Pending {
    pub edges: Seq<EdgeView>,
    /// For every record, the context that the block which starts there was
    /// compiled for, once it is compiled.
    pub targets: Seq<Option<Seq<LinkMode>>>,
    /// The number of loops that are open at the current position.
    pub loop_count: int,
}

/// Per-compilation state.
#[derive(Debug)]
pub struct CompileContext {
    /// For every record, and for the place after the last, the label of
    /// the block that starts there.
    pub labels: HashMap<usize, DestLabel>,
    pub starts: Vec<bool>,
    pub heads: Vec<bool>,
    pub ends: Vec<usize>,
    pub temps: Vec<bool>,
    pub is_loop: bool,
    pub self_class: ClassId,
    pub loop_count: usize,
    /// The pending edges, in the order in which they were recorded: the
    /// code on them is generated in that order.
    pub edges: Vec<Edge>,
    /// For the record at which a block starts, the context that the block
    /// was compiled for.
    pub targets: HashMap<usize, StackSlotInfo>,
}

impl CompileContext {
    pub open spec fn plan(&self) -> Plan {
        Plan {
            labels: Seq::new(self.starts@.len(), |i: int| self.labels@[i as usize]),
            starts: self.starts@,
            heads: self.heads@,
            ends: self.ends@,
            temps: self.temps@,
            is_loop: self.is_loop,
            self_class: self.self_class,
        }
    }

    pub open spec fn pending(&self) -> Pending {
        Pending {
            edges: edges_view(self.edges@),
            targets: targets_view(self.targets@, self.starts@.len()),
            loop_count: self.loop_count as int,
        }
    }
}

/// Every edge brings a well-formed context of the function's slots and
/// leads to a record of the function or to the place after the last.
pub open spec fn edges_ok(edges: Seq<EdgeView>, func: &ISeqInfo) -> bool {
    forall|i: int|
        0 <= i < edges.len() ==> {
            &&& (#[trigger] edges[i]).ctx.wf()
            &&& edges[i].ctx.slots.len() == func.reg_num
            &&& edges[i].dest <= func.bytecode@.len()
        }
}

/// The plan fits the function: it has a label, and knows of a block start
/// and a loop head, for every record and for the place after the last.
pub open spec fn plan_ok(plan: Plan, func: &ISeqInfo) -> bool {
    &&& plan.labels.len() == func.bytecode@.len() + 1
    &&& plan.starts.len() == func.bytecode@.len() + 1
    &&& plan.heads.len() == func.bytecode@.len() + 1
    &&& plan.ends.len() == func.bytecode@.len() + 1
}

/// Every entry context that is recorded has the function's slots and names
/// only registers that exist.
pub open spec fn targets_ok(targets: Seq<Option<Seq<LinkMode>>>, func: &ISeqInfo) -> bool {
    &&& targets.len() == func.bytecode@.len() + 1
    &&& forall|i: int|
        0 <= i < targets.len() && (#[trigger] targets[i]) is Some ==> slots_ok(targets[i]->0, func.reg_num)
}

/// A slot table of `n` slots that names only registers that exist.
pub open spec fn slots_ok(slots: Seq<LinkMode>, n: usize) -> bool {
    &&& slots.len() == n
    &&& n <= 0x1_0000
    &&& forall|i: int| 0 <= i < slots.len() && (#[trigger] slots[i]).xmm() is Some ==> slots[i].xmm()->0 < 14
}

/// The edges among the first `n` that lead to `pos`, in order.
pub open spec fn entries_upto(edges: Seq<EdgeView>, pos: usize, n: int) -> Seq<EdgeView>
    decreases n,
{
    if n <= 0 {
        seq![]
    } else if edges[n - 1].dest == pos {
        entries_upto(edges, pos, n - 1).push(edges[n - 1])
    } else {
        entries_upto(edges, pos, n - 1)
    }
}

/// The edges among the first `n` that do not lead to `pos`, in order.
pub open spec fn others_upto(edges: Seq<EdgeView>, pos: usize, n: int) -> Seq<EdgeView>
    decreases n,
{
    if n <= 0 {
        seq![]
    } else if edges[n - 1].dest == pos {
        others_upto(edges, pos, n - 1)
    } else {
        others_upto(edges, pos, n - 1).push(edges[n - 1])
    }
}

/// The join of the slot tables of the first `n` edges.
pub open spec fn merge_upto(entries: Seq<EdgeView>, n: int) -> Seq<LinkMode>
    decreases n,
{
    if n <= 1 {
        entries[0].ctx.slots
    } else {
        merge_slots(merge_upto(entries, n - 1), entries[n - 1].ctx.slots)
    }
}

/// The context that a block is compiled for, given the edges that lead to
/// it: their join, or, at the head of a loop, what the join and the uses
/// that the loop makes of the slots give.
pub open spec fn entry_slots(entries: Seq<EdgeView>, head: bool, uses: Seq<SlotUse>) -> Seq<LinkMode> {
    let merged = merge_upto(entries, entries.len() as int);
    if head {
        head_slots_spec(merged, uses)
    } else {
        merged
    }
}

/// The last branch that leads to the record `i`.
pub open spec fn loop_end(bytecode: Seq<crate::inst::Bc>, i: int) -> usize {
    let srcs = crate::iseq::branches_to(bytecode, 0, i);
    if srcs.len() > 0 {
        srcs.last()
    } else {
        0
    }
}

/// The join of well-formed contexts names only registers that exist.
pub proof fn lemma_merge_upto(entries: Seq<EdgeView>, n: int, reg_num: usize)
    requires
        1 <= n <= entries.len(),
        reg_num <= 0x1_0000,
        forall|i: int| 0 <= i < entries.len() ==> (#[trigger] entries[i]).ctx.wf() && entries[i].ctx.slots.len() == reg_num,
    ensures
        slots_ok(merge_upto(entries, n), reg_num),
    decreases n,
{
    if n > 1 {
        lemma_merge_upto(entries, n - 1, reg_num);
    }
    let m = merge_upto(entries, n);
    assert forall|i: int| 0 <= i < m.len() && (#[trigger] m[i]).xmm() is Some implies m[i].xmm()->0 < 14 by {
        if n <= 1 {
            assert(entries[0].ctx.slots[i].xmm() is Some);
        } else {
            assert(merge_upto(entries, n - 1)[i].xmm() is Some);
        }
    }
}

/// Both contexts are well formed and have the same slots.
pub open spec fn comparable(src: BBView, target: BBView) -> bool {
    &&& src.wf()
    &&& target.wf()
    &&& src.slots.len() == target.slots.len()
    &&& src.slots.len() <= 0x1_0000
}

/// A source can be taken to any target in two steps: first to the target
/// with read-only links where the source has nothing to write, then to the
/// target itself.
pub proof fn lemma_two_steps(src: BBView, target: BBView, mid: BBView)
    requires
        comparable(src, target),
        mid.wf(),
        mid.slots == soften_spec(src.slots, target.slots),
    ensures
        reconcilable(src, mid),
        reconcilable(mid, target),
{
    assert forall|i: int| 0 <= i < mid.slots.len() && mid.slots[i] is XmmRW implies src.linked(i) by {
        assert(target.slots[i] is XmmRW);
    }
    assert forall|i: int| 0 <= i < target.slots.len() && target.slots[i] is XmmRW implies mid.linked(i) by {
        assert(mid.slots[i].xmm() is Some);
    }
}

impl CodegenView {
    /// The code on one edge into a block: at the edge's label, the code that
    /// takes the edge's context to the block's, and a jump to the block.
    /// Where the block may write a register for a slot that the edge brings
    /// on the stack, the slot is loaded first and then checked to hold a
    /// float.  An edge whose context does not have the block's slots leaves
    /// through a side exit that resumes the interpreter at the block's
    /// first record.
    pub open spec fn gen_edge(self, e: EdgeView, target: BBView, start: BcPc, block: DestLabel) -> CodegenView {
        self.gen_edge_at(e.label, e.ctx, target, start, block)
    }

    /// The code on an edge with the given label and context.
    pub open spec fn gen_edge_at(
        self,
        label: DestLabel,
        ctx: BBView,
        target: BBView,
        start: BcPc,
        block: DestLabel,
    ) -> CodegenView {
        let c = self.bind_label(label);
        if reconcilable(ctx, target) {
            c.gen_write_back_for_target(ctx, target, start.prev()).emit(seq![Jmp(Target::Label(block))])
        } else if comparable(ctx, target) {
            let mid = BBView::from_slots(soften_spec(ctx.slots, target.slots), target.self_class, target.local_num);
            c.gen_write_back_for_target(ctx, mid, start.prev()).gen_write_back_for_target(
                mid,
                target,
                start.prev(),
            ).emit(seq![Jmp(Target::Label(block))])
        } else {
            c.deopt(ctx, start)
        }
    }

    /// The code on each of the first `n` edges into a block.
    pub open spec fn gen_edges(self, entries: Seq<EdgeView>, n: int, target: BBView, start: BcPc, block: DestLabel) -> CodegenView
        decreases n,
    {
        if n <= 0 {
            self
        } else {
            self.gen_edges(entries, n - 1, target, start, block).gen_edge(entries[n - 1], target, start, block)
        }
    }

    /// The start of the block at `pos`: the pending edges that lead to it are
    /// taken off the work list and reconciled, and the block's label is
    /// bound.  Returns the context that the block is compiled for; `None`
    /// where no edge leads to the block.
    pub open spec fn gen_merging_branches(self, p: Pending, plan: Plan, func: &ISeqInfo, pos: usize) -> (
        CodegenView,
        Pending,
        Option<BBView>,
    ) {
        let entries = entries_upto(p.edges, pos, p.edges.len() as int);
        if entries.len() == 0 {
            (self, Pending { edges: others_upto(p.edges, pos, p.edges.len() as int), ..p }, None)
        } else {
            let slots = entry_slots(
                entries,
                plan.heads[pos as int],
                loop_uses_spec(func.bytecode@, pos as int, plan.ends[pos as int] as int, func.reg_num as nat),
            );
            let target = BBView::from_slots(slots, plan.self_class, func.local_num);
            let block = plan.labels[pos as int];
            let c = self.gen_edges(entries, entries.len() as int, target, func.pc_spec(pos), block).bind_label(block);
            (
                c,
                Pending {
                    edges: others_upto(p.edges, pos, p.edges.len() as int),
                    targets: p.targets.update(pos as int, Some(slots)),
                    ..p
                },
                Some(target),
            )
        }
    }

    /// What follows a step that goes on to the record `next`: the next step,
    /// or, where a block starts at `next`, an edge to that block and the end
    /// of this one.
    pub open spec fn go_on(self, p: Pending, ctx: BBView, plan: Plan, func: &ISeqInfo, idx: usize, next: usize) -> (
        CodegenView,
        Pending,
        Onward,
    ) {
        if idx < next < func.bytecode@.len() && !plan.starts[next as int] {
            (self, p, Onward::Goto(next))
        } else {
            let label = self.nth(0);
            let c = self.label().emit(seq![Jmp(Target::Label(label))]);
            let e = EdgeView { src_idx: idx, dest: next, ctx: ctx.without(plan.temps), label };
            (c, Pending { edges: p.edges.push(e), ..p }, Onward::Stop(Ok(false)))
        }
    }

    /// What a step leaves to do: the edge of a branch is recorded, the count
    /// of open loops is kept, and the compiled loop is left at its end.
    #[verifier::opaque]
    pub open spec fn apply_step(
        self,
        p: Pending,
        ctx: BBView,
        plan: Plan,
        func: &ISeqInfo,
        idx: usize,
        step: Step,
        branch_dest: DestLabel,
    ) -> (CodegenView, Pending, Onward) {
        match step {
            Step::Error(e) => (self, p, Onward::Stop(Err(e))),
            Step::Next { next } => self.go_on(p, ctx, plan, func, idx, next),
            Step::Branch { src, dest, next } => {
                let e = EdgeView { src_idx: src, dest, ctx: ctx.without(plan.temps), label: branch_dest };
                self.go_on(Pending { edges: p.edges.push(e), ..p }, ctx, plan, func, idx, next)
            },
            Step::Jump { src, dest } => {
                let e = EdgeView { src_idx: src, dest, ctx: ctx.without(plan.temps), label: branch_dest };
                (self, Pending { edges: p.edges.push(e), ..p }, Onward::Stop(Ok(false)))
            },
            Step::Return => (self, p, Onward::Stop(Ok(false))),
            Step::LoopStart { next } => {
                let count = if p.loop_count < usize::MAX {
                    p.loop_count + 1
                } else {
                    p.loop_count
                };
                self.go_on(Pending { loop_count: count, ..p }, ctx, plan, func, idx, next)
            },
            Step::LoopEnd { next } => {
                let count = if p.loop_count > 0 {
                    p.loop_count - 1
                } else {
                    0
                };
                let q = Pending { loop_count: count, ..p };
                if plan.is_loop && count == 0 {
                    (self.deopt(ctx, func.pc_spec(next)), q, Onward::Stop(Ok(true)))
                } else {
                    self.go_on(q, ctx, plan, func, idx, next)
                }
            },
        }
    }

    /// The compilation of a block from the record `idx` on.  The result is
    /// `Ok(true)` where the end of the loop that is being compiled was
    /// reached.
    pub open spec fn compile_from(
        self,
        p: Pending,
        ctx: BBView,
        plan: Plan,
        fnstore: &FnStore,
        func: &ISeqInfo,
        idx: usize,
    ) -> (CodegenView, Pending, Result<bool, CompileError>)
        decreases func.bytecode@.len() - idx,
    {
        if idx >= func.bytecode@.len() {
            (self, p, Ok(false))
        } else {
            let branch_dest = self.nth(0);
            let (c, x) = self.label().compile_step(fnstore, ctx, func, idx, branch_dest);
            let (c, q, on) = c.apply_step(p, x, plan, func, idx, step_of(prepare(func, idx), idx), branch_dest);
            match on {
                Onward::Stop(r) => (c, q, r),
                Onward::Goto(next) => if idx < next < func.bytecode@.len() {
                    c.compile_from(q, x, plan, fnstore, func, next)
                } else {
                    (c, q, Ok(false))
                },
            }
        }
    }

    /// The compilation of the block that starts at `pos`, if an edge leads
    /// to it.
    pub open spec fn compile_bb(self, p: Pending, plan: Plan, fnstore: &FnStore, func: &ISeqInfo, pos: usize) -> (
        CodegenView,
        Pending,
        Result<bool, CompileError>,
    ) {
        let (c, q, entry) = self.gen_merging_branches(p, plan, func, pos);
        match entry {
            None => (c, q, Ok(false)),
            Some(ctx) => c.compile_from(q, ctx, plan, fnstore, func, pos),
        }
    }

    /// The compilation of the blocks from the record `pos` on, in order.
    pub open spec fn compile_blocks(
        self,
        p: Pending,
        plan: Plan,
        fnstore: &FnStore,
        func: &ISeqInfo,
        start: usize,
        pos: int,
    ) -> (CodegenView, Pending, Result<bool, CompileError>)
        decreases func.bytecode@.len() - pos,
    {
        if pos < 0 || pos >= func.bytecode@.len() {
            (self, p, Ok(false))
        } else if pos == start || plan.starts[pos] {
            let (c, q, r) = self.compile_bb(p, plan, fnstore, func, pos as usize);
            match r {
                Ok(false) => c.compile_blocks(q, plan, fnstore, func, start, pos + 1),
                _ => (c, q, r),
            }
        } else {
            self.compile_blocks(p, plan, fnstore, func, start, pos + 1)
        }
    }

    /// The code on one edge that is left over: to the context that its
    /// target was compiled for, or out through a side exit.
    pub open spec fn gen_backedge(self, e: EdgeView, p: Pending, plan: Plan, func: &ISeqInfo) -> CodegenView {
        let start = func.pc_spec(e.dest);
        match p.targets[e.dest as int] {
            Some(slots) => self.gen_edge(
                e,
                BBView::from_slots(slots, plan.self_class, func.local_num),
                start,
                plan.labels[e.dest as int],
            ),
            None => self.bind_label(e.label).deopt(e.ctx, start),
        }
    }

    /// The compilation of a function, or of a loop from the record
    /// `position` on.  Returns the label of the entry of the code.
    pub open spec fn jit_compile_ruby(
        self,
        fnstore: &FnStore,
        func: &ISeqInfo,
        self_class: ClassId,
        position: Option<usize>,
    ) -> (CodegenView, Result<DestLabel, CompileError>) {
        let start_pos = match position {
            Some(p) => p,
            None => 0,
        };
        let len = func.bytecode@.len();
        let entry = self.nth(0);
        let c = self.label().bind_label(entry);
        let plan = make_plan(c, func, self_class, position is Some);
        let c = c.labels(len + 1);
        let c = if position is None {
            c.prologue(func.reg_num, func.arg_num)
        } else {
            c
        };
        let seed = EdgeView {
            src_idx: 0,
            dest: start_pos,
            ctx: BBView::empty(func.reg_num as nat, self_class, func.local_num),
            label: c.nth(0),
        };
        let p = Pending {
            edges: seq![seed],
            targets: Seq::new(len + 1, |i: int| None::<Seq<LinkMode>>),
            loop_count: 0,
        };
        let (c, q, r) = c.label().compile_blocks(p, plan, fnstore, func, start_pos, start_pos as int);
        match r {
            Err(e) => (c, Err(e)),
            Ok(_) => (c.gen_backedges(q, plan, func, q.edges.len() as int), Ok(entry)),
        }
    }

    /// The plan of a compilation and the work that it leaves pending: the
    /// edges that lead backward, and the contexts that the blocks were
    /// compiled for.
    pub open spec fn compiled_context(
        self,
        fnstore: &FnStore,
        func: &ISeqInfo,
        self_class: ClassId,
        position: Option<usize>,
    ) -> (Plan, Pending) {
        let start_pos = match position {
            Some(p) => p,
            None => 0,
        };
        let len = func.bytecode@.len();
        let entry = self.nth(0);
        let c = self.label().bind_label(entry);
        let plan = make_plan(c, func, self_class, position is Some);
        let c = c.labels(len + 1);
        let c = if position is None {
            c.prologue(func.reg_num, func.arg_num)
        } else {
            c
        };
        let seed = EdgeView {
            src_idx: 0,
            dest: start_pos,
            ctx: BBView::empty(func.reg_num as nat, self_class, func.local_num),
            label: c.nth(0),
        };
        let p = Pending {
            edges: seq![seed],
            targets: Seq::new(len + 1, |i: int| None::<Seq<LinkMode>>),
            loop_count: 0,
        };
        let (_, q, _) = c.label().compile_blocks(p, plan, fnstore, func, start_pos, start_pos as int);
        (plan, q)
    }

    /// The code on each of the first `n` edges that are left over.
    pub open spec fn gen_backedges(self, p: Pending, plan: Plan, func: &ISeqInfo, n: int) -> CodegenView
        decreases n,
    {
        if n <= 0 {
            self
        } else {
            self.gen_backedges(p, plan, func, n - 1).gen_backedge(p.edges[n - 1], p, plan, func)
        }
    }
}

/// An edge leads back to the record `i`: a branch at `i` or after it names
/// `i`.
pub open spec fn is_head(bytecode: Seq<crate::inst::Bc>, i: int) -> bool {
    let srcs = crate::iseq::branches_to(bytecode, 0, i);
    exists|k: int| 0 <= k < srcs.len() && srcs[k] >= i
}

/// The plan of the compilation of `func`: the labels are the next ones of
/// `c`, the block starts and loop heads those of the bytecode.
pub open spec fn make_plan(c: CodegenView, func: &ISeqInfo, self_class: ClassId, is_loop: bool) -> Plan {
    let len = func.bytecode@.len();
    Plan {
        labels: Seq::new(len + 1, |i: int| c.nth(i)),
        starts: Seq::new(len + 1, |i: int| crate::iseq::branches_to(func.bytecode@, 0, i).len() > 0),
        heads: Seq::new(len + 1, |i: int| is_head(func.bytecode@, i)),
        ends: Seq::new(len + 1, |i: int| loop_end(func.bytecode@, i)),
        temps: temps_spec(
            func.bytecode@,
            Seq::new(len + 1, |i: int| crate::iseq::branches_to(func.bytecode@, 0, i).len() > 0),
            func.reg_num as nat,
        ),
        is_loop,
        self_class,
    }
}

/// Making one more label after `k` labels is making `k + 1` labels.
pub proof fn lemma_label_n_step(j: crate::assembler::JitView, k: nat)
    ensures
        j.label_n(k).label() == j.label_n(k + 1),
    decreases k,
{
    reveal_with_fuel(crate::assembler::JitView::label_n, 2);
    if k > 0 {
        lemma_label_n_step(j.label(), (k - 1) as nat);
    }
}

/// The source can be taken to the target.
pub fn is_reconcilable(src: &BBContext, target: &BBContext) -> (b: bool)
    requires
        src@.wf(),
        target@.wf(),
    ensures
        b == reconcilable(src@, target@),
{
    let n = src.len();
    if n != target.len() || n > 0x1_0000 {
        return false;
    }
    let mut i: usize = 0;
    while i < n
        invariant
            i <= n,
            n == src@.slots.len(),
            n == target@.slots.len(),
            n <= 0x1_0000,
            forall|j: int| 0 <= j < i && target@.slots[j] is XmmRW ==> src@.linked(j),
        decreases n - i,
    {
        let reg = crate::ids::SlotId(i as u16);
        let t = match target.mode(reg) {
            LinkMode::XmmRW(_) => true,
            _ => false,
        };
        let s = match src.mode(reg) {
            LinkMode::Stack => false,
            _ => true,
        };
        if t && !s {
            assert(!src@.linked(i as int));
            return false;
        }
        i += 1;
    }
    true
}

impl Codegen {
    /// Generates the code on one edge into a block.
    pub fn gen_edge(&mut self, e: &Edge, target: &BBContext, start: BcPc, block: DestLabel)
        requires
            e@.ctx.wf(),
            target@.wf(),
            start.ok(),
            start.prev().ok(),
        ensures
            final(self)@ == old(self)@.gen_edge(e@, target@, start, block),
    {
        proof {
            assert(old(self)@.gen_edge(e@, target@, start, block) == old(self)@.gen_edge_at(
                e@.label,
                e@.ctx,
                target@,
                start,
                block,
            ));
        }
        self.bind_label(e.dest_label);
        if is_reconcilable(&e.bbctx, target) {
            self.gen_write_back_for_target(e.bbctx.clone(), target, start.prev());
            self.emit_one(Jmp(Target::Label(block)));
        } else if e.bbctx.len() == target.len() && target.len() <= 0x1_0000 {
            let slots = soften(&e.bbctx.stack_slot, &target.stack_slot);
            assert forall|i: int| 0 <= i < slots.0@.len() && (#[trigger] slots.0@[i]).xmm() is Some implies slots.0@[i].xmm()->0
                < 14 by {
                assert(target@.slots[i].xmm() is Some);
            }
            let mid = BBContext::from(&slots, target.self_class, target.local_num);
            proof {
                lemma_two_steps(e@.ctx, target@, mid@);
            }
            self.gen_write_back_for_target(e.bbctx.clone(), &mid, start.prev());
            self.gen_write_back_for_target(mid, target, start.prev());
            self.emit_one(Jmp(Target::Label(block)));
        } else {
            self.deopt(&e.bbctx, start);
        }
    }
}

impl CompileContext {
    /// The state is consistent with the function that is compiled.
    pub open spec fn ok(&self, func: &ISeqInfo) -> bool {
        &&& func.wf()
        &&& plan_ok(self.plan(), func)
        &&& edges_ok(self.pending().edges, func)
        &&& targets_ok(self.pending().targets, func)
        &&& forall|k: usize| k < self.starts@.len() ==> #[trigger] self.labels@.contains_key(k)
    }

    /// Plans the compilation of `func`: makes a label for every record and
    /// for the place after the last, and finds the starts of the basic
    /// blocks and the heads of the loops.
    pub fn new(func: &ISeqInfo, codegen: &mut Codegen, self_class: ClassId, is_loop: bool) -> (cc: CompileContext)
        requires
            func.wf(),
        ensures
            cc.plan() == make_plan(old(codegen)@, func, self_class, is_loop),
            final(codegen)@ == old(codegen)@.labels(func.bytecode@.len() + 1),
            cc.pending() == (Pending {
                edges: seq![],
                targets: Seq::new(func.bytecode@.len() + 1, |i: int| None::<Seq<LinkMode>>),
                loop_count: 0,
            }),
            cc.ok(func),
    {
        let n = func.bytecode.len();
        let bb_info = func.get_bb_info();
        let ghost bc = func.bytecode@;
        let mut labels: HashMap<usize, DestLabel> = HashMap::new();
        let mut starts: Vec<bool> = Vec::new();
        let mut heads: Vec<bool> = Vec::new();
        let mut ends: Vec<usize> = Vec::new();
        let targets: HashMap<usize, StackSlotInfo> = HashMap::new();
        let mut i: usize = 0;
        while i <= n
            invariant
                i <= n + 1,
                n == func.bytecode@.len(),
                n < usize::MAX - 3,
                bc == func.bytecode@,
                bb_info@.len() == n + 1,
                forall|k: int| 0 <= k <= n ==> #[trigger] crate::iseq::bb_view(bb_info@)[k] == crate::iseq::bb_info_at(bc, k),
                codegen@ == old(codegen)@.labels(i as nat),
                starts@.len() == i,
                heads@.len() == i,
                ends@.len() == i,
                forall|k: usize|
                    k < i ==> #[trigger] labels@.contains_key(k) && labels@[k] == old(codegen)@.nth(k as int),
                forall|k: int| 0 <= k < i ==> #[trigger] starts@[k] == (crate::iseq::branches_to(bc, 0, k).len() > 0),
                forall|k: int| 0 <= k < i ==> #[trigger] heads@[k] == is_head(bc, k),
                forall|k: int| 0 <= k < i ==> #[trigger] ends@[k] == loop_end(bc, k),
            decreases n + 1 - i,
        {
            proof {
                crate::codegen::lemma_labels(old(codegen)@, i as nat);
                lemma_label_n_step(old(codegen)@.jit, i as nat);
            }
            let l = codegen.label();
            labels.insert(i, l);
            assert(crate::iseq::bb_view(bb_info@)[i as int] == crate::iseq::bb_info_at(bc, i as int));
            let mut head = false;
            let mut end: usize = 0;
            match &bb_info[i] {
                Some(info) => {
                    starts.push(true);
                    let srcs = &info.1;
                    end = srcs[srcs.len() - 1];
                    let mut k: usize = 0;
                    while k < srcs.len()
                        invariant
                            k <= srcs.len(),
                            srcs@ == crate::iseq::branches_to(bc, 0, i as int),
                            head == exists|j: int| 0 <= j < k && srcs@[j] >= i,
                        decreases srcs.len() - k,
                    {
                        if srcs[k] >= i {
                            head = true;
                        }
                        k += 1;
                    }
                },
                None => {
                    starts.push(false);
                },
            }
            heads.push(head);
            ends.push(end);
            i += 1;
        }
        assert(starts@ =~= Seq::new(n as nat + 1, |i: int| crate::iseq::branches_to(bc, 0, i).len() > 0));
        let temps = find_temps(func, &starts);
        let cc = CompileContext {
            labels,
            starts,
            heads,
            ends,
            temps,
            is_loop,
            self_class,
            loop_count: 0,
            edges: Vec::new(),
            targets,
        };
        assert forall|k: int| 0 <= k <= n implies cc.plan().labels[k] == old(codegen)@.nth(k) by {
            assert(cc.labels@.contains_key(k as usize));
        }
        assert(cc.plan().labels =~= make_plan(old(codegen)@, func, self_class, is_loop).labels);
        assert(cc.plan().starts =~= make_plan(old(codegen)@, func, self_class, is_loop).starts);
        assert(cc.plan().heads =~= make_plan(old(codegen)@, func, self_class, is_loop).heads);
        assert(cc.plan().ends =~= make_plan(old(codegen)@, func, self_class, is_loop).ends);
        assert(cc.pending().edges =~= seq![]);
        assert(cc.pending().targets =~= Seq::new(func.bytecode@.len() + 1, |i: int| None::<Seq<LinkMode>>));
        cc
    }

    /// The label of the block that starts at the record `pos`.
    pub fn label_at(&self, pos: usize) -> (l: DestLabel)
        requires
            pos < self.starts@.len(),
            self.labels@.contains_key(pos),
        ensures
            l == self.plan().labels[pos as int],
    {
        match self.labels.get(&pos) {
            Some(l) => *l,
            None => DestLabel(0),
        }
    }

    /// A copy of the context for an edge: the slots that carry no value
    /// from one block to another are unlinked.
    pub fn trimmed(&self, ctx: &BBContext) -> (r: BBContext)
        requires
            ctx@.wf(),
            ctx@.slots.len() <= 0x1_0000,
        ensures
            r@ == ctx@.without(self.temps@),
            r@.wf(),
            r@.slots.len() == ctx@.slots.len(),
    {
        let mut r = ctx.clone();
        r.drop_temps(&self.temps);
        r
    }

    /// Records a pending edge.
    pub fn new_branch(&mut self, src_idx: usize, dest: usize, bbctx: BBContext, dest_label: DestLabel)
        ensures
            final(self).plan() == old(self).plan(),
            final(self).labels@ == old(self).labels@,
            final(self).pending() == (Pending {
                edges: old(self).pending().edges.push(EdgeView { src_idx, dest, ctx: bbctx@, label: dest_label }),
                ..old(self).pending()
            }),
    {
        self.edges.push(Edge { src_idx, dest, bbctx, dest_label });
        assert(edges_view(self.edges@) =~= edges_view(old(self).edges@).push(
            EdgeView { src_idx, dest, ctx: bbctx@, label: dest_label },
        ));
    }

    /// Takes the pending edges that lead to `pos` off the work list.
    pub fn take_entries(&mut self, pos: usize) -> (entries: Vec<Edge>)
        ensures
            final(self).plan() == old(self).plan(),
            final(self).labels@ == old(self).labels@,
            edges_view(entries@) == entries_upto(old(self).pending().edges, pos, old(self).pending().edges.len() as int),
            final(self).pending() == (Pending {
                edges: others_upto(old(self).pending().edges, pos, old(self).pending().edges.len() as int),
                ..old(self).pending()
            }),
    {
        let mut all: Vec<Edge> = Vec::new();
        core::mem::swap(&mut all, &mut self.edges);
        let ghost all0 = all@;
        let ghost views = edges_view(all0);
        let mut entries: Vec<Edge> = Vec::new();
        let mut i: usize = 0;
        let n = all.len();
        assert(edges_view(entries@) =~= entries_upto(views, pos, 0));
        assert(edges_view(self.edges@) =~= others_upto(views, pos, 0));
        while i < n
            invariant
                i <= n,
                n == all0.len(),
                views == edges_view(all0),
                all@ == all0.skip(i as int),
                self.plan() == old(self).plan(),
                self.labels@ == old(self).labels@,
                self.targets == old(self).targets,
                self.loop_count == old(self).loop_count,
                edges_view(entries@) == entries_upto(views, pos, i as int),
                edges_view(self.edges@) == others_upto(views, pos, i as int),
            decreases n - i,
        {
            let ghost es = entries@;
            let ghost os = self.edges@;
            let e = all.remove(0);
            assert(e == all0[i as int]);
            assert(all@ =~= all0.skip(i + 1));
            assert(views[i as int] == e@);
            if e.dest == pos {
                entries.push(e);
                assert(edges_view(entries@) =~= edges_view(es).push(e@));
            } else {
                self.edges.push(e);
                assert(edges_view(self.edges@) =~= edges_view(os).push(e@));
            }
            i += 1;
        }
        entries
    }
}

/// The edges that are picked for a block are edges of the work list, and so
/// are the others.
pub proof fn lemma_entries_ok(edges: Seq<EdgeView>, func: &ISeqInfo, pos: usize, n: int)
    requires
        edges_ok(edges, func),
        0 <= n <= edges.len(),
    ensures
        edges_ok(entries_upto(edges, pos, n), func),
        edges_ok(others_upto(edges, pos, n), func),
    decreases n,
{
    if n > 0 {
        lemma_entries_ok(edges, func, pos, n - 1);
    }
}

impl Codegen {
    /// Starts the block at `pos`: joins the contexts of the pending edges
    /// that lead to it, generates the code on each of them, and binds the
    /// block's label.  Returns the context that the block is compiled for;
    /// `None` where no edge leads to the block.
    pub fn gen_merging_branches(&mut self, cc: &mut CompileContext, func: &ISeqInfo, pos: usize) -> (entry: Option<
        BBContext,
    >)
        requires
            old(cc).ok(func),
            pos <= func.bytecode@.len(),
        ensures
            final(cc).plan() == old(cc).plan(),
            final(cc).labels@ == old(cc).labels@,
            final(cc).ok(func),
            (final(self)@, final(cc).pending(), match entry {
                Some(ctx) => Some(ctx@),
                None => None,
            }) == old(self)@.gen_merging_branches(old(cc).pending(), old(cc).plan(), func, pos),
            entry matches Some(ctx) ==> ctx@.wf() && ctx@.slots.len() == func.reg_num,
    {
        let ghost pending0 = cc.pending();
        proof {
            lemma_entries_ok(pending0.edges, func, pos, pending0.edges.len() as int);
        }
        let entries = cc.take_entries(pos);
        let ghost views = edges_view(entries@);
        if entries.len() == 0 {
            return None;
        }
        let mut slots = StackSlotInfo(entries[0].bbctx.stack_slot.0.clone());
        assert(views[0] == entries@[0]@);
        let mut i: usize = 1;
        while i < entries.len()
            invariant
                1 <= i <= entries.len(),
                views == edges_view(entries@),
                slots.0@ == merge_upto(views, i as int),
            decreases entries.len() - i,
        {
            assert(views[i as int] == entries@[i as int]@);
            slots.merge(&entries[i].bbctx.stack_slot);
            i += 1;
        }
        proof {
            lemma_merge_upto(views, entries.len() as int, func.reg_num);
        }
        if cc.heads[pos] {
            let uses = loop_uses(func, pos, cc.ends[pos]);
            proof {
                lemma_head_upto(slots.0@, uses@, slots.0@.len() as int);
            }
            head_slots(&mut slots, &uses);
        }
        assert(slots.0@ == entry_slots(
            views,
            cc.heads@[pos as int],
            loop_uses_spec(func.bytecode@, pos as int, cc.ends@[pos as int] as int, func.reg_num as nat),
        ));
        let target = BBContext::from(&slots, cc.self_class, func.local_num);
        let block = cc.label_at(pos);
        let start = func.get_pc(pos);
        let ghost c0 = self@;
        let mut i: usize = 0;
        while i < entries.len()
            invariant
                i <= entries.len(),
                views == edges_view(entries@),
                edges_ok(views, func),
                target@.wf(),
                start.ok(),
                start.prev().ok(),
                self@ == c0.gen_edges(views, i as int, target@, start, block),
            decreases entries.len() - i,
        {
            assert(views[i as int] == entries@[i as int]@);
            self.gen_edge(&entries[i], &target, start, block);
            i += 1;
        }
        self.bind_label(block);
        let ghost tv = cc.pending().targets;
        let ghost table = slots.0@;
        cc.targets.insert(pos, slots);
        assert(cc.pending().targets =~= tv.update(pos as int, Some(table)));
        Some(target)
    }

    /// Compiles the block that starts at `pos`, if an edge leads to it.
    /// Returns whether the end of the loop that is being compiled was
    /// reached.
    pub fn compile_bb(&mut self, fnstore: &FnStore, func: &ISeqInfo, cc: &mut CompileContext, pos: usize) -> (r:
        Result<bool, CompileError>)
        requires
            old(cc).ok(func),
            pos < func.bytecode@.len(),
        ensures
            final(cc).plan() == old(cc).plan(),
            final(cc).labels@ == old(cc).labels@,
            final(cc).ok(func),
            (final(self)@, final(cc).pending(), r) == old(self)@.compile_bb(
                old(cc).pending(),
                old(cc).plan(),
                fnstore,
                func,
                pos,
            ),
    {
        let ghost plan = cc.plan();
        let entry = self.gen_merging_branches(cc, func, pos);
        let mut ctx = match entry {
            Some(ctx) => ctx,
            None => {
                return Ok(false);
            },
        };
        let ghost c1 = self@;
        let ghost pending1 = cc.pending();
        let ghost x1 = ctx@;
        let n = func.bytecode.len();
        let mut idx = pos;
        loop
            invariant
                idx < n,
                n == func.bytecode@.len(),
                cc.plan() == plan,
                cc.labels@ == old(cc).labels@,
                plan == old(cc).plan(),
                c1.compile_from(pending1, x1, plan, fnstore, func, pos) == old(self)@.compile_bb(
                    old(cc).pending(),
                    old(cc).plan(),
                    fnstore,
                    func,
                    pos,
                ),
                cc.ok(func),
                ctx@.wf(),
                ctx@.slots.len() == func.reg_num,
                self@.compile_from(cc.pending(), ctx@, plan, fnstore, func, idx) == c1.compile_from(
                    pending1,
                    x1,
                    plan,
                    fnstore,
                    func,
                    pos,
                ),
            decreases n - idx,
        {
            let branch_dest = self.label();
            let step = self.compile_step(fnstore, &mut ctx, func, idx, branch_dest);
            match self.apply_step(cc, &ctx, func, idx, step, branch_dest) {
                Onward::Stop(r) => {
                    return r;
                },
                Onward::Goto(next) => {
                    idx = next;
                },
            }
        }
    }

    /// Does what a step leaves to do.
    pub fn apply_step(
        &mut self,
        cc: &mut CompileContext,
        ctx: &BBContext,
        func: &ISeqInfo,
        idx: usize,
        step: Step,
        branch_dest: DestLabel,
    ) -> (on: Onward)
        requires
            old(cc).ok(func),
            idx < func.bytecode@.len(),
            ctx@.wf(),
            ctx@.slots.len() == func.reg_num,
            call_ok(step, func, idx),
        ensures
            final(cc).plan() == old(cc).plan(),
            final(cc).labels@ == old(cc).labels@,
            final(cc).ok(func),
            (final(self)@, final(cc).pending(), on) == old(self)@.apply_step(
                old(cc).pending(),
                ctx@,
                old(cc).plan(),
                func,
                idx,
                step,
                branch_dest,
            ),
            on matches Onward::Goto(next) ==> idx < next < func.bytecode@.len(),
    {
        reveal(CodegenView::apply_step);
        let n = func.bytecode.len();
        let next = match step {
            Step::Error(e) => {
                return Onward::Stop(Err(e));
            },
            Step::Next { next } => next,
            Step::Branch { src, dest, next } => {
                cc.new_branch(src, dest, cc.trimmed(ctx), branch_dest);
                next
            },
            Step::Jump { src, dest } => {
                cc.new_branch(src, dest, cc.trimmed(ctx), branch_dest);
                return Onward::Stop(Ok(false));
            },
            Step::Return => {
                return Onward::Stop(Ok(false));
            },
            Step::LoopStart { next } => {
                if cc.loop_count < usize::MAX {
                    cc.loop_count = cc.loop_count + 1;
                }
                next
            },
            Step::LoopEnd { next } => {
                if cc.loop_count > 0 {
                    cc.loop_count = cc.loop_count - 1;
                }
                if cc.is_loop && cc.loop_count == 0 {
                    self.deopt(ctx, func.get_pc(next));
                    return Onward::Stop(Ok(true));
                }
                next
            },
        };
        if next < n && !cc.starts[next] {
            Onward::Goto(next)
        } else {
            let label = self.label();
            self.emit_one(Jmp(Target::Label(label)));
            cc.new_branch(idx, next, cc.trimmed(ctx), label);
            Onward::Stop(Ok(false))
        }
    }

    /// Generates the code on an edge that was left over.
    pub fn gen_backedge(&mut self, e: &Edge, cc: &CompileContext, func: &ISeqInfo)
        requires
            cc.ok(func),
            e@.ctx.wf(),
            e@.dest <= func.bytecode@.len(),
        ensures
            final(self)@ == old(self)@.gen_backedge(e@, cc.pending(), cc.plan(), func),
    {
        let start = func.get_pc(e.dest);
        let dest = e.dest;
        match cc.targets.get(&dest) {
            Some(slots) => {
                let target = BBContext::from(slots, cc.self_class, func.local_num);
                self.gen_edge(e, &target, start, cc.label_at(dest));
            },
            None => {
                self.bind_label(e.dest_label);
                self.deopt(&e.bbctx, start);
            },
        }
    }

    /// Compiles a function of bytecode, or, where `position` is given, the
    /// loop that starts at that record.
    ///
    /// Returns the label of the entry of the code, and the context of the
    /// compilation: its plan, the edges that led backward, and the contexts
    /// that the blocks were compiled for.  The compilation fails where a
    /// record that is reached holds no instruction, names a slot that the
    /// function does not have, or branches out of the function.
    pub fn jit_compile_ruby(
        &mut self,
        fnstore: &FnStore,
        func: &ISeqInfo,
        self_class: ClassId,
        position: Option<usize>,
    ) -> (r: Result<(DestLabel, CompileContext), CompileError>)
        requires
            func.wf(),
            position matches Some(p) ==> p <= func.bytecode@.len(),
        ensures
            (final(self)@, entry_of(r)) == old(self)@.jit_compile_ruby(fnstore, func, self_class, position),
            r matches Ok(done) ==> done.1.ok(func) && (done.1.plan(), done.1.pending()) == old(
                self,
            )@.compiled_context(fnstore, func, self_class, position),
    {
        let start_pos = match position {
            Some(p) => p,
            None => 0,
        };
        let n = func.bytecode.len();
        let entry = self.label();
        self.bind_label(entry);
        let mut cc = CompileContext::new(func, self, self_class, position.is_some());
        let ghost plan = cc.plan();
        if position.is_none() {
            self.prologue(func.total_reg_num(), func.total_arg_num());
        }
        let seed = self.label();
        cc.new_branch(0, start_pos, BBContext::new(func.reg_num, self_class, func.local_num), seed);
        assert(cc.pending().edges =~= seq![
            EdgeView {
                src_idx: 0,
                dest: start_pos,
                ctx: BBView::empty(func.reg_num as nat, self_class, func.local_num),
                label: seed,
            },
        ]);
        let ghost c0 = self@;
        let ghost pending0 = cc.pending();
        let ghost goal = old(self)@.jit_compile_ruby(fnstore, func, self_class, position);
        let ghost blocks = c0.compile_blocks(pending0, plan, fnstore, func, start_pos, start_pos as int);
        assert(goal == match blocks.2 {
            Err(e) => (blocks.0, Err::<DestLabel, CompileError>(e)),
            Ok(_) => (
                blocks.0.gen_backedges(blocks.1, plan, func, blocks.1.edges.len() as int),
                Ok::<DestLabel, CompileError>(entry),
            ),
        });
        let mut pos = start_pos;
        let mut finished = false;
        while pos < n && !finished
            invariant
                start_pos <= pos <= n || finished,
                goal == old(self)@.jit_compile_ruby(fnstore, func, self_class, position),
                blocks == c0.compile_blocks(pending0, plan, fnstore, func, start_pos, start_pos as int),
                goal == match blocks.2 {
                    Err(e) => (blocks.0, Err::<DestLabel, CompileError>(e)),
                    Ok(_) => (
                        blocks.0.gen_backedges(blocks.1, plan, func, blocks.1.edges.len() as int),
                        Ok::<DestLabel, CompileError>(entry),
                    ),
                },
                n == func.bytecode@.len(),
                cc.plan() == plan,
                cc.ok(func),
                !finished ==> self@.compile_blocks(cc.pending(), plan, fnstore, func, start_pos, pos as int)
                    == c0.compile_blocks(pending0, plan, fnstore, func, start_pos, start_pos as int),
                finished ==> (self@, cc.pending(), Ok::<bool, CompileError>(true)) == c0.compile_blocks(
                    pending0,
                    plan,
                    fnstore,
                    func,
                    start_pos,
                    start_pos as int,
                ),
            decreases n - pos + (if finished { 0int } else { 1int }),
        {
            if pos == start_pos || cc.starts[pos] {
                match self.compile_bb(fnstore, func, &mut cc, pos) {
                    Err(e) => {
                        return Err(e);
                    },
                    Ok(true) => {
                        finished = true;
                    },
                    Ok(false) => {
                        pos += 1;
                    },
                }
            } else {
                pos += 1;
            }
        }
        let ghost c2 = self@;
        let ghost q = cc.pending();
        let mut i: usize = 0;
        while i < cc.edges.len()
            invariant
                i <= cc.edges.len(),
                cc.ok(func),
                cc.plan() == plan,
                cc.pending() == q,
                self@ == c2.gen_backedges(q, plan, func, i as int),
            decreases cc.edges.len() - i,
        {
            assert(q.edges[i as int] == cc.edges@[i as int]@);
            self.gen_backedge(&cc.edges[i], &cc, func);
            i += 1;
        }
        Ok((entry, cc))
    }
}

/// The label of the entry of the code that a compilation made.
pub open spec fn entry_of(r: Result<(DestLabel, CompileContext), CompileError>) -> Result<DestLabel, CompileError> {
    match r {
        Ok(done) => Ok(done.0),
        Err(e) => Err(e),
    }
}

} // verus!
