//! One step of the compilation of a basic block: the instruction at one
//! place of the bytecode is read, checked and compiled.

use vstd::prelude::*;
use crate::assembler::DestLabel;
use crate::bbctx::{BBContext, BBView, LinkMode};
use crate::codegen::rules::{
    flow_of, has_room, has_room_spec, inst_ok, lemma_room_when_flushed, ready, Flow, Follow,
};
use crate::codegen::{Codegen, CodegenView};
use crate::funcs::{FnStore, InlineCached, MethodInfo};
use crate::ids::{BcPc, SlotId};
use crate::inst::{decode, Bc, BcOp};
use crate::iseq::{branch_target, ISeqInfo};

verus! {

/// Why a function cannot be compiled.
#[derive(Clone, Copy, Debug, PartialEq, Eq, Structural)]
pub enum CompileError {
    /// The record at the given place holds no instruction.
    InvalidOpcode(usize),
    /// The instruction at the given place names a slot that the function
    /// does not have, or is not followed by the records it needs.
    BadOperand(usize),
    /// The branch at the given place leaves the function.
    BadBranch(usize),
}

/// What one step of the compilation has read.
#[derive(Clone, Copy, Debug, PartialEq, Eq, Structural)]
pub enum Prepared {
    Bad(CompileError),
    /// An instruction, its record, what follows it, and the record that its
    /// branch names, if it has one.
    Inst { op: BcOp, bc: Bc, follow: Follow, dest: usize },
}

/// How the compilation goes on after one step.
#[derive(Clone, Copy, Debug, PartialEq, Eq, Structural)]
pub enum Step {
    Error(CompileError),
    /// On to the record `next`.
    Next { next: usize },
    /// On to the record `next`; an edge from `src` leads to `dest`.
    Branch { src: usize, dest: usize, next: usize },
    /// The block ends with an edge from `src` to `dest`.
    Jump { src: usize, dest: usize },
    /// The block ends with a return.
    Return,
    /// A loop starts; on to the record `next`.
    LoopStart { next: usize },
    /// A loop ends; on to the record `next`.
    LoopEnd { next: usize },
}

/// What follows the instruction `op` at the place `idx`, as far as its rule
/// needs it; `None` where the records that it needs are not there.
pub open spec fn follow_of(bytecode: Seq<Bc>, idx: int, op: BcOp) -> Option<Follow> {
    match op {
        BcOp::Cmp(_, _, _, _, true) | BcOp::Cmpri(_, _, _, _, true) => {
            if idx + 1 < bytecode.len() {
                match decode(bytecode[idx + 1]) {
                    Some(BcOp::CondBr(_, _, _, kind)) => Some(Follow::Branch { kind }),
                    _ => None,
                }
            } else {
                None
            }
        },
        BcOp::MethodCall(_, _) => {
            if idx + 2 < bytecode.len() {
                match decode(bytecode[idx + 1]) {
                    Some(BcOp::MethodArgs(recv, args, len)) => {
                        let cache = bytecode[idx + 1].op2.0;
                        Some(
                            Follow::Args {
                                info: MethodInfo {
                                    recv,
                                    args,
                                    len,
                                    callee_codeptr: if cache == 0 {
                                        None
                                    } else {
                                        Some(cache)
                                    },
                                },
                                cached: if cache == 0 {
                                    None
                                } else {
                                    Some(
                                        InlineCached {
                                            codeptr: cache,
                                            meta: crate::frame::Meta(bytecode[idx + 2].op1),
                                            class_id: crate::ids::ClassId(
                                                crate::inst::low_half(bytecode[idx].op2.0),
                                            ),
                                            version: crate::inst::high_half(bytecode[idx].op2.0),
                                            pc: BcPc(bytecode[idx + 2].op2.0),
                                        },
                                    )
                                },
                            },
                        )
                    },
                    _ => None,
                }
            } else {
                None
            }
        },
        _ => Some(Follow::Nothing),
    }
}

/// The place of the branch that belongs to the instruction `op` at `idx`:
/// the instruction itself, or the record after a fused comparison.
pub open spec fn branch_pos(idx: int, op: BcOp) -> Option<int> {
    match flow_of(op) {
        Flow::Jump | Flow::Branch => Some(idx),
        Flow::FusedBranch => Some(idx + 1),
        _ => None,
    }
}

/// What a step reads at the place `idx` of a function with `reg_num` slots.
pub open spec fn prepare_spec(func: &ISeqInfo, idx: usize) -> Prepared {
    let bytecode = func.bytecode@;
    match decode(bytecode[idx as int]) {
        None => Prepared::Bad(CompileError::InvalidOpcode(idx)),
        Some(op) => match follow_of(bytecode, idx as int, op) {
            None => Prepared::Bad(CompileError::BadOperand(idx)),
            Some(follow) => if !inst_ok(op, follow, func.reg_num) {
                Prepared::Bad(CompileError::BadOperand(idx))
            } else {
                match branch_pos(idx as int, op) {
                    None => Prepared::Inst { op, bc: bytecode[idx as int], follow, dest: 0 },
                    Some(b) => match branch_target(bytecode, b) {
                        Some(t) => Prepared::Inst { op, bc: bytecode[idx as int], follow, dest: t as usize },
                        None => Prepared::Bad(CompileError::BadBranch(idx)),
                    },
                }
            },
        },
    }
}

/// Reads the records that follow an instruction.
fn read_follow(func: &ISeqInfo, idx: usize, op: BcOp) -> (r: Option<Follow>)
    requires
        idx < func.bytecode@.len(),
    ensures
        r == follow_of(func.bytecode@, idx as int, op),
{
    let n = func.bytecode.len();
    match op {
        BcOp::Cmp(_, _, _, _, true) | BcOp::Cmpri(_, _, _, _, true) => {
            if idx < n - 1 {
                match BcOp::try_from_bc(&func.bytecode[idx + 1]) {
                    Some(BcOp::CondBr(_, _, _, kind)) => Some(Follow::Branch { kind }),
                    _ => None,
                }
            } else {
                None
            }
        },
        BcOp::MethodCall(_, _) => {
            if n >= 3 && idx < n - 2 {
                match BcOp::try_from_bc(&func.bytecode[idx + 1]) {
                    Some(BcOp::MethodArgs(recv, args, len)) => {
                        let cache = func.bytecode[idx + 1].op2.0;
                        let info = MethodInfo::new(recv, args, len, cache);
                        let cached = if cache == 0 {
                            None
                        } else {
                            Some(InlineCached::new(&func.bytecode[idx], &func.bytecode[idx + 2], cache))
                        };
                        Some(Follow::Args { info, cached })
                    },
                    _ => None,
                }
            } else {
                None
            }
        },
        _ => Some(Follow::Nothing),
    }
}

/// Reads and checks the instruction at the place `idx`.
#[verifier::when_used_as_spec(prepare_spec)]
pub fn prepare(func: &ISeqInfo, idx: usize) -> (p: Prepared)
    requires
        idx < func.bytecode@.len(),
    ensures
        p == prepare_spec(func, idx),
{
    let n = func.bytecode.len();
    match BcOp::try_from_bc(&func.bytecode[idx]) {
        None => Prepared::Bad(CompileError::InvalidOpcode(idx)),
        Some(op) => match read_follow(func, idx, op) {
            None => Prepared::Bad(CompileError::BadOperand(idx)),
            Some(follow) => {
                if !inst_ok(op, follow, func.reg_num) {
                    Prepared::Bad(CompileError::BadOperand(idx))
                } else {
                    let b = match flow_of(op) {
                        Flow::Jump | Flow::Branch => Some(idx),
                        Flow::FusedBranch => Some(idx + 1),
                        _ => None,
                    };
                    match b {
                        None => Prepared::Inst { op, bc: func.bytecode[idx], follow, dest: 0 },
                        Some(b) => match func.branch_target(b) {
                            Some(t) => Prepared::Inst { op, bc: func.bytecode[idx], follow, dest: t },
                            None => Prepared::Bad(CompileError::BadBranch(idx)),
                        },
                    }
                }
            },
        },
    }
}

/// How the compilation goes on after the step at the place `idx`.
pub open spec fn step_of_spec(p: Prepared, idx: usize) -> Step {
    match p {
        Prepared::Bad(e) => Step::Error(e),
        Prepared::Inst { op, dest, .. } => match flow_of(op) {
            Flow::Next => Step::Next { next: (idx + 1) as usize },
            Flow::Call => Step::Next { next: (idx + 3) as usize },
            Flow::Branch => Step::Branch { src: idx, dest, next: (idx + 1) as usize },
            Flow::FusedBranch => Step::Branch { src: (idx + 1) as usize, dest, next: (idx + 2) as usize },
            Flow::Jump => Step::Jump { src: idx, dest },
            Flow::Return => Step::Return,
            Flow::LoopStart => Step::LoopStart { next: (idx + 1) as usize },
            Flow::LoopEnd => Step::LoopEnd { next: (idx + 1) as usize },
        },
    }
}

#[verifier::when_used_as_spec(step_of_spec)]
pub fn step_of(p: Prepared, idx: usize) -> (s: Step)
    requires
        idx < usize::MAX - 3,
    ensures
        s == step_of_spec(p, idx),
{
    match p {
        Prepared::Bad(e) => Step::Error(e),
        Prepared::Inst { op, dest, .. } => match flow_of(op) {
            Flow::Next => Step::Next { next: idx + 1 },
            Flow::Call => Step::Next { next: idx + 3 },
            Flow::Branch => Step::Branch { src: idx, dest, next: idx + 1 },
            Flow::FusedBranch => Step::Branch { src: idx + 1, dest, next: idx + 2 },
            Flow::Jump => Step::Jump { src: idx, dest },
            Flow::Return => Step::Return,
            Flow::LoopStart => Step::LoopStart { next: idx + 1 },
            Flow::LoopEnd => Step::LoopEnd { next: idx + 1 },
        },
    }
}

/// What a step does after a valid instruction: it goes on behind the
/// instruction, and a branch names a record of the function.
pub proof fn lemma_step(func: &ISeqInfo, idx: usize)
    requires
        idx < func.bytecode@.len(),
        func.bytecode@.len() < usize::MAX - 3,
    ensures
        match step_of_spec(prepare_spec(func, idx), idx) {
            Step::Error(_) => true,
            Step::Next { next } => idx < next <= func.bytecode@.len(),
            Step::Branch { src, dest, next } => idx < next <= func.bytecode@.len() && dest
                <= func.bytecode@.len() && idx <= src < next,
            Step::Jump { src, dest } => dest <= func.bytecode@.len() && src == idx,
            Step::Return => true,
            Step::LoopStart { next } => next == idx + 1,
            Step::LoopEnd { next } => next == idx + 1,
        },
{
    let bytecode = func.bytecode@;
    match decode(bytecode[idx as int]) {
        None => {},
        Some(op) => {
            match follow_of(bytecode, idx as int, op) {
                None => {},
                Some(follow) => {
                    if inst_ok(op, follow, func.reg_num) {
                        match flow_of(op) {
                            Flow::Call => {
                                assert(idx + 2 < bytecode.len());
                            },
                            Flow::FusedBranch => {
                                assert(follow is Branch);
                                assert(idx + 1 < bytecode.len());
                            },
                            _ => {},
                        }
                    }
                },
            }
        },
    }
}

/// A step goes on behind its instruction, and its branch names a record of
/// the function.
pub open spec fn call_ok(s: Step, func: &ISeqInfo, idx: usize) -> bool {
    match s {
        Step::Error(_) => true,
        Step::Next { next } => idx < next <= func.bytecode@.len(),
        Step::Branch { src, dest, next } => idx < next <= func.bytecode@.len() && dest
            <= func.bytecode@.len() && idx <= src < next,
        Step::Jump { src, dest } => dest <= func.bytecode@.len() && src == idx,
        Step::Return => true,
        Step::LoopStart { next } => next == idx + 1,
        Step::LoopEnd { next } => next == idx + 1,
    }
}

impl BBView {
    /// The context after every register was given up.
    pub open spec fn flushed(self) -> BBView {
        BBView::empty(self.slots.len(), self.self_class, self.local_num)
    }
}

impl CodegenView {
    #[verifier::opaque]
    pub open spec fn flush(self, ctx: BBView) -> (CodegenView, BBView) {
        let c = self;
        let wb = ctx.write_back();
        let c = c.gen_write_back(wb);
        let ctx = ctx.flushed();
        (c, ctx)
    }

    #[verifier::opaque]
    pub open spec fn compile_step(
        self,
        fnstore: &FnStore,
        ctx: BBView,
        func: &ISeqInfo,
        idx: usize,
        branch_dest: DestLabel,
    ) -> (CodegenView, BBView) {
        let c = self;
        let p = prepare(func, idx);
        let pc = func.pc_spec(idx);
        let (c, ctx) = match p {
            Prepared::Bad(e) => {
                (c, ctx)
            },
            Prepared::Inst { op, bc, follow, dest } => {
                let (c, ctx) = if !has_room_spec(fnstore, ctx, op, bc, follow) {
                    let (c, ctx) = c.flush(ctx);
                    (c, ctx)
                } else {
                    (c, ctx)
                };
                let (c, ctx) = c.compile_inst(fnstore, ctx, op, bc, pc, follow, branch_dest);
                (c, ctx)
            },
        };
        (c, ctx)
    }
}

impl Codegen {
    /// Writes every stale slot back and gives every register up.
    pub fn flush(&mut self, ctx: &mut BBContext)
        requires
            old(ctx)@.wf(),
        ensures
            (final(self)@, final(ctx)@) == old(self)@.flush(old(ctx)@),
            final(ctx)@ == old(ctx)@.flushed(),
            final(ctx)@.wf(),
            final(ctx)@.vacant_count() == 14,
    {
        reveal(CodegenView::flush);
        let wb = ctx.get_write_back();
        self.gen_write_back(&wb);
        ctx.clear();
    }

    /// One step: reads the instruction at the place `idx`, checks it, and
    /// compiles the instruction by its rule.  Where the rule would find no
    /// register for an operand or for its result, every stale slot is
    /// written back and every register given up first.
    ///
    /// Nothing is generated where the record holds no instruction, where the
    /// instruction names a slot that the function does not have, or where its
    /// branch leaves the function.
    pub fn compile_step(
        &mut self,
        fnstore: &FnStore,
        ctx: &mut BBContext,
        func: &ISeqInfo,
        idx: usize,
        branch_dest: DestLabel,
    ) -> (r: Step)
        requires
            func.wf(),
            idx < func.bytecode@.len(),
            old(ctx)@.wf(),
            old(ctx)@.slots.len() == func.reg_num,
        ensures
            (final(self)@, final(ctx)@) == old(self)@.compile_step(fnstore, old(ctx)@, func, idx, branch_dest),
            r == step_of(prepare(func, idx), idx),
            call_ok(r, func, idx),
            final(ctx)@.wf(),
            final(ctx)@.slots.len() == func.reg_num,
    {
        reveal(CodegenView::compile_step);
        proof {
            lemma_step(func, idx);
        }
        let p = prepare(func, idx);
        let pc = func.get_pc(idx);
        match p {
            Prepared::Bad(e) => {},
            Prepared::Inst { op, bc, follow, dest } => {
                if !has_room(fnstore, &*ctx, op, bc, follow) {
                    self.flush(ctx);
                    proof {
                        lemma_room_when_flushed(fnstore, ctx@, op, bc, follow);
                    }
                }
                self.compile_inst(fnstore, ctx, op, bc, pc, follow, branch_dest);
            },
        }
        step_of(p, idx)
    }
}

} // verus!
