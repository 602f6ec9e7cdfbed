//! The code that is built once: the trampolines that every compiled
//! function shares, the invokers through which the host calls a function,
//! and the stubs that stand in for a function until it is compiled.

use vstd::prelude::*;
use crate::assembler::{CodePtr, Cond, Data, DestLabel, Inst, JitMemory, JitView, LabelKind, RuntimeFn, Target};
use crate::assembler::Inst::{
    Addq, Bind, Call, Jcc, Jmp, Lea, Leave, Movl, Movq, Movw, Negq, Popq, Pushq, Ret, Subl, Subq,
    Testq, Xorq,
};
use crate::assembler::Operand::{Func, Idx, Imm, Imm64, Ind, Rip, R};
use crate::assembler::Reg::{
    R10, R12, R13, R14, R15, R8, R9, Rax, Rbp, Rbx, Rcx, Rdi, Rdx, Rsi, Rsp,
};
use crate::codegen::method_call::{NEG_BLOCK, NEG_META, NEG_SELF, PATCH_DISP};
use crate::codegen::{callee, entered, xmm_all, Codegen, CodegenView, OUTER_FROM_CFP};
use crate::frame::{
    FUNCDATA_OFFSET_CODEPTR, FUNCDATA_OFFSET_META, FUNCDATA_OFFSET_PC, OFFSET_ARG0, OFFSET_BLOCK,
    OFFSET_CFP, OFFSET_FUNCID, OFFSET_META, OFFSET_OUTER, OFFSET_SELF,
};
use crate::ids::IdentId;

verus! {

/// `-OFFSET_ARG0`.
pub const NEG_ARG0: i64 = -48;

/// `-OFFSET_REGNUM`.
pub const NEG_REGNUM: i64 = -20;

/// `-(16 + OFFSET_SELF)`.
pub const CALLEE_SELF: i64 = -56;

/// The record before the one that `r13` names, seen from `r13`.
pub const PREV_RECORD: i64 = -16;

/// Number of entries of the dispatch table: one per opcode.
pub const DISPATCH_LEN: usize = 256;

/// The opcode byte of a near jump.
pub const OPCODE_JMP: i64 = 0xe9;

impl CodegenView {
    /// The generator as it is made: the data and labels of the entries, the
    /// trampolines, the three invokers, the routine for opcodes that are not
    /// implemented, and the routine that boxes a float.
    pub open spec fn initial() -> CodegenView {
        let j = JitView::empty().constant(Data::I32(0)).constant(Data::I64(0)).label_n(7);
        let c = CodegenView {
            jit: j,
            class_version: DestLabel(0),
            const_version: DestLabel(1),
            entry_panic: DestLabel(2),
            entry_find_method: DestLabel(3),
            vm_return: DestLabel(4),
            div_by_zero: DestLabel(5),
            heap_to_f64: DestLabel(6),
            vm_entry: DestLabel(7),
            vm_fetch: DestLabel(8),
            f64_to_val: DestLabel(2),
            dispatch: Seq::empty(),
            method_invoker: CodePtr { page: 0, pos: 0 },
            method_invoker2: CodePtr { page: 0, pos: 0 },
            block_invoker: CodePtr { page: 0, pos: 0 },
        };
        let c = c.gen_entries();
        let method_invoker = c.jit.here();
        let c = c.gen_invoker(false);
        let block_invoker = c.jit.here();
        let c = c.gen_invoker(true);
        let method_invoker2 = c.jit.here();
        let c = c.gen_invoker2();
        let entry_unimpl = c.jit.here();
        let c = c.gen_unimplemented();
        let f64_to_val = c.nth(0);
        let c = c.generate_f64_to_val();
        CodegenView {
            dispatch: Seq::new(256, |i: int| entry_unimpl),
            method_invoker,
            method_invoker2,
            block_invoker,
            f64_to_val,
            ..c
        }
    }
}

impl Codegen {
    /// A generator with the shared code built.
    ///
    /// The labels `vm_entry` and `vm_fetch` are made here and left for the
    /// interpreter to bind.  Every entry of the dispatch table points to the
    /// routine for opcodes that are not implemented.
    pub fn new() -> (codegen: Codegen)
        ensures
            codegen@ == CodegenView::initial(),
    {
        let mut jit = JitMemory::new();
        let class_version = jit.const_i32(0);
        let const_version = jit.const_i64(0);
        let entry_panic = jit.label();
        let entry_find_method = jit.label();
        let vm_return = jit.label();
        let div_by_zero = jit.label();
        let heap_to_f64 = jit.label();
        let vm_entry = jit.label();
        let vm_fetch = jit.label();
        proof {
            reveal_with_fuel(JitView::label_n, 8);
            assert(jit@ == JitView::empty().constant(Data::I32(0)).constant(Data::I64(0)).label_n(7));
        }
        let mut codegen = Codegen {
            jit,
            class_version,
            const_version,
            entry_panic,
            entry_find_method,
            vm_return,
            div_by_zero,
            heap_to_f64,
            vm_entry,
            vm_fetch,
            f64_to_val: entry_panic,
            dispatch: Vec::new(),
            method_invoker: CodePtr { page: 0, pos: 0 },
            method_invoker2: CodePtr { page: 0, pos: 0 },
            block_invoker: CodePtr { page: 0, pos: 0 },
        };
        codegen.gen_entries();
        let method_invoker = codegen.jit.get_current_address();
        codegen.gen_invoker(false);
        let block_invoker = codegen.jit.get_current_address();
        codegen.gen_invoker(true);
        let method_invoker2 = codegen.jit.get_current_address();
        codegen.gen_invoker2();
        let entry_unimpl = codegen.jit.get_current_address();
        codegen.gen_unimplemented();
        let f64_to_val = codegen.generate_f64_to_val();
        let mut dispatch: Vec<CodePtr> = Vec::new();
        let mut i: usize = 0;
        while i < DISPATCH_LEN
            invariant
                i <= DISPATCH_LEN,
                dispatch@.len() == i,
                forall|k: int| 0 <= k < i ==> dispatch@[k] == entry_unimpl,
            decreases DISPATCH_LEN - i,
        {
            dispatch.push(entry_unimpl);
            i += 1;
        }
        assert(dispatch@ =~= Seq::new(256, |i: int| entry_unimpl));
        codegen.dispatch = dispatch;
        codegen.method_invoker = method_invoker;
        codegen.method_invoker2 = method_invoker2;
        codegen.block_invoker = block_invoker;
        codegen.f64_to_val = f64_to_val;
        codegen
    }
}

impl CodegenView {
    #[verifier::opaque]
    pub open spec fn gen_entries(self) -> CodegenView {
        let c = self;
        let entry_panic = c.entry_panic;
        let entry_find_method = c.entry_find_method;
        let vm_return = c.vm_return;
        let div_by_zero = c.div_by_zero;
        let heap_to_f64 = c.heap_to_f64;
        let jit_return = c.nth(0);
        let c = c.label();
        let c = c.emit(seq![
            Bind(entry_panic),
            Movq(R(Rdi), R(Rbx)),
            Movq(R(Rsi), R(R12)),
            Movq(R(Rax), Func(RuntimeFn::DumpStacktrace)),
            Subq(R(Rsp), Imm(8)),
            Call(Target::Reg(Rax)),
            Addq(R(Rsp), Imm(8)),
            Movq(R(Rdi), R(Rbx)),
            Movq(R(Rsi), R(R12)),
            Movq(R(Rax), Func(RuntimeFn::Panic)),
            Jmp(Target::Reg(Rax)),
        ]);
        let c = c.emit(seq![
            Bind(entry_find_method),
            Movq(R(Rdi), R(R12)),
            Movq(R(Rax), Func(RuntimeFn::FindMethod)),
            Jmp(Target::Reg(Rax)),
        ]);
        let c = c.emit(seq![
            Bind(vm_return),
            Movq(R(R15), R(Rax)),
            Movq(R(Rdi), R(Rbx)),
            Movq(R(Rsi), R(R12)),
            Movq(R(Rdx), Ind(Rbp, NEG_META)),
            Movq(R(Rcx), R(R13)),
            Subq(R(Rcx), Imm(8)),
            Movq(R(Rax), Func(RuntimeFn::GetErrorLocation)),
            Call(Target::Reg(Rax)),
            Movq(R(Rax), R(R15)),
            Bind(jit_return),
            Leave,
            Ret,
        ]);
        let c = c.emit(seq![
            Bind(div_by_zero),
            Movq(R(Rdi), R(R12)),
            Movq(R(Rax), Func(RuntimeFn::ErrorDivideByZero)),
            Call(Target::Reg(Rax)),
            Xorq(R(Rax), R(Rax)),
            Leave,
            Ret,
        ]);
        let c = c.emit(seq![Bind(heap_to_f64), Subq(R(Rsp), Imm(128)), Movq(Ind(Rsp, 112), R(Rdi))]);
        let c = c.emit_xmm_all(true);
        let c = c.emit(seq![Movq(R(Rax), Func(RuntimeFn::ValToF)), Call(Target::Reg(Rax))]);
        let c = c.emit_xmm_all(false);
        let c = c.emit(seq![Movq(R(Rdi), Ind(Rsp, 112)), Addq(R(Rsp), Imm(128)), Ret]);
        c
    }

    #[verifier::opaque]
    pub open spec fn gen_invoker_prologue(self, invoke_block: bool) -> CodegenView {
        let c = self;
        let c = c.emit(seq![
            Pushq(R(Rbx)),
            Pushq(R(R12)),
            Pushq(R(R13)),
            Pushq(R(R14)),
            Pushq(R(R15)),
            Movq(R(Rbx), R(Rdi)),
            Movq(R(R12), R(Rsi)),
            Movq(R(Rax), Ind(Rdx, FUNCDATA_OFFSET_META)),
            Movq(callee(OFFSET_META), R(Rax)),
            Movq(callee(OFFSET_BLOCK), Imm(0)),
            Movq(R(Rax), Ind(Rbx, 0)),
            Lea(R(Rdi), callee(OFFSET_CFP)),
            Movq(Ind(Rdi, 0), R(Rax)),
            Movq(Ind(Rbx, 0), R(Rdi)),
        ]);
        let c = if invoke_block {
            let c = c.emit(seq![
                Movq(R(Rax), Ind(Rax, 0)),
                Lea(R(Rax), Ind(Rax, OUTER_FROM_CFP)),
                Movq(callee(OFFSET_OUTER), R(Rax)),
            ]);
            c
        } else {
            let c = c.emit(seq![Movq(callee(OFFSET_OUTER), Imm(0))]);
            c
        };
        let c = c.emit(seq![Movq(callee(OFFSET_SELF), R(Rcx)), Movq(R(R13), Ind(Rdx, FUNCDATA_OFFSET_PC))]);
        c
    }

    #[verifier::opaque]
    pub open spec fn gen_invoker_prep(self) -> CodegenView {
        let c = self;
        let loop_exit = c.nth(0);
        let c = c.label();
        let loop_ = c.nth(0);
        let c = c.label();
        let c = c.emit(seq![
            Movq(R(Rdi), R(R9)),
            Testq(R(R9), R(R9)),
            Jcc(Cond::Eq, loop_exit),
            Movq(R(R10), R(R9)),
            Negq(R(R9)),
            Bind(loop_),
            Movq(R(Rax), Idx(R8, R10, PATCH_DISP_8)),
            Movq(Idx(Rsp, R9, CALLEE_SELF), R(Rax)),
            Subq(R(R10), Imm(1)),
            Addq(R(R9), Imm(1)),
            Jcc(Cond::Ne, loop_),
            Bind(loop_exit),
        ]);
        c
    }

    #[verifier::opaque]
    pub open spec fn gen_invoker_epilogue(self) -> CodegenView {
        let c = self;
        let c = c.emit(seq![
            Movq(R(Rax), Ind(Rdx, FUNCDATA_OFFSET_CODEPTR)),
            Call(Target::Reg(Rax)),
            Movq(R(Rdi), callee(OFFSET_CFP)),
            Movq(Ind(Rbx, 0), R(Rdi)),
            Popq(R(R15)),
            Popq(R(R14)),
            Popq(R(R13)),
            Popq(R(R12)),
            Popq(R(Rbx)),
            Ret,
        ]);
        c
    }

    #[verifier::opaque]
    pub open spec fn gen_invoker(self, invoke_block: bool) -> CodegenView {
        let c = self;
        let c = c.gen_invoker_prologue(invoke_block);
        let c = c.gen_invoker_prep();
        let c = c.gen_invoker_epilogue();
        c
    }

    #[verifier::opaque]
    pub open spec fn gen_invoker2(self) -> CodegenView {
        let c = self;
        let loop_exit = c.nth(0);
        let c = c.label();
        let loop_ = c.nth(0);
        let c = c.label();
        let c = c.gen_invoker_prologue(false);
        let c = c.emit(seq![
            Movq(R(Rdi), R(R9)),
            Testq(R(R9), R(R9)),
            Jcc(Cond::Eq, loop_exit),
            Negq(R(R9)),
            Bind(loop_),
            Movq(R(Rax), Idx(R8, R9, 8)),
            Movq(Idx(Rsp, R9, CALLEE_SELF), R(Rax)),
            Addq(R(R9), Imm(1)),
            Jcc(Cond::Ne, loop_),
            Bind(loop_exit),
        ]);
        let c = c.gen_invoker_epilogue();
        c
    }

    #[verifier::opaque]
    pub open spec fn gen_unimplemented(self) -> CodegenView {
        let c = self;
        let c = c.emit(seq![
            Movq(R(Rdi), R(Rbx)),
            Movq(R(Rsi), R(R12)),
            Movq(R(Rdx), Ind(R13, PREV_RECORD)),
            Movq(R(Rax), Func(RuntimeFn::UnimplementedInst)),
            Call(Target::Reg(Rax)),
            Leave,
            Ret,
        ]);
        c
    }

    #[verifier::opaque]
    pub open spec fn gen_jit_stub(self) -> CodegenView {
        let c = self;
        let entry = c.nth(0);
        let c = c.label();
        let c = c.emit(seq![
            Bind(entry),
            Movl(R(Rsi), entered(OFFSET_FUNCID)),
            Movq(R(Rdx), entered(OFFSET_SELF)),
            Subq(R(Rsp), Imm(1024)),
            Pushq(R(Rdi)),
            Movq(R(Rdi), R(R12)),
            Movq(R(Rax), Func(RuntimeFn::ExecJitCompile)),
            Call(Target::Reg(Rax)),
            Movw(Rip(entry), Imm(OPCODE_JMP)),
            Lea(R(Rdi), Rip(entry)),
            Addq(R(Rdi), Imm(5)),
            Subq(R(Rax), R(Rdi)),
            Movl(Ind(Rdi, PATCH_DISP), R(Rax)),
            Popq(R(Rdi)),
            Addq(R(Rsp), Imm(1024)),
            Jmp(Target::Label(entry)),
        ]);
        c
    }

    #[verifier::opaque]
    pub open spec fn gen_vm_stub(self) -> CodegenView {
        let c = self;
        let vm_entry = c.vm_entry;
        let c = c.emit(seq![Jmp(Target::Label(vm_entry))]);
        c
    }

    #[verifier::opaque]
    pub open spec fn wrap_native_func(self, abs_address: u64) -> CodegenView {
        let c = self;
        let c = c.emit(seq![Pushq(R(Rbp)), Movq(R(Rbp), R(Rsp)), Movq(R(R8), R(Rdi)), Movq(R(Rax), R(Rdi))]);
        let c = c.calc_offset();
        let c = c.emit(seq![
            Subq(R(Rsp), R(Rax)),
            Lea(R(Rcx), Ind(Rbp, NEG_ARG0)),
            Movq(R(R9), Ind(Rbp, NEG_BLOCK)),
            Movq(R(Rdx), Ind(Rbp, NEG_SELF)),
            Movw(Ind(Rbp, NEG_REGNUM), R(Rdi)),
            Movq(R(Rdi), R(Rbx)),
            Movq(R(Rsi), R(R12)),
            Movq(R(Rax), Imm64(abs_address)),
            Call(Target::Reg(Rax)),
            Leave,
            Ret,
        ]);
        c
    }

    #[verifier::opaque]
    pub open spec fn gen_attr_reader(self, ivar_name: IdentId) -> CodegenView {
        let c = self;
        let cached_class = c.nth(0);
        let c = c.constant(Data::I32(0));
        let cached_ivarid = c.nth(0);
        let c = c.constant(Data::I32(0));
        let c = c.emit(seq![
            Movq(R(Rdi), entered(OFFSET_SELF)),
            Movq(R(Rsi), Imm(ivar_name.0 as i64)),
            Movq(R(Rdx), R(R12)),
            Lea(R(Rcx), Rip(cached_class)),
            Lea(R(R8), Rip(cached_ivarid)),
            Movq(R(Rax), Func(RuntimeFn::GetInstanceVarWithCache)),
            Subq(R(Rsp), Imm(8)),
            Call(Target::Reg(Rax)),
            Addq(R(Rsp), Imm(8)),
            Ret,
        ]);
        c
    }

    #[verifier::opaque]
    pub open spec fn gen_attr_writer(self, ivar_name: IdentId) -> CodegenView {
        let c = self;
        let cached_class = c.nth(0);
        let c = c.constant(Data::I32(0));
        let cached_ivarid = c.nth(0);
        let c = c.constant(Data::I32(0));
        let c = c.emit(seq![
            Movq(R(Rdi), R(R12)),
            Movq(R(Rsi), entered(OFFSET_SELF)),
            Movq(R(Rdx), Imm(ivar_name.0 as i64)),
            Movq(R(Rcx), entered(OFFSET_ARG0)),
            Lea(R(R8), Rip(cached_class)),
            Lea(R(R9), Rip(cached_ivarid)),
            Movq(R(Rax), Func(RuntimeFn::SetInstanceVarWithCache)),
            Subq(R(Rsp), Imm(8)),
            Call(Target::Reg(Rax)),
            Addq(R(Rsp), Imm(8)),
            Ret,
        ]);
        c
    }
}

impl Codegen {
    /// The trampolines.
    ///
    /// - `entry_panic` dumps a backtrace and aborts.
    /// - `entry_find_method` tail-calls the method resolver with the global
    /// state as its first argument.
    /// - `vm_return` records where an error happened, from the frame's header
    /// and the record before `r13`, then unwinds the frame and returns
    /// what `rax` holds.
    /// - `div_by_zero` sets the error and returns no value.
    /// - `heap_to_f64` unboxes a float on the heap, keeping `rdi` and xmm2 to
    /// xmm15.
    pub fn gen_entries(&mut self)
        ensures
            final(self)@ == old(self)@.gen_entries(),
    {
        reveal(CodegenView::gen_entries);
        let entry_panic = self.entry_panic;
        let entry_find_method = self.entry_find_method;
        let vm_return = self.vm_return;
        let div_by_zero = self.div_by_zero;
        let heap_to_f64 = self.heap_to_f64;
        let jit_return = self.label();
        self.emit(vec![
            Bind(entry_panic),
            Movq(R(Rdi), R(Rbx)),
            Movq(R(Rsi), R(R12)),
            Movq(R(Rax), Func(RuntimeFn::DumpStacktrace)),
            Subq(R(Rsp), Imm(8)),
            Call(Target::Reg(Rax)),
            Addq(R(Rsp), Imm(8)),
            Movq(R(Rdi), R(Rbx)),
            Movq(R(Rsi), R(R12)),
            Movq(R(Rax), Func(RuntimeFn::Panic)),
            Jmp(Target::Reg(Rax)),
        ]);
        self.emit(vec![
            Bind(entry_find_method),
            Movq(R(Rdi), R(R12)),
            Movq(R(Rax), Func(RuntimeFn::FindMethod)),
            Jmp(Target::Reg(Rax)),
        ]);
        self.emit(vec![
            Bind(vm_return),
            Movq(R(R15), R(Rax)),
            Movq(R(Rdi), R(Rbx)),
            Movq(R(Rsi), R(R12)),
            Movq(R(Rdx), Ind(Rbp, NEG_META)),
            Movq(R(Rcx), R(R13)),
            Subq(R(Rcx), Imm(8)),
            Movq(R(Rax), Func(RuntimeFn::GetErrorLocation)),
            Call(Target::Reg(Rax)),
            Movq(R(Rax), R(R15)),
            Bind(jit_return),
            Leave,
            Ret,
        ]);
        self.emit(vec![
            Bind(div_by_zero),
            Movq(R(Rdi), R(R12)),
            Movq(R(Rax), Func(RuntimeFn::ErrorDivideByZero)),
            Call(Target::Reg(Rax)),
            Xorq(R(Rax), R(Rax)),
            Leave,
            Ret,
        ]);
        self.emit(vec![Bind(heap_to_f64), Subq(R(Rsp), Imm(128)), Movq(Ind(Rsp, 112), R(Rdi))]);
        self.emit_xmm_all(true);
        self.emit(vec![Movq(R(Rax), Func(RuntimeFn::ValToF)), Call(Target::Reg(Rax))]);
        self.emit_xmm_all(false);
        self.emit(vec![Movq(R(Rdi), Ind(Rsp, 112)), Addq(R(Rsp), Imm(128)), Ret]);
    }

    /// The entry of an invoker: saves the callee-save registers, sets `rbx`
    /// and `r12`, and stages header, block, linkage, outer pointer and
    /// receiver of the callee's frame.  For a block the outer pointer is the
    /// frame on top of the chain; else it is zero.
    ///
    /// - `rdi`: the interpreter, `rsi`: the global state
    /// - `rdx`: the function's descriptor, `rcx`: the receiver
    pub fn gen_invoker_prologue(&mut self, invoke_block: bool)
        ensures
            final(self)@ == old(self)@.gen_invoker_prologue(invoke_block),
    {
        reveal(CodegenView::gen_invoker_prologue);
        self.emit(vec![
            Pushq(R(Rbx)),
            Pushq(R(R12)),
            Pushq(R(R13)),
            Pushq(R(R14)),
            Pushq(R(R15)),
            Movq(R(Rbx), R(Rdi)),
            Movq(R(R12), R(Rsi)),
            Movq(R(Rax), Ind(Rdx, FUNCDATA_OFFSET_META)),
            Movq(callee(OFFSET_META), R(Rax)),
            Movq(callee(OFFSET_BLOCK), Imm(0)),
            Movq(R(Rax), Ind(Rbx, 0)),
            Lea(R(Rdi), callee(OFFSET_CFP)),
            Movq(Ind(Rdi, 0), R(Rax)),
            Movq(Ind(Rbx, 0), R(Rdi)),
        ]);
        if invoke_block {
            self.emit(vec![
                Movq(R(Rax), Ind(Rax, 0)),
                Lea(R(Rax), Ind(Rax, OUTER_FROM_CFP)),
                Movq(callee(OFFSET_OUTER), R(Rax)),
            ]);
        } else {
            self.emit_one(Movq(callee(OFFSET_OUTER), Imm(0)));
        }
        self.emit(vec![Movq(callee(OFFSET_SELF), R(Rcx)), Movq(R(R13), Ind(Rdx, FUNCDATA_OFFSET_PC))]);
    }

    /// Copies the arguments of an invoker into the callee's frame.  The host
    /// hands them over as an array in natural order; the frame grows
    /// downward, so the copy runs from the last to the first.
    ///
    /// - `r8`: the address of the first argument, `r9`: their number
    /// - out: `rdi` holds the number of arguments
    pub fn gen_invoker_prep(&mut self)
        ensures
            final(self)@ == old(self)@.gen_invoker_prep(),
    {
        reveal(CodegenView::gen_invoker_prep);
        let loop_exit = self.label();
        let loop_ = self.label();
        self.emit(vec![
            Movq(R(Rdi), R(R9)),
            Testq(R(R9), R(R9)),
            Jcc(Cond::Eq, loop_exit),
            Movq(R(R10), R(R9)),
            Negq(R(R9)),
            Bind(loop_),
            Movq(R(Rax), Idx(R8, R10, PATCH_DISP_8)),
            Movq(Idx(Rsp, R9, CALLEE_SELF), R(Rax)),
            Subq(R(R10), Imm(1)),
            Addq(R(R9), Imm(1)),
            Jcc(Cond::Ne, loop_),
            Bind(loop_exit),
        ]);
    }

    /// Calls the function's code, unlinks its frame and restores the
    /// callee-save registers.
    pub fn gen_invoker_epilogue(&mut self)
        ensures
            final(self)@ == old(self)@.gen_invoker_epilogue(),
    {
        reveal(CodegenView::gen_invoker_epilogue);
        self.emit(vec![
            Movq(R(Rax), Ind(Rdx, FUNCDATA_OFFSET_CODEPTR)),
            Call(Target::Reg(Rax)),
            Movq(R(Rdi), callee(OFFSET_CFP)),
            Movq(Ind(Rbx, 0), R(Rdi)),
            Popq(R(R15)),
            Popq(R(R14)),
            Popq(R(R13)),
            Popq(R(R12)),
            Popq(R(Rbx)),
            Ret,
        ]);
    }

    /// An invoker for arguments in an array: of a method, or of a block.
    pub fn gen_invoker(&mut self, invoke_block: bool)
        ensures
            final(self)@ == old(self)@.gen_invoker(invoke_block),
    {
        reveal(CodegenView::gen_invoker);
        self.gen_invoker_prologue(invoke_block);
        self.gen_invoker_prep();
        self.gen_invoker_epilogue();
    }

    /// The invoker for arguments that already stand on the caller's stack in
    /// reverse, as generated code leaves them.
    pub fn gen_invoker2(&mut self)
        ensures
            final(self)@ == old(self)@.gen_invoker2(),
    {
        reveal(CodegenView::gen_invoker2);
        let loop_exit = self.label();
        let loop_ = self.label();
        self.gen_invoker_prologue(false);
        self.emit(vec![
            Movq(R(Rdi), R(R9)),
            Testq(R(R9), R(R9)),
            Jcc(Cond::Eq, loop_exit),
            Negq(R(R9)),
            Bind(loop_),
            Movq(R(Rax), Idx(R8, R9, 8)),
            Movq(Idx(Rsp, R9, CALLEE_SELF), R(Rax)),
            Addq(R(R9), Imm(1)),
            Jcc(Cond::Ne, loop_),
            Bind(loop_exit),
        ]);
        self.gen_invoker_epilogue();
    }

    /// The routine for an opcode that is not implemented: reports the record
    /// before `r13`.
    pub fn gen_unimplemented(&mut self)
        ensures
            final(self)@ == old(self)@.gen_unimplemented(),
    {
        reveal(CodegenView::gen_unimplemented);
        self.emit(vec![
            Movq(R(Rdi), R(Rbx)),
            Movq(R(Rsi), R(R12)),
            Movq(R(Rdx), Ind(R13, PREV_RECORD)),
            Movq(R(Rax), Func(RuntimeFn::UnimplementedInst)),
            Call(Target::Reg(Rax)),
            Leave,
            Ret,
        ]);
    }

    /// Set jit compilation stub code for an entry point of each Ruby methods.
    ///
    /// At the first call of the function the stub has the function compiled,
    /// for the function and the `self` of the frame that its caller has
    /// staged.  It overwrites its own first bytes with a jump to the address
    /// that comes back, and runs that jump, with `rdi` and `rsp` as they
    /// were on entry.  Every later call goes straight to the compiled code.
    pub fn gen_jit_stub(&mut self) -> (r: CodePtr)
        ensures
            final(self)@ == old(self)@.gen_jit_stub(),
            r == old(self)@.jit.here(),
    {
        reveal(CodegenView::gen_jit_stub);
        let codeptr = self.jit.get_current_address();
        let entry = self.label();
        self.emit(vec![
            Bind(entry),
            Movl(R(Rsi), entered(OFFSET_FUNCID)),
            Movq(R(Rdx), entered(OFFSET_SELF)),
            Subq(R(Rsp), Imm(1024)),
            Pushq(R(Rdi)),
            Movq(R(Rdi), R(R12)),
            Movq(R(Rax), Func(RuntimeFn::ExecJitCompile)),
            Call(Target::Reg(Rax)),
            Movw(Rip(entry), Imm(OPCODE_JMP)),
            Lea(R(Rdi), Rip(entry)),
            Addq(R(Rdi), Imm(5)),
            Subq(R(Rax), R(Rdi)),
            Movl(Ind(Rdi, PATCH_DISP), R(Rax)),
            Popq(R(Rdi)),
            Addq(R(Rsp), Imm(1024)),
            Jmp(Target::Label(entry)),
        ]);
        codeptr
    }

    /// The stub of a function that is never compiled: enters the interpreter.
    pub fn gen_vm_stub(&mut self) -> (r: CodePtr)
        ensures
            final(self)@ == old(self)@.gen_vm_stub(),
            r == old(self)@.jit.here(),
    {
        reveal(CodegenView::gen_vm_stub);
        let vm_entry = self.vm_entry;
        let codeptr = self.jit.get_current_address();
        self.emit_one(Jmp(Target::Label(vm_entry)));
        codeptr
    }

    /// Generate a wrapper for a native function with C ABI.
    ///
    /// The wrapper turns the callee contract of generated code into a call of
    /// `fn(interp, globals, self, args, len, block)`.  It writes the actual
    /// number of arguments into the frame's header, since the function itself
    /// does not know it.
    ///
    /// - `rdi`: number of args
    pub fn wrap_native_func(&mut self, abs_address: u64) -> (r: CodePtr)
        ensures
            final(self)@ == old(self)@.wrap_native_func(abs_address),
            r == old(self)@.jit.here(),
    {
        reveal(CodegenView::wrap_native_func);
        let label = self.jit.get_current_address();
        self.emit(vec![Pushq(R(Rbp)), Movq(R(Rbp), R(Rsp)), Movq(R(R8), R(Rdi)), Movq(R(Rax), R(Rdi))]);
        self.calc_offset();
        self.emit(vec![
            Subq(R(Rsp), R(Rax)),
            Lea(R(Rcx), Ind(Rbp, NEG_ARG0)),
            Movq(R(R9), Ind(Rbp, NEG_BLOCK)),
            Movq(R(Rdx), Ind(Rbp, NEG_SELF)),
            Movw(Ind(Rbp, NEG_REGNUM), R(Rdi)),
            Movq(R(Rdi), R(Rbx)),
            Movq(R(Rsi), R(R12)),
            Movq(R(Rax), Imm64(abs_address)),
            Call(Target::Reg(Rax)),
            Leave,
            Ret,
        ]);
        label
    }

    /// Generate attr_reader.
    ///
    /// The function reads the instance variable of `self` through the
    /// runtime, with a cache of class and index of its own.
    pub fn gen_attr_reader(&mut self, ivar_name: IdentId) -> (r: CodePtr)
        ensures
            final(self)@ == old(self)@.gen_attr_reader(ivar_name),
            r == old(self)@.jit.here(),
    {
        reveal(CodegenView::gen_attr_reader);
        let label = self.jit.get_current_address();
        let cached_class = self.jit.const_i32(0);
        let cached_ivarid = self.jit.const_i32(0);
        self.emit(vec![
            Movq(R(Rdi), entered(OFFSET_SELF)),
            Movq(R(Rsi), Imm(ivar_name.0 as i64)),
            Movq(R(Rdx), R(R12)),
            Lea(R(Rcx), Rip(cached_class)),
            Lea(R(R8), Rip(cached_ivarid)),
            Movq(R(Rax), Func(RuntimeFn::GetInstanceVarWithCache)),
            Subq(R(Rsp), Imm(8)),
            Call(Target::Reg(Rax)),
            Addq(R(Rsp), Imm(8)),
            Ret,
        ]);
        label
    }

    /// Generate attr_writer.
    ///
    /// The function writes its argument to the instance variable of `self`
    /// through the runtime.
    pub fn gen_attr_writer(&mut self, ivar_name: IdentId) -> (r: CodePtr)
        ensures
            final(self)@ == old(self)@.gen_attr_writer(ivar_name),
            r == old(self)@.jit.here(),
    {
        reveal(CodegenView::gen_attr_writer);
        let label = self.jit.get_current_address();
        let cached_class = self.jit.const_i32(0);
        let cached_ivarid = self.jit.const_i32(0);
        self.emit(vec![
            Movq(R(Rdi), R(R12)),
            Movq(R(Rsi), entered(OFFSET_SELF)),
            Movq(R(Rdx), Imm(ivar_name.0 as i64)),
            Movq(R(Rcx), entered(OFFSET_ARG0)),
            Lea(R(R8), Rip(cached_class)),
            Lea(R(R9), Rip(cached_ivarid)),
            Movq(R(Rax), Func(RuntimeFn::SetInstanceVarWithCache)),
            Subq(R(Rsp), Imm(8)),
            Call(Target::Reg(Rax)),
            Addq(R(Rsp), Imm(8)),
            Ret,
        ]);
        label
    }
}

/// The last of `n` eight-byte words, seen from one past them scaled by the
/// index: `[base + index * 8 - 8]`.
pub const PATCH_DISP_8: i64 = -8;


} // verus!
