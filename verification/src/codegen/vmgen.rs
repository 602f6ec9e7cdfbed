//! The interpreter's routines for calls.
//!
//! The interpreter runs one routine per opcode, reached through the
//! dispatch table, with `r13` on the record after the one being run.  Its
//! call sites keep their inline cache in the bytecode itself:
//!
//! ```text
//!      +------+------+------+------+
//!      | MethodCall  |class | ver  |
//!      +------+------+------+------+
//! r13->| MethodArgs  |   CodePtr   |
//!      +------+------+------+------+
//!      |     Meta    |     PC      |
//!      +------+------+------+------+
//! ```

use vstd::prelude::*;
use crate::assembler::{CodePtr, Cond, DestLabel, Inst, RuntimeFn, Target};
use crate::assembler::Inst::{
    Addq, Bind, Call, Cmpl, Jcc, Jmp, Lea, Movl, Movq, Movzxw, Negq, Popq, Pushq, Subq, Testq,
};
use crate::assembler::Operand::{Func, Idx, Imm, Ind, Rip, R};
use crate::assembler::Reg::{R10, R12, R13, R15, R8, R9, Rax, Rbp, Rbx, Rcx, Rdi, Rdx, Rsi, Rsp};
use crate::codegen::method_call::{NEG_BLOCK, NEG_SELF, PATCH_DISP};
use crate::codegen::trampoline::{CALLEE_SELF, PATCH_DISP_8};
use crate::codegen::{callee, Codegen, CodegenView};
use crate::frame::{
    FUNCDATA_OFFSET_CODEPTR, FUNCDATA_OFFSET_META, FUNCDATA_OFFSET_PC, OFFSET_BLOCK, OFFSET_META,
    OFFSET_SELF,
};

verus! {

impl CodegenView {
    #[verifier::opaque]
    pub open spec fn vm_get_rdi(self) -> CodegenView {
        self.emit(seq![Negq(R(Rdi)), Movq(R(Rdi), Idx(Rbp, Rdi, NEG_SELF))])
    }

    #[verifier::opaque]
    pub open spec fn vm_get_addr_rcx(self) -> CodegenView {
        self.emit(seq![Negq(R(Rcx)), Lea(R(Rcx), Idx(Rbp, Rcx, NEG_SELF))])
    }

    #[verifier::opaque]
    pub open spec fn vm_store_r15_if_nonzero(self, exit: DestLabel) -> CodegenView {
        let c = self;
        let c = c.emit(seq![
            Testq(R(R15), R(R15)),
            Jcc(Cond::Eq, exit),
            Negq(R(R15)),
            Movq(Idx(Rbp, R15, NEG_SELF), R(Rax)),
            Bind(exit),
        ]);
        c
    }

    #[verifier::opaque]
    pub open spec fn fetch_and_dispatch(self) -> CodegenView {
        let c = self;
        let fetch = c.vm_fetch;
        let c = c.emit(seq![Jmp(Target::Label(fetch))]);
        c
    }

    #[verifier::opaque]
    pub open spec fn set_arguments(self) -> CodegenView {
        let c = self;
        let loop_ = c.nth(0);
        let c = c.label();
        let loop_exit = c.nth(0);
        let c = c.label();
        let c = c.emit(seq![
            Testq(R(R8), R(R8)),
            Jcc(Cond::Eq, loop_exit),
            Negq(R(R8)),
            Bind(loop_),
            Movq(R(Rax), Idx(Rcx, R8, 8)),
            Movq(Idx(Rsp, R8, CALLEE_SELF), R(Rax)),
            Addq(R(R8), Imm(1)),
            Jcc(Cond::Ne, loop_),
            Bind(loop_exit),
        ]);
        c
    }

    #[verifier::opaque]
    pub open spec fn vm_method_call(self, has_block: bool) -> CodegenView {
        let c = self;
        let exit = c.nth(0);
        let c = c.label();
        let slowpath = c.nth(0);
        let c = c.label();
        let exec = c.nth(0);
        let c = c.label();
        let vm_return = c.vm_return;
        let class_version = c.class_version;
        let c = c.emit(seq![Pushq(R(R15)), Pushq(R(R13)), Pushq(R(Rdi)), Movzxw(R(Rdi), Ind(R13, 4))]);
        let c = c.vm_get_rdi();
        let c = c.emit(seq![
            Pushq(R(Rdi)),
            Movq(R(Rax), Func(RuntimeFn::GetClass)),
            Call(Target::Reg(Rax)),
            Movl(R(R15), R(Rax)),
            Cmpl(R(R15), Ind(R13, PATCH_DISP_8)),
            Jcc(Cond::Ne, slowpath),
            Movl(R(Rdi), Ind(R13, PATCH_DISP)),
            Cmpl(R(Rdi), Rip(class_version)),
            Jcc(Cond::Ne, slowpath),
            Bind(exec),
        ]);
        let c = c.push_frame(false);
        let c = c.emit(seq![
            Movq(R(Rdi), Ind(R13, 16)),
            Movq(callee(OFFSET_META), R(Rdi)),
            Movzxw(R(Rcx), Ind(R13, 2)),
            Movzxw(R(Rdi), Ind(R13, 0)),
            Movq(R(Rax), Ind(Rsp, 0)),
            Movq(callee(OFFSET_SELF), R(Rax)),
        ]);
        let c = c.vm_get_addr_rcx();
        let c = if has_block {
            let c = c.emit(seq![Movq(R(Rax), Ind(Rcx, 0)), Movq(callee(OFFSET_BLOCK), R(Rax)), Subq(R(Rcx), Imm(8))]);
            c
        } else {
            let c = c.emit(seq![Movq(callee(OFFSET_BLOCK), Imm(0))]);
            c
        };
        let c = c.emit(seq![Movq(R(R8), R(Rdi))]);
        let c = c.set_arguments();
        let c = c.emit(seq![Movq(R(Rax), Ind(R13, 8)), Movq(R(R13), Ind(R13, 24)), Call(Target::Reg(Rax))]);
        let c = c.pop_frame();
        let c = c.emit(seq![
            Addq(R(Rsp), Imm(16)),
            Popq(R(R13)),
            Popq(R(R15)),
            Addq(R(R13), Imm(32)),
            Testq(R(Rax), R(Rax)),
            Jcc(Cond::Eq, vm_return),
        ]);
        let c = c.vm_store_r15_if_nonzero(exit);
        let c = c.fetch_and_dispatch();
        let c = c.select(1);
        let entry_find_method = c.entry_find_method;
        let c = c.emit(seq![
            Bind(slowpath),
            Movq(R(Rsi), Ind(Rsp, 8)),
            Movzxw(R(Rdx), Ind(R13, 0)),
            Movq(R(Rcx), Ind(Rsp, 0)),
            Call(Target::Label(entry_find_method)),
            Testq(R(Rax), R(Rax)),
            Jcc(Cond::Eq, vm_return),
            Movl(Ind(R13, PATCH_DISP_8), R(R15)),
            Movl(R(Rdi), Rip(class_version)),
            Movl(Ind(R13, PATCH_DISP), R(Rdi)),
            Movq(R(Rdi), Ind(Rax, FUNCDATA_OFFSET_CODEPTR)),
            Movq(Ind(R13, 8), R(Rdi)),
            Movq(R(Rdi), Ind(Rax, FUNCDATA_OFFSET_META)),
            Movq(Ind(R13, 16), R(Rdi)),
            Movq(R(Rdi), Ind(Rax, FUNCDATA_OFFSET_PC)),
            Movq(Ind(R13, 24), R(Rdi)),
            Jmp(Target::Label(exec)),
        ]);
        let c = c.select(0);
        c
    }

    #[verifier::opaque]
    pub open spec fn vm_yield(self) -> CodegenView {
        let c = self;
        let exit = c.nth(0);
        let c = c.label();
        let vm_return = c.vm_return;
        let c = c.emit(seq![
            Pushq(R(R15)),
            Pushq(R(R13)),
            Pushq(R(Rdi)),
            Pushq(R(Rsi)),
            Movq(R(Rdi), R(R12)),
            Movq(R(Rsi), Ind(Rbp, NEG_BLOCK)),
            Movq(R(Rdx), R(Rbx)),
            Movq(R(Rax), Func(RuntimeFn::GetBlockData)),
            Call(Target::Reg(Rax)),
            Popq(R(R10)),
            Popq(R(Rcx)),
            Movq(R(R9), Ind(Rdx, FUNCDATA_OFFSET_CODEPTR)),
            Movq(R(Rdi), Ind(Rdx, FUNCDATA_OFFSET_META)),
            Movq(callee(OFFSET_META), R(Rdi)),
            Movq(R(R13), Ind(Rdx, FUNCDATA_OFFSET_PC)),
            Movq(callee(OFFSET_BLOCK), Imm(0)),
        ]);
        let c = c.push_frame(true);
        let c = c.vm_get_addr_rcx();
        let c = c.emit(seq![Movq(R(R8), R(R10))]);
        let c = c.set_arguments();
        let c = c.emit(seq![Movq(R(Rdi), R(R10)), Call(Target::Reg(R9))]);
        let c = c.pop_frame();
        let c = c.emit(seq![Popq(R(R13)), Popq(R(R15)), Testq(R(Rax), R(Rax)), Jcc(Cond::Eq, vm_return)]);
        let c = c.vm_store_r15_if_nonzero(exit);
        let c = c.fetch_and_dispatch();
        c
    }
}

impl Codegen {
    /// Replaces the slot number in `rdi` by the slot's value.
    pub fn vm_get_rdi(&mut self)
        ensures
            final(self)@ == old(self)@.vm_get_rdi(),
    {
        reveal(CodegenView::vm_get_rdi);
        self.emit(vec![Negq(R(Rdi)), Movq(R(Rdi), Idx(Rbp, Rdi, NEG_SELF))]);
    }

    /// Replaces the slot number in `rcx` by the slot's address.
    pub fn vm_get_addr_rcx(&mut self)
        ensures
            final(self)@ == old(self)@.vm_get_addr_rcx(),
    {
        reveal(CodegenView::vm_get_addr_rcx);
        self.emit(vec![Negq(R(Rcx)), Lea(R(Rcx), Idx(Rbp, Rcx, NEG_SELF))]);
    }

    /// Stores `rax` to the slot whose number `r15` holds, unless that is
    /// slot 0: a call whose result is not used names slot 0.
    pub fn vm_store_r15_if_nonzero(&mut self, exit: DestLabel)
        ensures
            final(self)@ == old(self)@.vm_store_r15_if_nonzero(exit),
    {
        reveal(CodegenView::vm_store_r15_if_nonzero);
        self.emit(vec![
            Testq(R(R15), R(R15)),
            Jcc(Cond::Eq, exit),
            Negq(R(R15)),
            Movq(Idx(Rbp, R15, NEG_SELF), R(Rax)),
            Bind(exit),
        ]);
    }

    /// Goes on with the record that `r13` names.
    pub fn fetch_and_dispatch(&mut self)
        ensures
            final(self)@ == old(self)@.fetch_and_dispatch(),
    {
        reveal(CodegenView::fetch_and_dispatch);
        let fetch = self.vm_fetch;
        self.emit_one(Jmp(Target::Label(fetch)));
    }

    /// Set arguments
    ///
    /// Copies the arguments, which stand in consecutive slots of the
    /// caller, into the frame that is being staged.
    ///
    /// - `r8`: the number of arguments
    /// - `rcx`: the address of the first argument
    pub fn set_arguments(&mut self)
        ensures
            final(self)@ == old(self)@.set_arguments(),
    {
        reveal(CodegenView::set_arguments);
        let loop_ = self.label();
        let loop_exit = self.label();
        self.emit(vec![
            Testq(R(R8), R(R8)),
            Jcc(Cond::Eq, loop_exit),
            Negq(R(R8)),
            Bind(loop_),
            Movq(R(Rax), Idx(Rcx, R8, 8)),
            Movq(Idx(Rsp, R8, CALLEE_SELF), R(Rax)),
            Addq(R(R8), Imm(1)),
            Jcc(Cond::Ne, loop_),
            Bind(loop_exit),
        ]);
    }

    /// Call Method
    ///
    /// The routine of the `MethodArgs` record of a call.
    ///
    /// - `rdi`: the name of the method, `r15`: the slot of the result
    /// - `[r13 - 8]`: cached class, `[r13 - 4]`: cached class version
    /// - `[r13 + 0]`: number of arguments, `[r13 + 2]`: first argument
    /// slot, `[r13 + 4]`: receiver slot
    /// - `[r13 + 8]`: cached code address, `[r13 + 16]`: cached frame header,
    /// `[r13 + 24]`: cached bytecode address
    ///
    /// The cache is valid where the receiver's class and the global class
    /// version are the cached ones.  Else the method is resolved and the cache
    /// filled.  With a block, the block stands in the first argument slot.
    pub fn vm_method_call(&mut self, has_block: bool) -> (r: CodePtr)
        ensures
            final(self)@ == old(self)@.vm_method_call(has_block),
            r == old(self)@.jit.here(),
    {
        reveal(CodegenView::vm_method_call);
        let label = self.jit.get_current_address();
        let exit = self.label();
        let slowpath = self.label();
        let exec = self.label();
        let vm_return = self.vm_return;
        let class_version = self.class_version;
        self.emit(vec![Pushq(R(R15)), Pushq(R(R13)), Pushq(R(Rdi)), Movzxw(R(Rdi), Ind(R13, 4))]);
        self.vm_get_rdi();
        self.emit(vec![
            Pushq(R(Rdi)),
            Movq(R(Rax), Func(RuntimeFn::GetClass)),
            Call(Target::Reg(Rax)),
            Movl(R(R15), R(Rax)),
            Cmpl(R(R15), Ind(R13, PATCH_DISP_8)),
            Jcc(Cond::Ne, slowpath),
            Movl(R(Rdi), Ind(R13, PATCH_DISP)),
            Cmpl(R(Rdi), Rip(class_version)),
            Jcc(Cond::Ne, slowpath),
            Bind(exec),
        ]);
        self.push_frame(false);
        self.emit(vec![
            Movq(R(Rdi), Ind(R13, 16)),
            Movq(callee(OFFSET_META), R(Rdi)),
            Movzxw(R(Rcx), Ind(R13, 2)),
            Movzxw(R(Rdi), Ind(R13, 0)),
            Movq(R(Rax), Ind(Rsp, 0)),
            Movq(callee(OFFSET_SELF), R(Rax)),
        ]);
        self.vm_get_addr_rcx();
        if has_block {
            self.emit(vec![Movq(R(Rax), Ind(Rcx, 0)), Movq(callee(OFFSET_BLOCK), R(Rax)), Subq(R(Rcx), Imm(8))]);
        } else {
            self.emit_one(Movq(callee(OFFSET_BLOCK), Imm(0)));
        }
        self.emit_one(Movq(R(R8), R(Rdi)));
        self.set_arguments();
        self.emit(vec![Movq(R(Rax), Ind(R13, 8)), Movq(R(R13), Ind(R13, 24)), Call(Target::Reg(Rax))]);
        self.pop_frame();
        self.emit(vec![
            Addq(R(Rsp), Imm(16)),
            Popq(R(R13)),
            Popq(R(R15)),
            Addq(R(R13), Imm(32)),
            Testq(R(Rax), R(Rax)),
            Jcc(Cond::Eq, vm_return),
        ]);
        self.vm_store_r15_if_nonzero(exit);
        self.fetch_and_dispatch();
        self.select_page(1);
        let entry_find_method = self.entry_find_method;
        self.emit(vec![
            Bind(slowpath),
            Movq(R(Rsi), Ind(Rsp, 8)),
            Movzxw(R(Rdx), Ind(R13, 0)),
            Movq(R(Rcx), Ind(Rsp, 0)),
            Call(Target::Label(entry_find_method)),
            Testq(R(Rax), R(Rax)),
            Jcc(Cond::Eq, vm_return),
            Movl(Ind(R13, PATCH_DISP_8), R(R15)),
            Movl(R(Rdi), Rip(class_version)),
            Movl(Ind(R13, PATCH_DISP), R(Rdi)),
            Movq(R(Rdi), Ind(Rax, FUNCDATA_OFFSET_CODEPTR)),
            Movq(Ind(R13, 8), R(Rdi)),
            Movq(R(Rdi), Ind(Rax, FUNCDATA_OFFSET_META)),
            Movq(Ind(R13, 16), R(Rdi)),
            Movq(R(Rdi), Ind(Rax, FUNCDATA_OFFSET_PC)),
            Movq(Ind(R13, 24), R(Rdi)),
            Jmp(Target::Label(exec)),
        ]);
        self.select_page(0);
        label
    }

    /// Yield
    ///
    /// The routine of a `Yield` record: calls the block of the current
    /// frame.
    ///
    /// - `r15`: the slot of the result
    /// - `rdi`: the first argument slot, `rsi`: the number of arguments
    pub fn vm_yield(&mut self) -> (r: CodePtr)
        ensures
            final(self)@ == old(self)@.vm_yield(),
            r == old(self)@.jit.here(),
    {
        reveal(CodegenView::vm_yield);
        let label = self.jit.get_current_address();
        let exit = self.label();
        let vm_return = self.vm_return;
        self.emit(vec![
            Pushq(R(R15)),
            Pushq(R(R13)),
            Pushq(R(Rdi)),
            Pushq(R(Rsi)),
            Movq(R(Rdi), R(R12)),
            Movq(R(Rsi), Ind(Rbp, NEG_BLOCK)),
            Movq(R(Rdx), R(Rbx)),
            Movq(R(Rax), Func(RuntimeFn::GetBlockData)),
            Call(Target::Reg(Rax)),
            Popq(R(R10)),
            Popq(R(Rcx)),
            Movq(R(R9), Ind(Rdx, FUNCDATA_OFFSET_CODEPTR)),
            Movq(R(Rdi), Ind(Rdx, FUNCDATA_OFFSET_META)),
            Movq(callee(OFFSET_META), R(Rdi)),
            Movq(R(R13), Ind(Rdx, FUNCDATA_OFFSET_PC)),
            Movq(callee(OFFSET_BLOCK), Imm(0)),
        ]);
        self.push_frame(true);
        self.vm_get_addr_rcx();
        self.emit_one(Movq(R(R8), R(R10)));
        self.set_arguments();
        self.emit(vec![Movq(R(Rdi), R(R10)), Call(Target::Reg(R9))]);
        self.pop_frame();
        self.emit(vec![Popq(R(R13)), Popq(R(R15)), Testq(R(Rax), R(Rax)), Jcc(Cond::Eq, vm_return)]);
        self.vm_store_r15_if_nonzero(exit);
        self.fetch_and_dispatch();
        label
    }
}

} // verus!
