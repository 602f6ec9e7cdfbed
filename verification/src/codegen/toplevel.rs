//! The entry from the host into generated code, and the wrappers of native
//! functions that take their arguments as an array.

use vstd::prelude::*;
use crate::assembler::{CodePtr, Cond, DestLabel, Inst, RuntimeFn, Target};
use crate::assembler::Inst::{Addq, Andq, Bind, Call, Lea, Leave, Movq, Popq, Pushq, Ret, Shlq, Subq, Xorq};
use crate::assembler::Operand::{Code, Imm, Imm64, Ind, R};
use crate::assembler::Reg::{R12, R13, Rax, Rbp, Rbx, Rcx, Rdi, Rdx, Rsi, Rsp};
use crate::codegen::trampoline::CALLEE_SELF;
use crate::codegen::{callee, Codegen, CodegenView};
use crate::frame::{OFFSET_BLOCK, OFFSET_META, OFFSET_OUTER, OFFSET_SELF};
use crate::funcs::{FnStore, FuncData, FuncInfo, FuncKind};
use crate::ids::FuncId;
use crate::runtime::installed;
use crate::value::NIL_VALUE;

verus! {

impl CodegenView {
    /// The stubs and wrappers of the functions below `n` that have no code
    /// yet, and the function store with their code installed.
    pub open spec fn precompile(self, store: Seq<FuncInfo>, n: int) -> (CodegenView, Seq<FuncInfo>)
        decreases n,
    {
        if n <= 0 {
            (self, store)
        } else {
            let (c, s) = self.precompile(store, n - 1);
            if s[n - 1].data.codeptr is Some {
                (c, s)
            } else {
                (c.gen_stub(s[n - 1].kind, true), s.update(n - 1, installed(s[n - 1], c.jit.here())))
            }
        }
    }
}

impl Codegen {
    /// Gives every function code before any is called: a function of
    /// bytecode the stub that enters the interpreter, a native function its
    /// wrapper, an attribute accessor its code.
    pub fn precompile(&mut self, store: &mut FnStore)
        requires
            old(store).functions@.len() <= u32::MAX,
        ensures
            (final(self)@, final(store).functions@) == old(self)@.precompile(
                old(store).functions@,
                old(store).functions@.len() as int,
            ),
    {
        let n = store.functions.len();
        let mut i: usize = 0;
        while i < n
            invariant
                i <= n,
                n == old(store).functions@.len(),
                n <= u32::MAX,
                store.functions@.len() == n,
                (self@, store.functions@) == old(self)@.precompile(old(store).functions@, i as int),
            decreases n - i,
        {
            let r = self.compile_on_demand(store, true, FuncId(i as u32));
            i += 1;
        }
    }
}

impl CodegenView {
    #[verifier::opaque]
    pub open spec fn wrap_builtin(self, abs_address: u64) -> CodegenView {
        let c = self;
        let c = c.emit(seq![
            Movq(R(Rcx), R(Rdi)),
            Movq(R(Rax), R(Rdi)),
            Andq(R(Rax), Imm(1)),
            Addq(R(Rax), R(Rdi)),
            Shlq(R(Rax), Imm(3)),
            Addq(R(Rax), Imm(16)),
            Lea(R(Rdx), Ind(Rsp, CALLEE_SELF)),
            Pushq(R(Rbp)),
            Movq(R(Rdi), R(Rbx)),
            Movq(R(Rsi), R(R12)),
            Movq(R(Rbp), R(Rsp)),
            Subq(R(Rsp), R(Rax)),
            Movq(R(Rax), Imm64(abs_address)),
            Call(Target::Reg(Rax)),
            Leave,
            Ret,
        ]);
        c
    }

    #[verifier::opaque]
    pub open spec fn exec_toplevel(self, main: FuncData, code: CodePtr) -> CodegenView {
        let c = self;
        let entry = c.nth(0);
        let c = c.label();
        let c = c.emit(seq![
            Bind(entry),
            Pushq(R(Rbp)),
            Pushq(R(Rbx)),
            Pushq(R(R12)),
            Movq(R(Rbx), R(Rdi)),
            Movq(R(R12), R(Rsi)),
            Movq(R(Rax), Imm64(main.meta.0)),
            Movq(callee(OFFSET_META), R(Rax)),
            Movq(callee(OFFSET_OUTER), Imm(0)),
            Movq(callee(OFFSET_BLOCK), Imm(0)),
            Movq(callee(OFFSET_SELF), Imm64(NIL_VALUE)),
            Movq(R(R13), Imm64(main.pc.0)),
            Xorq(R(Rdi), R(Rdi)),
            Movq(R(Rax), Code(code)),
            Call(Target::Reg(Rax)),
            Popq(R(R12)),
            Popq(R(Rbx)),
            Popq(R(Rbp)),
            Ret,
        ]);
        c
    }
}

impl Codegen {
    /// Generates a wrapper for a native function that takes its arguments as
    /// an array: `fn(interp, globals, args, len)`.
    ///
    /// - `rdi`: number of args
    pub fn wrap_builtin(&mut self, abs_address: u64) -> (r: CodePtr)
        ensures
            final(self)@ == old(self)@.wrap_builtin(abs_address),
            r == old(self)@.jit.here(),
    {
        reveal(CodegenView::wrap_builtin);
        let label = self.jit.get_current_address();
        self.emit(vec![
            Movq(R(Rcx), R(Rdi)),
            Movq(R(Rax), R(Rdi)),
            Andq(R(Rax), Imm(1)),
            Addq(R(Rax), R(Rdi)),
            Shlq(R(Rax), Imm(3)),
            Addq(R(Rax), Imm(16)),
            Lea(R(Rdx), Ind(Rsp, CALLEE_SELF)),
            Pushq(R(Rbp)),
            Movq(R(Rdi), R(Rbx)),
            Movq(R(Rsi), R(R12)),
            Movq(R(Rbp), R(Rsp)),
            Subq(R(Rsp), R(Rax)),
            Movq(R(Rax), Imm64(abs_address)),
            Call(Target::Reg(Rax)),
            Leave,
            Ret,
        ]);
        label
    }

    /// Generates the entry through which the host runs the main function,
    /// whose code stands at `code`: `fn(interp, globals) -> Option<Value>`.
    ///
    /// The entry saves the registers that generated code keeps for itself,
    /// stages the frame of the main function with `nil` as `self`, no block and
    /// no outer frame, and calls the function without arguments.
    pub fn exec_toplevel(&mut self, main: FuncData, code: CodePtr) -> (r: DestLabel)
        ensures
            final(self)@ == old(self)@.exec_toplevel(main, code),
            r == old(self)@.nth(0),
    {
        reveal(CodegenView::exec_toplevel);
        let entry = self.label();
        self.emit(vec![
            Bind(entry),
            Pushq(R(Rbp)),
            Pushq(R(Rbx)),
            Pushq(R(R12)),
            Movq(R(Rbx), R(Rdi)),
            Movq(R(R12), R(Rsi)),
            Movq(R(Rax), Imm64(main.meta.0)),
            Movq(callee(OFFSET_META), R(Rax)),
            Movq(callee(OFFSET_OUTER), Imm(0)),
            Movq(callee(OFFSET_BLOCK), Imm(0)),
            Movq(callee(OFFSET_SELF), Imm64(NIL_VALUE)),
            Movq(R(R13), Imm64(main.pc.0)),
            Xorq(R(Rdi), R(Rdi)),
            Movq(R(Rax), Code(code)),
            Call(Target::Reg(Rax)),
            Popq(R(R12)),
            Popq(R(Rbx)),
            Popq(R(Rbp)),
            Ret,
        ]);
        entry
    }
}

} // verus!
