//! Method calls: the inline cache of a call site, the staging of the
//! callee's frame, and the special forms for attribute accessors, native
//! functions and blocks.
//!
//! A call site is valid while the receiver's class is the cached one and the
//! global class version is the one at which the site was resolved.  Every
//! definition of a method bumps the version, which makes every site resolve
//! again.

use vstd::prelude::*;
use crate::assembler::{Cond, Data, DestLabel, Inst, RuntimeFn, Target};
use crate::assembler::Inst::{
    Addq, Bind, Call, Cmpl, Cmpq, Cmpw, Jcc, Jmp, Lea, Leave, Movl, Movq, Pushq, Ret, Subq, Testq,
};
use crate::assembler::Operand::{Func, Idx, Imm, Imm64, Ind, Rip, R};
use crate::assembler::Reg::{R12, R13, R15, R8, R9, Rax, Rbp, Rbx, Rcx, Rdi, Rdx, Rsi, Rsp};
use crate::bbctx::{BBContext, BBView};
use crate::codegen::jitgen::{lemma_using_ok, using_ok};
use crate::codegen::{callee, Codegen, CodegenView, UNSET};
use crate::frame::{
    slot, Meta, FUNCDATA_OFFSET_CODEPTR, FUNCDATA_OFFSET_META, FUNCDATA_OFFSET_PC, OBJECT_INLINE_IVAR,
    OBJKIND_OBJECT, OFFSET_ARG0, OFFSET_BLOCK, OFFSET_META, OFFSET_SELF,
};
use crate::funcs::{FuncInfo, FuncKind, InlineCached, MethodInfo};
use crate::ids::{
    BcPc, ClassId, FuncId, IdentId, SlotId, FALSE_CLASS, FLOAT_CLASS, INTEGER_CLASS, NIL_CLASS,
    TRUE_CLASS,
};
use crate::value::{FALSE_VALUE, NIL_VALUE, TRUE_VALUE};

verus! {

/// The 32-bit initial value of a cached version.
pub const UNSET32: i32 = -1;

/// The bytes that the frame of a native function takes below `rbp`, a
/// multiple of 16: `(OFFSET_SELF + 15) & !0xf`.
pub const NATIVE_FRAME: i64 = 48;

/// The place of the `i`-th argument in the frame that is being staged.
pub open spec fn callee_arg_spec(i: u16) -> crate::assembler::Operand {
    Ind(Rsp, (-(16 + OFFSET_ARG0 + i * 8)) as i64)
}

#[verifier::when_used_as_spec(callee_arg_spec)]
pub fn callee_arg(i: u16) -> (o: crate::assembler::Operand)
    ensures
        o == callee_arg_spec(i),
{
    Ind(Rsp, -(16 + OFFSET_ARG0 + (i as i64) * 8))
}

/// The slots `args`, `args + 1`, ... up to `len` of them exist as slot
/// numbers.
pub open spec fn args_ok(args: SlotId, len: u16) -> bool {
    args.0 + len <= 0x1_0000
}

/// The guard of a call site with a cache of its own: with the class of the
/// receiver in `r15`, the site goes on to `resolved` where that class is the
/// cached class and the global class version is the cached version; else it
/// leaves for `slow`, where the method is resolved anew.
pub open spec fn call_guard_code(
    class: DestLabel,
    version: DestLabel,
    global: DestLabel,
    slow: DestLabel,
    resolved: DestLabel,
) -> Seq<Inst> {
    seq![
        Cmpl(R(R15), Rip(class)),
        Jcc(Cond::Ne, slow),
        Movl(R(Rax), Rip(global)),
        Cmpl(Rip(version), R(Rax)),
        Jcc(Cond::Ne, slow),
        Bind(resolved),
    ]
}

impl CodegenView {
    /// The first `len` argument slots from `args` on copied to the frame
    /// that is being staged.
    pub open spec fn set_args(self, args: SlotId, len: u16) -> CodegenView
        decreases len,
    {
        if len == 0 {
            self
        } else {
            let i = (len - 1) as u16;
            self.set_args(args, i).emit(
                seq![Movq(R(Rax), slot(SlotId((args.0 + i) as u16))), Movq(callee_arg(i), R(Rax))],
            )
        }
    }
}

impl Codegen {
    /// Set arguments.
    ///
    /// Destroys `rax`.
    pub fn set_args(&mut self, args: SlotId, len: u16)
        requires
            args_ok(args, len),
        ensures
            final(self)@ == old(self)@.set_args(args, len),
    {
        let mut i: u16 = 0;
        while i < len
            invariant
                i <= len,
                args_ok(args, len),
                self@ == old(self)@.set_args(args, i),
            decreases len - i,
        {
            let reg = args.offset(i);
            self.emit(vec![Movq(R(Rax), slot(reg)), Movq(callee_arg(i), R(Rax))]);
            i += 1;
        }
    }
}

impl CodegenView {
    #[verifier::opaque]
    pub open spec fn guard_version(self, cached_version: u32, side_exit: DestLabel) -> CodegenView {
        let c = self;
        let global_class_version = c.class_version;
        let c = c.emit(seq![Cmpl(Rip(global_class_version), Imm(cached_version as i64)), Jcc(Cond::Ne, side_exit)]);
        c
    }

    #[verifier::opaque]
    pub open spec fn guard_class(self, class_id: ClassId, side_exit: DestLabel) -> CodegenView {
        let c = self;
        let c = if class_id.0 == INTEGER_CLASS {
            let c = c.emit(seq![Testq(R(Rdi), Imm(1)), Jcc(Cond::Eq, side_exit)]);
            c
        } else if class_id.0 == FLOAT_CLASS {
            let exit = c.nth(0);
            let c = c.label();
            let c = c.emit(seq![
                Testq(R(Rdi), Imm(1)),
                Jcc(Cond::Ne, side_exit),
                Testq(R(Rdi), Imm(2)),
                Jcc(Cond::Ne, exit),
                Testq(R(Rdi), Imm(7)),
                Jcc(Cond::Ne, side_exit),
                Cmpl(Ind(Rdi, 4), Imm(FLOAT_CLASS as i64)),
                Jcc(Cond::Ne, side_exit),
                Bind(exit),
            ]);
            c
        } else if class_id.0 == NIL_CLASS {
            let c = c.emit(seq![Cmpq(R(Rdi), Imm64(NIL_VALUE)), Jcc(Cond::Ne, side_exit)]);
            c
        } else if class_id.0 == TRUE_CLASS {
            let c = c.emit(seq![Cmpq(R(Rdi), Imm64(TRUE_VALUE)), Jcc(Cond::Ne, side_exit)]);
            c
        } else if class_id.0 == FALSE_CLASS {
            let c = c.emit(seq![Cmpq(R(Rdi), Imm64(FALSE_VALUE)), Jcc(Cond::Ne, side_exit)]);
            c
        } else {
            let c = c.emit(seq![
                Testq(R(Rdi), Imm(7)),
                Jcc(Cond::Ne, side_exit),
                Cmpl(Ind(Rdi, 4), Imm(class_id.0 as i64)),
                Jcc(Cond::Ne, side_exit),
            ]);
            c
        };
        c
    }

    #[verifier::opaque]
    pub open spec fn set_self_and_args(
        self,
        method_info: MethodInfo,
        block: Option<SlotId>,
    ) -> CodegenView {
        let c = self;
        let c = c.emit(seq![
            Movq(R(Rax), slot(method_info.recv)),
            Movq(callee(OFFSET_SELF), R(Rax)),
            Movq(R(Rdi), Imm(method_info.len as i64)),
        ]);
        let c = c.set_args(method_info.args, method_info.len);
        let c = match block {
            Some(block) => {
                let c = c.emit(seq![Movq(R(Rax), slot(block)), Movq(callee(OFFSET_BLOCK), R(Rax))]);
                c
            },
            None => {
                let c = c.emit(seq![Movq(callee(OFFSET_BLOCK), Imm(0))]);
                c
            },
        };
        c
    }

    #[verifier::opaque]
    pub open spec fn gen_call_not_cached(
        self,
        ctx: BBView,
        method_info: MethodInfo,
        name: IdentId,
        block: Option<SlotId>,
        ret: SlotId,
        pc: BcPc,
    ) -> CodegenView {
        let c = self;
        let method_resolved = c.nth(0);
        let c = c.label();
        let patch_meta = c.nth(0);
        let c = c.label();
        let patch_adr = c.nth(0);
        let c = c.label();
        let patch_pc = c.nth(0);
        let c = c.label();
        let slow_path = c.nth(0);
        let c = c.label();
        let raise = c.nth(0);
        let c = c.label();
        let cached_class_version = c.nth(0);
        let c = c.constant(Data::I32(UNSET32));
        let cached_recv_class = c.nth(0);
        let c = c.constant(Data::I32(0));
        let global_class_version = c.class_version;
        let entry_find_method = c.entry_find_method;
        let entry_panic = c.entry_panic;
        let xmm_using = ctx.using();
        let c = c.xmm_save(xmm_using);
        let c = if method_info.recv.is_zero() {
            let c = c.emit(seq![Movl(R(R15), Imm(ctx.self_class.0 as i64))]);
            c
        } else {
            let c = c.emit(seq![
                Movq(R(Rdi), slot(method_info.recv)),
                Movq(R(Rax), Func(RuntimeFn::GetClass)),
                Call(Target::Reg(Rax)),
                Movl(R(R15), R(Rax)),
            ]);
            c
        };
        let c = c.emit(
            call_guard_code(cached_recv_class, cached_class_version, global_class_version, slow_path, method_resolved),
        );
        let c = c.push_frame(false);
        let c = c.set_self_and_args(method_info, block);
        let c = c.emit(seq![
            Movq(R(Rax), Imm64(0)),
            Bind(patch_meta),
            Movq(callee(OFFSET_META), R(Rax)),
            Movq(R(R13), Imm64(0)),
            Bind(patch_pc),
            Call(Target::Label(entry_panic)),
            Bind(patch_adr),
        ]);
        let c = c.pop_frame();
        let c = c.xmm_restore(xmm_using);
        let c = c.emit(seq![Testq(R(Rax), R(Rax)), Jcc(Cond::Eq, raise)]);
        let c = if !ret.is_zero() {
            let c = c.store_rax(ret);
            c
        } else {
            c
        };
        let c = c.select(1);
        let c = c.emit(seq![
            Bind(slow_path),
            Movq(R(Rsi), Imm(name.0 as i64)),
            Movq(R(Rdx), Imm(method_info.len as i64)),
            Movq(R(Rcx), slot(method_info.recv)),
            Call(Target::Label(entry_find_method)),
            Testq(R(Rax), R(Rax)),
            Jcc(Cond::Eq, raise),
            Lea(R(Rdi), Rip(patch_meta)),
            Subq(R(Rdi), Imm(8)),
            Movq(R(Rcx), Ind(Rax, FUNCDATA_OFFSET_META)),
            Movq(Ind(Rdi, 0), R(Rcx)),
            Lea(R(Rdi), Rip(patch_pc)),
            Subq(R(Rdi), Imm(8)),
            Movq(R(Rcx), Ind(Rax, FUNCDATA_OFFSET_PC)),
            Movq(Ind(Rdi, 0), R(Rcx)),
            Movq(R(Rax), Ind(Rax, FUNCDATA_OFFSET_CODEPTR)),
            Lea(R(Rdi), Rip(patch_adr)),
            Subq(R(Rax), R(Rdi)),
            Movl(Ind(Rdi, PATCH_DISP), R(Rax)),
            Movl(R(Rax), Rip(global_class_version)),
            Movl(Rip(cached_class_version), R(Rax)),
            Movl(Rip(cached_recv_class), R(R15)),
            Jmp(Target::Label(method_resolved)),
        ]);
        let entry_return = c.vm_return;
        let next = pc.next(2);
        let c = c.emit(seq![Bind(raise), Movq(R(R13), Imm64(next.0)), Jmp(Target::Label(entry_return))]);
        let c = c.select(0);
        c
    }

    #[verifier::opaque]
    pub open spec fn attr_reader(
        self,
        ctx: BBView,
        ivar_name: IdentId,
        ret: SlotId,
    ) -> CodegenView {
        let c = self;
        let exit = c.nth(0);
        let c = c.label();
        let slow_path = c.nth(0);
        let c = c.label();
        let no_inline = c.nth(0);
        let c = c.label();
        let cached_class = c.nth(0);
        let c = c.constant(Data::I32(0));
        let cached_ivarid = c.nth(0);
        let c = c.constant(Data::I32(UNSET32));
        let xmm_using = ctx.using();
        let c = c.emit(seq![
            Movl(R(Rsi), Rip(cached_ivarid)),
            Cmpl(R(Rsi), Imm(UNSET)),
            Jcc(Cond::Eq, slow_path),
            Cmpw(Ind(Rdi, 2), Imm(OBJKIND_OBJECT)),
            Jcc(Cond::Ne, no_inline),
            Cmpl(R(Rsi), Imm(OBJECT_INLINE_IVAR)),
            Jcc(Cond::Ge, no_inline),
            Movq(R(Rax), Idx(Rdi, Rsi, 16)),
            Jmp(Target::Label(exit)),
            Bind(no_inline),
        ]);
        let c = c.xmm_save(xmm_using);
        let c = c.emit(seq![Movq(R(Rax), Func(RuntimeFn::GetIvar)), Call(Target::Reg(Rax))]);
        let c = c.xmm_restore(xmm_using);
        let c = c.bind_label(exit);
        let c = if !ret.is_zero() {
            let c = c.store_rax(ret);
            c
        } else {
            c
        };
        let c = c.select(1);
        let c = c.bind_label(slow_path);
        let c = c.xmm_save(xmm_using);
        let c = c.emit(seq![
            Movq(R(Rsi), Imm(ivar_name.0 as i64)),
            Movq(R(Rdx), R(R12)),
            Lea(R(Rcx), Rip(cached_class)),
            Lea(R(R8), Rip(cached_ivarid)),
            Movq(R(Rax), Func(RuntimeFn::GetInstanceVarWithCache)),
            Call(Target::Reg(Rax)),
        ]);
        let c = c.xmm_restore(xmm_using);
        let c = c.emit(seq![Jmp(Target::Label(exit))]);
        let c = c.select(0);
        c
    }

    #[verifier::opaque]
    pub open spec fn attr_writer(
        self,
        ctx: BBView,
        ivar_name: IdentId,
        ret: SlotId,
        args: SlotId,
        pc: BcPc,
    ) -> CodegenView {
        let c = self;
        let exit = c.nth(0);
        let c = c.label();
        let slow_path = c.nth(0);
        let c = c.label();
        let no_inline = c.nth(0);
        let c = c.label();
        let cached_class = c.nth(0);
        let c = c.constant(Data::I32(0));
        let cached_ivarid = c.nth(0);
        let c = c.constant(Data::I32(UNSET32));
        let xmm_using = ctx.using();
        let c = c.emit(seq![
            Movl(R(Rsi), Rip(cached_ivarid)),
            Cmpl(R(Rsi), Imm(UNSET)),
            Jcc(Cond::Eq, slow_path),
            Cmpw(Ind(Rdi, 2), Imm(OBJKIND_OBJECT)),
            Jcc(Cond::Ne, no_inline),
            Cmpl(R(Rsi), Imm(OBJECT_INLINE_IVAR)),
            Jcc(Cond::Ge, no_inline),
            Movq(R(Rax), slot(args)),
            Movq(Idx(Rdi, Rsi, 16), R(Rax)),
            Jmp(Target::Label(exit)),
            Bind(no_inline),
        ]);
        let c = c.xmm_save(xmm_using);
        let c = c.emit(seq![Movq(R(Rdx), slot(args)), Movq(R(Rax), Func(RuntimeFn::SetIvar)), Call(Target::Reg(Rax))]);
        let c = c.xmm_restore(xmm_using);
        let c = c.handle_error(pc);
        let c = c.bind_label(exit);
        let c = if !ret.is_zero() {
            let c = c.store_rax(ret);
            c
        } else {
            c
        };
        let c = c.select(1);
        let c = c.bind_label(slow_path);
        let c = c.xmm_save(xmm_using);
        let c = c.emit(seq![
            Movq(R(Rsi), R(Rdi)),
            Movq(R(Rdx), Imm(ivar_name.0 as i64)),
            Movq(R(Rcx), slot(args)),
            Movq(R(Rdi), R(R12)),
            Lea(R(R8), Rip(cached_class)),
            Lea(R(R9), Rip(cached_ivarid)),
            Movq(R(Rax), Func(RuntimeFn::SetInstanceVarWithCache)),
            Call(Target::Reg(Rax)),
        ]);
        let c = c.xmm_restore(xmm_using);
        let c = c.emit(seq![Jmp(Target::Label(exit))]);
        let c = c.select(0);
        c
    }

    #[verifier::opaque]
    pub open spec fn native_call(
        self,
        ctx: BBView,
        method_info: MethodInfo,
        func_id: FuncId,
        ret: SlotId,
        block: Option<SlotId>,
        abs_address: u64,
        pc: BcPc,
    ) -> CodegenView {
        let c = self;
        let c = c.select(1);
        let xmm_using = ctx.using();
        let caller = c.nth(0);
        let c = c.label();
        let c = c.emit(seq![
            Bind(caller),
            Pushq(R(Rbp)),
            Movq(R(Rbp), R(Rsp)),
            Movq(R(Rax), Imm64(Meta::native(func_id, method_info.len).0)),
            Movq(Ind(Rbp, NEG_META), R(Rax)),
            Movq(Ind(Rbp, NEG_BLOCK), R(R9)),
            Movq(Ind(Rbp, NEG_SELF), R(Rdx)),
            Subq(R(Rsp), Imm(NATIVE_FRAME)),
            Movq(R(Rdi), R(Rbx)),
            Movq(R(Rsi), R(R12)),
            Movq(R(Rax), Imm64(abs_address)),
            Call(Target::Reg(Rax)),
            Leave,
            Ret,
        ]);
        let c = c.select(0);
        let c = match block {
            Some(block) => {
                let c = c.emit(seq![Movq(R(R9), slot(block))]);
                c
            },
            None => {
                let c = c.emit(seq![Movq(R(R9), Imm(0))]);
                c
            },
        };
        let c = c.xmm_save(xmm_using);
        let c = c.emit(seq![Movq(R(Rdx), R(Rdi))]);
        let c = c.push_frame(false);
        let c = c.emit(seq![
            Lea(R(Rcx), slot(method_info.args)),
            Movq(R(R8), Imm(method_info.len as i64)),
            Call(Target::Label(caller)),
        ]);
        let c = c.pop_frame();
        let c = c.xmm_restore(xmm_using);
        let c = c.handle_error(pc);
        let c = if !ret.is_zero() {
            let c = c.store_rax(ret);
            c
        } else {
            c
        };
        c
    }

    #[verifier::opaque]
    pub open spec fn method_call_cached(
        self,
        ctx: BBView,
        method_info: MethodInfo,
        ret: SlotId,
        block: Option<SlotId>,
        cached: InlineCached,
        pc: BcPc,
    ) -> CodegenView {
        let c = self;
        let xmm_using = ctx.using();
        let c = c.xmm_save(xmm_using);
        let c = c.push_frame(false);
        let c = c.set_self_and_args(method_info, block);
        let c = c.emit(seq![
            Movq(R(Rax), Imm64(cached.meta.0)),
            Movq(callee(OFFSET_META), R(Rax)),
            Movq(R(R13), Imm64(cached.pc.0)),
            Call(Target::Abs(cached.codeptr)),
        ]);
        let c = c.pop_frame();
        let c = c.xmm_restore(xmm_using);
        let c = c.handle_error(pc);
        let c = if !ret.is_zero() {
            let c = c.store_rax(ret);
            c
        } else {
            c
        };
        c
    }

    #[verifier::opaque]
    pub open spec fn gen_yield(
        self,
        ctx: BBView,
        args: SlotId,
        len: u16,
        ret: SlotId,
        pc: BcPc,
    ) -> CodegenView {
        let c = self;
        let xmm_using = ctx.using();
        let c = c.xmm_save(xmm_using);
        let c = c.emit(seq![
            Movq(R(Rdi), R(R12)),
            Movq(R(Rsi), Ind(Rbp, NEG_BLOCK)),
            Movq(R(Rdx), R(Rbx)),
            Movq(R(Rax), Func(RuntimeFn::GetBlockData)),
            Call(Target::Reg(Rax)),
        ]);
        let c = c.push_frame(true);
        let c = c.emit(seq![
            Movq(R(Rsi), Ind(Rdx, FUNCDATA_OFFSET_CODEPTR)),
            Movq(R(Rdi), Ind(Rdx, FUNCDATA_OFFSET_META)),
            Movq(callee(OFFSET_META), R(Rdi)),
            Movq(R(R13), Ind(Rdx, FUNCDATA_OFFSET_PC)),
            Movq(callee(OFFSET_BLOCK), Imm(0)),
        ]);
        let c = c.set_args(args, len);
        let c = c.emit(seq![Movq(R(Rdi), Imm(len as i64)), Call(Target::Reg(Rsi))]);
        let c = c.pop_frame();
        let c = c.xmm_restore(xmm_using);
        let c = c.handle_error(pc);
        let c = if !ret.is_zero() {
            let c = c.store_rax(ret);
            c
        } else {
            c
        };
        c
    }

    #[verifier::opaque]
    pub open spec fn gen_call_cached(
        self,
        ctx: BBView,
        method_info: MethodInfo,
        name: IdentId,
        block: Option<SlotId>,
        ret: SlotId,
        cached: InlineCached,
        kind: FuncKind,
        pc: BcPc,
    ) -> CodegenView {
        let c = self;
        let wb = ctx.write_back();
        let before = pc.prev();
        let deopt = c.nth(0);
        let c = c.gen_side_deopt_dest(before, wb);
        let c = c.emit(seq![Movq(R(Rdi), slot(method_info.recv))]);
        let c = if !method_info.recv.is_zero() {
            let c = c.guard_class(cached.class_id, deopt);
            c
        } else {
            c
        };
        let c = c.guard_version(cached.version, deopt);
        let func_id = cached.meta.func_id();
        let c = match kind {
            FuncKind::AttrReader { ivar_name } => {
                let c = if method_info.len != 0 {
                    let c = c.gen_call_not_cached(ctx, method_info, name, block, ret, pc);
                    c
                } else if cached.class_id.is_always_frozen() {
                    let c = if !ret.is_zero() {
                        let c = c.emit(seq![Movq(R(Rax), Imm64(NIL_VALUE))]);
                        let c = c.store_rax(ret);
                        c
                    } else {
                        c
                    };
                    c
                } else {
                    let c = c.attr_reader(ctx, ivar_name, ret);
                    c
                };
                c
            },
            FuncKind::AttrWriter { ivar_name } => {
                let c = if method_info.len != 1 {
                    let c = c.gen_call_not_cached(ctx, method_info, name, block, ret, pc);
                    c
                } else {
                    let c = c.attr_writer(ctx, ivar_name, ret, method_info.args, pc);
                    c
                };
                c
            },
            FuncKind::Builtin { abs_address } => {
                let c = c.native_call(ctx, method_info, func_id, ret, block, abs_address, pc);
                c
            },
            FuncKind::ISeq => {
                let c = c.method_call_cached(ctx, method_info, ret, block, cached, pc);
                c
            },
        };
        c
    }
}

impl Codegen {
    /// Leaves through `side_exit` unless the global class version is the cached one.
    pub fn guard_version(&mut self, cached_version: u32, side_exit: DestLabel)
        ensures
            final(self)@ == old(self)@.guard_version(cached_version, side_exit),
    {
        reveal(CodegenView::guard_version);
        let global_class_version = self.class_version;
        self.emit(vec![Cmpl(Rip(global_class_version), Imm(cached_version as i64)), Jcc(Cond::Ne, side_exit)]);
    }

    /// Leaves through `side_exit` unless the value in `rdi` is of the class.
    ///
    /// Immediate values are told by their tag or their word, heap objects by
    /// the class id in their header.  Keeps `rdi`.
    pub fn guard_class(&mut self, class_id: ClassId, side_exit: DestLabel)
        ensures
            final(self)@ == old(self)@.guard_class(class_id, side_exit),
    {
        reveal(CodegenView::guard_class);
        if class_id.0 == INTEGER_CLASS {
            self.emit(vec![Testq(R(Rdi), Imm(1)), Jcc(Cond::Eq, side_exit)]);
        } else if class_id.0 == FLOAT_CLASS {
            let exit = self.label();
            self.emit(vec![
                Testq(R(Rdi), Imm(1)),
                Jcc(Cond::Ne, side_exit),
                Testq(R(Rdi), Imm(2)),
                Jcc(Cond::Ne, exit),
                Testq(R(Rdi), Imm(7)),
                Jcc(Cond::Ne, side_exit),
                Cmpl(Ind(Rdi, 4), Imm(FLOAT_CLASS as i64)),
                Jcc(Cond::Ne, side_exit),
                Bind(exit),
            ]);
        } else if class_id.0 == NIL_CLASS {
            self.emit(vec![Cmpq(R(Rdi), Imm64(NIL_VALUE)), Jcc(Cond::Ne, side_exit)]);
        } else if class_id.0 == TRUE_CLASS {
            self.emit(vec![Cmpq(R(Rdi), Imm64(TRUE_VALUE)), Jcc(Cond::Ne, side_exit)]);
        } else if class_id.0 == FALSE_CLASS {
            self.emit(vec![Cmpq(R(Rdi), Imm64(FALSE_VALUE)), Jcc(Cond::Ne, side_exit)]);
        } else {
            self.emit(vec![
                Testq(R(Rdi), Imm(7)),
                Jcc(Cond::Ne, side_exit),
                Cmpl(Ind(Rdi, 4), Imm(class_id.0 as i64)),
                Jcc(Cond::Ne, side_exit),
            ]);
        }
    }

    /// Set *self*, len, block, and arguments.
    ///
    /// - out: `rdi` holds the number of arguments
    /// - destroys `rax`
    pub fn set_self_and_args(&mut self, method_info: MethodInfo, block: Option<SlotId>)
        requires
            args_ok(method_info.args, method_info.len),
        ensures
            final(self)@ == old(self)@.set_self_and_args(method_info, block),
    {
        reveal(CodegenView::set_self_and_args);
        self.emit(vec![
            Movq(R(Rax), slot(method_info.recv)),
            Movq(callee(OFFSET_SELF), R(Rax)),
            Movq(R(Rdi), Imm(method_info.len as i64)),
        ]);
        self.set_args(method_info.args, method_info.len);
        match block {
            Some(block) => {
                self.emit(vec![Movq(R(Rax), slot(block)), Movq(callee(OFFSET_BLOCK), R(Rax))]);
            },
            None => {
                self.emit_one(Movq(callee(OFFSET_BLOCK), Imm(0)));
            },
        }
    }

    /// generate JIT code for a method call which was not cached.
    ///
    /// The site keeps its own cache in the code: the receiver's class and the
    /// class version in the data area, and the callee's frame header, bytecode
    /// address and code address as immediates that the slow path patches.
    /// On a miss the slow path resolves the method through
    /// `entry_find_method`, patches the three immediates, records class and
    /// version, and joins the fast path.  Where no method is found the code
    /// leaves through `vm_return`.
    pub fn gen_call_not_cached(
        &mut self,
        ctx: &BBContext,
        method_info: MethodInfo,
        name: IdentId,
        block: Option<SlotId>,
        ret: SlotId,
        pc: BcPc,
    )
        requires
            pc.ok(),
            ctx@.wf(),
            args_ok(method_info.args, method_info.len),
        ensures
            final(self)@ == old(self)@.gen_call_not_cached(ctx@, method_info, name, block, ret, pc),
    {
        reveal(CodegenView::gen_call_not_cached);
        let method_resolved = self.label();
        let patch_meta = self.label();
        let patch_adr = self.label();
        let patch_pc = self.label();
        let slow_path = self.label();
        let raise = self.label();
        let cached_class_version = self.jit.const_i32(UNSET32);
        let cached_recv_class = self.jit.const_i32(0);
        let global_class_version = self.class_version;
        let entry_find_method = self.entry_find_method;
        let entry_panic = self.entry_panic;
        let xmm_using = ctx.get_xmm_using();
        proof {
            lemma_using_ok(ctx@);
        }
        self.xmm_save(&xmm_using);
        if method_info.recv.is_zero() {
            self.emit_one(Movl(R(R15), Imm(ctx.self_class.0 as i64)));
        } else {
            self.emit(vec![
                Movq(R(Rdi), slot(method_info.recv)),
                Movq(R(Rax), Func(RuntimeFn::GetClass)),
                Call(Target::Reg(Rax)),
                Movl(R(R15), R(Rax)),
            ]);
        }
        let guard = vec![
            Cmpl(R(R15), Rip(cached_recv_class)),
            Jcc(Cond::Ne, slow_path),
            Movl(R(Rax), Rip(global_class_version)),
            Cmpl(Rip(cached_class_version), R(Rax)),
            Jcc(Cond::Ne, slow_path),
            Bind(method_resolved),
        ];
        assert(guard@ =~= call_guard_code(
            cached_recv_class,
            cached_class_version,
            global_class_version,
            slow_path,
            method_resolved,
        ));
        self.emit(guard);
        self.push_frame(false);
        self.set_self_and_args(method_info, block);
        self.emit(vec![
            Movq(R(Rax), Imm64(0)),
            Bind(patch_meta),
            Movq(callee(OFFSET_META), R(Rax)),
            Movq(R(R13), Imm64(0)),
            Bind(patch_pc),
            Call(Target::Label(entry_panic)),
            Bind(patch_adr),
        ]);
        self.pop_frame();
        self.xmm_restore(&xmm_using);
        self.emit(vec![Testq(R(Rax), R(Rax)), Jcc(Cond::Eq, raise)]);
        if !ret.is_zero() {
            self.store_rax(ret);
        }
        self.select_page(1);
        self.emit(vec![
            Bind(slow_path),
            Movq(R(Rsi), Imm(name.0 as i64)),
            Movq(R(Rdx), Imm(method_info.len as i64)),
            Movq(R(Rcx), slot(method_info.recv)),
            Call(Target::Label(entry_find_method)),
            Testq(R(Rax), R(Rax)),
            Jcc(Cond::Eq, raise),
            Lea(R(Rdi), Rip(patch_meta)),
            Subq(R(Rdi), Imm(8)),
            Movq(R(Rcx), Ind(Rax, FUNCDATA_OFFSET_META)),
            Movq(Ind(Rdi, 0), R(Rcx)),
            Lea(R(Rdi), Rip(patch_pc)),
            Subq(R(Rdi), Imm(8)),
            Movq(R(Rcx), Ind(Rax, FUNCDATA_OFFSET_PC)),
            Movq(Ind(Rdi, 0), R(Rcx)),
            Movq(R(Rax), Ind(Rax, FUNCDATA_OFFSET_CODEPTR)),
            Lea(R(Rdi), Rip(patch_adr)),
            Subq(R(Rax), R(Rdi)),
            Movl(Ind(Rdi, PATCH_DISP), R(Rax)),
            Movl(R(Rax), Rip(global_class_version)),
            Movl(Rip(cached_class_version), R(Rax)),
            Movl(Rip(cached_recv_class), R(R15)),
            Jmp(Target::Label(method_resolved)),
        ]);
        let entry_return = self.vm_return;
        let next = pc.next(2);
        self.emit(vec![Bind(raise), Movq(R(R13), Imm64(next.0)), Jmp(Target::Label(entry_return))]);
        self.select_page(0);
    }

    /// Reads an instance variable of the receiver in `rdi`.
    ///
    /// The site caches the variable's index.  For an ordinary object whose
    /// variable is held inline the value is loaded from the object; else the
    /// runtime is called.
    pub fn attr_reader(&mut self, ctx: &BBContext, ivar_name: IdentId, ret: SlotId)
        requires
            ctx@.wf(),
        ensures
            final(self)@ == old(self)@.attr_reader(ctx@, ivar_name, ret),
    {
        reveal(CodegenView::attr_reader);
        let exit = self.label();
        let slow_path = self.label();
        let no_inline = self.label();
        let cached_class = self.jit.const_i32(0);
        let cached_ivarid = self.jit.const_i32(UNSET32);
        let xmm_using = ctx.get_xmm_using();
        proof {
            lemma_using_ok(ctx@);
        }
        self.emit(vec![
            Movl(R(Rsi), Rip(cached_ivarid)),
            Cmpl(R(Rsi), Imm(UNSET)),
            Jcc(Cond::Eq, slow_path),
            Cmpw(Ind(Rdi, 2), Imm(OBJKIND_OBJECT)),
            Jcc(Cond::Ne, no_inline),
            Cmpl(R(Rsi), Imm(OBJECT_INLINE_IVAR)),
            Jcc(Cond::Ge, no_inline),
            Movq(R(Rax), Idx(Rdi, Rsi, 16)),
            Jmp(Target::Label(exit)),
            Bind(no_inline),
        ]);
        self.xmm_save(&xmm_using);
        self.emit(vec![Movq(R(Rax), Func(RuntimeFn::GetIvar)), Call(Target::Reg(Rax))]);
        self.xmm_restore(&xmm_using);
        self.bind_label(exit);
        if !ret.is_zero() {
            self.store_rax(ret);
        }
        self.select_page(1);
        self.bind_label(slow_path);
        self.xmm_save(&xmm_using);
        self.emit(vec![
            Movq(R(Rsi), Imm(ivar_name.0 as i64)),
            Movq(R(Rdx), R(R12)),
            Lea(R(Rcx), Rip(cached_class)),
            Lea(R(R8), Rip(cached_ivarid)),
            Movq(R(Rax), Func(RuntimeFn::GetInstanceVarWithCache)),
            Call(Target::Reg(Rax)),
        ]);
        self.xmm_restore(&xmm_using);
        self.emit_one(Jmp(Target::Label(exit)));
        self.select_page(0);
    }

    /// Writes an instance variable of the receiver in `rdi`; symmetric to
    /// the reader.
    pub fn attr_writer(
        &mut self,
        ctx: &BBContext,
        ivar_name: IdentId,
        ret: SlotId,
        args: SlotId,
        pc: BcPc,
    )
        requires
            pc.ok(),
            ctx@.wf(),
        ensures
            final(self)@ == old(self)@.attr_writer(ctx@, ivar_name, ret, args, pc),
    {
        reveal(CodegenView::attr_writer);
        let exit = self.label();
        let slow_path = self.label();
        let no_inline = self.label();
        let cached_class = self.jit.const_i32(0);
        let cached_ivarid = self.jit.const_i32(UNSET32);
        let xmm_using = ctx.get_xmm_using();
        proof {
            lemma_using_ok(ctx@);
        }
        self.emit(vec![
            Movl(R(Rsi), Rip(cached_ivarid)),
            Cmpl(R(Rsi), Imm(UNSET)),
            Jcc(Cond::Eq, slow_path),
            Cmpw(Ind(Rdi, 2), Imm(OBJKIND_OBJECT)),
            Jcc(Cond::Ne, no_inline),
            Cmpl(R(Rsi), Imm(OBJECT_INLINE_IVAR)),
            Jcc(Cond::Ge, no_inline),
            Movq(R(Rax), slot(args)),
            Movq(Idx(Rdi, Rsi, 16), R(Rax)),
            Jmp(Target::Label(exit)),
            Bind(no_inline),
        ]);
        self.xmm_save(&xmm_using);
        self.emit(vec![Movq(R(Rdx), slot(args)), Movq(R(Rax), Func(RuntimeFn::SetIvar)), Call(Target::Reg(Rax))]);
        self.xmm_restore(&xmm_using);
        self.handle_error(pc);
        self.bind_label(exit);
        if !ret.is_zero() {
            self.store_rax(ret);
        }
        self.select_page(1);
        self.bind_label(slow_path);
        self.xmm_save(&xmm_using);
        self.emit(vec![
            Movq(R(Rsi), R(Rdi)),
            Movq(R(Rdx), Imm(ivar_name.0 as i64)),
            Movq(R(Rcx), slot(args)),
            Movq(R(Rdi), R(R12)),
            Lea(R(R8), Rip(cached_class)),
            Lea(R(R9), Rip(cached_ivarid)),
            Movq(R(Rax), Func(RuntimeFn::SetInstanceVarWithCache)),
            Call(Target::Reg(Rax)),
        ]);
        self.xmm_restore(&xmm_using);
        self.emit_one(Jmp(Target::Label(exit)));
        self.select_page(0);
    }

    /// Calls a native function whose address is known.
    ///
    /// A stub on the slow page builds the callee's frame and header, and calls
    /// the function with the interpreter, the global state, the receiver, the
    /// address of the first argument, the number of arguments and the block.
    pub fn native_call(
        &mut self,
        ctx: &BBContext,
        method_info: MethodInfo,
        func_id: FuncId,
        ret: SlotId,
        block: Option<SlotId>,
        abs_address: u64,
        pc: BcPc,
    )
        requires
            pc.ok(),
            ctx@.wf(),
        ensures
            final(self)@ == old(self)@.native_call(ctx@, method_info, func_id, ret, block, abs_address, pc),
    {
        reveal(CodegenView::native_call);
        self.select_page(1);
        let xmm_using = ctx.get_xmm_using();
        proof {
            lemma_using_ok(ctx@);
        }
        let caller = self.label();
        self.emit(vec![
            Bind(caller),
            Pushq(R(Rbp)),
            Movq(R(Rbp), R(Rsp)),
            Movq(R(Rax), Imm64(Meta::native(func_id, method_info.len).0)),
            Movq(Ind(Rbp, NEG_META), R(Rax)),
            Movq(Ind(Rbp, NEG_BLOCK), R(R9)),
            Movq(Ind(Rbp, NEG_SELF), R(Rdx)),
            Subq(R(Rsp), Imm(NATIVE_FRAME)),
            Movq(R(Rdi), R(Rbx)),
            Movq(R(Rsi), R(R12)),
            Movq(R(Rax), Imm64(abs_address)),
            Call(Target::Reg(Rax)),
            Leave,
            Ret,
        ]);
        self.select_page(0);
        match block {
            Some(block) => {
                self.emit_one(Movq(R(R9), slot(block)));
            },
            None => {
                self.emit_one(Movq(R(R9), Imm(0)));
            },
        }
        self.xmm_save(&xmm_using);
        self.emit_one(Movq(R(Rdx), R(Rdi)));
        self.push_frame(false);
        self.emit(vec![
            Lea(R(Rcx), slot(method_info.args)),
            Movq(R(R8), Imm(method_info.len as i64)),
            Call(Target::Label(caller)),
        ]);
        self.pop_frame();
        self.xmm_restore(&xmm_using);
        self.handle_error(pc);
        if !ret.is_zero() {
            self.store_rax(ret);
        }
    }

    /// Calls a function of bytecode whose frame header, bytecode address and
    /// code address are known from the site's cache.
    pub fn method_call_cached(
        &mut self,
        ctx: &BBContext,
        method_info: MethodInfo,
        ret: SlotId,
        block: Option<SlotId>,
        cached: InlineCached,
        pc: BcPc,
    )
        requires
            pc.ok(),
            ctx@.wf(),
            args_ok(method_info.args, method_info.len),
        ensures
            final(self)@ == old(self)@.method_call_cached(ctx@, method_info, ret, block, cached, pc),
    {
        reveal(CodegenView::method_call_cached);
        let xmm_using = ctx.get_xmm_using();
        proof {
            lemma_using_ok(ctx@);
        }
        self.xmm_save(&xmm_using);
        self.push_frame(false);
        self.set_self_and_args(method_info, block);
        self.emit(vec![
            Movq(R(Rax), Imm64(cached.meta.0)),
            Movq(callee(OFFSET_META), R(Rax)),
            Movq(R(R13), Imm64(cached.pc.0)),
            Call(Target::Abs(cached.codeptr)),
        ]);
        self.pop_frame();
        self.xmm_restore(&xmm_using);
        self.handle_error(pc);
        if !ret.is_zero() {
            self.store_rax(ret);
        }
    }

    /// Calls the block of the current frame.
    ///
    /// The runtime finds the block's function and the frame it closes over;
    /// the callee's outer pointer is set to that frame.
    pub fn gen_yield(&mut self, ctx: &BBContext, args: SlotId, len: u16, ret: SlotId, pc: BcPc)
        requires
            pc.ok(),
            ctx@.wf(),
            args_ok(args, len),
        ensures
            final(self)@ == old(self)@.gen_yield(ctx@, args, len, ret, pc),
    {
        reveal(CodegenView::gen_yield);
        let xmm_using = ctx.get_xmm_using();
        proof {
            lemma_using_ok(ctx@);
        }
        self.xmm_save(&xmm_using);
        self.emit(vec![
            Movq(R(Rdi), R(R12)),
            Movq(R(Rsi), Ind(Rbp, NEG_BLOCK)),
            Movq(R(Rdx), R(Rbx)),
            Movq(R(Rax), Func(RuntimeFn::GetBlockData)),
            Call(Target::Reg(Rax)),
        ]);
        self.push_frame(true);
        self.emit(vec![
            Movq(R(Rsi), Ind(Rdx, FUNCDATA_OFFSET_CODEPTR)),
            Movq(R(Rdi), Ind(Rdx, FUNCDATA_OFFSET_META)),
            Movq(callee(OFFSET_META), R(Rdi)),
            Movq(R(R13), Ind(Rdx, FUNCDATA_OFFSET_PC)),
            Movq(callee(OFFSET_BLOCK), Imm(0)),
        ]);
        self.set_args(args, len);
        self.emit(vec![Movq(R(Rdi), Imm(len as i64)), Call(Target::Reg(Rsi))]);
        self.pop_frame();
        self.xmm_restore(&xmm_using);
        self.handle_error(pc);
        if !ret.is_zero() {
            self.store_rax(ret);
        }
    }

    /// generate JIT code for a method call which was cached.
    ///
    /// The code is specialised on the cached class and version and leaves
    /// through a side exit where either has changed.  Where the receiver is
    /// *self*, its class is the one the code is compiled for and needs no
    /// guard.  A call whose number of arguments does not fit an attribute
    /// accessor is resolved at run time.
    pub fn gen_call_cached(
        &mut self,
        ctx: &BBContext,
        method_info: MethodInfo,
        name: IdentId,
        block: Option<SlotId>,
        ret: SlotId,
        cached: InlineCached,
        kind: FuncKind,
        pc: BcPc,
    )
        requires
            pc.ok(),
            ctx@.wf(),
            args_ok(method_info.args, method_info.len),
        ensures
            final(self)@ == old(self)@.gen_call_cached(ctx@, method_info, name, block, ret, cached, kind, pc),
    {
        reveal(CodegenView::gen_call_cached);
        let wb = ctx.get_write_back();
        let before = pc.prev();
        let deopt = self.gen_side_deopt_dest(before, &wb);
        self.emit_one(Movq(R(Rdi), slot(method_info.recv)));
        if !method_info.recv.is_zero() {
            self.guard_class(cached.class_id, deopt);
        }
        self.guard_version(cached.version, deopt);
        let func_id = cached.meta.func_id();
        match kind {
            FuncKind::AttrReader { ivar_name } => {
                if method_info.len != 0 {
                    self.gen_call_not_cached(ctx, method_info, name, block, ret, pc);
                } else if cached.class_id.is_always_frozen() {
                    if !ret.is_zero() {
                        self.emit_one(Movq(R(Rax), Imm64(NIL_VALUE)));
                        self.store_rax(ret);
                    }
                } else {
                    self.attr_reader(ctx, ivar_name, ret);
                }
            },
            FuncKind::AttrWriter { ivar_name } => {
                if method_info.len != 1 {
                    self.gen_call_not_cached(ctx, method_info, name, block, ret, pc);
                } else {
                    self.attr_writer(ctx, ivar_name, ret, method_info.args, pc);
                }
            },
            FuncKind::Builtin { abs_address } => {
                self.native_call(ctx, method_info, func_id, ret, block, abs_address, pc);
            },
            FuncKind::ISeq => {
                self.method_call_cached(ctx, method_info, ret, block, cached, pc);
            },
        }
    }
}

/// The displacement of a call instruction, seen from the end of the
/// instruction.
pub const PATCH_DISP: i64 = -4;

/// `-OFFSET_META`.
pub const NEG_META: i64 = -24;

/// `-OFFSET_BLOCK`.
pub const NEG_BLOCK: i64 = -32;

/// `-OFFSET_SELF`.
pub const NEG_SELF: i64 = -40;


} // verus!
