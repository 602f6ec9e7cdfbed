//! The x86-64 code generator: the state it keeps, the trampolines it builds
//! once, and the small pieces of code that every compilation rule is made of.
//!
//! Register convention of generated code:
//!
//! | register | holds                                          |
//! |----------|------------------------------------------------|
//! | `rbx`    | the interpreter state                          |
//! | `r12`    | the global state                               |
//! | `r13`    | the program counter into the bytecode          |
//! | `r15`    | scratch, the return slot, a receiver's class   |
//! | `rbp`, `rsp` | the frame                                  |
//!
//! Every function of this module states, as a function of the generator's
//! state before the call, the state after it: which instructions stand on
//! which page, and which labels were made.

use vstd::prelude::*;
use crate::assembler::{CodePtr, Cond, DestLabel, Inst, JitMemory, JitView, Operand, Reg, RuntimeFn, Target};
use crate::assembler::Inst::{
    Addl, Addq, Andl, Andq, Bind, Call, Cmpl, Cmpq, Cvtsi2sdq, Jcc, Jmp, Lea, Leave, Movl, Movq,
    Movw, Negq, Orq, Popq, Pushq, Ret, Rolq, Sarq, Shlq, Shrq, Subl, Subq, Testq, Ucomisd, Xorps,
    Xorq,
};
use crate::assembler::Operand::{Func, Idx, Imm, Imm64, Ind, Rip, Xmm, R};
use crate::assembler::Reg::{
    R10, R12, R13, R14, R15, R8, R9, Rax, Rbp, Rbx, Rcx, Rdi, Rdx, Rsi, Rsp,
};
use crate::frame::{
    slot, OFFSET_ARG0, OFFSET_BLOCK, OFFSET_CFP, OFFSET_FUNCID, OFFSET_META,
    OFFSET_OUTER, OFFSET_REGNUM, OFFSET_SELF, FUNCDATA_OFFSET_CODEPTR, FUNCDATA_OFFSET_META,
    FUNCDATA_OFFSET_PC,
};
use crate::ids::{IdentId, SlotId};
use crate::value::{FLOAT_ZERO, FLOAT_ZERO_TWIN};

pub mod compile;
pub mod context;
pub mod jitgen;
pub mod loops;
pub mod method_call;
pub mod reconcile;
pub mod rules;
pub mod step;
pub mod toplevel;
pub mod trampoline;
pub mod vmgen;

verus! {

/// Distance from a frame's linkage slot to its outer pointer:
/// `-(OFFSET_OUTER - OFFSET_CFP)`.
pub const OUTER_FROM_CFP: i64 = -8;

/// The mask that rounds down to an even number.
pub const MASK_EVEN: i64 = -2;

/// The mask that clears the two tag bits of a word.
pub const MASK_TAG: i64 = -4;

/// The initial value of a cached version: no version is ever equal to it.
pub const UNSET: i64 = -1;

/// The tagged word of a small integer as an immediate.
pub open spec fn fixnum_imm_spec(i: i16) -> Operand {
    Imm64(crate::value::fixnum_raw(i as int))
}

#[verifier::when_used_as_spec(fixnum_imm_spec)]
pub fn fixnum_imm(i: i16) -> (o: Operand)
    ensures
        o == fixnum_imm_spec(i),
{
    Imm64(crate::value::Value::int32(i as i32).0)
}

/// What adding the small integer `i` adds to a tagged word: the tagged word
/// of `i` less its tag bit, `2 * i`.
pub open spec fn fixnum_delta_spec(i: i16) -> Operand {
    Imm((2 * i) as i64)
}

#[verifier::when_used_as_spec(fixnum_delta_spec)]
pub fn fixnum_delta(i: i16) -> (o: Operand)
    ensures
        o == fixnum_delta_spec(i),
{
    Imm(2 * (i as i64))
}

/// Bytecode compiler.
///
/// This generates x86-64 machine code from a bytecode.
pub struct Codegen {
    pub jit: JitMemory,
    /// The global class version: a 32-bit counter in the data area.
    pub class_version: DestLabel,
    /// The global constant version: a 64-bit counter in the data area.
    pub const_version: DestLabel,
    pub entry_panic: DestLabel,
    /// Entry of the interpreter for a freshly called function.
    pub vm_entry: DestLabel,
    /// The interpreter's fetch loop: resumes at the record that `r13` names.
    pub vm_fetch: DestLabel,
    pub entry_find_method: DestLabel,
    pub vm_return: DestLabel,
    pub f64_to_val: DestLabel,
    pub heap_to_f64: DestLabel,
    pub div_by_zero: DestLabel,
    /// One code pointer per opcode.
    pub dispatch: Vec<CodePtr>,
    pub method_invoker: CodePtr,
    pub method_invoker2: CodePtr,
    pub block_invoker: CodePtr,
}

/// The mathematical content of a [`Codegen`].
#[verifier::ext_equal]
pub struct CodegenView {
    pub jit: JitView,
    pub class_version: DestLabel,
    pub const_version: DestLabel,
    pub entry_panic: DestLabel,
    pub vm_entry: DestLabel,
    pub vm_fetch: DestLabel,
    pub entry_find_method: DestLabel,
    pub vm_return: DestLabel,
    pub f64_to_val: DestLabel,
    pub heap_to_f64: DestLabel,
    pub div_by_zero: DestLabel,
    pub dispatch: Seq<CodePtr>,
    pub method_invoker: CodePtr,
    pub method_invoker2: CodePtr,
    pub block_invoker: CodePtr,
}

impl View for Codegen {
    type V = CodegenView;

    open spec fn view(&self) -> CodegenView {
        CodegenView {
            jit: self.jit@,
            class_version: self.class_version,
            const_version: self.const_version,
            entry_panic: self.entry_panic,
            vm_entry: self.vm_entry,
            vm_fetch: self.vm_fetch,
            entry_find_method: self.entry_find_method,
            vm_return: self.vm_return,
            f64_to_val: self.f64_to_val,
            heap_to_f64: self.heap_to_f64,
            div_by_zero: self.div_by_zero,
            dispatch: self.dispatch@,
            method_invoker: self.method_invoker,
            method_invoker2: self.method_invoker2,
            block_invoker: self.block_invoker,
        }
    }
}

/// The operand `[rsp - (16 + offset)]`: a place in the frame that is being
/// staged for a callee, seen from the caller before the call.
pub open spec fn callee_spec(offset: i64) -> Operand {
    Ind(Rsp, (-(16 + offset)) as i64)
}

#[verifier::when_used_as_spec(callee_spec)]
pub fn callee(offset: i64) -> (o: Operand)
    requires
        0 <= offset <= 0x10_0000,
    ensures
        o == callee_spec(offset),
{
    Ind(Rsp, -(16 + offset))
}

/// The operand `[rsp - (8 + offset)]`: a place in the callee's frame, seen
/// from the callee before it has saved `rbp`.
pub open spec fn entered_spec(offset: i64) -> Operand {
    Ind(Rsp, (-(8 + offset)) as i64)
}

#[verifier::when_used_as_spec(entered_spec)]
pub fn entered(offset: i64) -> (o: Operand)
    requires
        0 <= offset <= 0x10_0000,
    ensures
        o == entered_spec(offset),
{
    Ind(Rsp, -(8 + offset))
}

/// The stores and loads of the registers xmm2 to xmm15 at `[rsp + 8 * i]`,
/// from `i = 0` up.
pub open spec fn xmm_all(save: bool) -> Seq<Inst> {
    Seq::new(
        14,
        |i: int|
            if save {
                Movq(Ind(Rsp, (8 * (13 - i)) as i64), Xmm((15 - i) as u64))
            } else {
                Movq(Xmm((i + 2) as u64), Ind(Rsp, (8 * i) as i64))
            },
    )
}

impl CodegenView {
    /// `code` appended to the selected page.
    pub open spec fn emit(self, code: Seq<Inst>) -> CodegenView {
        CodegenView { jit: self.jit.emit(code), ..self }
    }

    /// The stores (or loads) of xmm2 to xmm15 appended.
    pub open spec fn emit_xmm_all(self, save: bool) -> CodegenView {
        self.emit(xmm_all(save))
    }

    /// One more code label.
    pub open spec fn label(self) -> CodegenView {
        CodegenView { jit: self.jit.label(), ..self }
    }

    /// `k` more code labels.
    pub open spec fn labels(self, k: nat) -> CodegenView {
        CodegenView { jit: self.jit.label_n(k), ..self }
    }

    /// The `k`-th label from the next one on.
    pub open spec fn nth(self, k: int) -> DestLabel {
        self.jit.nth(k)
    }

    /// `label` bound at the end of the selected page.
    pub open spec fn bind_label(self, label: DestLabel) -> CodegenView {
        self.emit(seq![Bind(label)])
    }

    /// Page `p` selected.
    pub open spec fn select(self, p: int) -> CodegenView {
        CodegenView { jit: self.jit.select(p), ..self }
    }

    /// One more constant in the data area.
    pub open spec fn constant(self, d: crate::assembler::Data) -> CodegenView {
        CodegenView { jit: self.jit.constant(d), ..self }
    }

    pub open spec fn push_frame(self, invoke_block: bool) -> CodegenView {
        self.emit(
            if invoke_block {
                seq![
                    Lea(R(Rax), Ind(Rax, OUTER_FROM_CFP)),
                    Movq(callee(OFFSET_OUTER), R(Rax)),
                ]
            } else {
                seq![Movq(callee(OFFSET_OUTER), Imm(0))]
            },
        ).emit(
            seq![
                Movq(R(Rax), Ind(Rbx, 0)),
                Lea(R(Rdi), callee(OFFSET_CFP)),
                Movq(Ind(Rdi, 0), R(Rax)),
                Movq(Ind(Rbx, 0), R(Rdi)),
            ],
        )
    }

    pub open spec fn pop_frame(self) -> CodegenView {
        self.emit(seq![Movq(R(Rdi), callee(OFFSET_CFP)), Movq(Ind(Rbx, 0), R(Rdi))])
    }

    pub open spec fn calc_offset(self) -> CodegenView {
        self.emit(seq![Addq(R(Rax), Imm(7)), Andq(R(Rax), Imm(MASK_EVEN)), Shlq(R(Rax), Imm(3))])
    }

    pub open spec fn guard_rdi_fixnum(self, generic: DestLabel) -> CodegenView {
        self.emit(seq![Testq(R(Rdi), Imm(1)), Jcc(Cond::Eq, generic)])
    }

    pub open spec fn guard_rsi_fixnum(self, generic: DestLabel) -> CodegenView {
        self.emit(seq![Testq(R(Rsi), Imm(1)), Jcc(Cond::Eq, generic)])
    }

    pub open spec fn guard_rdi_rsi_fixnum(self, generic: DestLabel) -> CodegenView {
        self.guard_rdi_fixnum(generic).guard_rsi_fixnum(generic)
    }

    pub open spec fn store_rax(self, ret: SlotId) -> CodegenView {
        self.emit(seq![Movq(slot(ret), R(Rax))])
    }

    pub open spec fn store_rdi(self, ret: SlotId) -> CodegenView {
        self.emit(seq![Movq(slot(ret), R(Rdi))])
    }

    pub open spec fn store_rsi(self, ret: SlotId) -> CodegenView {
        self.emit(seq![Movq(slot(ret), R(Rsi))])
    }

    pub open spec fn xmm_mov(self, src: u16, dst: u16) -> CodegenView {
        if src != dst {
            self.emit(seq![Movq(crate::frame::xmm(dst), crate::frame::xmm(src))])
        } else {
            self
        }
    }

    /// The code that unpacks the inline float in `rdi` into `xmm`.
    pub open spec fn unpack_flonum_code(xmm: u64, exit: DestLabel) -> Seq<Inst> {
        seq![
            Xorps(Xmm(xmm), Xmm(xmm)),
            Movq(R(Rax), Imm64(FLOAT_ZERO)),
            Cmpq(R(Rdi), R(Rax)),
            Jcc(Cond::Eq, exit),
            Movq(R(Rax), R(Rdi)),
            Sarq(R(Rax), Imm(63)),
            Addq(R(Rax), Imm(2)),
            Andq(R(Rdi), Imm(MASK_TAG)),
            Orq(R(Rdi), R(Rax)),
            Rolq(R(Rdi), Imm(61)),
            Movq(Xmm(xmm), R(Rdi)),
            Jmp(Target::Label(exit)),
        ]
    }

    pub open spec fn gen_val_to_f64_assume_integer(self, xmm: u64, side_exit: DestLabel) -> CodegenView {
        let entry = self.nth(0);
        self.label().emit(
            seq![
                Bind(entry),
                Testq(R(Rdi), Imm(1)),
                Jcc(Cond::Eq, side_exit),
                Sarq(R(Rdi), Imm(1)),
                Cvtsi2sdq(Xmm(xmm), R(Rdi)),
            ],
        )
    }

    pub open spec fn gen_val_to_f64_assume_float(self, xmm: u64, side_exit: DestLabel) -> CodegenView {
        let entry = self.nth(0);
        let heap = self.nth(1);
        let exit = self.nth(2);
        self.labels(3).emit(
            seq![
                Bind(entry),
                Testq(R(Rdi), Imm(1)),
                Jcc(Cond::Ne, side_exit),
                Testq(R(Rdi), Imm(2)),
                Jcc(Cond::Eq, heap),
            ] + Self::unpack_flonum_code(xmm, exit) + seq![
                Bind(heap),
                Call(Target::Label(self.heap_to_f64)),
                Testq(R(Rax), R(Rax)),
                Jcc(Cond::Eq, side_exit),
                Movq(Xmm(xmm), Xmm(0)),
                Bind(exit),
            ],
        )
    }

    pub open spec fn gen_assume_float(self, reg: SlotId, side_exit: DestLabel) -> CodegenView {
        let heap = self.nth(0);
        let exit = self.nth(1);
        self.labels(2).emit(
            seq![
                Movq(R(Rdi), slot(reg)),
                Testq(R(Rdi), Imm(1)),
                Jcc(Cond::Ne, side_exit),
                Testq(R(Rdi), Imm(2)),
                Jcc(Cond::Ne, exit),
                Bind(heap),
                Call(Target::Label(self.heap_to_f64)),
                Testq(R(Rax), R(Rax)),
                Jcc(Cond::Eq, side_exit),
                Bind(exit),
            ],
        )
    }

    pub open spec fn gen_val_to_f64(self, xmm: u64, side_exit: DestLabel) -> CodegenView {
        let integer = self.nth(0);
        let heap = self.nth(1);
        let exit = self.nth(2);
        self.labels(3).emit(
            seq![
                Testq(R(Rdi), Imm(1)),
                Jcc(Cond::Ne, integer),
                Testq(R(Rdi), Imm(2)),
                Jcc(Cond::Eq, heap),
            ] + Self::unpack_flonum_code(xmm, exit) + seq![
                Bind(integer),
                Sarq(R(Rdi), Imm(1)),
                Cvtsi2sdq(Xmm(xmm), R(Rdi)),
                Jmp(Target::Label(exit)),
                Bind(heap),
                Call(Target::Label(self.heap_to_f64)),
                Testq(R(Rax), R(Rax)),
                Jcc(Cond::Eq, side_exit),
                Movq(Xmm(xmm), Xmm(0)),
                Bind(exit),
            ],
        )
    }

    /// The code of the routine that boxes the double in `xmm0`: zero becomes
    /// the zero sentinel, a double whose exponent allows it is packed inline,
    /// any other is boxed on the heap with xmm2 to xmm15 saved around the
    /// call.  The one double whose packed word would be the zero sentinel is
    /// boxed on the heap.
    pub open spec fn f64_to_val_code(entry: DestLabel, normal: DestLabel, heap_alloc: DestLabel) -> Seq<Inst> {
        seq![
            Bind(entry),
            Xorps(Xmm(1), Xmm(1)),
            Ucomisd(Xmm(0), Xmm(1)),
            Jcc(Cond::Ne, normal),
            Jcc(Cond::P, normal),
            Movq(R(Rax), Imm64(FLOAT_ZERO)),
            Ret,
            Bind(heap_alloc),
            Subq(R(Rsp), Imm(120)),
            Movq(Ind(Rsp, 112), R(Rdi)),
        ] + xmm_all(true) + seq![Movq(R(Rax), Func(RuntimeFn::NewFloat)), Call(Target::Reg(Rax))]
            + xmm_all(false) + seq![
            Movq(R(Rdi), Ind(Rsp, 112)),
            Addq(R(Rsp), Imm(120)),
            Ret,
            Bind(normal),
            Movq(R(Rax), Xmm(0)),
            Movq(R(Rcx), Imm64(FLOAT_ZERO_TWIN)),
            Cmpq(R(Rax), R(Rcx)),
            Jcc(Cond::Eq, heap_alloc),
            Movq(R(Rcx), R(Rax)),
            Shrq(R(Rcx), Imm(60)),
            Addl(R(Rcx), Imm(1)),
            Andl(R(Rcx), Imm(6)),
            Cmpl(R(Rcx), Imm(4)),
            Jcc(Cond::Ne, heap_alloc),
            Rolq(R(Rax), Imm(3)),
            Andq(R(Rax), Imm(MASK_TAG)),
            Orq(R(Rax), Imm(2)),
            Ret,
        ]
    }

    pub open spec fn generate_f64_to_val(self) -> CodegenView {
        self.labels(3).emit(Self::f64_to_val_code(self.nth(0), self.nth(1), self.nth(2)))
    }

    pub open spec fn call_unop(self, func: RuntimeFn) -> CodegenView {
        self.emit(
            seq![
                Movq(R(Rdx), R(Rdi)),
                Movq(R(Rdi), R(Rbx)),
                Movq(R(Rsi), R(R12)),
                Movq(R(Rax), Func(func)),
                Call(Target::Reg(Rax)),
            ],
        )
    }

    pub open spec fn call_binop(self, func: RuntimeFn) -> CodegenView {
        self.emit(
            seq![
                Movq(R(Rdx), R(Rdi)),
                Movq(R(Rcx), R(Rsi)),
                Movq(R(Rdi), R(Rbx)),
                Movq(R(Rsi), R(R12)),
                Movq(R(Rax), Func(func)),
                Call(Target::Reg(Rax)),
            ],
        )
    }
}

impl Codegen {
    /// Appends instructions to the selected page.
    pub fn emit(&mut self, code: Vec<Inst>)
        ensures
            final(self)@ == old(self)@.emit(code@),
    {
        self.jit.emit(code);
    }

    /// Appends one instruction to the selected page.
    pub fn emit_one(&mut self, inst: Inst)
        ensures
            final(self)@ == old(self)@.emit(seq![inst]),
    {
        let mut code: Vec<Inst> = Vec::new();
        code.push(inst);
        assert(code@ =~= seq![inst]);
        self.jit.emit(code);
    }

    /// Appends the stores (or loads) of xmm2 to xmm15 around a call into the
    /// runtime.
    pub fn emit_xmm_all(&mut self, save: bool)
        ensures
            final(self)@ == old(self)@.emit_xmm_all(save),
    {
        let code = Self::xmm_all(save);
        self.jit.emit(code);
    }

    /// Makes a new code label.
    pub fn label(&mut self) -> (l: DestLabel)
        ensures
            l == old(self)@.nth(0),
            final(self)@ == old(self)@.label(),
    {
        self.jit.label()
    }

    /// Selects the page that the following instructions go to.
    pub fn select_page(&mut self, page: usize)
        requires
            page < 3,
        ensures
            final(self)@ == old(self)@.select(page as int),
    {
        self.jit.select_page(page);
    }

    /// Binds `label` to the end of the selected page.
    pub fn bind_label(&mut self, label: DestLabel)
        ensures
            final(self)@ == old(self)@.bind_label(label),
    {
        self.jit.bind_label(label);
    }

    /// Links the frame that is being staged into the chain of frames, and
    /// sets its outer pointer: from `rax` for a block, else to zero.
    ///
    /// Destroys `rax` and `rdi`.
    pub fn push_frame(&mut self, invoke_block: bool)
        ensures
            final(self)@ == old(self)@.push_frame(invoke_block),
    {
        if invoke_block {
            self.emit(vec![Lea(R(Rax), Ind(Rax, OUTER_FROM_CFP)), Movq(callee(OFFSET_OUTER), R(Rax))]);
        } else {
            self.emit(vec![Movq(callee(OFFSET_OUTER), Imm(0))]);
        }
        self.emit(
            vec![
                Movq(R(Rax), Ind(Rbx, 0)),
                Lea(R(Rdi), callee(OFFSET_CFP)),
                Movq(Ind(Rdi, 0), R(Rax)),
                Movq(Ind(Rbx, 0), R(Rdi)),
            ],
        );
    }

    /// Unlinks the callee's frame from the chain of frames.
    ///
    /// Destroys `rdi`.
    pub fn pop_frame(&mut self)
        ensures
            final(self)@ == old(self)@.pop_frame(),
    {
        self.emit(vec![Movq(R(Rdi), callee(OFFSET_CFP)), Movq(Ind(Rbx, 0), R(Rdi))]);
    }

    /// Turns the number of arguments in `rax` into the size of the frame:
    /// `(rax + OFFSET_ARG0 / 8 + 1) & -2`, times 8.
    pub fn calc_offset(&mut self)
        ensures
            final(self)@ == old(self)@.calc_offset(),
    {
        self.emit(
            vec![Addq(R(Rax), Imm(OFFSET_ARG0 / 8 + 1)), Andq(R(Rax), Imm(MASK_EVEN)), Shlq(R(Rax), Imm(3))],
        );
    }

    /// Checks whether lhs and rhs are fixnum.
    pub fn guard_rdi_rsi_fixnum(&mut self, generic: DestLabel)
        ensures
            final(self)@ == old(self)@.guard_rdi_rsi_fixnum(generic),
    {
        self.guard_rdi_fixnum(generic);
        self.guard_rsi_fixnum(generic);
    }

    /// Checks whether lhs is fixnum.
    pub fn guard_rdi_fixnum(&mut self, generic: DestLabel)
        ensures
            final(self)@ == old(self)@.guard_rdi_fixnum(generic),
    {
        self.emit(vec![Testq(R(Rdi), Imm(1)), Jcc(Cond::Eq, generic)]);
    }

    /// Checks whether rhs is fixnum.
    pub fn guard_rsi_fixnum(&mut self, generic: DestLabel)
        ensures
            final(self)@ == old(self)@.guard_rsi_fixnum(generic),
    {
        self.emit(vec![Testq(R(Rsi), Imm(1)), Jcc(Cond::Eq, generic)]);
    }

    /// Stores rax to *ret*.
    pub fn store_rax(&mut self, ret: SlotId)
        ensures
            final(self)@ == old(self)@.store_rax(ret),
    {
        self.emit(vec![Movq(slot(ret), R(Rax))]);
    }

    /// Stores rdi to *ret*.
    pub fn store_rdi(&mut self, ret: SlotId)
        ensures
            final(self)@ == old(self)@.store_rdi(ret),
    {
        self.emit(vec![Movq(slot(ret), R(Rdi))]);
    }

    /// Stores rsi to *ret*.
    pub fn store_rsi(&mut self, ret: SlotId)
        ensures
            final(self)@ == old(self)@.store_rsi(ret),
    {
        self.emit(vec![Movq(slot(ret), R(Rsi))]);
    }

    /// Moves xmm(*src*) to xmm(*dst*).
    pub fn xmm_mov(&mut self, src: u16, dst: u16)
        ensures
            final(self)@ == old(self)@.xmm_mov(src, dst),
    {
        if src != dst {
            self.emit(vec![Movq(crate::frame::xmm(dst), crate::frame::xmm(src))]);
        }
    }

    /// The code that unpacks the inline float in `rdi` into `xmm`.
    fn unpack_flonum(xmm: u64, exit: DestLabel) -> (code: Vec<Inst>)
        ensures
            code@ == CodegenView::unpack_flonum_code(xmm, exit),
    {
        vec![
            Xorps(Xmm(xmm), Xmm(xmm)),
            Movq(R(Rax), Imm64(FLOAT_ZERO)),
            Cmpq(R(Rdi), R(Rax)),
            Jcc(Cond::Eq, exit),
            Movq(R(Rax), R(Rdi)),
            Sarq(R(Rax), Imm(63)),
            Addq(R(Rax), Imm(2)),
            Andq(R(Rdi), Imm(MASK_TAG)),
            Orq(R(Rdi), R(Rax)),
            Rolq(R(Rdi), Imm(61)),
            Movq(Xmm(xmm), R(Rdi)),
            Jmp(Target::Label(exit)),
        ]
    }

    /// Assume the Value is Integer, and convert to f64.
    ///
    /// Side-exits if not Integer.
    ///
    /// - in: `rdi` holds the value
    /// - out: xmm(*xmm*) holds the double
    pub fn gen_val_to_f64_assume_integer(&mut self, xmm: u64, side_exit: DestLabel) -> (entry: DestLabel)
        ensures
            entry == old(self)@.nth(0),
            final(self)@ == old(self)@.gen_val_to_f64_assume_integer(xmm, side_exit),
    {
        let entry = self.label();
        self.emit(
            vec![
                Bind(entry),
                Testq(R(Rdi), Imm(1)),
                Jcc(Cond::Eq, side_exit),
                Sarq(R(Rdi), Imm(1)),
                Cvtsi2sdq(Xmm(xmm), R(Rdi)),
            ],
        );
        entry
    }

    /// Assume the Value is Float, and convert to f64.
    ///
    /// Side-exits if not Float.
    ///
    /// - in: `rdi` holds the value
    /// - out: xmm(*xmm*) holds the double
    /// - destroys `rax`, `rdi`
    pub fn gen_val_to_f64_assume_float(&mut self, xmm: u64, side_exit: DestLabel) -> (entry: DestLabel)
        ensures
            entry == old(self)@.nth(0),
            final(self)@ == old(self)@.gen_val_to_f64_assume_float(xmm, side_exit),
    {
        let heap_to_f64 = self.heap_to_f64;
        let entry = self.label();
        let heap = self.label();
        let exit = self.label();
        let mut code = vec![
            Bind(entry),
            Testq(R(Rdi), Imm(1)),
            Jcc(Cond::Ne, side_exit),
            Testq(R(Rdi), Imm(2)),
            Jcc(Cond::Eq, heap),
        ];
        let mut unpack = Self::unpack_flonum(xmm, exit);
        code.append(&mut unpack);
        let mut tail = vec![
            Bind(heap),
            Call(Target::Label(heap_to_f64)),
            Testq(R(Rax), R(Rax)),
            Jcc(Cond::Eq, side_exit),
            Movq(Xmm(xmm), Xmm(0)),
            Bind(exit),
        ];
        code.append(&mut tail);
        self.emit(code);
        proof {
            lemma_labels(old(self)@, 3);
        }
        entry
    }

    /// Confirm the Value is Float.
    ///
    /// Side-exits if not Float.  Destroys `rax`, `rdi`.
    pub fn gen_assume_float(&mut self, reg: SlotId, side_exit: DestLabel)
        ensures
            final(self)@ == old(self)@.gen_assume_float(reg, side_exit),
    {
        let heap_to_f64 = self.heap_to_f64;
        let heap = self.label();
        let exit = self.label();
        self.emit(
            vec![
                Movq(R(Rdi), slot(reg)),
                Testq(R(Rdi), Imm(1)),
                Jcc(Cond::Ne, side_exit),
                Testq(R(Rdi), Imm(2)),
                Jcc(Cond::Ne, exit),
                Bind(heap),
                Call(Target::Label(heap_to_f64)),
                Testq(R(Rax), R(Rax)),
                Jcc(Cond::Eq, side_exit),
                Bind(exit),
            ],
        );
        proof {
            lemma_labels(old(self)@, 2);
        }
    }

    /// Convert the Value to f64.
    ///
    /// Side-exits if neither Float nor Integer.
    ///
    /// - in: `rdi` holds the value
    /// - out: xmm(*xmm*) holds the double
    /// - destroys the caller-save registers but xmm2 to xmm15
    pub fn gen_val_to_f64(&mut self, xmm: u64, side_exit: DestLabel)
        ensures
            final(self)@ == old(self)@.gen_val_to_f64(xmm, side_exit),
    {
        let heap_to_f64 = self.heap_to_f64;
        let integer = self.label();
        let heap = self.label();
        let exit = self.label();
        let mut code = vec![
            Testq(R(Rdi), Imm(1)),
            Jcc(Cond::Ne, integer),
            Testq(R(Rdi), Imm(2)),
            Jcc(Cond::Eq, heap),
        ];
        let mut unpack = Self::unpack_flonum(xmm, exit);
        code.append(&mut unpack);
        let mut tail = vec![
            Bind(integer),
            Sarq(R(Rdi), Imm(1)),
            Cvtsi2sdq(Xmm(xmm), R(Rdi)),
            Jmp(Target::Label(exit)),
            Bind(heap),
            Call(Target::Label(heap_to_f64)),
            Testq(R(Rax), R(Rax)),
            Jcc(Cond::Eq, side_exit),
            Movq(Xmm(xmm), Xmm(0)),
            Bind(exit),
        ];
        code.append(&mut tail);
        self.emit(code);
        proof {
            lemma_labels(old(self)@, 3);
        }
    }

    /// The stores (or loads) of xmm2 to xmm15 around a call into the runtime.
    fn xmm_all(save: bool) -> (code: Vec<Inst>)
        ensures
            code@ == xmm_all(save),
    {
        let mut code: Vec<Inst> = Vec::new();
        let mut i: u64 = 0;
        while i < 14
            invariant
                i <= 14,
                code@.len() == i,
                forall|k: int| 0 <= k < i ==> code@[k] == xmm_all(save)[k],
            decreases 14 - i,
        {
            if save {
                code.push(Movq(Ind(Rsp, (8 * (13 - i)) as i64), Xmm(15 - i)));
            } else {
                code.push(Movq(Xmm(i + 2), Ind(Rsp, (8 * i) as i64)));
            }
            i += 1;
        }
        assert(code@ =~= xmm_all(save));
        code
    }

    /// Convert f64 to Value.
    ///
    /// - in: `xmm0` holds the double
    /// - out: `rax` holds the value
    /// - destroys `rcx`, `xmm1`
    pub fn generate_f64_to_val(&mut self) -> (entry: DestLabel)
        ensures
            entry == old(self)@.nth(0),
            final(self)@ == old(self)@.generate_f64_to_val(),
    {
        let entry = self.label();
        let normal = self.label();
        let heap_alloc = self.label();
        let mut code = vec![
            Bind(entry),
            Xorps(Xmm(1), Xmm(1)),
            Ucomisd(Xmm(0), Xmm(1)),
            Jcc(Cond::Ne, normal),
            Jcc(Cond::P, normal),
            Movq(R(Rax), Imm64(FLOAT_ZERO)),
            Ret,
            Bind(heap_alloc),
            Subq(R(Rsp), Imm(120)),
            Movq(Ind(Rsp, 112), R(Rdi)),
        ];
        let mut save = Self::xmm_all(true);
        code.append(&mut save);
        let mut call = vec![Movq(R(Rax), Func(RuntimeFn::NewFloat)), Call(Target::Reg(Rax))];
        code.append(&mut call);
        let mut restore = Self::xmm_all(false);
        code.append(&mut restore);
        let mut tail = vec![
            Movq(R(Rdi), Ind(Rsp, 112)),
            Addq(R(Rsp), Imm(120)),
            Ret,
            Bind(normal),
            Movq(R(Rax), Xmm(0)),
            Movq(R(Rcx), Imm64(FLOAT_ZERO_TWIN)),
            Cmpq(R(Rax), R(Rcx)),
            Jcc(Cond::Eq, heap_alloc),
            Movq(R(Rcx), R(Rax)),
            Shrq(R(Rcx), Imm(60)),
            Addl(R(Rcx), Imm(1)),
            Andl(R(Rcx), Imm(6)),
            Cmpl(R(Rcx), Imm(4)),
            Jcc(Cond::Ne, heap_alloc),
            Rolq(R(Rax), Imm(3)),
            Andq(R(Rax), Imm(MASK_TAG)),
            Orq(R(Rax), Imm(2)),
            Ret,
        ];
        code.append(&mut tail);
        self.emit(code);
        proof {
            lemma_labels(old(self)@, 3);
        }
        entry
    }

    /// Calls a runtime function of one value: the value in `rdi` becomes the
    /// third argument, after the interpreter and the global state.
    pub fn call_unop(&mut self, func: RuntimeFn)
        ensures
            final(self)@ == old(self)@.call_unop(func),
    {
        self.emit(
            vec![
                Movq(R(Rdx), R(Rdi)),
                Movq(R(Rdi), R(Rbx)),
                Movq(R(Rsi), R(R12)),
                Movq(R(Rax), Func(func)),
                Call(Target::Reg(Rax)),
            ],
        );
    }

    /// Calls a runtime function of two values: `rdi` and `rsi` become the
    /// third and fourth argument.
    pub fn call_binop(&mut self, func: RuntimeFn)
        ensures
            final(self)@ == old(self)@.call_binop(func),
    {
        self.emit(
            vec![
                Movq(R(Rdx), R(Rdi)),
                Movq(R(Rcx), R(Rsi)),
                Movq(R(Rdi), R(Rbx)),
                Movq(R(Rsi), R(R12)),
                Movq(R(Rax), Func(func)),
                Call(Target::Reg(Rax)),
            ],
        );
    }
}

/// Making `k` labels leaves the code alone and adds `k` labels.
pub proof fn lemma_label_n(j: JitView, k: nat)
    ensures
        j.label_n(k).labels.len() == j.labels.len() + k,
        j.label_n(k).main == j.main,
        j.label_n(k).slow == j.slow,
        j.label_n(k).deopt == j.deopt,
        j.label_n(k).page == j.page,
    decreases k,
{
    if k > 0 {
        lemma_label_n(j.label(), (k - 1) as nat);
    }
}

/// Making `k` labels one by one is making `k` labels.
pub proof fn lemma_labels(c: CodegenView, k: nat)
    ensures
        k == 1 ==> c.labels(1) == c.label(),
        k == 2 ==> c.labels(2) == c.label().label(),
        k == 3 ==> c.labels(3) == c.label().label().label(),
        k == 4 ==> c.labels(4) == c.label().label().label().label(),
        k == 5 ==> c.labels(5) == c.label().label().label().label().label(),
        k == 6 ==> c.labels(6) == c.label().label().label().label().label().label(),
        forall|i: int| #![trigger c.labels(k).nth(i)] c.labels(k).nth(i) == c.nth(i + k),
{
    reveal_with_fuel(JitView::label_n, 8);
    lemma_label_n(c.jit, k);
}

} // verus!
