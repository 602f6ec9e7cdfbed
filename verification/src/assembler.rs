//! A symbolic x86-64 assembler.
//!
//! The code generator does not write bytes.  It appends instructions, with
//! symbolic labels and symbolic addresses of runtime functions, to one of
//! three pages: the main (hot) page, the page of slow paths, and the page of
//! side exits.  Whoever owns executable memory encodes the pages afterwards.
//! A label is bound by the pseudo instruction [`Inst::Bind`] at the place
//! where it stands.

use vstd::prelude::*;

verus! {

/// General-purpose registers.
#[derive(Clone, Copy, Debug, PartialEq, Eq, Structural)]
pub enum Reg {
    Rax,
    Rcx,
    Rdx,
    Rbx,
    Rsp,
    Rbp,
    Rsi,
    Rdi,
    R8,
    R9,
    R10,
    R11,
    R12,
    R13,
    R14,
    R15,
}

/// Condition codes of conditional jumps and of `setcc`.
#[derive(Clone, Copy, Debug, PartialEq, Eq, Structural)]
pub enum Cond {
    /// Equal, zero.
    Eq,
    /// Not equal, not zero.
    Ne,
    /// Signed less.
    Lt,
    /// Signed less or equal.
    Le,
    /// Signed greater.
    Gt,
    /// Signed greater or equal.
    Ge,
    /// Unsigned above.
    A,
    /// Unsigned above or equal.
    Ae,
    /// Unsigned below.
    B,
    /// Unsigned below or equal.
    Be,
    /// Overflow.
    O,
    /// Sign.
    S,
    /// No sign.
    Ns,
    /// Parity: an unordered floating-point comparison.
    P,
}

/// A position in the code that is known by name before it is known by
/// address.
#[derive(Clone, Copy, Debug, PartialEq, Eq, Structural)]
pub struct DestLabel(pub usize);

/// Functions of the runtime whose addresses the generated code bakes in.
#[derive(Clone, Copy, Debug, PartialEq, Eq, Structural)]
pub enum RuntimeFn {
    AddValues,
    SubValues,
    MulValues,
    DivValues,
    BitOrValues,
    BitAndValues,
    BitXorValues,
    ShrValues,
    ShlValues,
    CmpEqValues,
    CmpNeValues,
    CmpLtValues,
    CmpLeValues,
    CmpGtValues,
    CmpGeValues,
    NegValue,
    FindMethod,
    GetFuncData,
    GetConstant,
    SetConstant,
    GetIndex,
    SetIndex,
    GetInstanceVarWithCache,
    SetInstanceVarWithCache,
    GetIvar,
    SetIvar,
    DefineMethod,
    DefineClass,
    PopClassContext,
    GetBlockData,
    GenArray,
    ConcatenateString,
    Dup,
    ErrorDivideByZero,
    GetErrorLocation,
    DumpStacktrace,
    Panic,
    UnimplementedInst,
    GetClass,
    ValToF,
    NewFloat,
    Cos,
    Sin,
    ExecJitCompile,
    ExecJitPartialCompile,
}

/// An operand of an instruction.
#[derive(Clone, Copy, Debug, PartialEq, Eq, Structural)]
pub enum Operand {
    /// A general-purpose register.
    R(Reg),
    /// The xmm register with the given number.
    Xmm(u64),
    /// A signed immediate.
    Imm(i64),
    /// A 64-bit word as an immediate: a tagged value or an address.
    Imm64(u64),
    /// The address of a runtime function.
    Func(RuntimeFn),
    /// Memory at `[base + disp]`.
    Ind(Reg, i64),
    /// Memory at `[base + index * 8 + disp]`.
    Idx(Reg, Reg, i64),
    /// Memory at a label, addressed from `rip`.
    Rip(DestLabel),
    /// The address of a place in the generated code.
    Code(CodePtr),
}

/// Where a jump or call goes.
#[derive(Clone, Copy, Debug, PartialEq, Eq, Structural)]
pub enum Target {
    Label(DestLabel),
    /// The address that a register holds.
    Reg(Reg),
    /// A known absolute address of code.
    Abs(u64),
}

/// One instruction.  Two-operand instructions name the destination first.
#[derive(Clone, Copy, Debug, PartialEq, Eq, Structural)]
pub enum Inst {
    /// Binds a label to this place; emits nothing.
    Bind(DestLabel),
    Movq(Operand, Operand),
    Movl(Operand, Operand),
    Movw(Operand, Operand),
    Movzxw(Operand, Operand),
    Lea(Operand, Operand),
    Pushq(Operand),
    Popq(Operand),
    Addq(Operand, Operand),
    Addl(Operand, Operand),
    Subq(Operand, Operand),
    Subl(Operand, Operand),
    Andq(Operand, Operand),
    Andl(Operand, Operand),
    Orq(Operand, Operand),
    Xorq(Operand, Operand),
    Negq(Operand),
    Shlq(Operand, Operand),
    Shrq(Operand, Operand),
    Sarq(Operand, Operand),
    Salq(Operand, Operand),
    Rolq(Operand, Operand),
    Cmpq(Operand, Operand),
    Cmpl(Operand, Operand),
    Cmpw(Operand, Operand),
    Testq(Operand, Operand),
    Lzcntq(Operand, Operand),
    /// `setcc` on the low byte of a register.
    Setcc(Cond, Reg),
    Jcc(Cond, DestLabel),
    Jmp(Target),
    Call(Target),
    Leave,
    Ret,
    Xorps(Operand, Operand),
    Addsd(Operand, Operand),
    Subsd(Operand, Operand),
    Mulsd(Operand, Operand),
    Divsd(Operand, Operand),
    Sqrtsd(Operand, Operand),
    Ucomisd(Operand, Operand),
    Cvtsi2sdq(Operand, Operand),
}

/// A constant in the data area.  A double is kept as its IEEE-754 bits.
#[derive(Clone, Copy, Debug, PartialEq, Eq, Structural)]
pub enum Data {
    I64(i64),
    I32(i32),
    F64(u64),
}

/// What a label names.
#[derive(Clone, Copy, Debug, PartialEq, Eq, Structural)]
pub enum LabelKind {
    /// A place in the code.
    Code,
    /// A constant in the data area, with its initial value.
    Data(Data),
}

/// A place in the generated code: a page and the number of instructions
/// before it on that page.
#[derive(Clone, Copy, Debug, PartialEq, Eq, Structural)]
pub struct CodePtr {
    pub page: usize,
    pub pos: usize,
}

/// The three code pages.
#[derive(Clone, Copy, Debug, PartialEq, Eq, Structural)]
pub enum Page {
    /// The hot path.
    Main,
    /// Slow paths and calls into the runtime.
    Slow,
    /// Side exits back to the interpreter.
    Deopt,
}

impl Page {
    /// The number by which the page is selected.
    pub open spec fn index(self) -> int {
        match self {
            Page::Main => 0,
            Page::Slow => 1,
            Page::Deopt => 2,
        }
    }
}

/// The mathematical content of a [`JitMemory`].
#[verifier::ext_equal]
pub struct JitView {
    /// The main (hot) page.
    pub main: Seq<Inst>,
    /// The page of slow paths.
    pub slow: Seq<Inst>,
    /// The page of side exits.
    pub deopt: Seq<Inst>,
    /// The selected page.
    pub page: int,
    /// The labels made so far; a label's number is its index here.
    pub labels: Seq<LabelKind>,
}

impl JitView {
    pub open spec fn empty() -> JitView {
        JitView { main: seq![], slow: seq![], deopt: seq![], page: 0, labels: seq![] }
    }

    /// The instructions of page `p`.
    pub open spec fn code(self, p: int) -> Seq<Inst> {
        if p == 0 {
            self.main
        } else if p == 1 {
            self.slow
        } else {
            self.deopt
        }
    }

    /// `code` appended to the selected page.
    pub open spec fn emit(self, code: Seq<Inst>) -> JitView {
        if self.page == 0 {
            JitView { main: self.main + code, ..self }
        } else if self.page == 1 {
            JitView { slow: self.slow + code, ..self }
        } else {
            JitView { deopt: self.deopt + code, ..self }
        }
    }

    /// Page `p` selected.
    pub open spec fn select(self, p: int) -> JitView {
        JitView { page: p, ..self }
    }

    /// The label that the next call of `label` or of a `const_` function
    /// returns.
    pub open spec fn next(self) -> DestLabel {
        DestLabel(self.labels.len() as usize)
    }

    /// The label that comes `k` labels after the next one.
    pub open spec fn nth(self, k: int) -> DestLabel {
        DestLabel((self.labels.len() + k) as usize)
    }

    /// One more code label.
    pub open spec fn label(self) -> JitView {
        JitView { labels: self.labels.push(LabelKind::Code), ..self }
    }

    /// `k` more code labels.
    pub open spec fn label_n(self, k: nat) -> JitView
        decreases k,
    {
        if k == 0 {
            self
        } else {
            self.label().label_n((k - 1) as nat)
        }
    }

    /// One more label, naming a constant in the data area.
    pub open spec fn constant(self, d: Data) -> JitView {
        JitView { labels: self.labels.push(LabelKind::Data(d)), ..self }
    }

    pub open spec fn wf(self) -> bool {
        0 <= self.page < 3
    }

    /// The place where the next instruction goes.
    pub open spec fn here(self) -> CodePtr {
        CodePtr { page: self.page as usize, pos: self.code(self.page).len() as usize }
    }
}

/// The buffer that the code generator writes to.
pub struct JitMemory {
    main: Vec<Inst>,
    slow: Vec<Inst>,
    deopt: Vec<Inst>,
    page: Page,
    labels: Vec<LabelKind>,
}

impl View for JitMemory {
    type V = JitView;

    closed spec fn view(&self) -> JitView {
        JitView {
            main: self.main@,
            slow: self.slow@,
            deopt: self.deopt@,
            page: self.page.index(),
            labels: self.labels@,
        }
    }
}

impl JitMemory {
    /// An empty buffer with the main page selected.
    pub fn new() -> (jit: JitMemory)
        ensures
            jit@ == JitView::empty(),
    {
        JitMemory {
            main: Vec::new(),
            slow: Vec::new(),
            deopt: Vec::new(),
            page: Page::Main,
            labels: Vec::new(),
        }
    }

    /// Makes a new code label.
    pub fn label(&mut self) -> (l: DestLabel)
        ensures
            l == old(self)@.next(),
            final(self)@ == old(self)@.label(),
    {
        let l = DestLabel(self.labels.len());
        self.labels.push(LabelKind::Code);
        l
    }

    /// Makes a 64-bit constant in the data area.
    pub fn const_i64(&mut self, val: i64) -> (l: DestLabel)
        ensures
            l == old(self)@.next(),
            final(self)@ == old(self)@.constant(Data::I64(val)),
    {
        let l = DestLabel(self.labels.len());
        self.labels.push(LabelKind::Data(Data::I64(val)));
        l
    }

    /// Makes a 32-bit constant in the data area.
    pub fn const_i32(&mut self, val: i32) -> (l: DestLabel)
        ensures
            l == old(self)@.next(),
            final(self)@ == old(self)@.constant(Data::I32(val)),
    {
        let l = DestLabel(self.labels.len());
        self.labels.push(LabelKind::Data(Data::I32(val)));
        l
    }

    /// Makes a constant in the data area that holds the double with the given
    /// bits.
    pub fn const_f64(&mut self, bits: u64) -> (l: DestLabel)
        ensures
            l == old(self)@.next(),
            final(self)@ == old(self)@.constant(Data::F64(bits)),
    {
        let l = DestLabel(self.labels.len());
        self.labels.push(LabelKind::Data(Data::F64(bits)));
        l
    }

    /// Appends instructions to the selected page.
    pub fn emit(&mut self, code: Vec<Inst>)
        ensures
            final(self)@ == old(self)@.emit(code@),
    {
        let mut code = code;
        match self.page {
            Page::Main => self.main.append(&mut code),
            Page::Slow => self.slow.append(&mut code),
            Page::Deopt => self.deopt.append(&mut code),
        }
    }

    /// Binds `label` to the end of the selected page.
    pub fn bind_label(&mut self, label: DestLabel)
        ensures
            final(self)@ == old(self)@.emit(seq![Inst::Bind(label)]),
    {
        self.emit(vec![Inst::Bind(label)]);
    }

    /// Selects the page that the following instructions go to.
    pub fn select_page(&mut self, page: usize)
        requires
            page < 3,
        ensures
            final(self)@ == old(self)@.select(page as int),
    {
        self.page = if page == 0 {
            Page::Main
        } else if page == 1 {
            Page::Slow
        } else {
            Page::Deopt
        };
    }

    /// The selected page.
    pub fn get_page(&self) -> (p: usize)
        ensures
            p == self@.page,
            p < 3,
    {
        match self.page {
            Page::Main => 0,
            Page::Slow => 1,
            Page::Deopt => 2,
        }
    }

    /// The number of instructions on the selected page.
    pub fn get_current(&self) -> (pos: usize)
        ensures
            pos == self@.code(self@.page).len(),
    {
        match self.page {
            Page::Main => self.main.len(),
            Page::Slow => self.slow.len(),
            Page::Deopt => self.deopt.len(),
        }
    }

    /// The place where the next instruction goes.
    pub fn get_current_address(&self) -> (p: CodePtr)
        ensures
            p.page == self@.page,
            p.pos == self@.code(self@.page).len(),
            p == self@.here(),
    {
        CodePtr { page: self.get_page(), pos: self.get_current() }
    }

    /// The instructions of a page.
    pub fn page_code(&self, page: usize) -> (code: &Vec<Inst>)
        requires
            page < 3,
        ensures
            code@ == self@.code(page as int),
    {
        if page == 0 {
            &self.main
        } else if page == 1 {
            &self.slow
        } else {
            &self.deopt
        }
    }

    /// What each label names, by label number.
    pub fn labels(&self) -> (labels: &Vec<LabelKind>)
        ensures
            labels@ == self@.labels,
    {
        &self.labels
    }
}

} // verus!
