//! What a run of instructions does.
//!
//! The model covers the instructions of the tests that generated code makes
//! on values: moves between general registers, slots and data, the logical
//! and arithmetic instructions with their flags, compares, and conditional
//! jumps.  A run ends when it falls off the end of the code, when it jumps,
//! or at an instruction that the model does not cover.

use vstd::prelude::*;
use crate::assembler::{Cond, DestLabel, Inst, Operand, Reg, Target};
use crate::assembler::Inst::{Addq, Andq, Bind, Call, Jcc, Jmp, Movl, Movq, Orq, Rolq, Sarq, Subq, Testq, Xorps};
use crate::assembler::Operand::{Imm, Imm64, Rip, Xmm, R};
use crate::assembler::Reg::{R15, Rax, Rdi, Rsi};
use crate::cache::bumped;
use crate::bbctx::WriteBackView;
use crate::codegen::jitgen::BinOpMode;
use crate::codegen::method_call::call_guard_code;
use crate::codegen::CodegenView;
use crate::frame::slot;
use crate::ids::{BcPc, SlotId};
use crate::inst::BinOpK;
use crate::inst::BrKind;
use crate::value::{
    fixnum_raw, fixnum_value, flonum_inline, flonum_word, is_i63, is_zero_bits, lemma_float_round_trip,
    lemma_truthy, unpack_flonum, Kind, Value, FALSE_VALUE, FLOAT_ZERO,
};

verus! {

/// The state of the processor as far as the model goes: the general and xmm
/// registers, the words of memory by their address, the words at data
/// labels, and the flags.
pub struct Cpu {
    pub regs: Map<Reg, u64>,
    /// The xmm registers, by their number: the bits of the double in each.
    pub xmm: Map<u64, u64>,
    pub mem: Map<u64, u64>,
    pub data: Map<DestLabel, u64>,
    pub zf: bool,
    pub sf: bool,
    pub of: bool,
    pub cf: bool,
}

/// How a run ends.
pub enum After {
    /// The run fell off the end of the code.
    Done(Cpu),
    /// The run jumped to the label.
    Jump(DestLabel, Cpu),
    /// The run met an instruction that the model does not cover.
    Stuck,
}

/// The word as a signed number.
pub open spec fn signed(x: u64) -> int {
    if x < 0x8000_0000_0000_0000 {
        x as int
    } else {
        x as int - 0x1_0000_0000_0000_0000
    }
}

/// The number as a word, in two's complement.
pub open spec fn wrapped(i: int) -> u64 {
    (i % 0x1_0000_0000_0000_0000) as u64
}

/// The low half of a word.
pub open spec fn low32(x: u64) -> u64 {
    (x % 0x1_0000_0000) as u64
}

/// The number fits in a signed word.
pub open spec fn fits_i64(i: int) -> bool {
    -0x8000_0000_0000_0000 <= i < 0x8000_0000_0000_0000
}

/// The address of the memory operand `[base + disp]`.
pub open spec fn address(cpu: Cpu, base: Reg, disp: i64) -> u64 {
    wrapped(cpu.regs[base] + disp)
}

/// The address of a slot of the current frame.
pub open spec fn slot_address(cpu: Cpu, reg: SlotId) -> u64 {
    wrapped(cpu.regs[Reg::Rbp] - (reg.0 * 8 + 40))
}

/// The word that an operand stands for.
pub open spec fn read(cpu: Cpu, o: Operand) -> Option<u64> {
    match o {
        Operand::R(r) => Some(cpu.regs[r]),
        Operand::Xmm(x) => Some(cpu.xmm[x]),
        Operand::Imm(i) => Some(wrapped(i as int)),
        Operand::Imm64(u) => Some(u),
        Operand::Ind(base, disp) => Some(cpu.mem[address(cpu, base, disp)]),
        Operand::Rip(l) => Some(cpu.data[l]),
        _ => None,
    }
}

/// The state after a word was written to an operand.
pub open spec fn written(cpu: Cpu, o: Operand, v: u64) -> Option<Cpu> {
    match o {
        Operand::R(r) => Some(Cpu { regs: cpu.regs.insert(r, v), ..cpu }),
        Operand::Xmm(x) => Some(Cpu { xmm: cpu.xmm.insert(x, v), ..cpu }),
        Operand::Ind(base, disp) => Some(Cpu { mem: cpu.mem.insert(address(cpu, base, disp), v), ..cpu }),
        Operand::Rip(l) => Some(Cpu { data: cpu.data.insert(l, v), ..cpu }),
        _ => None,
    }
}

/// The flags after a logical instruction with the result `v`.
pub open spec fn logic_flags(cpu: Cpu, v: u64) -> Cpu {
    Cpu { zf: v == 0, sf: v >= 0x8000_0000_0000_0000, of: false, cf: false, ..cpu }
}

/// The flags after `a + b`.
pub open spec fn add_flags(cpu: Cpu, a: u64, b: u64) -> Cpu {
    let v = wrapped(a + b);
    Cpu {
        zf: v == 0,
        sf: v >= 0x8000_0000_0000_0000,
        of: !fits_i64(signed(a) + signed(b)),
        cf: a + b >= 0x1_0000_0000_0000_0000,
        ..cpu
    }
}

/// The flags after `a - b`.
pub open spec fn sub_flags(cpu: Cpu, a: u64, b: u64) -> Cpu {
    let v = wrapped(a - b);
    Cpu {
        zf: v == 0,
        sf: v >= 0x8000_0000_0000_0000,
        of: !fits_i64(signed(a) - signed(b)),
        cf: a < b,
        ..cpu
    }
}

/// The condition holds of the flags.
pub open spec fn holds(cpu: Cpu, c: Cond) -> bool {
    match c {
        Cond::Eq => cpu.zf,
        Cond::Ne => !cpu.zf,
        Cond::Lt => cpu.sf != cpu.of,
        Cond::Le => cpu.zf || cpu.sf != cpu.of,
        Cond::Gt => !cpu.zf && cpu.sf == cpu.of,
        Cond::Ge => cpu.sf == cpu.of,
        Cond::A => !cpu.cf && !cpu.zf,
        Cond::Ae => !cpu.cf,
        Cond::B => cpu.cf,
        Cond::Be => cpu.cf || cpu.zf,
        Cond::O => cpu.of,
        Cond::S => cpu.sf,
        Cond::Ns => !cpu.sf,
        _ => false,
    }
}

/// The state after an instruction with two operands, given the words that
/// they stand for.
#[verifier::opaque]
pub open spec fn step2(cpu: Cpu, inst: Inst, d: Operand, a: u64, b: u64) -> Option<Cpu> {
    match inst {
        Inst::Movq(_, _) => written(cpu, d, b),
        Inst::Movl(_, _) => if d is R {
            written(cpu, d, low32(b))
        } else {
            None
        },
        Inst::Orq(_, _) => written(logic_flags(cpu, a | b), d, a | b),
        Inst::Andq(_, _) => written(logic_flags(cpu, a & b), d, a & b),
        Inst::Xorq(_, _) => written(logic_flags(cpu, a ^ b), d, a ^ b),
        Inst::Addq(_, _) => written(add_flags(cpu, a, b), d, wrapped(a + b)),
        Inst::Subq(_, _) => written(sub_flags(cpu, a, b), d, wrapped(a - b)),
        Inst::Cmpq(_, _) => Some(sub_flags(cpu, a, b)),
        Inst::Cmpl(_, _) => Some(Cpu { zf: low32(a) == low32(b), cf: low32(a) < low32(b), ..cpu }),
        Inst::Testq(_, _) => Some(logic_flags(cpu, a & b)),
        Inst::Xorps(_, _) => written(cpu, d, a ^ b),
        Inst::Sarq(_, _) => if b < 64 {
            written(logic_flags(cpu, sar(a, b)), d, sar(a, b))
        } else {
            None
        },
        Inst::Rolq(_, _) => if 0 < b < 64 {
            written(cpu, d, rol(a, b))
        } else {
            None
        },
        _ => None,
    }
}

/// The word shifted right by `n` places with its sign kept.
pub open spec fn sar(a: u64, n: u64) -> u64 {
    if a < 0x8000_0000_0000_0000 {
        a >> n
    } else {
        !((!a) >> n)
    }
}

/// The word rotated left by `n` places.
pub open spec fn rol(a: u64, n: u64) -> u64 {
    (a << n) | (a >> ((64 - n) as u64))
}

/// The operands of an instruction with two operands.
pub open spec fn operands(inst: Inst) -> Option<(Operand, Operand)> {
    match inst {
        Inst::Movq(d, s) => Some((d, s)),
        Inst::Movl(d, s) => Some((d, s)),
        Inst::Orq(d, s) => Some((d, s)),
        Inst::Andq(d, s) => Some((d, s)),
        Inst::Xorq(d, s) => Some((d, s)),
        Inst::Addq(d, s) => Some((d, s)),
        Inst::Subq(d, s) => Some((d, s)),
        Inst::Cmpq(d, s) => Some((d, s)),
        Inst::Cmpl(d, s) => Some((d, s)),
        Inst::Testq(d, s) => Some((d, s)),
        Inst::Xorps(d, s) => Some((d, s)),
        Inst::Sarq(d, s) => Some((d, s)),
        Inst::Rolq(d, s) => Some((d, s)),
        _ => None,
    }
}

/// The state after one instruction that does not jump.
#[verifier::opaque]
pub open spec fn step(cpu: Cpu, inst: Inst) -> Option<Cpu> {
    match operands(inst) {
        Some((d, s)) => match (
            if inst is Movq || inst is Movl {
                Some(0u64)
            } else {
                read(cpu, d)
            },
            read(cpu, s),
        ) {
            (Some(a), Some(b)) => step2(cpu, inst, d, a, b),
            _ => None,
        },
        None => if inst is Bind {
            Some(cpu)
        } else {
            None
        },
    }
}

/// The run of the code from the instruction `i` on.
pub open spec fn run(cpu: Cpu, code: Seq<Inst>, i: int) -> After
    decreases code.len() - i,
{
    if i < 0 || i >= code.len() {
        After::Done(cpu)
    } else {
        match code[i] {
            Inst::Jcc(c, l) => if holds(cpu, c) {
                After::Jump(l, cpu)
            } else {
                run(cpu, code, i + 1)
            },
            Inst::Jmp(Target::Label(l)) => After::Jump(l, cpu),
            inst => match step(cpu, inst) {
                Some(next) => run(next, code, i + 1),
                None => After::Stuck,
            },
        }
    }
}

/// The code of a conditional branch on a slot.
pub open spec fn cond_br_code(reg: SlotId, dest: DestLabel, kind: BrKind) -> Seq<Inst> {
    seq![
        Movq(R(Rax), slot(reg)),
        Orq(R(Rax), Imm(0x10)),
        Inst::Cmpq(R(Rax), Imm64(FALSE_VALUE)),
        Jcc(
            match kind {
                BrKind::BrIf => Cond::Ne,
                BrKind::BrIfNot => Cond::Eq,
            },
            dest,
        ),
    ]
}

/// A conditional branch treats `nil` and `false` as false and every other
/// value as true: the branch on a true condition is taken where the slot
/// holds neither, the branch on a false condition where it holds one of
/// them.  Nothing but `rax` and the flags is changed.
pub proof fn lemma_cond_br(cpu: Cpu, reg: SlotId, dest: DestLabel, kind: BrKind)
    ensures
        ({
            let v = cpu.mem[slot_address(cpu, reg)];
            let taken = (kind is BrIf) == Value(v).truthy();
            match run(cpu, cond_br_code(reg, dest, kind), 0) {
                After::Jump(l, end) => taken && l == dest && end.mem == cpu.mem && end.data == cpu.data,
                After::Done(end) => !taken && end.mem == cpu.mem && end.data == cpu.data,
                After::Stuck => false,
            }
        }),
{
    reveal(step);
    reveal(step2);
    let code = cond_br_code(reg, dest, kind);
    let at = slot_address(cpu, reg);
    let v = cpu.mem[at];
    let w = v | 0x10;
    lemma_truthy(v);
    let s1 = Cpu { regs: cpu.regs.insert(Reg::Rax, v), ..cpu };
    let s2 = Cpu { regs: s1.regs.insert(Reg::Rax, w), ..logic_flags(s1, w) };
    let s3 = sub_flags(s2, w, 0x14);
    assert(slot(reg) == Operand::Ind(Reg::Rbp, (-(reg.0 * 8 + 40)) as i64));
    assert(read(cpu, slot(reg)) == Some(v));
    assert(step(cpu, code[0]) == Some(s1));
    assert(wrapped(0x10) == 0x10);
    assert(step(s1, code[1]) == Some(s2));
    assert(step(s2, code[2]) == Some(s3));
    assert(s3.zf == (w == 0x14)) by {
        if w >= 0x14 {
            assert(wrapped(w - 0x14) == (w - 0x14) as u64);
        } else {
            assert(wrapped(w - 0x14) == (w - 0x14 + 0x1_0000_0000_0000_0000) as u64);
        }
    }
    assert(run(s3, code, 3) == if holds(s3, code[3]->Jcc_0) {
        After::Jump(dest, s3)
    } else {
        After::Done(s3)
    }) by {
        reveal_with_fuel(run, 2);
    }
    assert(run(s2, code, 2) == run(s3, code, 3)) by {
        reveal_with_fuel(run, 1);
    }
    assert(run(s1, code, 1) == run(s2, code, 2)) by {
        reveal_with_fuel(run, 1);
    }
    assert(run(cpu, code, 0) == run(s1, code, 1)) by {
        reveal_with_fuel(run, 1);
    }
}

/// Code that is emitted in two parts is the code that is emitted at once.
pub proof fn lemma_emit_twice(c: CodegenView, a: Seq<Inst>, b: Seq<Inst>)
    ensures
        c.emit(a).emit(b) == c.emit(a + b),
{
    let x = c.emit(a).emit(b);
    let y = c.emit(a + b);
    assert(x.jit.main =~= y.jit.main);
    assert(x.jit.slow =~= y.jit.slow);
    assert(x.jit.deopt =~= y.jit.deopt);
    assert(x.jit == y.jit);
}

/// What the rule of a conditional branch emits is the code of which
/// `lemma_cond_br` speaks.
pub proof fn lemma_cond_br_emitted(c: CodegenView, reg: SlotId, dest: DestLabel, kind: BrKind)
    ensures
        c.gen_cond_br(reg, dest, kind) == c.emit(cond_br_code(reg, dest, kind)),
{
    reveal(CodegenView::gen_cond_br);
    let head = seq![Movq(R(Rax), slot(reg)), Orq(R(Rax), Imm(0x10)), Inst::Cmpq(R(Rax), Imm64(FALSE_VALUE))];
    let tail = seq![
        Jcc(
            match kind {
                BrKind::BrIf => Cond::Ne,
                BrKind::BrIfNot => Cond::Eq,
            },
            dest,
        ),
    ];
    lemma_emit_twice(c, head, tail);
    assert(head + tail =~= cond_br_code(reg, dest, kind));
}

/// The guard of a call site lets the cached target be called only where the
/// class of the receiver is the cached class and the global class version
/// is the cached version.  In every other state the site leaves for the
/// slow path, where the method is resolved anew.  The guard changes no
/// cache word.
pub proof fn lemma_call_guard(
    cpu: Cpu,
    class: DestLabel,
    version: DestLabel,
    global: DestLabel,
    slow: DestLabel,
    resolved: DestLabel,
)
    ensures
        ({
            let hit = low32(cpu.regs[Reg::R15]) == low32(cpu.data[class]) && low32(cpu.data[global]) == low32(
                cpu.data[version],
            );
            match run(cpu, call_guard_code(class, version, global, slow, resolved), 0) {
                After::Done(end) => hit && end.data == cpu.data && end.mem == cpu.mem,
                After::Jump(l, end) => !hit && l == slow && end.data == cpu.data && end.mem == cpu.mem,
                After::Stuck => false,
            }
        }),
{
    reveal(step);
    reveal(step2);
    let code = call_guard_code(class, version, global, slow, resolved);
    let r15 = cpu.regs[Reg::R15];
    let s1 = Cpu { zf: low32(r15) == low32(cpu.data[class]), cf: low32(r15) < low32(cpu.data[class]), ..cpu };
    let g = low32(cpu.data[global]);
    let s2 = Cpu { regs: s1.regs.insert(Reg::Rax, g), ..s1 };
    let s3 = Cpu { zf: low32(cpu.data[version]) == low32(g), cf: low32(cpu.data[version]) < low32(g), ..s2 };
    assert(low32(g) == g);
    assert(step(cpu, code[0]) == Some(s1));
    assert(step(s1, code[2]) == Some(s2));
    assert(step(s2, code[3]) == Some(s3));
    assert(step(s3, code[5]) == Some(s3));
    assert(run(s3, code, 5) == After::Done(s3)) by {
        reveal_with_fuel(run, 2);
    }
    assert(run(s3, code, 4) == if s3.zf {
        After::Done(s3)
    } else {
        After::Jump(slow, s3)
    }) by {
        reveal_with_fuel(run, 1);
    }
    assert(run(s2, code, 3) == run(s3, code, 4)) by {
        reveal_with_fuel(run, 1);
    }
    assert(run(s1, code, 2) == run(s2, code, 3)) by {
        reveal_with_fuel(run, 1);
    }
    assert(run(s1, code, 1) == if s1.zf {
        run(s1, code, 2)
    } else {
        After::Jump(slow, s1)
    }) by {
        reveal_with_fuel(run, 1);
    }
    assert(run(cpu, code, 0) == run(s1, code, 1)) by {
        reveal_with_fuel(run, 1);
    }
}

/// No stale call: a site whose cache was filled at some class version
/// leaves for the slow path, whatever the receiver, once the global version
/// was bumped, as long as it was bumped fewer than 2^32 times.
pub proof fn lemma_no_stale_call(
    cpu: Cpu,
    class: DestLabel,
    version: DestLabel,
    global: DestLabel,
    slow: DestLabel,
    resolved: DestLabel,
    filled_at: u32,
    k: nat,
)
    requires
        0 < k < 0x1_0000_0000,
        cpu.data[version] == filled_at,
        cpu.data[global] == bumped(filled_at, k),
    ensures
        run(cpu, call_guard_code(class, version, global, slow, resolved), 0) matches After::Jump(l, _) && l == slow,
{
    lemma_call_guard(cpu, class, version, global, slow, resolved);
    crate::cache::lemma_bumped(filled_at, k);
    let v = filled_at as int;
    assert((v + k) % 0x1_0000_0000 != v) by (nonlinear_arith)
        requires
            0 <= v < 0x1_0000_0000,
            0 < k < 0x1_0000_0000,
    ;
}

/// The fast path of the addition of two slots under integer feedback.
pub open spec fn fixnum_add_code(ret: SlotId, lhs: SlotId, rhs: SlotId, deopt: DestLabel) -> Seq<Inst> {
    seq![
        Movq(R(Rdi), slot(lhs)),
        Movq(R(Rsi), slot(rhs)),
        Testq(R(Rdi), Imm(1)),
        Jcc(Cond::Eq, deopt),
        Testq(R(Rsi), Imm(1)),
        Jcc(Cond::Eq, deopt),
        Subq(R(Rdi), Imm(1)),
        Addq(R(Rdi), R(Rsi)),
        Jcc(Cond::O, deopt),
        Movq(slot(ret), R(Rdi)),
    ]
}

/// A tagged word of a small integer is odd, and twice the integer plus one
/// as a signed number.
pub proof fn lemma_tagged(raw: u64)
    requires
        raw & 1 == 1,
    ensures
        signed(raw) == 2 * fixnum_value(raw) + 1,
        raw >= 1,
        is_i63(fixnum_value(raw)),
{
    assert(raw & 1 == 1 ==> raw % 2 == 1) by (bit_vector);
}

/// What the single instructions of the fast path do.
pub proof fn lemma_steps(cpu: Cpu, r: Reg, q: Reg, s: SlotId)
    ensures
        step(cpu, Movq(R(r), slot(s))) == Some(
            Cpu { regs: cpu.regs.insert(r, cpu.mem[slot_address(cpu, s)]), ..cpu },
        ),
        step(cpu, Movq(slot(s), R(r))) == Some(
            Cpu { mem: cpu.mem.insert(slot_address(cpu, s), cpu.regs[r]), ..cpu },
        ),
        step(cpu, Testq(R(r), Imm(1))) == Some(logic_flags(cpu, cpu.regs[r] & 1)),
        step(cpu, Subq(R(r), Imm(1))) == Some(
            Cpu { regs: cpu.regs.insert(r, wrapped(cpu.regs[r] - 1)), ..sub_flags(cpu, cpu.regs[r], 1) },
        ),
        step(cpu, Addq(R(r), R(q))) == Some(
            Cpu {
                regs: cpu.regs.insert(r, wrapped(cpu.regs[r] + cpu.regs[q])),
                ..add_flags(cpu, cpu.regs[r], cpu.regs[q])
            },
        ),
{
    reveal(step);
    reveal(step2);
    assert(slot(s) == Operand::Ind(Reg::Rbp, (-(s.0 * 8 + 40)) as i64));
    assert(wrapped(1) == 1);
}

/// A run goes on after an instruction that does not jump.
pub proof fn lemma_next(cpu: Cpu, next: Cpu, code: Seq<Inst>, i: int)
    requires
        0 <= i < code.len(),
        !(code[i] is Jcc),
        !(code[i] is Jmp),
        step(cpu, code[i]) == Some(next),
    ensures
        run(cpu, code, i) == run(next, code, i + 1),
{
    reveal_with_fuel(run, 1);
}

/// A run jumps at a conditional jump whose condition holds, and goes on
/// where it does not.
pub proof fn lemma_branch(cpu: Cpu, code: Seq<Inst>, i: int)
    requires
        0 <= i < code.len(),
        code[i] is Jcc,
    ensures
        run(cpu, code, i) == if holds(cpu, code[i]->Jcc_0) {
            After::Jump(code[i]->Jcc_1, cpu)
        } else {
            run(cpu, code, i + 1)
        },
{
    reveal_with_fuel(run, 1);
}

/// A run ends where the code ends.
pub proof fn lemma_end(cpu: Cpu, code: Seq<Inst>)
    ensures
        run(cpu, code, code.len() as int) == After::Done(cpu),
{
    reveal_with_fuel(run, 1);
}

/// The tagged sum of two tagged words: the addition of the first word less
/// one and the second overflows exactly where the sum of the integers is no
/// small integer, and gives the tagged word of the sum else.
pub proof fn lemma_tagged_sum(a: u64, b: u64)
    requires
        a & 1 == 1,
        b & 1 == 1,
    ensures
        a >= 1,
        wrapped(a - 1) == a - 1,
        fits_i64(signed((a - 1) as u64) + signed(b)) == is_i63(fixnum_value(a) + fixnum_value(b)),
        is_i63(fixnum_value(a) + fixnum_value(b)) ==> wrapped(a - 1 + b) == fixnum_raw(
            fixnum_value(a) + fixnum_value(b),
        ),
{
    lemma_tagged(a);
    lemma_tagged(b);
    let x = fixnum_value(a);
    let y = fixnum_value(b);
    let a1 = (a - 1) as u64;
    assert(signed(a1) == 2 * x);
    if is_i63(x + y) {
        let t = 2 * (x + y) + 1;
        assert(a1 + b == t || a1 + b == t + 0x1_0000_0000_0000_0000 || a1 + b == t + 0x2_0000_0000_0000_0000);
        if t >= 0 {
            assert(t % 0x1_0000_0000_0000_0000 == t);
            assert((t + 0x1_0000_0000_0000_0000) % 0x1_0000_0000_0000_0000 == t);
            assert((t + 0x2_0000_0000_0000_0000) % 0x1_0000_0000_0000_0000 == t);
        } else {
            let u = t + 0x1_0000_0000_0000_0000;
            assert(u % 0x1_0000_0000_0000_0000 == u);
            assert((u + 0x1_0000_0000_0000_0000) % 0x1_0000_0000_0000_0000 == u);
            assert(a1 + b != t);
        }
    }
}

/// The fast path of an integer addition stores the sum where both slots
/// hold small integers and the sum is a small integer, and changes nothing
/// else in memory.  In every other case it leaves through the side exit and
/// changes nothing in memory.
pub proof fn lemma_fixnum_add(cpu: Cpu, ret: SlotId, lhs: SlotId, rhs: SlotId, deopt: DestLabel)
    ensures
        ({
            let a = cpu.mem[slot_address(cpu, lhs)];
            let b = cpu.mem[slot_address(cpu, rhs)];
            let fast = a & 1 == 1 && b & 1 == 1 && is_i63(fixnum_value(a) + fixnum_value(b));
            match run(cpu, fixnum_add_code(ret, lhs, rhs, deopt), 0) {
                After::Done(end) => fast && end.mem == cpu.mem.insert(
                    slot_address(cpu, ret),
                    fixnum_raw(fixnum_value(a) + fixnum_value(b)),
                ),
                After::Jump(l, end) => !fast && l == deopt && end.mem == cpu.mem,
                After::Stuck => false,
            }
        }),
{
    let code = fixnum_add_code(ret, lhs, rhs, deopt);
    let a = cpu.mem[slot_address(cpu, lhs)];
    let b = cpu.mem[slot_address(cpu, rhs)];
    let s1 = Cpu { regs: cpu.regs.insert(Reg::Rdi, a), ..cpu };
    let s2 = Cpu { regs: s1.regs.insert(Reg::Rsi, b), ..s1 };
    let s3 = logic_flags(s2, a & 1);
    let s5 = logic_flags(s3, b & 1);
    lemma_steps(cpu, Reg::Rdi, Reg::Rsi, lhs);
    lemma_steps(s1, Reg::Rsi, Reg::Rdi, rhs);
    lemma_steps(s2, Reg::Rdi, Reg::Rsi, lhs);
    lemma_steps(s3, Reg::Rsi, Reg::Rdi, lhs);
    assert(slot_address(s1, rhs) == slot_address(cpu, rhs));
    lemma_next(cpu, s1, code, 0);
    lemma_next(s1, s2, code, 1);
    lemma_next(s2, s3, code, 2);
    lemma_branch(s3, code, 3);
    lemma_next(s3, s5, code, 4);
    lemma_branch(s5, code, 5);
    assert(a & 1 == 0 || a & 1 == 1) by (bit_vector);
    assert(b & 1 == 0 || b & 1 == 1) by (bit_vector);
    if a & 1 == 1 && b & 1 == 1 {
        lemma_tagged_sum(a, b);
        let a1 = (a - 1) as u64;
        let sum = wrapped(a1 + b);
        let s6 = Cpu { regs: s5.regs.insert(Reg::Rdi, a1), ..sub_flags(s5, a, 1) };
        let s7 = Cpu { regs: s6.regs.insert(Reg::Rdi, sum), ..add_flags(s6, a1, b) };
        let s9 = Cpu { mem: s7.mem.insert(slot_address(cpu, ret), sum), ..s7 };
        lemma_steps(s5, Reg::Rdi, Reg::Rsi, lhs);
        lemma_steps(s6, Reg::Rdi, Reg::Rsi, lhs);
        lemma_steps(s7, Reg::Rdi, Reg::Rsi, ret);
        assert(slot_address(s7, ret) == slot_address(cpu, ret));
        lemma_next(s5, s6, code, 6);
        lemma_next(s6, s7, code, 7);
        lemma_branch(s7, code, 8);
        lemma_next(s7, s9, code, 9);
        lemma_end(s9, code);
    }
}

/// What the rule of an addition under integer feedback emits, after the
/// code of its side exit, is the code of which `lemma_fixnum_add` speaks,
/// with the side exit as the place to leave for.
pub proof fn lemma_fixnum_add_emitted(
    c: CodegenView,
    pc: BcPc,
    ret: SlotId,
    lhs: SlotId,
    rhs: SlotId,
    wb: WriteBackView,
    xmm_using: Seq<usize>,
)
    ensures
        c.gen_binop_integer(pc, BinOpK::Add, ret, BinOpMode::RR(lhs, rhs), wb, xmm_using) == c.gen_side_deopt_dest(
            pc,
            wb,
        ).emit(fixnum_add_code(ret, lhs, rhs, c.nth(0))),
{
    reveal(CodegenView::gen_binop_integer);
    reveal(CodegenView::load_guard_binary_fixnum);
    let deopt = c.nth(0);
    let d = c.gen_side_deopt_dest(pc, wb);
    let p1 = seq![Movq(R(Rdi), slot(lhs)), Movq(R(Rsi), slot(rhs))];
    let p2 = seq![Testq(R(Rdi), Imm(1)), Jcc(Cond::Eq, deopt)];
    let p3 = seq![Testq(R(Rsi), Imm(1)), Jcc(Cond::Eq, deopt)];
    let p4 = seq![Subq(R(Rdi), Imm(1)), Addq(R(Rdi), R(Rsi)), Jcc(Cond::O, deopt)];
    let p5 = seq![Movq(slot(ret), R(Rdi))];
    lemma_emit_twice(d, p1, p2);
    lemma_emit_twice(d, p1 + p2, p3);
    lemma_emit_twice(d, p1 + p2 + p3, p4);
    lemma_emit_twice(d, p1 + p2 + p3 + p4, p5);
    assert(p1 + p2 + p3 + p4 + p5 =~= fixnum_add_code(ret, lhs, rhs, deopt));
}

/// The code that brings the float that the value in `rdi` holds into an xmm
/// register, and leaves for `side_exit` where the value holds none.
pub open spec fn val_to_f64_code(
    xmm: u64,
    side_exit: DestLabel,
    entry: DestLabel,
    heap: DestLabel,
    exit: DestLabel,
    heap_to_f64: DestLabel,
) -> Seq<Inst> {
    seq![
        Bind(entry),
        Testq(R(Rdi), Imm(1)),
        Jcc(Cond::Ne, side_exit),
        Testq(R(Rdi), Imm(2)),
        Jcc(Cond::Eq, heap),
        Xorps(Xmm(xmm), Xmm(xmm)),
        Movq(R(Rax), Imm64(FLOAT_ZERO)),
        Inst::Cmpq(R(Rdi), R(Rax)),
        Jcc(Cond::Eq, exit),
        Movq(R(Rax), R(Rdi)),
        Sarq(R(Rax), Imm(63)),
        Addq(R(Rax), Imm(2)),
        Andq(R(Rdi), Imm(crate::codegen::MASK_TAG)),
        Orq(R(Rdi), R(Rax)),
        Rolq(R(Rdi), Imm(61)),
        Movq(Xmm(xmm), R(Rdi)),
        Jmp(Target::Label(exit)),
        Bind(heap),
        Call(Target::Label(heap_to_f64)),
        Testq(R(Rax), R(Rax)),
        Jcc(Cond::Eq, side_exit),
        Movq(Xmm(xmm), Xmm(0)),
        Bind(exit),
    ]
}

/// What the code of unboxing does to the bits of a word that holds a float
/// inline.
pub proof fn lemma_unpack_bits(raw: u64)
    requires
        raw & 3 == 2,
    ensures
        raw & 1 == 0,
        raw & 2 != 0,
        raw != FLOAT_ZERO ==> rol(
            (raw & 0xffff_ffff_ffff_fffc) | wrapped(sar(raw, 63) + 2),
            61,
        ) == unpack_flonum(raw),
{
    assert(raw & 3 == 2 ==> raw & 1 == 0 && raw & 2 != 0) by (bit_vector);
    let top = raw >> 63;
    assert(top == 0 || top == 1) by (bit_vector)
        requires
            top == raw >> 63,
    ;
    let ext = sar(raw, 63);
    assert(ext == if raw < 0x8000_0000_0000_0000 {
        0
    } else {
        0xffff_ffff_ffff_ffffu64
    }) by (bit_vector)
        requires
            ext == if raw < 0x8000_0000_0000_0000 {
                raw >> 63
            } else {
                !((!raw) >> 63)
            },
    ;
    assert((raw < 0x8000_0000_0000_0000) == (top == 0)) by (bit_vector)
        requires
            top == raw >> 63,
    ;
    let low = wrapped(ext + 2);
    assert(low == (2 - top) as u64);
    let w = (raw & 0xffff_ffff_ffff_fffc) | low;
    assert(0xffff_ffff_ffff_fffcu64 == !3u64) by (bit_vector);
    assert((w << 61) | (w >> 3) == (w >> 3) | (w << 61)) by (bit_vector);
}

/// The state after an instruction with two operands is what `step2` gives
/// for the words that the operands stand for.
pub proof fn lemma_step2(cpu: Cpu, inst: Inst, d: Operand, s: Operand, a: u64, b: u64)
    requires
        operands(inst) == Some((d, s)),
        read(cpu, s) == Some(b),
        inst is Movq || inst is Movl || read(cpu, d) == Some(a),
        inst is Movq || inst is Movl ==> a == 0,
    ensures
        step(cpu, inst) == step2(cpu, inst, d, a, b),
{
    reveal(step);
    reveal(step2);
}

/// What `step2` gives for the instructions of the unboxing code.
pub proof fn lemma_kinds(cpu: Cpu, d: Operand, s: Operand, a: u64, b: u64)
    ensures
        step2(cpu, Movq(d, s), d, a, b) == written(cpu, d, b),
        step2(cpu, Testq(d, s), d, a, b) == Some(logic_flags(cpu, a & b)),
        step2(cpu, Inst::Cmpq(d, s), d, a, b) == Some(sub_flags(cpu, a, b)),
        step2(cpu, Xorps(d, s), d, a, b) == written(cpu, d, a ^ b),
        b < 64 ==> step2(cpu, Sarq(d, s), d, a, b) == written(logic_flags(cpu, sar(a, b)), d, sar(a, b)),
        0 < b < 64 ==> step2(cpu, Rolq(d, s), d, a, b) == written(cpu, d, rol(a, b)),
        step2(cpu, Addq(d, s), d, a, b) == written(add_flags(cpu, a, b), d, wrapped(a + b)),
        step2(cpu, Andq(d, s), d, a, b) == written(logic_flags(cpu, a & b), d, a & b),
        step2(cpu, Orq(d, s), d, a, b) == written(logic_flags(cpu, a | b), d, a | b),
{
    reveal(step2);
}

/// The part of the unboxing code that unpacks the word of an inline float.
#[verifier::rlimit(40)]
proof fn lemma_unbox_unpack(s3: Cpu, code: Seq<Inst>, xmm: u64, exit: DestLabel)
    requires
        s3.regs[Reg::Rdi] & 3 == 2,
        code.len() >= 17,
        code[5] == Xorps(Xmm(xmm), Xmm(xmm)),
        code[6] == Movq(R(Rax), Imm64(FLOAT_ZERO)),
        code[7] == Inst::Cmpq(R(Rdi), R(Rax)),
        code[8] == Jcc(Cond::Eq, exit),
        code[9] == Movq(R(Rax), R(Rdi)),
        code[10] == Sarq(R(Rax), Imm(63)),
        code[11] == Addq(R(Rax), Imm(2)),
        code[12] == Andq(R(Rdi), Imm(crate::codegen::MASK_TAG)),
        code[13] == Orq(R(Rdi), R(Rax)),
        code[14] == Rolq(R(Rdi), Imm(61)),
        code[15] == Movq(Xmm(xmm), R(Rdi)),
        code[16] == Jmp(Target::Label(exit)),
    ensures
        run(s3, code, 5) matches After::Jump(l, end) && l == exit && end.xmm[xmm] == unpack_flonum(
            s3.regs[Reg::Rdi],
        ) && end.mem == s3.mem && end.data == s3.data,
{
    let raw = s3.regs[Reg::Rdi];
    lemma_unpack_bits(raw);
    assert(wrapped(2) == 2 && wrapped(63) == 63 && wrapped(61) == 61);
    assert(wrapped(-4) == 0xffff_ffff_ffff_fffc);
    let s5 = Cpu { xmm: s3.xmm.insert(xmm, 0), ..s3 };
    assert(s3.xmm[xmm] ^ s3.xmm[xmm] == 0) by {
        let v = s3.xmm[xmm];
        assert(v ^ v == 0) by (bit_vector);
    }
    lemma_step2(s3, code[5], Xmm(xmm), Xmm(xmm), s3.xmm[xmm], s3.xmm[xmm]);
    lemma_kinds(s3, Xmm(xmm), Xmm(xmm), s3.xmm[xmm], s3.xmm[xmm]);
    lemma_next(s3, s5, code, 5);
    let s6 = Cpu { regs: s5.regs.insert(Reg::Rax, FLOAT_ZERO), ..s5 };
    lemma_step2(s5, code[6], R(Rax), Imm64(FLOAT_ZERO), 0, FLOAT_ZERO);
    lemma_kinds(s5, R(Rax), Imm64(FLOAT_ZERO), 0, FLOAT_ZERO);
    lemma_next(s5, s6, code, 6);
    let s7 = sub_flags(s6, raw, FLOAT_ZERO);
    lemma_step2(s6, code[7], R(Rdi), R(Rax), raw, FLOAT_ZERO);
    lemma_kinds(s6, R(Rdi), R(Rax), raw, FLOAT_ZERO);
    lemma_next(s6, s7, code, 7);
    lemma_branch(s7, code, 8);
    assert(s7.zf == (raw == FLOAT_ZERO)) by {
        if raw >= FLOAT_ZERO {
            assert(wrapped(raw - FLOAT_ZERO) == (raw - FLOAT_ZERO) as u64);
        } else {
            assert(wrapped(raw - FLOAT_ZERO) == (raw - FLOAT_ZERO + 0x1_0000_0000_0000_0000) as u64);
        }
    }
    if raw != FLOAT_ZERO {
        lemma_unbox_rotate(s7, code, xmm, exit);
    }
}

/// The part of the unboxing code that puts the two exponent bits back.
#[verifier::rlimit(40)]
proof fn lemma_unbox_rotate(s7: Cpu, code: Seq<Inst>, xmm: u64, exit: DestLabel)
    requires
        s7.regs[Reg::Rdi] & 3 == 2,
        s7.regs[Reg::Rdi] != FLOAT_ZERO,
        code.len() >= 17,
        code[9] == Movq(R(Rax), R(Rdi)),
        code[10] == Sarq(R(Rax), Imm(63)),
        code[11] == Addq(R(Rax), Imm(2)),
        code[12] == Andq(R(Rdi), Imm(crate::codegen::MASK_TAG)),
        code[13] == Orq(R(Rdi), R(Rax)),
        code[14] == Rolq(R(Rdi), Imm(61)),
        code[15] == Movq(Xmm(xmm), R(Rdi)),
        code[16] == Jmp(Target::Label(exit)),
    ensures
        run(s7, code, 9) matches After::Jump(l, end) && l == exit && end.xmm[xmm] == unpack_flonum(
            s7.regs[Reg::Rdi],
        ) && end.mem == s7.mem && end.data == s7.data,
{
    let raw = s7.regs[Reg::Rdi];
    lemma_unpack_bits(raw);
    assert(wrapped(2) == 2 && wrapped(63) == 63 && wrapped(61) == 61);
    assert(wrapped(-4) == 0xffff_ffff_ffff_fffc);
    let ext = sar(raw, 63);
    let low = wrapped(ext + 2);
    let masked = raw & 0xffff_ffff_ffff_fffc;
    let word = masked | low;
    let s9 = Cpu { regs: s7.regs.insert(Reg::Rax, raw), ..s7 };
    lemma_step2(s7, code[9], R(Rax), R(Rdi), 0, raw);
    lemma_kinds(s7, R(Rax), R(Rdi), 0, raw);
    lemma_next(s7, s9, code, 9);
    let s10 = Cpu { regs: s9.regs.insert(Reg::Rax, ext), ..logic_flags(s9, ext) };
    lemma_step2(s9, code[10], R(Rax), Imm(63), raw, 63);
    lemma_kinds(s9, R(Rax), Imm(63), raw, 63);
    lemma_next(s9, s10, code, 10);
    let s11 = Cpu { regs: s10.regs.insert(Reg::Rax, low), ..add_flags(s10, ext, 2) };
    lemma_step2(s10, code[11], R(Rax), Imm(2), ext, 2);
    lemma_kinds(s10, R(Rax), Imm(2), ext, 2);
    lemma_next(s10, s11, code, 11);
    let s12 = Cpu { regs: s11.regs.insert(Reg::Rdi, masked), ..logic_flags(s11, masked) };
    lemma_step2(s11, code[12], R(Rdi), Imm(crate::codegen::MASK_TAG), raw, 0xffff_ffff_ffff_fffc);
    lemma_kinds(s11, R(Rdi), Imm(crate::codegen::MASK_TAG), raw, 0xffff_ffff_ffff_fffc);
    lemma_next(s11, s12, code, 12);
    let s13 = Cpu { regs: s12.regs.insert(Reg::Rdi, word), ..logic_flags(s12, word) };
    lemma_step2(s12, code[13], R(Rdi), R(Rax), masked, low);
    lemma_kinds(s12, R(Rdi), R(Rax), masked, low);
    lemma_next(s12, s13, code, 13);
    let s14 = Cpu { regs: s13.regs.insert(Reg::Rdi, rol(word, 61)), ..s13 };
    lemma_step2(s13, code[14], R(Rdi), Imm(61), word, 61);
    lemma_kinds(s13, R(Rdi), Imm(61), word, 61);
    lemma_next(s13, s14, code, 14);
    let s15 = Cpu { xmm: s14.xmm.insert(xmm, rol(word, 61)), ..s14 };
    lemma_step2(s14, code[15], Xmm(xmm), R(Rdi), 0, rol(word, 61));
    lemma_kinds(s14, Xmm(xmm), R(Rdi), 0, rol(word, 61));
    lemma_next(s14, s15, code, 15);
    assert(run(s15, code, 16) == After::Jump(exit, s15)) by {
        reveal_with_fuel(run, 1);
    }
}

/// Unboxing an inline float: where `rdi` holds the word of a float that is
/// held inline, the code leaves for `exit` with the float in the xmm
/// register, bit for bit, and with memory as it was.  The zero sentinel
/// gives the positive zero.
pub proof fn lemma_unbox_inline(
    cpu: Cpu,
    xmm: u64,
    side_exit: DestLabel,
    entry: DestLabel,
    heap: DestLabel,
    exit: DestLabel,
    heap_to_f64: DestLabel,
)
    requires
        cpu.regs[Reg::Rdi] & 3 == 2,
    ensures
        run(cpu, val_to_f64_code(xmm, side_exit, entry, heap, exit, heap_to_f64), 0) matches After::Jump(l, end) && l
            == exit && end.xmm[xmm] == unpack_flonum(cpu.regs[Reg::Rdi]) && end.mem == cpu.mem && end.data
            == cpu.data,
{
    let code = val_to_f64_code(xmm, side_exit, entry, heap, exit, heap_to_f64);
    let raw = cpu.regs[Reg::Rdi];
    lemma_unpack_bits(raw);
    assert(wrapped(1) == 1 && wrapped(2) == 2);
    assert(step(cpu, code[0]) == Some(cpu)) by {
        reveal(step);
    }
    lemma_next(cpu, cpu, code, 0);
    let s1 = logic_flags(cpu, raw & 1);
    lemma_step2(cpu, code[1], R(Rdi), Imm(1), raw, 1);
    lemma_kinds(cpu, R(Rdi), Imm(1), raw, 1);
    lemma_next(cpu, s1, code, 1);
    lemma_branch(s1, code, 2);
    let s3 = logic_flags(s1, raw & 2);
    lemma_step2(s1, code[3], R(Rdi), Imm(2), raw, 2);
    lemma_kinds(s1, R(Rdi), Imm(2), raw, 2);
    lemma_next(s1, s3, code, 3);
    lemma_branch(s3, code, 4);
    lemma_unbox_unpack(s3, code, xmm, exit);
}

/// Tag round trip through generated code: the word of a double that is held
/// inline is unboxed to the same number: bit for bit, but that the negative
/// zero comes back as the positive zero.
pub proof fn lemma_unbox_round_trip(
    cpu: Cpu,
    bits: u64,
    xmm: u64,
    side_exit: DestLabel,
    entry: DestLabel,
    heap: DestLabel,
    exit: DestLabel,
    heap_to_f64: DestLabel,
)
    requires
        is_zero_bits(bits) || flonum_inline(bits),
        cpu.regs[Reg::Rdi] == flonum_word(bits),
    ensures
        run(cpu, val_to_f64_code(xmm, side_exit, entry, heap, exit, heap_to_f64), 0) matches After::Jump(l, end) && l
            == exit && end.xmm[xmm] == (if is_zero_bits(bits) {
            0
        } else {
            bits
        }),
{
    lemma_float_round_trip(bits);
    let raw = flonum_word(bits);
    crate::value::lemma_tags_disjoint(raw);
    assert(Value(raw).kind() is Flonum);
    assert(raw & 3 == 2) by {
        if raw & 3 != 2 {
            assert(!(Value(raw).kind() is Flonum));
        }
    }
    lemma_unbox_inline(cpu, xmm, side_exit, entry, heap, exit, heap_to_f64);
}

/// What the emitter of unboxing emits is the code of which
/// `lemma_unbox_inline` speaks, with the labels that it makes.
pub proof fn lemma_unbox_emitted(c: CodegenView, xmm: u64, side_exit: DestLabel)
    ensures
        c.gen_val_to_f64_assume_float(xmm, side_exit) == c.labels(3).emit(
            val_to_f64_code(xmm, side_exit, c.nth(0), c.nth(1), c.nth(2), c.heap_to_f64),
        ),
{
    let entry = c.nth(0);
    let heap = c.nth(1);
    let exit = c.nth(2);
    let emitted = seq![
        Bind(entry),
        Testq(R(Rdi), Imm(1)),
        Jcc(Cond::Ne, side_exit),
        Testq(R(Rdi), Imm(2)),
        Jcc(Cond::Eq, heap),
    ] + CodegenView::unpack_flonum_code(xmm, exit) + seq![
        Bind(heap),
        Call(Target::Label(c.heap_to_f64)),
        Testq(R(Rax), R(Rax)),
        Jcc(Cond::Eq, side_exit),
        Movq(Xmm(xmm), Xmm(0)),
        Bind(exit),
    ];
    assert(emitted =~= val_to_f64_code(xmm, side_exit, entry, heap, exit, c.heap_to_f64));
}

} // verus!
