//! What a loop does with each slot, and the context that the head of the
//! loop is compiled for.
//!
//! A slot that the loop reads as a float before it writes it, and that the
//! loop writes as a float only, is kept in an xmm register round the loop:
//! the head of the loop has it in a register that may be written, so the
//! edges back to the head move registers and store nothing.  A slot that the
//! loop only reads as a float is loaded once, before the loop.  The
//! instructions are read as the type feedback in their records says they
//! will be compiled.
//!
//! A slot that is written before it is read wherever a block starts carries
//! no value from one block to another.  The edges between blocks drop what
//! the registers hold for such slots, and write nothing back for them.

use vstd::prelude::*;
use crate::bbctx::{BBContext, BBView, LinkMode, StackSlotInfo};
use crate::ids::SlotId;
use crate::inst::{decode, Bc, BcOp};
use crate::iseq::{next_pos, ISeqInfo};

verus! {

/// How a loop uses a slot.
#[derive(Clone, Copy, Debug, PartialEq, Eq, Structural)]
pub enum SlotUse {
    /// Not as a float, as far as the records seen say.
    Unseen,
    /// Read as a float, and not written.
    Read,
    /// Read as a float, then written as a float.
    Written,
    /// Written before it is read, written as something else, or within
    /// reach of a call.
    Other,
}

/// The instruction is compiled on xmm registers.
pub open spec fn float_path_spec(op: BcOp, bc: Bc) -> bool {
    match op {
        BcOp::Neg(_, _) => bc.is_float1(),
        BcOp::BinOp(kind, _, _, _) => !bc.is_binary_integer() && bc.is_binary_float() && kind.is_arith(),
        BcOp::BinOpRi(kind, _, _, _) => !bc.is_integer1() && bc.is_float1() && kind.is_arith(),
        BcOp::BinOpIr(kind, _, _, _) => !bc.is_integer2() && bc.is_float2() && kind.is_arith(),
        _ => false,
    }
}

#[verifier::when_used_as_spec(float_path_spec)]
pub fn float_path(op: BcOp, bc: Bc) -> (b: bool)
    ensures
        b == float_path_spec(op, bc),
{
    match op {
        BcOp::Neg(_, _) => bc.is_float1(),
        BcOp::BinOp(kind, _, _, _) => !bc.is_binary_integer() && bc.is_binary_float() && kind.is_arith(),
        BcOp::BinOpRi(kind, _, _, _) => !bc.is_integer1() && bc.is_float1() && kind.is_arith(),
        BcOp::BinOpIr(kind, _, _, _) => !bc.is_integer2() && bc.is_float2() && kind.is_arith(),
        _ => false,
    }
}

/// The slot that the instruction writes.
pub open spec fn dest_of_spec(op: BcOp) -> Option<SlotId> {
    match op {
        BcOp::Integer(r, _) => Some(r),
        BcOp::Symbol(r, _) => Some(r),
        BcOp::Literal(r, _) => Some(r),
        BcOp::Array(r, _, _) => Some(r),
        BcOp::Index(r, _, _) => Some(r),
        BcOp::LoadConst(r, _) => Some(r),
        BcOp::LoadIvar(r, _) => Some(r),
        BcOp::Nil(r) => Some(r),
        BcOp::Neg(r, _) => Some(r),
        BcOp::BinOp(_, r, _, _) => Some(r),
        BcOp::BinOpRi(_, r, _, _) => Some(r),
        BcOp::BinOpIr(_, r, _, _) => Some(r),
        BcOp::Cmp(_, r, _, _, _) => Some(r),
        BcOp::Cmpri(_, r, _, _, _) => Some(r),
        BcOp::Mov(r, _) => Some(r),
        BcOp::MethodCall(r, _) => Some(r),
        BcOp::Yield(r, _, _) => Some(r),
        BcOp::ConcatStr(r, _, _) => Some(r),
        _ => None,
    }
}

#[verifier::when_used_as_spec(dest_of_spec)]
pub fn dest_of(op: BcOp) -> (r: Option<SlotId>)
    ensures
        r == dest_of_spec(op),
{
    match op {
        BcOp::Integer(r, _) => Some(r),
        BcOp::Symbol(r, _) => Some(r),
        BcOp::Literal(r, _) => Some(r),
        BcOp::Array(r, _, _) => Some(r),
        BcOp::Index(r, _, _) => Some(r),
        BcOp::LoadConst(r, _) => Some(r),
        BcOp::LoadIvar(r, _) => Some(r),
        BcOp::Nil(r) => Some(r),
        BcOp::Neg(r, _) => Some(r),
        BcOp::BinOp(_, r, _, _) => Some(r),
        BcOp::BinOpRi(_, r, _, _) => Some(r),
        BcOp::BinOpIr(_, r, _, _) => Some(r),
        BcOp::Cmp(_, r, _, _, _) => Some(r),
        BcOp::Cmpri(_, r, _, _, _) => Some(r),
        BcOp::Mov(r, _) => Some(r),
        BcOp::MethodCall(r, _) => Some(r),
        BcOp::Yield(r, _, _) => Some(r),
        BcOp::ConcatStr(r, _, _) => Some(r),
        _ => None,
    }
}

/// The instruction reads the slot as a float.
pub open spec fn float_read_spec(op: BcOp, bc: Bc, reg: SlotId) -> bool {
    float_path(op, bc) && match op {
        BcOp::Neg(_, src) => src == reg,
        BcOp::BinOp(_, _, lhs, rhs) => (lhs == reg && bc.is_float1()) || (rhs == reg && bc.is_float2()),
        BcOp::BinOpRi(_, _, lhs, _) => lhs == reg,
        BcOp::BinOpIr(_, _, _, rhs) => rhs == reg,
        _ => false,
    }
}

#[verifier::when_used_as_spec(float_read_spec)]
pub fn float_read(op: BcOp, bc: Bc, reg: SlotId) -> (b: bool)
    ensures
        b == float_read_spec(op, bc, reg),
{
    float_path(op, bc) && match op {
        BcOp::Neg(_, src) => src.0 == reg.0,
        BcOp::BinOp(_, _, lhs, rhs) => (lhs.0 == reg.0 && bc.is_float1()) || (rhs.0 == reg.0 && bc.is_float2()),
        BcOp::BinOpRi(_, _, lhs, _) => lhs.0 == reg.0,
        BcOp::BinOpIr(_, _, _, rhs) => rhs.0 == reg.0,
        _ => false,
    }
}

/// The instruction is a call: the callee may write any slot.
pub open spec fn is_call_spec(op: BcOp) -> bool {
    op is MethodCall || op is Yield
}

#[verifier::when_used_as_spec(is_call_spec)]
pub fn is_call(op: BcOp) -> (b: bool)
    ensures
        b == is_call_spec(op),
{
    match op {
        BcOp::MethodCall(_, _) => true,
        BcOp::Yield(_, _, _) => true,
        _ => false,
    }
}

/// The use of a slot after one more instruction.
pub open spec fn touch_spec(u: SlotUse, op: BcOp, bc: Bc, reg: SlotId) -> SlotUse {
    let written = dest_of(op) == Some(reg);
    if is_call(op) || (written && !float_path(op, bc)) {
        SlotUse::Other
    } else {
        match u {
            SlotUse::Unseen => if float_read(op, bc, reg) {
                if written {
                    SlotUse::Written
                } else {
                    SlotUse::Read
                }
            } else if written {
                SlotUse::Other
            } else {
                SlotUse::Unseen
            },
            SlotUse::Read => if written {
                SlotUse::Written
            } else {
                SlotUse::Read
            },
            u => u,
        }
    }
}

#[verifier::when_used_as_spec(touch_spec)]
pub fn touch(u: SlotUse, op: BcOp, bc: Bc, reg: SlotId) -> (r: SlotUse)
    ensures
        r == touch_spec(u, op, bc, reg),
{
    let written = match dest_of(op) {
        Some(d) => d.0 == reg.0,
        None => false,
    };
    if is_call(op) || (written && !float_path(op, bc)) {
        SlotUse::Other
    } else {
        match u {
            SlotUse::Unseen => if float_read(op, bc, reg) {
                if written {
                    SlotUse::Written
                } else {
                    SlotUse::Read
                }
            } else if written {
                SlotUse::Other
            } else {
                SlotUse::Unseen
            },
            SlotUse::Read => if written {
                SlotUse::Written
            } else {
                SlotUse::Read
            },
            u => u,
        }
    }
}

/// The uses of all slots after one more record.  A record that holds no
/// instruction changes nothing.
pub open spec fn touch_all(uses: Seq<SlotUse>, bc: Bc) -> Seq<SlotUse> {
    match decode(bc) {
        Some(op) => Seq::new(uses.len(), |i: int| touch(uses[i], op, bc, SlotId(i as u16))),
        None => uses,
    }
}

/// The uses of all slots after the instructions from `k` up to `end`.
pub open spec fn scan(bytecode: Seq<Bc>, k: int, end: int, uses: Seq<SlotUse>) -> Seq<SlotUse>
    decreases bytecode.len() - k,
{
    if k < 0 || k >= bytecode.len() || k > end {
        uses
    } else {
        scan(bytecode, next_pos(bytecode, k), end, touch_all(uses, bytecode[k]))
    }
}

/// How the loop from the record `pos` up to the record `end` uses each of
/// `n` slots.
pub open spec fn loop_uses_spec(bytecode: Seq<Bc>, pos: int, end: int, n: nat) -> Seq<SlotUse> {
    scan(bytecode, pos, end, Seq::new(n, |i: int| SlotUse::Unseen))
}

/// How the loop from the record `pos` up to the record `end` uses each slot
/// of the function.
pub fn loop_uses(func: &ISeqInfo, pos: usize, end: usize) -> (uses: Vec<SlotUse>)
    requires
        func.wf(),
    ensures
        uses@ == loop_uses_spec(func.bytecode@, pos as int, end as int, func.reg_num as nat),
        uses@.len() == func.reg_num,
{
    let n = func.reg_num;
    let len = func.bytecode.len();
    let mut uses: Vec<SlotUse> = Vec::new();
    let mut i: usize = 0;
    while i < n
        invariant
            i <= n,
            uses@.len() == i,
            forall|j: int| 0 <= j < i ==> uses@[j] == SlotUse::Unseen,
        decreases n - i,
    {
        uses.push(SlotUse::Unseen);
        i += 1;
    }
    assert(uses@ =~= Seq::new(n as nat, |i: int| SlotUse::Unseen));
    let mut k: usize = pos;
    while k < len && k <= end
        invariant
            func.wf(),
            n == func.reg_num,
            len == func.bytecode@.len(),
            uses@.len() == n,
            scan(func.bytecode@, k as int, end as int, uses@) == loop_uses_spec(
                func.bytecode@,
                pos as int,
                end as int,
                n as nat,
            ),
        decreases len - k,
    {
        let bc = func.bytecode[k];
        match BcOp::try_from_bc(&bc) {
            Some(op) => {
                let ghost before = uses@;
                let mut i: usize = 0;
                while i < n
                    invariant
                        i <= n,
                        n == func.reg_num,
                        func.wf(),
                        uses@.len() == n,
                        before.len() == n,
                        forall|j: int| 0 <= j < i ==> uses@[j] == touch(before[j], op, bc, SlotId(j as u16)),
                        forall|j: int| i <= j < n ==> uses@[j] == before[j],
                    decreases n - i,
                {
                    let u = touch(uses[i], op, bc, SlotId(i as u16));
                    uses.set(i, u);
                    i += 1;
                }
                assert(uses@ =~= touch_all(before, bc));
            },
            None => {},
        }
        let w = func.width(k);
        k = if w <= len - k {
            k + w
        } else {
            len
        };
    }
    uses
}

/// Some slot of the table is linked to the register.
pub open spec fn reg_used(table: Seq<LinkMode>, f: u16) -> bool {
    exists|i: int| 0 <= i < table.len() && (#[trigger] table[i]).xmm() == Some(f)
}

/// The least register from `f` on that no slot of the table is linked to.
pub open spec fn unused_from(table: Seq<LinkMode>, f: int) -> Option<u16>
    decreases 14 - f,
{
    if f < 0 || f >= 14 {
        None
    } else if !reg_used(table, f as u16) {
        Some(f as u16)
    } else {
        unused_from(table, f + 1)
    }
}

/// The register that a slot has, or else the least that none has.
pub open spec fn reg_for(table: Seq<LinkMode>, i: int) -> Option<u16> {
    match table[i].xmm() {
        Some(f) => Some(f),
        None => unused_from(table, 0),
    }
}

/// The mode that the head of a loop has for the slot `i`, given the modes
/// that the edges into the loop bring and the use that the loop makes of
/// the slot.  A slot that the loop reads and writes as a float has a
/// register that may be written; one that it only reads as a float has a
/// register to read from; one that it does not use as a float keeps its
/// mode; any other keeps at most a register to read from, so that the edges
/// back to the head can bring whatever the loop has written.
pub open spec fn head_mode(table: Seq<LinkMode>, u: SlotUse, i: int) -> LinkMode {
    match u {
        SlotUse::Written => match reg_for(table, i) {
            Some(f) => LinkMode::XmmRW(f),
            None => LinkMode::Stack,
        },
        SlotUse::Read => match reg_for(table, i) {
            Some(f) => LinkMode::XmmR(f),
            None => LinkMode::Stack,
        },
        SlotUse::Unseen => table[i],
        SlotUse::Other => match table[i] {
            LinkMode::XmmRW(f) => LinkMode::XmmR(f),
            m => m,
        },
    }
}

/// The table of the head of a loop, the first `n` slots decided.
pub open spec fn head_upto(table: Seq<LinkMode>, uses: Seq<SlotUse>, n: int) -> Seq<LinkMode>
    decreases n,
{
    if n <= 0 {
        table
    } else {
        let t = head_upto(table, uses, n - 1);
        t.update(n - 1, head_mode(t, uses[n - 1], n - 1))
    }
}

/// The table of the head of a loop.
pub open spec fn head_slots_spec(table: Seq<LinkMode>, uses: Seq<SlotUse>) -> Seq<LinkMode> {
    head_upto(table, uses, table.len() as int)
}

/// The table of the head of a loop has the slots of the table it is made
/// from, and names only registers that exist.
pub proof fn lemma_head_upto(table: Seq<LinkMode>, uses: Seq<SlotUse>, n: int)
    requires
        0 <= n <= table.len(),
        forall|i: int| 0 <= i < table.len() && (#[trigger] table[i]).xmm() is Some ==> table[i].xmm()->0 < 14,
    ensures
        head_upto(table, uses, n).len() == table.len(),
        forall|i: int|
            0 <= i < table.len() && (#[trigger] head_upto(table, uses, n)[i]).xmm() is Some ==> head_upto(
                table,
                uses,
                n,
            )[i].xmm()->0 < 14,
        forall|i: int| n <= i < table.len() ==> head_upto(table, uses, n)[i] == table[i],
    decreases n,
{
    if n > 0 {
        lemma_head_upto(table, uses, n - 1);
        let t = head_upto(table, uses, n - 1);
        lemma_unused_from(t, 0);
    }
}

/// What is decided for a slot stays as it is decided.
pub proof fn lemma_head_decided(table: Seq<LinkMode>, uses: Seq<SlotUse>, i: int, n: int)
    requires
        0 <= i < n <= table.len(),
    ensures
        head_upto(table, uses, n)[i] == head_mode(head_upto(table, uses, i), uses[i], i),
        head_upto(table, uses, n).len() == table.len(),
    decreases n,
{
    if n > i + 1 {
        lemma_head_decided(table, uses, i, n - 1);
    } else {
        lemma_head_len(table, uses, i);
    }
}

/// The table of the head has the slots of the table that it is made from.
pub proof fn lemma_head_len(table: Seq<LinkMode>, uses: Seq<SlotUse>, n: int)
    requires
        0 <= n <= table.len(),
    ensures
        head_upto(table, uses, n).len() == table.len(),
        forall|i: int| n <= i < table.len() ==> head_upto(table, uses, n)[i] == table[i],
    decreases n,
{
    if n > 0 {
        lemma_head_len(table, uses, n - 1);
    }
}

/// A float that a loop reads and then writes is in a register that may be
/// written at the head of the loop, so that no edge back to the head has to
/// write it back: it keeps the register that it comes in, or gets one that
/// no slot has.  It stays on the stack only where it comes on the stack and
/// no register is left.
pub proof fn lemma_head_written(table: Seq<LinkMode>, uses: Seq<SlotUse>, i: int)
    requires
        0 <= i < table.len(),
        uses[i] is Written,
    ensures
        ({
            let head = head_slots_spec(table, uses);
            match table[i].xmm() {
                Some(f) => head[i] == LinkMode::XmmRW(f),
                None => head[i] is XmmRW || (head[i] is Stack && unused_from(head_upto(table, uses, i), 0) is None),
            }
        }),
{
    lemma_head_decided(table, uses, i, table.len() as int);
    lemma_head_len(table, uses, i);
}

/// A register that is found is one that exists.
pub proof fn lemma_unused_from(table: Seq<LinkMode>, f: int)
    ensures
        unused_from(table, f) matches Some(r) ==> r < 14 && !reg_used(table, r),
    decreases 14 - f,
{
    if 0 <= f < 14 && reg_used(table, f as u16) {
        lemma_unused_from(table, f + 1);
    }
}

/// Whether some slot is linked to the register.
fn is_reg_used(slots: &StackSlotInfo, f: u16) -> (b: bool)
    ensures
        b == reg_used(slots.0@, f),
{
    let mut i: usize = 0;
    while i < slots.0.len()
        invariant
            i <= slots.0@.len(),
            forall|j: int| 0 <= j < i ==> (#[trigger] slots.0@[j]).xmm() != Some(f),
        decreases slots.0@.len() - i,
    {
        let hit = match slots.0[i] {
            LinkMode::XmmRW(r) => r == f,
            LinkMode::XmmR(r) => r == f,
            LinkMode::Stack => false,
        };
        if hit {
            assert(slots.0@[i as int].xmm() == Some(f));
            return true;
        }
        i += 1;
    }
    false
}

/// The register that a slot has, or else the least that none has.
fn find_reg(slots: &StackSlotInfo, i: usize) -> (r: Option<u16>)
    requires
        i < slots.0@.len(),
    ensures
        r == reg_for(slots.0@, i as int),
{
    match slots.0[i] {
        LinkMode::XmmRW(f) => Some(f),
        LinkMode::XmmR(f) => Some(f),
        LinkMode::Stack => {
            let mut f: u16 = 0;
            while f < 14
                invariant
                    f <= 14,
                    i < slots.0@.len(),
                    slots.0@[i as int] is Stack,
                    unused_from(slots.0@, f as int) == unused_from(slots.0@, 0),
                decreases 14 - f,
            {
                if !is_reg_used(slots, f) {
                    return Some(f);
                }
                f += 1;
            }
            None
        },
    }
}

/// Turns the join of the edges into a loop into the table of its head.
pub fn head_slots(slots: &mut StackSlotInfo, uses: &Vec<SlotUse>)
    requires
        uses@.len() == old(slots).0@.len(),
    ensures
        final(slots).0@ == head_slots_spec(old(slots).0@, uses@),
{
    let n = slots.0.len();
    let ghost table = slots.0@;
    let mut k: usize = 0;
    while k < n
        invariant
            k <= n,
            n == table.len(),
            uses@.len() == n,
            slots.0@.len() == n,
            slots.0@ == head_upto(table, uses@, k as int),
        decreases n - k,
    {
        let m = match uses[k] {
            SlotUse::Written => match find_reg(slots, k) {
                Some(f) => LinkMode::XmmRW(f),
                None => LinkMode::Stack,
            },
            SlotUse::Read => match find_reg(slots, k) {
                Some(f) => LinkMode::XmmR(f),
                None => LinkMode::Stack,
            },
            SlotUse::Unseen => slots.0[k],
            SlotUse::Other => match slots.0[k] {
                LinkMode::XmmRW(f) => LinkMode::XmmR(f),
                m => m,
            },
        };
        slots.0.set(k, m);
        k += 1;
    }
}

/// The target of an edge, with read-only links in place of the writable
/// links of slots that the source has on the stack.
pub open spec fn soften_spec(src: Seq<LinkMode>, target: Seq<LinkMode>) -> Seq<LinkMode> {
    Seq::new(
        target.len(),
        |i: int|
            match target[i] {
                LinkMode::XmmRW(f) => if i < src.len() && src[i] is Stack {
                    LinkMode::XmmR(f)
                } else {
                    LinkMode::XmmRW(f)
                },
                m => m,
            },
    )
}

/// The target of an edge, with read-only links in place of the writable
/// links of slots that the source has on the stack.
pub fn soften(src: &StackSlotInfo, target: &StackSlotInfo) -> (mid: StackSlotInfo)
    ensures
        mid.0@ == soften_spec(src.0@, target.0@),
{
    let n = target.0.len();
    let mut mid: Vec<LinkMode> = Vec::new();
    let mut i: usize = 0;
    while i < n
        invariant
            i <= n,
            n == target.0@.len(),
            mid@.len() == i,
            forall|j: int| 0 <= j < i ==> mid@[j] == soften_spec(src.0@, target.0@)[j],
        decreases n - i,
    {
        let m = match target.0[i] {
            LinkMode::XmmRW(f) => {
                let on_stack = if i < src.0.len() {
                    match src.0[i] {
                        LinkMode::Stack => true,
                        _ => false,
                    }
                } else {
                    false
                };
                if on_stack {
                    LinkMode::XmmR(f)
                } else {
                    LinkMode::XmmRW(f)
                }
            },
            m => m,
        };
        mid.push(m);
        i += 1;
    }
    assert(mid@ =~= soften_spec(src.0@, target.0@));
    StackSlotInfo(mid)
}

/// The instruction may read the slot.  A call may read every slot.
pub open spec fn reads_spec(op: BcOp, reg: SlotId) -> bool {
    match op {
        BcOp::CondBr(r, _, _, _) => r == reg,
        BcOp::Array(_, src, len) => src.0 <= reg.0 < src.0 + len,
        BcOp::Index(_, base, idx) => base == reg || idx == reg,
        BcOp::IndexAssign(src, base, idx) => src == reg || base == reg || idx == reg,
        BcOp::StoreConst(r, _) => r == reg,
        BcOp::StoreIvar(r, _) => r == reg,
        BcOp::Neg(_, src) => src == reg,
        BcOp::BinOp(_, _, lhs, rhs) => lhs == reg || rhs == reg,
        BcOp::BinOpRi(_, _, lhs, _) => lhs == reg,
        BcOp::BinOpIr(_, _, _, rhs) => rhs == reg,
        BcOp::Cmp(_, _, lhs, rhs, _) => lhs == reg || rhs == reg,
        BcOp::Cmpri(_, _, lhs, _, _) => lhs == reg,
        BcOp::Ret(r) => r == reg,
        BcOp::Mov(_, src) => src == reg,
        BcOp::MethodCall(_, _) => true,
        BcOp::MethodArgs(_, _, _) => true,
        BcOp::Yield(_, _, _) => true,
        BcOp::ConcatStr(_, args, len) => args.0 <= reg.0 < args.0 + len,
        _ => false,
    }
}

#[verifier::when_used_as_spec(reads_spec)]
pub fn reads(op: BcOp, reg: SlotId) -> (b: bool)
    ensures
        b == reads_spec(op, reg),
{
    match op {
        BcOp::CondBr(r, _, _, _) => r.0 == reg.0,
        BcOp::Array(_, src, len) => src.0 <= reg.0 && (reg.0 as u32) < src.0 as u32 + len as u32,
        BcOp::Index(_, base, idx) => base.0 == reg.0 || idx.0 == reg.0,
        BcOp::IndexAssign(src, base, idx) => src.0 == reg.0 || base.0 == reg.0 || idx.0 == reg.0,
        BcOp::StoreConst(r, _) => r.0 == reg.0,
        BcOp::StoreIvar(r, _) => r.0 == reg.0,
        BcOp::Neg(_, src) => src.0 == reg.0,
        BcOp::BinOp(_, _, lhs, rhs) => lhs.0 == reg.0 || rhs.0 == reg.0,
        BcOp::BinOpRi(_, _, lhs, _) => lhs.0 == reg.0,
        BcOp::BinOpIr(_, _, _, rhs) => rhs.0 == reg.0,
        BcOp::Cmp(_, _, lhs, rhs, _) => lhs.0 == reg.0 || rhs.0 == reg.0,
        BcOp::Cmpri(_, _, lhs, _, _) => lhs.0 == reg.0,
        BcOp::Ret(r) => r.0 == reg.0,
        BcOp::Mov(_, src) => src.0 == reg.0,
        BcOp::MethodCall(_, _) => true,
        BcOp::MethodArgs(_, _, _) => true,
        BcOp::Yield(_, _, _) => true,
        BcOp::ConcatStr(_, args, len) => args.0 <= reg.0 && (reg.0 as u32) < args.0 as u32 + len as u32,
        _ => false,
    }
}

/// What is known of a slot within a run of instructions that no branch
/// leads into.
#[derive(Clone, Copy, Debug, PartialEq, Eq, Structural)]
pub enum Life {
    /// Not used since the start of the run.
    Fresh,
    /// Written in this run before it was read.
    Known,
    /// Read in some run before it was written: the value comes from
    /// elsewhere.
    Live,
}

/// What is known of a slot after one more record.  At the start of a block
/// a new run begins.  A record that holds no instruction may do anything.
pub open spec fn life_step_spec(l: Life, op: Option<BcOp>, start: bool, reg: SlotId) -> Life {
    let l = if start && l is Known {
        Life::Fresh
    } else {
        l
    };
    match (l, op) {
        (Life::Fresh, Some(op)) => if reads(op, reg) {
            Life::Live
        } else if dest_of(op) == Some(reg) {
            Life::Known
        } else {
            Life::Fresh
        },
        (l, Some(_)) => l,
        (_, None) => Life::Live,
    }
}

#[verifier::when_used_as_spec(life_step_spec)]
pub fn life_step(l: Life, op: Option<BcOp>, start: bool, reg: SlotId) -> (r: Life)
    ensures
        r == life_step_spec(l, op, start, reg),
{
    let l = match l {
        Life::Known => if start {
            Life::Fresh
        } else {
            Life::Known
        },
        l => l,
    };
    match (l, op) {
        (Life::Fresh, Some(op)) => {
            let written = match dest_of(op) {
                Some(d) => d.0 == reg.0,
                None => false,
            };
            if reads(op, reg) {
                Life::Live
            } else if written {
                Life::Known
            } else {
                Life::Fresh
            }
        },
        (l, Some(_)) => l,
        (_, None) => Life::Live,
    }
}

/// What is known of every slot after one more record.
pub open spec fn life_all(lives: Seq<Life>, bc: Bc, start: bool) -> Seq<Life> {
    Seq::new(lives.len(), |i: int| life_step(lives[i], decode(bc), start, SlotId(i as u16)))
}

/// What is known of every slot after the records from `k` on.
pub open spec fn scan_life(bytecode: Seq<Bc>, starts: Seq<bool>, k: int, lives: Seq<Life>) -> Seq<Life>
    decreases bytecode.len() - k,
{
    if k < 0 || k >= bytecode.len() {
        lives
    } else {
        scan_life(bytecode, starts, next_pos(bytecode, k), life_all(lives, bytecode[k], starts[k]))
    }
}

/// The slots that carry no value from one block to another: wherever a
/// block starts, the slot is written before it is read.  The slot 0, which
/// holds `self`, is never one of them.
pub open spec fn temps_spec(bytecode: Seq<Bc>, starts: Seq<bool>, n: nat) -> Seq<bool> {
    let lives = scan_life(bytecode, starts, 0, Seq::new(n, |i: int| Life::Fresh));
    Seq::new(n, |i: int| i != 0 && !(lives[i] is Live))
}

/// The slots of the function that carry no value from one block to
/// another.
pub fn find_temps(func: &ISeqInfo, starts: &Vec<bool>) -> (temps: Vec<bool>)
    requires
        func.wf(),
        starts@.len() == func.bytecode@.len() + 1,
    ensures
        temps@ == temps_spec(func.bytecode@, starts@, func.reg_num as nat),
{
    let n = func.reg_num;
    let len = func.bytecode.len();
    let mut lives: Vec<Life> = Vec::new();
    let mut i: usize = 0;
    while i < n
        invariant
            i <= n,
            lives@.len() == i,
            forall|j: int| 0 <= j < i ==> lives@[j] == Life::Fresh,
        decreases n - i,
    {
        lives.push(Life::Fresh);
        i += 1;
    }
    assert(lives@ =~= Seq::new(n as nat, |i: int| Life::Fresh));
    let mut k: usize = 0;
    while k < len
        invariant
            func.wf(),
            n == func.reg_num,
            len == func.bytecode@.len(),
            starts@.len() == len + 1,
            lives@.len() == n,
            scan_life(func.bytecode@, starts@, k as int, lives@) == scan_life(
                func.bytecode@,
                starts@,
                0,
                Seq::new(n as nat, |i: int| Life::Fresh),
            ),
        decreases len - k,
    {
        let bc = func.bytecode[k];
        let op = BcOp::try_from_bc(&bc);
        let start = starts[k];
        let ghost before = lives@;
        let mut i: usize = 0;
        while i < n
            invariant
                i <= n,
                n == func.reg_num,
                func.wf(),
                lives@.len() == n,
                before.len() == n,
                op == decode(bc),
                forall|j: int| 0 <= j < i ==> lives@[j] == life_step(before[j], op, start, SlotId(j as u16)),
                forall|j: int| i <= j < n ==> lives@[j] == before[j],
            decreases n - i,
        {
            let l = life_step(lives[i], op, start, SlotId(i as u16));
            lives.set(i, l);
            i += 1;
        }
        assert(lives@ =~= life_all(before, bc, start));
        let w = func.width(k);
        k = if w <= len - k {
            k + w
        } else {
            len
        };
    }
    let mut temps: Vec<bool> = Vec::new();
    let mut i: usize = 0;
    while i < n
        invariant
            i <= n,
            lives@.len() == n,
            temps@.len() == i,
            forall|j: int| 0 <= j < i ==> temps@[j] == (j != 0 && !(lives@[j] is Live)),
        decreases n - i,
    {
        let live = match lives[i] {
            Life::Live => true,
            _ => false,
        };
        temps.push(i != 0 && !live);
        i += 1;
    }
    assert(temps@ =~= temps_spec(func.bytecode@, starts@, n as nat));
    temps
}

impl BBView {
    /// The context with the first `n` slots unlinked where `temps` says so.
    pub open spec fn without_upto(self, temps: Seq<bool>, n: int) -> BBView
        decreases n,
    {
        if n <= 0 {
            self
        } else {
            let v = self.without_upto(temps, n - 1);
            if n - 1 < temps.len() && temps[n - 1] {
                v.dealloc(SlotId((n - 1) as u16))
            } else {
                v
            }
        }
    }

    /// The context with every slot unlinked of which `temps` says so.  What
    /// the registers of these slots hold is given up.
    pub open spec fn without(self, temps: Seq<bool>) -> BBView {
        self.without_upto(temps, self.slots.len() as int)
    }
}

impl BBContext {
    /// Unlinks every slot of which `temps` says so, without writing
    /// anything back.
    pub fn drop_temps(&mut self, temps: &Vec<bool>)
        requires
            old(self)@.wf(),
            old(self)@.slots.len() <= 0x1_0000,
        ensures
            final(self)@ == old(self)@.without(temps@),
            final(self)@.wf(),
            final(self)@.slots.len() == old(self)@.slots.len(),
    {
        let n = self.len();
        let mut i: usize = 0;
        while i < n
            invariant
                i <= n,
                n == old(self)@.slots.len(),
                n <= 0x1_0000,
                self@.wf(),
                self@.slots.len() == n,
                self@ == old(self)@.without_upto(temps@, i as int),
            decreases n - i,
        {
            if i < temps.len() && temps[i] {
                self.dealloc_xmm(SlotId(i as u16));
            }
            i += 1;
        }
    }
}

} // verus!
