//! Layout of a stack frame and of the per-frame header word.
//!
//! A frame grows toward lower addresses from `rbp`:
//!
//! ```text
//! [rbp + 8]             return address
//! [rbp + 0]             saved previous rbp
//! [rbp - OFFSET_CFP]    caller frame pointer linkage
//! [rbp - OFFSET_OUTER]  outer-environment pointer of a block, else 0
//! [rbp - OFFSET_META]   packed header: call kind, register count, function
//! [rbp - OFFSET_BLOCK]  block argument or 0
//! [rbp - OFFSET_SELF]   receiver (slot 0)
//! [rbp - OFFSET_ARG0]   first argument (slot 1), then the other slots
//! ```

use vstd::prelude::*;
use crate::assembler::{Operand, Reg};
use crate::ids::{FuncId, SlotId};

verus! {

pub const OFFSET_CFP: i64 = 8;

pub const OFFSET_OUTER: i64 = 16;

pub const OFFSET_META: i64 = 24;

/// The 16-bit register count inside the header word.
pub const OFFSET_REGNUM: i64 = 20;

/// The 32-bit function id inside the header word.
pub const OFFSET_FUNCID: i64 = 24;

pub const OFFSET_BLOCK: i64 = 32;

pub const OFFSET_SELF: i64 = 40;

pub const OFFSET_ARG0: i64 = 48;

/// Offset of the code pointer in a function descriptor.
pub const FUNCDATA_OFFSET_CODEPTR: i64 = 0;

/// Offset of the header word in a function descriptor.
pub const FUNCDATA_OFFSET_META: i64 = 8;

/// Offset of the bytecode base address in a function descriptor.
pub const FUNCDATA_OFFSET_PC: i64 = 16;

/// Number of instance variables an ordinary object holds inline.
pub const OBJECT_INLINE_IVAR: i64 = 6;

/// Header tag of an ordinary object.
pub const OBJKIND_OBJECT: i64 = 6;

/// Distance of a slot below `rbp`.
pub open spec fn conv_spec(reg: SlotId) -> i64 {
    (reg.0 as i64 * 8 + OFFSET_SELF) as i64
}

/// Distance of a slot below `rbp`: `index * 8 + OFFSET_SELF`.
#[verifier::when_used_as_spec(conv_spec)]
pub fn conv(reg: SlotId) -> (d: i64)
    ensures
        d == conv_spec(reg),
        d == reg.0 * 8 + OFFSET_SELF,
        OFFSET_SELF <= d <= 65535 * 8 + OFFSET_SELF,
{
    reg.0 as i64 * 8 + OFFSET_SELF
}

/// The memory operand of a slot: `[rbp - conv(reg)]`.
pub open spec fn slot_spec(reg: SlotId) -> Operand {
    Operand::Ind(Reg::Rbp, (-(reg.0 * 8 + 40)) as i64)
}

/// The memory operand of a slot of the current frame.
#[verifier::when_used_as_spec(slot_spec)]
pub fn slot(reg: SlotId) -> (o: Operand)
    ensures
        o == slot_spec(reg),
{
    Operand::Ind(Reg::Rbp, -conv(reg))
}

/// The xmm register that backs slots under the number `freg`: the first two
/// registers are scratch.
pub open spec fn xmm_spec(freg: u16) -> Operand {
    Operand::Xmm((freg + 2) as u64)
}

/// The operand of the xmm register with the number `freg`.
#[verifier::when_used_as_spec(xmm_spec)]
pub fn xmm(freg: u16) -> (o: Operand)
    ensures
        o == xmm_spec(freg),
{
    Operand::Xmm(freg as u64 + 2)
}

/// The number of the xmm register that backs slots under the number `freg`.
pub open spec fn xmm_index_spec(freg: u16) -> u64 {
    (freg + 2) as u64
}

#[verifier::when_used_as_spec(xmm_index_spec)]
pub fn xmm_index(freg: u16) -> (i: u64)
    ensures
        i == xmm_index_spec(freg),
{
    freg as u64 + 2
}

/// How a frame was entered.
#[derive(Clone, Copy, Debug, PartialEq, Eq, Structural)]
pub enum CallKind {
    Vm,
    Jit,
    Native,
}

impl CallKind {
    pub open spec fn code(self) -> u64 {
        match self {
            CallKind::Vm => 0,
            CallKind::Jit => 1,
            CallKind::Native => 2,
        }
    }
}

/// The header word of a frame: call kind in the top 16 bits, register count
/// in the next 16, function id in the low 32.
#[derive(Clone, Copy, Debug, PartialEq, Eq, Structural)]
pub struct Meta(pub u64);

impl Meta {
    /// The word packed from its three parts.
    pub open spec fn pack(kind: CallKind, reg_num: u16, func_id: FuncId) -> u64 {
        (kind.code() * 0x1_0000_0000_0000 + reg_num * 0x1_0000_0000 + func_id.0) as u64
    }

    pub open spec fn kind_code(self) -> u64 {
        self.0 / 0x1_0000_0000_0000
    }

    pub open spec fn reg_num_spec(self) -> u16 {
        ((self.0 / 0x1_0000_0000) % 0x1_0000) as u16
    }

    pub open spec fn func_id_spec(&self) -> FuncId {
        FuncId((self.0 % 0x1_0000_0000) as u32)
    }

    fn new(kind: CallKind, reg_num: u16, func_id: FuncId) -> (m: Meta)
        ensures
            m.0 == Meta::pack(kind, reg_num, func_id),
            m.kind_code() == kind.code(),
            m.reg_num_spec() == reg_num,
            m.func_id_spec() == func_id,
    {
        let k: u64 = match kind {
            CallKind::Vm => 0,
            CallKind::Jit => 1,
            CallKind::Native => 2,
        };
        Meta(k * 0x1_0000_0000_0000 + reg_num as u64 * 0x1_0000_0000 + func_id.0 as u64)
    }

    /// Header of a frame that the interpreter runs.
    pub fn vm(func_id: FuncId, reg_num: u16) -> (m: Meta)
        ensures
            m.0 == Meta::pack(CallKind::Vm, reg_num, func_id),
    {
        Meta::new(CallKind::Vm, reg_num, func_id)
    }

    pub open spec fn native_spec(func_id: FuncId, reg_num: u16) -> Meta {
        Meta(Meta::pack(CallKind::Native, reg_num, func_id))
    }

    /// Header of a frame of a native function.
    #[verifier::when_used_as_spec(native_spec)]
    pub fn native(func_id: FuncId, reg_num: u16) -> (m: Meta)
        ensures
            m.0 == Meta::pack(CallKind::Native, reg_num, func_id),
            m == Meta::native_spec(func_id, reg_num),
    {
        Meta::new(CallKind::Native, reg_num, func_id)
    }

    pub fn get(&self) -> (w: u64)
        ensures
            w == self.0,
    {
        self.0
    }

    #[verifier::when_used_as_spec(func_id_spec)]
    pub fn func_id(&self) -> (f: FuncId)
        ensures
            f == self.func_id_spec(),
    {
        FuncId((self.0 % 0x1_0000_0000) as u32)
    }

    pub fn reg_num(&self) -> (n: u16)
        ensures
            n == self.reg_num_spec(),
    {
        ((self.0 / 0x1_0000_0000) % 0x1_0000) as u16
    }

    /// The same header, marked as entered through compiled code.
    pub fn set_jit(&mut self)
        ensures
            final(self).0 == Meta::pack(CallKind::Jit, old(self).reg_num_spec(), old(self).func_id_spec()),
    {
        let low = self.0 % 0x1_0000_0000_0000;
        assert(low == old(self).reg_num_spec() * 0x1_0000_0000 + old(self).func_id_spec().0);
        self.0 = 0x1_0000_0000_0000 + low;
    }
}

/// Splitting a packed header gives its parts back.
pub proof fn lemma_meta_round_trip(kind: CallKind, reg_num: u16, func_id: FuncId)
    ensures
        Meta(Meta::pack(kind, reg_num, func_id)).kind_code() == kind.code(),
        Meta(Meta::pack(kind, reg_num, func_id)).reg_num_spec() == reg_num,
        Meta(Meta::pack(kind, reg_num, func_id)).func_id_spec() == func_id,
{
}

} // verus!
