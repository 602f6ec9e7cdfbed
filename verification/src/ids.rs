//! Identifiers shared by the bytecode, the code generator and the runtime
//! tables: stack slots, classes, names, functions and bytecode addresses.

use vstd::prelude::*;

verus! {

/// A stack slot of the current frame; slot 0 holds `self`.
#[derive(Clone, Copy, Debug, PartialEq, Eq, Structural)]
pub struct SlotId(pub u16);

impl SlotId {
    pub fn new(reg: u16) -> (s: SlotId)
        ensures
            s.0 == reg,
    {
        SlotId(reg)
    }

    /// The slot of `self`.
    pub fn self_() -> (s: SlotId)
        ensures
            s.0 == 0,
    {
        SlotId(0)
    }

    pub open spec fn is_zero_spec(&self) -> bool {
        self.0 == 0
    }

    #[verifier::when_used_as_spec(is_zero_spec)]
    pub fn is_zero(&self) -> (b: bool)
        ensures
            b == (self.0 == 0),
    {
        self.0 == 0
    }

    /// The slot `i` places after this one.
    pub fn offset(&self, i: u16) -> (s: SlotId)
        requires
            self.0 + i <= u16::MAX,
        ensures
            s.0 == self.0 + i,
    {
        SlotId(self.0 + i)
    }
}

/// A class of the class table.
#[derive(Clone, Copy, Debug, PartialEq, Eq, Structural)]
pub struct ClassId(pub u32);

pub const OBJECT_CLASS: u32 = 1;

pub const CLASS_CLASS: u32 = 2;

pub const NIL_CLASS: u32 = 3;

pub const TRUE_CLASS: u32 = 4;

pub const FALSE_CLASS: u32 = 5;

pub const INTEGER_CLASS: u32 = 6;

pub const FLOAT_CLASS: u32 = 7;

pub const STRING_CLASS: u32 = 8;

pub const SYMBOL_CLASS: u32 = 9;

pub const TIME_CLASS: u32 = 10;

pub const ARRAY_CLASS: u32 = 11;

impl ClassId {
    pub fn new(id: u32) -> (c: ClassId)
        ensures
            c.0 == id,
    {
        ClassId(id)
    }

    pub fn get(&self) -> (id: u32)
        ensures
            id == self.0,
    {
        self.0
    }

    /// Instances of the class are immediate values and can hold no instance
    /// variable.
    pub open spec fn always_frozen(&self) -> bool {
        self.0 == NIL_CLASS || self.0 == TRUE_CLASS || self.0 == FALSE_CLASS || self.0
            == INTEGER_CLASS || self.0 == FLOAT_CLASS || self.0 == SYMBOL_CLASS
    }

    #[verifier::when_used_as_spec(always_frozen)]
    pub fn is_always_frozen(&self) -> (b: bool)
        ensures
            b == self.always_frozen(),
    {
        self.0 == NIL_CLASS || self.0 == TRUE_CLASS || self.0 == FALSE_CLASS || self.0
            == INTEGER_CLASS || self.0 == FLOAT_CLASS || self.0 == SYMBOL_CLASS
    }
}

/// An interned name.
#[derive(Clone, Copy, Debug, PartialEq, Eq, Structural)]
pub struct IdentId(pub u32);

impl IdentId {
    pub fn from(id: u32) -> (i: IdentId)
        ensures
            i.0 == id,
    {
        IdentId(id)
    }

    pub fn get(&self) -> (id: u32)
        ensures
            id == self.0,
    {
        self.0
    }
}

/// A function of the function store.
#[derive(Clone, Copy, Debug, PartialEq, Eq, Structural)]
pub struct FuncId(pub u32);

/// A place in the code where a constant is read.
#[derive(Clone, Copy, Debug, PartialEq, Eq, Structural)]
pub struct ConstSiteId(pub u32);

impl ConstSiteId {
    pub fn get(&self) -> (id: u32)
        ensures
            id == self.0,
    {
        self.0
    }
}

/// Size of one bytecode record in bytes.
pub const BC_SIZE: u64 = 16;

/// The address of a bytecode record.
#[derive(Clone, Copy, Debug, PartialEq, Eq, Structural)]
pub struct BcPc(pub u64);

impl BcPc {
    /// The address `n` records further on.
    pub open spec fn plus(self, n: int) -> int {
        self.0 + 16 * n
    }

    /// The address leaves room for the few records before and after it
    /// that the code generator names.
    pub open spec fn ok(self) -> bool {
        16 <= self.0 && self.0 + 64 <= u64::MAX
    }

    pub open spec fn next_spec(&self, n: u64) -> BcPc {
        BcPc((self.0 + 16 * n) as u64)
    }

    /// The record `n` places after this one.
    #[verifier::when_used_as_spec(next_spec)]
    pub fn next(&self, n: u64) -> (pc: BcPc)
        requires
            self.plus(n as int) <= u64::MAX,
        ensures
            pc.0 == self.plus(n as int),
            pc == self.next_spec(n),
    {
        BcPc(self.0 + 16 * n)
    }

    pub open spec fn prev_spec(&self) -> BcPc {
        BcPc((self.0 - 16) as u64)
    }

    /// The record before this one.
    #[verifier::when_used_as_spec(prev_spec)]
    pub fn prev(&self) -> (pc: BcPc)
        requires
            self.0 >= 16,
        ensures
            pc.0 == self.plus(-1),
            pc == self.prev_spec(),
    {
        BcPc(self.0 - 16)
    }

    /// The number of records between `base` and this address.
    pub fn index_from(&self, base: BcPc) -> (i: u64)
        requires
            base.0 <= self.0,
        ensures
            i == (self.0 - base.0) / 16,
    {
        (self.0 - base.0) / 16
    }

    pub fn get_u64(&self) -> (a: u64)
        ensures
            a == self.0,
    {
        self.0
    }
}

} // verus!
