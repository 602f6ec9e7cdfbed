//! The bytecode: the 16-byte instruction record and its decoded form.
//!
//! The first word of a record packs a 16-bit opcode and the operands; the
//! second word is the instruction's inline cache.  Opcodes below 128 have one
//! 16-bit and one 32-bit operand, the others three 16-bit operands:
//!
//! ```text
//!  63      48 47      32 31                 0
//! +----------+----------+--------------------+
//! |  opcode  |   op1    |        op2         |   narrow
//! +----------+----------+----------+---------+
//! |  opcode  |   op1    |   op2    |   op3   |   wide
//! +----------+----------+----------+---------+
//! ```
//!
//! The numeric opcodes are also the indices of the interpreter's dispatch
//! table.

use vstd::prelude::*;
use crate::assembler::RuntimeFn;
use crate::ids::{ClassId, ConstSiteId, FuncId, IdentId, SlotId, FLOAT_CLASS, INTEGER_CLASS};
use crate::value::Value;

verus! {

/// Kinds of binary operation.
#[derive(Clone, Copy, Debug, PartialEq, Eq, Structural)]
pub enum BinOpK {
    Add,
    Sub,
    Mul,
    Div,
    BitOr,
    BitAnd,
    BitXor,
    Shr,
    Shl,
}

impl BinOpK {
    /// The kind with the given number, counted from `Add` as 0.
    pub open spec fn from_spec(i: u16) -> BinOpK {
        if i == 0 {
            BinOpK::Add
        } else if i == 1 {
            BinOpK::Sub
        } else if i == 2 {
            BinOpK::Mul
        } else if i == 3 {
            BinOpK::Div
        } else if i == 4 {
            BinOpK::BitOr
        } else if i == 5 {
            BinOpK::BitAnd
        } else if i == 6 {
            BinOpK::BitXor
        } else if i == 7 {
            BinOpK::Shr
        } else {
            BinOpK::Shl
        }
    }

    /// The kind's number.
    pub open spec fn code(self) -> u16 {
        match self {
            BinOpK::Add => 0,
            BinOpK::Sub => 1,
            BinOpK::Mul => 2,
            BinOpK::Div => 3,
            BinOpK::BitOr => 4,
            BinOpK::BitAnd => 5,
            BinOpK::BitXor => 6,
            BinOpK::Shr => 7,
            BinOpK::Shl => 8,
        }
    }

    pub fn from(i: u16) -> (k: BinOpK)
        requires
            i <= 8,
        ensures
            k == BinOpK::from_spec(i),
            k.code() == i,
    {
        match i {
            0 => BinOpK::Add,
            1 => BinOpK::Sub,
            2 => BinOpK::Mul,
            3 => BinOpK::Div,
            4 => BinOpK::BitOr,
            5 => BinOpK::BitAnd,
            6 => BinOpK::BitXor,
            7 => BinOpK::Shr,
            _ => BinOpK::Shl,
        }
    }

    /// The operation is one of the four of arithmetic.
    pub open spec fn arith(&self) -> bool {
        self is Add || self is Sub || self is Mul || self is Div
    }

    #[verifier::when_used_as_spec(arith)]
    pub fn is_arith(&self) -> (b: bool)
        ensures
            b == self.arith(),
    {
        match self {
            BinOpK::Add | BinOpK::Sub | BinOpK::Mul | BinOpK::Div => true,
            _ => false,
        }
    }

    /// The runtime function that performs the operation on any two values.
    pub open spec fn generic_func_spec(&self) -> RuntimeFn {
        match self {
            BinOpK::Add => RuntimeFn::AddValues,
            BinOpK::Sub => RuntimeFn::SubValues,
            BinOpK::Mul => RuntimeFn::MulValues,
            BinOpK::Div => RuntimeFn::DivValues,
            BinOpK::BitOr => RuntimeFn::BitOrValues,
            BinOpK::BitAnd => RuntimeFn::BitAndValues,
            BinOpK::BitXor => RuntimeFn::BitXorValues,
            BinOpK::Shr => RuntimeFn::ShrValues,
            BinOpK::Shl => RuntimeFn::ShlValues,
        }
    }

    #[verifier::when_used_as_spec(generic_func_spec)]
    pub fn generic_func(&self) -> (f: RuntimeFn)
        ensures
            f == self.generic_func_spec(),
    {
        match self {
            BinOpK::Add => RuntimeFn::AddValues,
            BinOpK::Sub => RuntimeFn::SubValues,
            BinOpK::Mul => RuntimeFn::MulValues,
            BinOpK::Div => RuntimeFn::DivValues,
            BinOpK::BitOr => RuntimeFn::BitOrValues,
            BinOpK::BitAnd => RuntimeFn::BitAndValues,
            BinOpK::BitXor => RuntimeFn::BitXorValues,
            BinOpK::Shr => RuntimeFn::ShrValues,
            BinOpK::Shl => RuntimeFn::ShlValues,
        }
    }

    /// The operator as it is written.
    pub fn to_s(&self) -> (s: &'static str)
        ensures
            s@ == match self {
                BinOpK::Add => "+"@,
                BinOpK::Sub => "-"@,
                BinOpK::Mul => "*"@,
                BinOpK::Div => "/"@,
                BinOpK::BitOr => "|"@,
                BinOpK::BitAnd => "&"@,
                BinOpK::BitXor => "^"@,
                BinOpK::Shr => ">>"@,
                BinOpK::Shl => "<<"@,
            },
    {
        match self {
            BinOpK::Add => "+",
            BinOpK::Sub => "-",
            BinOpK::Mul => "*",
            BinOpK::Div => "/",
            BinOpK::BitOr => "|",
            BinOpK::BitAnd => "&",
            BinOpK::BitXor => "^",
            BinOpK::Shr => ">>",
            BinOpK::Shl => "<<",
        }
    }
}

/// Kinds of comparison.
#[derive(Clone, Copy, Debug, PartialEq, Eq, Structural)]
pub enum CmpKind {
    Eq,
    Ne,
    Lt,
    Le,
    Gt,
    Ge,
}

impl CmpKind {
    /// The kind with the given number, counted from `Eq` as 0.
    pub open spec fn from_spec(i: u16) -> CmpKind {
        if i == 0 {
            CmpKind::Eq
        } else if i == 1 {
            CmpKind::Ne
        } else if i == 2 {
            CmpKind::Lt
        } else if i == 3 {
            CmpKind::Le
        } else if i == 4 {
            CmpKind::Gt
        } else {
            CmpKind::Ge
        }
    }

    pub fn from(i: u16) -> (k: CmpKind)
        requires
            i <= 5,
        ensures
            k == CmpKind::from_spec(i),
    {
        match i {
            0 => CmpKind::Eq,
            1 => CmpKind::Ne,
            2 => CmpKind::Lt,
            3 => CmpKind::Le,
            4 => CmpKind::Gt,
            _ => CmpKind::Ge,
        }
    }
}

/// Whether a conditional branch is taken on a true or on a false value.
#[derive(Clone, Copy, Debug, PartialEq, Eq, Structural)]
pub enum BrKind {
    BrIf,
    BrIfNot,
}

impl BrKind {
    pub open spec fn from_spec(i: u16) -> BrKind {
        if i == 0 {
            BrKind::BrIf
        } else {
            BrKind::BrIfNot
        }
    }

    pub fn from(i: u16) -> (k: BrKind)
        requires
            i <= 1,
        ensures
            k == BrKind::from_spec(i),
    {
        match i {
            0 => BrKind::BrIf,
            _ => BrKind::BrIfNot,
        }
    }

    pub fn to_s(&self) -> (s: &'static str)
        ensures
            s@ == match self {
                BrKind::BrIf => ""@,
                BrKind::BrIfNot => "not"@,
            },
    {
        match self {
            BrKind::BrIf => "",
            BrKind::BrIfNot => "not",
        }
    }
}

/// The second word of a record: the inline cache.
#[derive(Clone, Copy, Debug, PartialEq, Eq, Structural)]
pub struct Bc2(pub u64);

/// The word with `hi` in the upper and `lo` in the lower half.
pub open spec fn pair_word(hi: u32, lo: u32) -> u64 {
    (hi * 0x1_0000_0000 + lo) as u64
}

/// The lower half of a word.
pub open spec fn low_half(w: u64) -> u32 {
    (w % 0x1_0000_0000) as u32
}

/// The upper half of a word.
pub open spec fn high_half(w: u64) -> u32 {
    (w / 0x1_0000_0000) as u32
}

impl Bc2 {
    pub fn from(op: u64) -> (b: Bc2)
        ensures
            b.0 == op,
    {
        Bc2(op)
    }

    /// The cache of a call site: the receiver's class and the class version
    /// at which the site was resolved.
    pub fn class_and_version(class_id: ClassId, version: u32) -> (b: Bc2)
        ensures
            b.0 == pair_word(version, class_id.0),
    {
        Bc2(((version as u64) * 0x1_0000_0000) + (class_id.0 as u64))
    }

    /// The type feedback of a binary operation: the classes of both operands.
    pub fn class2(class_id1: ClassId, class_id2: ClassId) -> (b: Bc2)
        ensures
            b.0 == pair_word(class_id2.0, class_id1.0),
    {
        Bc2(((class_id2.0 as u64) * 0x1_0000_0000) + (class_id1.0 as u64))
    }

    pub fn get_value(&self) -> (v: Value)
        ensures
            v.0 == self.0,
    {
        Value::from(self.0)
    }
}

/// One bytecode record.
#[derive(Clone, Copy, Debug, PartialEq, Eq, Structural)]
pub struct Bc {
    pub op1: u64,
    pub op2: Bc2,
}

impl Bc {
    /// A record with an empty cache.
    pub fn from(op1: u64) -> (bc: Bc)
        ensures
            bc.op1 == op1,
            bc.op2.0 == 0,
    {
        Bc { op1, op2: Bc2::from(0) }
    }

    /// A record whose cache holds a literal value.
    pub fn from_with_value(op1: u64, val: Value) -> (bc: Bc)
        ensures
            bc.op1 == op1,
            bc.op2.0 == val.0,
    {
        Bc { op1, op2: Bc2::from(val.get()) }
    }

    /// A record whose second word holds a function id and a name.
    pub fn from_with_func_name_id(op1: u64, name: IdentId, func_id: FuncId) -> (bc: Bc)
        ensures
            bc.op1 == op1,
            bc.op2.0 == pair_word(func_id.0, name.0),
    {
        Bc { op1, op2: Bc2::from(((func_id.0 as u64) * 0x1_0000_0000) + (name.get() as u64)) }
    }

    /// A record whose cache holds a class and a class version.
    pub fn from_with_class_and_version(op1: u64, class_id: ClassId, version: u32) -> (bc: Bc)
        ensures
            bc.op1 == op1,
            bc.op2.0 == pair_word(version, class_id.0),
    {
        Bc { op1, op2: Bc2::class_and_version(class_id, version) }
    }

    /// A record of a binary operation whose type feedback starts as
    /// integer and integer.
    pub fn from_with_class2(op1: u64) -> (bc: Bc)
        ensures
            bc.op1 == op1,
            bc.op2.0 == pair_word(INTEGER_CLASS, INTEGER_CLASS),
    {
        Bc { op1, op2: Bc2::class2(ClassId(INTEGER_CLASS), ClassId(INTEGER_CLASS)) }
    }

    /// The class in the lower half of the cache.
    pub open spec fn class1(&self) -> ClassId {
        ClassId(low_half(self.op2.0))
    }

    /// The class in the upper half of the cache.
    pub open spec fn class2(&self) -> ClassId {
        ClassId(high_half(self.op2.0))
    }

    /// Type feedback says that both operands were floats, or one a float and
    /// the other an integer.
    pub open spec fn binary_float(&self) -> bool {
        let c1 = self.class1().0;
        let c2 = self.class2().0;
        (c1 == INTEGER_CLASS || c1 == FLOAT_CLASS) && (c2 == INTEGER_CLASS || c2 == FLOAT_CLASS)
            && !(c1 == INTEGER_CLASS && c2 == INTEGER_CLASS)
    }

    #[verifier::when_used_as_spec(class1)]
    pub fn classid1(&self) -> (c: ClassId)
        ensures
            c == self.class1(),
    {
        ClassId::new((self.op2.0 % 0x1_0000_0000) as u32)
    }

    #[verifier::when_used_as_spec(class2)]
    pub fn classid2(&self) -> (c: ClassId)
        ensures
            c == self.class2(),
    {
        ClassId::new((self.op2.0 / 0x1_0000_0000) as u32)
    }

    /// The cached class and class version of a call site.
    pub fn class_version(&self) -> (r: (ClassId, u32))
        ensures
            r.0 == self.class1(),
            r.1 == high_half(self.op2.0),
    {
        (self.classid1(), (self.op2.0 / 0x1_0000_0000) as u32)
    }

    /// The cached literal; `None` while the cache is empty.
    pub fn value(&self) -> (r: Option<Value>)
        ensures
            r == if self.op2.0 == 0 {
                None
            } else {
                Some(Value(self.op2.0))
            },
    {
        match self.op2.0 {
            0 => None,
            v => Some(Value::from(v)),
        }
    }

    /// The cached entry address of compiled code.
    pub fn from_jit_addr(&self) -> (a: u64)
        ensures
            a == self.op2.0,
    {
        self.op2.0
    }

    pub open spec fn is_integer1_spec(&self) -> bool {
        self.class1().0 == INTEGER_CLASS
    }

    #[verifier::when_used_as_spec(is_integer1_spec)]
    pub fn is_integer1(&self) -> (b: bool)
        ensures
            b == (self.class1().0 == INTEGER_CLASS),
    {
        self.classid1().0 == INTEGER_CLASS
    }

    pub open spec fn is_integer2_spec(&self) -> bool {
        self.class2().0 == INTEGER_CLASS
    }

    #[verifier::when_used_as_spec(is_integer2_spec)]
    pub fn is_integer2(&self) -> (b: bool)
        ensures
            b == (self.class2().0 == INTEGER_CLASS),
    {
        self.classid2().0 == INTEGER_CLASS
    }

    pub open spec fn is_float1_spec(&self) -> bool {
        self.class1().0 == FLOAT_CLASS
    }

    #[verifier::when_used_as_spec(is_float1_spec)]
    pub fn is_float1(&self) -> (b: bool)
        ensures
            b == (self.class1().0 == FLOAT_CLASS),
    {
        self.classid1().0 == FLOAT_CLASS
    }

    pub open spec fn is_float2_spec(&self) -> bool {
        self.class2().0 == FLOAT_CLASS
    }

    #[verifier::when_used_as_spec(is_float2_spec)]
    pub fn is_float2(&self) -> (b: bool)
        ensures
            b == (self.class2().0 == FLOAT_CLASS),
    {
        self.classid2().0 == FLOAT_CLASS
    }

    pub open spec fn is_binary_integer_spec(&self) -> bool {
        self.class1().0 == INTEGER_CLASS && self.class2().0 == INTEGER_CLASS
    }

    #[verifier::when_used_as_spec(is_binary_integer_spec)]
    pub fn is_binary_integer(&self) -> (b: bool)
        ensures
            b == (self.class1().0 == INTEGER_CLASS && self.class2().0 == INTEGER_CLASS),
    {
        self.classid1().0 == INTEGER_CLASS && self.classid2().0 == INTEGER_CLASS
    }

    pub open spec fn is_binary_float_spec(&self) -> bool {
        self.binary_float()
    }

    #[verifier::when_used_as_spec(is_binary_float_spec)]
    pub fn is_binary_float(&self) -> (b: bool)
        ensures
            b == self.binary_float(),
    {
        let c1 = self.classid1().0;
        let c2 = self.classid2().0;
        if c1 == INTEGER_CLASS && c2 == INTEGER_CLASS {
            false
        } else {
            (c1 == INTEGER_CLASS || c1 == FLOAT_CLASS) && (c2 == INTEGER_CLASS || c2 == FLOAT_CLASS)
        }
    }
}

/// The opcode of a first word: its top 16 bits.
pub open spec fn opcode_of(op: u64) -> u16 {
    (op / 0x1_0000_0000_0000) as u16
}

/// The first operand: bits 32 to 47.
pub open spec fn field1(op: u64) -> u16 {
    ((op / 0x1_0000_0000) % 0x1_0000) as u16
}

/// The second operand of the wide form: bits 16 to 31.
pub open spec fn field2(op: u64) -> u16 {
    ((op / 0x1_0000) % 0x1_0000) as u16
}

/// The third operand of the wide form: bits 0 to 15.
pub open spec fn field3(op: u64) -> u16 {
    (op % 0x1_0000) as u16
}

/// The 32-bit word read as a signed number in two's complement.
pub open spec fn signed32(x: u32) -> i32 {
    if x < 0x8000_0000 {
        x as i32
    } else {
        (x - 0x1_0000_0000) as i32
    }
}

/// The 16-bit word read as a signed number in two's complement.
pub open spec fn signed16(x: u16) -> i16 {
    if x < 0x8000 {
        x as i16
    } else {
        (x - 0x1_0000) as i16
    }
}

fn get_opcode(op: u64) -> (c: u16)
    ensures
        c == opcode_of(op),
{
    (op / 0x1_0000_0000_0000) as u16
}

fn to_i32(x: u32) -> (r: i32)
    ensures
        r == signed32(x),
{
    if x < 0x8000_0000 {
        x as i32
    } else {
        (x as i64 - 0x1_0000_0000) as i32
    }
}

fn to_i16(x: u16) -> (r: i16)
    ensures
        r == signed16(x),
{
    if x < 0x8000 {
        x as i16
    } else {
        (x as i32 - 0x1_0000) as i16
    }
}

/// Splits a first word of the narrow form into its operands.
pub fn dec_wl(op: u64) -> (r: (u16, u32))
    ensures
        r.0 == field1(op),
        r.1 == low_half(op),
{
    (((op / 0x1_0000_0000) % 0x1_0000) as u16, (op % 0x1_0000_0000) as u32)
}

/// Splits a first word of the wide form into its operands.
pub fn dec_www(op: u64) -> (r: (u16, u16, u16))
    ensures
        r.0 == field1(op),
        r.1 == field2(op),
        r.2 == field3(op),
{
    (
        ((op / 0x1_0000_0000) % 0x1_0000) as u16,
        ((op / 0x1_0000) % 0x1_0000) as u16,
        (op % 0x1_0000) as u16,
    )
}

/// Bytecode instructions.
#[derive(Clone, Copy, Debug, PartialEq, Eq, Structural)]
pub enum BcOp {
    /// branch(dest)
    Br(i32),
    /// conditional branch(%reg, dest, optimizable): branch when reg was true.
    CondBr(SlotId, i32, bool, BrKind),
    /// integer(%reg, i32)
    Integer(SlotId, i32),
    /// Symbol(%reg, IdentId)
    Symbol(SlotId, IdentId),
    /// literal(%ret, value)
    Literal(SlotId, Value),
    /// array(%ret, %src, len)
    Array(SlotId, SlotId, u16),
    /// index(%ret, %base, %idx)
    Index(SlotId, SlotId, SlotId),
    /// index(%src, %base, %idx)
    IndexAssign(SlotId, SlotId, SlotId),
    LoadConst(SlotId, ConstSiteId),
    StoreConst(SlotId, IdentId),
    /// %ret = @id
    LoadIvar(SlotId, IdentId),
    /// @id = %src
    StoreIvar(SlotId, IdentId),
    /// nil(%reg)
    Nil(SlotId),
    /// negate(%ret, %src)
    Neg(SlotId, SlotId),
    /// binop(kind, %ret, %lhs, %rhs)
    BinOp(BinOpK, SlotId, SlotId, SlotId),
    /// binop with small integer(kind, %ret, %lhs, rhs)
    BinOpRi(BinOpK, SlotId, SlotId, i16),
    /// binop with small integer(kind, %ret, lhs, %rhs)
    BinOpIr(BinOpK, SlotId, i16, SlotId),
    /// cmp(%ret, %lhs, %rhs, optimizable)
    Cmp(CmpKind, SlotId, SlotId, SlotId, bool),
    /// cmpri(%ret, %lhs, rhs: i16, optimizable)
    Cmpri(CmpKind, SlotId, SlotId, i16, bool),
    /// return(%ret)
    Ret(SlotId),
    /// move(%dst, %src)
    Mov(SlotId, SlotId),
    /// func call(%ret, name)
    MethodCall(SlotId, IdentId),
    /// func call 2nd opecode(%recv, %args, len)
    MethodArgs(SlotId, SlotId, u16),
    /// method definition(method_name, func_id)
    MethodDef(IdentId, FuncId),
    /// yield(%ret, %args, len)
    Yield(SlotId, SlotId, u16),
    /// concatenate strings(ret, args, args_len)
    ConcatStr(SlotId, SlotId, u16),
    /// loop start marker
    LoopStart(u32),
    LoopEnd,
}

/// The instruction of the narrow form with the given opcode and operands;
/// `cache` is the record's second word.
pub open spec fn decode_narrow(opcode: u16, a: SlotId, l: u32, cache: u64) -> Option<BcOp> {
    if opcode == 1 {
        Some(BcOp::MethodCall(a, IdentId(l)))
    } else if opcode == 2 {
        Some(BcOp::MethodDef(IdentId(low_half(cache)), FuncId(high_half(cache))))
    } else if opcode == 3 {
        Some(BcOp::Br(signed32(l)))
    } else if opcode == 4 {
        Some(BcOp::CondBr(a, signed32(l), false, BrKind::BrIf))
    } else if opcode == 5 {
        Some(BcOp::CondBr(a, signed32(l), false, BrKind::BrIfNot))
    } else if opcode == 6 {
        Some(BcOp::Integer(a, signed32(l)))
    } else if opcode == 7 {
        Some(BcOp::Literal(a, Value(cache)))
    } else if opcode == 8 {
        Some(BcOp::Nil(a))
    } else if opcode == 9 {
        Some(BcOp::Symbol(a, IdentId(l)))
    } else if opcode == 10 {
        Some(BcOp::LoadConst(a, ConstSiteId(l)))
    } else if opcode == 11 {
        Some(BcOp::StoreConst(a, IdentId(l)))
    } else if opcode == 12 {
        Some(BcOp::CondBr(a, signed32(l), true, BrKind::BrIf))
    } else if opcode == 13 {
        Some(BcOp::CondBr(a, signed32(l), true, BrKind::BrIfNot))
    } else if opcode == 14 {
        Some(BcOp::LoopStart(l))
    } else if opcode == 15 {
        Some(BcOp::LoopEnd)
    } else if opcode == 16 {
        Some(BcOp::LoadIvar(a, IdentId(l)))
    } else if opcode == 17 {
        Some(BcOp::StoreIvar(a, IdentId(l)))
    } else {
        None
    }
}

/// The instruction of the wide form with the given opcode and operands.
pub open spec fn decode_wide(opcode: u16, a: u16, b: u16, c: u16) -> Option<BcOp> {
    if opcode == 129 {
        Some(BcOp::Neg(SlotId(a), SlotId(b)))
    } else if opcode == 130 {
        Some(BcOp::MethodArgs(SlotId(a), SlotId(b), c))
    } else if opcode == 131 {
        Some(BcOp::Array(SlotId(a), SlotId(b), c))
    } else if opcode == 132 {
        Some(BcOp::Index(SlotId(a), SlotId(b), SlotId(c)))
    } else if opcode == 133 {
        Some(BcOp::IndexAssign(SlotId(a), SlotId(b), SlotId(c)))
    } else if 134 <= opcode <= 139 {
        Some(BcOp::Cmp(CmpKind::from_spec(rel(opcode, 134)), SlotId(a), SlotId(b), SlotId(c), false))
    } else if 142 <= opcode <= 147 {
        Some(BcOp::Cmpri(CmpKind::from_spec(rel(opcode, 142)), SlotId(a), SlotId(b), signed16(c), false))
    } else if opcode == 148 {
        Some(BcOp::Ret(SlotId(a)))
    } else if opcode == 149 {
        Some(BcOp::Mov(SlotId(a), SlotId(b)))
    } else if opcode == 152 {
        Some(BcOp::Yield(SlotId(a), SlotId(b), c))
    } else if opcode == 155 {
        Some(BcOp::ConcatStr(SlotId(a), SlotId(b), c))
    } else if 156 <= opcode <= 161 {
        Some(BcOp::Cmp(CmpKind::from_spec(rel(opcode, 156)), SlotId(a), SlotId(b), SlotId(c), true))
    } else if 162 <= opcode <= 167 {
        Some(BcOp::Cmpri(CmpKind::from_spec(rel(opcode, 162)), SlotId(a), SlotId(b), signed16(c), true))
    } else if 170 <= opcode <= 178 {
        Some(BcOp::BinOp(BinOpK::from_spec(rel(opcode, 170)), SlotId(a), SlotId(b), SlotId(c)))
    } else if 180 <= opcode <= 188 {
        Some(BcOp::BinOpIr(BinOpK::from_spec(rel(opcode, 180)), SlotId(a), signed16(b), SlotId(c)))
    } else if 190 <= opcode <= 198 {
        Some(BcOp::BinOpRi(BinOpK::from_spec(rel(opcode, 190)), SlotId(a), SlotId(b), signed16(c)))
    } else {
        None
    }
}

/// An opcode's place in its family, whose first opcode is `base`.
pub open spec fn rel(opcode: u16, base: u16) -> u16 {
    (opcode - base) as u16
}

/// The instruction that a record holds; `None` where the opcode names none.
pub open spec fn decode(bc: Bc) -> Option<BcOp> {
    let opcode = opcode_of(bc.op1);
    if opcode < 128 {
        decode_narrow(opcode, SlotId(field1(bc.op1)), low_half(bc.op1), bc.op2.0)
    } else {
        decode_wide(opcode, field1(bc.op1), field2(bc.op1), field3(bc.op1))
    }
}

impl BcOp {
    /// Decodes a record; `None` where the opcode names no instruction.
    pub fn try_from_bc(bcop: &Bc) -> (r: Option<BcOp>)
        ensures
            r == decode(*bcop),
    {
        let op = bcop.op1;
        let opcode = get_opcode(op);
        if opcode < 128 {
            let (op1, op2) = dec_wl(op);
            let a = SlotId::new(op1);
            match opcode {
                1 => Some(BcOp::MethodCall(a, IdentId::from(op2))),
                2 => {
                    let (name, func) = dec_cache(bcop.op2.0);
                    Some(BcOp::MethodDef(IdentId::from(name), FuncId(func)))
                },
                3 => Some(BcOp::Br(to_i32(op2))),
                4 => Some(BcOp::CondBr(a, to_i32(op2), false, BrKind::BrIf)),
                5 => Some(BcOp::CondBr(a, to_i32(op2), false, BrKind::BrIfNot)),
                6 => Some(BcOp::Integer(a, to_i32(op2))),
                7 => Some(BcOp::Literal(a, bcop.op2.get_value())),
                8 => Some(BcOp::Nil(a)),
                9 => Some(BcOp::Symbol(a, IdentId::from(op2))),
                10 => Some(BcOp::LoadConst(a, ConstSiteId(op2))),
                11 => Some(BcOp::StoreConst(a, IdentId::from(op2))),
                12 => Some(BcOp::CondBr(a, to_i32(op2), true, BrKind::BrIf)),
                13 => Some(BcOp::CondBr(a, to_i32(op2), true, BrKind::BrIfNot)),
                14 => Some(BcOp::LoopStart(op2)),
                15 => Some(BcOp::LoopEnd),
                16 => Some(BcOp::LoadIvar(a, IdentId::from(op2))),
                17 => Some(BcOp::StoreIvar(a, IdentId::from(op2))),
                _ => None,
            }
        } else {
            let (op1, op2, op3) = dec_www(op);
            let a = SlotId::new(op1);
            let b = SlotId::new(op2);
            let c = SlotId::new(op3);
            if opcode == 129 {
                Some(BcOp::Neg(a, b))
            } else if opcode == 130 {
                Some(BcOp::MethodArgs(a, b, op3))
            } else if opcode == 131 {
                Some(BcOp::Array(a, b, op3))
            } else if opcode == 132 {
                Some(BcOp::Index(a, b, c))
            } else if opcode == 133 {
                Some(BcOp::IndexAssign(a, b, c))
            } else if 134 <= opcode && opcode <= 139 {
                Some(BcOp::Cmp(CmpKind::from(opcode - 134), a, b, c, false))
            } else if 142 <= opcode && opcode <= 147 {
                Some(BcOp::Cmpri(CmpKind::from(opcode - 142), a, b, to_i16(op3), false))
            } else if opcode == 148 {
                Some(BcOp::Ret(a))
            } else if opcode == 149 {
                Some(BcOp::Mov(a, b))
            } else if opcode == 152 {
                Some(BcOp::Yield(a, b, op3))
            } else if opcode == 155 {
                Some(BcOp::ConcatStr(a, b, op3))
            } else if 156 <= opcode && opcode <= 161 {
                Some(BcOp::Cmp(CmpKind::from(opcode - 156), a, b, c, true))
            } else if 162 <= opcode && opcode <= 167 {
                Some(BcOp::Cmpri(CmpKind::from(opcode - 162), a, b, to_i16(op3), true))
            } else if 170 <= opcode && opcode <= 178 {
                Some(BcOp::BinOp(BinOpK::from(opcode - 170), a, b, c))
            } else if 180 <= opcode && opcode <= 188 {
                Some(BcOp::BinOpIr(BinOpK::from(opcode - 180), a, to_i16(op2), c))
            } else if 190 <= opcode && opcode <= 198 {
                Some(BcOp::BinOpRi(BinOpK::from(opcode - 190), a, b, to_i16(op3)))
            } else {
                None
            }
        }
    }

    /// Decodes a record whose opcode names an instruction.
    pub fn from_bc(bcop: &Bc) -> (op: BcOp)
        requires
            decode(*bcop) is Some,
        ensures
            Some(op) == decode(*bcop),
    {
        match BcOp::try_from_bc(bcop) {
            Some(op) => op,
            None => BcOp::LoopEnd,
        }
    }
}

/// The two halves of a cache word: lower, upper.
fn dec_cache(w: u64) -> (r: (u32, u32))
    ensures
        r.0 == low_half(w),
        r.1 == high_half(w),
{
    ((w % 0x1_0000_0000) as u32, (w / 0x1_0000_0000) as u32)
}

} // verus!
