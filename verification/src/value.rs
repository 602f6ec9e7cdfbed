//! NaN-boxed 64-bit tagged values.
//!
//! A value is one machine word.  The low bits say what the rest holds:
//!
//! | low bits | meaning                                             |
//! |----------|-----------------------------------------------------|
//! | `...1`   | small integer, payload in the upper 63 bits         |
//! | `..10`   | inline float, an IEEE-754 double rotated left by 3  |
//! | `..00`   | pointer space: heap objects and `nil`/`true`/`false` |
//!
//! Floating point numbers are handled as their IEEE-754 bit patterns, so that
//! every statement about packing is a statement about 64-bit words.

use vstd::prelude::*;

verus! {

/// Raw word of `nil`.
pub const NIL_VALUE: u64 = 0x04;

/// Raw word of `false`.
pub const FALSE_VALUE: u64 = 0x14;

/// Raw word of `true`.
pub const TRUE_VALUE: u64 = 0x1c;

/// Tag of a symbol (low byte); the symbol's id sits in the upper half.
pub const TAG_SYMBOL: u64 = 0x0c;

/// Raw word that stands for the float zero.
pub const FLOAT_ZERO: u64 = 0x8000_0000_0000_0002;

/// The one double whose packed form would be the zero sentinel: 2^-255.
/// It is never held inline.
pub const FLOAT_ZERO_TWIN: u64 = 0x3000_0000_0000_0000;

/// Bit pattern of `-0.0`.
pub const NEG_ZERO_BITS: u64 = 0x8000_0000_0000_0000;

/// Least integer a small integer can hold.
pub const FIXNUM_MIN: i64 = -0x4000_0000_0000_0000;

/// Greatest integer a small integer can hold.
pub const FIXNUM_MAX: i64 = 0x3fff_ffff_ffff_ffff;

/// `i` fits in the 63-bit payload of a small integer.
pub open spec fn is_i63(i: int) -> bool {
    -0x4000_0000_0000_0000 <= i < 0x4000_0000_0000_0000
}

/// The word `2 * i + 1`, in two's complement.
pub open spec fn fixnum_raw(i: int) -> u64
    recommends
        is_i63(i),
{
    if i >= 0 {
        (2 * i + 1) as u64
    } else {
        (0x1_0000_0000_0000_0000 + 2 * i + 1) as u64
    }
}

/// The integer a small-integer word holds: its arithmetic shift right by one.
pub open spec fn fixnum_value(raw: u64) -> int
    recommends
        raw & 1 == 1,
{
    if raw < 0x8000_0000_0000_0000 {
        (raw as int - 1) / 2
    } else {
        (raw as int - 1 - 0x1_0000_0000_0000_0000) / 2
    }
}

/// `x` rotated left by three bits.
pub open spec fn rotl3(x: u64) -> u64 {
    (x << 3) | (x >> 61)
}

/// `x` rotated right by three bits.
pub open spec fn rotr3(x: u64) -> u64 {
    (x >> 3) | (x << 61)
}

/// The double is `+0.0` or `-0.0`.
pub open spec fn is_zero_bits(bits: u64) -> bool {
    bits == 0 || bits == NEG_ZERO_BITS
}

/// The double is a NaN: exponent all ones, fraction not zero.
pub open spec fn is_nan_bits(bits: u64) -> bool {
    (bits >> 52) & 0x7ff == 0x7ff && bits & 0x000f_ffff_ffff_ffff != 0
}

/// The double is an infinity.
pub open spec fn is_infinite_bits(bits: u64) -> bool {
    bits & 0x7fff_ffff_ffff_ffff == 0x7ff0_0000_0000_0000
}

/// The top three exponent bits are `011` or `100`, so that two of them can be
/// dropped and found again from the third, and the packed word is not the
/// one that stands for zero.
pub open spec fn flonum_inline(bits: u64) -> bool {
    ((bits >> 60) & 7 == 3 || (bits >> 60) & 7 == 4) && bits != FLOAT_ZERO_TWIN
}

/// The packed word of an inline double.
pub open spec fn pack_flonum(bits: u64) -> u64 {
    (rotl3(bits) & !3u64) | 2
}

/// The double a packed word holds.
pub open spec fn unpack_flonum(raw: u64) -> u64 {
    if raw == FLOAT_ZERO {
        0
    } else {
        rotr3((raw & !3u64) | ((2 - (raw >> 63)) as u64))
    }
}

/// The greatest power of two that is at most `m`.
pub open spec fn top_pow2(m: int) -> int
    decreases m,
{
    if m <= 1 {
        1
    } else {
        2 * top_pow2(m / 2)
    }
}

/// The exponent of the greatest power of two that is at most `m`.
pub open spec fn ilog2(m: int) -> int
    decreases m,
{
    if m <= 1 {
        0
    } else {
        1 + ilog2(m / 2)
    }
}

/// The IEEE-754 bits of the double that equals the integer `n`, for an
/// integer of less than 53 bits: sign, biased exponent, and the bits below
/// the leading one as the fraction.
pub open spec fn float_bits_of_int(n: int) -> u64 {
    if n == 0 {
        0
    } else {
        let m = if n < 0 {
            -n
        } else {
            n
        };
        let sign = if n < 0 {
            0x8000_0000_0000_0000
        } else {
            0int
        };
        (sign + (1023 + ilog2(m)) * 0x10_0000_0000_0000 + (m - top_pow2(m)) * (0x10_0000_0000_0000int
            / top_pow2(m))) as u64
    }
}

pub open spec fn float_bits_of_i16_spec(i: i16) -> u64 {
    float_bits_of_int(i as int)
}

/// The bits of the double that equals `i`.
#[verifier::when_used_as_spec(float_bits_of_i16_spec)]
pub fn float_bits_of_i16(i: i16) -> (bits: u64)
    ensures
        bits == float_bits_of_int(i as int),
{
    if i == 0 {
        return 0;
    }
    let m: u64 = if i < 0 {
        (-(i as i64)) as u64
    } else {
        i as u64
    };
    let sign: u64 = if i < 0 {
        0x8000_0000_0000_0000
    } else {
        0
    };
    let mut t: u64 = m;
    let mut p: u64 = 1;
    let mut e: u64 = 0;
    while t > 1
        invariant
            1 <= m <= 0x8000,
            1 <= t,
            1 <= p,
            p * t <= m,
            m < p * (t + 1),
            e <= 15,
            p * t <= 0x8000,
            top_pow2(m as int) == p * top_pow2(t as int),
            ilog2(m as int) == e + ilog2(t as int),
            (e == 15 ==> t == 1),
            0x10_0000_0000_0000int % (p as int) == 0,
            p <= 0x8000,
            pow_exp(p as int, e as int),
        decreases t,
    {
        let t2 = t / 2;
        proof {
            let tt = t as int;
            let pp = p as int;
            assert(2 * pp * (tt / 2) <= pp * tt) by (nonlinear_arith)
                requires
                    pp >= 1,
                    tt >= 2,
            ;
            assert(pp * (tt + 1) <= 2 * pp * (tt / 2 + 1)) by (nonlinear_arith)
                requires
                    pp >= 1,
                    tt >= 2,
            ;
            assert(2 * pp <= pp * tt) by (nonlinear_arith)
                requires
                    pp >= 1,
                    tt >= 2,
            ;
            assert(pp * top_pow2(tt) == 2 * pp * top_pow2(tt / 2)) by (nonlinear_arith)
                requires
                    top_pow2(tt) == 2 * top_pow2(tt / 2),
            ;
            lemma_pow_exp_step(pp, e as int);
        }
        t = t2;
        p = p * 2;
        e = e + 1;
    }
    assert(p * 1 == p) by (nonlinear_arith);
    assert(m < p * 2) by (nonlinear_arith)
        requires
            m < p * (t + 1),
            t == 1,
    ;
    let q: u64 = 0x10_0000_0000_0000 / p;
    assert((m - p) * q < 0x10_0000_0000_0000) by (nonlinear_arith)
        requires
            m - p < p,
            q * p <= 0x10_0000_0000_0000,
            q >= 1,
            p >= 1,
    ;
    sign + (1023 + e) * 0x10_0000_0000_0000 + (m - p) * q
}

/// `p` is two to the power `e`, for an exponent up to 15.
pub open spec fn pow_exp(p: int, e: int) -> bool {
    (e == 0 && p == 1) || (e == 1 && p == 2) || (e == 2 && p == 4) || (e == 3 && p == 8) || (e == 4
        && p == 16) || (e == 5 && p == 32) || (e == 6 && p == 64) || (e == 7 && p == 128) || (e == 8
        && p == 256) || (e == 9 && p == 512) || (e == 10 && p == 1024) || (e == 11 && p == 2048) || (e
        == 12 && p == 4096) || (e == 13 && p == 8192) || (e == 14 && p == 16384) || (e == 15 && p
        == 32768)
}

proof fn lemma_pow_exp_step(p: int, e: int)
    requires
        pow_exp(p, e),
        2 * p <= 0x8000,
    ensures
        pow_exp(2 * p, e + 1),
        0x10_0000_0000_0000int % (2 * p) == 0,
{
    if p == 1 {
        assert(0x10_0000_0000_0000int % 2 == 0);
    }
    if p == 2 {
        assert(0x10_0000_0000_0000int % 4 == 0);
    }
    if p == 4 {
        assert(0x10_0000_0000_0000int % 8 == 0);
    }
    if p == 8 {
        assert(0x10_0000_0000_0000int % 16 == 0);
    }
    if p == 16 {
        assert(0x10_0000_0000_0000int % 32 == 0);
    }
    if p == 32 {
        assert(0x10_0000_0000_0000int % 64 == 0);
    }
    if p == 64 {
        assert(0x10_0000_0000_0000int % 128 == 0);
    }
    if p == 128 {
        assert(0x10_0000_0000_0000int % 256 == 0);
    }
    if p == 256 {
        assert(0x10_0000_0000_0000int % 512 == 0);
    }
    if p == 512 {
        assert(0x10_0000_0000_0000int % 1024 == 0);
    }
    if p == 1024 {
        assert(0x10_0000_0000_0000int % 2048 == 0);
    }
    if p == 2048 {
        assert(0x10_0000_0000_0000int % 4096 == 0);
    }
    if p == 4096 {
        assert(0x10_0000_0000_0000int % 8192 == 0);
    }
    if p == 8192 {
        assert(0x10_0000_0000_0000int % 16384 == 0);
    }
    if p == 16384 {
        assert(0x10_0000_0000_0000int % 32768 == 0);
    }
}

/// What a word is, by its tag.
pub enum Kind {
    /// A small integer with its value.
    Fixnum(int),
    /// An inline float with its IEEE-754 bits.
    Flonum(u64),
    Nil,
    True,
    False,
    /// Anything else in the pointer space: a heap object or a symbol.
    Other,
}

/// A tagged 64-bit value.
#[derive(Clone, Copy, Debug, PartialEq, Eq, Structural)]
pub struct Value(pub u64);

impl Value {
    /// The value's kind, read off its tag bits.
    pub open spec fn kind(self) -> Kind {
        if self.0 & 1 == 1 {
            Kind::Fixnum(fixnum_value(self.0))
        } else if self.0 & 3 == 2 {
            Kind::Flonum(unpack_flonum(self.0))
        } else if self.0 == NIL_VALUE {
            Kind::Nil
        } else if self.0 == TRUE_VALUE {
            Kind::True
        } else if self.0 == FALSE_VALUE {
            Kind::False
        } else {
            Kind::Other
        }
    }

    /// Everything but `nil` and `false` counts as true.
    pub open spec fn truthy(self) -> bool {
        !(self.kind() is Nil) && !(self.kind() is False)
    }

    /// The value with the given raw word.
    pub fn from(raw: u64) -> (v: Value)
        ensures
            v.0 == raw,
    {
        Value(raw)
    }

    /// The raw word.
    pub fn get(&self) -> (raw: u64)
        ensures
            raw == self.0,
    {
        self.0
    }

    pub fn nil() -> (v: Value)
        ensures
            v.0 == NIL_VALUE,
            v.kind() is Nil,
    {
        proof {
            lemma_constant_tags();
        }
        Value(NIL_VALUE)
    }

    pub fn bool(b: bool) -> (v: Value)
        ensures
            v.0 == if b { TRUE_VALUE } else { FALSE_VALUE },
            b ==> v.kind() is True,
            !b ==> v.kind() is False,
    {
        proof {
            lemma_constant_tags();
        }
        if b {
            Value(TRUE_VALUE)
        } else {
            Value(FALSE_VALUE)
        }
    }

    /// The small integer `num`.
    pub fn fixnum(num: i64) -> (v: Value)
        requires
            is_i63(num as int),
        ensures
            v.0 == fixnum_raw(num as int),
            v.kind() == Kind::Fixnum(num as int),
    {
        let raw = ((num as u64) << 1) | 1;
        proof {
            lemma_fixnum_shift(num, raw);
            lemma_fixnum_round_trip(num as int);
        }
        Value(raw)
    }

    /// The small integer `num`, where it fits in 63 bits; `None` where the
    /// number needs arbitrary precision.
    pub fn from_integer(num: i64) -> (r: Option<Value>)
        ensures
            r is Some <==> is_i63(num as int),
            r matches Some(v) ==> v.0 == fixnum_raw(num as int) && v.kind() == Kind::Fixnum(
                num as int,
            ),
    {
        if FIXNUM_MIN <= num && num <= FIXNUM_MAX {
            Some(Value::fixnum(num))
        } else {
            None
        }
    }

    /// The small integer `num`; every 32-bit integer fits.
    pub fn int32(num: i32) -> (v: Value)
        ensures
            v.0 == fixnum_raw(num as int),
            v.kind() == Kind::Fixnum(num as int),
    {
        Value::fixnum(num as i64)
    }

    pub fn is_fixnum(&self) -> (b: bool)
        ensures
            b == (self.0 & 1 == 1),
            b == (self.kind() is Fixnum),
    {
        self.0 & 1 == 1
    }

    /// The integer of a small integer; `None` for every other value.
    pub fn as_integer(&self) -> (r: Option<i64>)
        ensures
            r is Some <==> self.kind() is Fixnum,
            r matches Some(i) ==> self.kind() == Kind::Fixnum(i as int) && is_i63(i as int)
                && fixnum_raw(i as int) == self.0,
    {
        if self.0 & 1 == 1 {
            let raw = self.0;
            let i = (raw as i64) >> 1;
            proof {
                lemma_fixnum_unshift(raw, i);
            }
            Some(i)
        } else {
            None
        }
    }

    /// The value of the double with the given bits, where it can be held
    /// inline; `None` where it has to be boxed on the heap.
    ///
    /// Both zeros are held as the zero sentinel.
    pub fn from_float(bits: u64) -> (r: Option<Value>)
        ensures
            r is Some <==> is_zero_bits(bits) || flonum_inline(bits),
            is_zero_bits(bits) ==> r == Some(Value(FLOAT_ZERO)),
            !is_zero_bits(bits) && flonum_inline(bits) ==> r == Some(Value(pack_flonum(bits))),
            r matches Some(v) ==> v.kind() is Flonum,
    {
        if bits == 0 || bits == NEG_ZERO_BITS {
            proof {
                lemma_constant_tags();
            }
            Some(Value(FLOAT_ZERO))
        } else {
            let top = (bits >> 60) & 7;
            if (top == 3 || top == 4) && bits != FLOAT_ZERO_TWIN {
                let raw = (((bits << 3) | (bits >> 61)) & !3u64) | 2;
                proof {
                    lemma_flonum_round_trip(bits);
                }
                Some(Value(raw))
            } else {
                None
            }
        }
    }

    pub fn is_flonum(&self) -> (b: bool)
        ensures
            b == (self.kind() is Flonum),
    {
        proof {
            lemma_tags_disjoint(self.0);
        }
        self.0 & 3 == 2
    }

    /// The bits of an inline double; `None` for every other value.
    pub fn as_float(&self) -> (r: Option<u64>)
        ensures
            r is Some <==> self.kind() is Flonum,
            r matches Some(bits) ==> self.kind() == Kind::Flonum(bits),
    {
        proof {
            lemma_tags_disjoint(self.0);
        }
        if self.0 & 3 == 2 {
            if self.0 == FLOAT_ZERO {
                Some(0)
            } else {
                let raw = self.0;
                assert(raw >> 63 <= 1) by (bit_vector);
                let low = 2 - (raw >> 63);
                let w = (raw & !3u64) | low;
                Some((w >> 3) | (w << 61))
            }
        } else {
            None
        }
    }

    pub fn is_nil(&self) -> (b: bool)
        ensures
            b == (self.kind() is Nil),
    {
        proof {
            lemma_constant_tags();
        }
        self.0 == NIL_VALUE
    }

    /// The test that a conditional branch makes: fold `nil` into `false` by
    /// setting bit 4, then compare with `false`.
    pub fn is_truthy(&self) -> (b: bool)
        ensures
            b == (self.0 | 0x10 != FALSE_VALUE),
            b == self.truthy(),
    {
        proof {
            lemma_truthy(self.0);
        }
        (self.0 | 0x10) != FALSE_VALUE
    }

    /// The boolean that a comparison leaves: the flag shifted left by three,
    /// or-ed onto `false`.
    pub fn from_flag(flag: bool) -> (v: Value)
        ensures
            v == Value::bool_spec(flag),
            v.0 == ((if flag { 1u64 } else { 0u64 }) << 3) | FALSE_VALUE,
    {
        let bit: u64 = if flag { 1 } else { 0 };
        let raw = (bit << 3) | FALSE_VALUE;
        assert((1u64 << 3) | 0x14 == 0x1c && (0u64 << 3) | 0x14 == 0x14) by (bit_vector);
        Value(raw)
    }

    /// `true` or `false` as a value.
    pub open spec fn bool_spec(b: bool) -> Value {
        if b {
            Value(TRUE_VALUE)
        } else {
            Value(FALSE_VALUE)
        }
    }
}

/// The tags of the constants: none of them is a small integer or a float.
pub proof fn lemma_constant_tags()
    ensures
        Value(NIL_VALUE).kind() is Nil,
        Value(TRUE_VALUE).kind() is True,
        Value(FALSE_VALUE).kind() is False,
        Value(FLOAT_ZERO).kind() == Kind::Flonum(0),
        forall|raw: u64| #[trigger] Value(raw).kind() is Nil <==> raw == NIL_VALUE,
{
    assert(0x04u64 & 1 == 0 && 0x04u64 & 3 == 0 && 0x1cu64 & 1 == 0 && 0x1cu64 & 3 == 0 && 0x14u64
        & 1 == 0 && 0x14u64 & 3 == 0 && 0x8000_0000_0000_0002u64 & 1 == 0
        && 0x8000_0000_0000_0002u64 & 3 == 2) by (bit_vector);
}

/// A word is a small integer or a float, never both.
pub proof fn lemma_tags_disjoint(raw: u64)
    ensures
        raw & 3 == 2 ==> raw & 1 == 0,
        raw & 1 == 1 ==> raw & 3 != 2,
{
    assert((raw & 3 == 2 ==> raw & 1 == 0) && (raw & 1 == 1 ==> raw & 3 != 2)) by (bit_vector);
}

/// The test of a conditional branch is false of `nil` and `false` only.
pub proof fn lemma_truthy(raw: u64)
    ensures
        (raw | 0x10 != FALSE_VALUE) == Value(raw).truthy(),
{
    assert((raw == 0x04 || raw == 0x14 <==> raw | 0x10 == 0x14) && (raw == 0x04 || raw == 0x14
        ==> raw & 1 == 0 && raw & 3 == 0)) by (bit_vector);
}

proof fn lemma_fixnum_shift(num: i64, raw: u64)
    requires
        is_i63(num as int),
        raw == ((num as u64) << 1) | 1,
    ensures
        raw == fixnum_raw(num as int),
{
    assert((num >= 0 ==> raw == 2 * num + 1) && (num < 0 ==> raw == 0x1_0000_0000_0000_0000 + 2
        * num + 1)) by (bit_vector)
        requires
            raw == ((num as u64) << 1) | 1,
            -0x4000_0000_0000_0000 <= num < 0x4000_0000_0000_0000,
    ;
}

proof fn lemma_fixnum_unshift(raw: u64, i: i64)
    requires
        raw & 1 == 1,
        i == (raw as i64) >> 1,
    ensures
        is_i63(i as int),
        fixnum_raw(i as int) == raw,
        fixnum_value(raw) == i,
{
    assert(-0x4000_0000_0000_0000 <= i < 0x4000_0000_0000_0000 && (i >= 0 ==> raw == 2 * i + 1
        && raw < 0x8000_0000_0000_0000) && (i < 0 ==> raw == 0x1_0000_0000_0000_0000 + 2 * i + 1
        && raw >= 0x8000_0000_0000_0000)) by (bit_vector)
        requires
            i == (raw as i64) >> 1,
            raw & 1 == 1,
    ;
}

/// Tag round trip of small integers: the word of `i` is tagged as a small
/// integer and holds `i` again.
pub proof fn lemma_fixnum_round_trip(i: int)
    requires
        is_i63(i),
    ensures
        fixnum_raw(i) & 1 == 1,
        fixnum_value(fixnum_raw(i)) == i,
        Value(fixnum_raw(i)).kind() == Kind::Fixnum(i),
{
    let raw = fixnum_raw(i);
    if i >= 0 {
        let h = i as u64;
        assert(raw == 2 * h + 1);
        assert((2 * h + 1) as u64 & 1 == 1) by (bit_vector)
            requires
                h < 0x4000_0000_0000_0000,
        ;
    } else {
        let h = (0x8000_0000_0000_0000 + i) as u64;
        assert(raw == 2 * h + 1);
        assert((2 * h + 1) as u64 & 1 == 1) by (bit_vector)
            requires
                h < 0x8000_0000_0000_0000,
        ;
    }
}

/// Tag round trip of inline floats: a double that is held inline comes back
/// bit for bit, and its word is not the one that stands for zero.
pub proof fn lemma_flonum_round_trip(bits: u64)
    requires
        flonum_inline(bits),
    ensures
        pack_flonum(bits) & 3 == 2,
        pack_flonum(bits) & 1 == 0,
        pack_flonum(bits) != FLOAT_ZERO,
        unpack_flonum(pack_flonum(bits)) == bits,
        Value(pack_flonum(bits)).kind() is Flonum,
{
    let raw = pack_flonum(bits);
    assert(raw & 3 == 2 && raw & 1 == 0 && raw != 0x8000_0000_0000_0002 && raw >> 63 <= 1) by (bit_vector)
        requires
            raw == (((bits << 3) | (bits >> 61)) & !3u64) | 2,
            (bits >> 60) & 7 == 3 || (bits >> 60) & 7 == 4,
            bits != 0x3000_0000_0000_0000,
    ;
    let low = (2 - (raw >> 63)) as u64;
    let w = (raw & !3u64) | low;
    assert((w >> 3) | (w << 61) == bits) by (bit_vector)
        requires
            raw == (((bits << 3) | (bits >> 61)) & !3u64) | 2,
            (bits >> 60) & 7 == 3 || (bits >> 60) & 7 == 4,
            low == 2 - (raw >> 63),
            w == (raw & !3u64) | low,
    ;
}

/// The word of a double that is held in a word: the zero sentinel for both
/// zeros, the packed word for every other inline double.
pub open spec fn flonum_word(bits: u64) -> u64 {
    if is_zero_bits(bits) {
        FLOAT_ZERO
    } else {
        pack_flonum(bits)
    }
}

/// Tag round trip of floats: a double that is held in a word comes back
/// from the word as the same number: bit for bit, but that the negative zero
/// comes back as the positive zero.
pub proof fn lemma_float_round_trip(bits: u64)
    requires
        is_zero_bits(bits) || flonum_inline(bits),
    ensures
        Value(flonum_word(bits)).kind() == Kind::Flonum(
            if is_zero_bits(bits) {
                0
            } else {
                bits
            },
        ),
{
    lemma_constant_tags();
    if !is_zero_bits(bits) {
        lemma_flonum_round_trip(bits);
    } else {
        assert(0x8000_0000_0000_0002u64 & 1 == 0 && 0x8000_0000_0000_0002u64 & 3 == 2) by (bit_vector);
    }
}

/// NaNs and infinities are never held inline: their exponent is all ones.
pub proof fn lemma_nan_is_boxed(bits: u64)
    requires
        is_nan_bits(bits) || is_infinite_bits(bits),
    ensures
        !flonum_inline(bits),
        !is_zero_bits(bits),
{
    assert(((bits >> 52) & 0x7ff == 0x7ff || bits & 0x7fff_ffff_ffff_ffff == 0x7ff0_0000_0000_0000)
        ==> (bits >> 60) & 7 == 7 && bits != 0 && bits != 0x8000_0000_0000_0000) by (bit_vector);
}

} // verus!
