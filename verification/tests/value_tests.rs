use monoruby::value::{float_bits_of_i16, Value, FALSE_VALUE, FLOAT_ZERO, NIL_VALUE, TRUE_VALUE};

#[test]
fn int_to_double_bits_agree_with_the_machine() {
    for i in i16::MIN..=i16::MAX {
        assert_eq!(float_bits_of_i16(i), (i as f64).to_bits(), "for {}", i);
    }
}

#[test]
fn fixnum_round_trip() {
    for i in [0i64, 1, -1, 42, -42, i32::MAX as i64, i32::MIN as i64, 0x3fff_ffff_ffff_ffff, -0x4000_0000_0000_0000] {
        let v = Value::from_integer(i).unwrap();
        assert!(v.is_fixnum());
        assert_eq!(v.as_integer(), Some(i));
    }
    assert_eq!(Value::from_integer(0x4000_0000_0000_0000), None);
    assert_eq!(Value::from_integer(-0x4000_0000_0000_0001), None);
    assert_eq!(Value::fixnum(3).get(), 7);
    assert_eq!(Value::int32(-1).get(), u64::MAX);
}

#[test]
fn constants() {
    assert_eq!(Value::nil().get(), NIL_VALUE);
    assert_eq!(Value::bool(true).get(), TRUE_VALUE);
    assert_eq!(Value::bool(false).get(), FALSE_VALUE);
    assert_eq!(NIL_VALUE | 0x10, FALSE_VALUE);
    assert_eq!(Value::from_float(0f64.to_bits()).unwrap().get(), FLOAT_ZERO);
}

#[test]
fn inline_floats_come_back_bit_for_bit() {
    for f in [1.0f64, -1.0, 4.2, 0.1, 1e-30, 1e30, 3.5e76, -7.25e-70, 2.0e-77, 2.0f64.powi(-255) * 1.5, 2.0f64.powi(256)] {
        let bits = f.to_bits();
        let v = Value::from_float(bits).expect("held inline");
        assert!(v.is_flonum());
        assert!(!v.is_fixnum());
        assert_eq!(v.as_float(), Some(bits), "for {}", f);
        assert_eq!(v.as_integer(), None);
    }
}

#[test]
fn both_zeros_are_the_zero_sentinel() {
    let zero = Value::from_float(0f64.to_bits()).unwrap();
    assert_eq!(zero.get(), FLOAT_ZERO);
    assert_eq!(Value::from_float((-0f64).to_bits()), Some(zero));
    assert_eq!(zero.as_float(), Some(0));
}

#[test]
fn floats_that_need_the_heap() {
    for f in [f64::NAN, f64::INFINITY, f64::NEG_INFINITY, f64::MAX, f64::MIN, f64::MIN_POSITIVE, 1e80, 1e-80] {
        assert_eq!(Value::from_float(f.to_bits()), None, "for {}", f);
    }
}

#[test]
fn the_zero_sentinel_stands_for_zero_alone() {
    // the one double whose exponent would allow it to be held inline and
    // whose packed word would be the sentinel
    let twin = 2.0f64.powi(-255);
    assert_eq!(twin.to_bits(), monoruby::value::FLOAT_ZERO_TWIN);
    assert_eq!(Value::from_float(twin.to_bits()), None);
    // its neighbours are held inline and come back
    for bits in [twin.to_bits() + 1, twin.to_bits() + 2, (-twin).to_bits(), 2.0f64.powi(-254).to_bits()] {
        let v = Value::from_float(bits).unwrap();
        assert_ne!(v.get(), FLOAT_ZERO);
        assert_eq!(v.as_float(), Some(bits));
    }
}

#[test]
fn truth() {
    assert!(!Value::nil().is_truthy());
    assert!(!Value::bool(false).is_truthy());
    assert!(Value::bool(true).is_truthy());
    assert!(Value::fixnum(0).is_truthy());
    assert!(Value::from_float(0).unwrap().is_truthy());
    assert!(Value::from(0x1000).is_truthy());
    assert!(Value::nil().is_nil());
    assert!(!Value::bool(false).is_nil());
    assert_eq!(Value::from_flag(true), Value::bool(true));
    assert_eq!(Value::from_flag(false), Value::bool(false));
}
