use monoruby::globals::Globals;
use monoruby::ids::{ClassId, IdentId};
use monoruby::inspect::{integer_to_s, RV};
use monoruby::value::{Value, FALSE_VALUE, NIL_VALUE, TRUE_VALUE};

#[test]
fn the_decimal_text_of_integers() {
    for i in [0i64, 1, 9, 10, 11, 99, 100, 1234567890, -1, -10, -999, i64::MAX, i64::MIN] {
        assert_eq!(integer_to_s(i), i.to_string());
    }
}

#[test]
fn to_s_and_inspect() {
    let mut g = Globals::new(0, false);
    let sym = g.get_ident_id("each").unwrap();
    let name = g.get_ident_id("Foo").unwrap();
    let class = g.define_class_by_ident_id(name, None).unwrap();
    let tos = |v: &RV| g.val_tos(v);
    assert_eq!(tos(&RV::Nil), Some("nil".to_string()));
    assert_eq!(tos(&RV::Bool(true)), Some("true".to_string()));
    assert_eq!(tos(&RV::Bool(false)), Some("false".to_string()));
    assert_eq!(tos(&RV::Integer(-42)), Some("-42".to_string()));
    assert_eq!(tos(&RV::Float(1.5f64.to_bits())), None);
    assert_eq!(tos(&RV::Symbol(sym)), Some("each".to_string()));
    assert_eq!(tos(&RV::Symbol(IdentId(99))), Some("".to_string()));
    assert_eq!(tos(&RV::String(b"a b\n".to_vec())), Some("a b\n".to_string()));
    assert_eq!(tos(&RV::String(vec![0xff, 0xfe])), None);
    assert_eq!(tos(&RV::Class(class)), Some("Foo".to_string()));
    assert_eq!(tos(&RV::Class(ClassId(77))), Some("".to_string()));
    let inspect = |v: &RV| g.val_inspect(v);
    assert_eq!(inspect(&RV::Nil), Some("nil".to_string()));
    assert_eq!(inspect(&RV::Integer(7)), Some("7".to_string()));
    assert_eq!(inspect(&RV::Symbol(sym)), Some(":each".to_string()));
    // the string is escaped: control characters, blanks and backslashes
    assert_eq!(inspect(&RV::String(b"abc".to_vec())), Some("\"abc\"".to_string()));
    assert_eq!(inspect(&RV::String(b"a b\n\\".to_vec())), Some("\"a\\ b\\n\\\\\"".to_string()));
    assert_eq!(inspect(&RV::String("\u{7}\u{8}\t\u{b}\u{c}\r\u{e9}".as_bytes().to_vec())), Some(
        "\"\\a\\b\\t\\v\\f\\r\u{e9}\"".to_string()
    ));
    assert_eq!(inspect(&RV::String(vec![0x80])), None);
    assert_eq!(inspect(&RV::Float(0)), None);
    assert_eq!(g.val_tobytes(&RV::String(vec![0xff])), Some(vec![0xff]));
    assert_eq!(g.val_tobytes(&RV::Integer(12)), Some(b"12".to_vec()));
    assert_eq!(g.val_tobytes(&RV::Integer(-7)), Some(b"-7".to_vec()));
    assert_eq!(g.val_tobytes(&RV::Nil), Some(b"nil".to_vec()));
    assert_eq!(g.val_tobytes(&RV::Bool(true)), Some(b"true".to_vec()));
    assert_eq!(g.val_tobytes(&RV::Bool(false)), Some(b"false".to_vec()));
    assert_eq!(g.val_tobytes(&RV::Float(0)), None);
}

#[test]
fn unpacking_a_word() {
    assert!(matches!(Value(NIL_VALUE).unpack(), Some(RV::Nil)));
    assert!(matches!(Value(TRUE_VALUE).unpack(), Some(RV::Bool(true))));
    assert!(matches!(Value(FALSE_VALUE).unpack(), Some(RV::Bool(false))));
    assert!(matches!(Value::fixnum(-3).unpack(), Some(RV::Integer(-3))));
    let bits = 2.5f64.to_bits();
    assert!(matches!(Value::from_float(bits).unwrap().unpack(), Some(RV::Float(b)) if b == bits));
    assert!(matches!(Value((5 << 32) | 0x0c).unpack(), Some(RV::Symbol(IdentId(5)))));
    // a pointer to the heap
    assert!(Value(0x1000).unpack().is_none());
}
