use monoruby::builtins::{constants, init, superclass, tos, ClassBuiltins};
use monoruby::funcs::FuncKind;
use monoruby::globals::{Globals, MonorubyErr};
use monoruby::ids::{ClassId, FuncId, IdentId, CLASS_CLASS, OBJECT_CLASS, TIME_CLASS};
use monoruby::runtime::define_class;
use monoruby::value::Value;

const ADDRS: ClassBuiltins = ClassBuiltins { superclass: 0x1000, tos: 0x2000, constants: 0x3000 };

/// The classes that exist before any program runs, under their ids.
fn startup() -> Globals {
    let mut globals = Globals::new(0, false);
    let names = [
        ("Object", None),
        ("Class", Some(OBJECT_CLASS)),
        ("NilClass", Some(OBJECT_CLASS)),
        ("TrueClass", Some(OBJECT_CLASS)),
        ("FalseClass", Some(OBJECT_CLASS)),
        ("Integer", Some(OBJECT_CLASS)),
        ("Float", Some(OBJECT_CLASS)),
        ("String", Some(OBJECT_CLASS)),
        ("Symbol", Some(OBJECT_CLASS)),
        ("Time", Some(OBJECT_CLASS)),
        ("Array", Some(OBJECT_CLASS)),
    ];
    for (i, (name, sup)) in names.iter().enumerate() {
        let id = globals.get_ident_id(name).unwrap();
        let class = globals.define_class_by_ident_id(id, sup.map(ClassId)).unwrap();
        assert_eq!(class, ClassId(i as u32 + 1));
    }
    assert!(init(&mut globals, ADDRS).is_some());
    globals
}

/// What a receiver is while a chain of calls is evaluated.
#[derive(Debug, Clone, PartialEq)]
enum Obj {
    Nil,
    Class(ClassId),
    Str(String),
    Names(Vec<IdentId>),
}

/// Evaluates `Const.method.method...`, each method without arguments,
/// through the method tables.
fn run_test(code: &str) -> Obj {
    let mut globals = startup();
    let mut parts = code.split('.');
    let konst = globals.get_ident_id(parts.next().unwrap()).unwrap();
    let mut recv = Obj::Class(globals.get_class_by_name(konst).expect("uninitialized constant"));
    for name in parts {
        let name = globals.get_ident_id(name).unwrap();
        let class = match &recv {
            Obj::Class(c) => *c,
            other => panic!("no class methods on {:?}", other),
        };
        let func_id = globals.find_method_checked(ClassId(CLASS_CLASS), name, 0).expect("method not found");
        let kind = globals.func.get(func_id).unwrap().kind;
        recv = match kind {
            FuncKind::Builtin { abs_address } if abs_address == ADDRS.superclass => {
                match superclass(&globals, class) {
                    Some(c) => Obj::Class(c),
                    None => Obj::Nil,
                }
            }
            FuncKind::Builtin { abs_address } if abs_address == ADDRS.tos => {
                Obj::Str(tos(&globals, class).unwrap())
            }
            FuncKind::Builtin { abs_address } if abs_address == ADDRS.constants => {
                Obj::Names(constants(&globals, class))
            }
            other => panic!("unexpected function {:?}", other),
        };
    }
    recv
}

#[test]
fn test_class() {
    assert_eq!(run_test("Time.superclass.to_s"), Obj::Str("Object".to_string()));
}

#[test]
fn class_methods() {
    assert_eq!(run_test("Time.to_s"), Obj::Str("Time".to_string()));
    assert_eq!(run_test("Time.superclass"), Obj::Class(ClassId(OBJECT_CLASS)));
    assert_eq!(run_test("Object.superclass"), Obj::Nil);
    assert_eq!(run_test("Array.constants"), Obj::Names(vec![]));
    assert_eq!(ClassId(TIME_CLASS).get(), 10);
}

#[test]
fn method_lookup_walks_the_superclasses() {
    let mut g = startup();
    let f = g.get_ident_id("f").unwrap();
    let a = g.get_ident_id("A").unwrap();
    let b = g.get_ident_id("B").unwrap();
    let class_a = g.define_class_by_ident_id(a, Some(ClassId(OBJECT_CLASS))).unwrap();
    let class_b = g.define_class_by_ident_id(b, Some(class_a)).unwrap();
    let fa = g.define_builtin_func(class_a, "f", 0x10, 0).unwrap();
    assert_eq!(g.find_method(class_a, f), Some(fa));
    assert_eq!(g.find_method(class_b, f), Some(fa));
    assert_eq!(g.get_method(class_b, f), None);
    let fb = g.define_builtin_func(class_b, "f", 0x20, 0).unwrap();
    assert_eq!(g.find_method(class_b, f), Some(fb));
    assert_eq!(g.find_method(class_a, f), Some(fa));
    assert_eq!(g.find_method(ClassId(OBJECT_CLASS), f), None);
    // a redefinition replaces the method
    let fb2 = g.define_builtin_func(class_b, "f", 0x30, 1).unwrap();
    assert_eq!(g.find_method(class_b, f), Some(fb2));
    assert_eq!(g.classes[class_b.0 as usize].methods.len(), 1);
}

#[test]
fn errors_of_a_call() {
    let mut g = startup();
    let unknown = g.get_ident_id("unknown").unwrap();
    assert_eq!(g.find_method_checked(ClassId(TIME_CLASS), unknown, 0), None);
    assert_eq!(
        g.take_error(),
        Some(MonorubyErr::MethodNotFound { name: unknown, class: ClassId(TIME_CLASS) })
    );
    assert_eq!(g.take_error(), None);
    let to_s = g.get_ident_id("to_s").unwrap();
    assert_eq!(g.find_method_checked(ClassId(CLASS_CLASS), to_s, 2), None);
    assert_eq!(g.take_error(), Some(MonorubyErr::WrongArguments { expected: 0, given: 2 }));
    let any = g.define_builtin_func(ClassId(OBJECT_CLASS), "puts", 0x40, -1).unwrap();
    assert_eq!(g.check_arg(any, 7), Some(()));
    assert_eq!(g.error, None);
    g.err_divide_by_zero();
    assert_eq!(g.error, Some(MonorubyErr::DivideByZero));
}

#[test]
fn names_are_interned_once() {
    let mut g = Globals::new(0, true);
    let a = g.get_ident_id("a").unwrap();
    let b = g.get_ident_id("b").unwrap();
    assert_ne!(a, b);
    assert_eq!(g.get_ident_id("a"), Some(a));
    assert_eq!(g.get_name(b).map(|s| s.as_str()), Some("b"));
    assert_eq!(g.get_name(IdentId(99)), None);
    assert!(g.no_jit);
}

#[test]
fn constants_and_stdout() {
    let mut g = startup();
    let x = g.get_ident_id("X").unwrap();
    let y = g.get_ident_id("Y").unwrap();
    assert_eq!(g.get_constant(ClassId(OBJECT_CLASS), x), None);
    g.set_constant(ClassId(OBJECT_CLASS), x, Value::fixnum(1));
    g.set_constant(ClassId(OBJECT_CLASS), y, Value::fixnum(2));
    g.set_constant(ClassId(OBJECT_CLASS), x, Value::fixnum(3));
    assert_eq!(g.get_constant(ClassId(OBJECT_CLASS), x), Some(Value::fixnum(3)));
    assert_eq!(g.get_constant_names(ClassId(OBJECT_CLASS)), vec![x, y]);
    assert_eq!(constants(&g, ClassId(OBJECT_CLASS)), vec![x, y]);
    g.write_stdout(b"hello ");
    g.write_stdout(b"world");
    assert_eq!(g.flush_stdout(), b"hello world".to_vec());
    assert_eq!(g.flush_stdout(), Vec::<u8>::new());
    assert_eq!(g.class_version, 0);
    g.class_version_inc();
    assert_eq!(g.class_version, 1);
    g.class_version = u32::MAX;
    g.class_version_inc();
    assert_eq!(g.class_version, 0);
}

#[test]
fn a_class_is_defined_once_and_opened_again() {
    let mut globals = startup();
    let before = globals.classes.len();
    let point = globals.get_ident_id("Point").unwrap();
    let time = globals.get_ident_id("Time").unwrap();
    // a new class stands under Object
    let class = define_class(&mut globals, point, None).unwrap();
    assert_eq!(class, ClassId(before as u32));
    assert_eq!(globals.super_class(class), Some(ClassId(OBJECT_CLASS)));
    assert_eq!(globals.get_class_by_name(point), Some(class));
    // opened again, with or without its superclass
    assert_eq!(define_class(&mut globals, point, None), Ok(class));
    assert_eq!(define_class(&mut globals, point, Some(ClassId(OBJECT_CLASS))), Ok(class));
    assert_eq!(globals.classes.len(), before + 1);
    assert_eq!(globals.error, None);
    // with another superclass
    assert_eq!(
        define_class(&mut globals, point, Some(ClassId(TIME_CLASS))),
        Err(MonorubyErr::SuperclassMismatch { name: point })
    );
    assert_eq!(globals.take_error(), Some(MonorubyErr::SuperclassMismatch { name: point }));
    assert_eq!(globals.classes.len(), before + 1);
    // Object has no superclass
    let object = globals.get_ident_id("Object").unwrap();
    assert_eq!(
        define_class(&mut globals, object, Some(ClassId(OBJECT_CLASS))),
        Err(MonorubyErr::SuperclassMismatch { name: object })
    );
    // a subclass of a given class
    let stamp = globals.get_ident_id("Stamp").unwrap();
    let sub = define_class(&mut globals, stamp, Some(ClassId(TIME_CLASS))).unwrap();
    assert_eq!(globals.super_class(sub), Some(ClassId(TIME_CLASS)));
    assert_eq!(define_class(&mut globals, time, None), Ok(ClassId(TIME_CLASS)));
}

#[test]
fn definitions_succeed_while_identifiers_are_left() {
    let mut globals = startup();
    let names = globals.idents.len();
    let funcs = globals.func.functions.len();
    // a native method under a new name takes one name and one function
    let f = globals.define_builtin_func(ClassId(OBJECT_CLASS), "puts", 0x4000, -1).unwrap();
    assert_eq!(f, FuncId(funcs as u32));
    assert_eq!((globals.idents.len(), globals.func.functions.len()), (names + 1, funcs + 1));
    assert_eq!(globals.find_method(ClassId(TIME_CLASS), IdentId(names as u32)), Some(f));
    // under a known name it takes a function alone
    let g = globals.define_builtin_func(ClassId(TIME_CLASS), "puts", 0x5000, 0).unwrap();
    assert_eq!(g, FuncId(funcs as u32 + 1));
    assert_eq!(globals.idents.len(), names + 1);
    // a reader takes the name of the variable, a writer that and its own
    let x = globals.get_ident_id("x").unwrap();
    assert_eq!(globals.define_attr_reader(ClassId(TIME_CLASS), x), Some(x));
    assert_eq!(globals.idents.len(), names + 3);
    assert_eq!(globals.idents[names + 2], "@x");
    let writer = globals.define_attr_writer(ClassId(TIME_CLASS), x).unwrap();
    assert_eq!(globals.idents[writer.0 as usize], "x=");
    assert_eq!(globals.idents.len(), names + 4);
    assert_eq!(globals.func.functions.len(), funcs + 4);
    // a method of the class object itself: the class of the class object is
    // made first
    let classes = globals.classes.len();
    let now = globals.define_builtin_singleton_func(ClassId(TIME_CLASS), "now", 0x6000, 0).unwrap();
    assert_eq!(now, FuncId(funcs as u32 + 4));
    assert_eq!(globals.classes.len(), classes + 1);
    assert_eq!(globals.classes[TIME_CLASS as usize].singleton, Some(ClassId(classes as u32)));
    // an unknown class has no class object
    assert_eq!(globals.define_builtin_singleton_func(ClassId(9999), "now", 0x6000, 0), None);
    assert_eq!(globals.func.functions.len(), funcs + 5);
}
