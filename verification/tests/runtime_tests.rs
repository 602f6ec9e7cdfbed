use monoruby::assembler::{CodePtr, Inst, Target};
use monoruby::cache::InlineCache;
use monoruby::codegen::Codegen;
use monoruby::frame::{conv, CallKind, Meta};
use monoruby::funcs::{FnStore, FuncData, FuncKind, InlineCached, InlineMethod, MethodInfo};
use monoruby::globals::{Globals, MonorubyErr};
use monoruby::ids::{BcPc, ClassId, FuncId, IdentId, SlotId};
use monoruby::inst::Bc;
use monoruby::runtime::{find_method, gen_array, get_index, set_index};
use monoruby::value::Value;

fn ints(v: &[i64]) -> Vec<Value> {
    v.iter().map(|i| Value::fixnum(*i)).collect()
}

#[test]
fn indexing_an_array() {
    let v = ints(&[10, 20, 30]);
    assert_eq!(get_index(&v, 0), Value::fixnum(10));
    assert_eq!(get_index(&v, 2), Value::fixnum(30));
    assert_eq!(get_index(&v, 3), Value::nil());
    assert_eq!(get_index(&v, -1), Value::fixnum(30));
    assert_eq!(get_index(&v, -3), Value::fixnum(10));
    assert_eq!(get_index(&v, -4), Value::nil());
    assert_eq!(get_index(&v, i64::MIN), Value::nil());
    assert_eq!(get_index(&v, i64::MAX), Value::nil());
    assert_eq!(get_index(&vec![], 0), Value::nil());
}

#[test]
fn assigning_to_an_index() {
    let mut v = ints(&[10, 20, 30]);
    assert_eq!(set_index(&mut v, 1, Value::fixnum(21)), Ok(Value::fixnum(21)));
    assert_eq!(v, ints(&[10, 21, 30]));
    assert_eq!(set_index(&mut v, -1, Value::fixnum(31)), Ok(Value::fixnum(31)));
    assert_eq!(v, ints(&[10, 21, 31]));
    // behind the end the array grows
    assert_eq!(set_index(&mut v, 3, Value::fixnum(40)), Ok(Value::fixnum(40)));
    assert_eq!(v, ints(&[10, 21, 31, 40]));
    assert_eq!(set_index(&mut v, 6, Value::fixnum(70)), Ok(Value::fixnum(70)));
    assert_eq!(v[4], Value::nil());
    assert_eq!(v[5], Value::nil());
    assert_eq!(v[6], Value::fixnum(70));
    assert_eq!(v.len(), 7);
    // before the start is an error
    assert_eq!(
        set_index(&mut v, -8, Value::fixnum(0)),
        Err(MonorubyErr::IndexTooSmall { index: -8, min: -7 })
    );
    assert_eq!(v.len(), 7);
    assert_eq!(set_index(&mut v, -7, Value::fixnum(1)), Ok(Value::fixnum(1)));
    assert_eq!(v[0], Value::fixnum(1));
}

#[test]
fn an_array_of_slots() {
    assert_eq!(gen_array(&ints(&[3, 2, 1])), ints(&[1, 2, 3]));
    assert_eq!(gen_array(&[]), vec![]);
}

#[test]
fn the_inline_cache_of_a_call_site() {
    let data = FuncData { codeptr: Some(CodePtr { page: 0, pos: 5 }), meta: Meta::vm(FuncId(3), 2), pc: BcPc(64) };
    let mut cache = InlineCache::new();
    // a site that was never resolved holds the class that names no class
    // and the last version
    assert_eq!(cache, InlineCache { class_id: ClassId(0), version: u32::MAX, target: None });
    assert_eq!(cache.lookup(ClassId(0), u32::MAX), None);
    assert_eq!(cache.lookup(ClassId(7), 0), None);
    cache.fill(ClassId(7), 4, data);
    assert_eq!(cache.lookup(ClassId(7), 4), Some(data));
    // another class misses, and so does every later version
    assert_eq!(cache.lookup(ClassId(8), 4), None);
    assert_eq!(cache.lookup(ClassId(7), 5), None);
    let mut g = Globals::new(0, false);
    g.class_version = 4;
    assert_eq!(cache.lookup(ClassId(7), g.class_version), Some(data));
    g.class_version_inc();
    assert_eq!(cache.lookup(ClassId(7), g.class_version), None);
}

#[test]
fn a_redefinition_invalidates_the_cache() {
    // a site calls `m` a hundred times; between the calls 50 and 51 `m` is
    // defined again
    let mut g = Globals::new(0, false);
    let mut gen = Codegen::new();
    let object = g.get_ident_id("Object").unwrap();
    let class = g.define_class_by_ident_id(object, None).unwrap();
    let m = g.get_ident_id("m").unwrap();
    let old = g.define_builtin_func(class, "m", 0x100, 0).unwrap();
    let mut cache = InlineCache::new();
    let mut misses = 0;
    let mut seen = vec![];
    for i in 1..=100 {
        if i == 51 {
            g.define_builtin_func(class, "m", 0x200, 0).unwrap();
            g.class_version_inc();
        }
        let data = match cache.lookup(class, g.class_version) {
            Some(data) => data,
            None => {
                misses += 1;
                let data = find_method(&mut g, &mut gen, class, m, 0).unwrap();
                cache.fill(class, g.class_version, data);
                data
            }
        };
        seen.push(data.meta.func_id());
    }
    assert_eq!(misses, 2);
    assert!(seen[..50].iter().all(|f| *f == old));
    assert!(seen[50..].iter().all(|f| *f != old));
}

#[test]
fn code_on_demand() {
    let mut gen = Codegen::new();
    let mut store = FnStore::new();
    let iseq = store.add_iseq(None, 0, 3, BcPc(0x1000)).unwrap();
    let native = store.add_builtin_func(IdentId(1), 0xdead, -1).unwrap();
    let reader = store.add_attr_reader(IdentId(2), IdentId(3)).unwrap();
    let writer = store.add_attr_writer(IdentId(4), IdentId(3)).unwrap();
    assert_eq!((iseq, native, reader, writer), (FuncId(1), FuncId(2), FuncId(3), FuncId(4)));
    assert_eq!(store.get(writer).unwrap().kind, FuncKind::AttrWriter { ivar_name: IdentId(3) });
    assert_eq!(store.get(writer).unwrap().arity(), 1);
    assert_eq!(store.get(iseq).unwrap().data.meta, Meta(Meta::vm(iseq, 3).get()));
    assert_eq!(store.get(FuncId(9)), None);
    assert_eq!(gen.compile_on_demand(&mut store, false, FuncId(9)), None);
    let before = gen.jit.get_current_address();
    let data = gen.compile_on_demand(&mut store, false, iseq).unwrap();
    assert_eq!(data.codeptr, Some(before));
    assert_eq!(data.pc, BcPc(0x1000));
    assert_eq!(store.get(iseq).unwrap().data, data);
    // the stub has the function compiled at once: it does not enter the
    // interpreter
    let code = gen.jit.page_code(0);
    assert!(matches!(code[before.pos], Inst::Bind(_)));
    assert!(!code[before.pos..].iter().any(|i| matches!(i, Inst::Jcc(_, l) if *l == gen.vm_entry)));
    assert!(code[before.pos..].contains(&Inst::Movq(
        monoruby::assembler::Operand::R(monoruby::assembler::Reg::Rax),
        monoruby::assembler::Operand::Func(monoruby::assembler::RuntimeFn::ExecJitCompile),
    )));
    // a function that has code keeps it
    let len = code.len();
    assert_eq!(gen.compile_on_demand(&mut store, false, iseq), Some(data));
    assert_eq!(gen.jit.page_code(0).len(), len);
    // without the JIT the stub only enters the interpreter
    let other = store.add_iseq(None, 0, 1, BcPc(0x2000)).unwrap();
    let here = gen.jit.get_current_address();
    gen.compile_on_demand(&mut store, true, other).unwrap();
    assert_eq!(gen.jit.page_code(0)[here.pos..], [Inst::Jmp(Target::Label(gen.vm_entry))]);
    for f in [native, reader, writer] {
        let here = gen.jit.get_current_address();
        assert_eq!(gen.compile_on_demand(&mut store, false, f).unwrap().codeptr, Some(here));
        assert!(gen.jit.page_code(0).len() > here.pos);
    }
    store.set_inline(native, InlineMethod::MathSqrt);
    assert_eq!(store.get(native).unwrap().inline, Some(InlineMethod::MathSqrt));
}

#[test]
fn frame_layout() {
    assert_eq!(conv(SlotId(0)), 40);
    assert_eq!(conv(SlotId(1)), 48);
    assert_eq!(conv(SlotId(0xffff)), 0xffff * 8 + 40);
    let mut meta = Meta::vm(FuncId(0x1234_5678), 0x9abc);
    assert_eq!(meta.get(), 0x0000_9abc_1234_5678);
    assert_eq!(meta.func_id(), FuncId(0x1234_5678));
    assert_eq!(meta.reg_num(), 0x9abc);
    meta.set_jit();
    assert_eq!(meta.get(), 0x0001_9abc_1234_5678);
    assert_eq!(Meta::native(FuncId(1), 2).get(), 0x0002_0002_0000_0001);
    assert_ne!(CallKind::Vm, CallKind::Jit);
    let info = MethodInfo::new(SlotId(1), SlotId(2), 3, 0);
    assert_eq!(info.callee_codeptr, None);
    assert_eq!(MethodInfo::new(SlotId(1), SlotId(2), 3, 9).shift().args, SlotId(3));
    let call = Bc::from_with_class_and_version(0, ClassId(5), 6);
    let data = Bc { op1: Meta::vm(FuncId(7), 1).get(), op2: monoruby::inst::Bc2::from(0x4000) };
    let cached = InlineCached::new(&call, &data, 0x8000);
    assert_eq!(cached.class_id, ClassId(5));
    assert_eq!(cached.version, 6);
    assert_eq!(cached.func_id(), FuncId(7));
    assert_eq!(cached.pc, BcPc(0x4000));
    assert_eq!(BcPc(64).next(2), BcPc(96));
    assert_eq!(BcPc(64).prev(), BcPc(48));
    assert_eq!(BcPc(96).index_from(BcPc(64)), 2);
}
