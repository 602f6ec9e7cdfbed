use monoruby::ids::{ClassId, ConstSiteId, FuncId, IdentId, SlotId, FLOAT_CLASS, INTEGER_CLASS, STRING_CLASS};
use monoruby::inst::{dec_wl, dec_www, Bc, Bc2, BcOp, BinOpK, BrKind, CmpKind};
use monoruby::value::Value;

fn narrow(opcode: u64, op1: u16, op2: u32) -> Bc {
    Bc::from((opcode << 48) | ((op1 as u64) << 32) | op2 as u64)
}

fn wide(opcode: u64, op1: u16, op2: u16, op3: u16) -> Bc {
    Bc::from((opcode << 48) | ((op1 as u64) << 32) | ((op2 as u64) << 16) | op3 as u64)
}

#[test]
fn operands_are_split() {
    assert_eq!(dec_wl(0x0006_0001_ffff_fffe), (1, 0xffff_fffe));
    assert_eq!(dec_www(0x0084_0001_0002_0003), (1, 2, 3));
    assert_eq!(dec_www(u64::MAX), (0xffff, 0xffff, 0xffff));
}

#[test]
fn narrow_instructions() {
    let r = SlotId(7);
    assert_eq!(BcOp::from_bc(&narrow(1, 7, 33)), BcOp::MethodCall(r, IdentId(33)));
    assert_eq!(BcOp::from_bc(&narrow(3, 0, 5)), BcOp::Br(5));
    assert_eq!(BcOp::from_bc(&narrow(3, 0, (-5i32) as u32)), BcOp::Br(-5));
    assert_eq!(BcOp::from_bc(&narrow(4, 7, 2)), BcOp::CondBr(r, 2, false, BrKind::BrIf));
    assert_eq!(BcOp::from_bc(&narrow(5, 7, 2)), BcOp::CondBr(r, 2, false, BrKind::BrIfNot));
    assert_eq!(BcOp::from_bc(&narrow(6, 7, (-1i32) as u32)), BcOp::Integer(r, -1));
    assert_eq!(BcOp::from_bc(&narrow(6, 7, i32::MIN as u32)), BcOp::Integer(r, i32::MIN));
    assert_eq!(BcOp::from_bc(&narrow(8, 7, 0)), BcOp::Nil(r));
    assert_eq!(BcOp::from_bc(&narrow(9, 7, 12)), BcOp::Symbol(r, IdentId(12)));
    assert_eq!(BcOp::from_bc(&narrow(10, 7, 3)), BcOp::LoadConst(r, ConstSiteId(3)));
    assert_eq!(BcOp::from_bc(&narrow(11, 7, 3)), BcOp::StoreConst(r, IdentId(3)));
    assert_eq!(BcOp::from_bc(&narrow(12, 7, 2)), BcOp::CondBr(r, 2, true, BrKind::BrIf));
    assert_eq!(BcOp::from_bc(&narrow(13, 7, 2)), BcOp::CondBr(r, 2, true, BrKind::BrIfNot));
    assert_eq!(BcOp::from_bc(&narrow(14, 0, 20)), BcOp::LoopStart(20));
    assert_eq!(BcOp::from_bc(&narrow(15, 0, 0)), BcOp::LoopEnd);
    assert_eq!(BcOp::from_bc(&narrow(16, 7, 4)), BcOp::LoadIvar(r, IdentId(4)));
    assert_eq!(BcOp::from_bc(&narrow(17, 7, 4)), BcOp::StoreIvar(r, IdentId(4)));
}

#[test]
fn instructions_that_read_the_second_word() {
    let v = Value::fixnum(42);
    let bc = Bc::from_with_value(narrow(7, 2, 0).op1, v);
    assert_eq!(BcOp::from_bc(&bc), BcOp::Literal(SlotId(2), v));
    assert_eq!(bc.value(), Some(v));
    assert_eq!(narrow(7, 2, 0).value(), None);
    let bc = Bc::from_with_func_name_id(narrow(2, 0, 0).op1, IdentId(5), FuncId(9));
    assert_eq!(BcOp::from_bc(&bc), BcOp::MethodDef(IdentId(5), FuncId(9)));
    assert_eq!(bc.op2, Bc2::from((9 << 32) + 5));
}

#[test]
fn wide_instructions() {
    let (a, b, c) = (SlotId(1), SlotId(2), SlotId(3));
    assert_eq!(BcOp::from_bc(&wide(129, 1, 2, 0)), BcOp::Neg(a, b));
    assert_eq!(BcOp::from_bc(&wide(130, 1, 2, 3)), BcOp::MethodArgs(a, b, 3));
    assert_eq!(BcOp::from_bc(&wide(131, 1, 2, 3)), BcOp::Array(a, b, 3));
    assert_eq!(BcOp::from_bc(&wide(132, 1, 2, 3)), BcOp::Index(a, b, c));
    assert_eq!(BcOp::from_bc(&wide(133, 1, 2, 3)), BcOp::IndexAssign(a, b, c));
    assert_eq!(BcOp::from_bc(&wide(148, 1, 0, 0)), BcOp::Ret(a));
    assert_eq!(BcOp::from_bc(&wide(149, 1, 2, 0)), BcOp::Mov(a, b));
    assert_eq!(BcOp::from_bc(&wide(152, 1, 2, 3)), BcOp::Yield(a, b, 3));
    assert_eq!(BcOp::from_bc(&wide(155, 1, 2, 3)), BcOp::ConcatStr(a, b, 3));
}

#[test]
fn families_by_kind() {
    let (a, b, c) = (SlotId(1), SlotId(2), SlotId(3));
    let cmps = [CmpKind::Eq, CmpKind::Ne, CmpKind::Lt, CmpKind::Le, CmpKind::Gt, CmpKind::Ge];
    for (i, kind) in cmps.iter().enumerate() {
        let i = i as u64;
        assert_eq!(BcOp::from_bc(&wide(134 + i, 1, 2, 3)), BcOp::Cmp(*kind, a, b, c, false));
        assert_eq!(BcOp::from_bc(&wide(142 + i, 1, 2, 0xffff)), BcOp::Cmpri(*kind, a, b, -1, false));
        assert_eq!(BcOp::from_bc(&wide(156 + i, 1, 2, 3)), BcOp::Cmp(*kind, a, b, c, true));
        assert_eq!(BcOp::from_bc(&wide(162 + i, 1, 2, 0x8000)), BcOp::Cmpri(*kind, a, b, i16::MIN, true));
        assert_eq!(CmpKind::from(i as u16), *kind);
    }
    let binops = [
        (BinOpK::Add, "+"),
        (BinOpK::Sub, "-"),
        (BinOpK::Mul, "*"),
        (BinOpK::Div, "/"),
        (BinOpK::BitOr, "|"),
        (BinOpK::BitAnd, "&"),
        (BinOpK::BitXor, "^"),
        (BinOpK::Shr, ">>"),
        (BinOpK::Shl, "<<"),
    ];
    for (i, (kind, text)) in binops.iter().enumerate() {
        let i = i as u64;
        assert_eq!(BcOp::from_bc(&wide(170 + i, 1, 2, 3)), BcOp::BinOp(*kind, a, b, c));
        assert_eq!(BcOp::from_bc(&wide(180 + i, 1, 7, 3)), BcOp::BinOpIr(*kind, a, 7, c));
        assert_eq!(BcOp::from_bc(&wide(190 + i, 1, 2, 0xfff9)), BcOp::BinOpRi(*kind, a, b, -7));
        assert_eq!(BinOpK::from(i as u16), *kind);
        assert_eq!(kind.to_s(), *text);
    }
    assert_eq!(BrKind::from(0), BrKind::BrIf);
    assert_eq!(BrKind::from(1), BrKind::BrIfNot);
    assert_eq!(BrKind::BrIf.to_s(), "");
    assert_eq!(BrKind::BrIfNot.to_s(), "not");
}

#[test]
fn records_without_an_instruction() {
    for opcode in [0u64, 18, 19, 127, 128, 140, 141, 150, 151, 153, 154, 168, 169, 179, 189, 199, 255, 256, 0xffff] {
        assert_eq!(BcOp::try_from_bc(&wide(opcode, 1, 2, 3)), None, "opcode {}", opcode);
    }
    assert_eq!(BcOp::try_from_bc(&wide(148, 1, 0, 0)), Some(BcOp::Ret(SlotId(1))));
}

#[test]
fn type_feedback() {
    let bc = Bc::from_with_class2(wide(170, 1, 2, 3).op1);
    assert_eq!(bc.classid1(), ClassId(INTEGER_CLASS));
    assert_eq!(bc.classid2(), ClassId(INTEGER_CLASS));
    assert!(bc.is_integer1() && bc.is_integer2() && bc.is_binary_integer());
    assert!(!bc.is_float1() && !bc.is_float2() && !bc.is_binary_float());
    let class2 = |c1, c2| Bc { op1: 0, op2: Bc2::class2(ClassId(c1), ClassId(c2)) };
    assert!(class2(FLOAT_CLASS, FLOAT_CLASS).is_binary_float());
    assert!(class2(FLOAT_CLASS, INTEGER_CLASS).is_binary_float());
    assert!(class2(INTEGER_CLASS, FLOAT_CLASS).is_binary_float());
    assert!(!class2(INTEGER_CLASS, INTEGER_CLASS).is_binary_float());
    assert!(!class2(STRING_CLASS, FLOAT_CLASS).is_binary_float());
    assert!(!class2(FLOAT_CLASS, 0).is_binary_float());
    assert!(class2(FLOAT_CLASS, STRING_CLASS).is_float1());
    assert!(class2(STRING_CLASS, FLOAT_CLASS).is_float2());
    let bc = Bc::from_with_class_and_version(0, ClassId(12), 34);
    assert_eq!(bc.class_version(), (ClassId(12), 34));
    assert_eq!(bc.op2, Bc2::class_and_version(ClassId(12), 34));
    assert_eq!(bc.from_jit_addr(), (34 << 32) + 12);
    assert_eq!(Bc2::from(77).get_value(), Value(77));
    assert_eq!(BinOpK::Add.generic_func(), monoruby::assembler::RuntimeFn::AddValues);
    assert_eq!(BinOpK::Shl.generic_func(), monoruby::assembler::RuntimeFn::ShlValues);
}
