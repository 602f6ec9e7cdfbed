use monoruby::ast::{Decl, Expr, Stmt};
use monoruby::hir::{HIRContext, Hir, HirErr, HirOperand, SsaReg, Type};
use monoruby::hir_gen::{flip_sign, negate, LocalInfo};
use monoruby::inst::CmpKind;
use monoruby::mcir::{FReg, GReg, McIrContext, McReg};

fn lit(i: i32) -> Box<Expr> {
    Box::new(Expr::Integer(i))
}

fn flt(f: f64) -> Box<Expr> {
    Box::new(Expr::Float(f.to_bits()))
}

fn var(name: &str) -> Box<Expr> {
    Box::new(Expr::LocalLoad(name.to_string()))
}

fn set(name: &str, rhs: Box<Expr>) -> Expr {
    Expr::LocalStore(name.to_string(), rhs)
}

fn run(stmts: Vec<Stmt>) -> (HIRContext, Vec<LocalInfo>, Result<(SsaReg, Type), HirErr>) {
    let mut hir = HIRContext::new();
    let mut locals = vec![];
    let r = hir.from_ast(&mut locals, &stmts);
    (hir, locals, r)
}

fn text(hir: &HIRContext, bb: usize) -> Vec<String> {
    hir.basic_block[bb].insts.iter().map(|i| format!("{:?}", i)).collect()
}

fn value(r: Result<(SsaReg, Type), HirErr>) -> (usize, Type) {
    match r {
        Ok((reg, ty)) => (reg.to_usize(), ty),
        Err(e) => panic!("{:?}", e),
    }
}

fn same(a: Type, b: Type) -> bool {
    format!("{:?}", a) == format!("{:?}", b)
}

#[test]
fn integer_literal_stays_an_operand() {
    let (hir, _, r) = run(vec![Stmt::Expr(Expr::Add(lit(4), Box::new(Expr::Mul(lit(5), lit(2)))))]);
    let (reg, ty) = value(r);
    assert_eq!(reg, 3);
    assert!(same(ty, Type::Integer));
    assert_eq!(
        text(&hir, 0),
        vec![
            "Integer(SsaReg(0), 5)",
            "Integer(SsaReg(1), 2)",
            "IMul(HIRBinop { ret: SsaReg(2), lhs: SsaReg(0), rhs: SsaReg(1) })",
            "IAdd(HirBinop2 { ret: SsaReg(3), lhs: Const(Integer(4)), rhs: Reg(SsaReg(2)) })",
            "Ret(Reg(SsaReg(3)))",
        ]
    );
    assert_eq!(hir.functions[0].register_num, 4);
    assert_eq!(hir.register_num(), 4);
}

#[test]
fn empty_program_is_zero() {
    let (hir, locals, r) = run(vec![]);
    let (reg, ty) = value(r);
    assert_eq!(reg, 0);
    assert!(same(ty, Type::Integer));
    assert!(locals.is_empty());
    assert_eq!(text(&hir, 0), vec!["Integer(SsaReg(0), 0)", "Ret(Reg(SsaReg(0)))"]);
}

#[test]
fn conditional_joins_in_a_phi() {
    let (hir, locals, r) = run(vec![
        Stmt::Expr(set("a", flt(1.5))),
        Stmt::Expr(Expr::If(
            Box::new(Expr::Cmp(CmpKind::Lt, var("a"), lit(3))),
            Box::new(Expr::Add(var("a"), lit(1))),
            flt(2.0),
        )),
    ]);
    let (reg, ty) = value(r);
    assert_eq!(reg, 7);
    assert!(same(ty, Type::Float));
    assert_eq!(locals.len(), 1);
    assert_eq!(locals[0].name, "a");
    assert_eq!(locals[0].offset, 0);
    assert!(same(locals[0].ty, Type::Float));
    assert_eq!(hir.basic_block.len(), 4);
    assert_eq!(
        text(&hir, 0),
        vec![
            format!("Float(SsaReg(0), {})", 1.5f64.to_bits()),
            "LocalStore(None, (0, Float), SsaReg(0))".to_string(),
            "LocalLoad((0, Float), SsaReg(1))".to_string(),
            "CastIntFloat(HirUnop { ret: SsaReg(2), src: Const(Integer(3)) })".to_string(),
            "FCmpBr(Lt, SsaReg(1), SsaReg(2), 2, 1)".to_string(),
        ]
    );
    assert_eq!(text(&hir, 1), vec![format!("Float(SsaReg(3), {})", 2.0f64.to_bits()), "Br(3)".to_string()]);
    assert_eq!(
        text(&hir, 2),
        vec![
            "LocalLoad((0, Float), SsaReg(4))",
            "CastIntFloat(HirUnop { ret: SsaReg(5), src: Const(Integer(1)) })",
            "FAdd(HirBinop2 { ret: SsaReg(6), lhs: Reg(SsaReg(4)), rhs: Reg(SsaReg(5)) })",
            "Br(3)",
        ]
    );
    assert_eq!(text(&hir, 3), vec!["Phi(SsaReg(7), [(2, SsaReg(6)), (1, SsaReg(3))])", "Ret(Reg(SsaReg(7)))"]);
}

#[test]
fn mixed_operands_are_converted() {
    let (hir, _, r) = run(vec![Stmt::Expr(Expr::Mul(lit(3), flt(0.5)))]);
    let (reg, ty) = value(r);
    assert_eq!(reg, 3);
    assert!(same(ty, Type::Float));
    assert_eq!(
        text(&hir, 0),
        vec![
            "Integer(SsaReg(0), 3)".to_string(),
            format!("Float(SsaReg(1), {})", 0.5f64.to_bits()),
            "CastIntFloat(HirUnop { ret: SsaReg(2), src: Reg(SsaReg(0)) })".to_string(),
            "FMul(HirBinop2 { ret: SsaReg(3), lhs: Reg(SsaReg(2)), rhs: Reg(SsaReg(1)) })".to_string(),
            "Ret(Reg(SsaReg(3)))".to_string(),
        ]
    );
}

#[test]
fn negated_literals_are_folded() {
    let (hir, _, r) = run(vec![Stmt::Expr(Expr::Neg(lit(7)))]);
    value(r);
    assert_eq!(text(&hir, 0), vec!["Integer(SsaReg(0), -7)", "Ret(Reg(SsaReg(0)))"]);
    let (hir, _, r) = run(vec![Stmt::Expr(Expr::Neg(flt(2.5)))]);
    value(r);
    assert_eq!(
        text(&hir, 0),
        vec![format!("Float(SsaReg(0), {})", (-2.5f64).to_bits()), "Ret(Reg(SsaReg(0)))".to_string()]
    );
    assert_eq!(negate(7), -7);
    assert_eq!(negate(i32::MIN), i32::MIN);
    assert_eq!(flip_sign(2.5f64.to_bits()), (-2.5f64).to_bits());
    assert_eq!(flip_sign((-0.0f64).to_bits()), 0);
}

#[test]
fn negation_of_a_comparison_is_a_type_mismatch() {
    let (_, _, r) = run(vec![Stmt::Expr(Expr::Neg(Box::new(Expr::Cmp(CmpKind::Eq, lit(1), lit(2)))))]);
    match r {
        Err(HirErr::TypeMismatch(l, r)) => {
            assert!(same(l, Type::Bool));
            assert!(same(r, Type::Bool));
        }
        other => panic!("{:?}", other),
    }
}

#[test]
fn a_local_keeps_its_first_type() {
    let (_, _, r) = run(vec![Stmt::Expr(set("a", lit(1))), Stmt::Expr(set("a", flt(1.0)))]);
    match r {
        Err(HirErr::TypeMismatch(l, r)) => {
            assert!(same(l, Type::Integer));
            assert!(same(r, Type::Float));
        }
        other => panic!("{:?}", other),
    }
}

#[test]
fn load_of_an_unknown_local_fails() {
    let (_, _, r) = run(vec![Stmt::Expr(Expr::Add(var("x"), lit(1)))]);
    match r {
        Err(HirErr::UndefinedLocal(name)) => assert_eq!(name, "x"),
        other => panic!("{:?}", other),
    }
}

#[test]
fn method_definition_makes_a_function() {
    let body = vec![set("t", lit(2)), Expr::Mul(var("t"), flt(1.5))];
    let (hir, locals, r) =
        run(vec![Stmt::Decl(Decl::MethodDef("f".to_string(), vec![], body)), Stmt::Expr(*lit(9))]);
    let (reg, ty) = value(r);
    assert_eq!(reg, 0);
    assert!(same(ty, Type::Integer));
    assert!(locals.is_empty());
    assert_eq!(hir.functions.len(), 2);
    assert_eq!(hir.functions[1].name, "f");
    assert!(same(hir.functions[1].ret_ty.unwrap(), Type::Float));
    assert_eq!(hir.functions[1].register_num, 5);
    assert_eq!(hir.cur_fn, 0);
    assert_eq!(text(&hir, 0), vec!["Integer(SsaReg(0), 9)", "Ret(Reg(SsaReg(0)))"]);
    let bb = hir.functions[1].entry_bb;
    assert_eq!(hir.basic_block[bb].owner_function, 1);
    assert_eq!(
        text(&hir, bb),
        vec![
            "Integer(SsaReg(0), 2)".to_string(),
            "LocalStore(None, (0, Integer), SsaReg(0))".to_string(),
            "LocalLoad((0, Integer), SsaReg(1))".to_string(),
            format!("Float(SsaReg(2), {})", 1.5f64.to_bits()),
            "CastIntFloat(HirUnop { ret: SsaReg(3), src: Reg(SsaReg(1)) })".to_string(),
            "FMul(HirBinop2 { ret: SsaReg(4), lhs: Reg(SsaReg(3)), rhs: Reg(SsaReg(2)) })".to_string(),
            "Ret(Reg(SsaReg(4)))".to_string(),
        ]
    );
}

#[test]
fn a_declaration_in_last_place_has_the_value_zero() {
    let (hir, _, r) = run(vec![Stmt::Decl(Decl::MethodDef("g".to_string(), vec![], vec![*lit(1)]))]);
    let (reg, ty) = value(r);
    assert_eq!(reg, 0);
    assert!(same(ty, Type::Integer));
    assert_eq!(text(&hir, 0), vec!["Integer(SsaReg(0), 0)", "Ret(Reg(SsaReg(0)))"]);
}

#[test]
fn registers_are_reused_lowest_first() {
    let mut ctx = McIrContext::new(5);
    assert_eq!(ctx.ssa_map.len(), 5);
    let g0 = ctx.alloc_greg(SsaReg(0));
    let g1 = ctx.alloc_greg(SsaReg(1));
    let f0 = ctx.alloc_freg(SsaReg(2));
    assert_eq!((g0.to_usize(), g1.to_usize(), f0.to_usize()), (0, 1, 0));
    assert_eq!((ctx.g_reg_num(), ctx.f_reg_num()), (2, 1));
    // An SSA register keeps what it has.
    assert_eq!(ctx.alloc_greg(SsaReg(1)).to_usize(), 1);
    ctx.invalidate(McReg::GReg(GReg(0)));
    assert_eq!(ctx.alloc_greg(SsaReg(3)).to_usize(), 0);
    assert_eq!(ctx.alloc_greg(SsaReg(4)).to_usize(), 2);
    assert_eq!(ctx.g_reg_num(), 3);
    ctx.invalidate(McReg::FReg(FReg(0)));
    assert_eq!(ctx.f_reg_num(), 1);
    match ctx.ssa_map[3] {
        Some(McReg::GReg(g)) => assert_eq!(g.to_usize(), 0),
        ref other => panic!("{:?}", other),
    }
}

#[test]
fn alloc_reg_goes_by_type() {
    let mut ctx = McIrContext::new(3);
    assert_eq!(ctx.alloc_reg(SsaReg(0), Type::Float).as_f().to_usize(), 0);
    assert_eq!(ctx.alloc_reg(SsaReg(1), Type::Integer).as_g().to_usize(), 0);
    assert_eq!(ctx.alloc_reg(SsaReg(2), Type::Bool).as_g().to_usize(), 1);
}

fn mc_text(mc: &McIrContext, bb: usize) -> Vec<String> {
    mc.blocks[bb].insts.iter().map(|i| format!("{:?}", i)).collect()
}

#[test]
fn a_register_is_reused_once_its_value_is_consumed() {
    let (hir, _, r) = run(vec![Stmt::Expr(Expr::Add(lit(4), Box::new(Expr::Mul(lit(5), lit(2)))))]);
    value(r);
    let mc = McIrContext::try_from_hir(&hir).expect("well formed");
    assert_eq!(
        mc_text(&mc, 0),
        vec![
            "Integer(GReg(0), 5)",
            "Integer(GReg(1), 2)",
            "IMul(GReg(0), GReg(1))",
            "Integer(GReg(1), 4)",
            "IAdd(GReg(1), Reg(GReg(0)))",
            "IRet(Reg(GReg(1)), Integer)",
        ]
    );
    assert_eq!(mc.functions.len(), 1);
    assert_eq!(mc.functions[0].name, "/main");
    assert_eq!((mc.functions[0].g_regs, mc.functions[0].f_regs), (2, 0));
    assert!(same(mc.functions[0].ret_ty, Type::Integer));
    assert_eq!(mc.blocks[0].using_reg, None);
}

#[test]
fn both_branches_move_the_value_of_a_phi_to_the_first_register() {
    let (hir, _, r) = run(vec![
        Stmt::Expr(set("a", flt(1.5))),
        Stmt::Expr(Expr::If(
            Box::new(Expr::Cmp(CmpKind::Lt, var("a"), lit(3))),
            Box::new(Expr::Add(var("a"), lit(1))),
            flt(2.0),
        )),
    ]);
    value(r);
    let mc = McIrContext::from_hir(&hir);
    assert_eq!(
        mc_text(&mc, 0),
        vec![
            format!("Float(FReg(0), {})", 1.5f64.to_bits()),
            "LocalStore(0, FReg(FReg(0)))".to_string(),
            "LocalLoad(0, FReg(FReg(0)))".to_string(),
            "CastIntFloat(FReg(1), Integer(3))".to_string(),
            "FCmpJmp(Lt, FReg(0), FReg(1), 2, 1)".to_string(),
        ]
    );
    assert_eq!(
        mc_text(&mc, 1),
        vec![
            format!("Float(FReg(0), {})", 2.0f64.to_bits()),
            "FMove(FReg(0), FReg(0))".to_string(),
            "Jmp(3)".to_string(),
        ]
    );
    assert_eq!(
        mc_text(&mc, 2),
        vec![
            "LocalLoad(0, FReg(FReg(0)))",
            "CastIntFloat(FReg(1), Integer(1))",
            "FAdd(FReg(0), Reg(FReg(1)))",
            "FMove(FReg(0), FReg(0))",
            "Jmp(3)",
        ]
    );
    assert_eq!(mc_text(&mc, 3), vec!["FRet(Reg(FReg(0)))"]);
    assert_eq!(mc.blocks[3].using_reg, Some((0, 1)));
    assert_eq!((mc.functions[0].g_regs, mc.functions[0].f_regs), (0, 2));
    assert!(same(mc.functions[0].ret_ty, Type::Float));
}

#[test]
fn every_function_is_lowered_with_registers_of_its_own() {
    let body = vec![set("t", lit(2)), Expr::Mul(var("t"), flt(1.5))];
    let (hir, _, r) =
        run(vec![Stmt::Decl(Decl::MethodDef("f".to_string(), vec![], body)), Stmt::Expr(Expr::Neg(difference()))]);
    value(r);
    let mc = McIrContext::try_from_hir(&hir).expect("well formed");
    assert_eq!(mc.functions.len(), 2);
    assert_eq!(mc.functions[1].name, "f");
    assert!(same(mc.functions[1].ret_ty, Type::Float));
    assert_eq!((mc.functions[1].g_regs, mc.functions[1].f_regs), (1, 2));
    assert_eq!((mc.functions[0].g_regs, mc.functions[0].f_regs), (3, 0));
    let bb = hir.functions[1].entry_bb;
    assert_eq!(mc.blocks[bb].owner_function, 1);
    assert_eq!(
        mc_text(&mc, bb),
        vec![
            "Integer(GReg(0), 2)".to_string(),
            "LocalStore(0, GReg(GReg(0)))".to_string(),
            "LocalLoad(0, GReg(GReg(0)))".to_string(),
            format!("Float(FReg(0), {})", 1.5f64.to_bits()),
            "CastIntFloat(FReg(1), Reg(GReg(0)))".to_string(),
            "FMul(FReg(1), Reg(FReg(0)))".to_string(),
            "FRet(Reg(FReg(1)))".to_string(),
        ]
    );
    assert_eq!(
        mc_text(&mc, 0),
        vec![
            "Integer(GReg(0), 3)",
            "Integer(GReg(1), 2)",
            "IMul(GReg(0), GReg(1))",
            "Integer(GReg(1), 1)",
            "Integer(GReg(2), 1)",
            "IDiv(GReg(1), GReg(2))",
            "ISub(GReg(0), Reg(GReg(1)))",
            "INeg(GReg(0))",
            "IRet(Reg(GReg(0)), Integer)",
        ]
    );
}

/// `3 * 2 - 1 / 1`
fn difference() -> Box<Expr> {
    Box::new(Expr::Sub(Box::new(Expr::Mul(lit(3), lit(2))), Box::new(Expr::Div(lit(1), lit(1)))))
}

#[test]
fn a_register_that_holds_nothing_cannot_be_used() {
    let mut hir = HIRContext::new();
    hir.push_inst(Hir::Ret(HirOperand::Reg(SsaReg(0))));
    assert!(McIrContext::try_from_hir(&hir).is_none());
    // A float used as an integer.
    let mut hir = HIRContext::new();
    let f = hir.new_float(1.0f64.to_bits());
    hir.new_ineg(f);
    assert!(McIrContext::try_from_hir(&hir).is_none());
}

#[test]
fn a_function_without_a_value_cannot_be_lowered() {
    let hir = HIRContext::new();
    assert!(McIrContext::try_from_hir(&hir).is_none());
}
