use monoruby::assembler::{Inst, Operand, Target};
use monoruby::bbctx::{LinkMode, StackSlotInfo};
use monoruby::codegen::loops::{find_temps, head_slots, loop_uses, soften, SlotUse};
use monoruby::codegen::step::CompileError;
use monoruby::codegen::Codegen;
use monoruby::funcs::{FnStore, FuncData};
use monoruby::ids::{BcPc, ClassId, FuncId, IdentId, FLOAT_CLASS, INTEGER_CLASS, OBJECT_CLASS};
use monoruby::inst::{Bc, Bc2};
use monoruby::iseq::ISeqInfo;
use monoruby::runtime::{exec_jit_compile, exec_jit_partial_compile};

fn narrow(opcode: u64, op1: u16, op2: u32) -> u64 {
    (opcode << 48) | ((op1 as u64) << 32) | op2 as u64
}

fn wide(opcode: u64, op1: u16, op2: u16, op3: u16) -> u64 {
    (opcode << 48) | ((op1 as u64) << 32) | ((op2 as u64) << 16) | op3 as u64
}

fn function(bytecode: Vec<Bc>, reg_num: usize) -> ISeqInfo {
    ISeqInfo::new(FuncId(1), None, bytecode, BcPc(0x10_0000), reg_num, 1, reg_num - 1).unwrap()
}

fn compile(func: &ISeqInfo) -> Result<(), CompileError> {
    let mut gen = Codegen::new();
    let store = FnStore::new();
    gen.jit_compile_ruby(&store, func, ClassId(OBJECT_CLASS), None).map(|_| ())
}

#[test]
fn blocks_start_where_branches_land() {
    let f = function(
        vec![
            Bc::from(narrow(6, 1, 0)),
            Bc::from(narrow(14, 0, 0)),
            // 2: r2 = r1 < r1, fused with the branch that follows
            Bc::from_with_class2(wide(156 + 2, 2, 1, 1)),
            // 3: to 6 unless r2
            Bc::from(narrow(13, 2, 2)),
            Bc::from_with_class2(wide(190, 1, 1, 1)),
            // 5: back to 2
            Bc::from(narrow(3, 0, (-4i32) as u32)),
            Bc::from(narrow(15, 0, 0)),
            Bc::from(wide(148, 1, 0, 0)),
        ],
        3,
    );
    assert_eq!(f.branch_target(5), Some(2));
    assert_eq!(f.branch_target(3), Some(6));
    assert_eq!(f.branch_target(4), None);
    assert_eq!(
        f.get_bb_info(),
        vec![None, None, Some((1, vec![5])), None, None, None, Some((2, vec![3])), None, None]
    );
    assert_eq!(compile(&f), Ok(()));
    let straight = function(vec![Bc::from(narrow(6, 1, 1)), Bc::from(wide(148, 1, 0, 0))], 2);
    assert_eq!(straight.get_bb_info(), vec![None, None, None]);
    assert_eq!(function(vec![], 2).get_bb_info(), vec![None]);
}

#[test]
fn a_record_without_an_instruction_is_refused() {
    let ret = Bc::from(wide(148, 1, 0, 0));
    assert_eq!(compile(&function(vec![Bc::from(narrow(255, 0, 0))], 2)), Err(CompileError::InvalidOpcode(0)));
    assert_eq!(
        compile(&function(vec![Bc::from(narrow(6, 1, 1)), Bc::from(narrow(0, 0, 0)), ret], 2)),
        Err(CompileError::InvalidOpcode(1))
    );
}

#[test]
fn a_slot_that_the_function_lacks_is_refused() {
    let ret = Bc::from(wide(148, 1, 0, 0));
    assert_eq!(compile(&function(vec![Bc::from(narrow(6, 9, 1)), ret], 2)), Err(CompileError::BadOperand(0)));
    assert_eq!(compile(&function(vec![Bc::from(narrow(6, 1, 1)), ret], 2)), Ok(()));
    // a call without the records that hold its arguments
    assert_eq!(compile(&function(vec![Bc::from(narrow(1, 1, 5))], 2)), Err(CompileError::BadOperand(0)));
}

#[test]
fn a_branch_out_of_the_function_is_refused() {
    let ret = Bc::from(wide(148, 1, 0, 0));
    assert_eq!(compile(&function(vec![Bc::from(narrow(3, 0, 7)), ret], 2)), Err(CompileError::BadBranch(0)));
    assert_eq!(
        compile(&function(vec![Bc::from(narrow(3, 0, (-7i32) as u32)), ret], 2)),
        Err(CompileError::BadBranch(0))
    );
    // the place after the last record is in the function
    assert_eq!(compile(&function(vec![Bc::from(narrow(3, 0, 1)), ret], 2)), Ok(()));
}

#[test]
fn a_function_that_does_not_fit_is_refused() {
    let ret = || vec![Bc::from(wide(148, 1, 0, 0))];
    assert!(ISeqInfo::new(FuncId(1), None, ret(), BcPc(0x1000), 2, 1, 1).is_some());
    // the address of the first record
    assert!(ISeqInfo::new(FuncId(1), None, ret(), BcPc(16), 2, 1, 1).is_none());
    assert!(ISeqInfo::new(FuncId(1), None, ret(), BcPc(u64::MAX - 16), 2, 1, 1).is_none());
    // more arguments or locals than slots
    assert!(ISeqInfo::new(FuncId(1), None, ret(), BcPc(0x1000), 2, 3, 1).is_none());
    assert!(ISeqInfo::new(FuncId(1), None, ret(), BcPc(0x1000), 2, 1, 2).is_none());
    assert!(ISeqInfo::new(FuncId(1), None, ret(), BcPc(0x1000), 0x1_0001, 1, 2).is_none());
}

#[test]
fn a_compiled_function_starts_at_a_fresh_label() {
    let mut gen = Codegen::new();
    let store = FnStore::new();
    let f = function(vec![Bc::from(narrow(6, 1, 7)), Bc::from(wide(148, 1, 0, 0))], 2);
    let before = gen.jit.get_current_address();
    let entry = gen.jit_compile_ruby(&store, &f, ClassId(OBJECT_CLASS), None).unwrap().0;
    let code = gen.jit.page_code(0);
    assert_eq!(code[before.pos], Inst::Bind(entry));
    assert!(code.len() > before.pos + 1);
    assert_eq!(code.iter().filter(|i| **i == Inst::Bind(entry)).count(), 1);
    // a second compilation of the same function gets code of its own
    let again = gen.jit_compile_ruby(&store, &f, ClassId(OBJECT_CLASS), None).unwrap().0;
    assert_ne!(again, entry);
}

#[test]
fn the_wrapper_of_a_native_function() {
    let mut gen = Codegen::new();
    assert_eq!(gen.jit.page_code(1).len(), 0);
    assert_eq!(gen.jit.page_code(2).len(), 0);
    let here = gen.jit.get_current_address();
    let ptr = gen.wrap_builtin(0xabcdef);
    assert_eq!(ptr, here);
    let code = &gen.jit.page_code(0)[here.pos..];
    assert_eq!(code.len(), 16);
    assert_eq!(code[12], Inst::Movq(Operand::R(monoruby::assembler::Reg::Rax), Operand::Imm64(0xabcdef)));
    assert_eq!(code[13], Inst::Call(Target::Reg(monoruby::assembler::Reg::Rax)));
    assert_eq!(code[14..], [Inst::Leave, Inst::Ret]);
}

#[test]
fn every_function_has_code_before_the_program_runs() {
    let mut gen = Codegen::new();
    let mut store = FnStore::new();
    let iseq = store.add_iseq(None, 0, 3, BcPc(0x1000)).unwrap();
    let native = store.add_builtin_func(IdentId(1), 0xdead, -1).unwrap();
    let first = gen.jit.get_current_address();
    gen.precompile(&mut store);
    let a = store.get(iseq).unwrap().data.codeptr.unwrap();
    let b = store.get(native).unwrap().data.codeptr.unwrap();
    assert!(first.pos <= a.pos && a.pos < b.pos);
    let len = gen.jit.page_code(0).len();
    assert!(b.pos < len);
    // nothing is made twice
    gen.precompile(&mut store);
    assert_eq!(gen.jit.page_code(0).len(), len);
    assert_eq!(store.get(iseq).unwrap().data.codeptr, Some(a));
    // the entry from the host
    let main: FuncData = store.get(iseq).unwrap().data;
    let here = gen.jit.get_current_address();
    let entry = gen.exec_toplevel(main, a);
    let code = &gen.jit.page_code(0)[here.pos..];
    assert_eq!(code[0], Inst::Bind(entry));
    assert_eq!(code[code.len() - 1], Inst::Ret);
}

fn float_float() -> Bc2 {
    Bc2::class2(ClassId(FLOAT_CLASS), ClassId(FLOAT_CLASS))
}

/// `while r2 < r3; r6 = r5 / r2; r1 = r1 + r6; r2 = r2 + 1; end; return r1`
fn float_loop() -> ISeqInfo {
    function(
        vec![
            Bc::from(narrow(14, 0, 0)),
            // 1:
            Bc::from_with_class2(wide(156 + 2, 4, 2, 3)),
            Bc::from(narrow(13, 4, 4)),
            Bc { op1: wide(173, 6, 5, 2), op2: Bc2::class2(ClassId(FLOAT_CLASS), ClassId(INTEGER_CLASS)) },
            Bc { op1: wide(170, 1, 1, 6), op2: float_float() },
            Bc::from_with_class2(wide(190, 2, 2, 1)),
            Bc::from(narrow(3, 0, (-6i32) as u32)),
            // 7:
            Bc::from(narrow(15, 0, 0)),
            Bc::from(wide(148, 1, 0, 0)),
        ],
        7,
    )
}

#[test]
fn what_a_loop_does_with_its_slots() {
    let f = float_loop();
    assert_eq!(
        loop_uses(&f, 1, 6),
        vec![
            SlotUse::Unseen,
            // the sum is read, then written, as a float
            SlotUse::Written,
            // the counter is written as an integer
            SlotUse::Other,
            SlotUse::Unseen,
            // the flag of the comparison
            SlotUse::Other,
            // the dividend is only read
            SlotUse::Read,
            // the quotient is written before it is read
            SlotUse::Other,
        ]
    );
    // nothing is seen in an empty range
    assert_eq!(loop_uses(&f, 5, 4), vec![SlotUse::Unseen; 7]);
    // a call in the loop may write any slot
    let mut with_call = float_loop();
    with_call.bytecode[5] = Bc::from(wide(152, 2, 2, 0));
    assert_eq!(loop_uses(&with_call, 1, 6), vec![SlotUse::Other; 7]);
}

#[test]
fn slots_that_carry_nothing_between_blocks() {
    let f = float_loop();
    let starts: Vec<bool> = f.get_bb_info().iter().map(|b| b.is_some()).collect();
    assert_eq!(starts, vec![false, true, false, false, false, false, false, true, false, false]);
    // the flag and the quotient are written before they are read; the
    // slots 0 and 3 are read in the block they come into, or hold `self`
    assert_eq!(find_temps(&f, &starts), vec![false, false, false, false, true, false, true]);
    // read after the loop: the quotient is no longer one of them
    let mut g = float_loop();
    g.bytecode[8] = Bc::from(wide(148, 6, 0, 0));
    assert_eq!(find_temps(&g, &starts), vec![false, false, false, false, true, false, false]);
}

#[test]
fn the_table_of_the_head_of_a_loop() {
    let uses = vec![SlotUse::Unseen, SlotUse::Written, SlotUse::Other, SlotUse::Read, SlotUse::Written, SlotUse::Read];
    // nothing is linked on the way in: registers are handed out in order
    let mut slots = StackSlotInfo(vec![LinkMode::Stack; 6]);
    head_slots(&mut slots, &uses);
    assert_eq!(
        slots.0,
        vec![
            LinkMode::Stack,
            LinkMode::XmmRW(0),
            LinkMode::Stack,
            LinkMode::XmmR(1),
            LinkMode::XmmRW(2),
            LinkMode::XmmR(3),
        ]
    );
    // links are kept; a slot that the loop writes as something else keeps
    // at most a register to read from
    let mut slots = StackSlotInfo(vec![
        LinkMode::XmmRW(0),
        LinkMode::XmmR(5),
        LinkMode::XmmRW(1),
        LinkMode::XmmRW(2),
        LinkMode::Stack,
        LinkMode::Stack,
    ]);
    head_slots(&mut slots, &uses);
    assert_eq!(
        slots.0,
        vec![
            LinkMode::XmmRW(0),
            LinkMode::XmmRW(5),
            LinkMode::XmmR(1),
            LinkMode::XmmR(2),
            LinkMode::XmmRW(3),
            LinkMode::XmmR(4),
        ]
    );
    // with no register left the slot stays on the stack
    let mut all: Vec<LinkMode> = (0..14).map(LinkMode::XmmR).collect();
    all.push(LinkMode::Stack);
    let mut uses = vec![SlotUse::Unseen; 14];
    uses.push(SlotUse::Written);
    let mut slots = StackSlotInfo(all.clone());
    head_slots(&mut slots, &uses);
    assert_eq!(slots.0, all);
}

#[test]
fn the_way_to_a_target_that_writes_what_the_source_has_on_the_stack() {
    let src = StackSlotInfo(vec![LinkMode::Stack, LinkMode::XmmR(1), LinkMode::Stack, LinkMode::XmmRW(3)]);
    let target = StackSlotInfo(vec![LinkMode::XmmRW(0), LinkMode::XmmRW(1), LinkMode::XmmR(2), LinkMode::Stack]);
    assert_eq!(
        soften(&src, &target).0,
        vec![LinkMode::XmmR(0), LinkMode::XmmRW(1), LinkMode::XmmR(2), LinkMode::Stack]
    );
}

#[test]
fn a_hot_function_is_marked_and_compiled() {
    let mut store = FnStore::new();
    let id = store.add_iseq(None, 0, 2, BcPc(0x10_0000)).unwrap();
    assert_eq!(id, FuncId(1));
    let f = function(vec![Bc::from(narrow(6, 1, 7)), Bc::from(wide(148, 1, 0, 0))], 2);
    let before = store.get(id).unwrap().data.meta;
    let mut gen = Codegen::new();
    let entry = exec_jit_compile(&mut gen, &mut store, &f, ClassId(OBJECT_CLASS)).unwrap();
    let after = store.get(id).unwrap().data.meta;
    assert_ne!(before, after);
    assert_eq!((after.func_id(), after.reg_num()), (id, 2));
    let mut marked = before;
    marked.set_jit();
    assert_eq!(after, marked);
    // the code is what the compilation of the whole function gives
    let mut other = Codegen::new();
    let same = other.jit_compile_ruby(&store, &f, ClassId(OBJECT_CLASS), None).unwrap().0;
    assert_eq!(entry, same);
    assert_eq!(gen.jit.page_code(0), other.jit.page_code(0));
    // a function that the store does not know is compiled all the same
    let mut empty = FnStore::new();
    assert!(exec_jit_compile(&mut gen, &mut empty, &f, ClassId(OBJECT_CLASS)).is_ok());
    assert_eq!(empty.functions.len(), 1);
}

#[test]
fn a_hot_loop_is_compiled_from_its_start() {
    let f = float_loop();
    let store = FnStore::new();
    let mut gen = Codegen::new();
    let pc = BcPc(f.base.0 + 16 * 1);
    let entry = exec_jit_partial_compile(&mut gen, &store, &f, ClassId(OBJECT_CLASS), pc).unwrap();
    let mut other = Codegen::new();
    let same = other.jit_compile_ruby(&store, &f, ClassId(OBJECT_CLASS), Some(1)).unwrap().0;
    assert_eq!(entry, same);
    assert_eq!(gen.jit.page_code(0), other.jit.page_code(0));
    // no frame is set up: the code starts with the way into the loop
    let whole = Codegen::new().jit.page_code(0).len();
    let code = &gen.jit.page_code(0)[whole..];
    assert_eq!(code[0], Inst::Bind(entry));
    assert!(!code.contains(&Inst::Pushq(Operand::R(monoruby::assembler::Reg::Rbp))));
}

#[test]
fn the_context_of_a_compilation_comes_back_with_the_entry() {
    let f = float_loop();
    let store = FnStore::new();
    let mut gen = Codegen::new();
    let (entry, cc) = gen.jit_compile_ruby(&store, &f, ClassId(OBJECT_CLASS), None).unwrap();
    assert!(gen.jit.page_code(0).contains(&Inst::Bind(entry)));
    // a label for every record and for the place after the last
    assert_eq!(cc.labels.len(), f.bytecode.len() + 1);
    assert!((0..=f.bytecode.len()).all(|i| cc.labels.contains_key(&i)));
    // the blocks start where branches land; the loop has its head at 1
    assert_eq!(cc.starts, vec![false, true, false, false, false, false, false, true, false, false]);
    assert_eq!(cc.heads.iter().filter(|h| **h).count(), 1);
    assert!(cc.heads[1]);
    assert_eq!(cc.ends[1], 6);
    assert_eq!(cc.temps, vec![false, false, false, false, true, false, true]);
    // both blocks were compiled: the head keeps the sum and the dividend in
    // registers
    let mut compiled: Vec<usize> = cc.targets.keys().copied().collect();
    compiled.sort();
    assert_eq!(compiled, vec![0, 1, 7]);
    assert_eq!(cc.targets[&1].0[1], LinkMode::XmmRW(0));
    assert_eq!(cc.targets[&1].0[5], LinkMode::XmmR(1));
    assert_eq!(cc.targets[&1].0[6], LinkMode::Stack);
    // the edge back to the head is the one that was left over
    assert_eq!(cc.edges.len(), 1);
    assert_eq!((cc.edges[0].src_idx, cc.edges[0].dest), (6, 1));
    assert_eq!(cc.edges[0].bbctx.stack_slot.0[1], LinkMode::XmmRW(0));
}
