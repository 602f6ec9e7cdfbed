//! Runs generated code on a small model of the processor and of the
//! runtime, and checks what it computes.
//!
//! The processor keeps the general and xmm registers, the flags, and a
//! memory of words.  Code can take the address of a label and write into an
//! instruction, as the inline caches of call sites do.  The runtime knows
//! objects with their classes and instance variables, arrays, and the
//! methods of classes.

use std::collections::HashMap;

use monoruby::assembler::{Cond, Data, DestLabel, Inst, LabelKind, Operand, Reg, RuntimeFn, Target};
use monoruby::codegen::Codegen;
use monoruby::funcs::FnStore;
use monoruby::ids::{BcPc, ClassId, FuncId, SlotId, INTEGER_CLASS, OBJECT_CLASS};
use monoruby::inst::{Bc, Bc2};
use monoruby::iseq::ISeqInfo;
use monoruby::value::{Value, FALSE_VALUE, NIL_VALUE, TRUE_VALUE};

const FUNC_TOKEN: u64 = 0xffff_0000_0000_0000;
const STACK_TOP: u64 = 0x7000_0000;
const HEAP_BASE: u64 = 0x1_0000_0000;
const CODE_BASE: u64 = 0x4000_0000_0000;
const FUNCDATA_BASE: u64 = 0x5000_0000;
const OBJECT_BASE: u64 = 0x6000_0000;
const INTERP: u64 = 0x7100_0000;
const GLOBALS: u64 = 0x7200_0000;
const RETURN_TOKEN: u64 = 0xfffe_0000_0000_0000;
const DATA_BASE: u64 = 0x3000_0000_0000;
const OBJKIND_OBJECT: u64 = 6;

/// The address of an instruction: sixteen bytes are reckoned for each.
fn code_addr(page: usize, idx: usize) -> u64 {
    CODE_BASE + ((page as u64) << 32) + idx as u64 * 16
}

/// The instruction that an address lies in, and the offset in it.
fn code_pos(addr: u64) -> Option<(usize, usize, u64)> {
    if addr < CODE_BASE || addr >= CODE_BASE + (3 << 32) {
        return None;
    }
    let rel = addr - CODE_BASE;
    Some(((rel >> 32) as usize, ((rel & 0xffff_ffff) / 16) as usize, rel % 16))
}

/// `a << b`, where a negative `b` shifts to the right; `None` where the
/// result does not fit in 64 bits.
fn shift_left(a: i64, b: i64) -> Option<i64> {
    if b <= -64 {
        Some(if a < 0 {
            -1
        } else {
            0
        })
    } else if b < 0 {
        Some(a >> -b)
    } else if a == 0 {
        Some(0)
    } else if b >= 64 {
        None
    } else {
        let wide = (a as i128) << b;
        i64::try_from(wide).ok()
    }
}

/// What the runtime knows: the objects with their classes, the arrays, and
/// the methods of the classes.
#[derive(Default)]
struct World {
    objects: HashMap<u64, u32>,
    arrays: HashMap<u64, Vec<u64>>,
    methods: HashMap<(u32, u32), u32>,
    /// The class in which a method definition defines.
    def_class: u32,
    /// How often a method was looked up.
    lookups: u64,
    /// The methods that were defined by the code, in order.
    defined: Vec<(u32, u32)>,
    /// The places in the bytecode at which an error was reported.
    error_at: Vec<u64>,
    /// The code of the functions that are compiled when their stubs ask for
    /// it, and the functions that were asked for, with `self`.
    compiled: HashMap<u32, u64>,
    asked: Vec<(u32, u64)>,
    /// The generic operations that the code asked for, with their
    /// operands.
    generic: Vec<(RuntimeFn, i64, i64)>,
    /// The superclass of a class.
    parents: HashMap<u32, u32>,
    /// The places of the instance variables in the objects of a class.
    ivars: HashMap<(u32, u32), u32>,
    /// How often an instance variable was found by its name.
    ivar_lookups: u64,
    /// The headers and instance variables of the objects that are still
    /// to be put into the machine's memory.
    fresh: Vec<(u64, u64)>,
    /// The functions that were called through a pointer, with the `outer`
    /// field, the meta word and `self` of the frames that they found.
    frames: Vec<(u64, u64, u64, u64)>,
}

impl World {
    fn new_object(&mut self, class: u32) -> Value {
        let addr = OBJECT_BASE + 64 * (self.objects.len() + self.arrays.len()) as u64;
        self.objects.insert(addr, class);
        // the header holds the kind in its second half-word and the class
        // in its upper half; six instance variables follow from offset 16
        self.fresh.push((addr, ((class as u64) << 32) | (OBJKIND_OBJECT << 16)));
        self.fresh.push((addr + 8, 0));
        for i in 0..6 {
            self.fresh.push((addr + 16 + 8 * i, NIL_VALUE));
        }
        Value(addr)
    }

    /// An object whose instance variable `name` holds `value`.
    fn new_object_with(&mut self, class: u32, name: u32, value: Value) -> Value {
        let obj = self.new_object(class);
        let id = self.ivar_id(class, name);
        self.fresh.push((obj.get() + 16 + 8 * id as u64, value.get()));
        obj
    }

    /// The place of an instance variable, which is made where the name is
    /// new to the class.
    fn ivar_id(&mut self, class: u32, name: u32) -> u32 {
        let n = self.ivars.keys().filter(|(c, _)| *c == class).count() as u32;
        *self.ivars.entry((class, name)).or_insert(n)
    }

    /// The method of the class or of the nearest superclass that has one.
    fn find_method(&self, class: u32, name: u32) -> Option<u32> {
        let mut class = class;
        loop {
            if let Some(f) = self.methods.get(&(class, name)) {
                return Some(*f);
            }
            class = *self.parents.get(&class)?;
        }
    }

    fn new_array(&mut self, items: Vec<Value>) -> Value {
        let addr = OBJECT_BASE + 64 * (self.objects.len() + self.arrays.len()) as u64;
        self.arrays.insert(addr, items.iter().map(|v| v.get()).collect());
        Value(addr)
    }

    fn class_of(&self, v: u64) -> u32 {
        if v & 1 == 1 {
            INTEGER_CLASS
        } else if let Some(c) = self.objects.get(&v) {
            *c
        } else if self.arrays.contains_key(&v) {
            monoruby::ids::ARRAY_CLASS
        } else {
            panic!("the class of {:#x} is not modelled", v)
        }
    }
}

#[derive(Debug, PartialEq)]
enum Halt {
    /// The code returned to the host.
    Returned,
    /// The code left for the interpreter, with `r13` as given.
    Deopt(u64),
    /// The code jumped to a label that is bound nowhere.
    Unbound(usize),
}

struct Machine<'a> {
    cg: &'a Codegen,
    regs: [u64; 16],
    xmm: [u64; 16],
    zf: bool,
    sf: bool,
    of: bool,
    cf: bool,
    pf: bool,
    mem: HashMap<u64, u64>,
    data: HashMap<usize, u64>,
    label_pos: HashMap<usize, (usize, usize)>,
    funcs: Vec<RuntimeFn>,
    ret_stack: Vec<(usize, usize)>,
    heap: Vec<u64>,
    steps: u64,
    /// Set when the code reported a division by zero.
    divide_by_zero: bool,
    /// How often a float was turned into a value.
    boxings: u64,
    world: World,
    /// The instructions that the code has changed.
    patches: HashMap<(usize, usize), Inst>,
    /// The instruction over which the opcode of a jump was written, until
    /// the displacement follows.
    jumps: Option<(usize, usize)>,
}

fn reg_no(r: Reg) -> usize {
    match r {
        Reg::Rax => 0,
        Reg::Rcx => 1,
        Reg::Rdx => 2,
        Reg::Rbx => 3,
        Reg::Rsp => 4,
        Reg::Rbp => 5,
        Reg::Rsi => 6,
        Reg::Rdi => 7,
        Reg::R8 => 8,
        Reg::R9 => 9,
        Reg::R10 => 10,
        Reg::R11 => 11,
        Reg::R12 => 12,
        Reg::R13 => 13,
        Reg::R14 => 14,
        Reg::R15 => 15,
    }
}

impl<'a> Machine<'a> {
    fn new(cg: &'a Codegen) -> Self {
        let mut label_pos = HashMap::new();
        for page in 0..3 {
            for (i, inst) in cg.jit.page_code(page).iter().enumerate() {
                if let Inst::Bind(DestLabel(l)) = inst {
                    assert!(label_pos.insert(*l, (page, i)).is_none(), "label {} bound twice", l);
                }
            }
        }
        let mut data = HashMap::new();
        for (l, kind) in cg.jit.labels().iter().enumerate() {
            if let LabelKind::Data(d) = kind {
                let v = match d {
                    Data::I64(v) => *v as u64,
                    Data::I32(v) => *v as u32 as u64,
                    Data::F64(bits) => *bits,
                };
                data.insert(l, v);
            }
        }
        let mut regs = [0u64; 16];
        regs[reg_no(Reg::Rsp)] = STACK_TOP;
        regs[reg_no(Reg::Rbp)] = STACK_TOP + 0x100;
        regs[reg_no(Reg::Rbx)] = INTERP;
        regs[reg_no(Reg::R12)] = GLOBALS;
        Machine {
            cg,
            regs,
            xmm: [0; 16],
            zf: false,
            sf: false,
            of: false,
            cf: false,
            pf: false,
            mem: HashMap::new(),
            data,
            label_pos,
            funcs: vec![],
            ret_stack: vec![],
            heap: vec![],
            steps: 0,
            divide_by_zero: false,
            boxings: 0,
            world: World::default(),
            patches: HashMap::new(),
            jumps: None,
        }
    }

    fn reg(&self, r: Reg) -> u64 {
        self.regs[reg_no(r)]
    }

    fn set_reg(&mut self, r: Reg, v: u64) {
        self.regs[reg_no(r)] = v;
    }

    fn addr(&self, o: Operand) -> u64 {
        match o {
            Operand::Ind(b, d) => self.reg(b).wrapping_add(d as u64),
            Operand::Idx(b, i, d) => self.reg(b).wrapping_add(self.reg(i).wrapping_mul(8)).wrapping_add(d as u64),
            Operand::Rip(DestLabel(l)) => match self.label_pos.get(&l) {
                Some(&(page, idx)) => code_addr(page, idx),
                None => {
                    assert!(self.data.contains_key(&l), "the address of a label that is nowhere");
                    DATA_BASE + 8 * l as u64
                }
            },
            other => panic!("not a memory operand: {:?}", other),
        }
    }

    fn read(&mut self, o: Operand) -> u64 {
        match o {
            Operand::R(r) => self.reg(r),
            Operand::Xmm(x) => self.xmm[x as usize],
            Operand::Imm(i) => i as u64,
            Operand::Imm64(u) => u,
            Operand::Func(f) => {
                self.funcs.push(f);
                FUNC_TOKEN | (self.funcs.len() as u64 - 1)
            }
            Operand::Rip(DestLabel(l)) => *self.data.get(&l).expect("no data at label"),
            Operand::Code(p) => panic!("the address of {:?} is not modelled", p),
            Operand::Ind(..) | Operand::Idx(..) => {
                let a = self.addr(o);
                let word = a & !7;
                let v = *self.mem.get(&word).unwrap_or_else(|| panic!("read of unwritten memory at {:#x}", a));
                v >> (8 * (a - word))
            }
        }
    }

    fn write(&mut self, o: Operand, v: u64) {
        match o {
            Operand::R(r) => self.set_reg(r, v),
            Operand::Xmm(x) => self.xmm[x as usize] = v,
            Operand::Rip(DestLabel(l)) => {
                self.data.insert(l, v);
            }
            Operand::Ind(..) | Operand::Idx(..) => {
                let a = self.addr(o);
                match code_pos(a) {
                    Some((page, idx, 8)) => {
                        // the immediate of a move
                        match self.fetch(page, idx) {
                            Inst::Movq(d, Operand::Imm64(_)) => {
                                self.patches.insert((page, idx), Inst::Movq(d, Operand::Imm64(v)));
                            }
                            other => panic!("a write into {:?}", other),
                        }
                    }
                    Some(other) => panic!("a write into the code at {:?}", other),
                    None => {
                        self.mem.insert(a, v);
                    }
                }
            }
            other => panic!("cannot write to {:?}", other),
        }
    }

    fn logic_flags(&mut self, r: u64) {
        self.zf = r == 0;
        self.sf = (r as i64) < 0;
        self.of = false;
        self.cf = false;
    }

    fn add(&mut self, a: u64, b: u64) -> u64 {
        let (r, c) = a.overflowing_add(b);
        let (_, o) = (a as i64).overflowing_add(b as i64);
        self.zf = r == 0;
        self.sf = (r as i64) < 0;
        self.cf = c;
        self.of = o;
        r
    }

    fn sub(&mut self, a: u64, b: u64) -> u64 {
        let (r, c) = a.overflowing_sub(b);
        let (_, o) = (a as i64).overflowing_sub(b as i64);
        self.zf = r == 0;
        self.sf = (r as i64) < 0;
        self.cf = c;
        self.of = o;
        r
    }

    fn cond(&self, c: Cond) -> bool {
        match c {
            Cond::Eq => self.zf,
            Cond::Ne => !self.zf,
            Cond::Lt => self.sf != self.of,
            Cond::Le => self.zf || self.sf != self.of,
            Cond::Gt => !self.zf && self.sf == self.of,
            Cond::Ge => self.sf == self.of,
            Cond::A => !self.cf && !self.zf,
            Cond::Ae => !self.cf,
            Cond::B => self.cf,
            Cond::Be => self.cf || self.zf,
            Cond::O => self.of,
            Cond::S => self.sf,
            Cond::Ns => !self.sf,
            Cond::P => self.pf,
        }
    }

    fn push(&mut self, v: u64) {
        let sp = self.reg(Reg::Rsp) - 8;
        self.set_reg(Reg::Rsp, sp);
        self.mem.insert(sp, v);
    }

    fn pop(&mut self) -> u64 {
        let sp = self.reg(Reg::Rsp);
        self.set_reg(Reg::Rsp, sp + 8);
        self.mem[&sp]
    }

    /// What the runtime does when generated code calls it.
    fn runtime(&mut self, f: RuntimeFn) {
        match f {
            RuntimeFn::NewFloat => {
                self.heap.push(self.xmm[0]);
                self.set_reg(Reg::Rax, HEAP_BASE + 8 * (self.heap.len() as u64 - 1));
            }
            RuntimeFn::ValToF => {
                let v = self.reg(Reg::Rdi);
                if v >= HEAP_BASE && v % 8 == 0 && ((v - HEAP_BASE) / 8) < self.heap.len() as u64 {
                    self.xmm[0] = self.heap[((v - HEAP_BASE) / 8) as usize];
                    self.set_reg(Reg::Rax, 1);
                } else {
                    self.set_reg(Reg::Rax, 0);
                }
            }
            RuntimeFn::ErrorDivideByZero => self.divide_by_zero = true,
            RuntimeFn::MulValues => {
                let (a, b) = (Value(self.reg(Reg::Rdx)), Value(self.reg(Reg::Rcx)));
                let product = match (a.as_integer(), b.as_integer()) {
                    (Some(a), Some(b)) => Value::from_integer(a * b).unwrap(),
                    _ => {
                        let p = self.number(a) * self.number(b);
                        match Value::from_float(p.to_bits()) {
                            Some(v) => v,
                            None => {
                                self.heap.push(p.to_bits());
                                Value(HEAP_BASE + 8 * (self.heap.len() as u64 - 1))
                            }
                        }
                    }
                };
                self.set_reg(Reg::Rax, product.get());
            }
            RuntimeFn::ShlValues | RuntimeFn::ShrValues => {
                // the slow path of a shift: the operands come as for every
                // generic operation
                let a = Value(self.reg(Reg::Rdx)).as_integer().unwrap();
                let b = Value(self.reg(Reg::Rcx)).as_integer().unwrap();
                self.world.generic.push((f, a, b));
                let shifted = if f == RuntimeFn::ShlValues {
                    shift_left(a, b)
                } else {
                    shift_left(a, b.checked_neg().unwrap())
                };
                let v = shifted.and_then(Value::from_integer).map(|v| v.get()).unwrap_or(NIL_VALUE);
                self.set_reg(Reg::Rax, v);
            }
            RuntimeFn::SetIndex => {
                assert_eq!((self.reg(Reg::Rdi), self.reg(Reg::Rsi)), (INTERP, GLOBALS));
                let (base, src) = (self.reg(Reg::Rdx), Value(self.reg(Reg::R8)));
                let idx = Value(self.reg(Reg::Rcx)).as_integer().expect("an index that is no integer");
                let items = self.world.arrays.get_mut(&base).expect("index of what is no array");
                let mut v: Vec<Value> = items.iter().map(|v| Value(*v)).collect();
                let r = monoruby::runtime::set_index(&mut v, idx, src);
                *items = v.iter().map(|v| v.get()).collect();
                self.set_reg(Reg::Rax, r.map(|v| v.get()).unwrap_or(0));
            }
            RuntimeFn::CmpLtValues => {
                let a = Value(self.reg(Reg::Rdi)).as_integer().unwrap();
                let b = Value(self.reg(Reg::Rsi)).as_integer().unwrap();
                self.set_reg(Reg::Rax, Value::bool(a < b).get());
            }
            RuntimeFn::ExecJitCompile => {
                assert_eq!(self.reg(Reg::Rdi), GLOBALS);
                let func = self.reg(Reg::Rsi) as u32;
                self.world.asked.push((func, self.reg(Reg::Rdx)));
                let code = self.world.compiled[&func];
                self.set_reg(Reg::Rax, code);
            }
            RuntimeFn::GetInstanceVarWithCache => {
                assert_eq!(self.reg(Reg::Rdx), GLOBALS);
                let (recv, name) = (self.reg(Reg::Rdi), self.reg(Reg::Rsi) as u32);
                let class = self.world.class_of(recv);
                let id = self.world.ivar_id(class, name);
                self.world.ivar_lookups += 1;
                self.store_data(self.reg(Reg::Rcx), class as u64);
                self.store_data(self.reg(Reg::R8), id as u64);
                let v = self.mem[&(recv + 16 + 8 * id as u64)];
                self.set_reg(Reg::Rax, v);
            }
            RuntimeFn::SetInstanceVarWithCache => {
                assert_eq!(self.reg(Reg::Rdi), GLOBALS);
                let (recv, name, v) = (self.reg(Reg::Rsi), self.reg(Reg::Rdx) as u32, self.reg(Reg::Rcx));
                let class = self.world.class_of(recv);
                let id = self.world.ivar_id(class, name);
                self.world.ivar_lookups += 1;
                self.store_data(self.reg(Reg::R8), class as u64);
                self.store_data(self.reg(Reg::R9), id as u64);
                self.mem.insert(recv + 16 + 8 * id as u64, v);
                self.set_reg(Reg::Rax, v);
            }
            RuntimeFn::GetBlockData => {
                assert_eq!((self.reg(Reg::Rdi), self.reg(Reg::Rdx)), (GLOBALS, INTERP));
                // the block is named by the number of its function; the
                // frame that made it is the caller of the frame on top
                let func = Value(self.reg(Reg::Rsi)).as_integer().expect("no block is given");
                let top = self.mem[&INTERP];
                let outer = self.mem[&top];
                self.set_reg(Reg::Rax, outer);
                self.set_reg(Reg::Rdx, FUNCDATA_BASE + 32 * func as u64);
            }
            RuntimeFn::GetErrorLocation => {
                assert_eq!((self.reg(Reg::Rdi), self.reg(Reg::Rsi)), (INTERP, GLOBALS));
                self.world.error_at.push(self.reg(Reg::Rcx));
            }
            RuntimeFn::Dup => {
                // the copy of a literal stands for the literal
                let v = self.reg(Reg::Rdi);
                self.set_reg(Reg::Rax, v);
            }
            RuntimeFn::GetClass => {
                let c = self.world.class_of(self.reg(Reg::Rdi));
                self.set_reg(Reg::Rax, c as u64);
            }
            RuntimeFn::FindMethod => {
                assert_eq!(self.reg(Reg::Rdi), GLOBALS);
                let name = self.reg(Reg::Rsi) as u32;
                let class = self.world.class_of(self.reg(Reg::Rcx));
                self.world.lookups += 1;
                let found = match self.world.find_method(class, name) {
                    Some(func) => FUNCDATA_BASE + 32 * func as u64,
                    None => 0,
                };
                self.set_reg(Reg::Rax, found);
            }
            RuntimeFn::DefineMethod => {
                assert_eq!((self.reg(Reg::Rdi), self.reg(Reg::Rsi)), (INTERP, GLOBALS));
                let (name, func) = (self.reg(Reg::Rdx) as u32, self.reg(Reg::Rcx) as u32);
                let class = self.world.def_class;
                self.world.methods.insert((class, name), func);
                self.world.defined.push((name, func));
            }
            RuntimeFn::GetIndex => {
                assert_eq!((self.reg(Reg::Rdi), self.reg(Reg::Rsi)), (INTERP, GLOBALS));
                let items = self.world.arrays.get(&self.reg(Reg::Rdx)).expect("index of what is no array");
                let idx = Value(self.reg(Reg::Rcx)).as_integer().expect("an index that is no integer");
                let v = monoruby::runtime::get_index(&items.iter().map(|v| Value(*v)).collect(), idx);
                self.set_reg(Reg::Rax, v.get());
            }
            other => panic!("the runtime function {:?} is not modelled", other),
        }
    }

    /// The number that a value holds.
    fn number(&self, v: Value) -> f64 {
        match (v.as_integer(), v.as_float()) {
            (Some(i), _) => i as f64,
            (_, Some(bits)) => f64::from_bits(bits),
            _ => f64::from_bits(self.heap[((v.get() - HEAP_BASE) / 8) as usize]),
        }
    }

    /// Writes the 32-bit datum that a pointer names.
    fn store_data(&mut self, ptr: u64, v: u64) {
        assert!(ptr >= DATA_BASE && (ptr - DATA_BASE) % 8 == 0, "no datum at {:#x}", ptr);
        let l = ((ptr - DATA_BASE) / 8) as usize;
        assert!(self.data.contains_key(&l));
        self.data.insert(l, v & 0xffff_ffff);
    }

    /// Notes the frame that a function finds when it is called through a
    /// pointer.
    fn note_frame(&mut self, dest: u64) {
        let frame = self.reg(Reg::Rsp) - 8;
        let field = |m: &Machine, offset: u64| m.mem.get(&(frame - offset)).copied().unwrap_or(0);
        let entry = (dest, field(self, 16), field(self, 24), field(self, 40));
        self.world.frames.push(entry);
    }

    /// The instruction at a place, as the code has left it.
    fn fetch(&self, page: usize, idx: usize) -> Inst {
        match self.patches.get(&(page, idx)) {
            Some(inst) => *inst,
            None => {
                let code = self.cg.jit.page_code(page);
                assert!(idx < code.len(), "ran off the end of page {}", page);
                code[idx]
            }
        }
    }

    /// Calls the code at a label and runs until it returns or leaves.
    fn call(&mut self, entry: DestLabel) -> Halt {
        let (page, idx) = self.label_pos[&entry.0];
        self.call_at(page, idx)
    }

    /// Calls the code at a place and runs until it returns or leaves.
    fn call_at(&mut self, page: usize, idx: usize) -> Halt {
        let (mut page, mut idx) = (page, idx);
        self.ret_stack.clear();
        self.push(RETURN_TOKEN);
        loop {
            self.steps += 1;
            assert!(self.steps < 100_000_000, "the code does not halt");
            let inst = self.fetch(page, idx);
            idx += 1;
            let mut jump: Option<Target> = None;
            let mut is_call = false;
            match inst {
                Inst::Bind(_) => {}
                Inst::Movq(d, s) => {
                    let v = self.read(s);
                    self.write(d, v);
                }
                Inst::Movl(d, s) => {
                    let v = self.read(s) & 0xffff_ffff;
                    let in_code = match d {
                        Operand::Ind(..) => code_pos(self.addr(d)),
                        _ => None,
                    };
                    match d {
                        Operand::R(_) => self.write(d, v),
                        _ if in_code.is_some() => {
                            // the displacement of a call, counted from the
                            // instruction after it
                            let (p, i, offset) = in_code.unwrap();
                            let disp = v as u32 as i32 as i64 as u64;
                            if offset == 1 {
                                // the displacement of a jump of five bytes
                                // that was written over an instruction
                                assert_eq!(self.jumps.take(), Some((p, i)), "a write into the code");
                                let dest = code_addr(p, i).wrapping_add(5).wrapping_add(disp);
                                self.patches.insert((p, i), Inst::Jmp(Target::Abs(dest)));
                            } else {
                                assert_eq!(offset, 12, "a write into the code");
                                assert!(
                                    matches!(self.fetch(p, i), Inst::Call(_)),
                                    "a write into {:?}",
                                    self.fetch(p, i)
                                );
                                let dest = code_addr(p, i + 1).wrapping_add(disp);
                                self.patches.insert((p, i), Inst::Call(Target::Abs(dest)));
                            }
                        }
                        _ => {
                            let old = self.read(d);
                            self.write(d, (old & !0xffff_ffff) | v);
                        }
                    }
                }
                Inst::Movw(d, s) => {
                    let v = self.read(s) & 0xffff;
                    match d {
                        Operand::Rip(DestLabel(l)) if self.label_pos.contains_key(&l) => {
                            // the opcode of a jump, written over the
                            // instruction at the label
                            assert_eq!(v, 0xe9, "a write into the code");
                            self.jumps = Some(self.label_pos[&l]);
                        }
                        Operand::Ind(..) => {
                            let a = self.addr(d);
                            let (word, shift) = (a & !7, 8 * (a & 7));
                            let old = self.mem.get(&word).copied().unwrap_or(0);
                            self.mem.insert(word, (old & !(0xffff << shift)) | (v << shift));
                        }
                        other => panic!("cannot write a half-word to {:?}", other),
                    }
                }
                Inst::Subl(d, s) => {
                    let (a, b) = (self.read(d) as u32, self.read(s) as u32);
                    let r = a.wrapping_sub(b);
                    self.zf = r == 0;
                    self.sf = (r as i32) < 0;
                    self.write(d, r as u64);
                }
                Inst::Lea(d, s) => {
                    let a = self.addr(s);
                    self.write(d, a);
                }
                Inst::Pushq(s) => {
                    let v = self.read(s);
                    self.push(v);
                }
                Inst::Popq(d) => {
                    let v = self.pop();
                    self.write(d, v);
                }
                Inst::Addq(d, s) => {
                    let (a, b) = (self.read(d), self.read(s));
                    let r = self.add(a, b);
                    self.write(d, r);
                }
                Inst::Addl(d, s) => {
                    let (a, b) = (self.read(d) as u32, self.read(s) as u32);
                    let r = a.wrapping_add(b);
                    self.zf = r == 0;
                    self.write(d, r as u64);
                }
                Inst::Subq(d, s) => {
                    let (a, b) = (self.read(d), self.read(s));
                    let r = self.sub(a, b);
                    self.write(d, r);
                }
                Inst::Andq(d, s) => {
                    let r = self.read(d) & self.read(s);
                    self.logic_flags(r);
                    self.write(d, r);
                }
                Inst::Andl(d, s) => {
                    let r = (self.read(d) & self.read(s)) & 0xffff_ffff;
                    self.logic_flags(r);
                    self.write(d, r);
                }
                Inst::Orq(d, s) => {
                    let r = self.read(d) | self.read(s);
                    self.logic_flags(r);
                    self.write(d, r);
                }
                Inst::Xorq(d, s) => {
                    let r = self.read(d) ^ self.read(s);
                    self.logic_flags(r);
                    self.write(d, r);
                }
                Inst::Negq(d) => {
                    let a = self.read(d);
                    let r = self.sub(0, a);
                    self.write(d, r);
                }
                Inst::Shlq(d, s) | Inst::Salq(d, s) => {
                    let n = self.read(s) & 63;
                    let r = self.read(d) << n;
                    self.logic_flags(r);
                    self.write(d, r);
                }
                Inst::Shrq(d, s) => {
                    let n = self.read(s) & 63;
                    let r = self.read(d) >> n;
                    self.logic_flags(r);
                    self.write(d, r);
                }
                Inst::Sarq(d, s) => {
                    let n = self.read(s) & 63;
                    let r = ((self.read(d) as i64) >> n) as u64;
                    self.logic_flags(r);
                    self.write(d, r);
                }
                Inst::Rolq(d, s) => {
                    let n = (self.read(s) & 63) as u32;
                    let r = self.read(d).rotate_left(n);
                    self.write(d, r);
                }
                Inst::Cmpq(a, b) => {
                    let (a, b) = (self.read(a), self.read(b));
                    self.sub(a, b);
                }
                Inst::Cmpl(a, b) => {
                    let (a, b) = (self.read(a) as u32, self.read(b) as u32);
                    let (r, c) = a.overflowing_sub(b);
                    let (_, o) = (a as i32).overflowing_sub(b as i32);
                    self.zf = r == 0;
                    self.sf = (r as i32) < 0;
                    self.cf = c;
                    self.of = o;
                }
                Inst::Cmpw(a, b) => {
                    let (a, b) = (self.read(a) as u16, self.read(b) as u16);
                    let (r, c) = a.overflowing_sub(b);
                    let (_, o) = (a as i16).overflowing_sub(b as i16);
                    self.zf = r == 0;
                    self.sf = (r as i16) < 0;
                    self.cf = c;
                    self.of = o;
                }
                Inst::Testq(a, b) => {
                    let r = self.read(a) & self.read(b);
                    self.logic_flags(r);
                }
                Inst::Lzcntq(d, s) => {
                    let r = self.read(s).leading_zeros() as u64;
                    self.write(d, r);
                }
                Inst::Setcc(c, r) => {
                    let v = (self.reg(r) & !0xff) | self.cond(c) as u64;
                    self.set_reg(r, v);
                }
                Inst::Jcc(c, l) => {
                    if self.cond(c) {
                        jump = Some(Target::Label(l));
                    }
                }
                Inst::Jmp(t) => jump = Some(t),
                Inst::Call(t) => {
                    if t == Target::Label(self.cg.f64_to_val) {
                        self.boxings += 1;
                    }
                    jump = Some(t);
                    is_call = true;
                }
                Inst::Leave => {
                    let bp = self.reg(Reg::Rbp);
                    self.set_reg(Reg::Rsp, bp);
                    let v = self.pop();
                    self.set_reg(Reg::Rbp, v);
                }
                Inst::Ret => {
                    let token = self.pop();
                    assert_eq!(token & RETURN_TOKEN, RETURN_TOKEN, "return to {:#x}", token);
                    match self.ret_stack.pop() {
                        Some((p, i)) => {
                            page = p;
                            idx = i;
                        }
                        None => return Halt::Returned,
                    }
                }
                Inst::Xorps(d, s) => {
                    let r = self.read(d) ^ self.read(s);
                    self.write(d, r);
                }
                Inst::Addsd(d, s) => self.float_op(d, s, |a, b| a + b),
                Inst::Subsd(d, s) => self.float_op(d, s, |a, b| a - b),
                Inst::Mulsd(d, s) => self.float_op(d, s, |a, b| a * b),
                Inst::Divsd(d, s) => self.float_op(d, s, |a, b| a / b),
                Inst::Sqrtsd(d, s) => self.float_op(d, s, |_, b| b.sqrt()),
                Inst::Ucomisd(a, b) => {
                    let (a, b) = (f64::from_bits(self.read(a)), f64::from_bits(self.read(b)));
                    self.of = false;
                    self.sf = false;
                    match a.partial_cmp(&b) {
                        None => {
                            self.zf = true;
                            self.pf = true;
                            self.cf = true;
                        }
                        Some(o) => {
                            self.pf = false;
                            self.zf = o == std::cmp::Ordering::Equal;
                            self.cf = o == std::cmp::Ordering::Less;
                        }
                    }
                }
                Inst::Cvtsi2sdq(d, s) => {
                    let v = self.read(s) as i64 as f64;
                    self.write(d, v.to_bits());
                }
                other => panic!("the instruction {:?} is not modelled", other),
            }
            if let Some(t) = jump {
                match t {
                    Target::Label(DestLabel(l)) => match self.label_pos.get(&l) {
                        Some(&(p, i)) => {
                            if is_call {
                                self.ret_stack.push((page, idx));
                                self.push(RETURN_TOKEN);
                            }
                            page = p;
                            idx = i;
                        }
                        None => {
                            if DestLabel(l) == self.cg.vm_fetch || DestLabel(l) == self.cg.vm_entry {
                                return Halt::Deopt(self.reg(Reg::R13));
                            }
                            return Halt::Unbound(l);
                        }
                    },
                    Target::Reg(r) => {
                        let token = self.reg(r);
                        if let Some((p, i, 0)) = code_pos(token) {
                            if is_call {
                                self.ret_stack.push((page, idx));
                                self.push(RETURN_TOKEN);
                                self.note_frame(token);
                            }
                            page = p;
                            idx = i;
                        } else {
                            assert_eq!(token & FUNC_TOKEN, FUNC_TOKEN, "call of a value that is no function");
                            let f = self.funcs[(token & 0xffff) as usize];
                            self.runtime(f);
                            if !is_call {
                                // a jump into the runtime: the function
                                // returns to the caller of this code
                                let token = self.pop();
                                assert_eq!(token & RETURN_TOKEN, RETURN_TOKEN);
                                match self.ret_stack.pop() {
                                    Some((p, i)) => {
                                        page = p;
                                        idx = i;
                                    }
                                    None => return Halt::Returned,
                                }
                            }
                        }
                    }
                    Target::Abs(a) => match code_pos(a) {
                        Some((p, i, 0)) => {
                            if is_call {
                                self.ret_stack.push((page, idx));
                                self.push(RETURN_TOKEN);
                                self.note_frame(a);
                            }
                            page = p;
                            idx = i;
                        }
                        _ => panic!("call of the address {:#x}", a),
                    },
                }
            }
        }
    }

    fn float_op(&mut self, d: Operand, s: Operand, f: fn(f64, f64) -> f64) {
        let (a, b) = (f64::from_bits(self.read(d)), f64::from_bits(self.read(s)));
        self.write(d, f(a, b).to_bits());
    }

    fn slot_addr(&self, slot: u16) -> u64 {
        self.reg(Reg::Rbp) - (slot as u64 * 8 + 40)
    }
}

/// A routine that turns the value in `rdi` into the double in `xmm0`.
fn with_return(gen: &mut Codegen, body: impl FnOnce(&mut Codegen, DestLabel)) -> DestLabel {
    let panic = gen.entry_panic;
    let entry = gen.label();
    gen.emit(vec![Inst::Bind(entry), Inst::Pushq(Operand::R(Reg::Rbp))]);
    body(&mut *gen, panic);
    gen.emit(vec![Inst::Popq(Operand::R(Reg::Rbp)), Inst::Ret]);
    entry
}

fn from_f64(m: &mut Machine, n: f64) -> Value {
    m.xmm[0] = n.to_bits();
    let entry = m.cg.f64_to_val;
    assert_eq!(m.call(entry), Halt::Returned);
    Value(m.reg(Reg::Rax))
}

fn to_f64(m: &mut Machine, entry: DestLabel, v: Value) -> f64 {
    m.set_reg(Reg::Rdi, v.get());
    assert_eq!(m.call(entry), Halt::Returned);
    f64::from_bits(m.xmm[0])
}

/// The value of a double: inline where that is possible, else on the
/// machine's heap.
fn new_float(m: &mut Machine, n: f64) -> Value {
    match Value::from_float(n.to_bits()) {
        Some(v) => v,
        None => {
            m.heap.push(n.to_bits());
            Value(HEAP_BASE + 8 * (m.heap.len() as u64 - 1))
        }
    }
}

#[test]
fn float_test() {
    let mut gen = Codegen::new();
    let assume_float_to_f64 = with_return(&mut gen, |gen, panic| {
        gen.gen_val_to_f64_assume_float(0, panic);
    });
    let mut m = Machine::new(&gen);
    for n in [
        0.0,
        4.2,
        35354354354.2135365,
        -3535354345111.5696876565435432,
        f64::MAX,
        f64::MAX / 10.0,
        f64::MIN * 10.0,
        f64::NAN,
    ] {
        let v = from_f64(&mut m, n);
        let (lhs, rhs) = (n, to_f64(&mut m, assume_float_to_f64, v));
        if lhs.is_nan() {
            assert!(rhs.is_nan());
        } else {
            assert_eq!(n, to_f64(&mut m, assume_float_to_f64, v));
        }
    }
}

#[test]
fn float_test2() {
    let mut gen = Codegen::new();
    let float_to_f64 = with_return(&mut gen, |gen, panic| {
        gen.gen_val_to_f64_assume_float(0, panic);
    });
    let int_to_f64 = with_return(&mut gen, |gen, panic| {
        gen.gen_val_to_f64_assume_integer(0, panic);
    });
    let mut m = Machine::new(&gen);
    let v = new_float(&mut m, 3.574);
    assert_eq!(3.574, to_f64(&mut m, float_to_f64, v));
    let v = new_float(&mut m, 0.0);
    assert_eq!(0.0, to_f64(&mut m, float_to_f64, v));
    assert_eq!(143.0, to_f64(&mut m, int_to_f64, Value::from_integer(143).unwrap()));
    assert_eq!(14354813558.0, to_f64(&mut m, int_to_f64, Value::from_integer(14354813558).unwrap()));
    assert_eq!(-143.0, to_f64(&mut m, int_to_f64, Value::from_integer(-143).unwrap()));
}

#[test]
fn float_test3() {
    let mut gen = Codegen::new();
    let entry = with_return(&mut gen, |gen, panic| {
        gen.gen_val_to_f64(0, panic);
    });
    let mut m = Machine::new(&gen);
    let v = new_float(&mut m, 3.574);
    assert_eq!(3.574, to_f64(&mut m, entry, v));
    let v = new_float(&mut m, 0.0);
    assert_eq!(0.0, to_f64(&mut m, entry, v));
    let v = new_float(&mut m, f64::MAX);
    assert_eq!(f64::MAX, to_f64(&mut m, entry, v));
    let v = new_float(&mut m, f64::MIN);
    assert_eq!(f64::MIN, to_f64(&mut m, entry, v));
    let v = new_float(&mut m, f64::NAN);
    assert!(to_f64(&mut m, entry, v).is_nan());
    let v = new_float(&mut m, f64::INFINITY);
    assert!(to_f64(&mut m, entry, v).is_infinite());
    assert_eq!(143.0, to_f64(&mut m, entry, Value::from_integer(143).unwrap()));
    assert_eq!(14354813558.0, to_f64(&mut m, entry, Value::from_integer(14354813558).unwrap()));
    assert_eq!(-143.0, to_f64(&mut m, entry, Value::from_integer(-143).unwrap()));
}

#[test]
fn boxing_agrees_with_the_library() {
    let gen = Codegen::new();
    let mut m = Machine::new(&gen);
    let twin = f64::from_bits(monoruby::value::FLOAT_ZERO_TWIN);
    let samples =
        [0.0, -0.0, 1.0, -1.0, 4.2, 1e-70, 1e70, 1e-80, 1e80, f64::MIN_POSITIVE, f64::NAN, f64::INFINITY, twin, -twin];
    for n in samples {
        let v = from_f64(&mut m, n);
        match Value::from_float(n.to_bits()) {
            Some(inline) => assert_eq!(v, inline, "for {}", n),
            None => assert!(v.get() >= HEAP_BASE, "for {}", n),
        }
    }
    // the double whose packed word would stand for zero goes to the heap,
    // and comes back from there
    let v = from_f64(&mut m, twin);
    assert!(v.get() >= HEAP_BASE);
    assert_eq!(m.number(v), twin);
}

// ---------------------------------------------------------------------
// Whole functions
// ---------------------------------------------------------------------

fn narrow(opcode: u64, op1: u16, op2: u32) -> u64 {
    (opcode << 48) | ((op1 as u64) << 32) | op2 as u64
}

fn wide(opcode: u64, op1: u16, op2: u16, op3: u16) -> u64 {
    (opcode << 48) | ((op1 as u64) << 32) | ((op2 as u64) << 16) | op3 as u64
}

const BASE: u64 = 0x10_0000;

fn function(bytecode: Vec<Bc>, reg_num: usize) -> ISeqInfo {
    ISeqInfo::new(FuncId(1), None, bytecode, BcPc(BASE), reg_num, 1, reg_num - 1).unwrap()
}

/// Compiles the function, runs it with `self` set to `nil`, and returns how
/// it ended and what `rax` held.
fn compile_and_run(func: &ISeqInfo) -> (Halt, u64, u64) {
    let (halt, rax, steps, _) = compile_and_run_for_error(func);
    (halt, rax, steps)
}

fn compile_and_run_for_error(func: &ISeqInfo) -> (Halt, u64, u64, bool) {
    let (halt, rax, steps, error, _) = compile_and_run_counting(func);
    (halt, rax, steps, error)
}

/// As above, and how often the code turned a float into a value.
fn compile_and_run_counting(func: &ISeqInfo) -> (Halt, u64, u64, bool, u64) {
    let mut gen = Codegen::new();
    let store = FnStore::new();
    let entry = gen.jit_compile_ruby(&store, func, ClassId(OBJECT_CLASS), None).unwrap().0;
    let mut m = Machine::new(&gen);
    // the caller has staged the frame: self stands in slot 0
    let sp = m.reg(Reg::Rsp);
    m.mem.insert(sp - 16 - 40, NIL_VALUE);
    let halt = m.call(entry);
    (halt, m.reg(Reg::Rax), m.steps, m.divide_by_zero, m.boxings)
}

/// `s = 0; i = 0; while i < limit; s += i; i += 1; end; s`
fn loop_sum(limit: i32) -> ISeqInfo {
    let s = 1;
    let i = 2;
    let lim = 3;
    let c = 4;
    function(
        vec![
            Bc::from(narrow(6, s, 0)),
            Bc::from(narrow(6, i, 0)),
            Bc::from(narrow(6, lim, limit as u32)),
            Bc::from(narrow(14, 0, 0)),
            // 4: c = i < lim, fused with the branch that follows
            Bc::from_with_class2(wide(156 + 2, c, i, lim)),
            // 5: leave the loop unless c
            Bc::from(narrow(13, c, 3)),
            // 6: s = s + i
            Bc::from_with_class2(wide(170, s, s, i)),
            // 7: i = i + 1
            Bc::from_with_class2(wide(190, i, i, 1)),
            // 8: back to the comparison
            Bc::from(narrow(3, 0, (-5i32) as u32)),
            // 9:
            Bc::from(narrow(15, 0, 0)),
            Bc::from(wide(148, s, 0, 0)),
        ],
        5,
    )
}

#[test]
fn integer_loop_sum() {
    let (halt, rax, _) = compile_and_run(&loop_sum(1_000_000));
    assert_eq!(halt, Halt::Returned);
    assert_eq!(Value(rax).as_integer(), Some(499999500000));
}

#[test]
fn integer_loop_sum_of_nothing() {
    let (halt, rax, _) = compile_and_run(&loop_sum(0));
    assert_eq!(halt, Halt::Returned);
    assert_eq!(Value(rax).as_integer(), Some(0));
    let (halt, rax, _) = compile_and_run(&loop_sum(-5));
    assert_eq!(halt, Halt::Returned);
    assert_eq!(Value(rax).as_integer(), Some(0));
}

#[test]
fn fixnum_add_at_the_limit_leaves_for_the_slow_path() {
    // %1 = i63::MAX (a literal); %2 = %1 + 1
    let max = Value::from_integer(0x3fff_ffff_ffff_ffff).unwrap();
    let func = function(
        vec![
            Bc::from_with_value(narrow(7, 1, 0), max),
            Bc::from_with_class2(wide(190, 2, 1, 1)),
            Bc::from(wide(148, 2, 0, 0)),
        ],
        3,
    );
    let (halt, _, _) = compile_and_run(&func);
    // the addition overflows: the code leaves through the side exit, which
    // hands the addition itself to the interpreter
    assert_eq!(halt, Halt::Deopt(BASE + 16));
    // one less does not overflow
    let func = function(
        vec![
            Bc::from_with_value(narrow(7, 1, 0), Value::from_integer(0x3fff_ffff_ffff_fffe).unwrap()),
            Bc::from_with_class2(wide(190, 2, 1, 1)),
            Bc::from(wide(148, 2, 0, 0)),
        ],
        3,
    );
    let (halt, rax, _) = compile_and_run(&func);
    assert_eq!(halt, Halt::Returned);
    assert_eq!(Value(rax), max);
}

/// `if <value> then 1 else 2 end`
fn truth_of(value: Value) -> i64 {
    let func = function(
        vec![
            Bc::from_with_value(narrow(7, 1, 0), value),
            // 1: branch to 4 unless %1
            Bc::from(narrow(5, 1, 2)),
            Bc::from(narrow(6, 2, 1)),
            Bc::from(wide(148, 2, 0, 0)),
            Bc::from(narrow(6, 2, 2)),
            Bc::from(wide(148, 2, 0, 0)),
        ],
        3,
    );
    let (halt, rax, _) = compile_and_run(&func);
    assert_eq!(halt, Halt::Returned);
    Value(rax).as_integer().unwrap()
}

#[test]
fn only_nil_and_false_are_falsy() {
    assert_eq!(truth_of(Value(NIL_VALUE)), 2);
    assert_eq!(truth_of(Value(FALSE_VALUE)), 2);
    assert_eq!(truth_of(Value(TRUE_VALUE)), 1);
    assert_eq!(truth_of(Value::fixnum(0)), 1);
    assert_eq!(truth_of(Value::fixnum(-1)), 1);
    assert_eq!(truth_of(Value::from_float(0f64.to_bits()).unwrap()), 1);
    assert_eq!(truth_of(Value::from_float(1.5f64.to_bits()).unwrap()), 1);
}

fn float_classes() -> Bc2 {
    Bc2::class2(ClassId(monoruby::ids::FLOAT_CLASS), ClassId(monoruby::ids::FLOAT_CLASS))
}

/// `a <op> b` on floats, with type feedback that says so.
fn float_binop(opcode: u64, a: f64, b: f64) -> (Halt, u64) {
    let (halt, rax, _) = float_binop_for_error(opcode, a, b);
    (halt, rax)
}

fn float_binop_for_error(opcode: u64, a: f64, b: f64) -> (Halt, u64, bool) {
    let func = function(
        vec![
            Bc::from_with_value(narrow(7, 1, 0), Value::from_float(a.to_bits()).unwrap()),
            Bc::from_with_value(narrow(7, 2, 0), Value::from_float(b.to_bits()).unwrap()),
            Bc { op1: wide(opcode, 3, 1, 2), op2: float_classes() },
            Bc::from(wide(148, 3, 0, 0)),
        ],
        4,
    );
    let (halt, rax, _, error) = compile_and_run_for_error(&func);
    (halt, rax, error)
}

#[test]
fn float_arithmetic_in_registers() {
    let as_f = |rax: u64| f64::from_bits(Value(rax).as_float().unwrap());
    let (halt, rax) = float_binop(170, 1.5, 2.25);
    assert_eq!(halt, Halt::Returned);
    assert_eq!(as_f(rax), 3.75);
    let (_, rax) = float_binop(171, 1.5, 2.25);
    assert_eq!(as_f(rax), -0.75);
    let (_, rax) = float_binop(172, 1.5, 2.0);
    assert_eq!(as_f(rax), 3.0);
    let (_, rax) = float_binop(173, 1.5, 2.0);
    assert_eq!(as_f(rax), 0.75);
}

#[test]
fn float_division_by_zero() {
    // division by the float zero goes to the trampoline that sets the
    // error and returns no value
    let (halt, rax, error) = float_binop_for_error(173, 1.5, 0.0);
    assert_eq!(halt, Halt::Returned);
    assert_eq!(rax, 0);
    assert!(error);
    let (halt, rax, error) = float_binop_for_error(173, 1.5, 0.5);
    assert_eq!(halt, Halt::Returned);
    assert_eq!(f64::from_bits(Value(rax).as_float().unwrap()), 3.0);
    assert!(!error);
    // a negative zero that comes from a value is held as the zero sentinel
    let (halt, rax, error) = float_binop_for_error(173, 1.5, -0.0);
    assert_eq!(halt, Halt::Returned);
    assert_eq!(rax, 0);
    assert!(error);
}

#[test]
fn float_division_by_a_computed_negative_zero() {
    // %3 = 0.0 * -1.5, which is -0.0 in its register; %4 = 1.5 / %3.
    // The test for zero leaves the sign of the divisor aside.
    let func = function(
        vec![
            Bc::from_with_value(narrow(7, 1, 0), Value::from_float(0f64.to_bits()).unwrap()),
            Bc::from_with_value(narrow(7, 2, 0), Value::from_float((-1.5f64).to_bits()).unwrap()),
            Bc { op1: wide(172, 3, 1, 2), op2: float_classes() },
            Bc::from_with_value(narrow(7, 5, 0), Value::from_float(1.5f64.to_bits()).unwrap()),
            Bc { op1: wide(173, 4, 5, 3), op2: float_classes() },
            Bc::from(wide(148, 4, 0, 0)),
        ],
        6,
    );
    let (halt, rax, _, error) = compile_and_run_for_error(&func);
    assert_eq!(halt, Halt::Returned);
    assert!(error);
    assert_eq!(rax, 0);
}

#[test]
fn integer_feedback_on_floats_leaves_through_the_side_exit() {
    // type feedback says integer, the operands are floats
    let func = function(
        vec![
            Bc::from_with_value(narrow(7, 1, 0), Value::from_float(1.5f64.to_bits()).unwrap()),
            Bc::from_with_class2(wide(170, 2, 1, 1)),
            Bc::from(wide(148, 2, 0, 0)),
        ],
        3,
    );
    let (halt, _, _) = compile_and_run(&func);
    assert_eq!(halt, Halt::Deopt(BASE + 16));
    assert_eq!(INTEGER_CLASS, 6);
    assert_eq!(SlotId::new(3).0, 3);
}

/// `s = 0.0; k = 1; while k < limit; s += 1.0 / k; k += 1; end; s`
fn harmonic(limit: i32) -> ISeqInfo {
    let s = 1;
    let k = 2;
    let lim = 3;
    let c = 4;
    let one = 5;
    let t = 6;
    let float_int = Bc2::class2(ClassId(monoruby::ids::FLOAT_CLASS), ClassId(INTEGER_CLASS));
    function(
        vec![
            Bc::from_with_value(narrow(7, s, 0), Value::from_float(0f64.to_bits()).unwrap()),
            Bc::from_with_value(narrow(7, one, 0), Value::from_float(1f64.to_bits()).unwrap()),
            Bc::from(narrow(6, k, 1)),
            Bc::from(narrow(6, lim, limit as u32)),
            Bc::from(narrow(14, 0, 0)),
            // 5: c = k < lim, fused with the branch that follows
            Bc::from_with_class2(wide(156 + 2, c, k, lim)),
            // 6: leave the loop unless c
            Bc::from(narrow(13, c, 4)),
            // 7: t = 1.0 / k
            Bc { op1: wide(173, t, one, k), op2: float_int },
            // 8: s = s + t
            Bc { op1: wide(170, s, s, t), op2: float_classes() },
            // 9: k = k + 1
            Bc::from_with_class2(wide(190, k, k, 1)),
            // 10: back to the comparison
            Bc::from(narrow(3, 0, (-6i32) as u32)),
            // 11:
            Bc::from(narrow(15, 0, 0)),
            Bc::from(wide(148, s, 0, 0)),
        ],
        7,
    )
}

#[test]
fn float_reduction() {
    let (halt, rax, _) = compile_and_run(&harmonic(1001));
    assert_eq!(halt, Halt::Returned);
    let sum = f64::from_bits(Value(rax).as_float().unwrap());
    assert!((sum - 7.48547086055034).abs() < 1e-12, "{}", sum);
    let mut expected = 0.0f64;
    for k in 1..=1000 {
        expected += 1.0 / k as f64;
    }
    assert_eq!(sum.to_bits(), expected.to_bits());
    // the empty sum is the zero it started from
    let (halt, rax, _) = compile_and_run(&harmonic(1));
    assert_eq!(halt, Halt::Returned);
    assert_eq!(Value(rax).as_float(), Some(0f64.to_bits()));
}

#[test]
fn a_float_sum_stays_in_its_register_round_the_loop() {
    let (halt, rax, steps, _, boxings) = compile_and_run_counting(&harmonic(1001));
    assert_eq!(halt, Halt::Returned);
    assert!((f64::from_bits(Value(rax).as_float().unwrap()) - 7.48547086055034).abs() < 1e-12);
    // the sum is written back once, when the loop is left
    assert_eq!(boxings, 1);
    // ten times the iterations take ten times the steps, and no more
    // boxings
    let (_, _, more, _, boxings) = compile_and_run_counting(&harmonic(10_001));
    assert_eq!(boxings, 1);
    let per_iteration = (more - steps) / 9000;
    assert!(per_iteration < 40, "{} steps for an iteration", per_iteration);
}

/// As `harmonic`, but the value is the last quotient, or `start` where the
/// loop is not entered.
fn last_quotient(limit: i32, start: Value) -> ISeqInfo {
    let s = 1;
    let k = 2;
    let lim = 3;
    let c = 4;
    let one = 5;
    let t = 6;
    let float_int = Bc2::class2(ClassId(monoruby::ids::FLOAT_CLASS), ClassId(INTEGER_CLASS));
    function(
        vec![
            Bc::from_with_value(narrow(7, s, 0), Value::from_float(0f64.to_bits()).unwrap()),
            Bc::from_with_value(narrow(7, one, 0), Value::from_float(1f64.to_bits()).unwrap()),
            Bc::from_with_value(narrow(7, t, 0), start),
            Bc::from(narrow(6, k, 1)),
            Bc::from(narrow(6, lim, limit as u32)),
            Bc::from(narrow(14, 0, 0)),
            // 6:
            Bc::from_with_class2(wide(156 + 2, c, k, lim)),
            Bc::from(narrow(13, c, 4)),
            Bc { op1: wide(173, t, one, k), op2: float_int },
            Bc { op1: wide(170, s, s, t), op2: float_classes() },
            Bc::from_with_class2(wide(190, k, k, 1)),
            Bc::from(narrow(3, 0, (-6i32) as u32)),
            // 12:
            Bc::from(narrow(15, 0, 0)),
            Bc::from(wide(148, t, 0, 0)),
        ],
        7,
    )
}

#[test]
fn a_value_that_is_read_after_the_loop_is_written_back() {
    let start = Value::from_float(5f64.to_bits()).unwrap();
    let (halt, rax, _) = compile_and_run(&last_quotient(5, start));
    assert_eq!(halt, Halt::Returned);
    assert_eq!(Value(rax).as_float(), Some(0.25f64.to_bits()));
    // the loop is not entered: the value from before the loop is returned
    let (halt, rax, _) = compile_and_run(&last_quotient(1, start));
    assert_eq!(halt, Halt::Returned);
    assert_eq!(Value(rax), start);
    let (halt, rax, _) = compile_and_run(&last_quotient(1, Value::fixnum(7)));
    assert_eq!(halt, Halt::Returned);
    assert_eq!(Value(rax), Value::fixnum(7));
}

#[test]
fn a_sum_that_starts_as_an_integer_leaves_at_the_head_of_the_loop() {
    // the feedback says that `s` is a float in the loop, the value that
    // comes into the loop is the integer 0: the code must not make it 0.0
    let mut func = harmonic(11);
    func.bytecode[0] = Bc::from(narrow(6, 1, 0));
    let (halt, _, _) = compile_and_run(&func);
    assert_eq!(halt, Halt::Deopt(BASE + 16 * 5));
}

const NAME_M: u32 = 7;
const NAME_F: u32 = 8;
const CLASS_A: u32 = 20;
const CLASS_B: u32 = 21;

fn function_at(id: u32, bytecode: Vec<Bc>, reg_num: usize) -> ISeqInfo {
    ISeqInfo::new(FuncId(id), None, bytecode, BcPc(BASE + 0x1_0000 * id as u64), reg_num, 1, reg_num - 1).unwrap()
}

/// A function that returns the given integer.
fn constant_function(id: u32, value: i32) -> ISeqInfo {
    function_at(id, vec![Bc::from(narrow(6, 1, value as u32)), Bc::from(wide(148, 1, 0, 0))], 2)
}

/// Compiles the functions; the first is the one that is run.
fn compile_all(funcs: &[ISeqInfo]) -> (Codegen, Vec<DestLabel>) {
    let mut gen = Codegen::new();
    let store = FnStore::new();
    let entries =
        funcs.iter().map(|f| gen.jit_compile_ruby(&store, f, ClassId(OBJECT_CLASS), None).unwrap().0).collect();
    (gen, entries)
}

/// A machine in which every function has its data: the address of its
/// code, its meta word, and the address of its first record.
fn machine_with<'a>(gen: &'a Codegen, funcs: &[ISeqInfo], entries: &[DestLabel], world: World) -> Machine<'a> {
    let mut m = Machine::new(gen);
    m.world = world;
    for (addr, v) in std::mem::take(&mut m.world.fresh) {
        m.mem.insert(addr, v);
    }
    m.mem.insert(INTERP, 0);
    for (f, entry) in funcs.iter().zip(entries) {
        let (page, idx) = m.label_pos[&entry.0];
        let data = FUNCDATA_BASE + 32 * f.id.0 as u64;
        m.mem.insert(data, code_addr(page, idx));
        m.mem.insert(data + 8, monoruby::frame::Meta::vm(f.id, f.reg_num as u16).get());
        m.mem.insert(data + 16, f.base.0);
    }
    // the frame of the function that is run, as its caller stages it
    let sp = m.reg(Reg::Rsp);
    m.mem.insert(sp - 16 - 8, 0);
    m.mem.insert(sp - 16 - 16, 0);
    m.mem.insert(sp - 16 - 24, monoruby::frame::Meta::vm(funcs[0].id, funcs[0].reg_num as u16).get());
    m.mem.insert(sp - 16 - 32, 0);
    m.mem.insert(sp - 16 - 40, NIL_VALUE);
    m
}

/// Calls `obj.m` a hundred times and adds up what comes back; before the
/// call with the number `at` the method `m` is defined anew.
fn redefinition(obj: Value, at: i16, new_func: u32) -> ISeqInfo {
    let obj_slot = 1;
    let i = 2;
    let s = 3;
    let v = 4;
    let c = 5;
    function_at(
        1,
        vec![
            Bc::from_with_value(narrow(7, obj_slot, 0), obj),
            Bc::from(narrow(6, i, 0)),
            Bc::from(narrow(6, s, 0)),
            Bc::from(narrow(14, 0, 0)),
            // 4: c = i == at
            Bc::from_with_class2(wide(142, c, i, at as u16)),
            // 5: to 7 unless c
            Bc::from(narrow(5, c, 1)),
            // 6: def m
            Bc { op1: narrow(2, 0, 0), op2: Bc2::from(((new_func as u64) << 32) | NAME_M as u64) },
            // 7: v = obj.m
            Bc::from(narrow(1, v, NAME_M)),
            Bc::from(wide(130, obj_slot, 0, 0)),
            Bc::from(0),
            // 10: s = s + v
            Bc::from_with_class2(wide(170, s, s, v)),
            // 11: i = i + 1
            Bc::from_with_class2(wide(190, i, i, 1)),
            // 12: c = i < 100, fused with the branch that follows
            Bc::from_with_class2(wide(162 + 2, c, i, 100)),
            // 13: back to 4 if c
            Bc::from(narrow(12, c, (-10i32) as u32)),
            Bc::from(narrow(15, 0, 0)),
            Bc::from(wide(148, s, 0, 0)),
        ],
        6,
    )
}

#[test]
fn method_redefinition_invalidates_the_cache() {
    let mut world = World::default();
    let obj = world.new_object(CLASS_A);
    world.methods.insert((CLASS_A, NAME_M), 2);
    world.def_class = CLASS_A;
    let funcs = vec![redefinition(obj, 50, 3), constant_function(2, 1), constant_function(3, 2)];
    let (gen, entries) = compile_all(&funcs);
    let mut m = machine_with(&gen, &funcs, &entries, world);
    assert_eq!(m.call(entries[0]), Halt::Returned);
    // fifty calls give 1, fifty give 2
    assert_eq!(Value(m.reg(Reg::Rax)).as_integer(), Some(150));
    assert_eq!(m.world.defined, vec![(NAME_M, 3)]);
    // the method is looked up at the first call and at the first call
    // after the definition, and at no other
    assert_eq!(m.world.lookups, 2);
}

#[test]
fn a_cached_method_is_called_without_a_lookup() {
    let mut world = World::default();
    let obj = world.new_object(CLASS_A);
    world.methods.insert((CLASS_A, NAME_M), 2);
    // the definition is never reached
    let funcs = vec![redefinition(obj, 1000, 3), constant_function(2, 5)];
    let (gen, entries) = compile_all(&funcs);
    let mut m = machine_with(&gen, &funcs, &entries, world);
    assert_eq!(m.call(entries[0]), Halt::Returned);
    assert_eq!(Value(m.reg(Reg::Rax)).as_integer(), Some(500));
    assert_eq!(m.world.lookups, 1);
    assert!(m.world.defined.is_empty());
}

#[test]
fn a_method_that_is_not_found_raises() {
    let mut world = World::default();
    let obj = world.new_object(CLASS_A);
    let funcs = vec![redefinition(obj, 1000, 3)];
    let (gen, entries) = compile_all(&funcs);
    let mut m = machine_with(&gen, &funcs, &entries, world);
    let halt = m.call(entries[0]);
    // the code returns no value to its caller, and reports the call
    assert_eq!(halt, Halt::Returned);
    assert_eq!(m.reg(Reg::Rax), 0);
    assert_eq!(m.world.lookups, 1);
    // the place that is reported lies in the three records of the call
    assert_eq!(m.world.error_at.len(), 1);
    let record = (m.world.error_at[0] - funcs[0].base.0) / 16;
    assert!((7..10).contains(&record), "record {}", record);
}

/// `s = 0; i = 0; while i < n; s += arr[i].f; i += 1; end; s`
fn dispatch_loop(arr: Value, n: i16) -> ISeqInfo {
    let a = 1;
    let i = 2;
    let s = 3;
    let v = 4;
    let c = 5;
    let x = 6;
    function_at(
        1,
        vec![
            Bc::from_with_value(narrow(7, a, 0), arr),
            Bc::from(narrow(6, i, 0)),
            Bc::from(narrow(6, s, 0)),
            Bc::from(narrow(14, 0, 0)),
            // 4: c = i < n, fused with the branch that follows
            Bc::from_with_class2(wide(162 + 2, c, i, n as u16)),
            // 5: leave the loop unless c
            Bc::from(narrow(13, c, 7)),
            // 6: x = a[i]
            Bc::from(wide(132, x, a, i)),
            // 7: v = x.f
            Bc::from(narrow(1, v, NAME_F)),
            Bc::from(wide(130, x, 0, 0)),
            Bc::from(0),
            // 10: s = s + v
            Bc::from_with_class2(wide(170, s, s, v)),
            // 11: i = i + 1
            Bc::from_with_class2(wide(190, i, i, 1)),
            // 12: back to 4
            Bc::from(narrow(3, 0, (-9i32) as u32)),
            Bc::from(narrow(15, 0, 0)),
            Bc::from(wide(148, s, 0, 0)),
        ],
        7,
    )
}

#[test]
fn polymorphic_dispatch() {
    let mut world = World::default();
    let classes = [CLASS_A, CLASS_A, CLASS_A, CLASS_B, CLASS_B, CLASS_A];
    let items: Vec<Value> = classes.iter().map(|c| world.new_object(*c)).collect();
    let arr = world.new_array(items);
    world.methods.insert((CLASS_A, NAME_F), 2);
    world.methods.insert((CLASS_B, NAME_F), 3);
    let funcs = vec![dispatch_loop(arr, 6), constant_function(2, 1), constant_function(3, 2)];
    let (gen, entries) = compile_all(&funcs);
    let mut m = machine_with(&gen, &funcs, &entries, world);
    assert_eq!(m.call(entries[0]), Halt::Returned);
    assert_eq!(Value(m.reg(Reg::Rax)).as_integer(), Some(4 * 1 + 2 * 2));
    // the site resolves anew whenever the class of the receiver changes
    assert_eq!(m.world.lookups, 3);
}

#[test]
fn polymorphic_dispatch_of_three_and_three() {
    let mut world = World::default();
    let classes = [CLASS_A, CLASS_A, CLASS_A, CLASS_B, CLASS_B, CLASS_B];
    let items: Vec<Value> = classes.iter().map(|c| world.new_object(*c)).collect();
    let arr = world.new_array(items);
    world.methods.insert((CLASS_A, NAME_F), 2);
    world.methods.insert((CLASS_B, NAME_F), 3);
    let funcs = vec![dispatch_loop(arr, 6), constant_function(2, 1), constant_function(3, 2)];
    let (gen, entries) = compile_all(&funcs);
    let mut m = machine_with(&gen, &funcs, &entries, world);
    assert_eq!(m.call(entries[0]), Halt::Returned);
    assert_eq!(Value(m.reg(Reg::Rax)).as_integer(), Some(9));
    assert_eq!(m.world.lookups, 2);
}

const NAME_X: u32 = 9;
const NAME_X_EQ: u32 = 10;
const IVAR_X: u32 = 11;
const NAME_A: u32 = 12;
const CLASS_P: u32 = 30;
const CLASS_C: u32 = 31;
const CLASS_C1: u32 = 32;

/// The three records of a call whose site has resolved before: the class
/// and class version of the receiver, the address of the code, and the
/// meta word and first record of the function.
fn cached_call(ret: u16, name: u32, recv: u16, args: u16, len: u16, class: u32, func: FuncId) -> [Bc; 3] {
    [
        Bc { op1: narrow(1, ret, name), op2: Bc2::class_and_version(ClassId(class), 0) },
        Bc { op1: wide(130, recv, args, len), op2: Bc2::from(0x1234_5678) },
        Bc { op1: monoruby::frame::Meta::vm(func, 1).get(), op2: Bc2::from(0) },
    ]
}

#[test]
fn attribute_accessor_specialization() {
    // class P; attr_accessor :x; end; p = P.new; p.x = 42; return p.x
    let mut store = FnStore::new();
    let reader = store.add_attr_reader(monoruby::ids::IdentId(NAME_X), monoruby::ids::IdentId(IVAR_X)).unwrap();
    let writer = store.add_attr_writer(monoruby::ids::IdentId(NAME_X_EQ), monoruby::ids::IdentId(IVAR_X)).unwrap();
    let mut world = World::default();
    let obj = world.new_object(CLASS_P);
    let (p, v, r, t) = (1, 2, 3, 4);
    let mut bytecode = vec![Bc::from_with_value(narrow(7, p, 0), obj), Bc::from(narrow(6, v, 42))];
    bytecode.extend(cached_call(t, NAME_X_EQ, p, v, 1, CLASS_P, writer));
    bytecode.extend(cached_call(r, NAME_X, p, 0, 0, CLASS_P, reader));
    bytecode.push(Bc::from(wide(148, r, 0, 0)));
    let funcs = vec![function_at(1, bytecode, 5)];
    let mut gen = Codegen::new();
    let entry = gen.jit_compile_ruby(&store, &funcs[0], ClassId(OBJECT_CLASS), None).unwrap().0;
    // neither call looks a method up or stages a frame
    let code = gen.jit.page_code(0);
    assert!(!code.iter().any(|i| *i == Inst::Call(Target::Label(gen.entry_find_method))));
    let mut m = machine_with(&gen, &funcs, &[entry], world);
    assert_eq!(m.call(entry), Halt::Returned);
    assert_eq!(Value(m.reg(Reg::Rax)).as_integer(), Some(42));
    assert_eq!(m.mem[&(obj.get() + 16)], Value::fixnum(42).get());
    // the first time each site finds the place of the variable by its name
    assert_eq!(m.world.ivar_lookups, 2);
    assert_eq!(m.world.lookups, 0);
    assert!(m.world.frames.is_empty());
    // from then on the variable is read and written in the object itself
    m.mem.insert(obj.get() + 16, NIL_VALUE);
    assert_eq!(m.call(entry), Halt::Returned);
    assert_eq!(Value(m.reg(Reg::Rax)).as_integer(), Some(42));
    assert_eq!(m.world.ivar_lookups, 2);
}

#[test]
fn a_receiver_of_another_class_leaves_the_specialized_call() {
    let mut store = FnStore::new();
    let reader = store.add_attr_reader(monoruby::ids::IdentId(NAME_X), monoruby::ids::IdentId(IVAR_X)).unwrap();
    let mut world = World::default();
    let obj = world.new_object(CLASS_A);
    let mut bytecode = vec![Bc::from_with_value(narrow(7, 1, 0), obj)];
    bytecode.extend(cached_call(2, NAME_X, 1, 0, 0, CLASS_P, reader));
    bytecode.push(Bc::from(wide(148, 2, 0, 0)));
    let funcs = vec![function_at(1, bytecode, 3)];
    let mut gen = Codegen::new();
    let entry = gen.jit_compile_ruby(&store, &funcs[0], ClassId(OBJECT_CLASS), None).unwrap().0;
    let mut m = machine_with(&gen, &funcs, &[entry], world);
    // the interpreter takes over at the call
    assert_eq!(m.call(entry), Halt::Deopt(funcs[0].base.0 + 16));
}

/// Calls a function as generated code calls it: the frame is staged below
/// the stack pointer and linked to the frame on top.
fn invoke(m: &mut Machine, entry: DestLabel, func: &ISeqInfo, args: &[Value], block: u64) -> (Halt, u64) {
    let sp = m.reg(Reg::Rsp);
    let cfp = sp - 16 - 8;
    let prev = m.mem[&INTERP];
    m.mem.insert(cfp, prev);
    m.mem.insert(INTERP, cfp);
    m.mem.insert(sp - 16 - 16, 0);
    m.mem.insert(sp - 16 - 24, monoruby::frame::Meta::vm(func.id, func.reg_num as u16).get());
    m.mem.insert(sp - 16 - 32, block);
    m.mem.insert(sp - 16 - 40, NIL_VALUE);
    for (i, a) in args.iter().enumerate() {
        m.mem.insert(sp - 16 - 48 - 8 * i as u64, a.get());
    }
    let halt = m.call(entry);
    m.mem.insert(INTERP, prev);
    (halt, m.reg(Reg::Rax))
}

fn function_with_params(id: u32, params: usize, bytecode: Vec<Bc>, reg_num: usize) -> ISeqInfo {
    let base = BcPc(BASE + 0x1_0000 * id as u64);
    ISeqInfo::new(FuncId(id), None, bytecode, base, reg_num, 1 + params, reg_num - 1).unwrap()
}

/// `def each3; s = 0; s += yield 1; s += yield 2; s += yield 3; s; end`
fn each3() -> ISeqInfo {
    let (s, v, r) = (1, 2, 3);
    let mut bytecode = vec![Bc::from(narrow(6, s, 0))];
    for k in 1..=3 {
        bytecode.push(Bc::from(narrow(6, v, k)));
        bytecode.push(Bc::from(wide(152, r, v, 1)));
        bytecode.push(Bc::from_with_class2(wide(170, s, s, r)));
    }
    bytecode.push(Bc::from(wide(148, s, 0, 0)));
    function_at(1, bytecode, 4)
}

#[test]
fn block_yield() {
    // the block gives back what it is given
    let block = function_with_params(2, 1, vec![Bc::from(wide(148, 1, 0, 0))], 2);
    let funcs = vec![each3(), block];
    let (gen, entries) = compile_all(&funcs);
    let mut m = machine_with(&gen, &funcs, &entries, World::default());
    // the frame that made the block
    let main_cfp = STACK_TOP + 0x800;
    m.mem.insert(main_cfp, 0);
    m.mem.insert(INTERP, main_cfp);
    let (halt, rax) = invoke(&mut m, entries[0], &funcs[0], &[], Value::fixnum(2).get());
    assert_eq!(halt, Halt::Returned);
    assert_eq!(Value(rax).as_integer(), Some(6));
    // the block was called three times, each time with the frame that made
    // it as its outer frame, and with its own meta word
    let (page, idx) = m.label_pos[&entries[1].0];
    let meta = monoruby::frame::Meta::vm(FuncId(2), 2).get();
    assert_eq!(m.world.frames, vec![(code_addr(page, idx), main_cfp - 8, meta, 0); 3]);
    // the frames are unlinked again
    assert_eq!(m.mem[&INTERP], main_cfp);
}

#[test]
fn yield_test() {
    // def f(x,y) yield x,y end
    let f = function_with_params(1, 2, vec![Bc::from(wide(152, 3, 1, 2)), Bc::from(wide(148, 3, 0, 0))], 4);
    // {|x,y| x+y}
    let block = function_with_params(
        2,
        2,
        vec![Bc::from_with_class2(wide(170, 3, 1, 2)), Bc::from(wide(148, 3, 0, 0))],
        4,
    );
    let funcs = vec![f, block];
    let (gen, entries) = compile_all(&funcs);
    let mut m = machine_with(&gen, &funcs, &entries, World::default());
    let mut res = vec![];
    for i in 0..=10 {
        for y in [5, 8] {
            let args = [Value::fixnum(i), Value::fixnum(y)];
            let (halt, rax) = invoke(&mut m, entries[0], &funcs[0], &args, Value::fixnum(2).get());
            assert_eq!(halt, Halt::Returned);
            res.push(Value(rax).as_integer().unwrap());
        }
    }
    assert_eq!(res, vec![5, 8, 6, 9, 7, 10, 8, 11, 9, 12, 10, 13, 11, 14, 12, 15, 13, 16, 14, 17, 15, 18]);
}

#[test]
fn iterator() {
    // class Array; def iich; for i in 0...self.size; yield(self[i]); end; end; end
    // a = []; [2,5,7,10,2.2,7,9].iich do |x| a << x*2 end; a
    //
    // The size of the array and the array that takes what the block gives
    // back are handed to the method.
    let (out, n, i, c, x, r) = (1, 2, 3, 4, 5, 6);
    let iich = function_with_params(
        1,
        2,
        vec![
            Bc::from(narrow(6, i, 0)),
            Bc::from(narrow(14, 0, 0)),
            // 2: c = i < n, fused with the branch that follows
            Bc::from_with_class2(wide(156 + 2, c, i, n)),
            Bc::from(narrow(13, c, 5)),
            // 4: x = self[i]
            Bc::from(wide(132, x, 0, i)),
            Bc::from(wide(152, r, x, 1)),
            // 6: out[i] = r
            Bc::from(wide(133, r, out, i)),
            Bc::from_with_class2(wide(190, i, i, 1)),
            Bc::from(narrow(3, 0, (-7i32) as u32)),
            // 9:
            Bc::from(narrow(15, 0, 0)),
            Bc::from(wide(148, out, 0, 0)),
        ],
        7,
    );
    // {|x| x*2}
    let block =
        function_with_params(2, 1, vec![Bc::from(wide(192, 2, 1, 2)), Bc::from(wide(148, 2, 0, 0))], 3);
    let funcs = vec![iich, block];
    let (gen, entries) = compile_all(&funcs);
    let mut world = World::default();
    let items = vec![
        Value::fixnum(2),
        Value::fixnum(5),
        Value::fixnum(7),
        Value::fixnum(10),
        Value::from_float(2.2f64.to_bits()).unwrap(),
        Value::fixnum(7),
        Value::fixnum(9),
    ];
    let array = world.new_array(items);
    let out = world.new_array(vec![]);
    let mut m = machine_with(&gen, &funcs, &entries, world);
    // `self` is the array
    let sp = m.reg(Reg::Rsp);
    let cfp = sp - 16 - 8;
    m.mem.insert(cfp, 0);
    m.mem.insert(INTERP, cfp);
    m.mem.insert(sp - 16 - 32, Value::fixnum(2).get());
    m.mem.insert(sp - 16 - 40, array.get());
    m.mem.insert(sp - 16 - 48, out.get());
    m.mem.insert(sp - 16 - 56, Value::fixnum(7).get());
    assert_eq!(m.call(entries[0]), Halt::Returned);
    assert_eq!(m.reg(Reg::Rax), out.get());
    let doubled: Vec<f64> = m.world.arrays[&out.get()].iter().map(|v| m.number(Value(*v))).collect();
    assert_eq!(doubled, vec![4.0, 10.0, 14.0, 20.0, 4.4, 14.0, 18.0]);
    let kept_integers = m.world.arrays[&out.get()].iter().filter(|v| Value(**v).as_integer().is_some()).count();
    assert_eq!(kept_integers, 6);
}

#[test]
fn polymorphic() {
    // class C; def initialize; @a=10; end; def f; @a; end; end
    // class C1 < C; def initialize; @a=20; end; end
    // res = []
    // a = [C1.new, C1.new, C1.new, C1.new, C.new, C.new]
    // for i in 0..a.length - 1; res << a[i].f; end
    // a = [C.new, C.new, C.new, C.new, C1.new, C1.new]
    // for i in 0..a.length - 1; res << a[i].f; end
    // res
    let mut world = World::default();
    world.parents.insert(CLASS_C1, CLASS_C);
    world.methods.insert((CLASS_C, NAME_F), 2);
    let mut object = |class: u32| {
        let value = if class == CLASS_C1 {
            20
        } else {
            10
        };
        world.new_object_with(class, NAME_A, Value::fixnum(value))
    };
    let first: Vec<Value> = [CLASS_C1, CLASS_C1, CLASS_C1, CLASS_C1, CLASS_C, CLASS_C].map(&mut object).to_vec();
    let second: Vec<Value> = [CLASS_C, CLASS_C, CLASS_C, CLASS_C, CLASS_C1, CLASS_C1].map(&mut object).to_vec();
    let first = world.new_array(first);
    let second = world.new_array(second);
    let res = world.new_array(vec![]);
    let (a, out, i, j, c, x, v) = (1, 2, 3, 4, 5, 6, 7);
    let mut bytecode = vec![Bc::from_with_value(narrow(7, out, 0), res), Bc::from(narrow(6, j, 0))];
    for array in [first, second] {
        bytecode.extend([
            Bc::from_with_value(narrow(7, a, 0), array),
            Bc::from(narrow(6, i, 0)),
            Bc::from(narrow(14, 0, 0)),
            // 3: c = i < 6, fused with the branch that follows
            Bc::from_with_class2(wide(162 + 2, c, i, 6)),
            Bc::from(narrow(13, c, 8)),
            // 5: x = a[i]
            Bc::from(wide(132, x, a, i)),
            // 6: v = x.f
            Bc::from(narrow(1, v, NAME_F)),
            Bc::from(wide(130, x, 0, 0)),
            Bc::from(0),
            // 9: res[j] = v
            Bc::from(wide(133, v, out, j)),
            Bc::from_with_class2(wide(190, i, i, 1)),
            Bc::from_with_class2(wide(190, j, j, 1)),
            Bc::from(narrow(3, 0, (-10i32) as u32)),
            // 13:
            Bc::from(narrow(15, 0, 0)),
        ]);
    }
    bytecode.push(Bc::from(wide(148, out, 0, 0)));
    // def f; @a; end
    let f = function_at(2, vec![Bc::from(narrow(16, 1, NAME_A)), Bc::from(wide(148, 1, 0, 0))], 2);
    let funcs = vec![function_at(1, bytecode, 8), f];
    let (gen, entries) = compile_all(&funcs);
    let mut m = machine_with(&gen, &funcs, &entries, world);
    assert_eq!(m.call(entries[0]), Halt::Returned);
    assert_eq!(m.reg(Reg::Rax), res.get());
    let got: Vec<i64> = m.world.arrays[&res.get()].iter().map(|v| Value(*v).as_integer().unwrap()).collect();
    assert_eq!(got, vec![20, 20, 20, 20, 10, 10, 10, 10, 10, 10, 20, 20]);
    // each of the two sites resolves at its first call and when the class
    // of the receiver changes
    assert_eq!(m.world.lookups, 4);
}

/// Calls a function through one of the entries for the host, with the
/// arguments in an array, or, where `slots` is set, in slots of a frame:
/// each argument below the one before.
fn invoke_from_host(
    m: &mut Machine,
    invoker: monoruby::assembler::CodePtr,
    func: u32,
    args: &[Value],
    slots: bool,
) -> u64 {
    let array = STACK_TOP + 0x1000;
    for (i, a) in args.iter().enumerate() {
        if slots {
            m.mem.insert(array - 8 * i as u64, a.get());
        } else {
            m.mem.insert(array + 8 * i as u64, a.get());
        }
    }
    let (rbx, r12) = (m.reg(Reg::Rbx), m.reg(Reg::R12));
    m.set_reg(Reg::Rbx, 0xbbbb);
    m.set_reg(Reg::R12, 0xcccc);
    m.set_reg(Reg::Rdi, INTERP);
    m.set_reg(Reg::Rsi, GLOBALS);
    m.set_reg(Reg::Rdx, FUNCDATA_BASE + 32 * func as u64);
    m.set_reg(Reg::Rcx, Value::fixnum(77).get());
    m.set_reg(Reg::R8, array);
    m.set_reg(Reg::R9, args.len() as u64);
    let sp = m.reg(Reg::Rsp);
    assert_eq!(m.call_at(invoker.page, invoker.pos), Halt::Returned);
    // the registers of the caller are as before
    assert_eq!((m.reg(Reg::Rbx), m.reg(Reg::R12), m.reg(Reg::Rsp)), (0xbbbb, 0xcccc, sp));
    m.set_reg(Reg::Rbx, rbx);
    m.set_reg(Reg::R12, r12);
    m.reg(Reg::Rax)
}

#[test]
fn the_host_calls_a_function_with_its_arguments_in_order() {
    // def f(a, b, c) (a - b) - c end
    let f = function_with_params(
        1,
        3,
        vec![
            Bc::from_with_class2(wide(171, 4, 1, 2)),
            Bc::from_with_class2(wide(171, 4, 4, 3)),
            Bc::from(wide(148, 4, 0, 0)),
        ],
        5,
    );
    let funcs = vec![f, constant_function(2, 3)];
    let (gen, entries) = compile_all(&funcs);
    let mut m = machine_with(&gen, &funcs, &entries, World::default());
    let top = STACK_TOP + 0x800;
    m.mem.insert(top, 0);
    m.mem.insert(INTERP, top);
    let args = [Value::fixnum(100), Value::fixnum(30), Value::fixnum(4)];
    for (invoker, slots) in [(gen.method_invoker, false), (gen.method_invoker2, true)] {
        let rax = invoke_from_host(&mut m, invoker, 1, &args, slots);
        assert_eq!(Value(rax).as_integer(), Some(66));
        // the frame of the function is unlinked again
        assert_eq!(m.mem[&INTERP], top);
    }
    // without arguments
    let rax = invoke_from_host(&mut m, gen.method_invoker, 2, &[], false);
    assert_eq!(Value(rax).as_integer(), Some(3));
    // the functions found `self`, their own meta word, and no outer frame
    let (page, idx) = m.label_pos[&entries[0].0];
    let meta = monoruby::frame::Meta::vm(FuncId(1), 5).get();
    assert_eq!(m.world.frames[0], (code_addr(page, idx), 0, meta, Value::fixnum(77).get()));
    assert_eq!(m.world.frames.len(), 3);
}

#[test]
fn the_host_calls_a_block_with_the_outer_frame_of_the_frame_on_top() {
    let block = function_with_params(1, 1, vec![Bc::from(wide(148, 1, 0, 0))], 2);
    let funcs = vec![block];
    let (gen, entries) = compile_all(&funcs);
    let mut m = machine_with(&gen, &funcs, &entries, World::default());
    // the frame on top was called from the frame that made the block
    let maker = STACK_TOP + 0x900;
    let top = STACK_TOP + 0x800;
    m.mem.insert(maker, 0);
    m.mem.insert(top, maker);
    m.mem.insert(INTERP, top);
    let rax = invoke_from_host(&mut m, gen.block_invoker, 1, &[Value::fixnum(5)], false);
    assert_eq!(Value(rax).as_integer(), Some(5));
    assert_eq!(m.world.frames.len(), 1);
    assert_eq!(m.world.frames[0].1, maker - 8);
    assert_eq!(m.mem[&INTERP], top);
}

/// `s = 0.0; i = 0; while i < n; s = s + a[i]; i += 1; end; s`, with the
/// feedback that the sum and the items are floats.
fn float_sum_of(arr: Value, n: i16) -> ISeqInfo {
    let (a, i, s, c, x) = (1, 2, 3, 4, 5);
    function_at(
        1,
        vec![
            Bc::from_with_value(narrow(7, a, 0), arr),
            Bc::from(narrow(6, i, 0)),
            Bc::from_with_value(narrow(7, s, 0), Value::from_float(0f64.to_bits()).unwrap()),
            Bc::from(narrow(14, 0, 0)),
            // 4: c = i < n, fused with the branch that follows
            Bc::from_with_class2(wide(162 + 2, c, i, n as u16)),
            Bc::from(narrow(13, c, 4)),
            // 6: x = a[i]
            Bc::from(wide(132, x, a, i)),
            // 7: s = s + x
            Bc { op1: wide(170, s, s, x), op2: float_classes() },
            Bc::from_with_class2(wide(190, i, i, 1)),
            Bc::from(narrow(3, 0, (-6i32) as u32)),
            // 10:
            Bc::from(narrow(15, 0, 0)),
            Bc::from(wide(148, s, 0, 0)),
        ],
        6,
    )
}

#[test]
fn a_side_exit_leaves_the_frame_as_the_interpreter_expects_it() {
    let float = |f: f64| Value::from_float(f.to_bits()).unwrap();
    let mut world = World::default();
    let items = vec![float(1.5), float(2.5), Value::fixnum(7), float(0.5)];
    let arr = world.new_array(items);
    let funcs = vec![float_sum_of(arr, 4)];
    let (gen, entries) = compile_all(&funcs);
    let mut m = machine_with(&gen, &funcs, &entries, world);
    let frame = m.reg(Reg::Rsp) - 16;
    // the third item is no float: the addition is left to the interpreter
    assert_eq!(m.call(entries[0]), Halt::Deopt(funcs[0].base.0 + 16 * 7));
    let slot = |m: &Machine, reg: u64| Value(m.mem[&(frame - 40 - 8 * reg)]);
    // the sum so far, which the loop kept in a register, is in its slot,
    // and so are the counter and the item
    assert_eq!(slot(&m, 3), float(4.0));
    assert_eq!(slot(&m, 2), Value::fixnum(2));
    assert_eq!(slot(&m, 5), Value::fixnum(7));
    assert_eq!(slot(&m, 1), arr);
    // with floats only the loop runs to its end, and the sum is boxed once
    let mut world = World::default();
    let arr = world.new_array(vec![float(1.5), float(2.5), float(7.0), float(0.5)]);
    let funcs = vec![float_sum_of(arr, 4)];
    let (gen, entries) = compile_all(&funcs);
    let mut m = machine_with(&gen, &funcs, &entries, world);
    assert_eq!(m.call(entries[0]), Halt::Returned);
    assert_eq!(Value(m.reg(Reg::Rax)), float(11.5));
    assert_eq!(m.boxings, 1);
}

#[test]
fn accessors_that_are_called_as_functions() {
    let mut store = FnStore::new();
    let reader = store.add_attr_reader(monoruby::ids::IdentId(NAME_X), monoruby::ids::IdentId(IVAR_X)).unwrap();
    let writer = store.add_attr_writer(monoruby::ids::IdentId(NAME_X_EQ), monoruby::ids::IdentId(IVAR_X)).unwrap();
    let mut world = World::default();
    let obj = world.new_object(CLASS_P);
    world.methods.insert((CLASS_P, NAME_X), reader.0);
    world.methods.insert((CLASS_P, NAME_X_EQ), writer.0);
    // p.x = 42; p.x, at sites that have not resolved before
    let (p, v, r, t) = (1, 2, 3, 4);
    let bytecode = vec![
        Bc::from_with_value(narrow(7, p, 0), obj),
        Bc::from(narrow(6, v, 42)),
        Bc::from(narrow(1, t, NAME_X_EQ)),
        Bc::from(wide(130, p, v, 1)),
        Bc::from(0),
        Bc::from(narrow(1, r, NAME_X)),
        Bc::from(wide(130, p, 0, 0)),
        Bc::from(0),
        Bc::from(wide(148, r, 0, 0)),
    ];
    let funcs = vec![function_at(3, bytecode, 5)];
    let mut gen = Codegen::new();
    let data: Vec<_> =
        [reader, writer].iter().map(|f| (*f, gen.compile_on_demand(&mut store, false, *f).unwrap())).collect();
    let entry = gen.jit_compile_ruby(&store, &funcs[0], ClassId(OBJECT_CLASS), None).unwrap().0;
    let mut m = machine_with(&gen, &funcs, &[entry], world);
    for (f, d) in data {
        let code = d.codeptr.unwrap();
        let at = FUNCDATA_BASE + 32 * f.0 as u64;
        m.mem.insert(at, code_addr(code.page, code.pos));
        m.mem.insert(at + 8, d.meta.get());
        m.mem.insert(at + 16, d.pc.0);
    }
    assert_eq!(m.call(entry), Halt::Returned);
    assert_eq!(Value(m.reg(Reg::Rax)).as_integer(), Some(42));
    assert_eq!(m.mem[&(obj.get() + 16)], Value::fixnum(42).get());
    assert_eq!(m.world.lookups, 2);
    // both were called with the object as `self`
    let selves: Vec<u64> = m.world.frames.iter().map(|f| f.3).collect();
    assert_eq!(selves, vec![obj.get(), obj.get()]);
}

/// `def f(a, b) a <op> b end`, with the feedback that both are integers.
fn integer_binop(opcode: u64) -> ISeqInfo {
    function_with_params(
        1,
        2,
        vec![Bc::from_with_class2(wide(opcode, 3, 1, 2)), Bc::from(wide(148, 3, 0, 0))],
        4,
    )
}

const SAMPLES: [i64; 12] = [
    0,
    1,
    -1,
    2,
    5,
    -7,
    1 << 40,
    -(1 << 40),
    (1 << 61) + 12345,
    -(1 << 61) - 12345,
    (1 << 62) - 1,
    -(1 << 62),
];

/// Runs `a <op> b` for all pairs of samples and holds what comes back
/// against `expected`: a value, or `None` where the code is to leave for the
/// interpreter.
fn check_integer_binop(opcode: u64, expected: impl Fn(i64, i64) -> Option<i64>) {
    let funcs = vec![integer_binop(opcode)];
    let (gen, entries) = compile_all(&funcs);
    let mut m = machine_with(&gen, &funcs, &entries, World::default());
    for a in SAMPLES {
        for b in SAMPLES {
            let args = [Value::from_integer(a).unwrap(), Value::from_integer(b).unwrap()];
            let (halt, rax) = invoke(&mut m, entries[0], &funcs[0], &args, 0);
            match expected(a, b).and_then(Value::from_integer) {
                Some(v) => {
                    assert_eq!(halt, Halt::Returned, "{} and {}", a, b);
                    assert_eq!(Value(rax), v, "{} and {}", a, b);
                }
                None => assert_eq!(halt, Halt::Deopt(funcs[0].base.0), "{} and {}", a, b),
            }
        }
    }
    assert!(m.world.generic.is_empty());
}

#[test]
fn integer_addition_and_subtraction() {
    check_integer_binop(170, |a, b| a.checked_add(b));
    check_integer_binop(171, |a, b| a.checked_sub(b));
}

#[test]
fn integer_bit_operations() {
    check_integer_binop(174, |a, b| Some(a | b));
    check_integer_binop(175, |a, b| Some(a & b));
    check_integer_binop(176, |a, b| Some(a ^ b));
}

#[test]
fn integer_shifts() {
    let counts: [i64; 17] = [0, 1, 2, 3, 31, 32, 61, 62, 63, 64, 65, 1000, -1, -2, -63, -64, -65];
    for (opcode, left) in [(178u64, true), (177u64, false)] {
        let funcs = vec![integer_binop(opcode)];
        let (gen, entries) = compile_all(&funcs);
        let mut m = machine_with(&gen, &funcs, &entries, World::default());
        for a in SAMPLES {
            for b in counts {
                let expected = if left {
                    shift_left(a, b)
                } else {
                    shift_left(a, -b)
                };
                let calls = m.world.generic.len();
                let args = [Value::from_integer(a).unwrap(), Value::from_integer(b).unwrap()];
                let (halt, rax) = invoke(&mut m, entries[0], &funcs[0], &args, 0);
                assert_eq!(halt, Halt::Returned, "{} by {}", a, b);
                match expected.and_then(Value::from_integer) {
                    Some(v) => assert_eq!(Value(rax), v, "{} by {}", a, b),
                    // the result is no fixnum: the runtime was asked
                    None => assert_eq!(m.world.generic.len(), calls + 1, "{} by {}", a, b),
                }
            }
        }
        // where the result fits with room to spare the code does the shift
        // itself
        m.world.generic.clear();
        let direction = if left {
            1
        } else {
            -1
        };
        for (a, b, r) in [(5, 3, 40), (5, 0, 5), (1, 61, 1 << 61), (40, -3, 5), (-7, -1, -4), (-7, -64, -1), (7, -64, 0)] {
            let args = [Value::fixnum(a), Value::fixnum(direction * b)];
            let (halt, rax) = invoke(&mut m, entries[0], &funcs[0], &args, 0);
            assert_eq!((halt, Value(rax).as_integer()), (Halt::Returned, Some(r)), "{} by {}", a, b);
        }
        assert!(m.world.generic.is_empty());
        // at the limit the runtime is asked
        let args = [Value::fixnum(1), Value::fixnum(direction * 62)];
        invoke(&mut m, entries[0], &funcs[0], &args, 0);
        assert_eq!(m.world.generic.len(), 1);
    }
}

#[test]
fn integer_comparisons() {
    // the kinds in the order of their opcodes: == != < <= > >=
    let kinds: [fn(i64, i64) -> bool; 6] =
        [|a, b| a == b, |a, b| a != b, |a, b| a < b, |a, b| a <= b, |a, b| a > b, |a, b| a >= b];
    for (k, holds) in kinds.iter().enumerate() {
        let funcs = vec![integer_binop(134 + k as u64)];
        let (gen, entries) = compile_all(&funcs);
        let mut m = machine_with(&gen, &funcs, &entries, World::default());
        for a in SAMPLES {
            for b in SAMPLES {
                let args = [Value::from_integer(a).unwrap(), Value::from_integer(b).unwrap()];
                let (halt, rax) = invoke(&mut m, entries[0], &funcs[0], &args, 0);
                assert_eq!(halt, Halt::Returned);
                assert_eq!(Value(rax), Value::bool(holds(a, b)), "{} and {} ({})", a, b, k);
            }
        }
    }
}

#[test]
fn integer_operations_with_an_immediate() {
    let ops: [(u64, fn(i64, i64) -> Option<i64>); 5] = [
        (0, |a, b| a.checked_add(b)),
        (1, |a, b| a.checked_sub(b)),
        (4, |a, b| Some(a | b)),
        (5, |a, b| Some(a & b)),
        (6, |a, b| Some(a ^ b)),
    ];
    for (k, op) in ops {
        for imm in [0i16, 1, -1, 100, -32768, 32767] {
            // a <op> imm, and imm <op> a
            let right = function_with_params(
                1,
                1,
                vec![Bc::from_with_class2(wide(190 + k, 2, 1, imm as u16)), Bc::from(wide(148, 2, 0, 0))],
                3,
            );
            let left = function_with_params(
                2,
                1,
                vec![Bc::from_with_class2(wide(180 + k, 2, imm as u16, 1)), Bc::from(wide(148, 2, 0, 0))],
                3,
            );
            let funcs = vec![right, left];
            let (gen, entries) = compile_all(&funcs);
            let mut m = machine_with(&gen, &funcs, &entries, World::default());
            for a in SAMPLES {
                let args = [Value::from_integer(a).unwrap()];
                for (f, expected) in [(0, op(a, imm as i64)), (1, op(imm as i64, a))] {
                    let (halt, rax) = invoke(&mut m, entries[f], &funcs[f], &args, 0);
                    match expected.and_then(Value::from_integer) {
                        Some(v) => {
                            assert_eq!(halt, Halt::Returned, "{} and {} ({})", a, imm, k);
                            assert_eq!(Value(rax), v, "{} and {} ({}, {})", a, imm, k, f);
                        }
                        None => assert_eq!(halt, Halt::Deopt(funcs[f].base.0), "{} and {} ({})", a, imm, k),
                    }
                }
            }
            assert!(m.world.generic.is_empty());
        }
    }
}

#[test]
fn float_comparisons_and_branches() {
    // def f(a, b) if a <kind> b then 1 else 2 end end, on floats
    let kinds: [fn(f64, f64) -> bool; 6] =
        [|a, b| a == b, |a, b| a != b, |a, b| a < b, |a, b| a <= b, |a, b| a > b, |a, b| a >= b];
    let samples: [f64; 6] = [0.0, 1.5, -1.5, 2.25, 1.0e10, -3.0e-5];
    for (k, holds) in kinds.iter().enumerate() {
        let fused = function_with_params(
            1,
            2,
            vec![
                Bc { op1: wide(156 + k as u64, 3, 1, 2), op2: float_classes() },
                Bc::from(narrow(13, 3, 2)),
                Bc::from(narrow(6, 4, 1)),
                Bc::from(wide(148, 4, 0, 0)),
                Bc::from(narrow(6, 4, 2)),
                Bc::from(wide(148, 4, 0, 0)),
            ],
            5,
        );
        let plain = function_with_params(
            2,
            2,
            vec![Bc { op1: wide(134 + k as u64, 3, 1, 2), op2: float_classes() }, Bc::from(wide(148, 3, 0, 0))],
            4,
        );
        let funcs = vec![fused, plain];
        let (gen, entries) = compile_all(&funcs);
        let mut m = machine_with(&gen, &funcs, &entries, World::default());
        for a in samples {
            for b in samples {
                let args = [Value::from_float(a.to_bits()).unwrap(), Value::from_float(b.to_bits()).unwrap()];
                let (halt, rax) = invoke(&mut m, entries[0], &funcs[0], &args, 0);
                assert_eq!(halt, Halt::Returned);
                let expected = if holds(a, b) {
                    1
                } else {
                    2
                };
                assert_eq!(Value(rax).as_integer(), Some(expected), "{} and {} ({})", a, b, k);
                let (halt, rax) = invoke(&mut m, entries[1], &funcs[1], &args, 0);
                assert_eq!(halt, Halt::Returned);
                assert_eq!(Value(rax), Value::bool(holds(a, b)), "{} and {} ({})", a, b, k);
            }
        }
    }
}

/// `s = 0.25; i = 0; while i < n; if i < 5 then s = s + 3 else s = s - 1 end; i += 1; end; s`,
/// with the feedback that `s` is a float.
fn branching_float_loop(n: i16) -> ISeqInfo {
    let (s, i, c) = (1, 2, 3);
    let float_left = Bc2::class2(ClassId(monoruby::ids::FLOAT_CLASS), ClassId(INTEGER_CLASS));
    function_at(
        1,
        vec![
            Bc::from_with_value(narrow(7, s, 0), Value::from_float(0.25f64.to_bits()).unwrap()),
            Bc::from(narrow(6, i, 0)),
            Bc::from(narrow(14, 0, 0)),
            // 3: c = i < n, fused with the branch that follows
            Bc::from_with_class2(wide(162 + 2, c, i, n as u16)),
            Bc::from(narrow(13, c, 8)),
            // 5: c = i < 5, fused with the branch that follows
            Bc::from_with_class2(wide(162 + 2, c, i, 5)),
            Bc::from(narrow(13, c, 2)),
            // 7: s = s + 3
            Bc { op1: wide(190, s, s, 3), op2: float_left },
            Bc::from(narrow(3, 0, 1)),
            // 9: s = s - 1
            Bc { op1: wide(191, s, s, 1), op2: float_left },
            // 10: i = i + 1
            Bc::from_with_class2(wide(190, i, i, 1)),
            Bc::from(narrow(3, 0, (-9i32) as u32)),
            // 12:
            Bc::from(narrow(15, 0, 0)),
            Bc::from(wide(148, s, 0, 0)),
        ],
        4,
    )
}

#[test]
fn a_float_that_both_branches_of_a_loop_write() {
    for (n, expected) in [(0, 0.25), (1, 3.25), (5, 15.25), (6, 14.25), (100, 15.25 - 95.0)] {
        let (halt, rax, _, _, boxings) = compile_and_run_counting(&branching_float_loop(n));
        assert_eq!(halt, Halt::Returned, "{} rounds", n);
        assert_eq!(Value(rax).as_float(), Some(f64::to_bits(expected)), "{} rounds", n);
        // the sum is boxed when the loop is left, and at no other time
        assert!(boxings <= 1, "{} boxings in {} rounds", boxings, n);
    }
}

/// Two loops, one in the other: `s` is a float that the inner loop adds to.
fn nested_float_loops(n: i16, m: i16) -> ISeqInfo {
    let (s, i, j, c, t) = (1, 2, 3, 4, 5);
    let float_left = Bc2::class2(ClassId(monoruby::ids::FLOAT_CLASS), ClassId(INTEGER_CLASS));
    function_at(
        1,
        vec![
            Bc::from_with_value(narrow(7, s, 0), Value::from_float(0.5f64.to_bits()).unwrap()),
            Bc::from_with_value(narrow(7, t, 0), Value::from_float(0.125f64.to_bits()).unwrap()),
            Bc::from(narrow(6, i, 0)),
            Bc::from(narrow(14, 0, 0)),
            // 4: c = i < n
            Bc::from_with_class2(wide(162 + 2, c, i, n as u16)),
            Bc::from(narrow(13, c, 11)),
            Bc::from(narrow(6, j, 0)),
            Bc::from(narrow(14, 0, 0)),
            // 8: c = j < m
            Bc::from_with_class2(wide(162 + 2, c, j, m as u16)),
            Bc::from(narrow(13, c, 3)),
            // 10: s = s + t
            Bc { op1: wide(170, s, s, t), op2: float_classes() },
            Bc::from_with_class2(wide(190, j, j, 1)),
            Bc::from(narrow(3, 0, (-5i32) as u32)),
            // 13:
            Bc::from(narrow(15, 0, 0)),
            // 14: t = t * 2
            Bc { op1: wide(192, t, t, 2), op2: float_left },
            Bc::from_with_class2(wide(190, i, i, 1)),
            Bc::from(narrow(3, 0, (-13i32) as u32)),
            // 17:
            Bc::from(narrow(15, 0, 0)),
            Bc::from(wide(148, s, 0, 0)),
        ],
        6,
    )
}

#[test]
fn floats_in_nested_loops() {
    for (n, m) in [(0, 0), (1, 1), (3, 4), (10, 7), (4, 0)] {
        let mut s = 0.5f64;
        let mut t = 0.125f64;
        for _ in 0..n {
            for _ in 0..m {
                s += t;
            }
            t *= 2.0;
        }
        let (halt, rax, _) = compile_and_run(&nested_float_loops(n, m));
        assert_eq!(halt, Halt::Returned, "{} by {}", n, m);
        assert_eq!(Value(rax).as_float(), Some(s.to_bits()), "{} by {}", n, m);
    }
}

#[test]
fn a_loop_is_entered_from_the_interpreter() {
    // the loop of `harmonic` alone, entered at its start with the slots as
    // the interpreter left them after two rounds
    let func = harmonic(1001);
    let mut gen = Codegen::new();
    let store = FnStore::new();
    let entry = gen.jit_compile_ruby(&store, &func, ClassId(OBJECT_CLASS), Some(4)).unwrap().0;
    let mut m = Machine::new(&gen);
    // the frame stands already: the code sets none up
    let frame = m.reg(Reg::Rbp);
    let float = |f: f64| Value::from_float(f.to_bits()).unwrap();
    let slots = [Value(NIL_VALUE), float(1.5), Value::fixnum(3), Value::fixnum(1001), Value(FALSE_VALUE), float(1.0)];
    for (i, v) in slots.iter().enumerate() {
        m.mem.insert(frame - 40 - 8 * i as u64, v.get());
    }
    m.mem.insert(frame - 40 - 8 * 6, NIL_VALUE);
    // at the end of the loop the interpreter goes on
    assert_eq!(m.call(entry), Halt::Deopt(BASE + 16 * 12));
    let mut sum = 1.5f64;
    for k in 3..=1000 {
        sum += 1.0 / k as f64;
    }
    assert_eq!(m.mem[&(frame - 40 - 8)], float(sum).get());
    assert_eq!(m.mem[&(frame - 40 - 16)], Value::fixnum(1001).get());
    assert_eq!(m.boxings, 1);
}

#[test]
fn the_stub_of_a_function_has_it_compiled_at_the_first_call() {
    let funcs = vec![constant_function(1, 9)];
    let mut gen = Codegen::new();
    let store = FnStore::new();
    let stub = gen.gen_jit_stub();
    let entry = gen.jit_compile_ruby(&store, &funcs[0], ClassId(OBJECT_CLASS), None).unwrap().0;
    let mut m = machine_with(&gen, &funcs, &[entry], World::default());
    let (page, idx) = m.label_pos[&entry.0];
    m.world.compiled.insert(1, code_addr(page, idx));
    let regs = m.regs;
    for call in 0..4 {
        m.regs = regs;
        m.set_reg(Reg::Rdi, 0x7777);
        let sp = m.reg(Reg::Rsp);
        // every call runs the compiled code
        assert_eq!(m.call_at(stub.page, stub.pos), Halt::Returned, "call {}", call);
        assert_eq!(Value(m.reg(Reg::Rax)).as_integer(), Some(9));
        // the stub leaves `rdi` and the stack as they were
        assert_eq!((m.reg(Reg::Rdi), m.reg(Reg::Rsp)), (0x7777, sp));
        // the compiler was asked once, at the first call, for this function
        // and its `self`
        assert_eq!(m.world.asked, vec![(1, NIL_VALUE)]);
    }
    // the stub is a jump to the compiled code now
    assert_eq!(m.fetch(stub.page, stub.pos), Inst::Jmp(Target::Abs(code_addr(page, idx))));
}

#[test]
fn registers_are_given_up_only_where_a_rule_finds_none() {
    // fourteen floats are summed up, each in a slot of its own: every xmm
    // register is in use when the last sum is made
    let n = 14u16;
    let mut bytecode: Vec<Bc> = vec![];
    for s in 1..=n {
        let v = Value::from_float((s as f64 + 0.5).to_bits()).unwrap();
        bytecode.push(Bc::from_with_value(narrow(7, s, 0), v));
    }
    // slot s = slot s + slot s, for every slot: each sum takes the register
    // that its slot is read into
    for s in 1..=n {
        bytecode.push(Bc { op1: wide(170, s, s, s), op2: float_classes() });
    }
    // the first sum again: its slot has a register to itself
    bytecode.push(Bc { op1: wide(170, 1, 1, 1), op2: float_classes() });
    bytecode.push(Bc::from(wide(148, 1, 0, 0)));
    let func = function(bytecode, n as usize + 1);
    let (halt, rax, _, _, boxings) = compile_and_run_counting(&func);
    assert_eq!(halt, Halt::Returned);
    assert_eq!(Value(rax).as_float(), Some(6.0f64.to_bits()));
    // nothing but the value that is returned was written back
    assert_eq!(boxings, 1);
}
