//! The function store: one descriptor per function, addressed by a dense
//! function id, and what a call site remembers of the function it resolved.

use vstd::prelude::*;
use crate::assembler::CodePtr;
use crate::frame::Meta;
use crate::ids::{BcPc, ClassId, FuncId, IdentId, SlotId};
use crate::inst::{high_half, low_half, Bc};

verus! {

/// What generated code reads of a function: where its code is, its frame
/// header, and where its bytecode starts.
#[derive(Clone, Copy, Debug, PartialEq, Eq, Structural)]
pub struct FuncData {
    /// The place of the function's code; `None` until a stub or compiled
    /// code is installed.
    pub codeptr: Option<CodePtr>,
    /// The header word of the function's frames.
    pub meta: Meta,
    /// The address of the function's first bytecode record.
    pub pc: BcPc,
}

/// Methods that the JIT compiles to a few instructions in place of a call.
#[derive(Clone, Copy, Debug, PartialEq, Eq, Structural)]
pub enum InlineMethod {
    IntegerTof,
    MathSqrt,
    MathCos,
    MathSin,
}

/// What a function is made of.
#[derive(Clone, Copy, Debug, PartialEq, Eq, Structural)]
pub enum FuncKind {
    /// A function of bytecode.
    ISeq,
    /// A native function at an absolute address.
    Builtin { abs_address: u64 },
    /// Reads the instance variable of the given name.
    AttrReader { ivar_name: IdentId },
    /// Writes the instance variable of the given name.
    AttrWriter { ivar_name: IdentId },
}

/// One function of the store.
#[derive(Clone, Copy, Debug, PartialEq, Eq, Structural)]
pub struct FuncInfo {
    /// The function's name, if it has one.
    pub name: Option<IdentId>,
    /// The number of arguments; -1 for any number.
    pub arity: i32,
    pub data: FuncData,
    pub kind: FuncKind,
    /// Set where the JIT has an inline form of the function.
    pub inline: Option<InlineMethod>,
}

impl FuncInfo {
    pub fn arity(&self) -> (a: i32)
        ensures
            a == self.arity,
    {
        self.arity
    }
}

/// The functions, by function id.  Id 0 names no function.
#[derive(Debug)]
pub struct FnStore {
    pub functions: Vec<FuncInfo>,
}

impl FnStore {
    /// A store that holds only the unused entry 0.
    pub fn new() -> (s: FnStore)
        ensures
            s.functions@.len() == 1,
    {
        let mut functions = Vec::new();
        functions.push(
            FuncInfo {
                name: None,
                arity: 0,
                data: FuncData { codeptr: None, meta: Meta::vm(FuncId(0), 0), pc: BcPc(0) },
                kind: FuncKind::ISeq,
                inline: None,
            },
        );
        FnStore { functions }
    }

    /// The function with the given id, if there is one.
    pub fn get(&self, func_id: FuncId) -> (r: Option<&FuncInfo>)
        ensures
            r is Some <==> func_id.0 < self.functions@.len(),
            r matches Some(f) ==> *f == self.functions@[func_id.0 as int],
    {
        if (func_id.0 as usize) < self.functions.len() {
            Some(&self.functions[func_id.0 as usize])
        } else {
            None
        }
    }

    /// Adds a function and returns its id; `None` where the ids are used up.
    /// The frame header is set for the interpreter, with the new id.
    fn add(&mut self, name: Option<IdentId>, arity: i32, kind: FuncKind, reg_num: u16) -> (r: Option<FuncId>)
        ensures
            r is Some <==> old(self).functions@.len() <= u32::MAX,
            r matches Some(id) ==> id.0 == old(self).functions@.len() && final(self).functions@
                == old(self).functions@.push(
                FuncInfo {
                    name,
                    arity,
                    data: FuncData {
                        codeptr: None,
                        meta: Meta(Meta::pack(crate::frame::CallKind::Vm, reg_num, id)),
                        pc: BcPc(0),
                    },
                    kind,
                    inline: None,
                },
            ),
            r is None ==> final(self).functions@ == old(self).functions@,
    {
        let n = self.functions.len();
        if n > u32::MAX as usize {
            return None;
        }
        let id = FuncId(n as u32);
        self.functions.push(
            FuncInfo {
                name,
                arity,
                data: FuncData { codeptr: None, meta: Meta::vm(id, reg_num), pc: BcPc(0) },
                kind,
                inline: None,
            },
        );
        Some(id)
    }

    /// Adds a native function.
    pub fn add_builtin_func(&mut self, name: IdentId, abs_address: u64, arity: i32) -> (r: Option<FuncId>)
        ensures
            r is Some <==> old(self).functions@.len() <= u32::MAX,
            r matches Some(id) ==> {
                &&& id.0 == old(self).functions@.len()
                &&& final(self).functions@ == old(self).functions@.push(
                    FuncInfo {
                        name: Some(name),
                        arity,
                        data: FuncData {
                            codeptr: None,
                            meta: Meta(Meta::pack(crate::frame::CallKind::Vm, 0, id)),
                            pc: BcPc(0),
                        },
                        kind: FuncKind::Builtin { abs_address },
                        inline: None,
                    },
                )
            },
            r is None ==> final(self).functions@ == old(self).functions@,
    {
        let r = self.add(Some(name), arity, FuncKind::Builtin { abs_address }, 0);
        proof {
            if r is Some {
                assert(self.functions@.take((r->0).0 as int) =~= old(self).functions@);
            }
        }
        r
    }

    /// Adds a reader of the instance variable `ivar_name`: no argument.
    pub fn add_attr_reader(&mut self, name: IdentId, ivar_name: IdentId) -> (r: Option<FuncId>)
        ensures
            r is Some <==> old(self).functions@.len() <= u32::MAX,
            r matches Some(id) ==> {
                &&& id.0 == old(self).functions@.len()
                &&& final(self).functions@.len() == old(self).functions@.len() + 1
                &&& final(self).functions@.take(id.0 as int) == old(self).functions@
                &&& final(self).functions@[id.0 as int].kind == (FuncKind::AttrReader { ivar_name })
                &&& final(self).functions@[id.0 as int].arity == 0
                &&& final(self).functions@[id.0 as int].name == Some(name)
            },
            r is None ==> final(self).functions@ == old(self).functions@,
    {
        let r = self.add(Some(name), 0, FuncKind::AttrReader { ivar_name }, 1);
        proof {
            if r is Some {
                assert(self.functions@.take((r->0).0 as int) =~= old(self).functions@);
            }
        }
        r
    }

    /// Adds a writer of the instance variable `ivar_name`: one argument.
    pub fn add_attr_writer(&mut self, name: IdentId, ivar_name: IdentId) -> (r: Option<FuncId>)
        ensures
            r is Some <==> old(self).functions@.len() <= u32::MAX,
            r matches Some(id) ==> {
                &&& id.0 == old(self).functions@.len()
                &&& final(self).functions@.len() == old(self).functions@.len() + 1
                &&& final(self).functions@.take(id.0 as int) == old(self).functions@
                &&& final(self).functions@[id.0 as int].kind == (FuncKind::AttrWriter { ivar_name })
                &&& final(self).functions@[id.0 as int].arity == 1
                &&& final(self).functions@[id.0 as int].name == Some(name)
            },
            r is None ==> final(self).functions@ == old(self).functions@,
    {
        let r = self.add(Some(name), 1, FuncKind::AttrWriter { ivar_name }, 2);
        proof {
            if r is Some {
                assert(self.functions@.take((r->0).0 as int) =~= old(self).functions@);
            }
        }
        r
    }

    /// Adds a function of bytecode with `reg_num` slots.
    pub fn add_iseq(&mut self, name: Option<IdentId>, arity: i32, reg_num: u16, pc: BcPc) -> (r: Option<FuncId>)
        ensures
            r is Some <==> old(self).functions@.len() <= u32::MAX,
            r matches Some(id) ==> {
                &&& id.0 == old(self).functions@.len()
                &&& final(self).functions@.len() == old(self).functions@.len() + 1
                &&& final(self).functions@.take(id.0 as int) == old(self).functions@
                &&& final(self).functions@[id.0 as int].kind == FuncKind::ISeq
                &&& final(self).functions@[id.0 as int].arity == arity
                &&& final(self).functions@[id.0 as int].name == name
                &&& final(self).functions@[id.0 as int].data.pc == pc
                &&& final(self).functions@[id.0 as int].data.meta.0 == Meta::pack(
                    crate::frame::CallKind::Vm,
                    reg_num,
                    id,
                )
            },
            r is None ==> final(self).functions@ == old(self).functions@,
    {
        let r = self.add(name, arity, FuncKind::ISeq, reg_num);
        match r {
            Some(id) => {
                let mut info = self.functions[id.0 as usize];
                info.data.pc = pc;
                self.functions.set(id.0 as usize, info);
                proof {
                    assert(self.functions@.take(id.0 as int) =~= old(self).functions@);
                }
            },
            None => {},
        }
        r
    }

    /// Installs the address of a function's code: a stub at first, compiled
    /// code later.  An unknown id changes nothing.
    pub fn set_codeptr(&mut self, func_id: FuncId, codeptr: CodePtr)
        ensures
            func_id.0 < old(self).functions@.len() ==> final(self).functions@ == old(self).functions@.update(
                func_id.0 as int,
                FuncInfo {
                    data: FuncData { codeptr: Some(codeptr), ..old(self).functions@[func_id.0 as int].data },
                    ..old(self).functions@[func_id.0 as int]
                },
            ),
            func_id.0 >= old(self).functions@.len() ==> final(self).functions@ == old(self).functions@,
    {
        if (func_id.0 as usize) < self.functions.len() {
            let mut info = self.functions[func_id.0 as usize];
            info.data.codeptr = Some(codeptr);
            self.functions.set(func_id.0 as usize, info);
        }
    }

    /// Marks a function as having an inline form.  An unknown id changes
    /// nothing.
    pub fn set_inline(&mut self, func_id: FuncId, inline: InlineMethod)
        ensures
            func_id.0 < old(self).functions@.len() ==> final(self).functions@ == old(self).functions@.update(
                func_id.0 as int,
                FuncInfo { inline: Some(inline), ..old(self).functions@[func_id.0 as int] },
            ),
            func_id.0 >= old(self).functions@.len() ==> final(self).functions@ == old(self).functions@,
    {
        if (func_id.0 as usize) < self.functions.len() {
            let mut info = self.functions[func_id.0 as usize];
            info.inline = Some(inline);
            self.functions.set(func_id.0 as usize, info);
        }
    }
}

/// The receiver and arguments of a call site, and the callee's code where
/// the site's cache holds one.
#[derive(Clone, Copy, Debug, PartialEq, Eq, Structural)]
pub struct MethodInfo {
    pub recv: SlotId,
    pub args: SlotId,
    pub len: u16,
    pub callee_codeptr: Option<u64>,
}

impl MethodInfo {
    /// The call site of a `MethodArgs` record: its operands, and the code
    /// address in its cache word unless that is zero.
    pub fn new(recv: SlotId, args: SlotId, len: u16, cache: u64) -> (m: MethodInfo)
        ensures
            m == (MethodInfo {
                recv,
                args,
                len,
                callee_codeptr: if cache == 0 {
                    None
                } else {
                    Some(cache)
                },
            }),
    {
        MethodInfo {
            recv,
            args,
            len,
            callee_codeptr: if cache == 0 {
                None
            } else {
                Some(cache)
            },
        }
    }
}

impl MethodInfo {
    pub open spec fn shift_spec(&self) -> MethodInfo {
        MethodInfo { args: SlotId((self.args.0 + 1) as u16), ..*self }
    }

    /// The call site with its arguments starting one slot later: the first
    /// slot holds the block.
    #[verifier::when_used_as_spec(shift_spec)]
    pub fn shift(&self) -> (m: MethodInfo)
        requires
            self.args.0 < 0xffff,
        ensures
            m == self.shift_spec(),
    {
        MethodInfo { recv: self.recv, args: SlotId(self.args.0 + 1), len: self.len, callee_codeptr: self.callee_codeptr }
    }
}

/// What a resolved call site remembers.
///
/// The `MethodCall` record caches the receiver's class and the class version
/// in its second word, the `MethodArgs` record the callee's code address, and
/// the record after it the callee's frame header and bytecode address.
#[derive(Clone, Copy, Debug, PartialEq, Eq, Structural)]
pub struct InlineCached {
    pub codeptr: u64,
    pub meta: Meta,
    pub class_id: ClassId,
    pub version: u32,
    pub pc: BcPc,
}

impl InlineCached {
    /// Reads the cache of a call site from its three records.
    pub fn new(call: &Bc, data: &Bc, codeptr: u64) -> (c: InlineCached)
        ensures
            c == (InlineCached {
                codeptr,
                meta: Meta(data.op1),
                class_id: ClassId(low_half(call.op2.0)),
                version: high_half(call.op2.0),
                pc: BcPc(data.op2.0),
            }),
    {
        let (class_id, version) = call.class_version();
        InlineCached { codeptr, meta: Meta(data.op1), class_id, version, pc: BcPc(data.op2.0) }
    }

    /// The function that the site resolved to.
    pub fn func_id(&self) -> (f: FuncId)
        ensures
            f == self.meta.func_id_spec(),
    {
        self.meta.func_id()
    }
}

} // verus!
