//! The functions of the runtime that generated code calls, as far as they
//! work on plain values: indexing of arrays, and the resolution of methods.

use vstd::prelude::*;
use crate::assembler::CodePtr;
use crate::assembler::DestLabel;
use crate::codegen::step::CompileError;
use crate::codegen::{Codegen, CodegenView};
use crate::frame::{CallKind, Meta};
use crate::ids::BcPc;
use crate::iseq::ISeqInfo;
use crate::funcs::{FnStore, FuncData, FuncInfo, FuncKind};
use crate::globals::{ClassInfo, Globals, MonorubyErr};
use crate::ids::{ClassId, FuncId, IdentId, OBJECT_CLASS};
use crate::value::{Value, NIL_VALUE};

verus! {

/// The element of an array at an index.  A negative index counts from the
/// end.  Outside the array the element is `nil`.
pub open spec fn index_spec(v: Seq<Value>, idx: int) -> Value {
    let i = if idx >= 0 {
        idx
    } else {
        v.len() + idx
    };
    if 0 <= i < v.len() {
        v[i]
    } else {
        Value(NIL_VALUE)
    }
}

/// `base[index]` for an array.
pub fn get_index(v: &Vec<Value>, idx: i64) -> (r: Value)
    ensures
        r == index_spec(v@, idx as int),
{
    if idx >= 0 {
        if (idx as u64) < v.len() as u64 {
            v[idx as usize]
        } else {
            Value::nil()
        }
    } else {
        let back = (-(idx as i128)) as u128;
        if back <= v.len() as u128 {
            v[v.len() - (back as usize)]
        } else {
            Value::nil()
        }
    }
}

/// The array after `base[index] = src`: the element is replaced; an index
/// behind the end grows the array with `nil`; a negative index counts from
/// the end and must not reach before the start.
pub open spec fn index_assigned(v: Seq<Value>, idx: int, src: Value) -> Option<Seq<Value>> {
    if idx >= 0 {
        if idx < v.len() {
            Some(v.update(idx, src))
        } else {
            Some(v + Seq::new((idx - v.len()) as nat, |i: int| Value(NIL_VALUE)) + seq![src])
        }
    } else if v.len() + idx >= 0 {
        Some(v.update(v.len() + idx, src))
    } else {
        None
    }
}

/// `base[index] = src` for an array.  Returns the value assigned.
pub fn set_index(v: &mut Vec<Value>, idx: i64, src: Value) -> (r: Result<Value, MonorubyErr>)
    requires
        idx < usize::MAX,
    ensures
        match index_assigned(old(v)@, idx as int, src) {
            Some(s) => r == Ok::<Value, MonorubyErr>(src) && final(v)@ == s,
            None => r == Err::<Value, MonorubyErr>(
                MonorubyErr::IndexTooSmall { index: idx, min: (-old(v)@.len()) as i64 },
            ) && final(v)@ == old(v)@,
        },
{
    if idx >= 0 {
        let i = idx as usize;
        if i < v.len() {
            v.set(i, src);
        } else {
            let ghost start = v@;
            while v.len() < i
                invariant
                    start.len() <= v.len() <= i,
                    v@ == start + Seq::new((v.len() - start.len()) as nat, |k: int| Value(NIL_VALUE)),
                decreases i - v.len(),
            {
                let ghost before = v@;
                v.push(Value::nil());
                assert(v@ =~= start + Seq::new((v.len() - start.len()) as nat, |k: int| Value(NIL_VALUE)));
            }
            v.push(src);
        }
        Ok(src)
    } else {
        let back = (-(idx as i128)) as u128;
        if back <= v.len() as u128 {
            let i = v.len() - (back as usize);
            v.set(i, src);
            Ok(src)
        } else {
            Err(MonorubyErr::IndexTooSmall { index: idx, min: -(v.len() as i128) as i64 })
        }
    }
}

/// The array of the values of consecutive slots.  The slots grow toward
/// lower addresses, so the values, read at ascending addresses, come last
/// to first.
pub fn gen_array(src: &[Value]) -> (v: Vec<Value>)
    ensures
        v@ == src@.reverse(),
{
    let mut v: Vec<Value> = Vec::new();
    let n = src.len();
    let mut i: usize = 0;
    while i < n
        invariant
            i <= n,
            n == src@.len(),
            v@.len() == i,
            forall|k: int| 0 <= k < i ==> v@[k] == src@[n - 1 - k],
        decreases n - i,
    {
        v.push(src[n - 1 - i]);
        i += 1;
    }
    assert(v@ =~= src@.reverse());
    v
}

impl CodegenView {
    /// The stub or wrapper that a function gets when it is first called.
    pub open spec fn gen_stub(self, kind: FuncKind, no_jit: bool) -> CodegenView {
        match kind {
            FuncKind::ISeq => if no_jit {
                self.gen_vm_stub()
            } else {
                self.gen_jit_stub()
            },
            FuncKind::Builtin { abs_address } => self.wrap_native_func(abs_address),
            FuncKind::AttrReader { ivar_name } => self.gen_attr_reader(ivar_name),
            FuncKind::AttrWriter { ivar_name } => self.gen_attr_writer(ivar_name),
        }
    }
}

/// The function with its code installed at `codeptr`.
pub open spec fn installed(info: FuncInfo, codeptr: CodePtr) -> FuncInfo {
    FuncInfo { data: FuncData { codeptr: Some(codeptr), ..info.data }, ..info }
}

/// What making sure that the function `f` has code leaves behind: the code,
/// the functions, and the descriptor of `f`.  A function that has code keeps
/// it; an unknown function changes nothing.
pub open spec fn on_demand(c: CodegenView, functions: Seq<FuncInfo>, no_jit: bool, f: FuncId) -> (
    CodegenView,
    Seq<FuncInfo>,
    Option<FuncData>,
) {
    if f.0 >= functions.len() {
        (c, functions, None)
    } else {
        let info = functions[f.0 as int];
        if info.data.codeptr is Some {
            (c, functions, Some(info.data))
        } else {
            let now = installed(info, c.jit.here());
            (c.gen_stub(info.kind, no_jit), functions.update(f.0 as int, now), Some(now.data))
        }
    }
}

impl Codegen {
    /// Makes sure that a function has code, and returns its descriptor.
    ///
    /// A function without code gets a stub or wrapper by its kind: a
    /// function of bytecode the stub that has it compiled at its first
    /// call, or, where compilation is switched off, the stub that enters
    /// the interpreter; a native function a wrapper; an attribute accessor
    /// its code.  `None` for an unknown function.
    pub fn compile_on_demand(&mut self, store: &mut FnStore, no_jit: bool, func_id: FuncId) -> (r: Option<FuncData>)
        ensures
            (final(self)@, final(store).functions@, r) == on_demand(
                old(self)@,
                old(store).functions@,
                no_jit,
                func_id,
            ),
            r is Some <==> func_id.0 < old(store).functions@.len(),
            r is None ==> final(self)@ == old(self)@ && final(store).functions@ == old(store).functions@,
            r is Some ==> {
                let info = old(store).functions@[func_id.0 as int];
                if info.data.codeptr is Some {
                    &&& final(self)@ == old(self)@
                    &&& final(store).functions@ == old(store).functions@
                    &&& r == Some(info.data)
                } else {
                    &&& final(self)@ == old(self)@.gen_stub(info.kind, no_jit)
                    &&& final(store).functions@ == old(store).functions@.update(
                        func_id.0 as int,
                        installed(info, old(self)@.jit.here()),
                    )
                    &&& r == Some(installed(info, old(self)@.jit.here()).data)
                }
            },
    {
        let info = match store.get(func_id) {
            Some(info) => *info,
            None => {
                return None;
            },
        };
        if info.data.codeptr.is_some() {
            return Some(info.data);
        }
        let codeptr = match info.kind {
            FuncKind::ISeq => {
                if no_jit {
                    self.gen_vm_stub()
                } else {
                    self.gen_jit_stub()
                }
            },
            FuncKind::Builtin { abs_address } => self.wrap_native_func(abs_address),
            FuncKind::AttrReader { ivar_name } => self.gen_attr_reader(ivar_name),
            FuncKind::AttrWriter { ivar_name } => self.gen_attr_writer(ivar_name),
        };
        store.set_codeptr(func_id, codeptr);
        Some(FuncData { codeptr: Some(codeptr), meta: info.data.meta, pc: info.data.pc })
    }
}

/// Get the id and the place of the code of the method of the given name
/// for a receiver of the given class.
///
/// If no method was found, or the number of arguments does not fit, the
/// error is set and `None` returned.
pub fn get_func_address(
    globals: &mut Globals,
    codegen: &mut Codegen,
    recv_class: ClassId,
    func_name: IdentId,
    args_len: usize,
) -> (r: Option<(FuncId, CodePtr)>)
    requires
        old(globals).wf(),
    ensures
        final(globals).wf(),
        final(globals).classes == old(globals).classes,
        final(globals).idents == old(globals).idents,
        final(globals).class_version == old(globals).class_version,
        final(globals).no_jit == old(globals).no_jit,
        final(globals).warning == old(globals).warning,
        final(globals).stdout == old(globals).stdout,
        match old(globals).method_of(recv_class, func_name) {
            None => r is None && final(globals).error == Some(
                MonorubyErr::MethodNotFound { name: func_name, class: recv_class },
            ) && final(codegen)@ == old(codegen)@ && final(globals).func == old(globals).func,
            Some(f) => match old(globals).arity_error(f, args_len) {
                Some(e) => r is None && final(globals).error == Some(e) && final(codegen)@ == old(codegen)@
                    && final(globals).func == old(globals).func,
                None => {
                    let made = on_demand(old(codegen)@, old(globals).func.functions@, old(globals).no_jit, f);
                    &&& final(globals).error == old(globals).error
                    &&& final(codegen)@ == made.0
                    &&& final(globals).func.functions@ == made.1
                    &&& r == match made.2 {
                        Some(data) => match data.codeptr {
                            Some(p) => Some((f, p)),
                            None => None,
                        },
                        None => None,
                    }
                    &&& (r is Some <==> f.0 < old(globals).func.functions@.len())
                },
            },
        },
{
    let func_id = match globals.find_method_checked(recv_class, func_name, args_len) {
        Some(f) => f,
        None => {
            return None;
        },
    };
    match codegen.compile_on_demand(&mut globals.func, globals.no_jit, func_id) {
        Some(data) => match data.codeptr {
            Some(p) => Some((func_id, p)),
            None => None,
        },
        None => None,
    }
}

/// Get the descriptor of the method of the given name for a receiver of the
/// given class, with its code installed.
///
/// If no method was found, or the number of arguments does not fit, the
/// error is set and `None` returned.
pub fn find_method(
    globals: &mut Globals,
    codegen: &mut Codegen,
    recv_class: ClassId,
    func_name: IdentId,
    args_len: usize,
) -> (r: Option<FuncData>)
    requires
        old(globals).wf(),
    ensures
        final(globals).wf(),
        final(globals).classes == old(globals).classes,
        final(globals).idents == old(globals).idents,
        final(globals).class_version == old(globals).class_version,
        final(globals).no_jit == old(globals).no_jit,
        final(globals).warning == old(globals).warning,
        final(globals).stdout == old(globals).stdout,
        match old(globals).method_of(recv_class, func_name) {
            None => r is None && final(globals).error == Some(
                MonorubyErr::MethodNotFound { name: func_name, class: recv_class },
            ) && final(codegen)@ == old(codegen)@ && final(globals).func == old(globals).func,
            Some(f) => match old(globals).arity_error(f, args_len) {
                Some(e) => r is None && final(globals).error == Some(e) && final(codegen)@ == old(codegen)@
                    && final(globals).func == old(globals).func,
                None => {
                    let made = on_demand(old(codegen)@, old(globals).func.functions@, old(globals).no_jit, f);
                    &&& final(globals).error == old(globals).error
                    &&& final(codegen)@ == made.0
                    &&& final(globals).func.functions@ == made.1
                    &&& r == made.2
                    &&& (r is Some <==> f.0 < old(globals).func.functions@.len())
                    &&& (r matches Some(data) ==> data.codeptr is Some)
                },
            },
        },
{
    let func_id = match globals.find_method_checked(recv_class, func_name, args_len) {
        Some(f) => f,
        None => {
            return None;
        },
    };
    codegen.compile_on_demand(&mut globals.func, globals.no_jit, func_id)
}

/// The class of the name that was defined first among the first `n`
/// classes.
pub open spec fn class_named(classes: Seq<ClassInfo>, name: IdentId, n: int) -> Option<ClassId>
    decreases n,
{
    if n <= 0 {
        None
    } else {
        match class_named(classes, name, n - 1) {
            Some(c) => Some(c),
            None => if classes[n - 1].name == Some(name) {
                Some(ClassId((n - 1) as u32))
            } else {
                None
            },
        }
    }
}

/// No class before the first of a name has that name.
pub proof fn lemma_class_named(classes: Seq<ClassInfo>, name: IdentId, n: int)
    requires
        0 <= n <= classes.len() <= u32::MAX,
    ensures
        match class_named(classes, name, n) {
            Some(c) => c.0 < n && classes[c.0 as int].name == Some(name) && forall|j: int|
                0 <= j < c.0 ==> (#[trigger] classes[j]).name != Some(name),
            None => forall|j: int| 0 <= j < n ==> (#[trigger] classes[j]).name != Some(name),
        },
    decreases n,
{
    if n > 0 {
        lemma_class_named(classes, name, n - 1);
    }
}

/// The definition `class name < superclass`.
///
/// Where a class of the name exists it is opened again, and the superclass,
/// if one is given, has to be the one that the class has: else the error is
/// set and returned.  Where none exists the class is defined, under `Object`
/// if no superclass is given.
pub fn define_class(globals: &mut Globals, name: IdentId, superclass: Option<ClassId>) -> (r: Result<
    ClassId,
    MonorubyErr,
>)
    requires
        old(globals).wf(),
        old(globals).classes@.len() < u32::MAX,
        match superclass {
            Some(s) => s.0 < old(globals).classes@.len(),
            None => OBJECT_CLASS < old(globals).classes@.len(),
        },
    ensures
        final(globals).wf(),
        final(globals).func == old(globals).func,
        final(globals).idents == old(globals).idents,
        match class_named(old(globals).classes@, name, old(globals).classes@.len() as int) {
            Some(c) => {
                &&& final(globals).classes == old(globals).classes
                &&& if superclass is Some && old(globals).classes@[c.0 as int].super_class != superclass {
                    &&& r == Err::<ClassId, MonorubyErr>(MonorubyErr::SuperclassMismatch { name })
                    &&& final(globals).error == Some(MonorubyErr::SuperclassMismatch { name })
                } else {
                    &&& r == Ok::<ClassId, MonorubyErr>(c)
                    &&& final(globals).error == old(globals).error
                }
            },
            None => {
                let n = old(globals).classes@.len() as int;
                &&& r == Ok::<ClassId, MonorubyErr>(ClassId(n as u32))
                &&& final(globals).error == old(globals).error
                &&& final(globals).classes@.len() == n + 1
                &&& final(globals).classes@.take(n) == old(globals).classes@
                &&& final(globals).classes@[n].name == Some(name)
                &&& final(globals).classes@[n].super_class == Some(
                    match superclass {
                        Some(s) => s,
                        None => ClassId(OBJECT_CLASS),
                    },
                )
                &&& final(globals).classes@[n].methods@.len() == 0
                &&& final(globals).classes@[n].constants@.len() == 0
                &&& final(globals).classes@[n].singleton is None
            },
        },
{
    proof {
        lemma_class_named(globals.classes@, name, globals.classes@.len() as int);
    }
    match globals.get_class_by_name(name) {
        Some(class) => {
            if let Some(s) = superclass {
                let same = match globals.super_class(class) {
                    Some(has) => has.0 == s.0,
                    None => false,
                };
                if !same {
                    let e = MonorubyErr::SuperclassMismatch { name };
                    globals.error = Some(e);
                    return Err(e);
                }
            }
            Ok(class)
        },
        None => {
            let parent = match superclass {
                Some(s) => s,
                None => ClassId(OBJECT_CLASS),
            };
            match globals.define_class_by_ident_id(name, Some(parent)) {
                Some(c) => Ok(c),
                None => Ok(ClassId(0)),
            }
        },
    }
}

/// The functions with the function `id` marked as entered through compiled
/// code.
pub open spec fn marked_jit(functions: Seq<FuncInfo>, id: FuncId) -> Seq<FuncInfo> {
    if id.0 < functions.len() {
        let info = functions[id.0 as int];
        let meta = Meta(Meta::pack(CallKind::Jit, info.data.meta.reg_num_spec(), info.data.meta.func_id_spec()));
        functions.update(id.0 as int, FuncInfo { data: FuncData { meta, ..info.data }, ..info })
    } else {
        functions
    }
}

/// What the stub of a function asks for at the first call of the function:
/// the function is marked as entered through compiled code, and its code is
/// generated, specialised on the class of `self`.  The stub then makes
/// itself a jump to the entry that is returned.
pub fn exec_jit_compile(codegen: &mut Codegen, store: &mut FnStore, func: &ISeqInfo, self_class: ClassId) -> (r:
    Result<DestLabel, CompileError>)
    requires
        func.wf(),
    ensures
        final(store).functions@ == marked_jit(old(store).functions@, func.id),
        (final(codegen)@, r) == old(codegen)@.jit_compile_ruby(&*final(store), func, self_class, None),
{
    if (func.id.0 as usize) < store.functions.len() {
        let mut info = store.functions[func.id.0 as usize];
        info.data.meta.set_jit();
        store.functions.set(func.id.0 as usize, info);
    }
    match codegen.jit_compile_ruby(store, func, self_class, None) {
        Ok(done) => Ok(done.0),
        Err(e) => Err(e),
    }
}

/// What a loop asks for once it has run often: the code of the loop that
/// starts at the record with the address `pc`, for the state in which the
/// interpreter reaches it.
pub fn exec_jit_partial_compile(
    codegen: &mut Codegen,
    store: &FnStore,
    func: &ISeqInfo,
    self_class: ClassId,
    pc: BcPc,
) -> (r: Result<DestLabel, CompileError>)
    requires
        func.wf(),
        func.base.0 <= pc.0,
        (pc.0 - func.base.0) / 16 <= func.bytecode@.len(),
    ensures
        (final(codegen)@, r) == old(codegen)@.jit_compile_ruby(
            store,
            func,
            self_class,
            Some(((pc.0 - func.base.0) / 16) as usize),
        ),
{
    let position = pc.index_from(func.base) as usize;
    match codegen.jit_compile_ruby(store, func, self_class, Some(position)) {
        Ok(done) => Ok(done.0),
        Err(e) => Err(e),
    }
}

} // verus!
