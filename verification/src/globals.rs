//! The global state: names, classes with their methods and constants, the
//! function store, the class version, and the error slot.

use vstd::prelude::*;
use vstd::string::StringExecFns;
use crate::funcs::{FnStore, FuncData, FuncKind};
use crate::ids::{BcPc, ClassId, FuncId, IdentId, CLASS_CLASS, OBJECT_CLASS};
use crate::value::Value;

verus! {

/// What went wrong.  The error is kept in the global state; a function that
/// fails returns no value.
#[derive(Clone, Copy, Debug, PartialEq, Eq, Structural)]
pub enum MonorubyErr {
    /// No method of the name is defined for the receiver's class.
    MethodNotFound { name: IdentId, class: ClassId },
    /// A method was called with a wrong number of arguments.
    WrongArguments { expected: usize, given: usize },
    DivideByZero,
    /// A negative index reaches before the start of an array.
    IndexTooSmall { index: i64, min: i64 },
    /// A class was defined again with another superclass.
    SuperclassMismatch { name: IdentId },
    /// A constant is not defined.
    UninitializedConstant { name: IdentId },
}

impl MonorubyErr {
    pub fn wrong_arguments(expected: usize, given: usize) -> (e: MonorubyErr)
        ensures
            e == (MonorubyErr::WrongArguments { expected, given }),
    {
        MonorubyErr::WrongArguments { expected, given }
    }
}

/// A name with `@` before it is never the name with `=` after it.
pub proof fn lemma_prefix_is_no_postfix(text: Seq<char>)
    ensures
        seq!['@'] + text != text + seq!['='],
{
    let a = seq!['@'] + text;
    let b = text + seq!['='];
    if a == b {
        let n = text.len() as int;
        if n == 0 {
            assert(a[0] == '@');
            assert(b[0] == '=');
        } else {
            lemma_all_at(text, n - 1);
            assert(a[n] == text[n - 1]);
            assert(b[n] == '=');
        }
    }
}

/// Where a text with `@` before it is the text with `=` after it, every
/// character of the text is `@`.
proof fn lemma_all_at(text: Seq<char>, i: int)
    requires
        seq!['@'] + text == text + seq!['='],
        0 <= i < text.len(),
    ensures
        text[i] == '@',
    decreases i,
{
    let a = seq!['@'] + text;
    let b = text + seq!['='];
    if i == 0 {
        assert(a[0] == '@');
        assert(b[0] == text[0]);
    } else {
        lemma_all_at(text, i - 1);
        assert(a[i] == text[i - 1]);
        assert(b[i] == text[i]);
    }
}

/// One class.
#[derive(Debug)]
pub struct ClassInfo {
    pub name: Option<IdentId>,
    pub super_class: Option<ClassId>,
    /// The methods that the class itself defines; a name occurs once.
    pub methods: Vec<(IdentId, FuncId)>,
    /// The constants that the class holds; a name occurs once.
    pub constants: Vec<(IdentId, Value)>,
    /// The class of the class object itself, once it has methods of its
    /// own.
    pub singleton: Option<ClassId>,
}

/// The first entry of the name in a table.
pub open spec fn lookup<T>(table: Seq<(IdentId, T)>, name: IdentId) -> Option<T>
    decreases table.len(),
{
    if table.len() == 0 {
        None
    } else if table[0].0 == name {
        Some(table[0].1)
    } else {
        lookup(table.skip(1), name)
    }
}

/// The table with the entry of the name replaced, or with a new entry at
/// the end where the name had none.
pub open spec fn assign<T>(table: Seq<(IdentId, T)>, name: IdentId, val: T) -> Seq<(IdentId, T)>
    decreases table.len(),
{
    if table.len() == 0 {
        seq![(name, val)]
    } else if table[0].0 == name {
        seq![(name, val)] + table.skip(1)
    } else {
        seq![table[0]] + assign(table.skip(1), name, val)
    }
}

/// After an assignment the name has the new value and every other name the
/// value it had.
pub proof fn lemma_assign<T>(table: Seq<(IdentId, T)>, name: IdentId, val: T, other: IdentId)
    ensures
        lookup(assign(table, name, val), name) == Some(val),
        other != name ==> lookup(assign(table, name, val), other) == lookup(table, other),
        assign(table, name, val).len() >= table.len(),
    decreases table.len(),
{
    let a = assign(table, name, val);
    if table.len() == 0 {
        assert(a.skip(1) =~= Seq::<(IdentId, T)>::empty());
        assert(a[0] == (name, val));
        assert(a.len() == 1);
        assert(lookup(a.skip(1), other) == None::<T>);
        assert(lookup(table, other) == None::<T>);
    } else if table[0].0 == name {
        assert(a.skip(1) =~= table.skip(1));
        assert(a[0] == (name, val));
    } else {
        lemma_assign(table.skip(1), name, val, other);
        assert(a.skip(1) =~= assign(table.skip(1), name, val));
        assert(a[0] == table[0]);
    }
}

/// Finds the first entry of the name.
fn table_get<T: Copy>(table: &Vec<(IdentId, T)>, name: IdentId) -> (r: Option<T>)
    ensures
        r == lookup(table@, name),
{
    let mut i: usize = 0;
    assert(table@.skip(0) =~= table@);
    while i < table.len()
        invariant
            i <= table.len(),
            lookup(table@.skip(i as int), name) == lookup(table@, name),
        decreases table.len() - i,
    {
        assert(table@.skip(i as int)[0] == table@[i as int]);
        assert(table@.skip(i as int).skip(1) =~= table@.skip(i + 1));
        if table[i].0.0 == name.0 {
            return Some(table[i].1);
        }
        i += 1;
    }
    None
}

/// Replaces the entry of the name, or adds one.
fn table_set<T: Copy>(table: &mut Vec<(IdentId, T)>, name: IdentId, val: T)
    ensures
        final(table)@ == assign(old(table)@, name, val),
{
    let mut i: usize = 0;
    assert(table@.skip(0) =~= table@);
    assert(table@.take(0) + assign(table@, name, val) =~= assign(table@, name, val));
    while i < table.len()
        invariant
            i <= table.len(),
            table@ == old(table)@,
            assign(old(table)@, name, val) == table@.take(i as int) + assign(table@.skip(i as int), name, val),
        decreases table.len() - i,
    {
        assert(table@.skip(i as int)[0] == table@[i as int]);
        assert(table@.skip(i as int).skip(1) =~= table@.skip(i + 1));
        if table[i].0.0 == name.0 {
            table.set(i, (name, val));
            assert(table@ =~= old(table)@.take(i as int) + (seq![(name, val)] + old(table)@.skip(i as int).skip(1)));
            return ;
        }
        assert(table@.take(i as int) + (seq![table@[i as int]] + assign(table@.skip(i + 1), name, val))
            =~= table@.take(i + 1) + assign(table@.skip(i + 1), name, val));
        i += 1;
    }
    assert(table@.skip(table.len() as int) =~= Seq::<(IdentId, T)>::empty());
    table.push((name, val));
    assert(table@ =~= old(table)@.take(old(table)@.len() as int) + seq![(name, val)]);
}

/// The method of the name that an instance of the class answers to: the
/// class's own, or else that of the nearest superclass that has one.
pub open spec fn find_method_spec(classes: Seq<ClassInfo>, class_id: ClassId, name: IdentId) -> Option<FuncId>
    decreases class_id.0,
{
    if class_id.0 >= classes.len() {
        None
    } else {
        match lookup(classes[class_id.0 as int].methods@, name) {
            Some(f) => Some(f),
            None => match classes[class_id.0 as int].super_class {
                Some(s) => if s.0 < class_id.0 {
                    find_method_spec(classes, s, name)
                } else {
                    None
                },
                None => None,
            },
        }
    }
}

/// Global state.
#[derive(Debug)]
pub struct Globals {
    /// function info.
    pub func: FnStore,
    /// class table.  Class 0 names no class.
    pub classes: Vec<ClassInfo>,
    /// The names, by identifier.
    pub idents: Vec<String>,
    pub error: Option<MonorubyErr>,
    /// warning level.
    pub warning: u8,
    /// suppress jit compilation.
    pub no_jit: bool,
    /// What was written to the standard output and not yet flushed.
    pub stdout: Vec<u8>,
    /// The global class version: bumped whenever a method is defined.
    pub class_version: u32,
}

impl Globals {
    /// Every superclass was defined before its subclasses, and the
    /// identifiers of names and classes fit in 32 bits.
    pub open spec fn wf(&self) -> bool {
        &&& self.classes@.len() <= u32::MAX
        &&& self.idents@.len() <= u32::MAX
        &&& forall|c: int|
            0 <= c < self.classes@.len() && (#[trigger] self.classes@[c]).super_class is Some
                ==> (self.classes@[c].super_class->0).0 < c
        &&& forall|c: int|
            0 <= c < self.classes@.len() && (#[trigger] self.classes@[c]).singleton is Some
                ==> (self.classes@[c].singleton->0).0 < self.classes@.len()
    }

    /// The method that an instance of the class answers to.
    pub open spec fn method_of(&self, class_id: ClassId, name: IdentId) -> Option<FuncId> {
        find_method_spec(self.classes@, class_id, name)
    }

    /// The identifier of a name, if the name is known.
    #[verifier::opaque]
    pub open spec fn ident_of(&self, name: Seq<char>) -> Option<IdentId> {
        if exists|i: int| 0 <= i < self.idents@.len() && self.idents@[i]@ == name {
            let i = choose|i: int| 0 <= i < self.idents@.len() && self.idents@[i]@ == name && forall|j: int|
                    0 <= j < i ==> self.idents@[j]@ != name;
            Some(IdentId(i as u32))
        } else {
            None
        }
    }

    /// The number of identifiers that the name still needs: one where the
    /// name has none yet.
    pub open spec fn fresh(&self, name: Seq<char>) -> int {
        if self.ident_of(name) is Some {
            0
        } else {
            1
        }
    }

    /// There is an identifier left for each of the names that have none
    /// yet, `needed` of them.
    pub open spec fn room_for(&self, needed: int) -> bool {
        self.idents@.len() + needed <= u32::MAX
    }

    /// A name without an identifier stands nowhere.
    pub proof fn lemma_unnamed(&self, name: Seq<char>)
        requires
            self.ident_of(name) is None,
        ensures
            forall|j: int| 0 <= j < self.idents@.len() ==> self.idents@[j]@ != name,
    {
        reveal(Globals::ident_of);
    }

    /// Another name neither gets nor loses its identifier when a name is
    /// made.
    pub proof fn lemma_other_name(&self, old: &Globals, made: Seq<char>, other: Seq<char>)
        requires
            self.extends(old),
            old.idents@.len() <= u32::MAX,
            self.idents@.len() == old.idents@.len() + old.fresh(made),
            old.fresh(made) == 1 ==> self.idents@[old.idents@.len() as int]@ == made,
            made != other,
        ensures
            self.ident_of(other) == old.ident_of(other),
            self.fresh(other) == old.fresh(other),
    {
        if old.ident_of(other) is Some {
            self.lemma_extends(old, other);
        } else {
            old.lemma_unnamed(other);
            self.lemma_no_ident(other);
        }
    }

    /// The identifier of a name is the first place at which the name
    /// stands.
    pub proof fn lemma_ident_of(&self, name: Seq<char>, i: int)
        requires
            0 <= i < self.idents@.len(),
            i <= u32::MAX,
            self.idents@[i]@ == name,
            forall|j: int| 0 <= j < i ==> self.idents@[j]@ != name,
        ensures
            self.ident_of(name) == Some(IdentId(i as u32)),
    {
        reveal(Globals::ident_of);
        let k = choose|k: int| 0 <= k < self.idents@.len() && self.idents@[k]@ == name && forall|j: int|
                0 <= j < k ==> self.idents@[j]@ != name;
        assert(k == i) by {
            if k < i {
                assert(self.idents@[k]@ != name);
            }
            if i < k {
                assert(self.idents@[i]@ != name);
            }
        }
    }

    /// This state knows every name that `old` knows, under the same
    /// identifier.
    pub open spec fn extends(&self, old: &Globals) -> bool {
        &&& old.idents@.len() <= self.idents@.len()
        &&& forall|i: int| 0 <= i < old.idents@.len() ==> self.idents@[i] == old.idents@[i]
    }

    /// A name keeps its identifier when more names are made.
    pub proof fn lemma_extends(&self, old: &Globals, name: Seq<char>)
        requires
            self.extends(old),
            old.idents@.len() <= u32::MAX,
            old.ident_of(name) is Some,
        ensures
            self.ident_of(name) == old.ident_of(name),
    {
        reveal(Globals::ident_of);
        let k = choose|k: int| 0 <= k < old.idents@.len() && old.idents@[k]@ == name && forall|j: int|
                0 <= j < k ==> old.idents@[j]@ != name;
        let w = choose|w: int| 0 <= w < old.idents@.len() && old.idents@[w]@ == name;
        old.lemma_first(name, w);
        self.lemma_ident_of(name, k);
    }

    /// Where a name stands at all, it stands at a first place.
    pub proof fn lemma_first(&self, name: Seq<char>, w: int)
        requires
            0 <= w < self.idents@.len(),
            self.idents@[w]@ == name,
        ensures
            exists|k: int|
                0 <= k <= w && self.idents@[k]@ == name && forall|j: int| 0 <= j < k ==> self.idents@[j]@ != name,
        decreases w,
    {
        if exists|j: int| 0 <= j < w && self.idents@[j]@ == name {
            let j = choose|j: int| 0 <= j < w && self.idents@[j]@ == name;
            self.lemma_first(name, j);
        }
    }

    /// The identifier of a name depends on the names alone.
    pub proof fn lemma_same_idents(&self, other: &Globals, name: Seq<char>)
        requires
            self.idents == other.idents,
        ensures
            self.ident_of(name) == other.ident_of(name),
    {
        reveal(Globals::ident_of);
    }

    /// A name that stands nowhere has no identifier.
    pub proof fn lemma_no_ident(&self, name: Seq<char>)
        requires
            forall|j: int| 0 <= j < self.idents@.len() ==> self.idents@[j]@ != name,
        ensures
            self.ident_of(name) is None,
    {
        reveal(Globals::ident_of);
    }

    /// A global state without classes, names or functions, but for the
    /// unused entries 0.
    pub fn new(warning: u8, no_jit: bool) -> (g: Globals)
        ensures
            g.wf(),
            g.warning == warning,
            g.no_jit == no_jit,
            g.error is None,
            g.classes@.len() == 1,
            g.idents@.len() == 0,
            g.func.functions@.len() == 1,
            g.stdout@.len() == 0,
            g.class_version == 0,
    {
        let mut classes = Vec::new();
        classes.push(
            ClassInfo {
                name: None,
                super_class: None,
                methods: Vec::new(),
                constants: Vec::new(),
                singleton: None,
            },
        );
        Globals {
            func: FnStore::new(),
            classes,
            idents: Vec::new(),
            error: None,
            warning,
            no_jit,
            stdout: Vec::new(),
            class_version: 0,
        }
    }

    /// Takes what was written to the standard output since the last flush,
    /// for the caller to write out.
    pub fn flush_stdout(&mut self) -> (bytes: Vec<u8>)
        ensures
            bytes@ == old(self).stdout@,
            final(self).stdout@.len() == 0,
            final(self).func == old(self).func,
            final(self).classes == old(self).classes,
            final(self).idents == old(self).idents,
            final(self).error == old(self).error,
            final(self).class_version == old(self).class_version,
    {
        let mut out: Vec<u8> = Vec::new();
        core::mem::swap(&mut out, &mut self.stdout);
        out
    }

    /// Appends bytes to the standard output.
    pub fn write_stdout(&mut self, bytes: &[u8])
        ensures
            final(self).stdout@ == old(self).stdout@ + bytes@,
            final(self).func == old(self).func,
            final(self).classes == old(self).classes,
            final(self).idents == old(self).idents,
            final(self).error == old(self).error,
            final(self).class_version == old(self).class_version,
    {
        let mut i: usize = 0;
        while i < bytes.len()
            invariant
                i <= bytes.len(),
                self.stdout@ == old(self).stdout@ + bytes@.take(i as int),
                self.func == old(self).func,
                self.classes == old(self).classes,
                self.idents == old(self).idents,
                self.error == old(self).error,
                self.class_version == old(self).class_version,
            decreases bytes.len() - i,
        {
            self.stdout.push(bytes[i]);
            assert(bytes@.take(i + 1) =~= bytes@.take(i as int).push(bytes@[i as int]));
            i += 1;
        }
        assert(bytes@.take(bytes.len() as int) =~= bytes@);
    }

    /// The error that was set last, taken out of the error slot.
    pub fn take_error(&mut self) -> (e: Option<MonorubyErr>)
        ensures
            e == old(self).error,
            final(self).error is None,
    {
        let e = self.error;
        self.error = None;
        e
    }

    /// Sets the error of a division by zero.
    pub fn err_divide_by_zero(&mut self)
        ensures
            final(self).error == Some(MonorubyErr::DivideByZero),
    {
        self.error = Some(MonorubyErr::DivideByZero);
    }

    /// The identifier of the name, which is made where the name is new;
    /// `None` where the identifiers are used up.
    pub fn get_ident_id(&mut self, name: &str) -> (r: Option<IdentId>)
        requires
            old(self).wf(),
        ensures
            final(self).wf(),
            final(self).func == old(self).func,
            final(self).classes == old(self).classes,
            final(self).error == old(self).error,
            final(self).class_version == old(self).class_version,
            final(self).stdout == old(self).stdout,
            final(self).extends(old(self)),
            r is Some ==> r == final(self).ident_of(name@),
            r is Some ==> (r->0).0 < final(self).idents@.len() && final(self).idents@[(r->0).0 as int]@ == name@,
            old(self).ident_of(name@) is Some ==> r == old(self).ident_of(name@) && final(self).idents == old(self).idents,
            old(self).ident_of(name@) is None ==> (r is Some <==> old(self).idents@.len() < u32::MAX),
            old(self).ident_of(name@) is None && r is Some ==> (r->0).0 == old(self).idents@.len() && final(self).idents@.take((r->0).0 as int) == old(self).idents@,
            r is Some <==> old(self).room_for(old(self).fresh(name@)),
            r is Some ==> final(self).idents@.len() == old(self).idents@.len() + old(self).fresh(name@),
            r is None ==> final(self).idents == old(self).idents,
            forall|i: int| 0 <= i < old(self).idents@.len() ==> final(self).idents@[i] == old(self).idents@[i],
    {
        let key = name.to_string();
        let mut i: usize = 0;
        while i < self.idents.len()
            invariant
                i <= self.idents.len(),
                self.idents == old(self).idents,
                self.func == old(self).func,
                self.classes == old(self).classes,
                self.error == old(self).error,
                self.class_version == old(self).class_version,
                self.stdout == old(self).stdout,
                self.wf(),
                key@ == name@,
                forall|j: int| 0 <= j < i ==> self.idents@[j]@ != name@,
            decreases self.idents.len() - i,
        {
            if self.idents[i] == key {
                proof {
                    self.lemma_ident_of(name@, i as int);
                }
                return Some(IdentId(i as u32));
            }
            i += 1;
        }
        proof {
            old(self).lemma_no_ident(name@);
        }
        if self.idents.len() >= u32::MAX as usize {
            return None;
        }
        let id = IdentId(self.idents.len() as u32);
        self.idents.push(key);
        assert(self.idents@.take(id.0 as int) =~= old(self).idents@);
        proof {
            self.lemma_ident_of(name@, id.0 as int);
        }
        Some(id)
    }

    /// The name of an identifier.
    pub fn get_name(&self, id: IdentId) -> (r: Option<&String>)
        ensures
            r is Some <==> id.0 < self.idents@.len(),
            r matches Some(s) ==> *s == self.idents@[id.0 as int],
    {
        if (id.0 as usize) < self.idents.len() {
            Some(&self.idents[id.0 as usize])
        } else {
            None
        }
    }

    /// Defines a class of the given name under the given superclass and
    /// returns its id; `None` where the superclass does not exist or the
    /// ids are used up.
    pub fn define_class_by_ident_id(&mut self, name: IdentId, super_class: Option<ClassId>) -> (r: Option<ClassId>)
        requires
            old(self).wf(),
        ensures
            final(self).wf(),
            final(self).func == old(self).func,
            final(self).idents == old(self).idents,
            final(self).error == old(self).error,
            r is Some <==> old(self).classes@.len() < u32::MAX && (super_class is Some ==> (super_class->0).0
                < old(self).classes@.len()),
            r is None ==> final(self).classes == old(self).classes,
            r matches Some(id) ==> {
                &&& id.0 == old(self).classes@.len()
                &&& final(self).classes@.len() == id.0 + 1
                &&& final(self).classes@.take(id.0 as int) == old(self).classes@
                &&& final(self).classes@[id.0 as int].name == Some(name)
                &&& final(self).classes@[id.0 as int].super_class == super_class
                &&& final(self).classes@[id.0 as int].methods@.len() == 0
                &&& final(self).classes@[id.0 as int].constants@.len() == 0
                &&& final(self).classes@[id.0 as int].singleton is None
            },
    {
        let n = self.classes.len();
        if n >= u32::MAX as usize {
            return None;
        }
        match super_class {
            Some(s) => {
                if s.0 as usize >= n {
                    return None;
                }
            },
            None => {},
        }
        self.classes.push(
            ClassInfo {
                name: Some(name),
                super_class,
                methods: Vec::new(),
                constants: Vec::new(),
                singleton: None,
            },
        );
        assert(self.classes@.take(n as int) =~= old(self).classes@);
        Some(ClassId(n as u32))
    }

    /// The superclass of a class.
    pub fn super_class(&self, class_id: ClassId) -> (r: Option<ClassId>)
        ensures
            r == if class_id.0 < self.classes@.len() {
                self.classes@[class_id.0 as int].super_class
            } else {
                None
            },
    {
        if (class_id.0 as usize) < self.classes.len() {
            self.classes[class_id.0 as usize].super_class
        } else {
            None
        }
    }

    /// The class of the given name that was defined first.
    pub fn get_class_by_name(&self, name: IdentId) -> (r: Option<ClassId>)
        requires
            self.wf(),
        ensures
            r matches Some(c) ==> c.0 < self.classes@.len() && self.classes@[c.0 as int].name == Some(name)
                && forall|j: int| 0 <= j < c.0 ==> (#[trigger] self.classes@[j]).name != Some(name),
            r is None ==> forall|j: int| 0 <= j < self.classes@.len() ==> (#[trigger] self.classes@[j]).name
                != Some(name),
    {
        let mut i: usize = 0;
        while i < self.classes.len()
            invariant
                i <= self.classes.len(),
                self.wf(),
                forall|j: int| 0 <= j < i ==> (#[trigger] self.classes@[j]).name != Some(name),
            decreases self.classes.len() - i,
        {
            match self.classes[i].name {
                Some(n) => {
                    if n.0 == name.0 {
                        return Some(ClassId(i as u32));
                    }
                },
                None => {},
            }
            i += 1;
        }
        None
    }

    /// Defines, or redefines, a method of a class.  An unknown class changes
    /// nothing.
    pub fn add_method(&mut self, class_id: ClassId, name: IdentId, func: FuncId)
        requires
            old(self).wf(),
        ensures
            final(self).wf(),
            final(self).func == old(self).func,
            final(self).idents == old(self).idents,
            final(self).error == old(self).error,
            final(self).class_version == old(self).class_version,
            final(self).classes@.len() == old(self).classes@.len(),
            class_id.0 >= old(self).classes@.len() ==> final(self).classes == old(self).classes,
            forall|c: int|
                0 <= c < old(self).classes@.len() ==> {
                    &&& (#[trigger] final(self).classes@[c]).name == old(self).classes@[c].name
                    &&& final(self).classes@[c].super_class == old(self).classes@[c].super_class
                    &&& final(self).classes@[c].singleton == old(self).classes@[c].singleton
                    &&& final(self).classes@[c].constants == old(self).classes@[c].constants
                    &&& final(self).classes@[c].methods@ == if c == class_id.0 {
                        assign(old(self).classes@[c].methods@, name, func)
                    } else {
                        old(self).classes@[c].methods@
                    }
                },
    {
        if (class_id.0 as usize) < self.classes.len() {
            table_set(&mut self.classes[class_id.0 as usize].methods, name, func);
        }
    }

    /// The method of the name that the class itself defines.
    pub fn get_method(&self, class_id: ClassId, name: IdentId) -> (r: Option<FuncId>)
        ensures
            r == if class_id.0 < self.classes@.len() {
                lookup(self.classes@[class_id.0 as int].methods@, name)
            } else {
                None
            },
    {
        if (class_id.0 as usize) < self.classes.len() {
            table_get(&self.classes[class_id.0 as usize].methods, name)
        } else {
            None
        }
    }

    /// The method of the name that an instance of the class answers to: the
    /// class's own, or else that of the nearest superclass that has one.
    pub fn find_method(&self, class_id: ClassId, name: IdentId) -> (r: Option<FuncId>)
        requires
            self.wf(),
        ensures
            r == self.method_of(class_id, name),
    {
        let mut cur = class_id;
        loop
            invariant
                self.wf(),
                find_method_spec(self.classes@, cur, name) == find_method_spec(self.classes@, class_id, name),
            decreases cur.0,
        {
            if cur.0 as usize >= self.classes.len() {
                return None;
            }
            if let Some(func_id) = self.get_method(cur, name) {
                return Some(func_id);
            }
            match self.classes[cur.0 as usize].super_class {
                Some(s) => {
                    cur = s;
                },
                None => {
                    return None;
                },
            }
        }
    }

    /// The method of the name that an instance of the class answers to, if
    /// it takes the given number of arguments.  Else the error is set.
    pub fn find_method_checked(&mut self, class_id: ClassId, func_name: IdentId, args_len: usize) -> (r: Option<
        FuncId,
    >)
        requires
            old(self).wf(),
        ensures
            final(self).wf(),
            final(self).func == old(self).func,
            final(self).classes == old(self).classes,
            final(self).idents == old(self).idents,
            final(self).class_version == old(self).class_version,
            final(self).no_jit == old(self).no_jit,
            final(self).warning == old(self).warning,
            final(self).stdout == old(self).stdout,
            match old(self).method_of(class_id, func_name) {
                None => r is None && final(self).error == Some(
                    MonorubyErr::MethodNotFound { name: func_name, class: class_id },
                ),
                Some(f) => match old(self).arity_error(f, args_len) {
                    Some(e) => r is None && final(self).error == Some(e),
                    None => r == Some(f) && final(self).error == old(self).error,
                },
            },
    {
        let func_id = match self.find_method(class_id, func_name) {
            Some(id) => id,
            None => {
                self.error = Some(MonorubyErr::MethodNotFound { name: func_name, class: class_id });
                return None;
            },
        };
        match self.check_arg(func_id, args_len) {
            Some(_) => Some(func_id),
            None => None,
        }
    }

    /// The error that a call of the function with the given number of
    /// arguments is: none where the function takes any number or just this
    /// one, and none for an unknown function.
    pub open spec fn arity_error(&self, func_id: FuncId, args_len: usize) -> Option<MonorubyErr> {
        if func_id.0 < self.func.functions@.len() {
            let arity = self.func.functions@[func_id.0 as int].arity;
            if arity != -1 && arity != args_len {
                Some(MonorubyErr::WrongArguments { expected: arity as usize, given: args_len })
            } else {
                None
            }
        } else {
            None
        }
    }

    /// Checks the number of arguments of a call against the function's
    /// arity, and sets the error where they differ.
    pub fn check_arg(&mut self, func_id: FuncId, args_len: usize) -> (r: Option<()>)
        ensures
            final(self).func == old(self).func,
            final(self).classes == old(self).classes,
            final(self).idents == old(self).idents,
            final(self).class_version == old(self).class_version,
            final(self).no_jit == old(self).no_jit,
            final(self).warning == old(self).warning,
            final(self).stdout == old(self).stdout,
            match old(self).arity_error(func_id, args_len) {
                Some(e) => r is None && final(self).error == Some(e),
                None => r is Some && final(self).error == old(self).error,
            },
    {
        let arity = match self.func.get(func_id) {
            Some(info) => info.arity(),
            None => {
                return Some(());
            },
        };
        if arity != -1 && !(arity >= 0 && arity as usize == args_len) {
            self.error = Some(MonorubyErr::wrong_arguments(arity as usize, args_len));
            return None;
        }
        Some(())
    }

    /// The function that `add_builtin_func` adds.
    pub open spec fn builtin_info(name: IdentId, address: u64, arity: i32, id: FuncId) -> crate::funcs::FuncInfo {
        crate::funcs::FuncInfo {
            name: Some(name),
            arity,
            data: FuncData {
                codeptr: None,
                meta: crate::frame::Meta(crate::frame::Meta::pack(crate::frame::CallKind::Vm, 0, id)),
                pc: BcPc(0),
            },
            kind: FuncKind::Builtin { abs_address: address },
            inline: None,
        }
    }

    /// Adds a native function at the given address as a method of a class.
    ///
    /// Returns the function's id; `None` where the identifiers of names or
    /// of functions are used up: then no function is added and no class is
    /// changed.  An unknown class gets no method.
    pub fn define_builtin_func(&mut self, class_id: ClassId, name: &str, address: u64, arity: i32) -> (r: Option<
        FuncId,
    >)
        requires
            old(self).wf(),
        ensures
            final(self).wf(),
            final(self).extends(old(self)),
            final(self).classes@.len() == old(self).classes@.len(),
            final(self).class_version == old(self).class_version,
            final(self).error == old(self).error,
            r is Some <==> old(self).room_for(old(self).fresh(name@)) && old(self).func.functions@.len()
                <= u32::MAX,
            r is None ==> final(self).func.functions@ == old(self).func.functions@ && final(self).classes
                == old(self).classes,
            r is None && !old(self).room_for(old(self).fresh(name@)) ==> final(self).idents == old(self).idents,
            r matches Some(f) ==> {
                let id = final(self).ident_of(name@)->0;
                &&& final(self).idents@.len() == old(self).idents@.len() + old(self).fresh(name@)
                &&& id.0 < final(self).idents@.len() && final(self).idents@[id.0 as int]@ == name@
                &&& final(self).ident_of(name@) is Some
                &&& final(self).ident_of(name@) == if old(self).ident_of(name@) is Some {
                    old(self).ident_of(name@)
                } else {
                    Some(IdentId(old(self).idents@.len() as u32))
                }
                &&& f.0 == old(self).func.functions@.len()
                &&& final(self).func.functions@ == old(self).func.functions@.push(
                    Self::builtin_info(id, address, arity, f),
                )
                &&& forall|c: int|
                    0 <= c < old(self).classes@.len() ==> {
                        &&& (#[trigger] final(self).classes@[c]).name == old(self).classes@[c].name
                        &&& final(self).classes@[c].super_class == old(self).classes@[c].super_class
                        &&& final(self).classes@[c].singleton == old(self).classes@[c].singleton
                        &&& final(self).classes@[c].constants == old(self).classes@[c].constants
                        &&& final(self).classes@[c].methods@ == if c == class_id.0 {
                            assign(old(self).classes@[c].methods@, id, f)
                        } else {
                            old(self).classes@[c].methods@
                        }
                    }
            },
    {
        let name_id = match self.get_ident_id(name) {
            Some(id) => id,
            None => {
                return None;
            },
        };
        let ghost g1 = *self;
        let func_id = match self.func.add_builtin_func(name_id, address, arity) {
            Some(id) => id,
            None => {
                return None;
            },
        };
        self.add_method(class_id, name_id, func_id);
        proof {
            self.lemma_same_idents(&g1, name@);
        }
        Some(func_id)
    }

    /// The identifier of the name of the instance variable that an
    /// attribute of the given name reads and writes: the name with `@`
    /// before it.
    pub fn add_ivar_prefix(&mut self, id: IdentId) -> (r: Option<IdentId>)
        requires
            old(self).wf(),
            id.0 < old(self).idents@.len(),
        ensures
            final(self).wf(),
            final(self).extends(old(self)),
            final(self).func == old(self).func,
            final(self).classes == old(self).classes,
            final(self).error == old(self).error,
            final(self).class_version == old(self).class_version,
            r is Some ==> r == final(self).ident_of(seq!['@'] + old(self).idents@[id.0 as int]@),
            r is Some ==> (r->0).0 < final(self).idents@.len() && final(self).idents@[(r->0).0 as int]@
                == seq!['@'] + old(self).idents@[id.0 as int]@,
            r is None ==> old(self).idents@.len() == u32::MAX,
            r is Some <==> old(self).room_for(old(self).fresh(seq!['@'] + old(self).idents@[id.0 as int]@)),
            r is Some ==> final(self).idents@.len() == old(self).idents@.len() + old(self).fresh(
                seq!['@'] + old(self).idents@[id.0 as int]@,
            ),
            r is Some && old(self).fresh(seq!['@'] + old(self).idents@[id.0 as int]@) == 1 ==> (r->0).0 == old(
                self,
            ).idents@.len(),
            r is None ==> final(self).idents == old(self).idents,
    {
        proof {
            reveal_strlit("@");
        }
        let mut name = String::from_str("@");
        name.append(self.idents[id.0 as usize].as_str());
        assert(name@ =~= seq!['@'] + old(self).idents@[id.0 as int]@);
        self.get_ident_id(name.as_str())
    }

    /// The identifier of the name of the method that writes an attribute of
    /// the given name: the name with `=` after it.
    pub fn add_assign_postfix(&mut self, id: IdentId) -> (r: Option<IdentId>)
        requires
            old(self).wf(),
            id.0 < old(self).idents@.len(),
        ensures
            final(self).wf(),
            final(self).extends(old(self)),
            final(self).func == old(self).func,
            final(self).classes == old(self).classes,
            final(self).error == old(self).error,
            final(self).class_version == old(self).class_version,
            r is Some ==> r == final(self).ident_of(old(self).idents@[id.0 as int]@ + seq!['=']),
            r is Some ==> (r->0).0 < final(self).idents@.len() && final(self).idents@[(r->0).0 as int]@
                == old(self).idents@[id.0 as int]@ + seq!['='],
            r is None ==> old(self).idents@.len() == u32::MAX,
            r is Some <==> old(self).room_for(old(self).fresh(old(self).idents@[id.0 as int]@ + seq!['='])),
            r is Some ==> final(self).idents@.len() == old(self).idents@.len() + old(self).fresh(
                old(self).idents@[id.0 as int]@ + seq!['='],
            ),
            r is None ==> final(self).idents == old(self).idents,
    {
        proof {
            reveal_strlit("=");
        }
        let mut name = self.idents[id.0 as usize].clone();
        name.append("=");
        assert(name@ =~= old(self).idents@[id.0 as int]@ + seq!['=']);
        self.get_ident_id(name.as_str())
    }

    /// Define attribute reader for *class_id* and *ivar_name*.
    ///
    /// The method has the name of the attribute and reads the instance
    /// variable of that name with `@` before it.  The class version is
    /// bumped.  Returns the name of the method; `None` where the
    /// identifiers of names or of functions are used up: then no function is
    /// added and no class is changed.
    pub fn define_attr_reader(&mut self, class_id: ClassId, method_name: IdentId) -> (r: Option<IdentId>)
        requires
            old(self).wf(),
            method_name.0 < old(self).idents@.len(),
        ensures
            final(self).wf(),
            final(self).extends(old(self)),
            final(self).classes@.len() == old(self).classes@.len(),
            r is Some <==> old(self).room_for(old(self).fresh(seq!['@'] + old(self).idents@[method_name.0 as int]@))
                && old(self).func.functions@.len() <= u32::MAX,
            r is None ==> final(self).func.functions@ == old(self).func.functions@ && final(self).classes
                == old(self).classes,
            r is Some ==> {
                let text = old(self).idents@[method_name.0 as int]@;
                let f = FuncId(old(self).func.functions@.len() as u32);
                &&& r == Some(method_name)
                &&& final(self).class_version == crate::cache::bump(old(self).class_version)
                &&& final(self).func.functions@.len() == old(self).func.functions@.len() + 1
                &&& final(self).func.functions@.take(f.0 as int) == old(self).func.functions@
                &&& final(self).func.functions@[f.0 as int].kind matches FuncKind::AttrReader { ivar_name }
                    && ivar_name.0 < final(self).idents@.len() && final(self).idents@[ivar_name.0 as int]@
                    == seq!['@'] + text
                &&& final(self).func.functions@[f.0 as int].arity == 0
                &&& class_id.0 < old(self).classes@.len() ==> final(self).classes@[class_id.0 as int].methods@
                    == assign(old(self).classes@[class_id.0 as int].methods@, method_name, f)
            },
            r is None ==> final(self).class_version == old(self).class_version,
    {
        let ivar_name = match self.add_ivar_prefix(method_name) {
            Some(id) => id,
            None => {
                return None;
            },
        };
        let func_id = match self.func.add_attr_reader(method_name, ivar_name) {
            Some(id) => id,
            None => {
                return None;
            },
        };
        self.add_method(class_id, method_name, func_id);
        self.class_version_inc();
        Some(method_name)
    }

    /// Define attribute writer for *class_id* and *ivar_name*.
    ///
    /// The method has the name of the attribute with `=` after it, takes
    /// one argument, and writes the instance variable of the attribute's
    /// name with `@` before it.  The class version is bumped.  Returns the
    /// name of the method; `None` where the identifiers of names or of
    /// functions are used up: then no function is added and no class is
    /// changed.
    pub fn define_attr_writer(&mut self, class_id: ClassId, method_name: IdentId) -> (r: Option<IdentId>)
        requires
            old(self).wf(),
            method_name.0 < old(self).idents@.len(),
        ensures
            final(self).wf(),
            final(self).extends(old(self)),
            final(self).classes@.len() == old(self).classes@.len(),
            r is Some <==> old(self).room_for(
                old(self).fresh(seq!['@'] + old(self).idents@[method_name.0 as int]@) + old(self).fresh(
                    old(self).idents@[method_name.0 as int]@ + seq!['='],
                ),
            ) && old(self).func.functions@.len() <= u32::MAX,
            r is None ==> final(self).func.functions@ == old(self).func.functions@ && final(self).classes
                == old(self).classes,
            r is Some ==> {
                let text = old(self).idents@[method_name.0 as int]@;
                let f = FuncId(old(self).func.functions@.len() as u32);
                &&& (r->0).0 < final(self).idents@.len() && final(self).idents@[(r->0).0 as int]@ == text + seq!['=']
                &&& final(self).class_version == crate::cache::bump(old(self).class_version)
                &&& final(self).func.functions@.len() == old(self).func.functions@.len() + 1
                &&& final(self).func.functions@.take(f.0 as int) == old(self).func.functions@
                &&& final(self).func.functions@[f.0 as int].kind matches FuncKind::AttrWriter { ivar_name }
                    && ivar_name.0 < final(self).idents@.len() && final(self).idents@[ivar_name.0 as int]@
                    == seq!['@'] + text
                &&& final(self).func.functions@[f.0 as int].arity == 1
                &&& class_id.0 < old(self).classes@.len() ==> final(self).classes@[class_id.0 as int].methods@
                    == assign(old(self).classes@[class_id.0 as int].methods@, r->0, f)
            },
            r is None ==> final(self).class_version == old(self).class_version,
    {
        let ivar_name = match self.add_ivar_prefix(method_name) {
            Some(id) => id,
            None => {
                return None;
            },
        };
        let ghost g1 = *self;
        proof {
            let text = old(self).idents@[method_name.0 as int]@;
            lemma_prefix_is_no_postfix(text);
            g1.lemma_other_name(old(self), seq!['@'] + text, text + seq!['=']);
        }
        let writer = match self.add_assign_postfix(method_name) {
            Some(id) => id,
            None => {
                return None;
            },
        };
        let func_id = match self.func.add_attr_writer(writer, ivar_name) {
            Some(id) => id,
            None => {
                return None;
            },
        };
        self.add_method(class_id, writer, func_id);
        self.class_version_inc();
        Some(writer)
    }

    /// The class is known, and the class of the class object itself exists
    /// or can be made.
    pub open spec fn has_singleton_room(&self, class_id: ClassId) -> bool {
        class_id.0 < self.classes@.len() && (self.classes@[class_id.0 as int].singleton is Some
            || self.classes@.len() < u32::MAX)
    }

    /// The class of the class object itself, which is made where the class
    /// has none yet.  `None` for an unknown class, and where the ids are
    /// used up.
    pub fn get_singleton_id(&mut self, class_id: ClassId) -> (r: Option<ClassId>)
        requires
            old(self).wf(),
            CLASS_CLASS < old(self).classes@.len(),
        ensures
            final(self).wf(),
            final(self).func == old(self).func,
            final(self).idents == old(self).idents,
            final(self).error == old(self).error,
            final(self).class_version == old(self).class_version,
            old(self).classes@.len() <= final(self).classes@.len(),
            r matches Some(s) ==> s.0 < final(self).classes@.len() && class_id.0 < old(self).classes@.len()
                && final(self).classes@[class_id.0 as int].singleton == Some(s),
            class_id.0 < old(self).classes@.len() && old(self).classes@[class_id.0 as int].singleton is Some
                ==> r == old(self).classes@[class_id.0 as int].singleton && final(self).classes == old(self).classes,
            r is Some <==> old(self).has_singleton_room(class_id),
            r is None ==> final(self).classes == old(self).classes,
    {
        if class_id.0 as usize >= self.classes.len() {
            return None;
        }
        match self.classes[class_id.0 as usize].singleton {
            Some(s) => {
                if (s.0 as usize) < self.classes.len() {
                    Some(s)
                } else {
                    None
                }
            },
            None => {
                let n = self.classes.len();
                if n >= u32::MAX as usize {
                    return None;
                }
                let name = self.classes[class_id.0 as usize].name;
                self.classes.push(
                    ClassInfo {
                        name,
                        super_class: Some(ClassId(CLASS_CLASS)),
                        methods: Vec::new(),
                        constants: Vec::new(),
                        singleton: None,
                    },
                );
                self.classes[class_id.0 as usize].singleton = Some(ClassId(n as u32));
                Some(ClassId(n as u32))
            },
        }
    }

    /// Adds a native function as a method of the class object itself.
    ///
    /// Returns the function's id; `None` for an unknown class, and where the
    /// identifiers of classes, of names or of functions are used up: then no
    /// function is added.
    pub fn define_builtin_singleton_func(&mut self, class_id: ClassId, name: &str, address: u64, arity: i32) -> (r:
        Option<FuncId>)
        requires
            old(self).wf(),
            CLASS_CLASS < old(self).classes@.len(),
        ensures
            final(self).wf(),
            final(self).extends(old(self)),
            final(self).class_version == old(self).class_version,
            r is Some <==> old(self).has_singleton_room(class_id) && old(self).room_for(old(self).fresh(name@))
                && old(self).func.functions@.len() <= u32::MAX,
            r is None ==> final(self).func.functions@ == old(self).func.functions@,
            r is None && !old(self).has_singleton_room(class_id) ==> final(self).classes == old(self).classes
                && final(self).idents == old(self).idents,
            r matches Some(f) ==> {
                &&& f.0 == old(self).func.functions@.len()
                &&& final(self).func.functions@ == old(self).func.functions@.push(
                    Self::builtin_info(final(self).ident_of(name@)->0, address, arity, f),
                )
                &&& class_id.0 < final(self).classes@.len()
                &&& final(self).classes@[class_id.0 as int].singleton is Some
                &&& lookup(
                    final(self).classes@[(final(self).classes@[class_id.0 as int].singleton->0).0 as int].methods@,
                    final(self).ident_of(name@)->0,
                ) == Some(f)
            },
    {
        let class_id = match self.get_singleton_id(class_id) {
            Some(c) => c,
            None => {
                return None;
            },
        };
        let ghost g1 = *self;
        proof {
            g1.lemma_same_idents(old(self), name@);
        }
        let r = self.define_builtin_func(class_id, name, address, arity);
        proof {
            if r is Some {
                lemma_assign(
                    g1.classes@[class_id.0 as int].methods@,
                    self.ident_of(name@)->0,
                    r->0,
                    self.ident_of(name@)->0,
                );
            }
        }
        r
    }

    /// Bumps the global class version.  Every inline cache that was filled
    /// before is stale afterwards.
    pub fn class_version_inc(&mut self)
        ensures
            final(self).class_version == if old(self).class_version == u32::MAX {
                0
            } else {
                (old(self).class_version + 1) as u32
            },
            final(self).func == old(self).func,
            final(self).classes == old(self).classes,
            final(self).idents == old(self).idents,
            final(self).error == old(self).error,
    {
        self.class_version = if self.class_version == u32::MAX {
            0
        } else {
            self.class_version + 1
        };
    }

    /// Sets a constant of a class.  An unknown class changes nothing.
    pub fn set_constant(&mut self, class_id: ClassId, name: IdentId, val: Value)
        ensures
            final(self).func == old(self).func,
            final(self).idents == old(self).idents,
            final(self).error == old(self).error,
            final(self).classes@.len() == old(self).classes@.len(),
            class_id.0 < old(self).classes@.len() ==> final(self).classes@[class_id.0 as int].constants@
                == assign(old(self).classes@[class_id.0 as int].constants@, name, val),
    {
        if (class_id.0 as usize) < self.classes.len() {
            table_set(&mut self.classes[class_id.0 as usize].constants, name, val);
        }
    }

    /// The constant of the name that the class holds.
    pub fn get_constant(&self, class_id: ClassId, name: IdentId) -> (r: Option<Value>)
        ensures
            r == if class_id.0 < self.classes@.len() {
                lookup(self.classes@[class_id.0 as int].constants@, name)
            } else {
                None
            },
    {
        if (class_id.0 as usize) < self.classes.len() {
            table_get(&self.classes[class_id.0 as usize].constants, name)
        } else {
            None
        }
    }

    /// The names of the constants that the class holds, in the order in
    /// which they were first set.
    pub fn get_constant_names(&self, class_id: ClassId) -> (names: Vec<IdentId>)
        ensures
            names@ == if class_id.0 < self.classes@.len() {
                self.classes@[class_id.0 as int].constants@.map_values(|e: (IdentId, Value)| e.0)
            } else {
                Seq::<IdentId>::empty()
            },
    {
        let mut names: Vec<IdentId> = Vec::new();
        if (class_id.0 as usize) < self.classes.len() {
            let table = &self.classes[class_id.0 as usize].constants;
            let mut i: usize = 0;
            while i < table.len()
                invariant
                    i <= table.len(),
                    names@ == table@.take(i as int).map_values(|e: (IdentId, Value)| e.0),
                decreases table.len() - i,
            {
                names.push(table[i].0);
                assert(table@.take(i + 1).map_values(|e: (IdentId, Value)| e.0) =~= table@.take(
                    i as int,
                ).map_values(|e: (IdentId, Value)| e.0).push(table@[i as int].0));
                i += 1;
            }
            assert(table@.take(table.len() as int) =~= table@);
        }
        names
    }
}

} // verus!
