//! The methods of the class `Class`, and the definition of classes and
//! attribute accessors.

use vstd::prelude::*;
use crate::funcs::FuncKind;
use crate::globals::{lookup, Globals, MonorubyErr};
use crate::ids::{ClassId, FuncId, IdentId, CLASS_CLASS, OBJECT_CLASS};

verus! {

/// The addresses of the native functions that implement the methods of
/// `Class`.
#[derive(Clone, Copy, Debug, PartialEq, Eq, Structural)]
pub struct ClassBuiltins {
    pub superclass: u64,
    pub tos: u64,
    pub constants: u64,
}

/// Defines the methods `superclass`, `to_s` and `constants` of the class
/// `Class`, none of which takes an argument.  Returns their ids; `None`
/// where the identifiers of names or of functions are used up before all
/// three are defined.
pub fn init(globals: &mut Globals, addrs: ClassBuiltins) -> (ids: Option<(FuncId, FuncId, FuncId)>)
    requires
        old(globals).wf(),
        CLASS_CLASS < old(globals).classes@.len(),
    ensures
        final(globals).wf(),
        final(globals).extends(old(globals)),
        final(globals).classes@.len() == old(globals).classes@.len(),
        final(globals).class_version == old(globals).class_version,
        ids is Some <==> old(globals).room_for(
            old(globals).fresh("superclass"@) + old(globals).fresh("to_s"@) + old(globals).fresh("constants"@),
        ) && old(globals).func.functions@.len() + 2 <= u32::MAX,
        old(globals).func.functions@.is_prefix_of(final(globals).func.functions@),
        ids is None ==> final(globals).func.functions@.len() <= old(globals).func.functions@.len() + 2,
        ids matches Some(f) ==> {
            let n = old(globals).func.functions@.len();
            let a = final(globals).ident_of("superclass"@)->0;
            let b = final(globals).ident_of("to_s"@)->0;
            let c = final(globals).ident_of("constants"@)->0;
            &&& f.0.0 == n && f.1.0 == n + 1 && f.2.0 == n + 2
            &&& final(globals).func.functions@ == old(globals).func.functions@.push(
                Globals::builtin_info(a, addrs.superclass, 0, f.0),
            ).push(Globals::builtin_info(b, addrs.tos, 0, f.1)).push(
                Globals::builtin_info(c, addrs.constants, 0, f.2),
            )
            &&& final(globals).classes@[CLASS_CLASS as int].methods@ == crate::globals::assign(
                crate::globals::assign(
                    crate::globals::assign(old(globals).classes@[CLASS_CLASS as int].methods@, a, f.0),
                    b,
                    f.1,
                ),
                c,
                f.2,
            )
        },
{
    proof {
        reveal_strlit("superclass");
        reveal_strlit("to_s");
        reveal_strlit("constants");
        assert("superclass"@.len() == 10 && "to_s"@.len() == 4 && "constants"@.len() == 9);
    }
    let a = match globals.define_builtin_func(ClassId(CLASS_CLASS), "superclass", addrs.superclass, 0) {
        Some(f) => f,
        None => {
            return None;
        },
    };
    let ghost g1 = *globals;
    proof {
        g1.lemma_other_name(old(globals), "superclass"@, "to_s"@);
        g1.lemma_other_name(old(globals), "superclass"@, "constants"@);
    }
    let b = match globals.define_builtin_func(ClassId(CLASS_CLASS), "to_s", addrs.tos, 0) {
        Some(f) => f,
        None => {
            return None;
        },
    };
    let ghost g2 = *globals;
    proof {
        g2.lemma_other_name(&g1, "to_s"@, "constants"@);
    }
    let c = match globals.define_builtin_func(ClassId(CLASS_CLASS), "constants", addrs.constants, 0) {
        Some(f) => f,
        None => {
            return None;
        },
    };
    proof {
        let g3 = *globals;
        g2.lemma_extends(&g1, "superclass"@);
        g3.lemma_extends(&g2, "superclass"@);
        g3.lemma_extends(&g2, "to_s"@);
    }
    Some((a, b, c))
}

/// ### Class#superclass
/// - superclass -> Class | nil
///
/// The superclass of a class; `None`, which stands for `nil`, where it has
/// none.
pub fn superclass(globals: &Globals, class_id: ClassId) -> (res: Option<ClassId>)
    ensures
        res == if class_id.0 < globals.classes@.len() {
            globals.classes@[class_id.0 as int].super_class
        } else {
            None
        },
{
    globals.super_class(class_id)
}

/// ### Class#to_s
/// - to_s -> String
///
/// The name of a class; `None` for a class without a name.
pub fn tos(globals: &Globals, class_id: ClassId) -> (res: Option<String>)
    ensures
        res is Some <==> class_id.0 < globals.classes@.len() && globals.classes@[class_id.0 as int].name
            is Some && (globals.classes@[class_id.0 as int].name->0).0 < globals.idents@.len(),
        res is Some ==> res->0@ == globals.idents@[(globals.classes@[class_id.0 as int].name->0).0 as int]@,
{
    if (class_id.0 as usize) < globals.classes.len() {
        match globals.classes[class_id.0 as usize].name {
            Some(name) => match globals.get_name(name) {
                Some(s) => Some(s.clone()),
                None => None,
            },
            None => None,
        }
    } else {
        None
    }
}

/// ### Module#constants
/// - constants -> [Symbol]
///
/// The names of the constants of a class.
pub fn constants(globals: &Globals, class_id: ClassId) -> (res: Vec<IdentId>)
    ensures
        res@ == if class_id.0 < globals.classes@.len() {
            globals.classes@[class_id.0 as int].constants@.map_values(|e: (IdentId, crate::value::Value)| e.0)
        } else {
            Seq::<IdentId>::empty()
        },
{
    globals.get_constant_names(class_id)
}

} // verus!
