//! Laws of the walk of binding targets and patterns.

use vstd::prelude::*;
use crate::laws::types::{law_opt_type_walk_calls, law_type_walk_calls, law_types_walk_calls};
use crate::model::{
    field_bindings_height, lvalue_height, FieldBindingView, LValueListView, LValueView, LValueView_,
};
use crate::trace::{
    lemma_pattern_events_concat, lemma_type_events_are_pattern_events, pattern_events_only,
};
use crate::visitor::Visitor;
use crate::walk::{
    walk_field_binding, walk_field_bindings, walk_lvalue, walk_lvalue_list, walk_lvalues, walk_type,
    walk_types,
};

verus! {

/// The walk of a binding target in declaring position calls `var_decl`
/// and never `var_use`; in assigning position it calls `var_use` and never
/// `var_decl`. Besides that it walks types and calls no other hook.
pub proof fn law_lvalue_walk_calls<V: Visitor>(s: V::V, lv: LValueView, declared: bool)
    ensures
        pattern_events_only(walk_lvalue::<V>(s, lv, declared).trace, declared),
    decreases lvalue_height(lv), 0nat, 0nat,
{
    reveal(walk_lvalue);
    reveal(walk_field_binding);
    reveal(walk_field_bindings);
    match lv.value {
        LValueView_::Ignore => {},
        LValueView_::Var(var, ty) => {
            law_opt_type_walk_calls::<V>(s, ty);
        },
        LValueView_::Unpack(_, _, tys, fields) => {
            law_types_walk_calls::<V>(s, tys);
            law_field_bindings_walk_calls::<V>(walk_types::<V>(s, tys).state, fields, declared);
        },
        LValueView_::BorrowUnpack(_, _, _, tys, fields) => {
            law_types_walk_calls::<V>(s, tys);
            law_field_bindings_walk_calls::<V>(walk_types::<V>(s, tys).state, fields, declared);
        },
    }
}

/// The same of the walk of the fields of a destructuring target.
pub proof fn law_field_bindings_walk_calls<V: Visitor>(
    s: V::V,
    fs: Seq<FieldBindingView>,
    declared: bool,
)
    ensures
        pattern_events_only(walk_field_bindings::<V>(s, fs, declared).trace, declared),
    decreases field_bindings_height(fs), 2nat, fs.len(),
{
    reveal(walk_lvalue);
    reveal(walk_field_binding);
    reveal(walk_field_bindings);
    if fs.len() > 0 {
        law_field_bindings_walk_calls::<V>(s, fs.drop_last(), declared);
        let w = walk_field_bindings::<V>(s, fs.drop_last(), declared);
        let f = fs.last();
        let a = walk_type::<V>(w.state, f.ty);
        let b = walk_lvalue::<V>(a.state, f.target, declared);
        law_type_walk_calls::<V>(w.state, f.ty);
        law_lvalue_walk_calls::<V>(a.state, f.target, declared);
        lemma_type_events_are_pattern_events(a.trace, declared);
        lemma_pattern_events_concat(a.trace, b.trace, declared);
        lemma_pattern_events_concat(w.trace, a.trace + b.trace, declared);
        assert(walk_field_binding::<V>(w.state, f, declared).trace == a.trace + b.trace);
        assert(walk_field_bindings::<V>(s, fs, declared).trace == w.trace + (a.trace + b.trace));
    }
}

/// The same of the walk of a list of binding targets.
pub proof fn law_lvalues_walk_calls<V: Visitor>(s: V::V, lvs: Seq<LValueView>, declared: bool)
    ensures
        pattern_events_only(walk_lvalues::<V>(s, lvs, declared).trace, declared),
    decreases lvs.len(),
{
    reveal(walk_lvalues);
    if lvs.len() > 0 {
        law_lvalues_walk_calls::<V>(s, lvs.drop_last(), declared);
        law_lvalue_walk_calls::<V>(
            walk_lvalues::<V>(s, lvs.drop_last(), declared).state,
            lvs.last(),
            declared,
        );
    }
}

/// The walk of a pattern in declaring position calls `var_decl` and never
/// `var_use`; in assigning position it calls `var_use` and never
/// `var_decl`. It opens and closes no scope.
pub proof fn law_pattern_walk_calls<V: Visitor>(s: V::V, l: LValueListView, declared: bool)
    ensures
        pattern_events_only(walk_lvalue_list::<V>(s, l, declared).trace, declared),
{
    law_lvalues_walk_calls::<V>(s, l.value, declared);
}

} // verus!
