//! Visitors that only look: a walk with one changes nothing, and calls
//! the same hooks on the same nodes whatever state the visitor is in, so
//! a second walk repeats the first.

use vstd::prelude::*;
use crate::ast::Var;
use crate::laws::unchanged::looks_only;
use crate::model::{
    exp_height, field_bindings_height, field_inits_height, list_item_height, list_items_height,
    lvalue_height, sequence_height, statement_height, type_height, types_height, unannotated_height,
    ExpListItemView, ExpView, FieldBindingView, FieldInitView, FunctionBodyView, FunctionView,
    LValueListView, LValueView, LValueView_, SequenceItemView, SequenceItemView_, TypeView,
    TypeView_, UnannotatedExpView,
};
use crate::visitor::{Visitor, VisitorContinuation};
use crate::walk::{
    walk_exp, walk_field_binding, walk_field_bindings, walk_field_init, walk_field_inits,
    walk_function, walk_list_item, walk_list_items, walk_lvalue, walk_lvalue_list, walk_lvalues,
    walk_opt_type, walk_opt_types, walk_parameter, walk_parameters, walk_sequence, walk_statement,
    walk_statements, walk_type, walk_types, walk_unannotated, walk_var_use,
};

verus! {

/// Whether a visitor only looks: whatever state it is in, it changes no
/// node, and its node hooks ask to descend.
pub open spec fn observes<V: Visitor>() -> bool {
    &&& looks_only::<V>()
    &&& forall|s: V::V, e: ExpView|
        (#[trigger] V::on_exp(s, e)).signal == VisitorContinuation::Descend
    &&& forall|s: V::V, t: TypeView|
        (#[trigger] V::on_type(s, t)).signal == VisitorContinuation::Descend
}

// In each lemma below the walk is that of a visitor that only looks.

/// The walk of a type with a visitor that only looks leaves it as it was,
/// and makes the same calls from any state.
pub proof fn lemma_observed_type<V: Visitor>(s1: V::V, s2: V::V, t: TypeView)
    requires
        observes::<V>(),
    ensures
        walk_type::<V>(s1, t).node == t,
        walk_type::<V>(s1, t).trace == walk_type::<V>(s2, t).trace,
    decreases type_height(t), 0nat, 0nat,
{
    reveal(walk_type);
    reveal(walk_types);
    let h1 = V::on_type(s1, t);
    let h2 = V::on_type(s2, t);
    match t.value {
        TypeView_::Ref(_, inner) => {
            lemma_observed_type::<V>(h1.state, h2.state, *inner);
        },
        TypeView_::Apply(_, _, args) => {
            lemma_observed_types::<V>(h1.state, h2.state, args);
            lemma_observed_types::<V>(h2.state, h1.state, args);
        },
        _ => {},
    }
}

/// The walk of a list of types with a visitor that only looks leaves it as
/// it was, and makes the same calls from any state.
pub proof fn lemma_observed_types<V: Visitor>(s1: V::V, s2: V::V, ts: Seq<TypeView>)
    requires
        observes::<V>(),
    ensures
        walk_types::<V>(s1, ts).node == ts,
        walk_types::<V>(s1, ts).trace == walk_types::<V>(s2, ts).trace,
    decreases types_height(ts), 1nat, ts.len(),
{
    reveal(walk_type);
    reveal(walk_types);
    if ts.len() > 0 {
        let w1 = walk_types::<V>(s1, ts.drop_last());
        let w2 = walk_types::<V>(s2, ts.drop_last());
        lemma_observed_types::<V>(s1, s2, ts.drop_last());
        lemma_observed_type::<V>(w1.state, w2.state, ts.last());
        assert(ts.drop_last().push(ts.last()) =~= ts);
    }
}

/// The walk of a type that may be absent with a visitor that only looks
/// leaves it as it was, and makes the same calls from any state.
pub proof fn lemma_observed_opt_type<V: Visitor>(s1: V::V, s2: V::V, t: Option<TypeView>)
    requires
        observes::<V>(),
    ensures
        walk_opt_type::<V>(s1, t).node == t,
        walk_opt_type::<V>(s1, t).trace == walk_opt_type::<V>(s2, t).trace,
{
    match t {
        Some(t) => lemma_observed_type::<V>(s1, s2, t),
        None => {},
    }
}

/// The walk of the types present in a list with a visitor that only looks
/// leaves it as it was, and makes the same calls from any state.
pub proof fn lemma_observed_opt_types<V: Visitor>(s1: V::V, s2: V::V, ts: Seq<Option<TypeView>>)
    requires
        observes::<V>(),
    ensures
        walk_opt_types::<V>(s1, ts).node == ts,
        walk_opt_types::<V>(s1, ts).trace == walk_opt_types::<V>(s2, ts).trace,
    decreases ts.len(),
{
    reveal(walk_opt_types);
    if ts.len() > 0 {
        let w1 = walk_opt_types::<V>(s1, ts.drop_last());
        let w2 = walk_opt_types::<V>(s2, ts.drop_last());
        lemma_observed_opt_types::<V>(s1, s2, ts.drop_last());
        lemma_observed_opt_type::<V>(w1.state, w2.state, ts.last());
        assert(ts.drop_last().push(ts.last()) =~= ts);
    }
}

/// The walk of a binding target with a visitor that only looks leaves it as
/// it was, and makes the same calls from any state.
pub proof fn lemma_observed_lvalue<V: Visitor>(s1: V::V, s2: V::V, lv: LValueView, declared: bool)
    requires
        observes::<V>(),
    ensures
        walk_lvalue::<V>(s1, lv, declared).node == lv,
        walk_lvalue::<V>(s1, lv, declared).trace == walk_lvalue::<V>(s2, lv, declared).trace,
    decreases lvalue_height(lv), 0nat, 0nat,
{
    reveal(walk_lvalue);
    reveal(walk_field_binding);
    reveal(walk_field_bindings);
    match lv.value {
        LValueView_::Ignore => {},
        LValueView_::Var(_, ty) => {
            lemma_observed_opt_type::<V>(s1, s2, ty);
        },
        LValueView_::Unpack(_, _, tys, fields) => {
            lemma_observed_types::<V>(s1, s2, tys);
            lemma_observed_field_bindings::<V>(
                walk_types::<V>(s1, tys).state,
                walk_types::<V>(s2, tys).state,
                fields,
                declared,
            );
        },
        LValueView_::BorrowUnpack(_, _, _, tys, fields) => {
            lemma_observed_types::<V>(s1, s2, tys);
            lemma_observed_field_bindings::<V>(
                walk_types::<V>(s1, tys).state,
                walk_types::<V>(s2, tys).state,
                fields,
                declared,
            );
        },
    }
}

/// The walk of the fields of a destructuring target with a visitor that
/// only looks leaves it as it was, and makes the same calls from any state.
pub proof fn lemma_observed_field_bindings<V: Visitor>(
    s1: V::V,
    s2: V::V,
    fs: Seq<FieldBindingView>,
    declared: bool,
)
    requires
        observes::<V>(),
    ensures
        walk_field_bindings::<V>(s1, fs, declared).node == fs,
        walk_field_bindings::<V>(s1, fs, declared).trace == walk_field_bindings::<V>(
            s2,
            fs,
            declared,
        ).trace,
    decreases field_bindings_height(fs), 2nat, fs.len(),
{
    reveal(walk_lvalue);
    reveal(walk_field_binding);
    reveal(walk_field_bindings);
    if fs.len() > 0 {
        let w1 = walk_field_bindings::<V>(s1, fs.drop_last(), declared);
        let w2 = walk_field_bindings::<V>(s2, fs.drop_last(), declared);
        let f = fs.last();
        lemma_observed_field_bindings::<V>(s1, s2, fs.drop_last(), declared);
        lemma_observed_type::<V>(w1.state, w2.state, f.ty);
        lemma_observed_lvalue::<V>(
            walk_type::<V>(w1.state, f.ty).state,
            walk_type::<V>(w2.state, f.ty).state,
            f.target,
            declared,
        );
        assert(walk_field_binding::<V>(w1.state, f, declared).node == f);
        assert(walk_field_binding::<V>(w1.state, f, declared).trace == walk_field_binding::<V>(
            w2.state,
            f,
            declared,
        ).trace);
        assert(fs.drop_last().push(f) =~= fs);
    }
}

/// The walk of a list of binding targets with a visitor that only looks
/// leaves it as it was, and makes the same calls from any state.
pub proof fn lemma_observed_lvalues<V: Visitor>(
    s1: V::V,
    s2: V::V,
    lvs: Seq<LValueView>,
    declared: bool,
)
    requires
        observes::<V>(),
    ensures
        walk_lvalues::<V>(s1, lvs, declared).node == lvs,
        walk_lvalues::<V>(s1, lvs, declared).trace == walk_lvalues::<V>(s2, lvs, declared).trace,
    decreases lvs.len(),
{
    reveal(walk_lvalues);
    if lvs.len() > 0 {
        let w1 = walk_lvalues::<V>(s1, lvs.drop_last(), declared);
        let w2 = walk_lvalues::<V>(s2, lvs.drop_last(), declared);
        lemma_observed_lvalues::<V>(s1, s2, lvs.drop_last(), declared);
        lemma_observed_lvalue::<V>(w1.state, w2.state, lvs.last(), declared);
        assert(lvs.drop_last().push(lvs.last()) =~= lvs);
    }
}

/// The walk of a pattern with a visitor that only looks leaves it as it was,
/// and makes the same calls from any state.
pub proof fn lemma_observed_pattern<V: Visitor>(
    s1: V::V,
    s2: V::V,
    l: LValueListView,
    declared: bool,
)
    requires
        observes::<V>(),
    ensures
        walk_lvalue_list::<V>(s1, l, declared).node == l,
        walk_lvalue_list::<V>(s1, l, declared).trace == walk_lvalue_list::<V>(
            s2,
            l,
            declared,
        ).trace,
{
    lemma_observed_lvalues::<V>(s1, s2, l.value, declared);
}

/// The walk of an expression with a visitor that only looks leaves it as it
/// was, and makes the same calls from any state.
pub proof fn lemma_observed_exp<V: Visitor>(s1: V::V, s2: V::V, e: ExpView)
    requires
        observes::<V>(),
    ensures
        walk_exp::<V>(s1, e).node == e,
        walk_exp::<V>(s1, e).trace == walk_exp::<V>(s2, e).trace,
    decreases exp_height(e), 1nat, 0nat,
{
    lemma_observed_type::<V>(s1, s2, e.ty);
    let t1 = walk_type::<V>(s1, e.ty);
    let t2 = walk_type::<V>(s2, e.ty);
    lemma_observed_type::<V>(s2, s1, e.ty);
    lemma_observed_unannotated::<V>(
        V::on_exp(t1.state, e).state,
        V::on_exp(t2.state, e).state,
        e.value,
    );
}

/// The walk of what an expression holds with a visitor that only looks
/// leaves it as it was, and makes the same calls from any state.
pub proof fn lemma_observed_unannotated<V: Visitor>(s1: V::V, s2: V::V, u: UnannotatedExpView)
    requires
        observes::<V>(),
    ensures
        walk_unannotated::<V>(s1, u).node == u,
        walk_unannotated::<V>(s1, u).trace == walk_unannotated::<V>(s2, u).trace,
    decreases unannotated_height(u), 0nat, 0nat,
{
    match u {
        UnannotatedExpView::ModuleCall(mc) => {
            let a1 = walk_types::<V>(s1, mc.type_arguments);
            let a2 = walk_types::<V>(s2, mc.type_arguments);
            let b1 = walk_types::<V>(a1.state, mc.parameter_types);
            let b2 = walk_types::<V>(a2.state, mc.parameter_types);
            lemma_observed_types::<V>(s1, s2, mc.type_arguments);
            lemma_observed_types::<V>(a1.state, a2.state, mc.parameter_types);
            lemma_observed_exp::<V>(b1.state, b2.state, mc.arguments);
        },
        UnannotatedExpView::VarCall(var, args) => {
            lemma_observed_exp::<V>(
                walk_var_use::<V>(s1, var).state,
                walk_var_use::<V>(s2, var).state,
                *args,
            );
        },
        UnannotatedExpView::Lambda(params, body) => {
            let a1 = walk_lvalue_list::<V>(V::on_enter_scope(s1), params, true);
            let a2 = walk_lvalue_list::<V>(V::on_enter_scope(s2), params, true);
            lemma_observed_pattern::<V>(V::on_enter_scope(s1), V::on_enter_scope(s2), params, true);
            lemma_observed_exp::<V>(a1.state, a2.state, *body);
        },
        UnannotatedExpView::IfElse(c, t, f) => {
            let a1 = walk_exp::<V>(s1, *c);
            let a2 = walk_exp::<V>(s2, *c);
            let b1 = walk_exp::<V>(a1.state, *t);
            let b2 = walk_exp::<V>(a2.state, *t);
            lemma_observed_exp::<V>(s1, s2, *c);
            lemma_observed_exp::<V>(a1.state, a2.state, *t);
            lemma_observed_exp::<V>(b1.state, b2.state, *f);
        },
        UnannotatedExpView::While(_, body) => {
            lemma_observed_exp::<V>(s1, s2, *body);
        },
        UnannotatedExpView::Loop { has_break, body } => {
            lemma_observed_exp::<V>(s1, s2, *body);
        },
        UnannotatedExpView::Block(seq) => {
            lemma_observed_sequence::<V>(s1, s2, seq);
        },
        UnannotatedExpView::Mutate(dst, src) => {
            lemma_observed_exp::<V>(s1, s2, *dst);
            lemma_observed_exp::<V>(
                walk_exp::<V>(s1, *dst).state,
                walk_exp::<V>(s2, *dst).state,
                *src,
            );
        },
        UnannotatedExpView::BinopExp(l, _, ty, r) => {
            let a1 = walk_type::<V>(s1, ty);
            let a2 = walk_type::<V>(s2, ty);
            let b1 = walk_exp::<V>(a1.state, *l);
            let b2 = walk_exp::<V>(a2.state, *l);
            lemma_observed_type::<V>(s1, s2, ty);
            lemma_observed_exp::<V>(a1.state, a2.state, *l);
            lemma_observed_exp::<V>(b1.state, b2.state, *r);
        },
        UnannotatedExpView::Pack(_, _, tys, fields) => {
            lemma_observed_types::<V>(s1, s2, tys);
            lemma_observed_field_inits::<V>(
                walk_types::<V>(s1, tys).state,
                walk_types::<V>(s2, tys).state,
                fields,
            );
        },
        UnannotatedExpView::ExpList(items) => {
            lemma_observed_list_items::<V>(s1, s2, items);
        },
        UnannotatedExpView::Assign(lhs, tys, rhs) => {
            let a1 = walk_lvalue_list::<V>(s1, lhs, false);
            let a2 = walk_lvalue_list::<V>(s2, lhs, false);
            let b1 = walk_opt_types::<V>(a1.state, tys);
            let b2 = walk_opt_types::<V>(a2.state, tys);
            lemma_observed_pattern::<V>(s1, s2, lhs, false);
            lemma_observed_opt_types::<V>(a1.state, a2.state, tys);
            lemma_observed_exp::<V>(b1.state, b2.state, *rhs);
        },
        UnannotatedExpView::Vector(_, _, ty, e) => {
            lemma_observed_type::<V>(s1, s2, ty);
            lemma_observed_exp::<V>(
                walk_type::<V>(s1, ty).state,
                walk_type::<V>(s2, ty).state,
                *e,
            );
        },
        UnannotatedExpView::Cast(e, ty) => {
            lemma_observed_type::<V>(s1, s2, ty);
            lemma_observed_exp::<V>(
                walk_type::<V>(s1, ty).state,
                walk_type::<V>(s2, ty).state,
                *e,
            );
        },
        UnannotatedExpView::Annotate(e, ty) => {
            lemma_observed_type::<V>(s1, s2, ty);
            lemma_observed_exp::<V>(
                walk_type::<V>(s1, ty).state,
                walk_type::<V>(s2, ty).state,
                *e,
            );
        },
        UnannotatedExpView::Builtin(_, e) => {
            lemma_observed_exp::<V>(s1, s2, *e);
        },
        UnannotatedExpView::Return(e) => {
            lemma_observed_exp::<V>(s1, s2, *e);
        },
        UnannotatedExpView::Abort(e) => {
            lemma_observed_exp::<V>(s1, s2, *e);
        },
        UnannotatedExpView::Dereference(e) => {
            lemma_observed_exp::<V>(s1, s2, *e);
        },
        UnannotatedExpView::UnaryExp(_, e) => {
            lemma_observed_exp::<V>(s1, s2, *e);
        },
        UnannotatedExpView::Borrow(_, e, _) => {
            lemma_observed_exp::<V>(s1, s2, *e);
        },
        UnannotatedExpView::TempBorrow(_, e) => {
            lemma_observed_exp::<V>(s1, s2, *e);
        },
        _ => {},
    }
}

/// The walk of the fields of a struct construction with a visitor that only
/// looks leaves it as it was, and makes the same calls from any state.
pub proof fn lemma_observed_field_inits<V: Visitor>(s1: V::V, s2: V::V, fs: Seq<FieldInitView>)
    requires
        observes::<V>(),
    ensures
        walk_field_inits::<V>(s1, fs).node == fs,
        walk_field_inits::<V>(s1, fs).trace == walk_field_inits::<V>(s2, fs).trace,
    decreases field_inits_height(fs), 3nat, fs.len(),
{
    if fs.len() > 0 {
        let w1 = walk_field_inits::<V>(s1, fs.drop_last());
        let w2 = walk_field_inits::<V>(s2, fs.drop_last());
        let f = fs.last();
        lemma_observed_field_inits::<V>(s1, s2, fs.drop_last());
        lemma_observed_type::<V>(w1.state, w2.state, f.ty);
        lemma_observed_exp::<V>(
            walk_type::<V>(w1.state, f.ty).state,
            walk_type::<V>(w2.state, f.ty).state,
            f.init,
        );
        assert(walk_field_init::<V>(w1.state, f).node == f);
        assert(walk_field_init::<V>(w1.state, f).trace == walk_field_init::<V>(w2.state, f).trace);
        assert(fs.drop_last().push(f) =~= fs);
    }
}

/// The walk of one item of an expression list with a visitor that only
/// looks leaves it as it was, and makes the same calls from any state.
pub proof fn lemma_observed_list_item<V: Visitor>(s1: V::V, s2: V::V, item: ExpListItemView)
    requires
        observes::<V>(),
    ensures
        walk_list_item::<V>(s1, item).node == item,
        walk_list_item::<V>(s1, item).trace == walk_list_item::<V>(s2, item).trace,
    decreases list_item_height(item), 2nat, 0nat,
{
    match item {
        ExpListItemView::Single(e, ty) => {
            lemma_observed_type::<V>(s1, s2, ty);
            lemma_observed_exp::<V>(walk_type::<V>(s1, ty).state, walk_type::<V>(s2, ty).state, e);
        },
        ExpListItemView::Splat(_, e, tys) => {
            lemma_observed_types::<V>(s1, s2, tys);
            lemma_observed_exp::<V>(
                walk_types::<V>(s1, tys).state,
                walk_types::<V>(s2, tys).state,
                e,
            );
        },
    }
}

/// The walk of an expression list with a visitor that only looks leaves it
/// as it was, and makes the same calls from any state.
pub proof fn lemma_observed_list_items<V: Visitor>(
    s1: V::V,
    s2: V::V,
    items: Seq<ExpListItemView>,
)
    requires
        observes::<V>(),
    ensures
        walk_list_items::<V>(s1, items).node == items,
        walk_list_items::<V>(s1, items).trace == walk_list_items::<V>(s2, items).trace,
    decreases list_items_height(items), 3nat, items.len(),
{
    if items.len() > 0 {
        let w1 = walk_list_items::<V>(s1, items.drop_last());
        let w2 = walk_list_items::<V>(s2, items.drop_last());
        lemma_observed_list_items::<V>(s1, s2, items.drop_last());
        lemma_observed_list_item::<V>(w1.state, w2.state, items.last());
        assert(items.drop_last().push(items.last()) =~= items);
    }
}

/// The walk of a statement with a visitor that only looks leaves it as it
/// was, and makes the same calls from any state.
pub proof fn lemma_observed_statement<V: Visitor>(s1: V::V, s2: V::V, item: SequenceItemView)
    requires
        observes::<V>(),
    ensures
        walk_statement::<V>(s1, item).node == item,
        walk_statement::<V>(s1, item).trace == walk_statement::<V>(s2, item).trace,
    decreases statement_height(item), 2nat, 0nat,
{
    match item.value {
        SequenceItemView_::Exp(e) => {
            lemma_observed_exp::<V>(s1, s2, *e);
        },
        SequenceItemView_::Declare(decls) => {
            lemma_observed_pattern::<V>(V::on_enter_scope(s1), V::on_enter_scope(s2), decls, true);
        },
        SequenceItemView_::Bind(decls, tys, e) => {
            let a1 = walk_lvalue_list::<V>(V::on_enter_scope(s1), decls, true);
            let a2 = walk_lvalue_list::<V>(V::on_enter_scope(s2), decls, true);
            let b1 = walk_opt_types::<V>(a1.state, tys);
            let b2 = walk_opt_types::<V>(a2.state, tys);
            lemma_observed_pattern::<V>(V::on_enter_scope(s1), V::on_enter_scope(s2), decls, true);
            lemma_observed_opt_types::<V>(a1.state, a2.state, tys);
            lemma_observed_exp::<V>(b1.state, b2.state, *e);
        },
    }
}

/// The walk of the statements of a sequence with a visitor that only looks
/// leaves it as it was, and makes the same calls from any state.
pub proof fn lemma_observed_statements<V: Visitor>(
    s1: V::V,
    s2: V::V,
    items: Seq<SequenceItemView>,
)
    requires
        observes::<V>(),
    ensures
        walk_statements::<V>(s1, items).node == items,
        walk_statements::<V>(s1, items).trace == walk_statements::<V>(s2, items).trace,
    decreases sequence_height(items), 3nat, items.len(),
{
    if items.len() > 0 {
        let w1 = walk_statements::<V>(s1, items.drop_last());
        let w2 = walk_statements::<V>(s2, items.drop_last());
        lemma_observed_statements::<V>(s1, s2, items.drop_last());
        lemma_observed_statement::<V>(w1.state, w2.state, items.last());
        assert(items.drop_last().push(items.last()) =~= items);
    }
}

/// The walk of a sequence with a visitor that only looks leaves it as it was,
/// and makes the same calls from any state.
pub proof fn lemma_observed_sequence<V: Visitor>(s1: V::V, s2: V::V, items: Seq<SequenceItemView>)
    requires
        observes::<V>(),
    ensures
        walk_sequence::<V>(s1, items).node == items,
        walk_sequence::<V>(s1, items).trace == walk_sequence::<V>(s2, items).trace,
    decreases sequence_height(items), 4nat, 0nat,
{
    lemma_observed_statements::<V>(s1, s2, items);
}

/// The walk of the parameters of a function with a visitor that only looks
/// leaves it as it was, and makes the same calls from any state.
pub proof fn lemma_observed_parameters<V: Visitor>(s1: V::V, s2: V::V, ps: Seq<(Var, TypeView)>)
    requires
        observes::<V>(),
    ensures
        walk_parameters::<V>(s1, ps).node == ps,
        walk_parameters::<V>(s1, ps).trace == walk_parameters::<V>(s2, ps).trace,
    decreases ps.len(),
{
    reveal(walk_parameters);
    if ps.len() > 0 {
        let w1 = walk_parameters::<V>(s1, ps.drop_last());
        let w2 = walk_parameters::<V>(s2, ps.drop_last());
        let p = ps.last();
        lemma_observed_parameters::<V>(s1, s2, ps.drop_last());
        lemma_observed_type::<V>(w1.state, w2.state, p.1);
        assert(walk_parameter::<V>(w1.state, p).node == p);
        assert(walk_parameter::<V>(w1.state, p).trace == walk_parameter::<V>(w2.state, p).trace);
        assert(ps.drop_last().push(p) =~= ps);
    }
}

/// A walk of a function with a visitor that only looks leaves the function
/// as it was, and its calls are the same whatever state the visitor
/// starts in.
pub proof fn law_observer_changes_nothing<V: Visitor>(s1: V::V, s2: V::V, f: FunctionView)
    requires
        observes::<V>(),
    ensures
        walk_function::<V>(s1, f).node == f,
        walk_function::<V>(s1, f).trace == walk_function::<V>(s2, f).trace,
{
    let with1 = walk_parameters::<V>(V::on_enter_scope(s1), f.parameters);
    let with2 = walk_parameters::<V>(V::on_enter_scope(s2), f.parameters);
    lemma_observed_parameters::<V>(V::on_enter_scope(s1), V::on_enter_scope(s2), f.parameters);
    match f.body {
        FunctionBodyView::Defined(seq) => {
            lemma_observed_sequence::<V>(with1.state, with2.state, seq);
        },
        FunctionBodyView::Native => {},
    }
}

/// Walking a function twice with a visitor that only looks gives the same
/// function and the same calls both times: the second walk, which starts
/// from what the first left, leaves the function as the first found it and
/// makes every call that the first made, in the same order.
pub proof fn law_second_walk_repeats_first<V: Visitor>(s: V::V, f: FunctionView)
    requires
        observes::<V>(),
    ensures
        ({
            let first = walk_function::<V>(s, f);
            let second = walk_function::<V>(first.state, first.node);
            &&& first.node == f
            &&& second.node == f
            &&& second.trace == first.trace
        }),
{
    let first = walk_function::<V>(s, f);
    law_observer_changes_nothing::<V>(s, first.state, f);
    law_observer_changes_nothing::<V>(first.state, s, f);
}

/// The same of a sequence walked by itself.
pub proof fn law_second_walk_of_sequence_repeats_first<V: Visitor>(
    s: V::V,
    items: Seq<SequenceItemView>,
)
    requires
        observes::<V>(),
    ensures
        ({
            let first = walk_sequence::<V>(s, items);
            let second = walk_sequence::<V>(first.state, first.node);
            &&& first.node == items
            &&& second.node == items
            &&& second.trace == first.trace
        }),
{
    let first = walk_sequence::<V>(s, items);
    lemma_observed_sequence::<V>(s, first.state, items);
    lemma_observed_sequence::<V>(first.state, s, items);
}

} // verus!
