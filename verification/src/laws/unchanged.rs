//! Visitors that change no node: whatever they say of descending, a walk
//! with one leaves the tree as it was.

use vstd::prelude::*;
use crate::ast::Var;
use crate::model::{
    exp_height, field_bindings_height, field_inits_height, list_item_height, list_items_height,
    lvalue_height, sequence_height, statement_height, type_height, types_height,
    unannotated_height, ExpListItemView, ExpView, FieldBindingView, FieldInitView,
    FunctionBodyView, FunctionView, LValueListView, LValueView, LValueView_, SequenceItemView,
    SequenceItemView_, TypeView, TypeView_, UnannotatedExpView,
};
use crate::visitor::Visitor;
use crate::walk::{
    walk_exp, walk_field_binding, walk_field_bindings, walk_field_init, walk_field_inits,
    walk_function, walk_list_item, walk_list_items, walk_lvalue, walk_lvalue_list, walk_lvalues,
    walk_opt_type, walk_opt_types, walk_parameter, walk_parameters, walk_sequence, walk_statement,
    walk_statements, walk_type, walk_types, walk_unannotated, walk_var_use,
};

verus! {

/// Whether a visitor changes no node: whatever state it is in, each of its
/// hooks leaves the node or the variable it is handed as it was.
pub open spec fn looks_only<V: Visitor>() -> bool {
    &&& forall|s: V::V, e: ExpView| (#[trigger] V::on_exp(s, e)).node == e
    &&& forall|s: V::V, t: TypeView| (#[trigger] V::on_type(s, t)).node == t
    &&& forall|s: V::V, v: Var| (#[trigger] V::on_var_decl(s, v)).1 == v
    &&& forall|s: V::V, v: Var| (#[trigger] V::on_var_use(s, v)).1 == v
    &&& forall|s: V::V, t: TypeView| (#[trigger] V::on_infer_abilities(s, t)).1 == t
}

// In each lemma below the walk is that of a visitor that changes no node.

/// The walk of a type leaves it as it was.
pub proof fn lemma_unchanged_type<V: Visitor>(s: V::V, t: TypeView)
    requires
        looks_only::<V>(),
    ensures
        walk_type::<V>(s, t).node == t,
    decreases type_height(t), 0nat, 0nat,
{
    reveal(walk_type);
    reveal(walk_types);
    let h = V::on_type(s, t);
    match t.value {
        TypeView_::Ref(_, inner) => {
            lemma_unchanged_type::<V>(h.state, *inner);
        },
        TypeView_::Apply(_, _, args) => {
            lemma_unchanged_types::<V>(h.state, args);
        },
        _ => {},
    }
}

/// The walk of a list of types leaves it as it was.
pub proof fn lemma_unchanged_types<V: Visitor>(s: V::V, ts: Seq<TypeView>)
    requires
        looks_only::<V>(),
    ensures
        walk_types::<V>(s, ts).node == ts,
    decreases types_height(ts), 1nat, ts.len(),
{
    reveal(walk_type);
    reveal(walk_types);
    if ts.len() > 0 {
        let w = walk_types::<V>(s, ts.drop_last());
        lemma_unchanged_types::<V>(s, ts.drop_last());
        lemma_unchanged_type::<V>(w.state, ts.last());
        assert(ts.drop_last().push(ts.last()) =~= ts);
    }
}

/// The walk of a type that may be absent leaves it as it was.
pub proof fn lemma_unchanged_opt_type<V: Visitor>(s: V::V, t: Option<TypeView>)
    requires
        looks_only::<V>(),
    ensures
        walk_opt_type::<V>(s, t).node == t,
{
    match t {
        Some(t) => lemma_unchanged_type::<V>(s, t),
        None => {},
    }
}

/// The walk of the types present in a list leaves it as it was.
pub proof fn lemma_unchanged_opt_types<V: Visitor>(s: V::V, ts: Seq<Option<TypeView>>)
    requires
        looks_only::<V>(),
    ensures
        walk_opt_types::<V>(s, ts).node == ts,
    decreases ts.len(),
{
    reveal(walk_opt_types);
    if ts.len() > 0 {
        let w = walk_opt_types::<V>(s, ts.drop_last());
        lemma_unchanged_opt_types::<V>(s, ts.drop_last());
        lemma_unchanged_opt_type::<V>(w.state, ts.last());
        assert(ts.drop_last().push(ts.last()) =~= ts);
    }
}

/// The walk of a binding target leaves it as it was.
pub proof fn lemma_unchanged_lvalue<V: Visitor>(s: V::V, lv: LValueView, declared: bool)
    requires
        looks_only::<V>(),
    ensures
        walk_lvalue::<V>(s, lv, declared).node == lv,
    decreases lvalue_height(lv), 0nat, 0nat,
{
    reveal(walk_lvalue);
    reveal(walk_field_binding);
    reveal(walk_field_bindings);
    match lv.value {
        LValueView_::Ignore => {},
        LValueView_::Var(_, ty) => {
            lemma_unchanged_opt_type::<V>(s, ty);
        },
        LValueView_::Unpack(_, _, tys, fields) => {
            lemma_unchanged_types::<V>(s, tys);
            lemma_unchanged_field_bindings::<V>(walk_types::<V>(s, tys).state, fields, declared);
        },
        LValueView_::BorrowUnpack(_, _, _, tys, fields) => {
            lemma_unchanged_types::<V>(s, tys);
            lemma_unchanged_field_bindings::<V>(walk_types::<V>(s, tys).state, fields, declared);
        },
    }
}

/// The walk of the fields of a destructuring target leaves it as it was.
pub proof fn lemma_unchanged_field_bindings<V: Visitor>(
    s: V::V,
    fs: Seq<FieldBindingView>,
    declared: bool,
)
    requires
        looks_only::<V>(),
    ensures
        walk_field_bindings::<V>(s, fs, declared).node == fs,
    decreases field_bindings_height(fs), 2nat, fs.len(),
{
    reveal(walk_lvalue);
    reveal(walk_field_binding);
    reveal(walk_field_bindings);
    if fs.len() > 0 {
        let w = walk_field_bindings::<V>(s, fs.drop_last(), declared);
        let f = fs.last();
        lemma_unchanged_field_bindings::<V>(s, fs.drop_last(), declared);
        lemma_unchanged_type::<V>(w.state, f.ty);
        lemma_unchanged_lvalue::<V>(walk_type::<V>(w.state, f.ty).state, f.target, declared);
        assert(walk_field_binding::<V>(w.state, f, declared).node == f);
        assert(fs.drop_last().push(f) =~= fs);
    }
}

/// The walk of a list of binding targets leaves it as it was.
pub proof fn lemma_unchanged_lvalues<V: Visitor>(
    s: V::V,
    lvs: Seq<LValueView>,
    declared: bool,
)
    requires
        looks_only::<V>(),
    ensures
        walk_lvalues::<V>(s, lvs, declared).node == lvs,
    decreases lvs.len(),
{
    reveal(walk_lvalues);
    if lvs.len() > 0 {
        let w = walk_lvalues::<V>(s, lvs.drop_last(), declared);
        lemma_unchanged_lvalues::<V>(s, lvs.drop_last(), declared);
        lemma_unchanged_lvalue::<V>(w.state, lvs.last(), declared);
        assert(lvs.drop_last().push(lvs.last()) =~= lvs);
    }
}

/// The walk of a pattern leaves it as it was.
pub proof fn lemma_unchanged_pattern<V: Visitor>(
    s: V::V,
    l: LValueListView,
    declared: bool,
)
    requires
        looks_only::<V>(),
    ensures
        walk_lvalue_list::<V>(s, l, declared).node == l,
{
    lemma_unchanged_lvalues::<V>(s, l.value, declared);
}

/// The walk of an expression leaves it as it was.
pub proof fn lemma_unchanged_exp<V: Visitor>(s: V::V, e: ExpView)
    requires
        looks_only::<V>(),
    ensures
        walk_exp::<V>(s, e).node == e,
    decreases exp_height(e), 1nat, 0nat,
{
    lemma_unchanged_type::<V>(s, e.ty);
    let t = walk_type::<V>(s, e.ty);
    lemma_unchanged_unannotated::<V>(V::on_exp(t.state, e).state, e.value);
}

/// The walk of what an expression holds leaves it as it was.
pub proof fn lemma_unchanged_unannotated<V: Visitor>(s: V::V, u: UnannotatedExpView)
    requires
        looks_only::<V>(),
    ensures
        walk_unannotated::<V>(s, u).node == u,
    decreases unannotated_height(u), 0nat, 0nat,
{
    match u {
        UnannotatedExpView::ModuleCall(mc) => {
            let a = walk_types::<V>(s, mc.type_arguments);
            let b = walk_types::<V>(a.state, mc.parameter_types);
            lemma_unchanged_types::<V>(s, mc.type_arguments);
            lemma_unchanged_types::<V>(a.state, mc.parameter_types);
            lemma_unchanged_exp::<V>(b.state, mc.arguments);
        },
        UnannotatedExpView::VarCall(var, args) => {
            lemma_unchanged_exp::<V>(walk_var_use::<V>(s, var).state, *args);
        },
        UnannotatedExpView::Lambda(params, body) => {
            let a = walk_lvalue_list::<V>(V::on_enter_scope(s), params, true);
            lemma_unchanged_pattern::<V>(V::on_enter_scope(s), params, true);
            lemma_unchanged_exp::<V>(a.state, *body);
        },
        UnannotatedExpView::IfElse(c, t, f) => {
            let a = walk_exp::<V>(s, *c);
            let b = walk_exp::<V>(a.state, *t);
            lemma_unchanged_exp::<V>(s, *c);
            lemma_unchanged_exp::<V>(a.state, *t);
            lemma_unchanged_exp::<V>(b.state, *f);
        },
        UnannotatedExpView::While(_, body) => {
            lemma_unchanged_exp::<V>(s, *body);
        },
        UnannotatedExpView::Loop { has_break, body } => {
            lemma_unchanged_exp::<V>(s, *body);
        },
        UnannotatedExpView::Block(seq) => {
            lemma_unchanged_sequence::<V>(s, seq);
        },
        UnannotatedExpView::Mutate(dst, src) => {
            lemma_unchanged_exp::<V>(s, *dst);
            lemma_unchanged_exp::<V>(walk_exp::<V>(s, *dst).state, *src);
        },
        UnannotatedExpView::BinopExp(l, _, ty, r) => {
            let a = walk_type::<V>(s, ty);
            let b = walk_exp::<V>(a.state, *l);
            lemma_unchanged_type::<V>(s, ty);
            lemma_unchanged_exp::<V>(a.state, *l);
            lemma_unchanged_exp::<V>(b.state, *r);
        },
        UnannotatedExpView::Pack(_, _, tys, fields) => {
            lemma_unchanged_types::<V>(s, tys);
            lemma_unchanged_field_inits::<V>(walk_types::<V>(s, tys).state, fields);
        },
        UnannotatedExpView::ExpList(items) => {
            lemma_unchanged_list_items::<V>(s, items);
        },
        UnannotatedExpView::Assign(lhs, tys, rhs) => {
            let a = walk_lvalue_list::<V>(s, lhs, false);
            let b = walk_opt_types::<V>(a.state, tys);
            lemma_unchanged_pattern::<V>(s, lhs, false);
            lemma_unchanged_opt_types::<V>(a.state, tys);
            lemma_unchanged_exp::<V>(b.state, *rhs);
        },
        UnannotatedExpView::Vector(_, _, ty, e) => {
            lemma_unchanged_type::<V>(s, ty);
            lemma_unchanged_exp::<V>(walk_type::<V>(s, ty).state, *e);
        },
        UnannotatedExpView::Cast(e, ty) => {
            lemma_unchanged_type::<V>(s, ty);
            lemma_unchanged_exp::<V>(walk_type::<V>(s, ty).state, *e);
        },
        UnannotatedExpView::Annotate(e, ty) => {
            lemma_unchanged_type::<V>(s, ty);
            lemma_unchanged_exp::<V>(walk_type::<V>(s, ty).state, *e);
        },
        UnannotatedExpView::Builtin(_, e) => {
            lemma_unchanged_exp::<V>(s, *e);
        },
        UnannotatedExpView::Return(e) => {
            lemma_unchanged_exp::<V>(s, *e);
        },
        UnannotatedExpView::Abort(e) => {
            lemma_unchanged_exp::<V>(s, *e);
        },
        UnannotatedExpView::Dereference(e) => {
            lemma_unchanged_exp::<V>(s, *e);
        },
        UnannotatedExpView::UnaryExp(_, e) => {
            lemma_unchanged_exp::<V>(s, *e);
        },
        UnannotatedExpView::Borrow(_, e, _) => {
            lemma_unchanged_exp::<V>(s, *e);
        },
        UnannotatedExpView::TempBorrow(_, e) => {
            lemma_unchanged_exp::<V>(s, *e);
        },
        _ => {},
    }
}

/// The walk of the fields of a struct construction leaves it as it was.
pub proof fn lemma_unchanged_field_inits<V: Visitor>(s: V::V, fs: Seq<FieldInitView>)
    requires
        looks_only::<V>(),
    ensures
        walk_field_inits::<V>(s, fs).node == fs,
    decreases field_inits_height(fs), 3nat, fs.len(),
{
    if fs.len() > 0 {
        let w = walk_field_inits::<V>(s, fs.drop_last());
        let f = fs.last();
        lemma_unchanged_field_inits::<V>(s, fs.drop_last());
        lemma_unchanged_type::<V>(w.state, f.ty);
        lemma_unchanged_exp::<V>(walk_type::<V>(w.state, f.ty).state, f.init);
        assert(walk_field_init::<V>(w.state, f).node == f);
        assert(fs.drop_last().push(f) =~= fs);
    }
}

/// The walk of one item of an expression list leaves it as it was.
pub proof fn lemma_unchanged_list_item<V: Visitor>(s: V::V, item: ExpListItemView)
    requires
        looks_only::<V>(),
    ensures
        walk_list_item::<V>(s, item).node == item,
    decreases list_item_height(item), 2nat, 0nat,
{
    match item {
        ExpListItemView::Single(e, ty) => {
            lemma_unchanged_type::<V>(s, ty);
            lemma_unchanged_exp::<V>(walk_type::<V>(s, ty).state, e);
        },
        ExpListItemView::Splat(_, e, tys) => {
            lemma_unchanged_types::<V>(s, tys);
            lemma_unchanged_exp::<V>(walk_types::<V>(s, tys).state, e);
        },
    }
}

/// The walk of an expression list leaves it as it was.
pub proof fn lemma_unchanged_list_items<V: Visitor>(
    s: V::V,
    items: Seq<ExpListItemView>,
)
    requires
        looks_only::<V>(),
    ensures
        walk_list_items::<V>(s, items).node == items,
    decreases list_items_height(items), 3nat, items.len(),
{
    if items.len() > 0 {
        let w = walk_list_items::<V>(s, items.drop_last());
        lemma_unchanged_list_items::<V>(s, items.drop_last());
        lemma_unchanged_list_item::<V>(w.state, items.last());
        assert(items.drop_last().push(items.last()) =~= items);
    }
}

/// The walk of a statement leaves it as it was.
pub proof fn lemma_unchanged_statement<V: Visitor>(s: V::V, item: SequenceItemView)
    requires
        looks_only::<V>(),
    ensures
        walk_statement::<V>(s, item).node == item,
    decreases statement_height(item), 2nat, 0nat,
{
    match item.value {
        SequenceItemView_::Exp(e) => {
            lemma_unchanged_exp::<V>(s, *e);
        },
        SequenceItemView_::Declare(decls) => {
            lemma_unchanged_pattern::<V>(V::on_enter_scope(s), decls, true);
        },
        SequenceItemView_::Bind(decls, tys, e) => {
            let a = walk_lvalue_list::<V>(V::on_enter_scope(s), decls, true);
            let b = walk_opt_types::<V>(a.state, tys);
            lemma_unchanged_pattern::<V>(V::on_enter_scope(s), decls, true);
            lemma_unchanged_opt_types::<V>(a.state, tys);
            lemma_unchanged_exp::<V>(b.state, *e);
        },
    }
}

/// The walk of the statements of a sequence leaves it as it was.
pub proof fn lemma_unchanged_statements<V: Visitor>(
    s: V::V,
    items: Seq<SequenceItemView>,
)
    requires
        looks_only::<V>(),
    ensures
        walk_statements::<V>(s, items).node == items,
    decreases sequence_height(items), 3nat, items.len(),
{
    if items.len() > 0 {
        let w = walk_statements::<V>(s, items.drop_last());
        lemma_unchanged_statements::<V>(s, items.drop_last());
        lemma_unchanged_statement::<V>(w.state, items.last());
        assert(items.drop_last().push(items.last()) =~= items);
    }
}

/// The walk of a sequence leaves it as it was.
pub proof fn lemma_unchanged_sequence<V: Visitor>(s: V::V, items: Seq<SequenceItemView>)
    requires
        looks_only::<V>(),
    ensures
        walk_sequence::<V>(s, items).node == items,
    decreases sequence_height(items), 4nat, 0nat,
{
    lemma_unchanged_statements::<V>(s, items);
}

/// The walk of the parameters of a function leaves it as it was.
pub proof fn lemma_unchanged_parameters<V: Visitor>(s: V::V, ps: Seq<(Var, TypeView)>)
    requires
        looks_only::<V>(),
    ensures
        walk_parameters::<V>(s, ps).node == ps,
    decreases ps.len(),
{
    reveal(walk_parameters);
    if ps.len() > 0 {
        let w = walk_parameters::<V>(s, ps.drop_last());
        let p = ps.last();
        lemma_unchanged_parameters::<V>(s, ps.drop_last());
        lemma_unchanged_type::<V>(w.state, p.1);
        assert(walk_parameter::<V>(w.state, p).node == p);
        assert(ps.drop_last().push(p) =~= ps);
    }
}

/// A walk of a function with a visitor that changes no node leaves the
/// function as it was, whether the visitor stops anywhere or not.
pub proof fn law_looking_changes_nothing<V: Visitor>(s: V::V, f: FunctionView)
    requires
        looks_only::<V>(),
    ensures
        walk_function::<V>(s, f).node == f,
{
    let with = walk_parameters::<V>(V::on_enter_scope(s), f.parameters);
    lemma_unchanged_parameters::<V>(V::on_enter_scope(s), f.parameters);
    match f.body {
        FunctionBodyView::Defined(seq) => {
            lemma_unchanged_sequence::<V>(with.state, seq);
        },
        FunctionBodyView::Native => {},
    }
}

} // verus!
