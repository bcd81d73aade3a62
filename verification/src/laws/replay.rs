//! The calls of a walk are what the walk does to the visitor: the state it
//! leaves is the state that its calls, made one after the other, leave.

use vstd::prelude::*;
use crate::ast::Var;
use crate::model::{
    exp_height, field_bindings_height, field_inits_height, list_item_height, list_items_height,
    lvalue_height, sequence_height, statement_height, type_height, types_height, unannotated_height,
    ExpListItemView, ExpView, FieldBindingView, FieldInitView, FunctionBodyView, FunctionView,
    LValueListView, LValueView, LValueView_, SequenceItemView, SequenceItemView_, TypeView,
    TypeView_, UnannotatedExpView,
};
use crate::visitor::{Visitor, VisitorContinuation};
use crate::walk::{
    exit_scopes, exits, opened_scopes, walk_body, walk_exp, walk_field_binding, walk_field_bindings,
    walk_field_init, walk_field_inits, walk_function, walk_list_item, walk_list_items, walk_lvalue,
    walk_lvalue_list, walk_lvalues, walk_opt_type, walk_opt_types, walk_parameter, walk_parameters,
    walk_sequence, walk_statement, walk_statements, walk_type, walk_types, walk_unannotated,
    walk_var_use, Event,
};

verus! {

/// The state in which one call leaves the visitor.
pub open spec fn after_call<V: Visitor>(s: V::V, call: Event) -> V::V {
    match call {
        Event::EnterScope => V::on_enter_scope(s),
        Event::ExitScope => V::on_exit_scope(s),
        Event::VarDecl(var) => V::on_var_decl(s, var).0,
        Event::VarUse(var) => V::on_var_use(s, var).0,
        Event::Type(ty) => V::on_type(s, ty).state,
        Event::Exp(ex) => V::on_exp(s, ex).state,
        Event::InferAbilities(ty) => V::on_infer_abilities(s, ty).0,
    }
}

/// The state in which calls, made one after the other, leave the visitor.
pub open spec fn after_calls<V: Visitor>(s: V::V, calls: Seq<Event>) -> V::V
    decreases calls.len(),
{
    if calls.len() == 0 {
        s
    } else {
        after_call::<V>(after_calls::<V>(s, calls.drop_last()), calls.last())
    }
}

/// One call by itself.
pub proof fn lemma_after_one<V: Visitor>(s: V::V, call: Event)
    ensures
        after_calls::<V>(s, seq![call]) == after_call::<V>(s, call),
{
    assert(seq![call].drop_last() =~= Seq::<Event>::empty());
    assert(after_calls::<V>(s, Seq::<Event>::empty()) == s);
}

/// Calls after calls.
pub proof fn lemma_after_both<V: Visitor>(s: V::V, a: Seq<Event>, b: Seq<Event>)
    ensures
        after_calls::<V>(s, a + b) == after_calls::<V>(after_calls::<V>(s, a), b),
    decreases b.len(),
{
    if b.len() == 0 {
        assert(a + b =~= a);
    } else {
        lemma_after_both::<V>(s, a, b.drop_last());
        assert((a + b).drop_last() =~= a + b.drop_last());
    }
}

/// Calls that lead from `s` to `mid`, then calls that lead from `mid` to
/// `end`, lead from `s` to `end`.
pub proof fn lemma_then<V: Visitor>(s: V::V, a: Seq<Event>, mid: V::V, b: Seq<Event>, end: V::V)
    requires
        after_calls::<V>(s, a) == mid,
        after_calls::<V>(mid, b) == end,
    ensures
        after_calls::<V>(s, a + b) == end,
{
    lemma_after_both::<V>(s, a, b);
}

/// Calls that lead from `s` to `mid`, then one more call.
pub proof fn lemma_then_one<V: Visitor>(s: V::V, a: Seq<Event>, mid: V::V, call: Event)
    requires
        after_calls::<V>(s, a) == mid,
    ensures
        after_calls::<V>(s, a + seq![call]) == after_call::<V>(mid, call),
{
    lemma_after_one::<V>(mid, call);
    lemma_after_both::<V>(s, a, seq![call]);
}

/// The walk of a type leaves the visitor in the state in which its calls
/// leave it.
pub proof fn lemma_replay_type<V: Visitor>(s: V::V, t: TypeView)
    ensures
        walk_type::<V>(s, t).state == after_calls::<V>(s, walk_type::<V>(s, t).trace),
    decreases type_height(t), 0nat, 0nat,
{
    reveal(walk_type);
    reveal(walk_types);
    let h = V::on_type(s, t);
    let call = seq![Event::Type(t)];
    lemma_after_one::<V>(s, Event::Type(t));
    if h.signal == VisitorContinuation::Descend {
        V::lemma_on_type_bounded(s, t);
        match h.node.value {
            TypeView_::Ref(_, inner) => {
                let w = walk_type::<V>(h.state, *inner);
                lemma_replay_type::<V>(h.state, *inner);
                lemma_then::<V>(s, call, h.state, w.trace, w.state);
            },
            TypeView_::Apply(abilities, name, args) => {
                let w = walk_types::<V>(h.state, args);
                let visited = TypeView {
                    loc: h.node.loc,
                    value: TypeView_::Apply(abilities, name, w.node),
                };
                lemma_replay_types::<V>(h.state, args);
                lemma_then::<V>(s, call, h.state, w.trace, w.state);
                lemma_then_one::<V>(s, call + w.trace, w.state, Event::InferAbilities(visited));
            },
            _ => {},
        }
    }
}

/// The walk of a list of types leaves the visitor in the state in which its
/// calls leave it.
pub proof fn lemma_replay_types<V: Visitor>(s: V::V, ts: Seq<TypeView>)
    ensures
        walk_types::<V>(s, ts).state == after_calls::<V>(s, walk_types::<V>(s, ts).trace),
    decreases types_height(ts), 1nat, ts.len(),
{
    reveal(walk_type);
    reveal(walk_types);
    if ts.len() > 0 {
        let w = walk_types::<V>(s, ts.drop_last());
        let x = walk_type::<V>(w.state, ts.last());
        lemma_replay_types::<V>(s, ts.drop_last());
        lemma_replay_type::<V>(w.state, ts.last());
        lemma_then::<V>(s, w.trace, w.state, x.trace, x.state);
    }
}

/// The walk of a type that may be absent leaves the visitor in the state in
/// which its calls leave it.
pub proof fn lemma_replay_opt_type<V: Visitor>(s: V::V, t: Option<TypeView>)
    ensures
        walk_opt_type::<V>(s, t).state == after_calls::<V>(s, walk_opt_type::<V>(s, t).trace),
{
    match t {
        Some(t) => lemma_replay_type::<V>(s, t),
        None => {},
    }
}

/// The walk of the types present in a list leaves the visitor in the state
/// in which its calls leave it.
pub proof fn lemma_replay_opt_types<V: Visitor>(s: V::V, ts: Seq<Option<TypeView>>)
    ensures
        walk_opt_types::<V>(s, ts).state == after_calls::<V>(
            s,
            walk_opt_types::<V>(s, ts).trace,
        ),
    decreases ts.len(),
{
    reveal(walk_opt_types);
    if ts.len() > 0 {
        let w = walk_opt_types::<V>(s, ts.drop_last());
        let x = walk_opt_type::<V>(w.state, ts.last());
        lemma_replay_opt_types::<V>(s, ts.drop_last());
        lemma_replay_opt_type::<V>(w.state, ts.last());
        lemma_then::<V>(s, w.trace, w.state, x.trace, x.state);
    }
}

/// The walk of a binding target leaves the visitor in the state in which
/// its calls leave it.
pub proof fn lemma_replay_lvalue<V: Visitor>(s: V::V, lv: LValueView, declared: bool)
    ensures
        walk_lvalue::<V>(s, lv, declared).state == after_calls::<V>(
            s,
            walk_lvalue::<V>(s, lv, declared).trace,
        ),
    decreases lvalue_height(lv), 0nat, 0nat,
{
    reveal(walk_lvalue);
    reveal(walk_field_binding);
    reveal(walk_field_bindings);
    match lv.value {
        LValueView_::Ignore => {},
        LValueView_::Var(var, ty) => {
            let t = walk_opt_type::<V>(s, ty);
            lemma_replay_opt_type::<V>(s, ty);
            if declared {
                lemma_then_one::<V>(s, t.trace, t.state, Event::VarDecl(var));
            } else {
                lemma_then_one::<V>(s, t.trace, t.state, Event::VarUse(var));
            }
        },
        LValueView_::Unpack(_, _, tys, fields) => {
            let a = walk_types::<V>(s, tys);
            let b = walk_field_bindings::<V>(a.state, fields, declared);
            lemma_replay_types::<V>(s, tys);
            lemma_replay_field_bindings::<V>(a.state, fields, declared);
            lemma_then::<V>(s, a.trace, a.state, b.trace, b.state);
        },
        LValueView_::BorrowUnpack(_, _, _, tys, fields) => {
            let a = walk_types::<V>(s, tys);
            let b = walk_field_bindings::<V>(a.state, fields, declared);
            lemma_replay_types::<V>(s, tys);
            lemma_replay_field_bindings::<V>(a.state, fields, declared);
            lemma_then::<V>(s, a.trace, a.state, b.trace, b.state);
        },
    }
}

/// The walk of the fields of a destructuring target leaves the visitor in
/// the state in which its calls leave it.
pub proof fn lemma_replay_field_bindings<V: Visitor>(
    s: V::V,
    fs: Seq<FieldBindingView>,
    declared: bool,
)
    ensures
        walk_field_bindings::<V>(s, fs, declared).state == after_calls::<V>(
            s,
            walk_field_bindings::<V>(s, fs, declared).trace,
        ),
    decreases field_bindings_height(fs), 2nat, fs.len(),
{
    reveal(walk_lvalue);
    reveal(walk_field_binding);
    reveal(walk_field_bindings);
    if fs.len() > 0 {
        let w = walk_field_bindings::<V>(s, fs.drop_last(), declared);
        let f = fs.last();
        let a = walk_type::<V>(w.state, f.ty);
        let b = walk_lvalue::<V>(a.state, f.target, declared);
        lemma_replay_field_bindings::<V>(s, fs.drop_last(), declared);
        lemma_replay_type::<V>(w.state, f.ty);
        lemma_replay_lvalue::<V>(a.state, f.target, declared);
        lemma_then::<V>(w.state, a.trace, a.state, b.trace, b.state);
        lemma_then::<V>(s, w.trace, w.state, a.trace + b.trace, b.state);
        assert(walk_field_binding::<V>(w.state, f, declared).trace == a.trace + b.trace);
    }
}

/// The walk of a list of binding targets leaves the visitor in the state in
/// which its calls leave it.
pub proof fn lemma_replay_lvalues<V: Visitor>(s: V::V, lvs: Seq<LValueView>, declared: bool)
    ensures
        walk_lvalues::<V>(s, lvs, declared).state == after_calls::<V>(
            s,
            walk_lvalues::<V>(s, lvs, declared).trace,
        ),
    decreases lvs.len(),
{
    reveal(walk_lvalues);
    if lvs.len() > 0 {
        let w = walk_lvalues::<V>(s, lvs.drop_last(), declared);
        let x = walk_lvalue::<V>(w.state, lvs.last(), declared);
        lemma_replay_lvalues::<V>(s, lvs.drop_last(), declared);
        lemma_replay_lvalue::<V>(w.state, lvs.last(), declared);
        lemma_then::<V>(s, w.trace, w.state, x.trace, x.state);
    }
}

/// The walk of a pattern leaves the visitor in the state in which its calls
/// leave it.
pub proof fn lemma_replay_pattern<V: Visitor>(s: V::V, l: LValueListView, declared: bool)
    ensures
        walk_lvalue_list::<V>(s, l, declared).state == after_calls::<V>(
            s,
            walk_lvalue_list::<V>(s, l, declared).trace,
        ),
{
    lemma_replay_lvalues::<V>(s, l.value, declared);
}

/// The walk of an expression leaves the visitor in the state in which its
/// calls leave it.
pub proof fn lemma_replay_exp<V: Visitor>(s: V::V, e: ExpView)
    ensures
        walk_exp::<V>(s, e).state == after_calls::<V>(s, walk_exp::<V>(s, e).trace),
    decreases exp_height(e), 1nat, 0nat,
{
    let t = walk_type::<V>(s, e.ty);
    let typed = ExpView { ty: t.node, loc: e.loc, value: e.value };
    let h = V::on_exp(t.state, typed);
    lemma_replay_type::<V>(s, e.ty);
    lemma_then_one::<V>(s, t.trace, t.state, Event::Exp(typed));
    if h.signal == VisitorContinuation::Descend {
        V::lemma_on_exp_bounded(t.state, typed);
        let w = walk_unannotated::<V>(h.state, h.node.value);
        lemma_replay_unannotated::<V>(h.state, h.node.value);
        lemma_then::<V>(s, t.trace + seq![Event::Exp(typed)], h.state, w.trace, w.state);
    }
}

/// The walk of a variable that an expression refers to leaves the visitor
/// in the state in which its calls leave it.
pub proof fn lemma_replay_var_use<V: Visitor>(s: V::V, var: Var)
    ensures
        walk_var_use::<V>(s, var).state == after_calls::<V>(s, walk_var_use::<V>(s, var).trace),
{
    lemma_after_one::<V>(s, Event::VarUse(var));
}

/// The walk of a type, then the walk of an expression.
proof fn lemma_replay_type_exp<V: Visitor>(s: V::V, ty: TypeView, e: ExpView)
    ensures
        ({
            let a = walk_type::<V>(s, ty);
            let b = walk_exp::<V>(a.state, e);
            b.state == after_calls::<V>(s, a.trace + b.trace)
        }),
    decreases exp_height(e), 2nat, 0nat,
{
    let a = walk_type::<V>(s, ty);
    let b = walk_exp::<V>(a.state, e);
    lemma_replay_type::<V>(s, ty);
    lemma_replay_exp::<V>(a.state, e);
    lemma_then::<V>(s, a.trace, a.state, b.trace, b.state);
}

/// The walk of what an expression holds leaves the visitor in the state in
/// which its calls leave it.
pub proof fn lemma_replay_unannotated<V: Visitor>(s: V::V, u: UnannotatedExpView)
    ensures
        walk_unannotated::<V>(s, u).state == after_calls::<V>(
            s,
            walk_unannotated::<V>(s, u).trace,
        ),
    decreases unannotated_height(u), 0nat, 0nat,
{
    match u {
        UnannotatedExpView::ModuleCall(mc) => {
            let a = walk_types::<V>(s, mc.type_arguments);
            let b = walk_types::<V>(a.state, mc.parameter_types);
            let c = walk_exp::<V>(b.state, mc.arguments);
            lemma_replay_types::<V>(s, mc.type_arguments);
            lemma_replay_types::<V>(a.state, mc.parameter_types);
            lemma_replay_exp::<V>(b.state, mc.arguments);
            lemma_then::<V>(s, a.trace, a.state, b.trace, b.state);
            lemma_then::<V>(s, a.trace + b.trace, b.state, c.trace, c.state);
        },
        UnannotatedExpView::Use(var) => {
            lemma_replay_var_use::<V>(s, var);
        },
        UnannotatedExpView::Copy { from_user, var } => {
            lemma_replay_var_use::<V>(s, var);
        },
        UnannotatedExpView::Move { from_user, var } => {
            lemma_replay_var_use::<V>(s, var);
        },
        UnannotatedExpView::BorrowLocal(_, var) => {
            lemma_replay_var_use::<V>(s, var);
        },
        UnannotatedExpView::VarCall(var, args) => {
            let a = walk_var_use::<V>(s, var);
            let b = walk_exp::<V>(a.state, *args);
            lemma_replay_var_use::<V>(s, var);
            lemma_replay_exp::<V>(a.state, *args);
            lemma_then::<V>(s, a.trace, a.state, b.trace, b.state);
        },
        UnannotatedExpView::Lambda(params, body) => {
            let s1 = V::on_enter_scope(s);
            let a = walk_lvalue_list::<V>(s1, params, true);
            let b = walk_exp::<V>(a.state, *body);
            lemma_after_one::<V>(s, Event::EnterScope);
            lemma_replay_pattern::<V>(s1, params, true);
            lemma_replay_exp::<V>(a.state, *body);
            lemma_then::<V>(s, seq![Event::EnterScope], s1, a.trace, a.state);
            lemma_then::<V>(s, seq![Event::EnterScope] + a.trace, a.state, b.trace, b.state);
            lemma_then_one::<V>(
                s,
                seq![Event::EnterScope] + a.trace + b.trace,
                b.state,
                Event::ExitScope,
            );
        },
        UnannotatedExpView::IfElse(c, t, f) => {
            let a = walk_exp::<V>(s, *c);
            let b = walk_exp::<V>(a.state, *t);
            let d = walk_exp::<V>(b.state, *f);
            lemma_replay_exp::<V>(s, *c);
            lemma_replay_exp::<V>(a.state, *t);
            lemma_replay_exp::<V>(b.state, *f);
            lemma_then::<V>(s, a.trace, a.state, b.trace, b.state);
            lemma_then::<V>(s, a.trace + b.trace, b.state, d.trace, d.state);
        },
        UnannotatedExpView::While(_, body) => {
            lemma_replay_exp::<V>(s, *body);
        },
        UnannotatedExpView::Loop { has_break, body } => {
            lemma_replay_exp::<V>(s, *body);
        },
        UnannotatedExpView::Block(seq) => {
            lemma_replay_sequence::<V>(s, seq);
        },
        UnannotatedExpView::Mutate(dst, src) => {
            let a = walk_exp::<V>(s, *dst);
            let b = walk_exp::<V>(a.state, *src);
            lemma_replay_exp::<V>(s, *dst);
            lemma_replay_exp::<V>(a.state, *src);
            lemma_then::<V>(s, a.trace, a.state, b.trace, b.state);
        },
        UnannotatedExpView::BinopExp(l, _, ty, r) => {
            let a = walk_type::<V>(s, ty);
            let b = walk_exp::<V>(a.state, *l);
            let c = walk_exp::<V>(b.state, *r);
            lemma_replay_type_exp::<V>(s, ty, *l);
            lemma_replay_exp::<V>(b.state, *r);
            lemma_then::<V>(s, a.trace + b.trace, b.state, c.trace, c.state);
        },
        UnannotatedExpView::Pack(_, _, tys, fields) => {
            let a = walk_types::<V>(s, tys);
            let b = walk_field_inits::<V>(a.state, fields);
            lemma_replay_types::<V>(s, tys);
            lemma_replay_field_inits::<V>(a.state, fields);
            lemma_then::<V>(s, a.trace, a.state, b.trace, b.state);
        },
        UnannotatedExpView::ExpList(items) => {
            lemma_replay_list_items::<V>(s, items);
        },
        UnannotatedExpView::Assign(lhs, tys, rhs) => {
            let a = walk_lvalue_list::<V>(s, lhs, false);
            let b = walk_opt_types::<V>(a.state, tys);
            let c = walk_exp::<V>(b.state, *rhs);
            lemma_replay_pattern::<V>(s, lhs, false);
            lemma_replay_opt_types::<V>(a.state, tys);
            lemma_replay_exp::<V>(b.state, *rhs);
            lemma_then::<V>(s, a.trace, a.state, b.trace, b.state);
            lemma_then::<V>(s, a.trace + b.trace, b.state, c.trace, c.state);
        },
        UnannotatedExpView::Vector(_, _, ty, e) => {
            lemma_replay_type_exp::<V>(s, ty, *e);
        },
        UnannotatedExpView::Cast(e, ty) => {
            lemma_replay_type_exp::<V>(s, ty, *e);
        },
        UnannotatedExpView::Annotate(e, ty) => {
            lemma_replay_type_exp::<V>(s, ty, *e);
        },
        UnannotatedExpView::Builtin(_, e) => {
            lemma_replay_exp::<V>(s, *e);
        },
        UnannotatedExpView::Return(e) => {
            lemma_replay_exp::<V>(s, *e);
        },
        UnannotatedExpView::Abort(e) => {
            lemma_replay_exp::<V>(s, *e);
        },
        UnannotatedExpView::Dereference(e) => {
            lemma_replay_exp::<V>(s, *e);
        },
        UnannotatedExpView::UnaryExp(_, e) => {
            lemma_replay_exp::<V>(s, *e);
        },
        UnannotatedExpView::Borrow(_, e, _) => {
            lemma_replay_exp::<V>(s, *e);
        },
        UnannotatedExpView::TempBorrow(_, e) => {
            lemma_replay_exp::<V>(s, *e);
        },
        _ => {},
    }
}

/// The walk of the fields of a struct construction leaves the visitor in
/// the state in which its calls leave it.
pub proof fn lemma_replay_field_inits<V: Visitor>(s: V::V, fs: Seq<FieldInitView>)
    ensures
        walk_field_inits::<V>(s, fs).state == after_calls::<V>(
            s,
            walk_field_inits::<V>(s, fs).trace,
        ),
    decreases field_inits_height(fs), 3nat, fs.len(),
{
    if fs.len() > 0 {
        let w = walk_field_inits::<V>(s, fs.drop_last());
        let f = fs.last();
        let x = walk_field_init::<V>(w.state, f);
        lemma_replay_field_inits::<V>(s, fs.drop_last());
        lemma_replay_type_exp::<V>(w.state, f.ty, f.init);
        lemma_then::<V>(s, w.trace, w.state, x.trace, x.state);
    }
}

/// The walk of one item of an expression list leaves the visitor in the
/// state in which its calls leave it.
pub proof fn lemma_replay_list_item<V: Visitor>(s: V::V, item: ExpListItemView)
    ensures
        walk_list_item::<V>(s, item).state == after_calls::<V>(
            s,
            walk_list_item::<V>(s, item).trace,
        ),
    decreases list_item_height(item), 3nat, 0nat,
{
    match item {
        ExpListItemView::Single(e, ty) => {
            lemma_replay_type_exp::<V>(s, ty, e);
        },
        ExpListItemView::Splat(_, e, tys) => {
            let a = walk_types::<V>(s, tys);
            let b = walk_exp::<V>(a.state, e);
            lemma_replay_types::<V>(s, tys);
            lemma_replay_exp::<V>(a.state, e);
            lemma_then::<V>(s, a.trace, a.state, b.trace, b.state);
        },
    }
}

/// The walk of an expression list leaves the visitor in the state in which
/// its calls leave it.
pub proof fn lemma_replay_list_items<V: Visitor>(s: V::V, items: Seq<ExpListItemView>)
    ensures
        walk_list_items::<V>(s, items).state == after_calls::<V>(
            s,
            walk_list_items::<V>(s, items).trace,
        ),
    decreases list_items_height(items), 4nat, items.len(),
{
    if items.len() > 0 {
        let w = walk_list_items::<V>(s, items.drop_last());
        let x = walk_list_item::<V>(w.state, items.last());
        lemma_replay_list_items::<V>(s, items.drop_last());
        lemma_replay_list_item::<V>(w.state, items.last());
        lemma_then::<V>(s, w.trace, w.state, x.trace, x.state);
    }
}

/// The walk of a statement leaves the visitor in the state in which its calls
/// leave it.
pub proof fn lemma_replay_statement<V: Visitor>(s: V::V, item: SequenceItemView)
    ensures
        walk_statement::<V>(s, item).state == after_calls::<V>(
            s,
            walk_statement::<V>(s, item).trace,
        ),
    decreases statement_height(item), 3nat, 0nat,
{
    let s1 = V::on_enter_scope(s);
    lemma_after_one::<V>(s, Event::EnterScope);
    match item.value {
        SequenceItemView_::Exp(e) => {
            lemma_replay_exp::<V>(s, *e);
        },
        SequenceItemView_::Declare(decls) => {
            let a = walk_lvalue_list::<V>(s1, decls, true);
            lemma_replay_pattern::<V>(s1, decls, true);
            lemma_then::<V>(s, seq![Event::EnterScope], s1, a.trace, a.state);
        },
        SequenceItemView_::Bind(decls, tys, e) => {
            let a = walk_lvalue_list::<V>(s1, decls, true);
            let b = walk_opt_types::<V>(a.state, tys);
            let c = walk_exp::<V>(b.state, *e);
            lemma_replay_pattern::<V>(s1, decls, true);
            lemma_replay_opt_types::<V>(a.state, tys);
            lemma_replay_exp::<V>(b.state, *e);
            lemma_then::<V>(s, seq![Event::EnterScope], s1, a.trace, a.state);
            lemma_then::<V>(s, seq![Event::EnterScope] + a.trace, a.state, b.trace, b.state);
            lemma_then::<V>(
                s,
                seq![Event::EnterScope] + a.trace + b.trace,
                b.state,
                c.trace,
                c.state,
            );
        },
    }
}

/// The walk of the statements of a sequence leaves the visitor in the state
/// in which its calls leave it.
pub proof fn lemma_replay_statements<V: Visitor>(s: V::V, items: Seq<SequenceItemView>)
    ensures
        walk_statements::<V>(s, items).state == after_calls::<V>(
            s,
            walk_statements::<V>(s, items).trace,
        ),
    decreases sequence_height(items), 4nat, items.len(),
{
    if items.len() > 0 {
        let w = walk_statements::<V>(s, items.drop_last());
        let x = walk_statement::<V>(w.state, items.last());
        lemma_replay_statements::<V>(s, items.drop_last());
        lemma_replay_statement::<V>(w.state, items.last());
        lemma_then::<V>(s, w.trace, w.state, x.trace, x.state);
    }
}

/// The calls of `exit_scope` at the end of a sequence leave the visitor in
/// the state in which the walk of the sequence leaves it.
pub proof fn lemma_replay_exits<V: Visitor>(s: V::V, n: nat)
    ensures
        exit_scopes::<V>(s, n) == after_calls::<V>(s, exits(n)),
    decreases n,
{
    if n == 0 {
        assert(exits(0) =~= Seq::<Event>::empty());
    } else {
        let s1 = V::on_exit_scope(s);
        lemma_replay_exits::<V>(s1, (n - 1) as nat);
        lemma_after_one::<V>(s, Event::ExitScope);
        lemma_then::<V>(
            s,
            seq![Event::ExitScope],
            s1,
            exits((n - 1) as nat),
            exit_scopes::<V>(s, n),
        );
        assert(seq![Event::ExitScope] + exits((n - 1) as nat) =~= exits(n));
    }
}

/// The walk of a sequence leaves the visitor in the state in which its calls
/// leave it.
pub proof fn lemma_replay_sequence<V: Visitor>(s: V::V, items: Seq<SequenceItemView>)
    ensures
        walk_sequence::<V>(s, items).state == after_calls::<V>(
            s,
            walk_sequence::<V>(s, items).trace,
        ),
    decreases sequence_height(items), 5nat, 0nat,
{
    let w = walk_statements::<V>(s, items);
    let n = opened_scopes(items);
    lemma_replay_statements::<V>(s, items);
    lemma_replay_exits::<V>(w.state, n);
    lemma_then::<V>(s, w.trace, w.state, exits(n), exit_scopes::<V>(w.state, n));
}

/// The walk of the parameters of a function leaves the visitor in the state
/// in which its calls leave it.
pub proof fn lemma_replay_parameters<V: Visitor>(s: V::V, ps: Seq<(Var, TypeView)>)
    ensures
        walk_parameters::<V>(s, ps).state == after_calls::<V>(
            s,
            walk_parameters::<V>(s, ps).trace,
        ),
    decreases ps.len(),
{
    reveal(walk_parameters);
    if ps.len() > 0 {
        let w = walk_parameters::<V>(s, ps.drop_last());
        let p = ps.last();
        let a = walk_type::<V>(w.state, p.1);
        let x = walk_parameter::<V>(w.state, p);
        lemma_replay_parameters::<V>(s, ps.drop_last());
        lemma_replay_type::<V>(w.state, p.1);
        lemma_then_one::<V>(w.state, a.trace, a.state, Event::VarDecl(p.0));
        lemma_then::<V>(s, w.trace, w.state, x.trace, x.state);
    }
}

/// The state in which the walk of a function leaves the visitor is the
/// state in which the calls of the walk, made one after the other from
/// the first to the last, leave it: the walk does to the visitor what its
/// calls do, and nothing else.
pub proof fn law_function_walk_is_its_calls<V: Visitor>(s: V::V, f: FunctionView)
    ensures
        walk_function::<V>(s, f).state == after_calls::<V>(s, walk_function::<V>(s, f).trace),
{
    let s1 = V::on_enter_scope(s);
    let p = walk_parameters::<V>(s1, f.parameters);
    let b = walk_body::<V>(p.state, f.body);
    lemma_after_one::<V>(s, Event::EnterScope);
    lemma_replay_parameters::<V>(s1, f.parameters);
    match f.body {
        FunctionBodyView::Defined(seq) => {
            lemma_replay_sequence::<V>(p.state, seq);
        },
        FunctionBodyView::Native => {},
    }
    lemma_then::<V>(s, seq![Event::EnterScope], s1, p.trace, p.state);
    lemma_then::<V>(s, seq![Event::EnterScope] + p.trace, p.state, b.trace, b.state);
    lemma_then_one::<V>(
        s,
        seq![Event::EnterScope] + p.trace + b.trace,
        b.state,
        Event::ExitScope,
    );
}

} // verus!
