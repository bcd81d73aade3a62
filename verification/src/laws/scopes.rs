//! Scopes are bracketed: in every walk each `exit_scope` closes the scope
//! that was opened last and is still open, and every scope opened is
//! closed.

use vstd::prelude::*;
use crate::ast::Var;
use crate::laws::patterns::law_pattern_walk_calls;
use crate::laws::types::{law_opt_types_walk_calls, law_type_walk_calls, law_types_walk_calls};
use crate::model::{
    exp_height, field_inits_height, list_item_height, list_items_height, sequence_height,
    statement_height, unannotated_height, ExpListItemView, ExpView, FieldInitView, FunctionBodyView,
    FunctionView, SequenceItemView, SequenceItemView_, TypeView, UnannotatedExpView,
};
use crate::trace::{
    balanced, leaves_open, lemma_balanced_concat, lemma_bracketed, lemma_closed_by_exits,
    lemma_empty, lemma_leaves_open_concat, lemma_pattern_events_balanced,
    lemma_pattern_events_concat, lemma_single, lemma_type_events_are_pattern_events,
    lemma_type_events_balanced, pattern_events_only,
};
use crate::visitor::{Visitor, VisitorContinuation};
use crate::walk::{
    opened_scopes, opens_scope, walk_body, walk_exp, walk_field_init, walk_field_inits,
    walk_function, walk_list_item, walk_list_items, walk_lvalue_list, walk_opt_types,
    walk_parameter, walk_parameters, walk_sequence, walk_statement, walk_statements, walk_type,
    walk_types, walk_unannotated, walk_var_use, Event,
};

verus! {

/// The walk of a type opens and closes no scope.
pub proof fn law_type_scopes<V: Visitor>(s: V::V, t: TypeView)
    ensures
        balanced(walk_type::<V>(s, t).trace),
{
    law_type_walk_calls::<V>(s, t);
    lemma_type_events_balanced(walk_type::<V>(s, t).trace);
}

/// The walk of a list of types opens and closes no scope.
pub proof fn law_types_scopes<V: Visitor>(s: V::V, ts: Seq<TypeView>)
    ensures
        balanced(walk_types::<V>(s, ts).trace),
{
    law_types_walk_calls::<V>(s, ts);
    lemma_type_events_balanced(walk_types::<V>(s, ts).trace);
}

/// The walk of an expression is balanced, however its binds, declares and
/// lambdas are nested.
pub proof fn law_exp_scopes<V: Visitor>(s: V::V, e: ExpView)
    ensures
        balanced(walk_exp::<V>(s, e).trace),
    decreases exp_height(e), 1nat, 0nat,
{
    let t = walk_type::<V>(s, e.ty);
    let typed = ExpView { ty: t.node, loc: e.loc, value: e.value };
    let h = V::on_exp(t.state, typed);
    let call = seq![Event::Exp(typed)];
    law_type_scopes::<V>(s, e.ty);
    lemma_single(Event::Exp(typed));
    lemma_balanced_concat(t.trace, call);
    if h.signal == VisitorContinuation::Descend {
        V::lemma_on_exp_bounded(t.state, typed);
        law_unannotated_scopes::<V>(h.state, h.node.value);
        lemma_balanced_concat(t.trace + call, walk_unannotated::<V>(h.state, h.node.value).trace);
    }
}

/// The walk of what an expression holds is balanced.
pub proof fn law_unannotated_scopes<V: Visitor>(s: V::V, u: UnannotatedExpView)
    ensures
        balanced(walk_unannotated::<V>(s, u).trace),
    decreases unannotated_height(u), 0nat, 0nat,
{
    lemma_empty();
    match u {
        UnannotatedExpView::ModuleCall(mc) => {
            let a = walk_types::<V>(s, mc.type_arguments);
            let b = walk_types::<V>(a.state, mc.parameter_types);
            let c = walk_exp::<V>(b.state, mc.arguments);
            law_types_scopes::<V>(s, mc.type_arguments);
            law_types_scopes::<V>(a.state, mc.parameter_types);
            law_exp_scopes::<V>(b.state, mc.arguments);
            lemma_balanced_concat(a.trace, b.trace);
            lemma_balanced_concat(a.trace + b.trace, c.trace);
        },
        UnannotatedExpView::Use(var) => {
            lemma_single(Event::VarUse(var));
        },
        UnannotatedExpView::Copy { from_user, var } => {
            lemma_single(Event::VarUse(var));
        },
        UnannotatedExpView::Move { from_user, var } => {
            lemma_single(Event::VarUse(var));
        },
        UnannotatedExpView::BorrowLocal(_, var) => {
            lemma_single(Event::VarUse(var));
        },
        UnannotatedExpView::VarCall(var, args) => {
            let a = walk_var_use::<V>(s, var);
            lemma_single(Event::VarUse(var));
            law_exp_scopes::<V>(a.state, *args);
            lemma_balanced_concat(a.trace, walk_exp::<V>(a.state, *args).trace);
        },
        UnannotatedExpView::Lambda(params, body) => {
            let a = walk_lvalue_list::<V>(V::on_enter_scope(s), params, true);
            let b = walk_exp::<V>(a.state, *body);
            law_pattern_walk_calls::<V>(V::on_enter_scope(s), params, true);
            lemma_pattern_events_balanced(a.trace, true);
            law_exp_scopes::<V>(a.state, *body);
            lemma_balanced_concat(a.trace, b.trace);
            lemma_bracketed(a.trace + b.trace);
            assert(seq![Event::EnterScope] + (a.trace + b.trace) =~= seq![Event::EnterScope]
                + a.trace + b.trace);
        },
        UnannotatedExpView::IfElse(c, t, f) => {
            let a = walk_exp::<V>(s, *c);
            let b = walk_exp::<V>(a.state, *t);
            let d = walk_exp::<V>(b.state, *f);
            law_exp_scopes::<V>(s, *c);
            law_exp_scopes::<V>(a.state, *t);
            law_exp_scopes::<V>(b.state, *f);
            lemma_balanced_concat(a.trace, b.trace);
            lemma_balanced_concat(a.trace + b.trace, d.trace);
        },
        UnannotatedExpView::While(_, body) => {
            law_exp_scopes::<V>(s, *body);
        },
        UnannotatedExpView::Loop { has_break, body } => {
            law_exp_scopes::<V>(s, *body);
        },
        UnannotatedExpView::Block(seq) => {
            law_sequence_scopes::<V>(s, seq);
        },
        UnannotatedExpView::Mutate(dst, src) => {
            let a = walk_exp::<V>(s, *dst);
            law_exp_scopes::<V>(s, *dst);
            law_exp_scopes::<V>(a.state, *src);
            lemma_balanced_concat(a.trace, walk_exp::<V>(a.state, *src).trace);
        },
        UnannotatedExpView::BinopExp(l, _, ty, r) => {
            let a = walk_type::<V>(s, ty);
            let b = walk_exp::<V>(a.state, *l);
            let c = walk_exp::<V>(b.state, *r);
            law_type_scopes::<V>(s, ty);
            law_exp_scopes::<V>(a.state, *l);
            law_exp_scopes::<V>(b.state, *r);
            lemma_balanced_concat(a.trace, b.trace);
            lemma_balanced_concat(a.trace + b.trace, c.trace);
        },
        UnannotatedExpView::Pack(_, _, tys, fields) => {
            let a = walk_types::<V>(s, tys);
            law_types_scopes::<V>(s, tys);
            law_field_inits_scopes::<V>(a.state, fields);
            lemma_balanced_concat(a.trace, walk_field_inits::<V>(a.state, fields).trace);
        },
        UnannotatedExpView::ExpList(items) => {
            law_list_items_scopes::<V>(s, items);
        },
        UnannotatedExpView::Assign(lhs, tys, rhs) => {
            let a = walk_lvalue_list::<V>(s, lhs, false);
            let b = walk_opt_types::<V>(a.state, tys);
            let c = walk_exp::<V>(b.state, *rhs);
            law_pattern_walk_calls::<V>(s, lhs, false);
            lemma_pattern_events_balanced(a.trace, false);
            law_opt_types_walk_calls::<V>(a.state, tys);
            lemma_type_events_balanced(b.trace);
            law_exp_scopes::<V>(b.state, *rhs);
            lemma_balanced_concat(a.trace, b.trace);
            lemma_balanced_concat(a.trace + b.trace, c.trace);
        },
        UnannotatedExpView::Vector(_, _, ty, e) => {
            let a = walk_type::<V>(s, ty);
            law_type_scopes::<V>(s, ty);
            law_exp_scopes::<V>(a.state, *e);
            lemma_balanced_concat(a.trace, walk_exp::<V>(a.state, *e).trace);
        },
        UnannotatedExpView::Cast(e, ty) => {
            let a = walk_type::<V>(s, ty);
            law_type_scopes::<V>(s, ty);
            law_exp_scopes::<V>(a.state, *e);
            lemma_balanced_concat(a.trace, walk_exp::<V>(a.state, *e).trace);
        },
        UnannotatedExpView::Annotate(e, ty) => {
            let a = walk_type::<V>(s, ty);
            law_type_scopes::<V>(s, ty);
            law_exp_scopes::<V>(a.state, *e);
            lemma_balanced_concat(a.trace, walk_exp::<V>(a.state, *e).trace);
        },
        UnannotatedExpView::Builtin(_, e) => {
            law_exp_scopes::<V>(s, *e);
        },
        UnannotatedExpView::Return(e) => {
            law_exp_scopes::<V>(s, *e);
        },
        UnannotatedExpView::Abort(e) => {
            law_exp_scopes::<V>(s, *e);
        },
        UnannotatedExpView::Dereference(e) => {
            law_exp_scopes::<V>(s, *e);
        },
        UnannotatedExpView::UnaryExp(_, e) => {
            law_exp_scopes::<V>(s, *e);
        },
        UnannotatedExpView::Borrow(_, e, _) => {
            law_exp_scopes::<V>(s, *e);
        },
        UnannotatedExpView::TempBorrow(_, e) => {
            law_exp_scopes::<V>(s, *e);
        },
        _ => {},
    }
}

/// The walk of the fields of a struct construction is balanced.
pub proof fn law_field_inits_scopes<V: Visitor>(s: V::V, fs: Seq<FieldInitView>)
    ensures
        balanced(walk_field_inits::<V>(s, fs).trace),
    decreases field_inits_height(fs), 3nat, fs.len(),
{
    lemma_empty();
    if fs.len() > 0 {
        let w = walk_field_inits::<V>(s, fs.drop_last());
        let f = fs.last();
        let a = walk_type::<V>(w.state, f.ty);
        let b = walk_exp::<V>(a.state, f.init);
        law_field_inits_scopes::<V>(s, fs.drop_last());
        law_type_scopes::<V>(w.state, f.ty);
        law_exp_scopes::<V>(a.state, f.init);
        lemma_balanced_concat(a.trace, b.trace);
        lemma_balanced_concat(w.trace, a.trace + b.trace);
        assert(walk_field_init::<V>(w.state, f).trace == a.trace + b.trace);
    }
}

/// The walk of one item of an expression list is balanced.
pub proof fn law_list_item_scopes<V: Visitor>(s: V::V, item: ExpListItemView)
    ensures
        balanced(walk_list_item::<V>(s, item).trace),
    decreases list_item_height(item), 2nat, 0nat,
{
    match item {
        ExpListItemView::Single(e, ty) => {
            let a = walk_type::<V>(s, ty);
            law_type_scopes::<V>(s, ty);
            law_exp_scopes::<V>(a.state, e);
            lemma_balanced_concat(a.trace, walk_exp::<V>(a.state, e).trace);
        },
        ExpListItemView::Splat(_, e, tys) => {
            let a = walk_types::<V>(s, tys);
            law_types_scopes::<V>(s, tys);
            law_exp_scopes::<V>(a.state, e);
            lemma_balanced_concat(a.trace, walk_exp::<V>(a.state, e).trace);
        },
    }
}

/// The walk of an expression list is balanced.
pub proof fn law_list_items_scopes<V: Visitor>(s: V::V, items: Seq<ExpListItemView>)
    ensures
        balanced(walk_list_items::<V>(s, items).trace),
    decreases list_items_height(items), 3nat, items.len(),
{
    lemma_empty();
    if items.len() > 0 {
        let w = walk_list_items::<V>(s, items.drop_last());
        law_list_items_scopes::<V>(s, items.drop_last());
        law_list_item_scopes::<V>(w.state, items.last());
        lemma_balanced_concat(w.trace, walk_list_item::<V>(w.state, items.last()).trace);
    }
}

/// The walk of a statement never closes a scope that it did not open
/// itself. The walk of a bind or a declare leaves one scope open, the one
/// it opened first; the walk of a plain expression leaves none.
pub proof fn law_statement_scopes<V: Visitor>(s: V::V, item: SequenceItemView)
    ensures
        leaves_open(
            walk_statement::<V>(s, item).trace,
            if opens_scope(item) {
                1
            } else {
                0
            },
        ),
    decreases statement_height(item), 2nat, 0nat,
{
    lemma_single(Event::EnterScope);
    match item.value {
        SequenceItemView_::Exp(e) => {
            law_exp_scopes::<V>(s, *e);
        },
        SequenceItemView_::Declare(decls) => {
            let a = walk_lvalue_list::<V>(V::on_enter_scope(s), decls, true);
            law_pattern_walk_calls::<V>(V::on_enter_scope(s), decls, true);
            lemma_pattern_events_balanced(a.trace, true);
            lemma_leaves_open_concat(seq![Event::EnterScope], 1, a.trace, 0);
        },
        SequenceItemView_::Bind(decls, tys, e) => {
            let a = walk_lvalue_list::<V>(V::on_enter_scope(s), decls, true);
            let b = walk_opt_types::<V>(a.state, tys);
            let c = walk_exp::<V>(b.state, *e);
            law_pattern_walk_calls::<V>(V::on_enter_scope(s), decls, true);
            lemma_pattern_events_balanced(a.trace, true);
            law_opt_types_walk_calls::<V>(a.state, tys);
            lemma_type_events_balanced(b.trace);
            law_exp_scopes::<V>(b.state, *e);
            lemma_leaves_open_concat(seq![Event::EnterScope], 1, a.trace, 0);
            lemma_leaves_open_concat(seq![Event::EnterScope] + a.trace, 1, b.trace, 0);
            lemma_leaves_open_concat(seq![Event::EnterScope] + a.trace + b.trace, 1, c.trace, 0);
        },
    }
}

/// The walk of the statements of a sequence never closes a scope that
/// they did not open, and leaves open one scope for each bind and each
/// declare among them.
pub proof fn law_statements_scopes<V: Visitor>(s: V::V, items: Seq<SequenceItemView>)
    ensures
        leaves_open(walk_statements::<V>(s, items).trace, opened_scopes(items) as int),
    decreases sequence_height(items), 3nat, items.len(),
{
    lemma_empty();
    if items.len() > 0 {
        let w = walk_statements::<V>(s, items.drop_last());
        let x = walk_statement::<V>(w.state, items.last());
        law_statements_scopes::<V>(s, items.drop_last());
        law_statement_scopes::<V>(w.state, items.last());
        lemma_leaves_open_concat(
            w.trace,
            opened_scopes(items.drop_last()) as int,
            x.trace,
            if opens_scope(items.last()) {
                1
            } else {
                0
            },
        );
    }
}

/// The walk of a sequence is balanced: the scopes that its binds and
/// declares open stay open through the statements after them and are all
/// closed at the end of the sequence.
pub proof fn law_sequence_scopes<V: Visitor>(s: V::V, items: Seq<SequenceItemView>)
    ensures
        balanced(walk_sequence::<V>(s, items).trace),
    decreases sequence_height(items), 4nat, 0nat,
{
    law_statements_scopes::<V>(s, items);
    lemma_closed_by_exits(walk_statements::<V>(s, items).trace, opened_scopes(items));
}

/// The walk of the parameters of a function calls `var_decl`, walks types
/// and calls no other hook.
pub proof fn law_parameters_walk_calls<V: Visitor>(s: V::V, ps: Seq<(Var, TypeView)>)
    ensures
        pattern_events_only(walk_parameters::<V>(s, ps).trace, true),
    decreases ps.len(),
{
    reveal(walk_parameters);
    if ps.len() > 0 {
        let w = walk_parameters::<V>(s, ps.drop_last());
        let p = ps.last();
        let a = walk_type::<V>(w.state, p.1);
        law_parameters_walk_calls::<V>(s, ps.drop_last());
        law_type_walk_calls::<V>(w.state, p.1);
        lemma_type_events_are_pattern_events(a.trace, true);
        lemma_pattern_events_concat(a.trace, seq![Event::VarDecl(p.0)], true);
        lemma_pattern_events_concat(w.trace, a.trace + seq![Event::VarDecl(p.0)], true);
        assert(walk_parameter::<V>(w.state, p).trace == a.trace + seq![Event::VarDecl(p.0)]);
    }
}

/// For every function, every call of `enter_scope` is matched by one call
/// of `exit_scope`, and the matching is last opened, first closed: the
/// walk of a function is balanced, and so is the walk of a native one.
pub proof fn law_function_scopes<V: Visitor>(s: V::V, f: FunctionView)
    ensures
        balanced(walk_function::<V>(s, f).trace),
{
    let p = walk_parameters::<V>(V::on_enter_scope(s), f.parameters);
    let b = walk_body::<V>(p.state, f.body);
    law_parameters_walk_calls::<V>(V::on_enter_scope(s), f.parameters);
    lemma_pattern_events_balanced(p.trace, true);
    lemma_empty();
    match f.body {
        FunctionBodyView::Defined(seq) => {
            law_sequence_scopes::<V>(p.state, seq);
        },
        FunctionBodyView::Native => {},
    }
    lemma_balanced_concat(p.trace, b.trace);
    lemma_bracketed(p.trace + b.trace);
    assert(seq![Event::EnterScope] + (p.trace + b.trace) =~= seq![Event::EnterScope] + p.trace
        + b.trace);
}

} // verus!
