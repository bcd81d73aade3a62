//! The walk as a mathematical function: for a visitor state and a node, the
//! state and the node that the walk leaves and the hook calls it makes, in
//! order.

use vstd::prelude::*;
use crate::ast::Var;
use crate::model::{
    exp_height, field_bindings_height, field_inits_height, list_item_height, list_items_height,
    lvalue_height, sequence_height, statement_height, type_height, types_height, unannotated_height,
    ExpListItemView, ExpView, FieldBindingView, FieldInitView, FunctionBodyView, FunctionView,
    LValueListView, LValueView, LValueView_, ModuleCallView, SequenceItemView, SequenceItemView_,
    TypeView, TypeView_, UnannotatedExpView,
};
use crate::visitor::{Visitor, VisitorContinuation};

verus! {

/// One call of a hook, with the node or variable as it was handed over.
pub enum Event {
    EnterScope,
    ExitScope,
    VarDecl(Var),
    VarUse(Var),
    Type(TypeView),
    Exp(ExpView),
    InferAbilities(TypeView),
}

/// The outcome of a walk: the visitor's state and the node afterwards, and
/// the hook calls made on the way.
pub struct Walk<S, N> {
    pub state: S,
    pub node: N,
    pub trace: Seq<Event>,
}

// Types

/// The walk of one type node: the type hook, then, unless it said `Stop`,
/// the referent of a reference, or the arguments of an applied type in
/// order followed by `infer_abilities` on the node.
#[verifier::opaque]
pub open spec fn walk_type<V: Visitor>(s: V::V, t: TypeView) -> Walk<V::V, TypeView>
    decreases type_height(t), 0nat, 0nat,
{
    let h = V::on_type(s, t);
    let call = seq![Event::Type(t)];
    if h.signal == VisitorContinuation::Stop {
        Walk { state: h.state, node: h.node, trace: call }
    } else {
        proof {
            V::lemma_on_type_bounded(s, t);
        }
        match h.node.value {
            TypeView_::Ref(mutable, inner) => {
                let w = walk_type::<V>(h.state, *inner);
                Walk {
                    state: w.state,
                    node: TypeView { loc: h.node.loc, value: TypeView_::Ref(mutable, Box::new(w.node)) },
                    trace: call + w.trace,
                }
            },
            TypeView_::Apply(abilities, name, args) => {
                let w = walk_types::<V>(h.state, args);
                let visited = TypeView {
                    loc: h.node.loc,
                    value: TypeView_::Apply(abilities, name, w.node),
                };
                let inferred = V::on_infer_abilities(w.state, visited);
                Walk {
                    state: inferred.0,
                    node: inferred.1,
                    trace: call + w.trace + seq![Event::InferAbilities(visited)],
                }
            },
            _ => Walk { state: h.state, node: h.node, trace: call },
        }
    }
}

/// The walk of a list of types, first to last.
#[verifier::opaque]
pub open spec fn walk_types<V: Visitor>(s: V::V, ts: Seq<TypeView>) -> Walk<V::V, Seq<TypeView>>
    decreases types_height(ts), 1nat, ts.len(),
{
    if ts.len() == 0 {
        Walk { state: s, node: ts, trace: Seq::empty() }
    } else {
        let w = walk_types::<V>(s, ts.drop_last());
        let x = walk_type::<V>(w.state, ts.last());
        Walk { state: x.state, node: w.node.push(x.node), trace: w.trace + x.trace }
    }
}

/// The walk of a type that may be absent.
pub open spec fn walk_opt_type<V: Visitor>(s: V::V, t: Option<TypeView>) -> Walk<
    V::V,
    Option<TypeView>,
> {
    match t {
        Some(t) => {
            let w = walk_type::<V>(s, t);
            Walk { state: w.state, node: Some(w.node), trace: w.trace }
        },
        None => Walk { state: s, node: None, trace: Seq::empty() },
    }
}

/// The walk of the types that are present in a list, first to last.
#[verifier::opaque]
pub open spec fn walk_opt_types<V: Visitor>(s: V::V, ts: Seq<Option<TypeView>>) -> Walk<
    V::V,
    Seq<Option<TypeView>>,
>
    decreases ts.len(),
{
    if ts.len() == 0 {
        Walk { state: s, node: ts, trace: Seq::empty() }
    } else {
        let w = walk_opt_types::<V>(s, ts.drop_last());
        let x = walk_opt_type::<V>(w.state, ts.last());
        Walk { state: x.state, node: w.node.push(x.node), trace: w.trace + x.trace }
    }
}

// Binding targets

/// The walk of one binding target. A variable: its ascribed type if it has
/// one, then `var_decl` where the pattern declares and `var_use` where it
/// assigns. A destructuring: its type arguments, then its fields in order.
#[verifier::opaque]
pub open spec fn walk_lvalue<V: Visitor>(s: V::V, lv: LValueView, declared: bool) -> Walk<
    V::V,
    LValueView,
>
    decreases lvalue_height(lv), 0nat, 0nat,
{
    match lv.value {
        LValueView_::Ignore => Walk { state: s, node: lv, trace: Seq::empty() },
        LValueView_::Var(var, ty) => {
            let t = walk_opt_type::<V>(s, ty);
            let named = if declared {
                V::on_var_decl(t.state, var)
            } else {
                V::on_var_use(t.state, var)
            };
            let call = if declared {
                Event::VarDecl(var)
            } else {
                Event::VarUse(var)
            };
            Walk {
                state: named.0,
                node: LValueView { loc: lv.loc, value: LValueView_::Var(named.1, t.node) },
                trace: t.trace + seq![call],
            }
        },
        LValueView_::Unpack(module, name, tys, fields) => {
            let a = walk_types::<V>(s, tys);
            let b = walk_field_bindings::<V>(a.state, fields, declared);
            Walk {
                state: b.state,
                node: LValueView {
                    loc: lv.loc,
                    value: LValueView_::Unpack(module, name, a.node, b.node),
                },
                trace: a.trace + b.trace,
            }
        },
        LValueView_::BorrowUnpack(mutable, module, name, tys, fields) => {
            let a = walk_types::<V>(s, tys);
            let b = walk_field_bindings::<V>(a.state, fields, declared);
            Walk {
                state: b.state,
                node: LValueView {
                    loc: lv.loc,
                    value: LValueView_::BorrowUnpack(mutable, module, name, a.node, b.node),
                },
                trace: a.trace + b.trace,
            }
        },
    }
}

/// The walk of one field of a destructuring: the field's type, then its
/// target.
#[verifier::opaque]
pub open spec fn walk_field_binding<V: Visitor>(
    s: V::V,
    f: FieldBindingView,
    declared: bool,
) -> Walk<V::V, FieldBindingView>
    decreases lvalue_height(f.target), 1nat, 0nat,
{
    let a = walk_type::<V>(s, f.ty);
    let b = walk_lvalue::<V>(a.state, f.target, declared);
    Walk {
        state: b.state,
        node: FieldBindingView { field: f.field, ty: a.node, target: b.node },
        trace: a.trace + b.trace,
    }
}

#[verifier::opaque]
pub open spec fn walk_field_bindings<V: Visitor>(
    s: V::V,
    fs: Seq<FieldBindingView>,
    declared: bool,
) -> Walk<V::V, Seq<FieldBindingView>>
    decreases field_bindings_height(fs), 2nat, fs.len(),
{
    if fs.len() == 0 {
        Walk { state: s, node: fs, trace: Seq::empty() }
    } else {
        let w = walk_field_bindings::<V>(s, fs.drop_last(), declared);
        let x = walk_field_binding::<V>(w.state, fs.last(), declared);
        Walk { state: x.state, node: w.node.push(x.node), trace: w.trace + x.trace }
    }
}

#[verifier::opaque]
pub open spec fn walk_lvalues<V: Visitor>(s: V::V, lvs: Seq<LValueView>, declared: bool) -> Walk<
    V::V,
    Seq<LValueView>,
>
    decreases lvs.len(),
{
    if lvs.len() == 0 {
        Walk { state: s, node: lvs, trace: Seq::empty() }
    } else {
        let w = walk_lvalues::<V>(s, lvs.drop_last(), declared);
        let x = walk_lvalue::<V>(w.state, lvs.last(), declared);
        Walk { state: x.state, node: w.node.push(x.node), trace: w.trace + x.trace }
    }
}

/// The walk of a pattern: its targets, first to last.
pub open spec fn walk_lvalue_list<V: Visitor>(s: V::V, l: LValueListView, declared: bool) -> Walk<
    V::V,
    LValueListView,
> {
    let w = walk_lvalues::<V>(s, l.value, declared);
    Walk { state: w.state, node: LValueListView { loc: l.loc, value: w.node }, trace: w.trace }
}

// Expressions

/// The walk of one expression node: the walk of its inferred type, then
/// the expression hook, then, unless the hook said `Stop`, the walk of
/// what the node holds.
pub open spec fn walk_exp<V: Visitor>(s: V::V, e: ExpView) -> Walk<V::V, ExpView>
    decreases exp_height(e), 1nat, 0nat,
{
    let t = walk_type::<V>(s, e.ty);
    let typed = ExpView { ty: t.node, loc: e.loc, value: e.value };
    let h = V::on_exp(t.state, typed);
    let call = seq![Event::Exp(typed)];
    if h.signal == VisitorContinuation::Stop {
        Walk { state: h.state, node: h.node, trace: t.trace + call }
    } else {
        proof {
            V::lemma_on_exp_bounded(t.state, typed);
        }
        let w = walk_unannotated::<V>(h.state, h.node.value);
        Walk {
            state: w.state,
            node: ExpView { ty: h.node.ty, loc: h.node.loc, value: w.node },
            trace: t.trace + call + w.trace,
        }
    }
}

/// What `var_use` makes of a variable that an expression refers to.
pub open spec fn walk_var_use<V: Visitor>(s: V::V, var: Var) -> Walk<V::V, Var> {
    let used = V::on_var_use(s, var);
    Walk { state: used.0, node: used.1, trace: seq![Event::VarUse(var)] }
}

/// The walk of what an expression node holds, by its kind.
pub open spec fn walk_unannotated<V: Visitor>(s: V::V, u: UnannotatedExpView) -> Walk<
    V::V,
    UnannotatedExpView,
>
    decreases unannotated_height(u), 0nat, 0nat,
{
    match u {
        UnannotatedExpView::ModuleCall(mc) => {
            let a = walk_types::<V>(s, mc.type_arguments);
            let b = walk_types::<V>(a.state, mc.parameter_types);
            let c = walk_exp::<V>(b.state, mc.arguments);
            Walk {
                state: c.state,
                node: UnannotatedExpView::ModuleCall(
                    Box::new(
                        ModuleCallView {
                            module: mc.module,
                            name: mc.name,
                            type_arguments: a.node,
                            arguments: c.node,
                            parameter_types: b.node,
                        },
                    ),
                ),
                trace: a.trace + b.trace + c.trace,
            }
        },
        UnannotatedExpView::Use(var) => {
            let w = walk_var_use::<V>(s, var);
            Walk { state: w.state, node: UnannotatedExpView::Use(w.node), trace: w.trace }
        },
        UnannotatedExpView::Copy { from_user, var } => {
            let w = walk_var_use::<V>(s, var);
            Walk {
                state: w.state,
                node: UnannotatedExpView::Copy { from_user, var: w.node },
                trace: w.trace,
            }
        },
        UnannotatedExpView::Move { from_user, var } => {
            let w = walk_var_use::<V>(s, var);
            Walk {
                state: w.state,
                node: UnannotatedExpView::Move { from_user, var: w.node },
                trace: w.trace,
            }
        },
        UnannotatedExpView::BorrowLocal(mutable, var) => {
            let w = walk_var_use::<V>(s, var);
            Walk {
                state: w.state,
                node: UnannotatedExpView::BorrowLocal(mutable, w.node),
                trace: w.trace,
            }
        },
        UnannotatedExpView::VarCall(var, args) => {
            let a = walk_var_use::<V>(s, var);
            let b = walk_exp::<V>(a.state, *args);
            Walk {
                state: b.state,
                node: UnannotatedExpView::VarCall(a.node, Box::new(b.node)),
                trace: a.trace + b.trace,
            }
        },
        UnannotatedExpView::Lambda(params, body) => {
            let a = walk_lvalue_list::<V>(V::on_enter_scope(s), params, true);
            let b = walk_exp::<V>(a.state, *body);
            Walk {
                state: V::on_exit_scope(b.state),
                node: UnannotatedExpView::Lambda(a.node, Box::new(b.node)),
                trace: seq![Event::EnterScope] + a.trace + b.trace + seq![Event::ExitScope],
            }
        },
        UnannotatedExpView::IfElse(c, t, f) => {
            let a = walk_exp::<V>(s, *c);
            let b = walk_exp::<V>(a.state, *t);
            let d = walk_exp::<V>(b.state, *f);
            Walk {
                state: d.state,
                node: UnannotatedExpView::IfElse(
                    Box::new(a.node),
                    Box::new(b.node),
                    Box::new(d.node),
                ),
                trace: a.trace + b.trace + d.trace,
            }
        },
        UnannotatedExpView::While(c, body) => {
            let w = walk_exp::<V>(s, *body);
            Walk {
                state: w.state,
                node: UnannotatedExpView::While(c, Box::new(w.node)),
                trace: w.trace,
            }
        },
        UnannotatedExpView::Loop { has_break, body } => {
            let w = walk_exp::<V>(s, *body);
            Walk {
                state: w.state,
                node: UnannotatedExpView::Loop { has_break, body: Box::new(w.node) },
                trace: w.trace,
            }
        },
        UnannotatedExpView::Block(seq) => {
            let w = walk_sequence::<V>(s, seq);
            Walk { state: w.state, node: UnannotatedExpView::Block(w.node), trace: w.trace }
        },
        UnannotatedExpView::Mutate(dst, src) => {
            let a = walk_exp::<V>(s, *dst);
            let b = walk_exp::<V>(a.state, *src);
            Walk {
                state: b.state,
                node: UnannotatedExpView::Mutate(Box::new(a.node), Box::new(b.node)),
                trace: a.trace + b.trace,
            }
        },
        UnannotatedExpView::BinopExp(l, op, ty, r) => {
            let a = walk_type::<V>(s, ty);
            let b = walk_exp::<V>(a.state, *l);
            let c = walk_exp::<V>(b.state, *r);
            Walk {
                state: c.state,
                node: UnannotatedExpView::BinopExp(Box::new(b.node), op, a.node, Box::new(c.node)),
                trace: a.trace + b.trace + c.trace,
            }
        },
        UnannotatedExpView::Pack(module, name, tys, fields) => {
            let a = walk_types::<V>(s, tys);
            let b = walk_field_inits::<V>(a.state, fields);
            Walk {
                state: b.state,
                node: UnannotatedExpView::Pack(module, name, a.node, b.node),
                trace: a.trace + b.trace,
            }
        },
        UnannotatedExpView::ExpList(items) => {
            let w = walk_list_items::<V>(s, items);
            Walk { state: w.state, node: UnannotatedExpView::ExpList(w.node), trace: w.trace }
        },
        UnannotatedExpView::Assign(lhs, tys, rhs) => {
            let a = walk_lvalue_list::<V>(s, lhs, false);
            let b = walk_opt_types::<V>(a.state, tys);
            let c = walk_exp::<V>(b.state, *rhs);
            Walk {
                state: c.state,
                node: UnannotatedExpView::Assign(a.node, b.node, Box::new(c.node)),
                trace: a.trace + b.trace + c.trace,
            }
        },
        UnannotatedExpView::Vector(loc, n, ty, e) => {
            let a = walk_type::<V>(s, ty);
            let b = walk_exp::<V>(a.state, *e);
            Walk {
                state: b.state,
                node: UnannotatedExpView::Vector(loc, n, a.node, Box::new(b.node)),
                trace: a.trace + b.trace,
            }
        },
        UnannotatedExpView::Cast(e, ty) => {
            let a = walk_type::<V>(s, ty);
            let b = walk_exp::<V>(a.state, *e);
            Walk {
                state: b.state,
                node: UnannotatedExpView::Cast(Box::new(b.node), a.node),
                trace: a.trace + b.trace,
            }
        },
        UnannotatedExpView::Annotate(e, ty) => {
            let a = walk_type::<V>(s, ty);
            let b = walk_exp::<V>(a.state, *e);
            Walk {
                state: b.state,
                node: UnannotatedExpView::Annotate(Box::new(b.node), a.node),
                trace: a.trace + b.trace,
            }
        },
        UnannotatedExpView::Builtin(f, e) => {
            let w = walk_exp::<V>(s, *e);
            Walk {
                state: w.state,
                node: UnannotatedExpView::Builtin(f, Box::new(w.node)),
                trace: w.trace,
            }
        },
        UnannotatedExpView::Return(e) => {
            let w = walk_exp::<V>(s, *e);
            Walk {
                state: w.state,
                node: UnannotatedExpView::Return(Box::new(w.node)),
                trace: w.trace,
            }
        },
        UnannotatedExpView::Abort(e) => {
            let w = walk_exp::<V>(s, *e);
            Walk { state: w.state, node: UnannotatedExpView::Abort(Box::new(w.node)), trace: w.trace }
        },
        UnannotatedExpView::Dereference(e) => {
            let w = walk_exp::<V>(s, *e);
            Walk {
                state: w.state,
                node: UnannotatedExpView::Dereference(Box::new(w.node)),
                trace: w.trace,
            }
        },
        UnannotatedExpView::UnaryExp(op, e) => {
            let w = walk_exp::<V>(s, *e);
            Walk {
                state: w.state,
                node: UnannotatedExpView::UnaryExp(op, Box::new(w.node)),
                trace: w.trace,
            }
        },
        UnannotatedExpView::Borrow(mutable, e, field) => {
            let w = walk_exp::<V>(s, *e);
            Walk {
                state: w.state,
                node: UnannotatedExpView::Borrow(mutable, Box::new(w.node), field),
                trace: w.trace,
            }
        },
        UnannotatedExpView::TempBorrow(mutable, e) => {
            let w = walk_exp::<V>(s, *e);
            Walk {
                state: w.state,
                node: UnannotatedExpView::TempBorrow(mutable, Box::new(w.node)),
                trace: w.trace,
            }
        },
        _ => Walk { state: s, node: u, trace: Seq::empty() },
    }
}

/// The walk of one field of a struct construction: the field's type, then
/// its initializer.
pub open spec fn walk_field_init<V: Visitor>(s: V::V, f: FieldInitView) -> Walk<V::V, FieldInitView>
    decreases exp_height(f.init), 2nat, 0nat,
{
    let a = walk_type::<V>(s, f.ty);
    let b = walk_exp::<V>(a.state, f.init);
    Walk {
        state: b.state,
        node: FieldInitView { field: f.field, ty: a.node, init: b.node },
        trace: a.trace + b.trace,
    }
}

pub open spec fn walk_field_inits<V: Visitor>(s: V::V, fs: Seq<FieldInitView>) -> Walk<
    V::V,
    Seq<FieldInitView>,
>
    decreases field_inits_height(fs), 3nat, fs.len(),
{
    if fs.len() == 0 {
        Walk { state: s, node: fs, trace: Seq::empty() }
    } else {
        let w = walk_field_inits::<V>(s, fs.drop_last());
        let x = walk_field_init::<V>(w.state, fs.last());
        Walk { state: x.state, node: w.node.push(x.node), trace: w.trace + x.trace }
    }
}

/// The walk of one item of an expression list: its type, or its types,
/// then its expression.
pub open spec fn walk_list_item<V: Visitor>(s: V::V, item: ExpListItemView) -> Walk<
    V::V,
    ExpListItemView,
>
    decreases list_item_height(item), 2nat, 0nat,
{
    match item {
        ExpListItemView::Single(e, ty) => {
            let a = walk_type::<V>(s, ty);
            let b = walk_exp::<V>(a.state, e);
            Walk {
                state: b.state,
                node: ExpListItemView::Single(b.node, a.node),
                trace: a.trace + b.trace,
            }
        },
        ExpListItemView::Splat(loc, e, tys) => {
            let a = walk_types::<V>(s, tys);
            let b = walk_exp::<V>(a.state, e);
            Walk {
                state: b.state,
                node: ExpListItemView::Splat(loc, b.node, a.node),
                trace: a.trace + b.trace,
            }
        },
    }
}

pub open spec fn walk_list_items<V: Visitor>(s: V::V, items: Seq<ExpListItemView>) -> Walk<
    V::V,
    Seq<ExpListItemView>,
>
    decreases list_items_height(items), 3nat, items.len(),
{
    if items.len() == 0 {
        Walk { state: s, node: items, trace: Seq::empty() }
    } else {
        let w = walk_list_items::<V>(s, items.drop_last());
        let x = walk_list_item::<V>(w.state, items.last());
        Walk { state: x.state, node: w.node.push(x.node), trace: w.trace + x.trace }
    }
}

// Statements

/// Whether a statement opens a scope: a bind or a declare does.
pub open spec fn opens_scope(item: SequenceItemView) -> bool {
    !(item.value is Exp)
}

/// The number of scopes that the statements of a sequence open.
pub open spec fn opened_scopes(items: Seq<SequenceItemView>) -> nat
    decreases items.len(),
{
    if items.len() == 0 {
        0
    } else {
        opened_scopes(items.drop_last()) + if opens_scope(items.last()) {
            1nat
        } else {
            0nat
        }
    }
}

/// The state after `n` calls of `exit_scope`.
pub open spec fn exit_scopes<V: Visitor>(s: V::V, n: nat) -> V::V
    decreases n,
{
    if n == 0 {
        s
    } else {
        exit_scopes::<V>(V::on_exit_scope(s), (n - 1) as nat)
    }
}

/// `n` calls of `exit_scope`.
pub open spec fn exits(n: nat) -> Seq<Event> {
    Seq::new(n, |i: int| Event::ExitScope)
}

/// The walk of one statement. A plain expression is walked as it is. A
/// declare opens a scope and walks its pattern as declaring. A bind opens
/// a scope and walks its pattern as declaring, then the types expected of
/// the value, then the value. Neither closes the scope it opened.
pub open spec fn walk_statement<V: Visitor>(s: V::V, item: SequenceItemView) -> Walk<
    V::V,
    SequenceItemView,
>
    decreases statement_height(item), 2nat, 0nat,
{
    match item.value {
        SequenceItemView_::Exp(e) => {
            let w = walk_exp::<V>(s, *e);
            Walk {
                state: w.state,
                node: SequenceItemView { loc: item.loc, value: SequenceItemView_::Exp(Box::new(w.node)) },
                trace: w.trace,
            }
        },
        SequenceItemView_::Declare(decls) => {
            let a = walk_lvalue_list::<V>(V::on_enter_scope(s), decls, true);
            Walk {
                state: a.state,
                node: SequenceItemView { loc: item.loc, value: SequenceItemView_::Declare(a.node) },
                trace: seq![Event::EnterScope] + a.trace,
            }
        },
        SequenceItemView_::Bind(decls, tys, e) => {
            let a = walk_lvalue_list::<V>(V::on_enter_scope(s), decls, true);
            let b = walk_opt_types::<V>(a.state, tys);
            let c = walk_exp::<V>(b.state, *e);
            Walk {
                state: c.state,
                node: SequenceItemView {
                    loc: item.loc,
                    value: SequenceItemView_::Bind(a.node, b.node, Box::new(c.node)),
                },
                trace: seq![Event::EnterScope] + a.trace + b.trace + c.trace,
            }
        },
    }
}

pub open spec fn walk_statements<V: Visitor>(s: V::V, items: Seq<SequenceItemView>) -> Walk<
    V::V,
    Seq<SequenceItemView>,
>
    decreases sequence_height(items), 3nat, items.len(),
{
    if items.len() == 0 {
        Walk { state: s, node: items, trace: Seq::empty() }
    } else {
        let w = walk_statements::<V>(s, items.drop_last());
        let x = walk_statement::<V>(w.state, items.last());
        Walk { state: x.state, node: w.node.push(x.node), trace: w.trace + x.trace }
    }
}

/// The walk of a sequence: its statements in order, then one `exit_scope`
/// for each scope that they opened.
pub open spec fn walk_sequence<V: Visitor>(s: V::V, items: Seq<SequenceItemView>) -> Walk<
    V::V,
    Seq<SequenceItemView>,
>
    decreases sequence_height(items), 4nat, 0nat,
{
    let w = walk_statements::<V>(s, items);
    let n = opened_scopes(items);
    Walk { state: exit_scopes::<V>(w.state, n), node: w.node, trace: w.trace + exits(n) }
}

// Functions

/// The walk of one parameter: its type, then `var_decl`.
pub open spec fn walk_parameter<V: Visitor>(s: V::V, p: (Var, TypeView)) -> Walk<
    V::V,
    (Var, TypeView),
> {
    let a = walk_type::<V>(s, p.1);
    let declared = V::on_var_decl(a.state, p.0);
    Walk {
        state: declared.0,
        node: (declared.1, a.node),
        trace: a.trace + seq![Event::VarDecl(p.0)],
    }
}

#[verifier::opaque]
pub open spec fn walk_parameters<V: Visitor>(s: V::V, ps: Seq<(Var, TypeView)>) -> Walk<
    V::V,
    Seq<(Var, TypeView)>,
>
    decreases ps.len(),
{
    if ps.len() == 0 {
        Walk { state: s, node: ps, trace: Seq::empty() }
    } else {
        let w = walk_parameters::<V>(s, ps.drop_last());
        let x = walk_parameter::<V>(w.state, ps.last());
        Walk { state: x.state, node: w.node.push(x.node), trace: w.trace + x.trace }
    }
}

/// The walk of the body of a function, where it has one.
pub open spec fn walk_body<V: Visitor>(s: V::V, body: FunctionBodyView) -> Walk<
    V::V,
    FunctionBodyView,
> {
    match body {
        FunctionBodyView::Defined(seq) => {
            let w = walk_sequence::<V>(s, seq);
            Walk { state: w.state, node: FunctionBodyView::Defined(w.node), trace: w.trace }
        },
        FunctionBodyView::Native => Walk { state: s, node: body, trace: Seq::empty() },
    }
}

/// The walk of a function: a scope around its parameters, left to right,
/// and its body.
pub open spec fn walk_function<V: Visitor>(s: V::V, f: FunctionView) -> Walk<V::V, FunctionView> {
    let p = walk_parameters::<V>(V::on_enter_scope(s), f.parameters);
    let b = walk_body::<V>(p.state, f.body);
    Walk {
        state: V::on_exit_scope(b.state),
        node: FunctionView {
            parameters: p.node,
            return_type: f.return_type,
            body_loc: f.body_loc,
            body: b.node,
        },
        trace: seq![Event::EnterScope] + p.trace + b.trace + seq![Event::ExitScope],
    }
}

} // verus!
