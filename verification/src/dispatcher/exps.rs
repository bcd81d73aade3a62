//! Walking expressions.

use vstd::prelude::*;
use crate::ast::{Exp, ExpListItem, FieldInit, Loc, UnannotatedExp_};
use crate::dispatcher::Dispatcher;
use crate::laws::replay::{after_calls, lemma_replay_exp, lemma_replay_unannotated};
use crate::model::{
    exp_height, exp_view, field_init_view, field_inits_height, field_inits_view,
    lemma_field_inits_height, lemma_list_items_height, lemma_unannotated_view, list_item_height,
    list_item_view, list_items_height, list_items_view, unannotated_height, unannotated_view,
    ExpListItemView, FieldInitView,
};
use crate::visitor::{Visitor, VisitorContinuation};
use crate::walk::{
    walk_exp, walk_field_init, walk_field_inits, walk_list_item, walk_list_items, walk_unannotated,
};

verus! {

/// The walk of the fields of a struct construction leaves as many as it
/// found.
pub proof fn lemma_walk_field_inits_len<V: Visitor>(s: V::V, fs: Seq<FieldInitView>)
    ensures
        walk_field_inits::<V>(s, fs).node.len() == fs.len(),
    decreases fs.len(),
{
    if fs.len() > 0 {
        lemma_walk_field_inits_len::<V>(s, fs.drop_last());
    }
}

/// The walk of an expression list leaves as many as it found.
pub proof fn lemma_walk_list_items_len<V: Visitor>(
    s: V::V,
    items: Seq<ExpListItemView>,
)
    ensures
        walk_list_items::<V>(s, items).node.len() == items.len(),
    decreases items.len(),
{
    if items.len() > 0 {
        lemma_walk_list_items_len::<V>(s, items.drop_last());
    }
}

impl<'l, V: Visitor> Dispatcher<'l, V> {
    /// Walks one expression node: its inferred type first, then the node
    /// itself, then, unless the visitor said `Stop`, what the node holds.
    pub fn exp(&mut self, ex: &mut Exp)
        ensures
            final(self).visitor@ == walk_exp::<V>(old(self).visitor@, old(ex)@).state,
            final(ex)@ == walk_exp::<V>(old(self).visitor@, old(ex)@).node,
            final(self).visitor@ == after_calls::<V>(
                old(self).visitor@,
                walk_exp::<V>(old(self).visitor@, old(ex)@).trace,
            ),
            *final(final(self).visitor) == *final(old(self).visitor),
        decreases exp_height(old(ex)@), 1nat,
    {
        proof {
            lemma_replay_exp::<V>(self.visitor@, ex@);
        }
        reveal(exp_view);
        reveal(unannotated_view);
        self.type_(&mut ex.ty);
        let ghost s1 = self.visitor@;
        let ghost typed = ex@;
        if self.visitor.exp(ex) == VisitorContinuation::Stop {
            return ;
        }
        proof {
            V::lemma_on_exp_bounded(s1, typed);
        }
        self.exp_unannotated(ex.loc, &mut ex.value)
    }

    /// Walks what an expression node holds, in the order fixed for its
    /// kind. The location is that of the node; the walk does not depend on
    /// it.
    pub fn exp_unannotated(&mut self, _loc: Loc, ex: &mut UnannotatedExp_)
        ensures
            final(self).visitor@ == walk_unannotated::<V>(old(self).visitor@, old(ex)@).state,
            final(ex)@ == walk_unannotated::<V>(old(self).visitor@, old(ex)@).node,
            final(self).visitor@ == after_calls::<V>(
                old(self).visitor@,
                walk_unannotated::<V>(old(self).visitor@, old(ex)@).trace,
            ),
            *final(final(self).visitor) == *final(old(self).visitor),
        decreases unannotated_height(old(ex)@), 0nat,
    {
        proof {
            lemma_replay_unannotated::<V>(self.visitor@, ex@);
        }
        reveal(unannotated_view);
        reveal(exp_view);
        proof {
            lemma_unannotated_view(*ex);
        }
        match &mut *ex {
            UnannotatedExp_::ModuleCall(mc) => {
                self.types(&mut mc.type_arguments);
                self.types(&mut mc.parameter_types);
                self.exp(&mut mc.arguments)
            },
            UnannotatedExp_::Use(var) => self.visitor.var_use(var),
            UnannotatedExp_::Copy { from_user: _, var } => self.visitor.var_use(var),
            UnannotatedExp_::Move { from_user: _, var } => self.visitor.var_use(var),
            UnannotatedExp_::BorrowLocal(_, var) => self.visitor.var_use(var),
            UnannotatedExp_::VarCall(var, args) => {
                self.visitor.var_use(var);
                self.exp(args)
            },
            UnannotatedExp_::Lambda(decls, body) => {
                self.visitor.enter_scope();
                self.lvalue_list(decls,  /*declared*/ true);
                self.exp(body);
                self.visitor.exit_scope();
            },
            UnannotatedExp_::IfElse(cex, iex, eex) => {
                self.exp(cex);
                self.exp(iex);
                self.exp(eex);
            },
            UnannotatedExp_::While(_, body) => self.exp(body),
            UnannotatedExp_::Loop { has_break: _, body } => self.exp(body),
            UnannotatedExp_::Block(seq) => self.sequence(seq),
            UnannotatedExp_::Mutate(dex, sex) => {
                self.exp(dex);
                self.exp(sex);
            },
            UnannotatedExp_::BinopExp(lex, _, ty, rex) => {
                self.type_(ty);
                self.exp(lex);
                self.exp(rex);
            },
            UnannotatedExp_::Pack(_, _, tys, fields) => {
                self.types(tys);
                self.field_inits(fields)
            },
            UnannotatedExp_::ExpList(items) => self.exp_list_items(items),
            UnannotatedExp_::Assign(lhs, tys, rhs) => {
                self.lvalue_list(lhs,  /*declared*/ false);
                self.optional_types(tys);
                self.exp(rhs);
            },
            UnannotatedExp_::Vector(_, _, ty, e) => {
                self.type_(ty);
                self.exp(e)
            },
            UnannotatedExp_::Cast(e, ty) => {
                self.type_(ty);
                self.exp(e)
            },
            UnannotatedExp_::Annotate(e, ty) => {
                self.type_(ty);
                self.exp(e)
            },
            UnannotatedExp_::Builtin(_, e) => self.exp(e),
            UnannotatedExp_::Return(e) => self.exp(e),
            UnannotatedExp_::Abort(e) => self.exp(e),
            UnannotatedExp_::Dereference(e) => self.exp(e),
            UnannotatedExp_::UnaryExp(_, e) => self.exp(e),
            UnannotatedExp_::Borrow(_, e, _) => self.exp(e),
            UnannotatedExp_::TempBorrow(_, e) => self.exp(e),
            UnannotatedExp_::Unit { .. }
            | UnannotatedExp_::Value(_)
            | UnannotatedExp_::Constant(_, _)
            | UnannotatedExp_::Break
            | UnannotatedExp_::Continue
            | UnannotatedExp_::Spec(_)
            | UnannotatedExp_::UnresolvedError => {},
        }
        proof {
            lemma_unannotated_view(*ex);
        }
    }

    pub(crate) fn field_init(&mut self, f: &mut FieldInit)
        ensures
            final(self).visitor@ == walk_field_init::<V>(
                old(self).visitor@,
                field_init_view(*old(f)),
            ).state,
            field_init_view(*final(f)) == walk_field_init::<V>(
                old(self).visitor@,
                field_init_view(*old(f)),
            ).node,
            *final(final(self).visitor) == *final(old(self).visitor),
        decreases exp_height(old(f).init@), 2nat,
    {
        self.type_(&mut f.ty);
        self.exp(&mut f.init)
    }

    pub(crate) fn field_inits(&mut self, fields: &mut Vec<FieldInit>)
        ensures
            final(self).visitor@ == walk_field_inits::<V>(
                old(self).visitor@,
                field_inits_view(old(fields)@),
            ).state,
            field_inits_view(final(fields)@) == walk_field_inits::<V>(
                old(self).visitor@,
                field_inits_view(old(fields)@),
            ).node,
            *final(final(self).visitor) == *final(old(self).visitor),
        decreases field_inits_height(field_inits_view(old(fields)@)), 3nat,
    {
        let ghost s0 = self.visitor@;
        let ghost a0 = field_inits_view(fields@);
        let n: usize = fields.len();
        let mut i: usize = 0;
        while i < n
            invariant
                n == fields.len(),
                i <= n,
                a0.len() == n,
                a0 == field_inits_view(old(fields)@),
                field_inits_view(fields@) =~= walk_field_inits::<V>(s0, a0.take(i as int)).node
                    + a0.skip(i as int),
                self.visitor@ == walk_field_inits::<V>(s0, a0.take(i as int)).state,
                *final(self.visitor) == *final(old(self).visitor),
            decreases n - i,
        {
            let ghost before = field_inits_view(fields@);
            let ghost si = self.visitor@;
            proof {
                lemma_field_inits_height(a0, i as int);
                lemma_walk_field_inits_len::<V>(s0, a0.take(i as int));
                lemma_walk_field_inits_len::<V>(s0, a0.take(i + 1));
                assert(a0.take(i + 1).drop_last() =~= a0.take(i as int));
                assert(before[i as int] == a0[i as int]);
            }
            self.field_init(&mut fields[i]);
            proof {
                let x = walk_field_init::<V>(si, a0[i as int]);
                assert(field_inits_view(fields@) =~= before.update(i as int, x.node));
                assert(a0.take(i + 1).last() == a0[i as int]);
            }
            i += 1;
        }
        proof {
            assert(a0.take(n as int) =~= a0);
            lemma_walk_field_inits_len::<V>(s0, a0);
        }
    }

    pub(crate) fn exp_list_item(&mut self, item: &mut ExpListItem)
        ensures
            final(self).visitor@ == walk_list_item::<V>(
                old(self).visitor@,
                list_item_view(*old(item)),
            ).state,
            list_item_view(*final(item)) == walk_list_item::<V>(
                old(self).visitor@,
                list_item_view(*old(item)),
            ).node,
            *final(final(self).visitor) == *final(old(self).visitor),
        decreases list_item_height(list_item_view(*old(item))), 2nat,
    {
        match item {
            ExpListItem::Single(ex, ty) => {
                self.type_(ty);
                self.exp(ex)
            },
            ExpListItem::Splat(_, ex, tys) => {
                self.types(tys);
                self.exp(ex)
            },
        }
    }

    pub(crate) fn exp_list_items(&mut self, items: &mut Vec<ExpListItem>)
        ensures
            final(self).visitor@ == walk_list_items::<V>(
                old(self).visitor@,
                list_items_view(old(items)@),
            ).state,
            list_items_view(final(items)@) == walk_list_items::<V>(
                old(self).visitor@,
                list_items_view(old(items)@),
            ).node,
            *final(final(self).visitor) == *final(old(self).visitor),
        decreases list_items_height(list_items_view(old(items)@)), 3nat,
    {
        let ghost s0 = self.visitor@;
        let ghost a0 = list_items_view(items@);
        let n: usize = items.len();
        let mut i: usize = 0;
        while i < n
            invariant
                n == items.len(),
                i <= n,
                a0.len() == n,
                a0 == list_items_view(old(items)@),
                list_items_view(items@) =~= walk_list_items::<V>(s0, a0.take(i as int)).node
                    + a0.skip(i as int),
                self.visitor@ == walk_list_items::<V>(s0, a0.take(i as int)).state,
                *final(self.visitor) == *final(old(self).visitor),
            decreases n - i,
        {
            let ghost before = list_items_view(items@);
            let ghost si = self.visitor@;
            proof {
                lemma_list_items_height(a0, i as int);
                lemma_walk_list_items_len::<V>(s0, a0.take(i as int));
                lemma_walk_list_items_len::<V>(s0, a0.take(i + 1));
                assert(a0.take(i + 1).drop_last() =~= a0.take(i as int));
                assert(before[i as int] == a0[i as int]);
            }
            self.exp_list_item(&mut items[i]);
            proof {
                let x = walk_list_item::<V>(si, a0[i as int]);
                assert(list_items_view(items@) =~= before.update(i as int, x.node));
                assert(a0.take(i + 1).last() == a0[i as int]);
            }
            i += 1;
        }
        proof {
            assert(a0.take(n as int) =~= a0);
            lemma_walk_list_items_len::<V>(s0, a0);
        }
    }
}

} // verus!
