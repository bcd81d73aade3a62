//! Walking binding targets and patterns.

use vstd::prelude::*;
use crate::ast::{FieldBinding, LValue, LValueList, LValue_};
use crate::dispatcher::Dispatcher;
use crate::laws::replay::{after_calls, lemma_replay_pattern};
use crate::model::{
    field_binding_view, field_bindings_height, field_bindings_view, lemma_field_bindings_height,
    lemma_lvalue_view, lvalue_height, lvalue_view, lvalues_view, FieldBindingView, LValueView,
};
use crate::visitor::Visitor;
use crate::walk::{
    walk_field_binding, walk_field_bindings, walk_lvalue, walk_lvalue_list, walk_lvalues,
};

verus! {

/// The walk of the fields of a destructuring target leaves as many as it
/// found.
pub proof fn lemma_walk_field_bindings_len<V: Visitor>(
    s: V::V,
    fs: Seq<FieldBindingView>,
    declared: bool,
)
    ensures
        walk_field_bindings::<V>(s, fs, declared).node.len() == fs.len(),
    decreases fs.len(),
{
    reveal(walk_lvalue);
    reveal(walk_field_binding);
    reveal(walk_field_bindings);
    if fs.len() > 0 {
        lemma_walk_field_bindings_len::<V>(s, fs.drop_last(), declared);
    }
}

/// The walk of a list of binding targets leaves as many as it found.
pub proof fn lemma_walk_lvalues_len<V: Visitor>(
    s: V::V,
    lvs: Seq<LValueView>,
    declared: bool,
)
    ensures
        walk_lvalues::<V>(s, lvs, declared).node.len() == lvs.len(),
    decreases lvs.len(),
{
    reveal(walk_lvalues);
    if lvs.len() > 0 {
        lemma_walk_lvalues_len::<V>(s, lvs.drop_last(), declared);
    }
}

impl<'l, V: Visitor> Dispatcher<'l, V> {
    /// Walks one binding target, as declaring or as assigning.
    pub(crate) fn lvalue(&mut self, lv: &mut LValue, declared: bool)
        ensures
            final(self).visitor@ == walk_lvalue::<V>(old(self).visitor@, old(lv)@, declared).state,
            final(lv)@ == walk_lvalue::<V>(old(self).visitor@, old(lv)@, declared).node,
            *final(final(self).visitor) == *final(old(self).visitor),
        decreases lvalue_height(old(lv)@), 0nat,
    {
        reveal(lvalue_view);
        reveal(walk_lvalue);
        reveal(walk_field_binding);
        reveal(walk_field_bindings);
        proof {
            lemma_lvalue_view(*lv);
        }
        match &mut lv.value {
            LValue_::Ignore => {},
            LValue_::Var(var, ty) => {
                match ty {
                    Some(ty) => self.type_(ty),
                    None => {},
                }
                if declared {
                    self.visitor.var_decl(var)
                } else {
                    self.visitor.var_use(var)
                }
            },
            LValue_::Unpack(_, _, tys, fields) => {
                self.types(tys);
                self.field_bindings(fields, declared)
            },
            LValue_::BorrowUnpack(_, _, _, tys, fields) => {
                self.types(tys);
                self.field_bindings(fields, declared)
            },
        }
        proof {
            lemma_lvalue_view(*lv);
        }
    }

    pub(crate) fn field_binding(&mut self, f: &mut FieldBinding, declared: bool)
        ensures
            final(self).visitor@ == walk_field_binding::<V>(
                old(self).visitor@,
                field_binding_view(*old(f)),
                declared,
            ).state,
            field_binding_view(*final(f)) == walk_field_binding::<V>(
                old(self).visitor@,
                field_binding_view(*old(f)),
                declared,
            ).node,
            *final(final(self).visitor) == *final(old(self).visitor),
        decreases lvalue_height(old(f).target@), 1nat,
    {
        reveal(walk_lvalue);
        reveal(walk_field_binding);
        reveal(walk_field_bindings);
        self.type_(&mut f.ty);
        self.lvalue(&mut f.target, declared)
    }

    pub(crate) fn field_bindings(&mut self, fields: &mut Vec<FieldBinding>, declared: bool)
        ensures
            final(self).visitor@ == walk_field_bindings::<V>(
                old(self).visitor@,
                field_bindings_view(old(fields)@),
                declared,
            ).state,
            field_bindings_view(final(fields)@) == walk_field_bindings::<V>(
                old(self).visitor@,
                field_bindings_view(old(fields)@),
                declared,
            ).node,
            *final(final(self).visitor) == *final(old(self).visitor),
        decreases field_bindings_height(field_bindings_view(old(fields)@)), 2nat,
    {
        reveal(walk_lvalue);
        reveal(walk_field_binding);
        reveal(walk_field_bindings);
        let ghost s0 = self.visitor@;
        let ghost a0 = field_bindings_view(fields@);
        let n: usize = fields.len();
        let mut i: usize = 0;
        while i < n
            invariant
                n == fields.len(),
                i <= n,
                a0.len() == n,
                a0 == field_bindings_view(old(fields)@),
                field_bindings_view(fields@) =~= walk_field_bindings::<V>(
                    s0,
                    a0.take(i as int),
                    declared,
                ).node + a0.skip(i as int),
                self.visitor@ == walk_field_bindings::<V>(s0, a0.take(i as int), declared).state,
                *final(self.visitor) == *final(old(self).visitor),
            decreases n - i,
        {
            reveal(walk_lvalue);
            reveal(walk_field_binding);
            reveal(walk_field_bindings);
            let ghost before = field_bindings_view(fields@);
            let ghost si = self.visitor@;
            proof {
                lemma_field_bindings_height(a0, i as int);
                lemma_walk_field_bindings_len::<V>(s0, a0.take(i as int), declared);
                lemma_walk_field_bindings_len::<V>(s0, a0.take(i + 1), declared);
                assert(a0.take(i + 1).drop_last() =~= a0.take(i as int));
                assert(before[i as int] == a0[i as int]);
            }
            self.field_binding(&mut fields[i], declared);
            proof {
                let x = walk_field_binding::<V>(si, a0[i as int], declared);
                assert(field_bindings_view(fields@) =~= before.update(i as int, x.node));
                assert(a0.take(i + 1).last() == a0[i as int]);
            }
            i += 1;
        }
        proof {
            assert(a0.take(n as int) =~= a0);
            lemma_walk_field_bindings_len::<V>(s0, a0, declared);
        }
    }

    /// Walks a pattern, as declaring or as assigning: its targets, first
    /// to last.
    pub fn lvalue_list(&mut self, decls: &mut LValueList, declared: bool)
        ensures
            final(self).visitor@ == walk_lvalue_list::<V>(
                old(self).visitor@,
                old(decls)@,
                declared,
            ).state,
            final(decls)@ == walk_lvalue_list::<V>(old(self).visitor@, old(decls)@, declared).node,
            final(self).visitor@ == after_calls::<V>(
                old(self).visitor@,
                walk_lvalue_list::<V>(old(self).visitor@, old(decls)@, declared).trace,
            ),
            *final(final(self).visitor) == *final(old(self).visitor),
    {
        proof {
            lemma_replay_pattern::<V>(self.visitor@, decls@, declared);
        }
        reveal(walk_lvalues);
        let ghost s0 = self.visitor@;
        let ghost a0 = lvalues_view(decls.value@);
        let n: usize = decls.value.len();
        let mut i: usize = 0;
        while i < n
            invariant
                n == decls.value.len(),
                i <= n,
                a0.len() == n,
                decls.loc == old(decls).loc,
                lvalues_view(decls.value@) =~= walk_lvalues::<V>(s0, a0.take(i as int), declared).node
                    + a0.skip(i as int),
                self.visitor@ == walk_lvalues::<V>(s0, a0.take(i as int), declared).state,
                *final(self.visitor) == *final(old(self).visitor),
            decreases n - i,
        {
            reveal(walk_lvalues);
            let ghost before = lvalues_view(decls.value@);
            let ghost si = self.visitor@;
            proof {
                lemma_walk_lvalues_len::<V>(s0, a0.take(i as int), declared);
                lemma_walk_lvalues_len::<V>(s0, a0.take(i + 1), declared);
                assert(a0.take(i + 1).drop_last() =~= a0.take(i as int));
                assert(before[i as int] == a0[i as int]);
            }
            self.lvalue(&mut decls.value[i], declared);
            proof {
                let x = walk_lvalue::<V>(si, a0[i as int], declared);
                assert(lvalues_view(decls.value@) =~= before.update(i as int, x.node));
                assert(a0.take(i + 1).last() == a0[i as int]);
            }
            i += 1;
        }
        proof {
            assert(a0.take(n as int) =~= a0);
            lemma_walk_lvalues_len::<V>(s0, a0, declared);
        }
    }
}

} // verus!
