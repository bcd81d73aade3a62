//! Walking types.

use vstd::prelude::*;
use crate::ast::{Type, Type_};
use crate::dispatcher::Dispatcher;
use crate::laws::replay::{after_calls, lemma_replay_type};
use crate::model::{
    lemma_type_view, lemma_types_height, opt_types_view, type_height, type_view, types_height,
    types_view, TypeView,
};
use crate::visitor::{Visitor, VisitorContinuation};
use crate::walk::{walk_opt_type, walk_opt_types, walk_type, walk_types};

verus! {

/// A walk of a list leaves as many nodes as it found.
pub proof fn lemma_walk_types_len<V: Visitor>(s: V::V, ts: Seq<TypeView>)
    ensures
        walk_types::<V>(s, ts).node.len() == ts.len(),
    decreases ts.len(),
{
    reveal(walk_type);
    reveal(walk_types);
    if ts.len() > 0 {
        lemma_walk_types_len::<V>(s, ts.drop_last());
    }
}

/// The walk of a list of types that may be absent leaves as many as it found.
pub proof fn lemma_walk_opt_types_len<V: Visitor>(s: V::V, ts: Seq<Option<TypeView>>)
    ensures
        walk_opt_types::<V>(s, ts).node.len() == ts.len(),
    decreases ts.len(),
{
    reveal(walk_opt_types);
    if ts.len() > 0 {
        lemma_walk_opt_types_len::<V>(s, ts.drop_last());
    }
}

impl<'l, V: Visitor> Dispatcher<'l, V> {
    /// Walks one type node.
    pub fn type_(&mut self, ty: &mut Type)
        ensures
            final(self).visitor@ == walk_type::<V>(old(self).visitor@, old(ty)@).state,
            final(ty)@ == walk_type::<V>(old(self).visitor@, old(ty)@).node,
            final(self).visitor@ == after_calls::<V>(
                old(self).visitor@,
                walk_type::<V>(old(self).visitor@, old(ty)@).trace,
            ),
            *final(final(self).visitor) == *final(old(self).visitor),
        decreases type_height(old(ty)@), 0nat,
    {
        proof {
            lemma_replay_type::<V>(self.visitor@, ty@);
        }
        reveal(type_view);
        reveal(walk_type);
        reveal(walk_types);
        let ghost s0 = self.visitor@;
        let ghost t0 = ty@;
        if self.visitor.type_(ty) == VisitorContinuation::Stop {
            return ;
        }
        proof {
            V::lemma_on_type_bounded(s0, t0);
            lemma_type_view(*ty);
        }
        match &mut ty.value {
            Type_::Ref(_, inner) => self.type_(inner),
            Type_::Apply(_, _, tys) => {
                self.types(tys);
                proof {
                    lemma_type_view(*ty);
                }
                self.visitor.infer_abilities(ty)
            },
            Type_::Unit
            | Type_::Param(_)
            | Type_::Var(_)
            | Type_::Anything
            | Type_::UnresolvedError => {},
        }
    }

    /// Walks a list of types, first to last.
    pub(crate) fn types(&mut self, tys: &mut Vec<Type>)
        ensures
            final(self).visitor@ == walk_types::<V>(
                old(self).visitor@,
                types_view(old(tys)@),
            ).state,
            types_view(final(tys)@) == walk_types::<V>(
                old(self).visitor@,
                types_view(old(tys)@),
            ).node,
            *final(final(self).visitor) == *final(old(self).visitor),
        decreases types_height(types_view(old(tys)@)), 1nat,
    {
        reveal(walk_type);
        reveal(walk_types);
        let ghost s0 = self.visitor@;
        let ghost a0 = types_view(tys@);
        let n: usize = tys.len();
        let mut i: usize = 0;
        while i < n
            invariant
                n == tys.len(),
                i <= n,
                a0.len() == n,
                a0 == types_view(old(tys)@),
                types_view(tys@) =~= walk_types::<V>(s0, a0.take(i as int)).node + a0.skip(i as int),
                self.visitor@ == walk_types::<V>(s0, a0.take(i as int)).state,
                *final(self.visitor) == *final(old(self).visitor),
            decreases n - i,
        {
            reveal(walk_type);
            reveal(walk_types);
            let ghost before = types_view(tys@);
            let ghost si = self.visitor@;
            proof {
                lemma_types_height(a0, i as int);
                lemma_walk_types_len::<V>(s0, a0.take(i as int));
                lemma_walk_types_len::<V>(s0, a0.take(i + 1));
                assert(a0.take(i + 1).drop_last() =~= a0.take(i as int));
                assert(before[i as int] == a0[i as int]);
            }
            self.type_(&mut tys[i]);
            proof {
                let x = walk_type::<V>(si, a0[i as int]);
                assert(types_view(tys@) =~= before.update(i as int, x.node));
                assert(a0.take(i + 1).last() == a0[i as int]);
            }
            i += 1;
        }
        proof {
            assert(a0.take(n as int) =~= a0);
            lemma_walk_types_len::<V>(s0, a0);
        }
    }

    /// Walks the types that are present in a list, first to last.
    pub(crate) fn optional_types(&mut self, tys: &mut Vec<Option<Type>>)
        ensures
            final(self).visitor@ == walk_opt_types::<V>(
                old(self).visitor@,
                opt_types_view(old(tys)@),
            ).state,
            opt_types_view(final(tys)@) == walk_opt_types::<V>(
                old(self).visitor@,
                opt_types_view(old(tys)@),
            ).node,
            *final(final(self).visitor) == *final(old(self).visitor),
    {
        reveal(walk_opt_types);
        let ghost s0 = self.visitor@;
        let ghost a0 = opt_types_view(tys@);
        let n: usize = tys.len();
        let mut i: usize = 0;
        while i < n
            invariant
                n == tys.len(),
                i <= n,
                a0.len() == n,
                opt_types_view(tys@) =~= walk_opt_types::<V>(s0, a0.take(i as int)).node + a0.skip(
                    i as int,
                ),
                self.visitor@ == walk_opt_types::<V>(s0, a0.take(i as int)).state,
                *final(self.visitor) == *final(old(self).visitor),
            decreases n - i,
        {
            reveal(walk_opt_types);
            let ghost before = opt_types_view(tys@);
            let ghost si = self.visitor@;
            proof {
                lemma_walk_opt_types_len::<V>(s0, a0.take(i as int));
                lemma_walk_opt_types_len::<V>(s0, a0.take(i + 1));
                assert(a0.take(i + 1).drop_last() =~= a0.take(i as int));
                assert(before[i as int] == a0[i as int]);
            }
            match &mut tys[i] {
                Some(ty) => self.type_(ty),
                None => {},
            }
            proof {
                let x = walk_opt_type::<V>(si, a0[i as int]);
                assert(opt_types_view(tys@) =~= before.update(i as int, x.node));
                assert(a0.take(i + 1).last() == a0[i as int]);
            }
            i += 1;
        }
        proof {
            assert(a0.take(n as int) =~= a0);
            lemma_walk_opt_types_len::<V>(s0, a0);
        }
    }
}

} // verus!
