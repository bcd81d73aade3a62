//! The traversal engine: it owns the order of the walk, brackets scopes and
//! honours `Stop`; everything else is the visitor's.

use vstd::prelude::*;
use crate::ast::{Function, FunctionBody_, Type, Var};
use crate::laws::replay::{after_calls, law_function_walk_is_its_calls};
use crate::model::{parameters_view, TypeView};
use crate::visitor::Visitor;
use crate::walk::{walk_function, walk_parameter, walk_parameters};

pub mod exps;
pub mod patterns;
pub mod statements;
pub mod types;

verus! {

/// The walk of the parameters of a function leaves as many as it found.
pub proof fn lemma_walk_parameters_len<V: Visitor>(s: V::V, ps: Seq<(Var, TypeView)>)
    ensures
        walk_parameters::<V>(s, ps).node.len() == ps.len(),
    decreases ps.len(),
{
    reveal(walk_parameters);
    if ps.len() > 0 {
        lemma_walk_parameters_len::<V>(s, ps.drop_last());
    }
}

/// The engine, bound to one visitor for the length of one traversal.
///
/// Each method says what it leaves of the visitor and of the node, both as
/// the walk of `crate::walk` gives them, and that the visitor is left as its
/// hooks, called in the order of that walk, leave it. Each also says that
/// the engine stays bound to the visitor it was made for: what the visitor
/// will be when the engine lets go of it is not touched.
pub struct Dispatcher<'l, V: Visitor> {
    pub visitor: &'l mut V,
}

impl<'l, V: Visitor> Dispatcher<'l, V> {
    /// An engine that drives `visitor`.
    pub fn new(visitor: &'l mut V) -> (dispatcher: Self)
        ensures
            *dispatcher.visitor == *old(visitor),
            *final(dispatcher.visitor) == *final(visitor),
    {
        Self { visitor }
    }

    fn parameter(&mut self, p: &mut (Var, Type))
        ensures
            final(self).visitor@ == walk_parameter::<V>(
                old(self).visitor@,
                (old(p).0, old(p).1@),
            ).state,
            (final(p).0, final(p).1@) == walk_parameter::<V>(
                old(self).visitor@,
                (old(p).0, old(p).1@),
            ).node,
            *final(final(self).visitor) == *final(old(self).visitor),
    {
        self.type_(&mut p.1);
        self.visitor.var_decl(&mut p.0)
    }

    fn parameters(&mut self, ps: &mut Vec<(Var, Type)>)
        ensures
            final(self).visitor@ == walk_parameters::<V>(
                old(self).visitor@,
                parameters_view(old(ps)@),
            ).state,
            parameters_view(final(ps)@) == walk_parameters::<V>(
                old(self).visitor@,
                parameters_view(old(ps)@),
            ).node,
            *final(final(self).visitor) == *final(old(self).visitor),
    {
        reveal(walk_parameters);
        let ghost s0 = self.visitor@;
        let ghost a0 = parameters_view(ps@);
        let n: usize = ps.len();
        let mut i: usize = 0;
        while i < n
            invariant
                n == ps.len(),
                i <= n,
                a0.len() == n,
                parameters_view(ps@) =~= walk_parameters::<V>(s0, a0.take(i as int)).node + a0.skip(
                    i as int,
                ),
                self.visitor@ == walk_parameters::<V>(s0, a0.take(i as int)).state,
                *final(self.visitor) == *final(old(self).visitor),
            decreases n - i,
        {
            reveal(walk_parameters);
            let ghost before = parameters_view(ps@);
            let ghost si = self.visitor@;
            proof {
                lemma_walk_parameters_len::<V>(s0, a0.take(i as int));
                lemma_walk_parameters_len::<V>(s0, a0.take(i + 1));
                assert(a0.take(i + 1).drop_last() =~= a0.take(i as int));
                assert(before[i as int] == a0[i as int]);
            }
            self.parameter(&mut ps[i]);
            proof {
                let x = walk_parameter::<V>(si, a0[i as int]);
                assert(parameters_view(ps@) =~= before.update(i as int, x.node));
                assert(a0.take(i + 1).last() == a0[i as int]);
            }
            i += 1;
        }
        proof {
            assert(a0.take(n as int) =~= a0);
            lemma_walk_parameters_len::<V>(s0, a0);
        }
    }

    /// Walks a function: a scope around its parameters, each declared
    /// after its type has been walked, and its body where it has one.
    pub fn function(&mut self, fdef: &mut Function)
        ensures
            final(self).visitor@ == walk_function::<V>(old(self).visitor@, old(fdef)@).state,
            final(fdef)@ == walk_function::<V>(old(self).visitor@, old(fdef)@).node,
            final(self).visitor@ == after_calls::<V>(
                old(self).visitor@,
                walk_function::<V>(old(self).visitor@, old(fdef)@).trace,
            ),
            *final(final(self).visitor) == *final(old(self).visitor),
    {
        proof {
            law_function_walk_is_its_calls::<V>(self.visitor@, fdef@);
        }
        self.visitor.enter_scope();
        self.parameters(&mut fdef.signature.parameters);
        match &mut fdef.body.value {
            FunctionBody_::Native => {},
            FunctionBody_::Defined(seq) => self.sequence(seq),
        }
        self.visitor.exit_scope()
    }
}

} // verus!
