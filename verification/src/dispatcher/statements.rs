//! Walking statements and sequences.

use vstd::prelude::*;
use crate::ast::{Sequence, SequenceItem, SequenceItem_};
use crate::dispatcher::Dispatcher;
use crate::laws::replay::{after_calls, lemma_replay_sequence};
use crate::model::{
    lemma_sequence_height, sequence_height, sequence_view, statement_height, SequenceItemView,
};
use crate::visitor::Visitor;
use crate::walk::{
    exit_scopes, opened_scopes, opens_scope, walk_sequence, walk_statement, walk_statements,
};

verus! {

/// The walk of the statements of a sequence leaves as many as it found.
pub proof fn lemma_walk_statements_len<V: Visitor>(
    s: V::V,
    items: Seq<SequenceItemView>,
)
    ensures
        walk_statements::<V>(s, items).node.len() == items.len(),
    decreases items.len(),
{
    if items.len() > 0 {
        lemma_walk_statements_len::<V>(s, items.drop_last());
    }
}

impl<'l, V: Visitor> Dispatcher<'l, V> {
    /// Walks one statement and says whether it opened a scope, which is
    /// then still open.
    pub(crate) fn statement(&mut self, item: &mut SequenceItem) -> (opened: bool)
        ensures
            final(self).visitor@ == walk_statement::<V>(old(self).visitor@, old(item)@).state,
            final(item)@ == walk_statement::<V>(old(self).visitor@, old(item)@).node,
            opened == opens_scope(old(item)@),
            *final(final(self).visitor) == *final(old(self).visitor),
        decreases statement_height(old(item)@), 2nat,
    {
        match &mut item.value {
            SequenceItem_::Bind(decls, tys, e) => {
                self.visitor.enter_scope();
                self.lvalue_list(decls,  /*declared*/ true);
                self.optional_types(tys);
                self.exp(e);
                true
            },
            SequenceItem_::Declare(decls) => {
                self.visitor.enter_scope();
                self.lvalue_list(decls,  /*declared*/ true);
                true
            },
            SequenceItem_::Exp(e) => {
                self.exp(e);
                false
            },
        }
    }

    /// Walks a sequence: its statements in source order, each scope that a
    /// bind or a declare opens staying open for the statements after it,
    /// then one `exit_scope` for each scope opened.
    pub fn sequence(&mut self, seq: &mut Sequence)
        ensures
            final(self).visitor@ == walk_sequence::<V>(
                old(self).visitor@,
                sequence_view(old(seq)@),
            ).state,
            sequence_view(final(seq)@) == walk_sequence::<V>(
                old(self).visitor@,
                sequence_view(old(seq)@),
            ).node,
            final(self).visitor@ == after_calls::<V>(
                old(self).visitor@,
                walk_sequence::<V>(old(self).visitor@, sequence_view(old(seq)@)).trace,
            ),
            *final(final(self).visitor) == *final(old(self).visitor),
        decreases sequence_height(sequence_view(old(seq)@)), 4nat,
    {
        proof {
            lemma_replay_sequence::<V>(self.visitor@, sequence_view(seq@));
        }
        let ghost s0 = self.visitor@;
        let ghost a0 = sequence_view(seq@);
        let n: usize = seq.len();
        let mut i: usize = 0;
        let mut scope_cnt: usize = 0;
        while i < n
            invariant
                n == seq.len(),
                i <= n,
                a0.len() == n,
                a0 == sequence_view(old(seq)@),
                sequence_view(seq@) =~= walk_statements::<V>(s0, a0.take(i as int)).node + a0.skip(
                    i as int,
                ),
                self.visitor@ == walk_statements::<V>(s0, a0.take(i as int)).state,
                scope_cnt == opened_scopes(a0.take(i as int)),
                scope_cnt <= i,
                *final(self.visitor) == *final(old(self).visitor),
            decreases n - i,
        {
            let ghost before = sequence_view(seq@);
            let ghost si = self.visitor@;
            proof {
                lemma_sequence_height(a0, i as int);
                lemma_walk_statements_len::<V>(s0, a0.take(i as int));
                lemma_walk_statements_len::<V>(s0, a0.take(i + 1));
                assert(a0.take(i + 1).drop_last() =~= a0.take(i as int));
                assert(a0.take(i + 1).last() == a0[i as int]);
                assert(before[i as int] == a0[i as int]);
            }
            let opened = self.statement(&mut seq[i]);
            if opened {
                scope_cnt += 1;
            }
            proof {
                let x = walk_statement::<V>(si, a0[i as int]);
                assert(sequence_view(seq@) =~= before.update(i as int, x.node));
            }
            i += 1;
        }
        proof {
            assert(a0.take(n as int) =~= a0);
            lemma_walk_statements_len::<V>(s0, a0);
        }
        let ghost s1 = self.visitor@;
        while scope_cnt > 0
            invariant
                exit_scopes::<V>(self.visitor@, scope_cnt as nat) == exit_scopes::<V>(
                    s1,
                    opened_scopes(a0),
                ),
                *final(self.visitor) == *final(old(self).visitor),
            decreases scope_cnt,
        {
            self.visitor.exit_scope();
            scope_cnt -= 1
        }
    }
}

} // verus!
