//! The order of the calls around one expression node, and what `Stop`
//! takes away.

use vstd::prelude::*;
use crate::laws::types::law_type_walk_calls;
use crate::model::{ExpView, SequenceItemView};
use crate::visitor::{Hooked, Visitor, VisitorContinuation};
use crate::walk::{walk_exp, walk_statements, walk_type, walk_unannotated, Event, Walk};

verus! {

/// The expression of `e` as the expression hook gets it: with its type
/// walked.
pub open spec fn typed<V: Visitor>(s: V::V, e: ExpView) -> ExpView {
    ExpView { ty: walk_type::<V>(s, e.ty).node, loc: e.loc, value: e.value }
}

/// What the expression hook makes of `e` after the walk of its type.
pub open spec fn hooked<V: Visitor>(s: V::V, e: ExpView) -> Hooked<V::V, ExpView> {
    V::on_exp(walk_type::<V>(s, e.ty).state, typed::<V>(s, e))
}

/// For every expression node, the type hook for the node's inferred type
/// is called before the expression hook for the node: the walk of the
/// node begins with the whole walk of its type, which begins with the type
/// hook on that type and has no call of the expression hook in it, and the
/// next call is the expression hook on the node.
pub proof fn law_type_before_exp<V: Visitor>(s: V::V, e: ExpView)
    ensures
        ({
            let t = walk_type::<V>(s, e.ty);
            let w = walk_exp::<V>(s, e);
            &&& 1 <= t.trace.len() < w.trace.len()
            &&& w.trace.take(t.trace.len() as int) == t.trace
            &&& w.trace[0] == Event::Type(e.ty)
            &&& w.trace[t.trace.len() as int] == Event::Exp(typed::<V>(s, e))
            &&& forall|k: int| 0 <= k < t.trace.len() ==> !(#[trigger] w.trace[k] is Exp)
        }),
{
    let t = walk_type::<V>(s, e.ty);
    let w = walk_exp::<V>(s, e);
    law_type_walk_calls::<V>(s, e.ty);
    assert(w.trace.take(t.trace.len() as int) =~= t.trace);
    assert forall|k: int| 0 <= k < t.trace.len() implies !(#[trigger] w.trace[k] is Exp) by {
        assert(w.trace[k] == t.trace[k]);
    }
}

/// If the expression hook returns `Stop` for a node, no hook is called
/// for anything below the node: the walk of the node is the walk of its
/// type and the one call of the expression hook, and the node and the
/// visitor are left as the hook left them.
pub proof fn law_stop_prunes<V: Visitor>(s: V::V, e: ExpView)
    requires
        hooked::<V>(s, e).signal == VisitorContinuation::Stop,
    ensures
        walk_exp::<V>(s, e).trace == walk_type::<V>(s, e.ty).trace + seq![
            Event::Exp(typed::<V>(s, e)),
        ],
        walk_exp::<V>(s, e).node == hooked::<V>(s, e).node,
        walk_exp::<V>(s, e).state == hooked::<V>(s, e).state,
{
}

/// If the expression hook returns `Descend` for a node, what the node
/// holds after the hook is walked next, from the state the hook left.
pub proof fn law_descend_walks<V: Visitor>(s: V::V, e: ExpView)
    requires
        hooked::<V>(s, e).signal == VisitorContinuation::Descend,
    ensures
        ({
            let h = hooked::<V>(s, e);
            let below = walk_unannotated::<V>(h.state, h.node.value);
            &&& walk_exp::<V>(s, e).trace == walk_type::<V>(s, e.ty).trace + seq![
                Event::Exp(typed::<V>(s, e)),
            ] + below.trace
            &&& walk_exp::<V>(s, e).node == ExpView {
                ty: h.node.ty,
                loc: h.node.loc,
                value: below.node,
            }
            &&& walk_exp::<V>(s, e).state == below.state
        }),
{
}

/// What happens below one statement takes nothing from the statements
/// after it: whatever the hooks return, the walk of a list of statements
/// is the walk of those before any point, followed by the walk of those
/// after it from the state that the first left.
pub proof fn law_statements_all_walked<V: Visitor>(
    s: V::V,
    before: Seq<SequenceItemView>,
    after: Seq<SequenceItemView>,
)
    ensures
        ({
            let a = walk_statements::<V>(s, before);
            let b = walk_statements::<V>(a.state, after);
            walk_statements::<V>(s, before + after) == Walk {
                state: b.state,
                node: a.node + b.node,
                trace: a.trace + b.trace,
            }
        }),
    decreases after.len(),
{
    let a = walk_statements::<V>(s, before);
    let b = walk_statements::<V>(a.state, after);
    let all = walk_statements::<V>(s, before + after);
    if after.len() == 0 {
        assert(before + after =~= before);
        assert(a.node + b.node =~= a.node);
        assert(a.trace + b.trace =~= a.trace);
    } else {
        law_statements_all_walked::<V>(s, before, after.drop_last());
        assert((before + after).drop_last() =~= before + after.drop_last());
        assert((before + after).last() == after.last());
        assert(all.node =~= a.node + b.node);
        assert(all.trace =~= a.trace + b.trace);
    }
}

} // verus!
