//! Laws of the walk of types.

use vstd::prelude::*;
use crate::model::{type_height, types_height, TypeView, TypeView_};
use crate::trace::{infer_count, lemma_infer_count_concat, lemma_single, type_events_only};
use crate::visitor::{Visitor, VisitorContinuation};
use crate::walk::{walk_opt_type, walk_opt_types, walk_type, walk_types, Event};

verus! {

/// The walk of a type begins with the type hook on that type, and calls
/// `type_` and `infer_abilities` and no other hook.
pub proof fn law_type_walk_calls<V: Visitor>(s: V::V, t: TypeView)
    ensures
        walk_type::<V>(s, t).trace.len() >= 1,
        walk_type::<V>(s, t).trace[0] == Event::Type(t),
        type_events_only(walk_type::<V>(s, t).trace),
    decreases type_height(t), 0nat, 0nat,
{
    reveal(walk_type);
    reveal(walk_types);
    let h = V::on_type(s, t);
    if h.signal == VisitorContinuation::Descend {
        V::lemma_on_type_bounded(s, t);
        match h.node.value {
            TypeView_::Ref(_, inner) => {
                law_type_walk_calls::<V>(h.state, *inner);
            },
            TypeView_::Apply(_, _, args) => {
                law_types_walk_calls::<V>(h.state, args);
            },
            _ => {},
        }
    }
}

/// The walk of a list of types calls `type_` and `infer_abilities` and no
/// other hook.
pub proof fn law_types_walk_calls<V: Visitor>(s: V::V, ts: Seq<TypeView>)
    ensures
        type_events_only(walk_types::<V>(s, ts).trace),
    decreases types_height(ts), 1nat, ts.len(),
{
    reveal(walk_type);
    reveal(walk_types);
    if ts.len() > 0 {
        law_types_walk_calls::<V>(s, ts.drop_last());
        law_type_walk_calls::<V>(walk_types::<V>(s, ts.drop_last()).state, ts.last());
    }
}

/// The walk of the types present in a list calls `type_` and
/// `infer_abilities` and no other hook.
pub proof fn law_opt_types_walk_calls<V: Visitor>(s: V::V, ts: Seq<Option<TypeView>>)
    ensures
        type_events_only(walk_opt_types::<V>(s, ts).trace),
    decreases ts.len(),
{
    reveal(walk_opt_types);
    if ts.len() > 0 {
        law_opt_types_walk_calls::<V>(s, ts.drop_last());
        let w = walk_opt_types::<V>(s, ts.drop_last());
        match ts.last() {
            Some(t) => law_type_walk_calls::<V>(w.state, t),
            None => {},
        }
    }
}

/// The walk of a type that may be absent calls `type_` and
/// `infer_abilities` and no other hook.
pub proof fn law_opt_type_walk_calls<V: Visitor>(s: V::V, t: Option<TypeView>)
    ensures
        type_events_only(walk_opt_type::<V>(s, t).trace),
{
    match t {
        Some(t) => law_type_walk_calls::<V>(s, t),
        None => {},
    }
}

/// Where the type hook asks to descend into an applied type,
/// `infer_abilities` is called on that node once, as the last call of its
/// walk, after the walk of all its arguments; every other call of
/// `infer_abilities` in the walk is one of the walk of the arguments.
/// Where the hook says `Stop`, and on a type that is neither applied nor a
/// reference, the walk is the call of the type hook and nothing else.
/// The walk of a reference calls `infer_abilities` as often as the walk of
/// its referent does.
pub proof fn law_infer_abilities<V: Visitor>(s: V::V, t: TypeView)
    ensures
        ({
            let h = V::on_type(s, t);
            let w = walk_type::<V>(s, t);
            &&& h.signal == VisitorContinuation::Descend ==> (match h.node.value {
                TypeView_::Apply(abilities, name, args) => {
                    let a = walk_types::<V>(h.state, args);
                    let visited = TypeView {
                        loc: h.node.loc,
                        value: TypeView_::Apply(abilities, name, a.node),
                    };
                    &&& w.trace == seq![Event::Type(t)] + a.trace + seq![
                        Event::InferAbilities(visited),
                    ]
                    &&& infer_count(w.trace) == infer_count(a.trace) + 1
                },
                TypeView_::Ref(_, inner) => infer_count(w.trace) == infer_count(
                    walk_type::<V>(h.state, *inner).trace,
                ),
                _ => w.trace == seq![Event::Type(t)] && infer_count(w.trace) == 0,
            })
            &&& h.signal == VisitorContinuation::Stop ==> w.trace == seq![Event::Type(t)]
                && infer_count(w.trace) == 0
        }),
{
    reveal(walk_type);
    reveal(walk_types);
    let h = V::on_type(s, t);
    let call = seq![Event::Type(t)];
    lemma_single(Event::Type(t));
    if h.signal == VisitorContinuation::Descend {
        match h.node.value {
            TypeView_::Apply(abilities, name, args) => {
                let a = walk_types::<V>(h.state, args);
                let visited = TypeView {
                    loc: h.node.loc,
                    value: TypeView_::Apply(abilities, name, a.node),
                };
                lemma_single(Event::InferAbilities(visited));
                lemma_infer_count_concat(call, a.trace);
                lemma_infer_count_concat(call + a.trace, seq![Event::InferAbilities(visited)]);
            },
            TypeView_::Ref(_, inner) => {
                lemma_infer_count_concat(call, walk_type::<V>(h.state, *inner).trace);
            },
            _ => {},
        }
    }
}

} // verus!
