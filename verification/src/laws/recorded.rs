//! What the recording visitors write down is the calls of the walk, and a
//! walk with one that only looks can be repeated.

use vstd::prelude::*;
use crate::laws::observers::{law_second_walk_repeats_first, observes};
use crate::laws::unchanged::law_looking_changes_nothing;
use crate::laws::replay::{after_calls, law_function_walk_is_its_calls};
use crate::model::FunctionView;
use crate::visitors::{Call, NoOp, Pruner, PrunerView, Recorder};
use crate::walk::{walk_function, Event};

verus! {

/// A call as it is written down.
pub open spec fn recorded_call(call: Event) -> Call {
    match call {
        Event::EnterScope => Call::EnterScope,
        Event::ExitScope => Call::ExitScope,
        Event::VarDecl(var) => Call::VarDecl(var),
        Event::VarUse(var) => Call::VarUse(var),
        Event::Type(ty) => Call::Type(ty.loc),
        Event::Exp(ex) => Call::Exp(ex.loc),
        Event::InferAbilities(ty) => Call::InferAbilities(ty.loc),
    }
}

/// Calls as they are written down.
pub open spec fn recorded(calls: Seq<Event>) -> Seq<Call> {
    Seq::new(calls.len(), |i: int| recorded_call(calls[i]))
}

/// The visitor that does nothing only looks.
pub proof fn law_no_op_observes()
    ensures
        observes::<NoOp>(),
{
}

/// A recorder only looks.
pub proof fn law_recorder_observes()
    ensures
        observes::<Recorder>(),
{
}

/// Whatever calls a recorder gets, it writes them down, each as it
/// comes, after what it held before.
pub proof fn law_recorder_writes_down_its_calls(s: Seq<Call>, calls: Seq<Event>)
    ensures
        after_calls::<Recorder>(s, calls) == s + recorded(calls),
    decreases calls.len(),
{
    if calls.len() == 0 {
        assert(s + recorded(calls) =~= s);
    } else {
        law_recorder_writes_down_its_calls(s, calls.drop_last());
        assert(s + recorded(calls) =~= (s + recorded(calls.drop_last())).push(
            recorded_call(calls.last()),
        ));
    }
}

/// Whatever calls a pruner gets, it writes them down, each as it comes,
/// after what it held before, and stops where it stopped before.
pub proof fn law_pruner_writes_down_its_calls(s: PrunerView, calls: Seq<Event>)
    ensures
        after_calls::<Pruner>(s, calls) == (PrunerView {
            calls: s.calls + recorded(calls),
            ..s
        }),
    decreases calls.len(),
{
    if calls.len() == 0 {
        assert(s.calls + recorded(calls) =~= s.calls);
    } else {
        law_pruner_writes_down_its_calls(s, calls.drop_last());
        assert(s.calls + recorded(calls) =~= (s.calls + recorded(calls.drop_last())).push(
            recorded_call(calls.last()),
        ));
    }
}

/// After the walk of a function a recorder holds what it held before and
/// then the calls of the walk, and the function is as it was.
pub proof fn law_recorder_holds_the_walk(s: Seq<Call>, f: FunctionView)
    ensures
        walk_function::<Recorder>(s, f).state == s + recorded(
            walk_function::<Recorder>(s, f).trace,
        ),
        walk_function::<Recorder>(s, f).node == f,
{
    law_function_walk_is_its_calls::<Recorder>(s, f);
    law_recorder_writes_down_its_calls(s, walk_function::<Recorder>(s, f).trace);
    law_recorder_observes();
    law_second_walk_repeats_first::<Recorder>(s, f);
}

/// After the walk of a function a pruner holds what it held before and
/// then the calls of the walk, and the function is as it was.
pub proof fn law_pruner_holds_the_walk(s: PrunerView, f: FunctionView)
    ensures
        walk_function::<Pruner>(s, f).state == (PrunerView {
            calls: s.calls + recorded(walk_function::<Pruner>(s, f).trace),
            ..s
        }),
        walk_function::<Pruner>(s, f).node == f,
{
    law_function_walk_is_its_calls::<Pruner>(s, f);
    law_pruner_writes_down_its_calls(s, walk_function::<Pruner>(s, f).trace);
    law_looking_changes_nothing::<Pruner>(s, f);
}

/// Two recorders that walk the same function one after the other, each
/// from an empty record, hold the same record.
pub proof fn law_recorders_agree(f: FunctionView)
    ensures
        ({
            let first = walk_function::<Recorder>(Seq::empty(), f);
            let second = walk_function::<Recorder>(Seq::empty(), first.node);
            second.state == first.state && second.node == f
        }),
{
    law_recorder_holds_the_walk(Seq::empty(), f);
}

} // verus!
