//! What can be said of a sequence of hook calls by itself: how deep in
//! scopes it is, and what kinds of call it holds.

use vstd::prelude::*;
use crate::walk::{exits, Event};

verus! {

/// By how much a call changes the number of open scopes.
pub open spec fn scope_delta(ev: Event) -> int {
    match ev {
        Event::EnterScope => 1,
        Event::ExitScope => -1,
        _ => 0,
    }
}

/// The number of scopes that `trace` opens and does not close; negative
/// where it closes more than it opens.
pub open spec fn scope_depth(trace: Seq<Event>) -> int
    decreases trace.len(),
{
    if trace.len() == 0 {
        0
    } else {
        scope_depth(trace.drop_last()) + scope_delta(trace.last())
    }
}

/// At no point has `trace` closed a scope that it did not open before, and
/// at its end `n` of the scopes it opened are still open.
pub open spec fn leaves_open(trace: Seq<Event>, n: int) -> bool {
    &&& scope_depth(trace) == n
    &&& forall|k: int| 0 <= k <= trace.len() ==> scope_depth(#[trigger] trace.take(k)) >= 0
}

/// Every `exit_scope` of `trace` closes the scope that was opened last
/// and is still open, and every scope that `trace` opens it also closes:
/// the calls of `enter_scope` and `exit_scope` nest like brackets.
pub open spec fn balanced(trace: Seq<Event>) -> bool {
    leaves_open(trace, 0)
}

/// Whether a call is neither `enter_scope` nor `exit_scope`.
pub open spec fn scope_free(ev: Event) -> bool {
    !(ev is EnterScope) && !(ev is ExitScope)
}

/// Whether a call is one that the walk of a type makes: `type_` or
/// `infer_abilities`.
pub open spec fn type_event(ev: Event) -> bool {
    ev is Type || ev is InferAbilities
}

/// Whether a call is one that the walk of a pattern makes: one of a type
/// walk, or `var_decl` where the pattern declares and `var_use` where it
/// assigns.
pub open spec fn pattern_event(ev: Event, declared: bool) -> bool {
    type_event(ev) || if declared {
        ev is VarDecl
    } else {
        ev is VarUse
    }
}

/// Every call in `trace` is one of a type walk.
pub open spec fn type_events_only(trace: Seq<Event>) -> bool {
    forall|k: int| 0 <= k < trace.len() ==> type_event(#[trigger] trace[k])
}

/// Every call in `trace` is one of a pattern walk.
pub open spec fn pattern_events_only(trace: Seq<Event>, declared: bool) -> bool {
    forall|k: int| 0 <= k < trace.len() ==> pattern_event(#[trigger] trace[k], declared)
}

/// The number of calls of `infer_abilities` in `trace`.
pub open spec fn infer_count(trace: Seq<Event>) -> nat
    decreases trace.len(),
{
    if trace.len() == 0 {
        0
    } else {
        infer_count(trace.drop_last()) + if trace.last() is InferAbilities {
            1nat
        } else {
            0nat
        }
    }
}

/// The depth of one trace after another is the sum of their depths.
pub proof fn lemma_scope_depth_concat(a: Seq<Event>, b: Seq<Event>)
    ensures
        scope_depth(a + b) == scope_depth(a) + scope_depth(b),
    decreases b.len(),
{
    if b.len() == 0 {
        assert(a + b =~= a);
    } else {
        lemma_scope_depth_concat(a, b.drop_last());
        assert((a + b).drop_last() =~= a + b.drop_last());
    }
}

/// One trace after another calls `infer_abilities` as often as both do.
pub proof fn lemma_infer_count_concat(a: Seq<Event>, b: Seq<Event>)
    ensures
        infer_count(a + b) == infer_count(a) + infer_count(b),
    decreases b.len(),
{
    if b.len() == 0 {
        assert(a + b =~= a);
    } else {
        lemma_infer_count_concat(a, b.drop_last());
        assert((a + b).drop_last() =~= a + b.drop_last());
    }
}

/// Calls of type walks are calls of pattern walks.
pub proof fn lemma_type_events_are_pattern_events(t: Seq<Event>, declared: bool)
    requires
        type_events_only(t),
    ensures
        pattern_events_only(t, declared),
{
}

/// Two traces of pattern walks, one after the other, are a trace of
/// pattern walks.
pub proof fn lemma_pattern_events_concat(a: Seq<Event>, b: Seq<Event>, declared: bool)
    requires
        pattern_events_only(a, declared),
        pattern_events_only(b, declared),
    ensures
        pattern_events_only(a + b, declared),
{
    assert forall|k: int| 0 <= k < (a + b).len() implies pattern_event(
        #[trigger] (a + b)[k],
        declared,
    ) by {
        if k < a.len() {
            assert((a + b)[k] == a[k]);
        } else {
            assert((a + b)[k] == b[k - a.len()]);
        }
    }
}

/// One call by itself.
pub proof fn lemma_single(ev: Event)
    ensures
        scope_depth(seq![ev]) == scope_delta(ev),
        infer_count(seq![ev]) == if ev is InferAbilities {
            1nat
        } else {
            0nat
        },
        scope_delta(ev) >= 0 ==> leaves_open(seq![ev], scope_delta(ev)),
{
    let t = seq![ev];
    assert(t.drop_last() =~= Seq::<Event>::empty());
    assert(scope_depth(t.drop_last()) == 0);
    assert(infer_count(t.drop_last()) == 0);
    assert forall|k: int| 0 <= k <= t.len() implies scope_depth(#[trigger] t.take(k)) == if k
        == 0 {
        0
    } else {
        scope_delta(ev)
    } by {
        if k == 0 {
            assert(t.take(0) =~= Seq::<Event>::empty());
        } else {
            assert(t.take(1) =~= t);
        }
    }
}

/// The empty trace.
pub proof fn lemma_empty()
    ensures
        balanced(Seq::<Event>::empty()),
        type_events_only(Seq::<Event>::empty()),
        infer_count(Seq::<Event>::empty()) == 0,
{
    let t = Seq::<Event>::empty();
    assert forall|k: int| 0 <= k <= t.len() implies scope_depth(#[trigger] t.take(k)) >= 0 by {
        assert(t.take(k) =~= t);
    }
}

/// One trace after another leaves open what both leave open.
pub proof fn lemma_leaves_open_concat(a: Seq<Event>, m: int, b: Seq<Event>, n: int)
    requires
        leaves_open(a, m),
        leaves_open(b, n),
    ensures
        leaves_open(a + b, m + n),
{
    lemma_scope_depth_concat(a, b);
    assert(a.take(a.len() as int) =~= a);
    assert forall|k: int| 0 <= k <= (a + b).len() implies scope_depth(
        #[trigger] (a + b).take(k),
    ) >= 0 by {
        if k <= a.len() {
            assert((a + b).take(k) =~= a.take(k));
        } else {
            assert((a + b).take(k) =~= a + b.take(k - a.len()));
            lemma_scope_depth_concat(a, b.take(k - a.len()));
        }
    }
}

/// A trace that leaves `n` scopes open is balanced once `n` calls of
/// `exit_scope` follow it.
pub proof fn lemma_closed_by_exits(a: Seq<Event>, n: nat)
    requires
        leaves_open(a, n as int),
    ensures
        balanced(a + exits(n)),
{
    let exits = exits(n);
    let t = a + exits;
    assert forall|k: int| 0 <= k <= exits.len() implies scope_depth(#[trigger] exits.take(k))
        == -k by {
        lemma_exits_depth(exits.take(k));
    }
    assert(exits.take(n as int) =~= exits);
    lemma_scope_depth_concat(a, exits);
    assert(a.take(a.len() as int) =~= a);
    assert forall|k: int| 0 <= k <= t.len() implies scope_depth(#[trigger] t.take(k)) >= 0 by {
        if k <= a.len() {
            assert(t.take(k) =~= a.take(k));
        } else {
            assert(t.take(k) =~= a + exits.take(k - a.len()));
            lemma_scope_depth_concat(a, exits.take(k - a.len()));
        }
    }
}

/// A trace of nothing but `exit_scope` is as deep below zero as it is long.
pub proof fn lemma_exits_depth(t: Seq<Event>)
    requires
        forall|i: int| 0 <= i < t.len() ==> t[i] == Event::ExitScope,
    ensures
        scope_depth(t) == -t.len(),
    decreases t.len(),
{
    if t.len() > 0 {
        lemma_exits_depth(t.drop_last());
    }
}

/// A balanced trace between `enter_scope` and `exit_scope` is balanced.
pub proof fn lemma_bracketed(a: Seq<Event>)
    requires
        balanced(a),
    ensures
        balanced(seq![Event::EnterScope] + a + seq![Event::ExitScope]),
{
    lemma_single(Event::EnterScope);
    lemma_leaves_open_concat(seq![Event::EnterScope], 1, a, 0);
    let open = seq![Event::EnterScope] + a;
    lemma_closed_by_exits(open, 1);
    assert(exits(1) =~= seq![Event::ExitScope]);
}

/// Two balanced traces, one after the other, are balanced.
pub proof fn lemma_balanced_concat(a: Seq<Event>, b: Seq<Event>)
    requires
        balanced(a),
        balanced(b),
    ensures
        balanced(a + b),
{
    lemma_leaves_open_concat(a, 0, b, 0);
}

/// The trace of a pattern walk is balanced.
pub proof fn lemma_pattern_events_balanced(t: Seq<Event>, declared: bool)
    requires
        pattern_events_only(t, declared),
    ensures
        balanced(t),
{
    lemma_scope_free_balanced(t);
}

/// The trace of a type walk is balanced.
pub proof fn lemma_type_events_balanced(t: Seq<Event>)
    requires
        type_events_only(t),
    ensures
        balanced(t),
{
    lemma_scope_free_balanced(t);
}

/// A trace without `enter_scope` and `exit_scope` is balanced.
pub proof fn lemma_scope_free_balanced(t: Seq<Event>)
    requires
        forall|k: int| 0 <= k < t.len() ==> scope_free(#[trigger] t[k]),
    ensures
        balanced(t),
{
    assert forall|k: int| 0 <= k <= t.len() implies scope_depth(#[trigger] t.take(k)) == 0 by {
        lemma_scope_free_depth(t.take(k));
    }
    assert(t.take(t.len() as int) =~= t);
}

/// A trace without `enter_scope` and `exit_scope` has depth zero.
pub proof fn lemma_scope_free_depth(t: Seq<Event>)
    requires
        forall|k: int| 0 <= k < t.len() ==> scope_free(#[trigger] t[k]),
    ensures
        scope_depth(t) == 0,
    decreases t.len(),
{
    if t.len() > 0 {
        lemma_scope_free_depth(t.drop_last());
    }
}

} // verus!
