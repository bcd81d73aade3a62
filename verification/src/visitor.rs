//! The hooks a transformation pass implements, and the signal by which a
//! hook prunes the walk.

use vstd::prelude::*;
use crate::ast::{Exp, Type, Var};
use crate::model::{exp_height, type_height, ExpView, TypeView};

verus! {

/// What a node hook tells the engine to do with the node's children.
#[derive(Debug, PartialEq, Eq, Structural)]
pub enum VisitorContinuation {
    /// Leave the children alone.
    Stop,
    /// Walk the children.
    Descend,
}

/// What a node hook leaves behind: the visitor's new state, the node as
/// the hook rewrote it, and the signal it returned.
pub struct Hooked<S, N> {
    pub state: S,
    pub node: N,
    pub signal: VisitorContinuation,
}

/// The hooks of a pass.
///
/// A visitor is described by its view, the state on which its behaviour
/// depends, and by one function per hook that says what the hook does to
/// that state and to the node it is handed. The engine is specified over
/// these functions, so what it guarantees holds of every visitor.
///
/// A node hook may rewrite its node freely when it returns `Stop`. When it
/// returns `Descend` the engine goes on into what the hook left, so the
/// hook must not have made the node higher: that is what bounds the walk.
pub trait Visitor: View + Sized {
    /// What `exp` does.
    spec fn on_exp(s: Self::V, ex: ExpView) -> Hooked<Self::V, ExpView>;

    /// What `type_` does.
    spec fn on_type(s: Self::V, ty: TypeView) -> Hooked<Self::V, TypeView>;

    /// What `enter_scope` does.
    spec fn on_enter_scope(s: Self::V) -> Self::V;

    /// What `var_decl` does.
    spec fn on_var_decl(s: Self::V, var: Var) -> (Self::V, Var);

    /// What `var_use` does.
    spec fn on_var_use(s: Self::V, var: Var) -> (Self::V, Var);

    /// What `exit_scope` does.
    spec fn on_exit_scope(s: Self::V) -> Self::V;

    /// What `infer_abilities` does.
    spec fn on_infer_abilities(s: Self::V, ty: TypeView) -> (Self::V, TypeView);

    /// An expression hook that asks to descend leaves the node no higher.
    proof fn lemma_on_exp_bounded(s: Self::V, ex: ExpView)
        ensures
            Self::on_exp(s, ex).signal == VisitorContinuation::Descend ==> exp_height(
                Self::on_exp(s, ex).node,
            ) <= exp_height(ex),
    ;

    /// A type hook that asks to descend leaves the node no higher.
    proof fn lemma_on_type_bounded(s: Self::V, ty: TypeView)
        ensures
            Self::on_type(s, ty).signal == VisitorContinuation::Descend ==> type_height(
                Self::on_type(s, ty).node,
            ) <= type_height(ty),
    ;

    /// Called on an expression node before its children are visited.
    fn exp(&mut self, ex: &mut Exp) -> (signal: VisitorContinuation)
        ensures
            final(self)@ == Self::on_exp(old(self)@, old(ex)@).state,
            final(ex)@ == Self::on_exp(old(self)@, old(ex)@).node,
            signal == Self::on_exp(old(self)@, old(ex)@).signal,
    ;

    /// Called on a type node before its children are visited.
    fn type_(&mut self, ty: &mut Type) -> (signal: VisitorContinuation)
        ensures
            final(self)@ == Self::on_type(old(self)@, old(ty)@).state,
            final(ty)@ == Self::on_type(old(self)@, old(ty)@).node,
            signal == Self::on_type(old(self)@, old(ty)@).signal,
    ;

    /// Called when a lexical region opens.
    fn enter_scope(&mut self)
        ensures
            final(self)@ == Self::on_enter_scope(old(self)@),
    ;

    /// Called when a binding is introduced.
    fn var_decl(&mut self, var: &mut Var)
        ensures
            (final(self)@, *final(var)) == Self::on_var_decl(old(self)@, *old(var)),
    ;

    /// Called when a binding is referred to.
    fn var_use(&mut self, var: &mut Var)
        ensures
            (final(self)@, *final(var)) == Self::on_var_use(old(self)@, *old(var)),
    ;

    /// Called when the region opened last closes.
    fn exit_scope(&mut self)
        ensures
            final(self)@ == Self::on_exit_scope(old(self)@),
    ;

    /// Called on an applied type once all its arguments have been visited.
    fn infer_abilities(&mut self, ty: &mut Type)
        ensures
            (final(self)@, final(ty)@) == Self::on_infer_abilities(old(self)@, old(ty)@),
    ;
}

} // verus!
