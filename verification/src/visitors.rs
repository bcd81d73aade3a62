//! Four small visitors: one that does nothing, one that writes down every
//! call it gets, one that also stops where it is told, and one that
//! renames a variable.

use vstd::prelude::*;
use crate::ast::{Exp, Loc, Symbol, Type, Var};
use crate::model::{exp_view, type_view, ExpView, TypeView};
use crate::visitor::{Hooked, Visitor, VisitorContinuation};

verus! {

/// The visitor whose every hook leaves everything as it is and asks to
/// descend.
pub struct NoOp {}

impl View for NoOp {
    type V = ();

    open spec fn view(&self) -> () {
        ()
    }
}

impl Visitor for NoOp {
    open spec fn on_exp(s: (), ex: ExpView) -> Hooked<(), ExpView> {
        Hooked { state: s, node: ex, signal: VisitorContinuation::Descend }
    }

    open spec fn on_type(s: (), ty: TypeView) -> Hooked<(), TypeView> {
        Hooked { state: s, node: ty, signal: VisitorContinuation::Descend }
    }

    open spec fn on_enter_scope(s: ()) -> () {
        s
    }

    open spec fn on_var_decl(s: (), var: Var) -> ((), Var) {
        (s, var)
    }

    open spec fn on_var_use(s: (), var: Var) -> ((), Var) {
        (s, var)
    }

    open spec fn on_exit_scope(s: ()) -> () {
        s
    }

    open spec fn on_infer_abilities(s: (), ty: TypeView) -> ((), TypeView) {
        (s, ty)
    }

    proof fn lemma_on_exp_bounded(s: (), ex: ExpView) {
    }

    proof fn lemma_on_type_bounded(s: (), ty: TypeView) {
    }

    fn exp(&mut self, ex: &mut Exp) -> (signal: VisitorContinuation) {
        VisitorContinuation::Descend
    }

    fn type_(&mut self, ty: &mut Type) -> (signal: VisitorContinuation) {
        VisitorContinuation::Descend
    }

    fn enter_scope(&mut self) {
    }

    fn var_decl(&mut self, var: &mut Var) {
    }

    fn var_use(&mut self, var: &mut Var) {
    }

    fn exit_scope(&mut self) {
    }

    fn infer_abilities(&mut self, ty: &mut Type) {
    }
}

/// One call of a hook, as it is written down: a node by where it stands, a
/// variable as it was handed over.
#[derive(Clone, Copy, Debug, PartialEq, Eq, Structural)]
pub enum Call {
    EnterScope,
    ExitScope,
    VarDecl(Var),
    VarUse(Var),
    Type(Loc),
    Exp(Loc),
    InferAbilities(Loc),
}

/// A visitor that changes nothing, asks to descend everywhere, and writes
/// down every call.
pub struct Recorder {
    pub calls: Vec<Call>,
}

impl View for Recorder {
    type V = Seq<Call>;

    open spec fn view(&self) -> Seq<Call> {
        self.calls@
    }
}

impl Recorder {
    /// A recorder with an empty record.
    pub fn new() -> (recorder: Self)
        ensures
            recorder@ == Seq::<Call>::empty(),
    {
        Recorder { calls: Vec::new() }
    }
}

impl Visitor for Recorder {
    open spec fn on_exp(s: Seq<Call>, ex: ExpView) -> Hooked<Seq<Call>, ExpView> {
        Hooked { state: s.push(Call::Exp(ex.loc)), node: ex, signal: VisitorContinuation::Descend }
    }

    open spec fn on_type(s: Seq<Call>, ty: TypeView) -> Hooked<Seq<Call>, TypeView> {
        Hooked { state: s.push(Call::Type(ty.loc)), node: ty, signal: VisitorContinuation::Descend }
    }

    open spec fn on_enter_scope(s: Seq<Call>) -> Seq<Call> {
        s.push(Call::EnterScope)
    }

    open spec fn on_var_decl(s: Seq<Call>, var: Var) -> (Seq<Call>, Var) {
        (s.push(Call::VarDecl(var)), var)
    }

    open spec fn on_var_use(s: Seq<Call>, var: Var) -> (Seq<Call>, Var) {
        (s.push(Call::VarUse(var)), var)
    }

    open spec fn on_exit_scope(s: Seq<Call>) -> Seq<Call> {
        s.push(Call::ExitScope)
    }

    open spec fn on_infer_abilities(s: Seq<Call>, ty: TypeView) -> (Seq<Call>, TypeView) {
        (s.push(Call::InferAbilities(ty.loc)), ty)
    }

    proof fn lemma_on_exp_bounded(s: Seq<Call>, ex: ExpView) {
    }

    proof fn lemma_on_type_bounded(s: Seq<Call>, ty: TypeView) {
    }

    fn exp(&mut self, ex: &mut Exp) -> (signal: VisitorContinuation) {
        proof {
            reveal(exp_view);
        }
        self.calls.push(Call::Exp(ex.loc));
        VisitorContinuation::Descend
    }

    fn type_(&mut self, ty: &mut Type) -> (signal: VisitorContinuation) {
        proof {
            reveal(type_view);
        }
        self.calls.push(Call::Type(ty.loc));
        VisitorContinuation::Descend
    }

    fn enter_scope(&mut self) {
        self.calls.push(Call::EnterScope);
    }

    fn var_decl(&mut self, var: &mut Var) {
        self.calls.push(Call::VarDecl(*var));
    }

    fn var_use(&mut self, var: &mut Var) {
        self.calls.push(Call::VarUse(*var));
    }

    fn exit_scope(&mut self) {
        self.calls.push(Call::ExitScope);
    }

    fn infer_abilities(&mut self, ty: &mut Type) {
        proof {
            reveal(type_view);
        }
        self.calls.push(Call::InferAbilities(ty.loc));
    }
}

/// A visitor that changes nothing, writes down every call, and says
/// `Stop` at the expression, and at the type, that stands where it was told
/// to stop, and `Descend` everywhere else.
pub struct Pruner {
    pub calls: Vec<Call>,
    pub stop_exp_at: Option<Loc>,
    pub stop_type_at: Option<Loc>,
}

/// What a `Pruner` is: its record so far and where it stops.
pub struct PrunerView {
    pub calls: Seq<Call>,
    pub stop_exp_at: Option<Loc>,
    pub stop_type_at: Option<Loc>,
}

impl PrunerView {
    /// The same pruner with one more call on its record.
    pub open spec fn with(self, call: Call) -> PrunerView {
        PrunerView { calls: self.calls.push(call), ..self }
    }
}

impl View for Pruner {
    type V = PrunerView;

    open spec fn view(&self) -> PrunerView {
        PrunerView {
            calls: self.calls@,
            stop_exp_at: self.stop_exp_at,
            stop_type_at: self.stop_type_at,
        }
    }
}

impl Pruner {
    /// A pruner with an empty record that stops at the expression and at
    /// the type that stand where it is told, if it is told.
    pub fn new(stop_exp_at: Option<Loc>, stop_type_at: Option<Loc>) -> (pruner: Self)
        ensures
            pruner@.calls == Seq::<Call>::empty(),
            pruner@.stop_exp_at == stop_exp_at,
            pruner@.stop_type_at == stop_type_at,
    {
        Pruner { calls: Vec::new(), stop_exp_at, stop_type_at }
    }

    fn signal_at(stop: Option<Loc>, loc: Loc) -> (signal: VisitorContinuation)
        ensures
            signal == if stop == Some(loc) {
                VisitorContinuation::Stop
            } else {
                VisitorContinuation::Descend
            },
    {
        match stop {
            Some(at) => if at == loc {
                VisitorContinuation::Stop
            } else {
                VisitorContinuation::Descend
            },
            None => VisitorContinuation::Descend,
        }
    }
}

impl Visitor for Pruner {
    open spec fn on_exp(s: PrunerView, ex: ExpView) -> Hooked<PrunerView, ExpView> {
        Hooked {
            state: s.with(Call::Exp(ex.loc)),
            node: ex,
            signal: if s.stop_exp_at == Some(ex.loc) {
                VisitorContinuation::Stop
            } else {
                VisitorContinuation::Descend
            },
        }
    }

    open spec fn on_type(s: PrunerView, ty: TypeView) -> Hooked<PrunerView, TypeView> {
        Hooked {
            state: s.with(Call::Type(ty.loc)),
            node: ty,
            signal: if s.stop_type_at == Some(ty.loc) {
                VisitorContinuation::Stop
            } else {
                VisitorContinuation::Descend
            },
        }
    }

    open spec fn on_enter_scope(s: PrunerView) -> PrunerView {
        s.with(Call::EnterScope)
    }

    open spec fn on_var_decl(s: PrunerView, var: Var) -> (PrunerView, Var) {
        (s.with(Call::VarDecl(var)), var)
    }

    open spec fn on_var_use(s: PrunerView, var: Var) -> (PrunerView, Var) {
        (s.with(Call::VarUse(var)), var)
    }

    open spec fn on_exit_scope(s: PrunerView) -> PrunerView {
        s.with(Call::ExitScope)
    }

    open spec fn on_infer_abilities(s: PrunerView, ty: TypeView) -> (PrunerView, TypeView) {
        (s.with(Call::InferAbilities(ty.loc)), ty)
    }

    proof fn lemma_on_exp_bounded(s: PrunerView, ex: ExpView) {
    }

    proof fn lemma_on_type_bounded(s: PrunerView, ty: TypeView) {
    }

    fn exp(&mut self, ex: &mut Exp) -> (signal: VisitorContinuation) {
        proof {
            reveal(exp_view);
        }
        self.calls.push(Call::Exp(ex.loc));
        Self::signal_at(self.stop_exp_at, ex.loc)
    }

    fn type_(&mut self, ty: &mut Type) -> (signal: VisitorContinuation) {
        proof {
            reveal(type_view);
        }
        self.calls.push(Call::Type(ty.loc));
        Self::signal_at(self.stop_type_at, ty.loc)
    }

    fn enter_scope(&mut self) {
        self.calls.push(Call::EnterScope);
    }

    fn var_decl(&mut self, var: &mut Var) {
        self.calls.push(Call::VarDecl(*var));
    }

    fn var_use(&mut self, var: &mut Var) {
        self.calls.push(Call::VarUse(*var));
    }

    fn exit_scope(&mut self) {
        self.calls.push(Call::ExitScope);
    }

    fn infer_abilities(&mut self, ty: &mut Type) {
        proof {
            reveal(type_view);
        }
        self.calls.push(Call::InferAbilities(ty.loc));
    }
}

/// A visitor that gives every occurrence of one variable name another
/// name, where it is declared and where it is used.
pub struct Renamer {
    pub from: Symbol,
    pub to: Symbol,
}

impl View for Renamer {
    type V = (Symbol, Symbol);

    open spec fn view(&self) -> (Symbol, Symbol) {
        (self.from, self.to)
    }
}

/// `var` under the renaming of `from` to `to`.
pub open spec fn renamed(from: Symbol, to: Symbol, var: Var) -> Var {
    if var.name == from {
        Var { loc: var.loc, name: to }
    } else {
        var
    }
}

impl Renamer {
    fn rename(&self, var: &mut Var)
        ensures
            *final(var) == renamed(self.from, self.to, *old(var)),
    {
        if var.name == self.from {
            var.name = self.to;
        }
    }
}

impl Visitor for Renamer {
    open spec fn on_exp(s: (Symbol, Symbol), ex: ExpView) -> Hooked<(Symbol, Symbol), ExpView> {
        Hooked { state: s, node: ex, signal: VisitorContinuation::Descend }
    }

    open spec fn on_type(s: (Symbol, Symbol), ty: TypeView) -> Hooked<(Symbol, Symbol), TypeView> {
        Hooked { state: s, node: ty, signal: VisitorContinuation::Descend }
    }

    open spec fn on_enter_scope(s: (Symbol, Symbol)) -> (Symbol, Symbol) {
        s
    }

    open spec fn on_var_decl(s: (Symbol, Symbol), var: Var) -> ((Symbol, Symbol), Var) {
        (s, renamed(s.0, s.1, var))
    }

    open spec fn on_var_use(s: (Symbol, Symbol), var: Var) -> ((Symbol, Symbol), Var) {
        (s, renamed(s.0, s.1, var))
    }

    open spec fn on_exit_scope(s: (Symbol, Symbol)) -> (Symbol, Symbol) {
        s
    }

    open spec fn on_infer_abilities(s: (Symbol, Symbol), ty: TypeView) -> (
        (Symbol, Symbol),
        TypeView,
    ) {
        (s, ty)
    }

    proof fn lemma_on_exp_bounded(s: (Symbol, Symbol), ex: ExpView) {
    }

    proof fn lemma_on_type_bounded(s: (Symbol, Symbol), ty: TypeView) {
    }

    fn exp(&mut self, ex: &mut Exp) -> (signal: VisitorContinuation) {
        VisitorContinuation::Descend
    }

    fn type_(&mut self, ty: &mut Type) -> (signal: VisitorContinuation) {
        VisitorContinuation::Descend
    }

    fn enter_scope(&mut self) {
    }

    fn var_decl(&mut self, var: &mut Var) {
        self.rename(var)
    }

    fn var_use(&mut self, var: &mut Var) {
        self.rename(var)
    }

    fn exit_scope(&mut self) {
    }

    fn infer_abilities(&mut self, ty: &mut Type) {
    }
}

} // verus!
