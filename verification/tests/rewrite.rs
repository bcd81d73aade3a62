use move_passes::ast::{
    BuiltinTypeName, Exp, Function, FunctionBody, FunctionBody_, FunctionSignature, LValue,
    LValueList, LValue_, Loc, SequenceItem, SequenceItem_, Symbol, Type, TypeName, Type_,
    UnannotatedExp_, Var,
};
use move_passes::dispatcher::Dispatcher;
use move_passes::visitor::{Visitor, VisitorContinuation};
use move_passes::visitors::{NoOp, Recorder, Renamer};

fn loc(n: u32) -> Loc {
    Loc { file: 0, start: n, end: n + 1 }
}

fn var(name: u64, at: u32) -> Var {
    Var { loc: loc(at), name: Symbol { id: name } }
}

fn unit_ty(at: u32) -> Type {
    Type { loc: loc(at), value: Type_::Unit }
}

fn exp(at: u32, value: UnannotatedExp_) -> Exp {
    Exp {
        ty: Type {
            loc: loc(at + 1000),
            value: Type_::Apply(None, TypeName::Builtin(BuiltinTypeName::Vector), vec![unit_ty(at + 2000)]),
        },
        loc: loc(at),
        value,
    }
}

/// `fun f(p, q) { let x = p; x = q; while (p) { x } }` with `x` named `x`.
fn sample(p: u64, q: u64, x: u64) -> Function {
    let body = vec![
        SequenceItem {
            loc: loc(10),
            value: SequenceItem_::Bind(
                LValueList {
                    loc: loc(11),
                    value: vec![LValue { loc: loc(12), value: LValue_::Var(var(x, 12), None) }],
                },
                vec![Some(unit_ty(13))],
                Box::new(exp(14, UnannotatedExp_::Copy { from_user: true, var: var(p, 15) })),
            ),
        },
        SequenceItem {
            loc: loc(20),
            value: SequenceItem_::Exp(Box::new(exp(
                21,
                UnannotatedExp_::Assign(
                    LValueList {
                        loc: loc(22),
                        value: vec![LValue { loc: loc(23), value: LValue_::Var(var(x, 23), None) }],
                    },
                    vec![None],
                    Box::new(exp(24, UnannotatedExp_::Move { from_user: false, var: var(q, 25) })),
                ),
            ))),
        },
        SequenceItem {
            loc: loc(30),
            value: SequenceItem_::Exp(Box::new(exp(
                31,
                UnannotatedExp_::While(
                    Box::new(exp(32, UnannotatedExp_::Use(var(p, 33)))),
                    Box::new(exp(34, UnannotatedExp_::BorrowLocal(false, var(x, 35)))),
                ),
            ))),
        },
    ];
    Function {
        signature: FunctionSignature {
            parameters: vec![(var(p, 1), unit_ty(2)), (var(q, 3), unit_ty(4))],
            return_type: unit_ty(5),
        },
        body: FunctionBody { loc: loc(6), value: FunctionBody_::Defined(body) },
    }
}

#[test]
fn renaming_rewrites_declarations_and_uses_in_place() {
    let mut f = sample(1, 2, 3);
    let mut renamer = Renamer { from: Symbol { id: 3 }, to: Symbol { id: 7 } };
    Dispatcher::new(&mut renamer).function(&mut f);
    assert_eq!(f, sample(1, 2, 7));
}

#[test]
fn renaming_a_parameter_leaves_what_is_not_walked() {
    // The condition of a bounded loop is not part of the walk, so the use
    // of `p` in it keeps its name.
    let mut f = sample(1, 2, 3);
    let mut renamer = Renamer { from: Symbol { id: 1 }, to: Symbol { id: 8 } };
    Dispatcher::new(&mut renamer).function(&mut f);
    let mut expected = sample(8, 2, 3);
    if let FunctionBody_::Defined(body) = &mut expected.body.value {
        if let SequenceItem_::Exp(e) = &mut body[2].value {
            if let UnannotatedExp_::While(cond, _) = &mut e.value {
                cond.value = UnannotatedExp_::Use(var(1, 33));
            }
        }
    }
    assert_eq!(f, expected);
}

#[test]
fn renaming_an_absent_name_changes_nothing() {
    let mut f = sample(1, 2, 3);
    let mut renamer = Renamer { from: Symbol { id: 99 }, to: Symbol { id: 7 } };
    Dispatcher::new(&mut renamer).function(&mut f);
    assert_eq!(f, sample(1, 2, 3));
}

#[test]
fn visitor_that_does_nothing_changes_nothing() {
    let mut f = sample(1, 2, 3);
    let mut visitor = NoOp {};
    Dispatcher::new(&mut visitor).function(&mut f);
    assert_eq!(f, sample(1, 2, 3));
}

#[test]
fn hooks_of_the_idle_visitor_ask_to_descend() {
    let mut visitor = NoOp {};
    let mut e = exp(1, UnannotatedExp_::Break);
    assert_eq!(visitor.exp(&mut e), VisitorContinuation::Descend);
    let mut t = unit_ty(1);
    assert_eq!(visitor.type_(&mut t), VisitorContinuation::Descend);
}

#[test]
fn second_walk_repeats_the_first() {
    let mut f = sample(1, 2, 3);
    let mut first = Recorder::new();
    Dispatcher::new(&mut first).function(&mut f);
    assert_eq!(f, sample(1, 2, 3));
    let mut second = Recorder::new();
    Dispatcher::new(&mut second).function(&mut f);
    assert_eq!(f, sample(1, 2, 3));
    assert_eq!(first.calls, second.calls);
    assert_eq!(first.calls.len(), 34);
}

#[test]
fn one_recorder_over_two_walks_records_the_walk_twice() {
    let mut f = sample(1, 2, 3);
    let mut recorder = Recorder::new();
    {
        let mut dispatcher = Dispatcher::new(&mut recorder);
        dispatcher.function(&mut f);
        dispatcher.function(&mut f);
    }
    let n = recorder.calls.len();
    assert_eq!(n % 2, 0);
    assert_eq!(recorder.calls[..n / 2], recorder.calls[n / 2..]);
}
