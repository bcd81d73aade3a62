use move_passes::ast::{
    Exp, ExpListItem, Function, FunctionBody, FunctionBody_, FunctionSignature, LValue,
    LValueList, LValue_, Loc, ModuleCall, ModuleIdent, SequenceItem, SequenceItem_, Symbol, Type,
    Type_, UnannotatedExp_, Var,
};
use move_passes::dispatcher::Dispatcher;
use move_passes::visitors::{Call, Recorder};

fn loc(n: u32) -> Loc {
    Loc { file: 0, start: n, end: n + 1 }
}

fn var(name: u64, at: u32) -> Var {
    Var { loc: loc(at), name: Symbol { id: name } }
}

fn unit_ty(at: u32) -> Type {
    Type { loc: loc(at), value: Type_::Unit }
}

fn exp(at: u32, value: UnannotatedExp_) -> Exp {
    Exp { ty: unit_ty(at + 1000), loc: loc(at), value }
}

fn use_var(at: u32, v: Var) -> Exp {
    exp(at, UnannotatedExp_::Use(v))
}

fn call(at: u32, name: u64, arguments: Exp) -> Exp {
    exp(
        at,
        UnannotatedExp_::ModuleCall(Box::new(ModuleCall {
            module: ModuleIdent { loc: loc(0), address: 1, module: Symbol { id: 900 } },
            name: Symbol { id: name },
            type_arguments: vec![],
            arguments,
            parameter_types: vec![],
        })),
    )
}

fn pattern(at: u32, targets: Vec<LValue>) -> LValueList {
    LValueList { loc: loc(at), value: targets }
}

fn target(v: Var) -> LValue {
    LValue { loc: v.loc, value: LValue_::Var(v, None) }
}

fn statement(at: u32, value: SequenceItem_) -> SequenceItem {
    SequenceItem { loc: loc(at), value }
}

fn scopes_and_vars(calls: &[Call]) -> Vec<Call> {
    calls
        .iter()
        .copied()
        .filter(|c| !matches!(c, Call::Type(_) | Call::Exp(_) | Call::InferAbilities(_)))
        .collect()
}

fn count(calls: &[Call], what: Call) -> usize {
    calls.iter().filter(|c| **c == what).count()
}

/// `let x; let y = f(x); g(x, y)`
fn declare_bind_use() -> Vec<SequenceItem> {
    vec![
        statement(10, SequenceItem_::Declare(pattern(11, vec![target(var(1, 12))]))),
        statement(
            20,
            SequenceItem_::Bind(
                pattern(21, vec![target(var(2, 22))]),
                vec![None],
                Box::new(call(23, 100, use_var(24, var(1, 25)))),
            ),
        ),
        statement(
            30,
            SequenceItem_::Exp(Box::new(call(
                31,
                101,
                exp(
                    32,
                    UnannotatedExp_::ExpList(vec![
                        ExpListItem::Single(use_var(33, var(1, 34)), Box::new(unit_ty(35))),
                        ExpListItem::Single(use_var(36, var(2, 37)), Box::new(unit_ty(38))),
                    ]),
                ),
            ))),
        ),
    ]
}

#[test]
fn declare_bind_use_opens_two_scopes_and_closes_them_last() {
    let mut seq = declare_bind_use();
    let mut recorder = Recorder::new();
    Dispatcher::new(&mut recorder).sequence(&mut seq);
    assert_eq!(
        scopes_and_vars(&recorder.calls),
        vec![
            Call::EnterScope,
            Call::VarDecl(var(1, 12)),
            Call::EnterScope,
            Call::VarDecl(var(2, 22)),
            Call::VarUse(var(1, 25)),
            Call::VarUse(var(1, 34)),
            Call::VarUse(var(2, 37)),
            Call::ExitScope,
            Call::ExitScope,
        ]
    );
    assert_eq!(count(&recorder.calls, Call::EnterScope), 2);
    assert_eq!(count(&recorder.calls, Call::ExitScope), 2);
    let n = recorder.calls.len();
    assert_eq!(&recorder.calls[n - 2..], &[Call::ExitScope, Call::ExitScope]);
}

#[test]
fn declare_bind_use_every_call_in_order() {
    let mut seq = declare_bind_use();
    let mut recorder = Recorder::new();
    Dispatcher::new(&mut recorder).sequence(&mut seq);
    assert_eq!(
        recorder.calls,
        vec![
            Call::EnterScope,
            Call::VarDecl(var(1, 12)),
            Call::EnterScope,
            Call::VarDecl(var(2, 22)),
            Call::Type(loc(1023)),
            Call::Exp(loc(23)),
            Call::Type(loc(1024)),
            Call::Exp(loc(24)),
            Call::VarUse(var(1, 25)),
            Call::Type(loc(1031)),
            Call::Exp(loc(31)),
            Call::Type(loc(1032)),
            Call::Exp(loc(32)),
            Call::Type(loc(35)),
            Call::Type(loc(1033)),
            Call::Exp(loc(33)),
            Call::VarUse(var(1, 34)),
            Call::Type(loc(38)),
            Call::Type(loc(1036)),
            Call::Exp(loc(36)),
            Call::VarUse(var(2, 37)),
            Call::ExitScope,
            Call::ExitScope,
        ]
    );
}

/// `let x; x; |x| x`, or without the lambda where `with_lambda` is false.
fn shadowing(with_lambda: bool) -> Vec<SequenceItem> {
    let mut seq = vec![
        statement(10, SequenceItem_::Declare(pattern(11, vec![target(var(1, 12))]))),
        statement(20, SequenceItem_::Exp(Box::new(use_var(21, var(1, 22))))),
    ];
    if with_lambda {
        seq.push(statement(
            30,
            SequenceItem_::Exp(Box::new(exp(
                31,
                UnannotatedExp_::Lambda(
                    pattern(32, vec![target(var(1, 33))]),
                    Box::new(use_var(34, var(1, 35))),
                ),
            ))),
        ));
    }
    seq
}

#[test]
fn lambda_parameter_shadows_in_a_scope_of_its_own() {
    let mut seq = shadowing(true);
    let mut recorder = Recorder::new();
    Dispatcher::new(&mut recorder).sequence(&mut seq);
    assert_eq!(
        scopes_and_vars(&recorder.calls),
        vec![
            Call::EnterScope,
            Call::VarDecl(var(1, 12)),
            Call::VarUse(var(1, 22)),
            Call::EnterScope,
            Call::VarDecl(var(1, 33)),
            Call::VarUse(var(1, 35)),
            Call::ExitScope,
            Call::ExitScope,
        ]
    );
}

#[test]
fn lambda_leaves_earlier_uses_as_they_were() {
    let mut with = shadowing(true);
    let mut without = shadowing(false);
    let mut a = Recorder::new();
    let mut b = Recorder::new();
    Dispatcher::new(&mut a).sequence(&mut with);
    Dispatcher::new(&mut b).sequence(&mut without);
    let lambda_scope = a
        .calls
        .iter()
        .enumerate()
        .filter(|(_, c)| **c == Call::EnterScope)
        .map(|(i, _)| i)
        .nth(1)
        .unwrap();
    // Up to the lambda the two walks agree but for the lambda's own type
    // and node, which come just before its scope.
    let before_lambda = &a.calls[..lambda_scope - 2];
    assert_eq!(before_lambda, &b.calls[..b.calls.len() - 1]);
    assert_eq!(
        scopes_and_vars(before_lambda),
        vec![Call::EnterScope, Call::VarDecl(var(1, 12)), Call::VarUse(var(1, 22))]
    );
}

#[test]
fn empty_sequence_calls_nothing() {
    let mut seq: Vec<SequenceItem> = vec![];
    let mut recorder = Recorder::new();
    Dispatcher::new(&mut recorder).sequence(&mut seq);
    assert_eq!(recorder.calls, vec![]);
}

#[test]
fn nested_block_closes_inner_scopes_before_outer() {
    // let a; { let b; b }; a
    let inner = vec![
        statement(20, SequenceItem_::Declare(pattern(21, vec![target(var(2, 22))]))),
        statement(23, SequenceItem_::Exp(Box::new(use_var(24, var(2, 25))))),
    ];
    let mut seq = vec![
        statement(10, SequenceItem_::Declare(pattern(11, vec![target(var(1, 12))]))),
        statement(13, SequenceItem_::Exp(Box::new(exp(14, UnannotatedExp_::Block(inner))))),
        statement(30, SequenceItem_::Exp(Box::new(use_var(31, var(1, 32))))),
    ];
    let mut recorder = Recorder::new();
    Dispatcher::new(&mut recorder).sequence(&mut seq);
    assert_eq!(
        scopes_and_vars(&recorder.calls),
        vec![
            Call::EnterScope,
            Call::VarDecl(var(1, 12)),
            Call::EnterScope,
            Call::VarDecl(var(2, 22)),
            Call::VarUse(var(2, 25)),
            Call::ExitScope,
            Call::VarUse(var(1, 32)),
            Call::ExitScope,
        ]
    );
}

fn depth_never_negative_and_ends_at_zero(calls: &[Call]) -> bool {
    let mut depth: i64 = 0;
    for c in calls {
        match c {
            Call::EnterScope => depth += 1,
            Call::ExitScope => depth -= 1,
            _ => {}
        }
        if depth < 0 {
            return false;
        }
    }
    depth == 0
}

fn function(parameters: Vec<(Var, Type)>, body: FunctionBody_) -> Function {
    Function {
        signature: FunctionSignature { parameters, return_type: unit_ty(1) },
        body: FunctionBody { loc: loc(2), value: body },
    }
}

#[test]
fn function_declares_parameters_after_their_types_in_one_scope() {
    let mut f = function(
        vec![(var(1, 3), unit_ty(4)), (var(2, 5), unit_ty(6))],
        FunctionBody_::Defined(vec![statement(
            10,
            SequenceItem_::Exp(Box::new(use_var(11, var(2, 12)))),
        )]),
    );
    let mut recorder = Recorder::new();
    Dispatcher::new(&mut recorder).function(&mut f);
    assert_eq!(
        recorder.calls,
        vec![
            Call::EnterScope,
            Call::Type(loc(4)),
            Call::VarDecl(var(1, 3)),
            Call::Type(loc(6)),
            Call::VarDecl(var(2, 5)),
            Call::Type(loc(1011)),
            Call::Exp(loc(11)),
            Call::VarUse(var(2, 12)),
            Call::ExitScope,
        ]
    );
}

#[test]
fn native_function_still_closes_its_scope() {
    let mut f = function(vec![(var(1, 3), unit_ty(4))], FunctionBody_::Native);
    let mut recorder = Recorder::new();
    Dispatcher::new(&mut recorder).function(&mut f);
    assert_eq!(
        recorder.calls,
        vec![Call::EnterScope, Call::Type(loc(4)), Call::VarDecl(var(1, 3)), Call::ExitScope]
    );
}

#[test]
fn scopes_nest_in_a_function_with_binds_blocks_and_lambdas() {
    let lambda = exp(
        40,
        UnannotatedExp_::Lambda(
            pattern(41, vec![target(var(3, 42))]),
            Box::new(exp(43, UnannotatedExp_::Block(declare_bind_use()))),
        ),
    );
    let mut body = declare_bind_use();
    body.push(statement(
        50,
        SequenceItem_::Bind(pattern(51, vec![target(var(4, 52))]), vec![None], Box::new(lambda)),
    ));
    let mut f = function(vec![(var(9, 3), unit_ty(4))], FunctionBody_::Defined(body));
    let mut recorder = Recorder::new();
    Dispatcher::new(&mut recorder).function(&mut f);
    assert!(depth_never_negative_and_ends_at_zero(&recorder.calls));
    assert_eq!(count(&recorder.calls, Call::EnterScope), 7);
    assert_eq!(count(&recorder.calls, Call::ExitScope), 7);
}

#[test]
fn bind_is_walked_whatever_the_number_of_targets_and_types() {
    // Two targets, three expected types, one value: the walk does not
    // compare them.
    let mut seq = vec![statement(
        10,
        SequenceItem_::Bind(
            pattern(11, vec![target(var(1, 12)), target(var(2, 13))]),
            vec![Some(unit_ty(14)), None, Some(unit_ty(15))],
            Box::new(use_var(16, var(3, 17))),
        ),
    )];
    let mut recorder = Recorder::new();
    Dispatcher::new(&mut recorder).sequence(&mut seq);
    assert_eq!(
        recorder.calls,
        vec![
            Call::EnterScope,
            Call::VarDecl(var(1, 12)),
            Call::VarDecl(var(2, 13)),
            Call::Type(loc(14)),
            Call::Type(loc(15)),
            Call::Type(loc(1016)),
            Call::Exp(loc(16)),
            Call::VarUse(var(3, 17)),
            Call::ExitScope,
        ]
    );
}

#[test]
fn scopes_of_a_sequence_close_only_at_its_end() {
    // let a; b; let c; d
    let mut seq = vec![
        statement(10, SequenceItem_::Declare(pattern(11, vec![target(var(1, 12))]))),
        statement(20, SequenceItem_::Exp(Box::new(use_var(21, var(2, 22))))),
        statement(30, SequenceItem_::Declare(pattern(31, vec![target(var(3, 32))]))),
        statement(40, SequenceItem_::Exp(Box::new(use_var(41, var(4, 42))))),
    ];
    let mut recorder = Recorder::new();
    Dispatcher::new(&mut recorder).sequence(&mut seq);
    assert_eq!(
        scopes_and_vars(&recorder.calls),
        vec![
            Call::EnterScope,
            Call::VarDecl(var(1, 12)),
            Call::VarUse(var(2, 22)),
            Call::EnterScope,
            Call::VarDecl(var(3, 32)),
            Call::VarUse(var(4, 42)),
            Call::ExitScope,
            Call::ExitScope,
        ]
    );
}
