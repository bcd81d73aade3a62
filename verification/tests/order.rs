use move_passes::ast::{
    AbilitySet, BinOp, BuiltinFunction, BuiltinTypeName, Exp, ExpListItem, FieldInit, LValue,
    LValueList, LValue_, Loc, ModuleCall, ModuleIdent, SequenceItem, SequenceItem_, Symbol, Type,
    TypeName, Type_, UnannotatedExp_, UnaryOp, Value, Var,
};
use move_passes::dispatcher::Dispatcher;
use move_passes::visitors::{Call, Pruner, Recorder};

fn loc(n: u32) -> Loc {
    Loc { file: 0, start: n, end: n + 1 }
}

fn sym(id: u64) -> Symbol {
    Symbol { id }
}

fn var(name: u64, at: u32) -> Var {
    Var { loc: loc(at), name: sym(name) }
}

fn module() -> ModuleIdent {
    ModuleIdent { loc: loc(0), address: 1, module: sym(900) }
}

fn unit_ty(at: u32) -> Type {
    Type { loc: loc(at), value: Type_::Unit }
}

fn vector_of(at: u32, args: Vec<Type>) -> Type {
    Type { loc: loc(at), value: Type_::Apply(None, TypeName::Builtin(BuiltinTypeName::Vector), args) }
}

fn reference(at: u32, to: Type) -> Type {
    Type { loc: loc(at), value: Type_::Ref(false, Box::new(to)) }
}

/// An expression at `at` whose inferred type is the unit type at
/// `at + 1000`.
fn exp(at: u32, value: UnannotatedExp_) -> Exp {
    Exp { ty: unit_ty(at + 1000), loc: loc(at), value }
}

fn leaf(at: u32) -> Exp {
    exp(at, UnannotatedExp_::Unit { trailing: false })
}

fn boxed_leaf(at: u32) -> Box<Exp> {
    Box::new(leaf(at))
}

/// The calls for a leaf made by `leaf(at)`.
fn leaf_calls(at: u32) -> Vec<Call> {
    vec![Call::Type(loc(at + 1000)), Call::Exp(loc(at))]
}

fn walk(e: &mut Exp) -> Vec<Call> {
    let mut recorder = Recorder::new();
    Dispatcher::new(&mut recorder).exp(e);
    recorder.calls
}

fn walk_type(t: &mut Type) -> Vec<Call> {
    let mut recorder = Recorder::new();
    Dispatcher::new(&mut recorder).type_(t);
    recorder.calls
}

fn joined(parts: Vec<Vec<Call>>) -> Vec<Call> {
    parts.into_iter().flatten().collect()
}

#[test]
fn type_hook_comes_before_expression_hook() {
    let mut e = Exp { ty: vector_of(1, vec![unit_ty(2)]), loc: loc(3), value: UnannotatedExp_::Break };
    assert_eq!(
        walk(&mut e),
        vec![
            Call::Type(loc(1)),
            Call::Type(loc(2)),
            Call::InferAbilities(loc(1)),
            Call::Exp(loc(3)),
        ]
    );
}

#[test]
fn leaf_type_is_one_call_and_no_inference() {
    for value in [
        Type_::Unit,
        Type_::Anything,
        Type_::UnresolvedError,
        Type_::Var(move_passes::ast::TVar { id: 4 }),
        Type_::Param(move_passes::ast::TParam {
            id: 5,
            name: sym(6),
            abilities: AbilitySet { bits: 0 },
        }),
    ] {
        let mut t = Type { loc: loc(1), value };
        assert_eq!(walk_type(&mut t), vec![Call::Type(loc(1))]);
    }
}

#[test]
fn applied_type_infers_once_after_all_arguments() {
    let mut t = vector_of(1, vec![vector_of(2, vec![unit_ty(3)]), reference(4, unit_ty(5))]);
    assert_eq!(
        walk_type(&mut t),
        vec![
            Call::Type(loc(1)),
            Call::Type(loc(2)),
            Call::Type(loc(3)),
            Call::InferAbilities(loc(2)),
            Call::Type(loc(4)),
            Call::Type(loc(5)),
            Call::InferAbilities(loc(1)),
        ]
    );
}

#[test]
fn applied_type_without_arguments_still_infers() {
    let mut t = vector_of(1, vec![]);
    assert_eq!(walk_type(&mut t), vec![Call::Type(loc(1)), Call::InferAbilities(loc(1))]);
}

#[test]
fn stop_at_a_type_skips_its_arguments_and_its_inference() {
    let mut t = vector_of(1, vec![vector_of(2, vec![unit_ty(3)]), unit_ty(4)]);
    let mut recorder = Pruner::new(None, Some(loc(2)));
    Dispatcher::new(&mut recorder).type_(&mut t);
    assert_eq!(
        recorder.calls,
        vec![
            Call::Type(loc(1)),
            Call::Type(loc(2)),
            Call::Type(loc(4)),
            Call::InferAbilities(loc(1)),
        ]
    );
}

#[test]
fn stop_at_an_expression_skips_what_is_below_and_nothing_else() {
    // if (c) { x } else { e }, stopped at the true branch
    let branch = exp(20, UnannotatedExp_::Use(var(1, 21)));
    let mut e = exp(
        1,
        UnannotatedExp_::IfElse(boxed_leaf(10), Box::new(branch), boxed_leaf(30)),
    );
    let mut recorder = Pruner::new(Some(loc(20)), None);
    Dispatcher::new(&mut recorder).exp(&mut e);
    assert_eq!(
        recorder.calls,
        joined(vec![
            leaf_calls(1),
            leaf_calls(10),
            vec![Call::Type(loc(1020)), Call::Exp(loc(20))],
            leaf_calls(30),
        ])
    );
}

#[test]
fn stop_at_the_root_leaves_type_and_node_only() {
    let mut e = exp(1, UnannotatedExp_::Return(boxed_leaf(2)));
    let mut recorder = Pruner::new(Some(loc(1)), None);
    Dispatcher::new(&mut recorder).exp(&mut e);
    assert_eq!(recorder.calls, leaf_calls(1));
}

#[test]
fn module_call_type_arguments_then_parameter_types_then_arguments() {
    let mut e = exp(
        1,
        UnannotatedExp_::ModuleCall(Box::new(ModuleCall {
            module: module(),
            name: sym(7),
            type_arguments: vec![unit_ty(2), unit_ty(3)],
            arguments: leaf(6),
            parameter_types: vec![unit_ty(4), unit_ty(5)],
        })),
    );
    assert_eq!(
        walk(&mut e),
        joined(vec![
            leaf_calls(1),
            vec![Call::Type(loc(2)), Call::Type(loc(3)), Call::Type(loc(4)), Call::Type(loc(5))],
            leaf_calls(6),
        ])
    );
}

#[test]
fn variable_references_are_one_use_each() {
    let v = var(1, 2);
    for value in [
        UnannotatedExp_::Use(v),
        UnannotatedExp_::Copy { from_user: true, var: v },
        UnannotatedExp_::Move { from_user: false, var: v },
        UnannotatedExp_::BorrowLocal(true, v),
    ] {
        let mut e = exp(1, value);
        assert_eq!(walk(&mut e), joined(vec![leaf_calls(1), vec![Call::VarUse(v)]]));
    }
}

#[test]
fn call_through_variable_uses_it_before_the_arguments() {
    let mut e = exp(1, UnannotatedExp_::VarCall(var(1, 2), boxed_leaf(3)));
    assert_eq!(
        walk(&mut e),
        joined(vec![leaf_calls(1), vec![Call::VarUse(var(1, 2))], leaf_calls(3)])
    );
}

#[test]
fn lambda_scope_parameters_body() {
    let params = LValueList {
        loc: loc(2),
        value: vec![LValue { loc: loc(3), value: LValue_::Var(var(1, 3), Some(Box::new(unit_ty(4)))) }],
    };
    let mut e = exp(1, UnannotatedExp_::Lambda(params, boxed_leaf(5)));
    assert_eq!(
        walk(&mut e),
        joined(vec![
            leaf_calls(1),
            vec![Call::EnterScope, Call::Type(loc(4)), Call::VarDecl(var(1, 3))],
            leaf_calls(5),
            vec![Call::ExitScope],
        ])
    );
}

#[test]
fn conditional_condition_then_both_branches() {
    let mut e = exp(1, UnannotatedExp_::IfElse(boxed_leaf(2), boxed_leaf(3), boxed_leaf(4)));
    assert_eq!(
        walk(&mut e),
        joined(vec![leaf_calls(1), leaf_calls(2), leaf_calls(3), leaf_calls(4)])
    );
}

#[test]
fn loops_walk_their_body_only() {
    let mut bounded = exp(1, UnannotatedExp_::While(boxed_leaf(2), boxed_leaf(3)));
    assert_eq!(walk(&mut bounded), joined(vec![leaf_calls(1), leaf_calls(3)]));
    let mut unbounded = exp(1, UnannotatedExp_::Loop { has_break: true, body: boxed_leaf(3) });
    assert_eq!(walk(&mut unbounded), joined(vec![leaf_calls(1), leaf_calls(3)]));
}

#[test]
fn block_is_walked_as_a_sequence() {
    let seq = vec![
        SequenceItem {
            loc: loc(2),
            value: SequenceItem_::Declare(LValueList {
                loc: loc(3),
                value: vec![LValue { loc: loc(4), value: LValue_::Var(var(1, 4), None) }],
            }),
        },
        SequenceItem { loc: loc(5), value: SequenceItem_::Exp(boxed_leaf(6)) },
    ];
    let mut e = exp(1, UnannotatedExp_::Block(seq));
    assert_eq!(
        walk(&mut e),
        joined(vec![
            leaf_calls(1),
            vec![Call::EnterScope, Call::VarDecl(var(1, 4))],
            leaf_calls(6),
            vec![Call::ExitScope],
        ])
    );
}

#[test]
fn mutate_destination_then_source() {
    let mut e = exp(1, UnannotatedExp_::Mutate(boxed_leaf(2), boxed_leaf(3)));
    assert_eq!(walk(&mut e), joined(vec![leaf_calls(1), leaf_calls(2), leaf_calls(3)]));
}

#[test]
fn binary_operation_type_then_left_then_right() {
    let mut e = exp(
        1,
        UnannotatedExp_::BinopExp(boxed_leaf(2), BinOp::Add, Box::new(unit_ty(3)), boxed_leaf(4)),
    );
    assert_eq!(
        walk(&mut e),
        joined(vec![leaf_calls(1), vec![Call::Type(loc(3))], leaf_calls(2), leaf_calls(4)])
    );
}

#[test]
fn pack_type_arguments_then_each_field_type_and_initializer() {
    let mut e = exp(
        1,
        UnannotatedExp_::Pack(
            module(),
            sym(8),
            vec![unit_ty(2)],
            vec![
                FieldInit { field: sym(1), ty: unit_ty(3), init: leaf(4) },
                FieldInit { field: sym(2), ty: unit_ty(5), init: leaf(6) },
            ],
        ),
    );
    assert_eq!(
        walk(&mut e),
        joined(vec![
            leaf_calls(1),
            vec![Call::Type(loc(2)), Call::Type(loc(3))],
            leaf_calls(4),
            vec![Call::Type(loc(5))],
            leaf_calls(6),
        ])
    );
}

#[test]
fn expression_list_item_types_before_item_expressions() {
    let mut e = exp(
        1,
        UnannotatedExp_::ExpList(vec![
            ExpListItem::Single(leaf(2), Box::new(unit_ty(3))),
            ExpListItem::Splat(loc(4), leaf(5), vec![unit_ty(6), unit_ty(7)]),
        ]),
    );
    assert_eq!(
        walk(&mut e),
        joined(vec![
            leaf_calls(1),
            vec![Call::Type(loc(3))],
            leaf_calls(2),
            vec![Call::Type(loc(6)), Call::Type(loc(7))],
            leaf_calls(5),
        ])
    );
}

#[test]
fn assignment_uses_its_targets_then_types_then_value() {
    let lhs = LValueList {
        loc: loc(2),
        value: vec![
            LValue { loc: loc(3), value: LValue_::Var(var(1, 3), Some(Box::new(unit_ty(4)))) },
            LValue { loc: loc(5), value: LValue_::Ignore },
        ],
    };
    let mut e = exp(
        1,
        UnannotatedExp_::Assign(lhs, vec![Some(unit_ty(6)), None, Some(unit_ty(7))], boxed_leaf(8)),
    );
    assert_eq!(
        walk(&mut e),
        joined(vec![
            leaf_calls(1),
            vec![
                Call::Type(loc(4)),
                Call::VarUse(var(1, 3)),
                Call::Type(loc(6)),
                Call::Type(loc(7)),
            ],
            leaf_calls(8),
        ])
    );
}

#[test]
fn embedded_type_before_embedded_expression() {
    for value in [
        UnannotatedExp_::Vector(loc(9), 1, Box::new(unit_ty(2)), boxed_leaf(3)),
        UnannotatedExp_::Cast(boxed_leaf(3), Box::new(unit_ty(2))),
        UnannotatedExp_::Annotate(boxed_leaf(3), Box::new(unit_ty(2))),
    ] {
        let mut e = exp(1, value);
        assert_eq!(
            walk(&mut e),
            joined(vec![leaf_calls(1), vec![Call::Type(loc(2))], leaf_calls(3)])
        );
    }
}

#[test]
fn single_expression_forms_walk_their_expression() {
    for value in [
        UnannotatedExp_::Builtin(BuiltinFunction::Assert(false), boxed_leaf(3)),
        UnannotatedExp_::Return(boxed_leaf(3)),
        UnannotatedExp_::Abort(boxed_leaf(3)),
        UnannotatedExp_::Dereference(boxed_leaf(3)),
        UnannotatedExp_::UnaryExp(UnaryOp::Not, boxed_leaf(3)),
        UnannotatedExp_::Borrow(true, boxed_leaf(3), sym(4)),
        UnannotatedExp_::TempBorrow(false, boxed_leaf(3)),
    ] {
        let mut e = exp(1, value);
        assert_eq!(walk(&mut e), joined(vec![leaf_calls(1), leaf_calls(3)]));
    }
}

#[test]
fn terminal_leaves_have_nothing_below() {
    for value in [
        UnannotatedExp_::Unit { trailing: true },
        UnannotatedExp_::Value(Value::U64(7)),
        UnannotatedExp_::Constant(Some(module()), sym(3)),
        UnannotatedExp_::Break,
        UnannotatedExp_::Continue,
        UnannotatedExp_::Spec(12),
        UnannotatedExp_::UnresolvedError,
    ] {
        let mut e = exp(1, value);
        assert_eq!(walk(&mut e), leaf_calls(1));
    }
}

#[test]
fn exp_unannotated_skips_the_node_itself() {
    let mut value = UnannotatedExp_::Mutate(boxed_leaf(2), boxed_leaf(3));
    let mut recorder = Recorder::new();
    Dispatcher::new(&mut recorder).exp_unannotated(loc(1), &mut value);
    assert_eq!(recorder.calls, joined(vec![leaf_calls(2), leaf_calls(3)]));
}

#[test]
fn pruner_that_is_told_nothing_records_what_a_recorder_records() {
    let build = || {
        exp(
            1,
            UnannotatedExp_::IfElse(
                boxed_leaf(10),
                Box::new(exp(20, UnannotatedExp_::Use(var(1, 21)))),
                boxed_leaf(30),
            ),
        )
    };
    let mut pruner = Pruner::new(None, None);
    Dispatcher::new(&mut pruner).exp(&mut build());
    assert_eq!(pruner.calls, walk(&mut build()));
}

#[test]
fn pruner_stops_at_type_and_expression_together() {
    let mut e = Exp {
        ty: vector_of(1, vec![unit_ty(2)]),
        loc: loc(3),
        value: UnannotatedExp_::Return(boxed_leaf(4)),
    };
    let mut pruner = Pruner::new(Some(loc(3)), Some(loc(1)));
    Dispatcher::new(&mut pruner).exp(&mut e);
    assert_eq!(pruner.calls, vec![Call::Type(loc(1)), Call::Exp(loc(3))]);
}
