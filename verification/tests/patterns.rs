use move_passes::ast::{
    Exp, FieldBinding, LValue, LValueList, LValue_, Loc, ModuleIdent, SequenceItem,
    SequenceItem_, Symbol, Type, Type_, UnannotatedExp_, Var,
};
use move_passes::dispatcher::Dispatcher;
use move_passes::visitors::{Call, Recorder};

fn loc(n: u32) -> Loc {
    Loc { file: 0, start: n, end: n + 1 }
}

fn sym(id: u64) -> Symbol {
    Symbol { id }
}

fn var(name: u64, at: u32) -> Var {
    Var { loc: loc(at), name: sym(name) }
}

fn module() -> ModuleIdent {
    ModuleIdent { loc: loc(0), address: 1, module: sym(900) }
}

fn unit_ty(at: u32) -> Type {
    Type { loc: loc(at), value: Type_::Unit }
}

fn target(v: Var) -> LValue {
    LValue { loc: v.loc, value: LValue_::Var(v, None) }
}

/// `S<T> { a: x, b: y }`, taken apart by value or through a reference.
fn two_fields(by_borrow: bool) -> LValue {
    let tys = vec![unit_ty(2)];
    let fields = vec![
        FieldBinding { field: sym(10), ty: unit_ty(3), target: target(var(1, 4)) },
        FieldBinding { field: sym(11), ty: unit_ty(5), target: target(var(2, 6)) },
    ];
    let value = if by_borrow {
        LValue_::BorrowUnpack(true, module(), sym(20), tys, fields)
    } else {
        LValue_::Unpack(module(), sym(20), tys, fields)
    };
    LValue { loc: loc(1), value }
}

fn walk(list: &mut LValueList, declared: bool) -> Vec<Call> {
    let mut recorder = Recorder::new();
    Dispatcher::new(&mut recorder).lvalue_list(list, declared);
    recorder.calls
}

#[test]
fn destructuring_bind_declares_both_fields_in_order_and_uses_none() {
    let mut seq = vec![SequenceItem {
        loc: loc(50),
        value: SequenceItem_::Bind(
            LValueList { loc: loc(51), value: vec![two_fields(false)] },
            vec![Some(unit_ty(7))],
            Box::new(Exp {
                ty: unit_ty(8),
                loc: loc(9),
                value: UnannotatedExp_::Use(var(3, 10)),
            }),
        ),
    }];
    let mut recorder = Recorder::new();
    Dispatcher::new(&mut recorder).sequence(&mut seq);
    assert_eq!(
        recorder.calls,
        vec![
            Call::EnterScope,
            Call::Type(loc(2)),
            Call::Type(loc(3)),
            Call::VarDecl(var(1, 4)),
            Call::Type(loc(5)),
            Call::VarDecl(var(2, 6)),
            Call::Type(loc(7)),
            Call::Type(loc(8)),
            Call::Exp(loc(9)),
            Call::VarUse(var(3, 10)),
            Call::ExitScope,
        ]
    );
    let uses_of_the_fields = recorder
        .calls
        .iter()
        .filter(|c| matches!(c, Call::VarUse(v) if v.name == sym(1) || v.name == sym(2)))
        .count();
    assert_eq!(uses_of_the_fields, 0);
}

#[test]
fn declaring_pattern_declares() {
    for by_borrow in [false, true] {
        let mut list = LValueList { loc: loc(0), value: vec![two_fields(by_borrow)] };
        assert_eq!(
            walk(&mut list, true),
            vec![
                Call::Type(loc(2)),
                Call::Type(loc(3)),
                Call::VarDecl(var(1, 4)),
                Call::Type(loc(5)),
                Call::VarDecl(var(2, 6)),
            ]
        );
    }
}

#[test]
fn assigning_pattern_uses() {
    for by_borrow in [false, true] {
        let mut list = LValueList { loc: loc(0), value: vec![two_fields(by_borrow)] };
        assert_eq!(
            walk(&mut list, false),
            vec![
                Call::Type(loc(2)),
                Call::Type(loc(3)),
                Call::VarUse(var(1, 4)),
                Call::Type(loc(5)),
                Call::VarUse(var(2, 6)),
            ]
        );
    }
}

#[test]
fn nested_destructuring_keeps_the_position() {
    let inner = two_fields(true);
    let outer = LValue {
        loc: loc(30),
        value: LValue_::Unpack(
            module(),
            sym(21),
            vec![],
            vec![
                FieldBinding { field: sym(12), ty: unit_ty(31), target: inner },
                FieldBinding {
                    field: sym(13),
                    ty: unit_ty(32),
                    target: LValue { loc: loc(33), value: LValue_::Ignore },
                },
            ],
        ),
    };
    let mut list = LValueList { loc: loc(0), value: vec![outer] };
    assert_eq!(
        walk(&mut list, false),
        vec![
            Call::Type(loc(31)),
            Call::Type(loc(2)),
            Call::Type(loc(3)),
            Call::VarUse(var(1, 4)),
            Call::Type(loc(5)),
            Call::VarUse(var(2, 6)),
            Call::Type(loc(32)),
        ]
    );
}

#[test]
fn ascribed_type_comes_before_the_variable() {
    let mut list = LValueList {
        loc: loc(0),
        value: vec![
            LValue { loc: loc(1), value: LValue_::Var(var(1, 1), Some(Box::new(unit_ty(2)))) },
            LValue { loc: loc(3), value: LValue_::Var(var(2, 3), None) },
        ],
    };
    assert_eq!(
        walk(&mut list, true),
        vec![Call::Type(loc(2)), Call::VarDecl(var(1, 1)), Call::VarDecl(var(2, 3))]
    );
}

#[test]
fn ignore_and_empty_pattern_call_nothing() {
    let mut list =
        LValueList { loc: loc(0), value: vec![LValue { loc: loc(1), value: LValue_::Ignore }] };
    assert_eq!(walk(&mut list, true), vec![]);
    let mut empty = LValueList { loc: loc(0), value: vec![] };
    assert_eq!(walk(&mut empty, false), vec![]);
}
