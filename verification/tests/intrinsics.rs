use move_passes::assoc::AssocMap;
use move_passes::ast::{Loc, Symbol, Value};
use move_passes::intrinsics::{
    populate_intrinsic_decl, process_intrinsic_declaration, AssociatedFun, Diagnostic, FunEntry,
    FunId, IntrinsicDecl, IntrinsicError, IntrinsicId, IntrinsicPragmas, IntrinsicsAnnotation,
    ModelBuilder, ModuleBuilder, ModuleId, ModuleName, Operation, PropertyBag, PropertyValue,
    QualifiedId, QualifiedSymbol, SpecBlockContext, SpecFunEntry, SpecFunId, StructEntry,
    StructId,
};

const INTRINSIC: Symbol = Symbol { id: 1 };
const MAP: Symbol = Symbol { id: 2 };
const MAP_NEW: Symbol = Symbol { id: 10 };
const MAP_LEN: Symbol = Symbol { id: 11 };
const MAP_SPEC_LEN: Symbol = Symbol { id: 12 };
const MAP_SPEC_GET: Symbol = Symbol { id: 13 };

fn sym(id: u64) -> Symbol {
    Symbol { id }
}

fn here() -> Loc {
    Loc { file: 3, start: 40, end: 60 }
}

fn this_module() -> ModuleName {
    ModuleName { address: 1, name: sym(100) }
}

fn other_module() -> ModuleName {
    ModuleName { address: 1, name: sym(101) }
}

fn local(name: u64) -> QualifiedSymbol {
    QualifiedSymbol { module_name: this_module(), symbol: sym(name) }
}

fn module_id() -> ModuleId {
    ModuleId { index: 4 }
}

fn fun_id(name: u64) -> QualifiedId<FunId> {
    QualifiedId { module_id: module_id(), id: FunId { symbol: sym(name) } }
}

fn spec_fun_id(index: usize) -> QualifiedId<SpecFunId> {
    QualifiedId { module_id: module_id(), id: SpecFunId { index } }
}

fn struct_id(name: u64) -> QualifiedId<StructId> {
    QualifiedId { module_id: module_id(), id: StructId { symbol: sym(name) } }
}

fn pragmas() -> IntrinsicPragmas {
    IntrinsicPragmas {
        intrinsic: INTRINSIC,
        type_map: MAP,
        map_functions: vec![
            AssociatedFun { name: MAP_LEN, is_move_fun: true },
            AssociatedFun { name: MAP_NEW, is_move_fun: true },
            AssociatedFun { name: MAP_SPEC_GET, is_move_fun: false },
            AssociatedFun { name: MAP_SPEC_LEN, is_move_fun: false },
        ],
    }
}

/// A module with the struct 50, the move functions 60 and 61, the spec
/// function 70 declared once, 71 declared twice and 72 declared once as
/// something that is no function.
fn builder() -> ModuleBuilder {
    let mut parent = ModelBuilder::new();
    parent.struct_table.insert(
        local(50),
        StructEntry { module_id: module_id(), struct_id: StructId { symbol: sym(50) } },
    );
    for name in [60, 61] {
        parent.fun_table.insert(
            local(name),
            FunEntry { module_id: module_id(), fun_id: FunId { symbol: sym(name) } },
        );
    }
    let function = |index| SpecFunEntry {
        oper: Operation::Function(module_id(), SpecFunId { index }),
    };
    parent.spec_fun_table.insert(local(70), vec![function(0)]);
    parent.spec_fun_table.insert(local(71), vec![function(1), function(2)]);
    parent.spec_fun_table.insert(local(72), vec![SpecFunEntry { oper: Operation::Other }]);
    ModuleBuilder { parent, module_name: this_module() }
}

fn props(entries: &[(Symbol, PropertyValue)]) -> PropertyBag {
    let mut bag = AssocMap::new();
    for (k, v) in entries {
        bag.insert(*k, *v);
    }
    bag
}

fn populate(entries: &[(Symbol, PropertyValue)]) -> (ModuleBuilder, PropertyBag, IntrinsicDecl) {
    let mut builder = builder();
    let mut bag = props(entries);
    let mut decl = IntrinsicDecl::new(struct_id(50), MAP);
    populate_intrinsic_decl(&mut builder, &here(), &pragmas().map_functions, &mut bag, &mut decl);
    (builder, bag, decl)
}

fn error(error: IntrinsicError) -> Diagnostic {
    Diagnostic { loc: here(), error }
}

#[test]
fn mappings_are_entered_in_both_directions_and_taken_out() {
    let (builder, bag, decl) = populate(&[
        (MAP_NEW, PropertyValue::Symbol(sym(60))),
        (MAP_LEN, PropertyValue::QualifiedSymbol(local(61))),
        (MAP_SPEC_LEN, PropertyValue::Symbol(sym(70))),
        (sym(999), PropertyValue::Symbol(sym(60))),
    ]);
    assert_eq!(builder.parent.errors, vec![]);
    assert_eq!(decl.intrinsic_to_move_fun.get(&MAP_NEW), Some(&fun_id(60)));
    assert_eq!(decl.intrinsic_to_move_fun.get(&MAP_LEN), Some(&fun_id(61)));
    assert_eq!(decl.move_fun_to_intrinsic.get(&fun_id(60)), Some(&MAP_NEW));
    assert_eq!(decl.move_fun_to_intrinsic.get(&fun_id(61)), Some(&MAP_LEN));
    assert_eq!(decl.intrinsic_to_spec_fun.get(&MAP_SPEC_LEN), Some(&spec_fun_id(0)));
    assert_eq!(decl.spec_fun_to_intrinsic.get(&spec_fun_id(0)), Some(&MAP_SPEC_LEN));
    assert_eq!(decl.intrinsic_to_move_fun.len(), 2);
    assert_eq!(decl.intrinsic_to_spec_fun.len(), 1);
    assert_eq!(bag.len(), 1);
    assert_eq!(bag.get(&sym(999)), Some(&PropertyValue::Symbol(sym(60))));
}

#[test]
fn no_mapping_is_no_error() {
    let (builder, bag, decl) = populate(&[]);
    assert_eq!(builder.parent.errors, vec![]);
    assert_eq!(bag.len(), 0);
    assert_eq!(decl.intrinsic_to_move_fun.len(), 0);
    assert_eq!(decl.spec_fun_to_intrinsic.len(), 0);
}

#[test]
fn value_is_an_invalid_mapping() {
    let (builder, bag, decl) = populate(&[(MAP_NEW, PropertyValue::Value(Value::Bool(true)))]);
    assert_eq!(builder.parent.errors, vec![error(IntrinsicError::InvalidMapping(MAP_NEW))]);
    assert_eq!(bag.len(), 0);
    assert_eq!(decl.intrinsic_to_move_fun.len(), 0);
}

#[test]
fn function_of_another_module_is_refused() {
    let foreign = QualifiedSymbol { module_name: other_module(), symbol: sym(60) };
    let (builder, _, decl) = populate(&[(MAP_NEW, PropertyValue::QualifiedSymbol(foreign))]);
    assert_eq!(builder.parent.errors, vec![error(IntrinsicError::ForeignModule(foreign))]);
    assert_eq!(decl.intrinsic_to_move_fun.len(), 0);
}

#[test]
fn unknown_move_function_is_an_error() {
    let (builder, _, decl) = populate(&[(MAP_NEW, PropertyValue::Symbol(sym(70)))]);
    assert_eq!(builder.parent.errors, vec![error(IntrinsicError::MoveFunNotFound(local(70)))]);
    assert_eq!(decl.intrinsic_to_move_fun.len(), 0);
}

#[test]
fn unknown_spec_function_is_an_error() {
    let (builder, _, decl) = populate(&[(MAP_SPEC_LEN, PropertyValue::Symbol(sym(60)))]);
    assert_eq!(builder.parent.errors, vec![error(IntrinsicError::SpecFunNotFound(local(60)))]);
    assert_eq!(decl.intrinsic_to_spec_fun.len(), 0);
}

#[test]
fn spec_function_declared_twice_is_not_unique() {
    let (builder, _, decl) = populate(&[(MAP_SPEC_LEN, PropertyValue::Symbol(sym(71)))]);
    assert_eq!(builder.parent.errors, vec![error(IntrinsicError::SpecFunNotUnique(local(71)))]);
    assert_eq!(decl.intrinsic_to_spec_fun.len(), 0);
}

#[test]
fn spec_name_that_is_no_function_is_passed_over() {
    let (builder, bag, decl) = populate(&[(MAP_SPEC_LEN, PropertyValue::Symbol(sym(72)))]);
    assert_eq!(builder.parent.errors, vec![]);
    assert_eq!(bag.len(), 0);
    assert_eq!(decl.intrinsic_to_spec_fun.len(), 0);
}

#[test]
fn move_function_mapped_twice_is_entered_and_reported() {
    let (builder, _, decl) = populate(&[
        (MAP_NEW, PropertyValue::Symbol(sym(60))),
        (MAP_LEN, PropertyValue::Symbol(sym(60))),
    ]);
    // The associated functions are gone through in their own order: the
    // length first, then the constructor, which finds the function taken.
    assert_eq!(builder.parent.errors, vec![error(IntrinsicError::DuplicatedMoveFun(local(60)))]);
    assert_eq!(decl.intrinsic_to_move_fun.get(&MAP_LEN), Some(&fun_id(60)));
    assert_eq!(decl.intrinsic_to_move_fun.get(&MAP_NEW), Some(&fun_id(60)));
    assert_eq!(decl.move_fun_to_intrinsic.get(&fun_id(60)), Some(&MAP_NEW));
    assert_eq!(decl.move_fun_to_intrinsic.len(), 1);
}

#[test]
fn spec_function_mapped_twice_is_entered_and_reported() {
    let (builder, _, decl) = populate(&[
        (MAP_SPEC_LEN, PropertyValue::Symbol(sym(70))),
        (MAP_SPEC_GET, PropertyValue::Symbol(sym(70))),
    ]);
    assert_eq!(builder.parent.errors, vec![error(IntrinsicError::DuplicatedSpecFun(local(70)))]);
    assert_eq!(decl.spec_fun_to_intrinsic.get(&spec_fun_id(0)), Some(&MAP_SPEC_LEN));
    assert_eq!(decl.intrinsic_to_spec_fun.len(), 2);
}

#[test]
fn errors_come_in_the_order_of_the_associated_functions() {
    let (builder, _, _) = populate(&[
        (MAP_SPEC_LEN, PropertyValue::Symbol(sym(71))),
        (MAP_NEW, PropertyValue::Value(Value::U8(0))),
        (MAP_LEN, PropertyValue::Symbol(sym(1234))),
    ]);
    assert_eq!(
        builder.parent.errors,
        vec![
            error(IntrinsicError::MoveFunNotFound(local(1234))),
            error(IntrinsicError::InvalidMapping(MAP_NEW)),
            error(IntrinsicError::SpecFunNotUnique(local(71))),
        ]
    );
}

fn process(
    context: SpecBlockContext,
    entries: &[(Symbol, PropertyValue)],
) -> (ModuleBuilder, PropertyBag) {
    let mut builder = builder();
    let mut bag = props(entries);
    process_intrinsic_declaration(&mut builder, &here(), &context, &mut bag, &pragmas());
    (builder, bag)
}

#[test]
fn map_declaration_is_added_to_the_model() {
    let (builder, bag) = process(
        SpecBlockContext::Struct(local(50)),
        &[
            (INTRINSIC, PropertyValue::Symbol(MAP)),
            (MAP_NEW, PropertyValue::Symbol(sym(60))),
            (MAP_SPEC_GET, PropertyValue::Symbol(sym(70))),
        ],
    );
    assert_eq!(builder.parent.errors, vec![]);
    assert_eq!(builder.parent.intrinsics.len(), 1);
    let decl = &builder.parent.intrinsics[0];
    assert_eq!(decl.move_type, struct_id(50));
    assert_eq!(decl.intrinsic_type, MAP);
    assert_eq!(decl.intrinsic_to_move_fun.get(&MAP_NEW), Some(&fun_id(60)));
    assert_eq!(decl.spec_fun_to_intrinsic.get(&spec_fun_id(0)), Some(&MAP_SPEC_GET));
    assert_eq!(bag.len(), 1);
    assert_eq!(bag.get(&INTRINSIC), Some(&PropertyValue::Symbol(MAP)));
}

#[test]
fn map_declaration_with_errors_is_added_all_the_same() {
    let (builder, _) = process(
        SpecBlockContext::Struct(local(50)),
        &[(INTRINSIC, PropertyValue::Symbol(MAP)), (MAP_NEW, PropertyValue::Symbol(sym(5)))],
    );
    assert_eq!(builder.parent.errors, vec![error(IntrinsicError::MoveFunNotFound(local(5)))]);
    assert_eq!(builder.parent.intrinsics.len(), 1);
    assert_eq!(builder.parent.intrinsics[0].intrinsic_to_move_fun.len(), 0);
}

#[test]
fn only_the_block_of_a_struct_declares() {
    for context in [
        SpecBlockContext::Module,
        SpecBlockContext::Function(local(60)),
        SpecBlockContext::Schema(local(80)),
    ] {
        let (builder, bag) = process(
            context,
            &[(INTRINSIC, PropertyValue::Symbol(MAP)), (MAP_NEW, PropertyValue::Symbol(sym(60)))],
        );
        assert_eq!(builder.parent.errors, vec![]);
        assert_eq!(builder.parent.intrinsics.len(), 0);
        assert_eq!(bag.len(), 2);
    }
}

#[test]
fn struct_without_the_property_declares_nothing() {
    let (builder, bag) = process(
        SpecBlockContext::Struct(local(50)),
        &[(MAP_NEW, PropertyValue::Symbol(sym(60)))],
    );
    assert_eq!(builder.parent.errors, vec![]);
    assert_eq!(builder.parent.intrinsics.len(), 0);
    assert_eq!(bag.len(), 1);
}

#[test]
fn boolean_property_declares_nothing() {
    let (builder, _) = process(
        SpecBlockContext::Struct(local(50)),
        &[(INTRINSIC, PropertyValue::Value(Value::Bool(true)))],
    );
    assert_eq!(builder.parent.errors, vec![]);
    assert_eq!(builder.parent.intrinsics.len(), 0);
}

#[test]
fn qualified_property_is_an_error() {
    let (builder, _) = process(
        SpecBlockContext::Struct(local(50)),
        &[(INTRINSIC, PropertyValue::QualifiedSymbol(local(2)))],
    );
    assert_eq!(builder.parent.errors, vec![error(IntrinsicError::ExpectBoolOrType)]);
    assert_eq!(builder.parent.intrinsics.len(), 0);
}

#[test]
fn unknown_intrinsic_type_is_an_error() {
    let (builder, bag) = process(
        SpecBlockContext::Struct(local(50)),
        &[(INTRINSIC, PropertyValue::Symbol(sym(77))), (MAP_NEW, PropertyValue::Symbol(sym(60)))],
    );
    assert_eq!(builder.parent.errors, vec![error(IntrinsicError::UnknownIntrinsicType(sym(77)))]);
    assert_eq!(builder.parent.intrinsics.len(), 0);
    assert_eq!(bag.len(), 2);
}

fn decl_with(move_type: u64, move_funs: &[u64], spec_funs: &[usize]) -> IntrinsicDecl {
    let mut decl = IntrinsicDecl::new(struct_id(move_type), MAP);
    for (i, f) in move_funs.iter().enumerate() {
        decl.intrinsic_to_move_fun.insert(sym(10 + i as u64), fun_id(*f));
        decl.move_fun_to_intrinsic.insert(fun_id(*f), sym(10 + i as u64));
    }
    for (i, f) in spec_funs.iter().enumerate() {
        decl.intrinsic_to_spec_fun.insert(sym(20 + i as u64), spec_fun_id(*f));
        decl.spec_fun_to_intrinsic.insert(spec_fun_id(*f), sym(20 + i as u64));
    }
    decl
}

#[test]
fn added_declarations_are_numbered_from_zero() {
    let mut annotation = IntrinsicsAnnotation::new();
    annotation.add_decl(&decl_with(50, &[60, 61], &[0]));
    annotation.add_decl(&decl_with(51, &[62], &[1, 2]));
    assert_eq!(annotation.decls.len(), 2);
    assert_eq!(annotation.decls[0].move_type, struct_id(50));
    assert_eq!(annotation.decls[1].move_type, struct_id(51));
    assert_eq!(annotation.decls[1].move_fun_to_intrinsic.get(&fun_id(62)), Some(&sym(10)));
    let first = IntrinsicId { index: 0 };
    let second = IntrinsicId { index: 1 };
    assert_eq!(annotation.intrinsic_structs.get(&struct_id(50)), Some(&first));
    assert_eq!(annotation.intrinsic_structs.get(&struct_id(51)), Some(&second));
    assert_eq!(annotation.intrinsic_move_funs.get(&fun_id(60)), Some(&first));
    assert_eq!(annotation.intrinsic_move_funs.get(&fun_id(61)), Some(&first));
    assert_eq!(annotation.intrinsic_move_funs.get(&fun_id(62)), Some(&second));
    assert_eq!(annotation.intrinsic_move_funs.get(&fun_id(63)), None);
    assert_eq!(annotation.intrinsic_spec_funs.get(&spec_fun_id(0)), Some(&first));
    assert_eq!(annotation.intrinsic_spec_funs.get(&spec_fun_id(1)), Some(&second));
    assert_eq!(annotation.intrinsic_spec_funs.get(&spec_fun_id(2)), Some(&second));
    assert_eq!(annotation.intrinsic_spec_funs.len(), 3);
}

#[test]
fn later_declaration_takes_over_what_it_names_again() {
    let mut annotation = IntrinsicsAnnotation::new();
    annotation.add_decl(&decl_with(50, &[60, 61], &[0]));
    annotation.add_decl(&decl_with(50, &[61], &[]));
    assert_eq!(annotation.decls.len(), 2);
    assert_eq!(annotation.intrinsic_structs.len(), 1);
    assert_eq!(annotation.intrinsic_structs.get(&struct_id(50)), Some(&IntrinsicId { index: 1 }));
    assert_eq!(annotation.intrinsic_move_funs.get(&fun_id(60)), Some(&IntrinsicId { index: 0 }));
    assert_eq!(annotation.intrinsic_move_funs.get(&fun_id(61)), Some(&IntrinsicId { index: 1 }));
    assert_eq!(annotation.intrinsic_spec_funs.get(&spec_fun_id(0)), Some(&IntrinsicId { index: 0 }));
}

#[test]
fn default_annotation_is_empty() {
    let annotation = IntrinsicsAnnotation::default();
    assert_eq!(annotation.decls.len(), 0);
    assert_eq!(annotation.intrinsic_move_funs.len(), 0);
    assert_eq!(annotation.intrinsic_spec_funs.len(), 0);
}

#[test]
fn empty_annotation_names_nothing() {
    let annotation = IntrinsicsAnnotation::new();
    assert_eq!(annotation.decls.len(), 0);
    assert_eq!(annotation.intrinsic_structs.len(), 0);
    assert_eq!(annotation.intrinsic_structs.get(&struct_id(50)), None);
}

#[test]
fn map_holds_one_value_under_a_key() {
    let mut map: AssocMap<Symbol, u32> = AssocMap::new();
    assert_eq!(map.insert(sym(1), 10), None);
    assert_eq!(map.insert(sym(2), 20), None);
    assert_eq!(map.insert(sym(1), 11), Some(10));
    assert_eq!(map.len(), 2);
    assert_eq!(map.get(&sym(1)), Some(&11));
    let mut keys = map.keys();
    keys.sort_by_key(|k| k.id);
    assert_eq!(keys, vec![sym(1), sym(2)]);
    assert_eq!(map.remove(&sym(1)), Some(11));
    assert_eq!(map.remove(&sym(1)), None);
    assert_eq!(map.get(&sym(1)), None);
    assert_eq!(map.len(), 1);
    let copy = map.duplicate();
    assert_eq!(copy.get(&sym(2)), Some(&20));
    assert_eq!(copy.len(), 1);
}
