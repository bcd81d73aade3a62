use move_passes::ast::Loc;
use move_passes::goto_definition::{
    Access, FileRange, HandleItemService, Item, ItemOrAccess, RangeTable, Reference, Visitor,
};

fn loc(n: u32) -> Loc {
    Loc { file: 7, start: n, end: n + 3 }
}

fn range(path: &str, line: u32, col_start: u32, col_end: u32) -> FileRange {
    FileRange { path: path.to_string(), line, col_start, col_end }
}

/// Locations 1 to 5 stand on line 10 of `a.move`, at columns 0-3, 10-13,
/// 20-23, 30-33 and 40-43. Locations 101 to 105 are definitions in
/// `b.move`, on lines 1 to 5. Location 200 has no range.
fn services() -> RangeTable {
    let mut entries = vec![];
    for i in 1..=5u32 {
        entries.push((loc(i), range("a.move", 10, (i - 1) * 10, (i - 1) * 10 + 3)));
        entries.push((loc(100 + i), range("b.move", i, 4, 9)));
    }
    RangeTable { entries }
}

fn at(col: u32) -> Visitor {
    Visitor::new("a.move".to_string(), 10, col)
}

fn handled(col: u32, item_or_access: ItemOrAccess) -> Visitor {
    let mut visitor = at(col);
    visitor.handle_item_or_access(&services(), &item_or_access);
    visitor
}

fn use_module() -> ItemOrAccess {
    ItemOrAccess::Item(Item::UseModule {
        module: loc(1),
        alias: Some(loc(2)),
        self_loc: Some(loc(3)),
        def_loc: loc(101),
    })
}

fn use_member(module_def: Loc) -> ItemOrAccess {
    ItemOrAccess::Item(Item::UseMember {
        module: loc(1),
        name: loc(2),
        alias: Some(loc(3)),
        module_def,
        def_loc: loc(102),
    })
}

fn assert_found(visitor: &Visitor, def: u32, by: ItemOrAccess) {
    assert_eq!(visitor.result, Some(range("b.move", def - 100, 4, 9)));
    assert_eq!(visitor.result_loc, Some(loc(def)));
    assert_eq!(visitor.result_item_or_access, Some(by));
    assert!(visitor.finished());
}

fn assert_nothing_found(visitor: &Visitor) {
    assert_eq!(visitor.result, None);
    assert_eq!(visitor.result_loc, None);
    assert_eq!(visitor.result_item_or_access, None);
    assert!(!visitor.finished());
}

#[test]
fn position_is_in_a_range_from_its_first_to_its_last_column() {
    let r = range("a.move", 10, 20, 23);
    let path = "a.move".to_string();
    assert!(r.in_range(&path, 10, 20));
    assert!(r.in_range(&path, 10, 22));
    assert!(r.in_range(&path, 10, 23));
    assert!(!r.in_range(&path, 10, 19));
    assert!(!r.in_range(&path, 10, 24));
    assert!(!r.in_range(&path, 9, 21));
    assert!(!r.in_range(&path, 11, 21));
    assert!(!r.in_range(&"b.move".to_string(), 10, 21));
}

#[test]
fn table_gives_the_first_range_for_a_location() {
    let mut table = services();
    table.entries.push((loc(1), range("c.move", 1, 1, 1)));
    assert_eq!(table.convert_loc_range(&loc(1)), Some(range("a.move", 10, 0, 3)));
    assert_eq!(table.convert_loc_range(&loc(103)), Some(range("b.move", 3, 4, 9)));
    assert_eq!(table.convert_loc_range(&loc(200)), None);
    assert_eq!(RangeTable { entries: vec![] }.convert_loc_range(&loc(1)), None);
}

#[test]
fn used_module_is_found_by_name_alias_and_self() {
    for col in [1, 12, 23] {
        assert_found(&handled(col, use_module()), 101, use_module());
    }
    assert_nothing_found(&handled(5, use_module()));
    assert_nothing_found(&handled(31, use_module()));
}

#[test]
fn used_module_without_alias_is_found_by_name_only() {
    let item = ItemOrAccess::Item(Item::UseModule {
        module: loc(1),
        alias: None,
        self_loc: None,
        def_loc: loc(101),
    });
    assert_found(&handled(0, item), 101, item);
    assert_nothing_found(&handled(12, item));
}

#[test]
fn definition_without_a_range_is_not_a_result() {
    let item = ItemOrAccess::Item(Item::UseModule {
        module: loc(1),
        alias: None,
        self_loc: None,
        def_loc: loc(200),
    });
    assert_nothing_found(&handled(1, item));
}

#[test]
fn used_member_leads_to_its_module_from_the_module_name() {
    assert_found(&handled(2, use_member(loc(104))), 104, use_member(loc(104)));
}

#[test]
fn used_member_is_found_by_name_and_alias() {
    for col in [10, 21] {
        assert_found(&handled(col, use_member(loc(104))), 102, use_member(loc(104)));
    }
    assert_nothing_found(&handled(35, use_member(loc(104))));
}

#[test]
fn used_member_whose_module_has_no_range_is_not_found_from_the_module_name() {
    assert_nothing_found(&handled(2, use_member(loc(200))));
}

#[test]
fn used_member_whose_module_has_no_range_falls_back_to_the_member() {
    // The module name and the member name stand at the same place.
    let item = ItemOrAccess::Item(Item::UseMember {
        module: loc(1),
        name: loc(1),
        alias: None,
        module_def: loc(200),
        def_loc: loc(102),
    });
    assert_found(&handled(2, item), 102, item);
}

#[test]
fn other_item_is_found_at_its_own_definition() {
    let item = ItemOrAccess::Item(Item::Other { def_loc: loc(4) });
    let visitor = handled(31, item);
    assert_eq!(visitor.result, Some(range("a.move", 10, 30, 33)));
    assert_eq!(visitor.result_loc, Some(loc(4)));
    assert_eq!(visitor.result_item_or_access, Some(item));
    assert_nothing_found(&handled(29, item));
}

#[test]
fn access_leads_to_the_module_it_names_and_to_what_it_refers_to() {
    let access = ItemOrAccess::Access(Access {
        module: Some(Reference { at: loc(1), def: loc(105) }),
        def: Reference { at: loc(2), def: loc(103) },
    });
    assert_found(&handled(3, access), 105, access);
    assert_found(&handled(13, access), 103, access);
    assert_nothing_found(&handled(20, access));
}

#[test]
fn access_without_a_module_leads_to_what_it_refers_to() {
    let access = ItemOrAccess::Access(Access {
        module: None,
        def: Reference { at: loc(2), def: loc(103) },
    });
    assert_found(&handled(10, access), 103, access);
    assert_nothing_found(&handled(1, access));
}

#[test]
fn access_whose_module_has_no_range_falls_back_to_what_it_refers_to() {
    let access = ItemOrAccess::Access(Access {
        module: Some(Reference { at: loc(2), def: loc(200) }),
        def: Reference { at: loc(2), def: loc(103) },
    });
    assert_found(&handled(11, access), 103, access);
}

#[test]
fn later_find_replaces_earlier_and_a_miss_keeps_it() {
    let services = services();
    let mut visitor = at(12);
    let first = use_module();
    let second = use_member(loc(104));
    visitor.handle_item_or_access(&services, &first);
    assert_found(&visitor, 101, first);
    visitor.handle_item_or_access(&services, &ItemOrAccess::Item(Item::Other { def_loc: loc(5) }));
    assert_found(&visitor, 101, first);
    visitor.handle_item_or_access(&services, &second);
    assert_found(&visitor, 102, second);
}

#[test]
fn position_in_another_file_finds_nothing() {
    let mut visitor = Visitor::new("c.move".to_string(), 10, 1);
    visitor.handle_item_or_access(&services(), &use_module());
    assert_nothing_found(&visitor);
}

#[test]
fn new_search_has_its_position_and_no_result() {
    let visitor = Visitor::new("a.move".to_string(), 3, 4);
    assert_nothing_found(&visitor);
    assert_eq!(visitor.get_position(), ("a.move".to_string(), 3, 4));
    assert!(visitor.visit_fun_or_spec_body());
}
