//! Go to definition: given a position in a file and the items and
//! accesses of a program one by one, which definition the position refers
//! to.

use vstd::prelude::*;
use crate::ast::Loc;

verus! {

/// A range on one line of a file.
#[derive(Clone, Debug, PartialEq, Eq)]
pub struct FileRange {
    pub path: String,
    pub line: u32,
    pub col_start: u32,
    pub col_end: u32,
}

/// A range on one line of a file, with the path as text.
pub struct FileRangeView {
    pub path: Seq<char>,
    pub line: u32,
    pub col_start: u32,
    pub col_end: u32,
}

impl FileRangeView {
    /// Whether the position is in the range: in the same file, on the
    /// same line, at a column from the first to the last of the range.
    pub open spec fn holds(self, path: Seq<char>, line: u32, col: u32) -> bool {
        self.path == path && self.line == line && self.col_start <= col <= self.col_end
    }
}

impl View for FileRange {
    type V = FileRangeView;

    open spec fn view(&self) -> FileRangeView {
        FileRangeView {
            path: self.path@,
            line: self.line,
            col_start: self.col_start,
            col_end: self.col_end,
        }
    }
}

/// A range that may be absent, with the path as text.
pub open spec fn range_view(range: Option<FileRange>) -> Option<FileRangeView> {
    match range {
        Some(r) => Some(r@),
        None => None,
    }
}

impl FileRange {
    /// Whether the position is in the range.
    pub fn in_range(&self, path: &String, line: u32, col: u32) -> (b: bool)
        ensures
            b == self@.holds(path@, line, col),
    {
        self.path == *path && self.line == line && self.col_start <= col && col <= self.col_end
    }

    /// A copy of the range.
    pub fn duplicate(&self) -> (copy: Self)
        ensures
            copy@ == self@,
    {
        FileRange {
            path: self.path.clone(),
            line: self.line,
            col_start: self.col_start,
            col_end: self.col_end,
        }
    }
}

/// What turns a location in the program into a range in a file.
pub trait HandleItemService {
    /// The range of `loc`, if it has one.
    spec fn range_of(&self, loc: Loc) -> Option<FileRangeView>;

    fn convert_loc_range(&self, loc: &Loc) -> (range: Option<FileRange>)
        ensures
            range_view(range) == self.range_of(*loc),
    ;
}

/// A service that knows the ranges it was given and no others.
#[derive(Clone, Debug)]
pub struct RangeTable {
    pub entries: Vec<(Loc, FileRange)>,
}

/// The range of the first of `entries` that is for `loc`.
pub open spec fn first_range(entries: Seq<(Loc, FileRange)>, loc: Loc) -> Option<FileRangeView>
    decreases entries.len(),
{
    if entries.len() == 0 {
        None
    } else if entries[0].0 == loc {
        Some(entries[0].1@)
    } else {
        first_range(entries.skip(1), loc)
    }
}

impl HandleItemService for RangeTable {
    open spec fn range_of(&self, loc: Loc) -> Option<FileRangeView> {
        first_range(self.entries@, loc)
    }

    fn convert_loc_range(&self, loc: &Loc) -> (range: Option<FileRange>) {
        let n: usize = self.entries.len();
        let mut i: usize = 0;
        assert(self.entries@.skip(0) =~= self.entries@);
        while i < n
            invariant
                n == self.entries@.len(),
                i <= n,
                first_range(self.entries@, *loc) == first_range(self.entries@.skip(i as int), *loc),
            decreases n - i,
        {
            let ghost rest = self.entries@.skip(i as int);
            assert(rest[0] == self.entries@[i as int]);
            assert(rest.skip(1) =~= self.entries@.skip(i + 1));
            if self.entries[i].0 == *loc {
                return Some(self.entries[i].1.duplicate());
            }
            i += 1;
        }
        None
    }
}

/// What of an item the search looks at: where its parts stand, and where
/// what they refer to is defined.
#[derive(Clone, Copy, Debug, PartialEq, Eq, Structural)]
pub enum Item {
    /// The use of a module: the module's name, the alias and the `Self`
    /// of the use where it has them, and where the module is defined.
    UseModule { module: Loc, alias: Option<Loc>, self_loc: Option<Loc>, def_loc: Loc },
    /// The use of a member of a module: the module's name, the member's
    /// name, the alias where there is one, where the module is defined and
    /// where the member is defined.
    UseMember { module: Loc, name: Loc, alias: Option<Loc>, module_def: Loc, def_loc: Loc },
    /// Any other item: where it is defined.
    Other { def_loc: Loc },
}

/// A reference: where it stands, and where what it refers to is defined.
#[derive(Clone, Copy, Debug, PartialEq, Eq, Structural)]
pub struct Reference {
    pub at: Loc,
    pub def: Loc,
}

/// What of an access the search looks at: the reference to a module in
/// it, where there is one, and the reference that the access is.
#[derive(Clone, Copy, Debug, PartialEq, Eq, Structural)]
pub struct Access {
    pub module: Option<Reference>,
    pub def: Reference,
}

#[derive(Clone, Copy, Debug, PartialEq, Eq, Structural)]
pub enum ItemOrAccess {
    Item(Item),
    Access(Access),
}

/// The search for the definition that one position refers to.
#[derive(Clone, Debug)]
pub struct Visitor {
    /// The file we are looking for.
    pub filepath: String,
    pub line: u32,
    pub col: u32,
    pub result: Option<FileRange>,
    /// The location of the result, not converted to a range in a file.
    pub result_loc: Option<Loc>,
    pub result_item_or_access: Option<ItemOrAccess>,
}

/// Whether the position is in the range of `loc`.
pub open spec fn hit<S: HandleItemService>(
    services: &S,
    path: Seq<char>,
    line: u32,
    col: u32,
    loc: Loc,
) -> bool {
    match services.range_of(loc) {
        Some(r) => r.holds(path, line, col),
        None => false,
    }
}

/// Whether there is such a location and the position is in its range.
pub open spec fn hit_some<S: HandleItemService>(
    services: &S,
    path: Seq<char>,
    line: u32,
    col: u32,
    loc: Option<Loc>,
) -> bool {
    match loc {
        Some(loc) => hit(services, path, line, col, loc),
        None => false,
    }
}

/// Where the definition is that the position refers to by this item or
/// access, if it refers to one that has a range.
///
/// On the name, the alias or the `Self` of a used module it is the module.
/// On the module of a used member it is the module, and where that has no
/// range, or on the member or its alias, it is the member. On any other
/// item it is the item itself. On the module named in an access it is
/// that module, and where that has no range, or on the access, it is what
/// the access refers to.
pub open spec fn definition<S: HandleItemService>(
    services: &S,
    path: Seq<char>,
    line: u32,
    col: u32,
    item_or_access: ItemOrAccess,
) -> Option<Loc> {
    match item_or_access {
        ItemOrAccess::Item(Item::UseModule { module, alias, self_loc, def_loc }) => {
            if (hit(services, path, line, col, module) || hit_some(
                services,
                path,
                line,
                col,
                alias,
            ) || hit_some(services, path, line, col, self_loc)) && services.range_of(def_loc)
                is Some {
                Some(def_loc)
            } else {
                None
            }
        },
        ItemOrAccess::Item(Item::UseMember { module, name, alias, module_def, def_loc }) => {
            if hit(services, path, line, col, module) && services.range_of(module_def) is Some {
                Some(module_def)
            } else if (hit(services, path, line, col, name) || hit_some(
                services,
                path,
                line,
                col,
                alias,
            )) && services.range_of(def_loc) is Some {
                Some(def_loc)
            } else {
                None
            }
        },
        ItemOrAccess::Item(Item::Other { def_loc }) => {
            if hit(services, path, line, col, def_loc) {
                Some(def_loc)
            } else {
                None
            }
        },
        ItemOrAccess::Access(access) => {
            match module_definition(services, path, line, col, access.module) {
                Some(def) => Some(def),
                None => if hit(services, path, line, col, access.def.at) && services.range_of(
                    access.def.def,
                ) is Some {
                    Some(access.def.def)
                } else {
                    None
                },
            }
        },
    }
}

/// Where the module named in an access is defined, if one is named, the
/// position is on its name and the definition has a range.
pub open spec fn module_definition<S: HandleItemService>(
    services: &S,
    path: Seq<char>,
    line: u32,
    col: u32,
    module: Option<Reference>,
) -> Option<Loc> {
    match module {
        Some(r) => if hit(services, path, line, col, r.at) && services.range_of(r.def)
            is Some {
            Some(r.def)
        } else {
            None
        },
        None => None,
    }
}

impl Visitor {
    /// A search for what stands at `line` and `col` of the file
    /// `filepath`, with nothing found yet.
    pub fn new(filepath: String, line: u32, col: u32) -> (visitor: Self)
        ensures
            visitor.filepath == filepath,
            visitor.line == line,
            visitor.col == col,
            visitor.result is None,
            visitor.result_loc is None,
            visitor.result_item_or_access is None,
    {
        Self {
            filepath,
            line,
            col,
            result: None,
            result_loc: None,
            result_item_or_access: None,
        }
    }

    /// Whether the position searched for is in the range of `loc`.
    fn match_loc<S: HandleItemService>(&self, loc: &Loc, services: &S) -> (b: bool)
        ensures
            b == hit(services, self.filepath@, self.line, self.col, *loc),
    {
        let r = services.convert_loc_range(loc);
        match &r {
            Some(r) => r.in_range(&self.filepath, self.line, self.col),
            None => false,
        }
    }

    fn match_some<S: HandleItemService>(&self, loc: &Option<Loc>, services: &S) -> (b: bool)
        ensures
            b == hit_some(services, self.filepath@, self.line, self.col, *loc),
    {
        match loc {
            Some(loc) => self.match_loc(loc, services),
            None => false,
        }
    }

    /// Takes `def` for the result if it has a range, and says whether it
    /// did.
    fn found<S: HandleItemService>(
        &mut self,
        services: &S,
        def: Loc,
        item_or_access: &ItemOrAccess,
    ) -> (taken: bool)
        ensures
            taken == (services.range_of(def) is Some),
            final(self).filepath == old(self).filepath,
            final(self).line == old(self).line,
            final(self).col == old(self).col,
            taken ==> range_view(final(self).result) == services.range_of(def),
            taken ==> final(self).result_loc == Some(def),
            taken ==> final(self).result_item_or_access == Some(*item_or_access),
            !taken ==> *final(self) == *old(self),
    {
        if let Some(t) = services.convert_loc_range(&def) {
            self.result = Some(t);
            self.result_loc = Some(def);
            self.result_item_or_access = Some(*item_or_access);
            true
        } else {
            false
        }
    }

    /// Looks at one item or access. Where the position searched for refers
    /// by it to a definition that has a range, that definition becomes the
    /// result, in place of an earlier one. Otherwise nothing changes.
    pub fn handle_item_or_access<S: HandleItemService>(
        &mut self,
        services: &S,
        item_or_access: &ItemOrAccess,
    )
        ensures
            final(self).filepath == old(self).filepath,
            final(self).line == old(self).line,
            final(self).col == old(self).col,
            match definition(
                services,
                old(self).filepath@,
                old(self).line,
                old(self).col,
                *item_or_access,
            ) {
                Some(def) => {
                    &&& range_view(final(self).result) == services.range_of(def)
                    &&& final(self).result is Some
                    &&& final(self).result_loc == Some(def)
                    &&& final(self).result_item_or_access == Some(*item_or_access)
                },
                None => *final(self) == *old(self),
            },
    {
        match item_or_access {
            ItemOrAccess::Item(item) => match item {
                Item::UseModule { module, alias, self_loc, def_loc } => {
                    if self.match_loc(module, services) || self.match_some(alias, services)
                        || self.match_some(self_loc, services) {
                        self.found(services, *def_loc, item_or_access);
                    }
                },
                Item::UseMember { module, name, alias, module_def, def_loc } => {
                    if self.match_loc(module, services) {
                        if self.found(services, *module_def, item_or_access) {
                            return ;
                        }
                    }
                    if self.match_loc(name, services) || self.match_some(alias, services) {
                        self.found(services, *def_loc, item_or_access);
                    }
                },
                // If Some special add here.
                // Right now default is enough.
                Item::Other { def_loc } => {
                    if self.match_loc(def_loc, services) {
                        self.found(services, *def_loc, item_or_access);
                    }
                },
            },
            ItemOrAccess::Access(access) => {
                if let Some(module) = access.module {
                    if self.match_loc(&module.at, services) {
                        if self.found(services, module.def, item_or_access) {
                            return ;
                        }
                    }
                }
                let locs = access.def;
                if self.match_loc(&locs.at, services) {
                    self.found(services, locs.def, item_or_access);
                }
            },
        }
    }

    /// Whether the bodies of functions and specifications are searched:
    /// they are.
    pub fn visit_fun_or_spec_body(&self) -> (b: bool)
        ensures
            b,
    {
        true
    }

    /// Whether a definition has been found.
    pub fn finished(&self) -> (b: bool)
        ensures
            b == self.result is Some,
    {
        self.result.is_some()
    }

    /// The position searched for: file, line and column.
    pub fn get_position(&self) -> (position: (String, u32, u32))
        ensures
            position.0 == self.filepath,
            position.1 == self.line,
            position.2 == self.col,
    {
        (self.filepath.clone(), self.line, self.col)
    }
}

} // verus!
