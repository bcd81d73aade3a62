//! Intrinsic declarations: which functions of a module stand for the
//! operations of an intrinsic type, and the index over all of them.

use vstd::prelude::*;
use crate::assoc::{AssocMap, Key};
use crate::ast::{Loc, Symbol, Value};

verus! {

/// A module, by its index in the model.
#[derive(Clone, Copy, Debug, PartialEq, Eq, Structural)]
pub struct ModuleId {
    pub index: u16,
}

/// A struct, by its name in its module.
#[derive(Clone, Copy, Debug, PartialEq, Eq, Structural)]
pub struct StructId {
    pub symbol: Symbol,
}

/// A function, by its name in its module.
#[derive(Clone, Copy, Debug, PartialEq, Eq, Structural)]
pub struct FunId {
    pub symbol: Symbol,
}

/// A specification function, by its index in its module.
#[derive(Clone, Copy, Debug, PartialEq, Eq, Structural)]
pub struct SpecFunId {
    pub index: usize,
}

/// An intrinsic declaration, by its index in the annotation.
#[derive(Clone, Copy, Debug, PartialEq, Eq, Structural)]
pub struct IntrinsicId {
    pub index: usize,
}

/// Something of a module, named across modules.
#[derive(Clone, Copy, Debug, PartialEq, Eq)]
pub struct QualifiedId<Id> {
    pub module_id: ModuleId,
    pub id: Id,
}

impl Key for Symbol {
    fn same(&self, other: &Self) -> (b: bool) {
        self.id == other.id
    }
}

impl Key for ModuleId {
    fn same(&self, other: &Self) -> (b: bool) {
        self.index == other.index
    }
}

impl Key for StructId {
    fn same(&self, other: &Self) -> (b: bool) {
        self.symbol.same(&other.symbol)
    }
}

impl Key for FunId {
    fn same(&self, other: &Self) -> (b: bool) {
        self.symbol.same(&other.symbol)
    }
}

impl Key for SpecFunId {
    fn same(&self, other: &Self) -> (b: bool) {
        self.index == other.index
    }
}

impl<Id: Key> Key for QualifiedId<Id> {
    fn same(&self, other: &Self) -> (b: bool) {
        self.module_id.same(&other.module_id) && self.id.same(&other.id)
    }
}

/// A module, by the address it is published under and its name.
#[derive(Clone, Copy, Debug, PartialEq, Eq, Structural)]
pub struct ModuleName {
    pub address: u64,
    pub name: Symbol,
}

/// Something of a module, by the module's name and its own.
#[derive(Clone, Copy, Debug, PartialEq, Eq, Structural)]
pub struct QualifiedSymbol {
    pub module_name: ModuleName,
    pub symbol: Symbol,
}

impl Key for ModuleName {
    fn same(&self, other: &Self) -> (b: bool) {
        self.address == other.address && self.name.same(&other.name)
    }
}

impl Key for QualifiedSymbol {
    fn same(&self, other: &Self) -> (b: bool) {
        self.module_name.same(&other.module_name) && self.symbol.same(&other.symbol)
    }
}

/// What a property of a specification block is set to.
#[derive(Clone, Copy, Debug, PartialEq, Eq, Structural)]
pub enum PropertyValue {
    Value(Value),
    Symbol(Symbol),
    QualifiedSymbol(QualifiedSymbol),
}

/// The properties of a specification block, by name.
pub type PropertyBag = AssocMap<Symbol, PropertyValue>;

/// What a specification block is attached to.
#[derive(Clone, Copy, Debug, PartialEq, Eq, Structural)]
pub enum SpecBlockContext {
    Module,
    Struct(QualifiedSymbol),
    Function(QualifiedSymbol),
    Schema(QualifiedSymbol),
}

/// What the model knows of a declared struct.
#[derive(Clone, Copy, Debug, PartialEq, Eq, Structural)]
pub struct StructEntry {
    pub module_id: ModuleId,
    pub struct_id: StructId,
}

/// What the model knows of a declared function.
#[derive(Clone, Copy, Debug, PartialEq, Eq, Structural)]
pub struct FunEntry {
    pub module_id: ModuleId,
    pub fun_id: FunId,
}

/// What a name in the specification language stands for: a specification
/// function, or an operation of another kind.
#[derive(Clone, Copy, Debug, PartialEq, Eq, Structural)]
pub enum Operation {
    Function(ModuleId, SpecFunId),
    Other,
}

/// One of the declarations that a name of a specification function may
/// have.
#[derive(Clone, Copy, Debug, PartialEq, Eq, Structural)]
pub struct SpecFunEntry {
    pub oper: Operation,
}

/// A function associated with an intrinsic type: its name, and whether a
/// move function stands for it or a specification function.
#[derive(Clone, Copy, Debug, PartialEq, Eq, Structural)]
pub struct AssociatedFun {
    pub name: Symbol,
    pub is_move_fun: bool,
}

/// The names that intrinsic declarations are written with.
#[derive(Clone, Debug)]
pub struct IntrinsicPragmas {
    /// The property that makes a struct intrinsic.
    pub intrinsic: Symbol,
    /// The intrinsic type of maps.
    pub type_map: Symbol,
    /// The functions associated with the intrinsic type of maps, in the
    /// order of their names.
    pub map_functions: Vec<AssociatedFun>,
}

/// What can be wrong with an intrinsic declaration.
#[derive(Clone, Copy, Debug, PartialEq, Eq, Structural)]
pub enum IntrinsicError {
    /// "expect a boolean value or a valid intrinsic type"
    ExpectBoolOrType,
    /// "unknown intrinsic type: {}", with the type named.
    UnknownIntrinsicType(Symbol),
    /// "invalid intrinsic function mapping: {}", with the associated
    /// function.
    InvalidMapping(Symbol),
    /// "an intrinsic function mapping can only refer to functions declared
    /// in the same module while `{}` is not", with what was referred to.
    ForeignModule(QualifiedSymbol),
    /// "unable to find move function for intrinsic mapping: {}"
    MoveFunNotFound(QualifiedSymbol),
    /// "duplicated intrinsic mapping for move function: {}"
    DuplicatedMoveFun(QualifiedSymbol),
    /// "unable to find spec function for intrinsic mapping: {}"
    SpecFunNotFound(QualifiedSymbol),
    /// "unable to find a unique spec function for intrinsic mapping: {}"
    SpecFunNotUnique(QualifiedSymbol),
    /// "duplicated intrinsic mapping for spec function: {}"
    DuplicatedSpecFun(QualifiedSymbol),
}

/// An error and where it was found.
#[derive(Clone, Copy, Debug, PartialEq, Eq, Structural)]
pub struct Diagnostic {
    pub loc: Loc,
    pub error: IntrinsicError,
}

impl ModuleId {
    /// `id` as something of this module.
    pub fn qualified<Id>(self, id: Id) -> (q: QualifiedId<Id>)
        ensures
            q == (QualifiedId { module_id: self, id }),
    {
        QualifiedId { module_id: self, id }
    }
}

/// The intrinsic declaration of one struct: the intrinsic type it stands
/// for and, in both directions, which of its module's functions stand for
/// which associated function of that type.
#[derive(Clone, Debug)]
pub struct IntrinsicDecl {
    pub move_type: QualifiedId<StructId>,
    pub intrinsic_type: Symbol,
    pub intrinsic_to_move_fun: AssocMap<Symbol, QualifiedId<FunId>>,
    pub move_fun_to_intrinsic: AssocMap<QualifiedId<FunId>, Symbol>,
    pub intrinsic_to_spec_fun: AssocMap<Symbol, QualifiedId<SpecFunId>>,
    pub spec_fun_to_intrinsic: AssocMap<QualifiedId<SpecFunId>, Symbol>,
}

/// What an intrinsic declaration says.
pub struct IntrinsicDeclView {
    pub move_type: QualifiedId<StructId>,
    pub intrinsic_type: Symbol,
    pub intrinsic_to_move_fun: Map<Symbol, QualifiedId<FunId>>,
    pub move_fun_to_intrinsic: Map<QualifiedId<FunId>, Symbol>,
    pub intrinsic_to_spec_fun: Map<Symbol, QualifiedId<SpecFunId>>,
    pub spec_fun_to_intrinsic: Map<QualifiedId<SpecFunId>, Symbol>,
}

impl View for IntrinsicDecl {
    type V = IntrinsicDeclView;

    open spec fn view(&self) -> IntrinsicDeclView {
        IntrinsicDeclView {
            move_type: self.move_type,
            intrinsic_type: self.intrinsic_type,
            intrinsic_to_move_fun: self.intrinsic_to_move_fun@,
            move_fun_to_intrinsic: self.move_fun_to_intrinsic@,
            intrinsic_to_spec_fun: self.intrinsic_to_spec_fun@,
            spec_fun_to_intrinsic: self.spec_fun_to_intrinsic@,
        }
    }
}

impl IntrinsicDecl {
    /// The invariant: each of the four maps is well formed.
    pub open spec fn wf(&self) -> bool {
        &&& self.intrinsic_to_move_fun.wf()
        &&& self.move_fun_to_intrinsic.wf()
        &&& self.intrinsic_to_spec_fun.wf()
        &&& self.spec_fun_to_intrinsic.wf()
    }

    /// A declaration for `move_type` as the intrinsic type `intrinsic_type`
    /// that names no function yet.
    pub fn new(move_type: QualifiedId<StructId>, intrinsic_type: Symbol) -> (decl: Self)
        ensures
            decl.wf(),
            decl@ == empty_decl(move_type, intrinsic_type),
    {
        IntrinsicDecl {
            move_type,
            intrinsic_type,
            intrinsic_to_move_fun: AssocMap::new(),
            move_fun_to_intrinsic: AssocMap::new(),
            intrinsic_to_spec_fun: AssocMap::new(),
            spec_fun_to_intrinsic: AssocMap::new(),
        }
    }

    /// A copy that says the same.
    pub fn duplicate(&self) -> (copy: Self)
        requires
            self.wf(),
        ensures
            copy.wf(),
            copy@ == self@,
    {
        IntrinsicDecl {
            move_type: self.move_type,
            intrinsic_type: self.intrinsic_type,
            intrinsic_to_move_fun: self.intrinsic_to_move_fun.duplicate(),
            move_fun_to_intrinsic: self.move_fun_to_intrinsic.duplicate(),
            intrinsic_to_spec_fun: self.intrinsic_to_spec_fun.duplicate(),
            spec_fun_to_intrinsic: self.spec_fun_to_intrinsic.duplicate(),
        }
    }
}

/// The declaration for `move_type` as `intrinsic_type` that names no
/// function.
pub open spec fn empty_decl(
    move_type: QualifiedId<StructId>,
    intrinsic_type: Symbol,
) -> IntrinsicDeclView {
    IntrinsicDeclView {
        move_type,
        intrinsic_type,
        intrinsic_to_move_fun: Map::empty(),
        move_fun_to_intrinsic: Map::empty(),
        intrinsic_to_spec_fun: Map::empty(),
        spec_fun_to_intrinsic: Map::empty(),
    }
}

/// Hosts all intrinsic declarations, each under the index at which it was
/// added, and says for each struct and function which declaration names it.
#[derive(Clone, Debug)]
pub struct IntrinsicsAnnotation {
    /// Intrinsic declarations, by their index.
    pub decls: Vec<IntrinsicDecl>,
    /// A map from intrinsic types to intrinsic decl
    pub intrinsic_structs: AssocMap<QualifiedId<StructId>, IntrinsicId>,
    /// A map from intrinsic move functions to intrinsic decl
    pub intrinsic_move_funs: AssocMap<QualifiedId<FunId>, IntrinsicId>,
    /// A map from intrinsic spec functions to intrinsic decl
    pub intrinsic_spec_funs: AssocMap<QualifiedId<SpecFunId>, IntrinsicId>,
}

/// What an annotation says.
pub struct IntrinsicsAnnotationView {
    pub decls: Seq<IntrinsicDeclView>,
    pub intrinsic_structs: Map<QualifiedId<StructId>, IntrinsicId>,
    pub intrinsic_move_funs: Map<QualifiedId<FunId>, IntrinsicId>,
    pub intrinsic_spec_funs: Map<QualifiedId<SpecFunId>, IntrinsicId>,
}

/// What a list of declarations says, one by one.
pub open spec fn decls_view(decls: Seq<IntrinsicDecl>) -> Seq<IntrinsicDeclView> {
    Seq::new(decls.len(), |i: int| decls[i]@)
}

/// `m` with every key of `keys` put under `id`.
pub open spec fn stamped<K>(m: Map<K, IntrinsicId>, keys: Set<K>, id: IntrinsicId) -> Map<
    K,
    IntrinsicId,
> {
    Map::new(
        |k: K| m.contains_key(k) || keys.contains(k),
        |k: K|
            if keys.contains(k) {
                id
            } else {
                m[k]
            },
    )
}

impl View for IntrinsicsAnnotation {
    type V = IntrinsicsAnnotationView;

    open spec fn view(&self) -> IntrinsicsAnnotationView {
        IntrinsicsAnnotationView {
            decls: decls_view(self.decls@),
            intrinsic_structs: self.intrinsic_structs@,
            intrinsic_move_funs: self.intrinsic_move_funs@,
            intrinsic_spec_funs: self.intrinsic_spec_funs@,
        }
    }
}

impl Default for IntrinsicsAnnotation {
    /// An annotation with no declaration.
    fn default() -> (annotation: Self)
        ensures
            annotation.wf(),
            annotation@.decls == Seq::<IntrinsicDeclView>::empty(),
            annotation@.intrinsic_structs == Map::<QualifiedId<StructId>, IntrinsicId>::empty(),
            annotation@.intrinsic_move_funs == Map::<QualifiedId<FunId>, IntrinsicId>::empty(),
            annotation@.intrinsic_spec_funs == Map::<QualifiedId<SpecFunId>, IntrinsicId>::empty(),
    {
        IntrinsicsAnnotation::new()
    }
}

impl IntrinsicsAnnotation {
    /// The invariant: the maps and the declarations are well formed.
    pub open spec fn wf(&self) -> bool {
        &&& self.intrinsic_structs.wf()
        &&& self.intrinsic_move_funs.wf()
        &&& self.intrinsic_spec_funs.wf()
        &&& forall|i: int| 0 <= i < self.decls@.len() ==> (#[trigger] self.decls@[i]).wf()
    }

    /// An annotation with no declaration.
    pub fn new() -> (annotation: Self)
        ensures
            annotation.wf(),
            annotation@.decls == Seq::<IntrinsicDeclView>::empty(),
            annotation@.intrinsic_structs == Map::<QualifiedId<StructId>, IntrinsicId>::empty(),
            annotation@.intrinsic_move_funs == Map::<QualifiedId<FunId>, IntrinsicId>::empty(),
            annotation@.intrinsic_spec_funs == Map::<QualifiedId<SpecFunId>, IntrinsicId>::empty(),
    {
        let annotation = IntrinsicsAnnotation {
            decls: Vec::new(),
            intrinsic_structs: AssocMap::new(),
            intrinsic_move_funs: AssocMap::new(),
            intrinsic_spec_funs: AssocMap::new(),
        };
        assert(annotation@.decls =~= Seq::<IntrinsicDeclView>::empty());
        annotation
    }

    /// Add a declaration pack into the annotation set.
    ///
    /// The declaration gets the next index. Its struct and every function
    /// it names, move and spec, are put under that index, in place of
    /// whatever index they stood under before.
    pub fn add_decl(&mut self, decl: &IntrinsicDecl)
        requires
            old(self).wf(),
            decl.wf(),
        ensures
            final(self).wf(),
            final(self)@.decls == old(self)@.decls.push(decl@),
            final(self)@.intrinsic_structs == old(self)@.intrinsic_structs.insert(
                decl.move_type,
                IntrinsicId { index: old(self).decls@.len() as usize },
            ),
            final(self)@.intrinsic_move_funs == stamped(
                old(self)@.intrinsic_move_funs,
                decl@.move_fun_to_intrinsic.dom(),
                IntrinsicId { index: old(self).decls@.len() as usize },
            ),
            final(self)@.intrinsic_spec_funs == stamped(
                old(self)@.intrinsic_spec_funs,
                decl@.spec_fun_to_intrinsic.dom(),
                IntrinsicId { index: old(self).decls@.len() as usize },
            ),
    {
        let id = IntrinsicId { index: self.decls.len() };
        self.intrinsic_structs.insert(decl.move_type, id);
        let move_fids = decl.move_fun_to_intrinsic.keys();
        stamp(&mut self.intrinsic_move_funs, &move_fids, id);
        let spec_fids = decl.spec_fun_to_intrinsic.keys();
        stamp(&mut self.intrinsic_spec_funs, &spec_fids, id);
        let ghost before = self.decls@;
        self.decls.push(decl.duplicate());
        proof {
            assert(move_fids@.to_set() =~= decl@.move_fun_to_intrinsic.dom());
            assert(spec_fids@.to_set() =~= decl@.spec_fun_to_intrinsic.dom());
            assert(decls_view(self.decls@) =~= decls_view(before).push(decl@));
        }
    }
}

/// Puts every key of `keys` under `id`.
fn stamp<K: Key>(map: &mut AssocMap<K, IntrinsicId>, keys: &Vec<K>, id: IntrinsicId)
    requires
        old(map).wf(),
    ensures
        final(map).wf(),
        final(map)@ == stamped(old(map)@, keys@.to_set(), id),
{
    let mut i: usize = 0;
    while i < keys.len()
        invariant
            i <= keys@.len(),
            map.wf(),
            map@ =~= stamped(old(map)@, keys@.take(i as int).to_set(), id),
        decreases keys@.len() - i,
    {
        map.insert(keys[i], id);
        proof {
            lemma_take_next(keys@, i as int);
        }
        i += 1;
    }
    assert(keys@.take(keys@.len() as int) =~= keys@);
}

/// The model under construction: what has been declared so far, the
/// intrinsic declarations made, and the errors found.
#[derive(Clone, Debug)]
pub struct ModelBuilder {
    pub struct_table: AssocMap<QualifiedSymbol, StructEntry>,
    pub fun_table: AssocMap<QualifiedSymbol, FunEntry>,
    pub spec_fun_table: AssocMap<QualifiedSymbol, Vec<SpecFunEntry>>,
    pub intrinsics: Vec<IntrinsicDecl>,
    pub errors: Vec<Diagnostic>,
}

/// The builder of one module of the model.
#[derive(Clone, Debug)]
pub struct ModuleBuilder {
    pub parent: ModelBuilder,
    pub module_name: ModuleName,
}

/// What the registration of mappings reads and does not change.
pub struct Tables {
    pub module_name: ModuleName,
    pub fun_table: Map<QualifiedSymbol, FunEntry>,
    pub spec_fun_table: Map<QualifiedSymbol, Vec<SpecFunEntry>>,
}

impl ModelBuilder {
    /// The invariant: tables and declarations are well formed.
    pub open spec fn wf(&self) -> bool {
        &&& self.struct_table.wf()
        &&& self.fun_table.wf()
        &&& self.spec_fun_table.wf()
        &&& forall|i: int| 0 <= i < self.intrinsics@.len() ==> (#[trigger] self.intrinsics@[i]).wf()
    }

    /// A model in which nothing is declared.
    pub fn new() -> (model: Self)
        ensures
            model.wf(),
            model.struct_table@ == Map::<QualifiedSymbol, StructEntry>::empty(),
            model.fun_table@ == Map::<QualifiedSymbol, FunEntry>::empty(),
            model.spec_fun_table@ == Map::<QualifiedSymbol, Vec<SpecFunEntry>>::empty(),
            model.intrinsics@.len() == 0,
            model.errors@.len() == 0,
    {
        ModelBuilder {
            struct_table: AssocMap::new(),
            fun_table: AssocMap::new(),
            spec_fun_table: AssocMap::new(),
            intrinsics: Vec::new(),
            errors: Vec::new(),
        }
    }

    /// Records an error found at `loc`.
    pub fn error(&mut self, loc: &Loc, error: IntrinsicError)
        ensures
            final(self).errors@ == old(self).errors@.push(Diagnostic { loc: *loc, error }),
            final(self).struct_table == old(self).struct_table,
            final(self).fun_table == old(self).fun_table,
            final(self).spec_fun_table == old(self).spec_fun_table,
            final(self).intrinsics == old(self).intrinsics,
    {
        self.errors.push(Diagnostic { loc: *loc, error });
    }
}

impl ModuleBuilder {
    /// The invariant: that of the model.
    pub open spec fn wf(&self) -> bool {
        self.parent.wf()
    }

    /// What the registration of mappings reads.
    pub open spec fn tables(&self) -> Tables {
        Tables {
            module_name: self.module_name,
            fun_table: self.parent.fun_table@,
            spec_fun_table: self.parent.spec_fun_table@,
        }
    }
}

/// What the registration of mappings works on: the properties not yet
/// looked at, the declaration so far, and the errors so far.
pub struct Populated {
    pub props: Map<Symbol, PropertyValue>,
    pub decl: IntrinsicDeclView,
    pub errors: Seq<Diagnostic>,
}

impl Populated {
    /// The same with one more error, found at `loc`.
    pub open spec fn failed(self, loc: Loc, error: IntrinsicError) -> Populated {
        Populated { errors: self.errors.push(Diagnostic { loc, error }), ..self }
    }
}

/// Registers that in `tables.module_name` the function named `target`
/// stands for the associated function `fun`.
///
/// A move function must be declared; a specification function must be
/// declared exactly once, and is registered only where it is a function.
/// What is found is entered in both directions. It is an error, after the
/// entry is made, if the function already stood for an associated
/// function.
pub open spec fn registered(
    tables: Tables,
    loc: Loc,
    st: Populated,
    fun: AssociatedFun,
    target: Symbol,
) -> Populated {
    let q = QualifiedSymbol { module_name: tables.module_name, symbol: target };
    if fun.is_move_fun {
        if !tables.fun_table.contains_key(q) {
            st.failed(loc, IntrinsicError::MoveFunNotFound(q))
        } else {
            let entry = tables.fun_table[q];
            let qid = QualifiedId { module_id: entry.module_id, id: entry.fun_id };
            let entered = Populated {
                decl: IntrinsicDeclView {
                    intrinsic_to_move_fun: st.decl.intrinsic_to_move_fun.insert(fun.name, qid),
                    move_fun_to_intrinsic: st.decl.move_fun_to_intrinsic.insert(qid, fun.name),
                    ..st.decl
                },
                ..st
            };
            if st.decl.move_fun_to_intrinsic.contains_key(qid) {
                entered.failed(loc, IntrinsicError::DuplicatedMoveFun(q))
            } else {
                entered
            }
        }
    } else {
        if !tables.spec_fun_table.contains_key(q) {
            st.failed(loc, IntrinsicError::SpecFunNotFound(q))
        } else if tables.spec_fun_table[q]@.len() != 1 {
            st.failed(loc, IntrinsicError::SpecFunNotUnique(q))
        } else {
            match tables.spec_fun_table[q]@[0].oper {
                Operation::Function(module_id, id) => {
                    let qid = QualifiedId { module_id, id };
                    let entered = Populated {
                        decl: IntrinsicDeclView {
                            intrinsic_to_spec_fun: st.decl.intrinsic_to_spec_fun.insert(
                                fun.name,
                                qid,
                            ),
                            spec_fun_to_intrinsic: st.decl.spec_fun_to_intrinsic.insert(
                                qid,
                                fun.name,
                            ),
                            ..st.decl
                        },
                        ..st
                    };
                    if st.decl.spec_fun_to_intrinsic.contains_key(qid) {
                        entered.failed(loc, IntrinsicError::DuplicatedSpecFun(q))
                    } else {
                        entered
                    }
                },
                Operation::Other => st,
            }
        }
    }
}

/// Takes the mapping for the associated function `fun` out of the
/// properties, if there is one, and registers it.
///
/// A property that is a value is an error, and so is one that names a
/// function of another module. A property that is a name stands for the
/// function of that name in this module.
pub open spec fn populated_one(
    tables: Tables,
    loc: Loc,
    st: Populated,
    fun: AssociatedFun,
) -> Populated {
    if !st.props.contains_key(fun.name) {
        st
    } else {
        let taken = Populated { props: st.props.remove(fun.name), ..st };
        match st.props[fun.name] {
            PropertyValue::Value(_) => taken.failed(loc, IntrinsicError::InvalidMapping(fun.name)),
            PropertyValue::Symbol(target) => registered(tables, loc, taken, fun, target),
            PropertyValue::QualifiedSymbol(q) => {
                if q.module_name != tables.module_name {
                    taken.failed(loc, IntrinsicError::ForeignModule(q))
                } else {
                    registered(tables, loc, taken, fun, q.symbol)
                }
            },
        }
    }
}

/// The same for each of `funs`, first to last.
pub open spec fn populated(
    tables: Tables,
    loc: Loc,
    st: Populated,
    funs: Seq<AssociatedFun>,
) -> Populated
    decreases funs.len(),
{
    if funs.len() == 0 {
        st
    } else {
        populated_one(tables, loc, populated(tables, loc, st, funs.drop_last()), funs.last())
    }
}

/// What `process_intrinsic_declaration` leaves: the properties, the
/// intrinsic declarations of the model and its errors.
pub struct Processed {
    pub props: Map<Symbol, PropertyValue>,
    pub intrinsics: Seq<IntrinsicDeclView>,
    pub errors: Seq<Diagnostic>,
}

/// Whether the specification block declares its struct to be a map: it is
/// the block of a struct and sets the intrinsic property to the name of the
/// intrinsic type of maps.
pub open spec fn declares_map(
    context: SpecBlockContext,
    props: Map<Symbol, PropertyValue>,
    intrinsic: Symbol,
    type_map: Symbol,
) -> bool {
    context is Struct && props.contains_key(intrinsic) && props[intrinsic]
        == PropertyValue::Symbol(type_map)
}

/// The error in the intrinsic property itself, if there is one: it names
/// something of a module, or an intrinsic type that is not known. A block
/// that is not of a struct, no property, and a property that is a value
/// are no error.
pub open spec fn property_error(
    context: SpecBlockContext,
    props: Map<Symbol, PropertyValue>,
    intrinsic: Symbol,
    type_map: Symbol,
) -> Option<IntrinsicError> {
    if context is Struct && props.contains_key(intrinsic) {
        match props[intrinsic] {
            PropertyValue::QualifiedSymbol(_) => Some(IntrinsicError::ExpectBoolOrType),
            PropertyValue::Symbol(sym) => if sym != type_map {
                Some(IntrinsicError::UnknownIntrinsicType(sym))
            } else {
                None
            },
            PropertyValue::Value(_) => None,
        }
    } else {
        None
    }
}

/// Looks at the properties of a specification block for an intrinsic
/// declaration and, where there is one, adds it to the model.
///
/// Where the block declares its struct to be a map, the mappings for the
/// functions associated with maps are taken out of the properties and
/// registered, and the declaration is added to those of the model, errors
/// or not. Otherwise nothing changes but for the error in the property,
/// if there is one.
pub fn process_intrinsic_declaration(
    builder: &mut ModuleBuilder,
    loc: &Loc,
    context: &SpecBlockContext,
    props: &mut PropertyBag,
    pragmas: &IntrinsicPragmas,
)
    requires
        old(builder).wf(),
        old(props).wf(),
        declares_map(*context, old(props)@, pragmas.intrinsic, pragmas.type_map) ==> old(
            builder,
        ).parent.struct_table@.contains_key(context->Struct_0),
    ensures
        final(builder).wf(),
        final(props).wf(),
        final(builder).module_name == old(builder).module_name,
        final(builder).parent.struct_table == old(builder).parent.struct_table,
        final(builder).parent.fun_table == old(builder).parent.fun_table,
        final(builder).parent.spec_fun_table == old(builder).parent.spec_fun_table,
        declares_map(*context, old(props)@, pragmas.intrinsic, pragmas.type_map) ==> ({
            let entry = old(builder).parent.struct_table@[context->Struct_0];
            let st = populated(
                old(builder).tables(),
                *loc,
                Populated {
                    props: old(props)@,
                    decl: empty_decl(
                        QualifiedId { module_id: entry.module_id, id: entry.struct_id },
                        pragmas.type_map,
                    ),
                    errors: old(builder).parent.errors@,
                },
                pragmas.map_functions@,
            );
            &&& final(props)@ == st.props
            &&& final(builder).parent.errors@ == st.errors
            &&& decls_view(final(builder).parent.intrinsics@) == decls_view(
                old(builder).parent.intrinsics@,
            ).push(st.decl)
        }),
        !declares_map(*context, old(props)@, pragmas.intrinsic, pragmas.type_map) ==> ({
            &&& final(props)@ == old(props)@
            &&& final(builder).parent.intrinsics == old(builder).parent.intrinsics
            &&& final(builder).parent.errors@ == match property_error(
                *context,
                old(props)@,
                pragmas.intrinsic,
                pragmas.type_map,
            ) {
                Some(error) => old(builder).parent.errors@.push(Diagnostic { loc: *loc, error }),
                None => old(builder).parent.errors@,
            }
        }),
{
    // intrinsic declarations only appears in struct spec block
    let type_qsym = match context {
        SpecBlockContext::Struct(qsym) => *qsym,
        _ => {
            return ;
        },
    };
    // search for intrinsic declarations
    let target = match props.get(&pragmas.intrinsic) {
        None => {
            // this is not an intrinsic declaration
            return ;
        },
        Some(val) => {
            match val {
                PropertyValue::Symbol(sym) => *sym,
                PropertyValue::QualifiedSymbol(_) => {
                    builder.parent.error(loc, IntrinsicError::ExpectBoolOrType);
                    return ;
                },
                _ => {
                    // this is the true/false pragma
                    return ;
                },
            }
        },
    };
    // obtain the associated functions map
    if !target.same(&pragmas.type_map) {
        builder.parent.error(loc, IntrinsicError::UnknownIntrinsicType(target));
        return ;
    }
    // prepare the decl
    let move_type = match builder.parent.struct_table.get(&type_qsym) {
        Some(type_entry) => type_entry.module_id.qualified(type_entry.struct_id),
        None => {
            return ;
        },
    };
    let mut decl = IntrinsicDecl::new(move_type, target);
    // construct the pack
    populate_intrinsic_decl(builder, loc, &pragmas.map_functions, props, &mut decl);
    // add the decl back
    let ghost before = builder.parent.intrinsics@;
    builder.parent.intrinsics.push(decl);
    proof {
        assert(decls_view(builder.parent.intrinsics@) =~= decls_view(before).push(decl@));
    }
}

/// Takes the mappings for `associated_funs` out of the properties and
/// registers them in the declaration, first to last, recording the errors
/// found on the way.
pub fn populate_intrinsic_decl(
    builder: &mut ModuleBuilder,
    loc: &Loc,
    associated_funs: &Vec<AssociatedFun>,
    props: &mut PropertyBag,
    decl: &mut IntrinsicDecl,
)
    requires
        old(builder).wf(),
        old(props).wf(),
        old(decl).wf(),
    ensures
        final(builder).wf(),
        final(props).wf(),
        final(decl).wf(),
        final(builder).module_name == old(builder).module_name,
        final(builder).parent.struct_table == old(builder).parent.struct_table,
        final(builder).parent.fun_table == old(builder).parent.fun_table,
        final(builder).parent.spec_fun_table == old(builder).parent.spec_fun_table,
        final(builder).parent.intrinsics == old(builder).parent.intrinsics,
        (Populated {
            props: final(props)@,
            decl: final(decl)@,
            errors: final(builder).parent.errors@,
        }) == populated(
            old(builder).tables(),
            *loc,
            Populated { props: old(props)@, decl: old(decl)@, errors: old(builder).parent.errors@ },
            associated_funs@,
        ),
{
    let ghost tables = builder.tables();
    let ghost start = Populated { props: props@, decl: decl@, errors: builder.parent.errors@ };
    let mut i: usize = 0;
    while i < associated_funs.len()
        invariant
            i <= associated_funs@.len(),
            builder.wf(),
            props.wf(),
            decl.wf(),
            builder.tables() == tables,
            builder.module_name == old(builder).module_name,
            builder.parent.struct_table == old(builder).parent.struct_table,
            builder.parent.fun_table == old(builder).parent.fun_table,
            builder.parent.spec_fun_table == old(builder).parent.spec_fun_table,
            builder.parent.intrinsics == old(builder).parent.intrinsics,
            (Populated { props: props@, decl: decl@, errors: builder.parent.errors@ }) == populated(
                tables,
                *loc,
                start,
                associated_funs@.take(i as int),
            ),
        decreases associated_funs@.len() - i,
    {
        proof {
            assert(associated_funs@.take(i + 1).drop_last() =~= associated_funs@.take(i as int));
        }
        populate_one(builder, loc, &associated_funs[i], props, decl);
        i += 1;
    }
    proof {
        assert(associated_funs@.take(associated_funs@.len() as int) =~= associated_funs@);
    }
}

/// Takes the mapping for one associated function out of the properties,
/// if there is one, and registers it.
fn populate_one(
    builder: &mut ModuleBuilder,
    loc: &Loc,
    fun: &AssociatedFun,
    props: &mut PropertyBag,
    decl: &mut IntrinsicDecl,
)
    requires
        old(builder).wf(),
        old(props).wf(),
        old(decl).wf(),
    ensures
        final(builder).wf(),
        final(props).wf(),
        final(decl).wf(),
        final(builder).module_name == old(builder).module_name,
        final(builder).parent.struct_table == old(builder).parent.struct_table,
        final(builder).parent.fun_table == old(builder).parent.fun_table,
        final(builder).parent.spec_fun_table == old(builder).parent.spec_fun_table,
        final(builder).parent.intrinsics == old(builder).parent.intrinsics,
        (Populated {
            props: final(props)@,
            decl: final(decl)@,
            errors: final(builder).parent.errors@,
        }) == populated_one(
            old(builder).tables(),
            *loc,
            Populated { props: old(props)@, decl: old(decl)@, errors: old(builder).parent.errors@ },
            *fun,
        ),
{
    let key_sym = fun.name;
    // look-up the target of the declaration, if present
    let target_sym = match props.remove(&key_sym) {
        None => {
            assert(props@ =~= old(props)@);
            return ;
        },
        Some(PropertyValue::Value(_)) => {
            builder.parent.error(loc, IntrinsicError::InvalidMapping(key_sym));
            return ;
        },
        Some(PropertyValue::Symbol(val_sym)) => val_sym,
        Some(PropertyValue::QualifiedSymbol(qual_sym)) => {
            if !qual_sym.module_name.same(&builder.module_name) {
                builder.parent.error(loc, IntrinsicError::ForeignModule(qual_sym));
                return ;
            }
            qual_sym.symbol
        },
    };
    let qualified_sym = QualifiedSymbol { module_name: builder.module_name, symbol: target_sym };
    // check presence
    if fun.is_move_fun {
        let qid = match builder.parent.fun_table.get(&qualified_sym) {
            None => {
                builder.parent.error(loc, IntrinsicError::MoveFunNotFound(qualified_sym));
                return ;
            },
            Some(entry) => entry.module_id.qualified(entry.fun_id),
        };
        decl.intrinsic_to_move_fun.insert(key_sym, qid);
        if decl.move_fun_to_intrinsic.insert(qid, key_sym).is_some() {
            builder.parent.error(loc, IntrinsicError::DuplicatedMoveFun(qualified_sym));
        }
    } else {
        let oper = match builder.parent.spec_fun_table.get(&qualified_sym) {
            None => {
                builder.parent.error(loc, IntrinsicError::SpecFunNotFound(qualified_sym));
                return ;
            },
            Some(entries) => {
                if entries.len() != 1 {
                    builder.parent.error(loc, IntrinsicError::SpecFunNotUnique(qualified_sym));
                    return ;
                }
                entries[0].oper
            },
        };
        if let Operation::Function(mid, fid) = oper {
            let qid = mid.qualified(fid);
            decl.intrinsic_to_spec_fun.insert(key_sym, qid);
            if decl.spec_fun_to_intrinsic.insert(qid, key_sym).is_some() {
                builder.parent.error(loc, IntrinsicError::DuplicatedSpecFun(qualified_sym));
            }
        }
    }
}

/// The members of the first `i + 1` are those of the first `i` and the
/// one after them.
pub proof fn lemma_take_next<K>(s: Seq<K>, i: int)
    requires
        0 <= i < s.len(),
    ensures
        s.take(i + 1).to_set() == s.take(i).to_set().insert(s[i]),
{
    assert(s.take(i + 1) =~= s.take(i).push(s[i]));
    s.take(i).lemma_push_to_set_commute(s[i]);
}

} // verus!
