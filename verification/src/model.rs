//! The mathematical model of the tree: for each node type a view in which
//! lists are sequences, and the heights by which walks over it terminate.

use vstd::prelude::*;
use crate::ast::{
    AbilitySet, BinOp, BuiltinFunction, Exp, ExpListItem, FieldBinding, FieldInit, Function,
    FunctionBody_, LValue, LValueList, LValue_, Loc, ModuleIdent, SequenceItem,
    SequenceItem_, Symbol, TParam, TVar, Type, TypeName, Type_, UnannotatedExp_, UnaryOp, Value,
    Var,
};

verus! {

pub struct TypeView {
    pub loc: Loc,
    pub value: TypeView_,
}

pub enum TypeView_ {
    Unit,
    Ref(bool, Box<TypeView>),
    Param(TParam),
    Apply(Option<AbilitySet>, TypeName, Seq<TypeView>),
    Var(TVar),
    Anything,
    UnresolvedError,
}

pub struct FieldBindingView {
    pub field: Symbol,
    pub ty: TypeView,
    pub target: LValueView,
}

pub struct LValueView {
    pub loc: Loc,
    pub value: LValueView_,
}

pub enum LValueView_ {
    Ignore,
    Var(Var, Option<TypeView>),
    Unpack(ModuleIdent, Symbol, Seq<TypeView>, Seq<FieldBindingView>),
    BorrowUnpack(bool, ModuleIdent, Symbol, Seq<TypeView>, Seq<FieldBindingView>),
}

pub struct LValueListView {
    pub loc: Loc,
    pub value: Seq<LValueView>,
}

pub struct ModuleCallView {
    pub module: ModuleIdent,
    pub name: Symbol,
    pub type_arguments: Seq<TypeView>,
    pub arguments: ExpView,
    pub parameter_types: Seq<TypeView>,
}

pub struct FieldInitView {
    pub field: Symbol,
    pub ty: TypeView,
    pub init: ExpView,
}

pub enum ExpListItemView {
    Single(ExpView, TypeView),
    Splat(Loc, ExpView, Seq<TypeView>),
}

pub struct ExpView {
    pub ty: TypeView,
    pub loc: Loc,
    pub value: UnannotatedExpView,
}

pub enum UnannotatedExpView {
    Unit { trailing: bool },
    Value(Value),
    Move { from_user: bool, var: Var },
    Copy { from_user: bool, var: Var },
    Use(Var),
    Constant(Option<ModuleIdent>, Symbol),
    ModuleCall(Box<ModuleCallView>),
    VarCall(Var, Box<ExpView>),
    Builtin(BuiltinFunction, Box<ExpView>),
    Vector(Loc, usize, TypeView, Box<ExpView>),
    Lambda(LValueListView, Box<ExpView>),
    IfElse(Box<ExpView>, Box<ExpView>, Box<ExpView>),
    While(Box<ExpView>, Box<ExpView>),
    Loop { has_break: bool, body: Box<ExpView> },
    Block(Seq<SequenceItemView>),
    Assign(LValueListView, Seq<Option<TypeView>>, Box<ExpView>),
    Mutate(Box<ExpView>, Box<ExpView>),
    Return(Box<ExpView>),
    Abort(Box<ExpView>),
    Break,
    Continue,
    Dereference(Box<ExpView>),
    UnaryExp(UnaryOp, Box<ExpView>),
    BinopExp(Box<ExpView>, BinOp, TypeView, Box<ExpView>),
    Pack(ModuleIdent, Symbol, Seq<TypeView>, Seq<FieldInitView>),
    ExpList(Seq<ExpListItemView>),
    Borrow(bool, Box<ExpView>, Symbol),
    TempBorrow(bool, Box<ExpView>),
    BorrowLocal(bool, Var),
    Cast(Box<ExpView>, TypeView),
    Annotate(Box<ExpView>, TypeView),
    Spec(u64),
    UnresolvedError,
}

pub struct SequenceItemView {
    pub loc: Loc,
    pub value: SequenceItemView_,
}

pub enum SequenceItemView_ {
    Exp(Box<ExpView>),
    Declare(LValueListView),
    Bind(LValueListView, Seq<Option<TypeView>>, Box<ExpView>),
}

pub enum FunctionBodyView {
    Defined(Seq<SequenceItemView>),
    Native,
}

pub struct FunctionView {
    pub parameters: Seq<(Var, TypeView)>,
    pub return_type: TypeView,
    pub body_loc: Loc,
    pub body: FunctionBodyView,
}

// Views. The view of a node is defined by recursion over the tree and is
// opaque; the views of lists and of the plain records between nodes are
// written over it. `lemma_type_view`, `lemma_lvalue_view` and
// `lemma_unannotated_view` say what the view of a node is where the node
// holds a list.

#[verifier::opaque]
pub open spec fn type_view(t: Type) -> TypeView
    decreases t,
{
    TypeView {
        loc: t.loc,
        value: match t.value {
            Type_::Unit => TypeView_::Unit,
            Type_::Ref(mutable, inner) => TypeView_::Ref(mutable, Box::new(type_view(*inner))),
            Type_::Param(p) => TypeView_::Param(p),
            Type_::Apply(abilities, name, args) => TypeView_::Apply(
                abilities,
                name,
                Seq::new(
                    args@.len(),
                    |i: int|
                        if 0 <= i < args@.len() {
                            type_view(args@[i])
                        } else {
                            arbitrary()
                        },
                ),
            ),
            Type_::Var(v) => TypeView_::Var(v),
            Type_::Anything => TypeView_::Anything,
            Type_::UnresolvedError => TypeView_::UnresolvedError,
        },
    }
}

pub open spec fn types_view(ts: Seq<Type>) -> Seq<TypeView> {
    Seq::new(ts.len(), |i: int| type_view(ts[i]))
}

pub open spec fn opt_type_view(t: Option<Type>) -> Option<TypeView> {
    match t {
        Some(t) => Some(type_view(t)),
        None => None,
    }
}

pub open spec fn opt_types_view(ts: Seq<Option<Type>>) -> Seq<Option<TypeView>> {
    Seq::new(ts.len(), |i: int| opt_type_view(ts[i]))
}

pub open spec fn parameters_view(ps: Seq<(Var, Type)>) -> Seq<(Var, TypeView)> {
    Seq::new(ps.len(), |i: int| (ps[i].0, type_view(ps[i].1)))
}

#[verifier::opaque]
pub open spec fn lvalue_view(lv: LValue) -> LValueView
    decreases lv,
{
    LValueView {
        loc: lv.loc,
        value: match lv.value {
            LValue_::Ignore => LValueView_::Ignore,
            LValue_::Var(var, ty) => LValueView_::Var(
                var,
                match ty {
                    Some(ty) => Some(type_view(*ty)),
                    None => None,
                },
            ),
            LValue_::Unpack(module, name, tys, fields) => LValueView_::Unpack(
                module,
                name,
                types_view(tys@),
                Seq::new(
                    fields@.len(),
                    |i: int|
                        if 0 <= i < fields@.len() {
                            FieldBindingView {
                                field: fields@[i].field,
                                ty: type_view(fields@[i].ty),
                                target: lvalue_view(fields@[i].target),
                            }
                        } else {
                            arbitrary()
                        },
                ),
            ),
            LValue_::BorrowUnpack(mutable, module, name, tys, fields) => LValueView_::BorrowUnpack(
                mutable,
                module,
                name,
                types_view(tys@),
                Seq::new(
                    fields@.len(),
                    |i: int|
                        if 0 <= i < fields@.len() {
                            FieldBindingView {
                                field: fields@[i].field,
                                ty: type_view(fields@[i].ty),
                                target: lvalue_view(fields@[i].target),
                            }
                        } else {
                            arbitrary()
                        },
                ),
            ),
        },
    }
}

pub open spec fn field_binding_view(f: FieldBinding) -> FieldBindingView {
    FieldBindingView { field: f.field, ty: type_view(f.ty), target: lvalue_view(f.target) }
}

pub open spec fn field_bindings_view(fs: Seq<FieldBinding>) -> Seq<FieldBindingView> {
    Seq::new(fs.len(), |i: int| field_binding_view(fs[i]))
}

pub open spec fn lvalues_view(lvs: Seq<LValue>) -> Seq<LValueView> {
    Seq::new(lvs.len(), |i: int| lvalue_view(lvs[i]))
}

pub open spec fn lvalue_list_view(l: LValueList) -> LValueListView {
    LValueListView { loc: l.loc, value: lvalues_view(l.value@) }
}

#[verifier::opaque]
pub open spec fn exp_view(e: Exp) -> ExpView
    decreases e,
{
    ExpView { ty: type_view(e.ty), loc: e.loc, value: unannotated_view(e.value) }
}

#[verifier::opaque]
pub open spec fn unannotated_view(u: UnannotatedExp_) -> UnannotatedExpView
    decreases u,
{
    match u {
        UnannotatedExp_::Unit { trailing } => UnannotatedExpView::Unit { trailing },
        UnannotatedExp_::Value(v) => UnannotatedExpView::Value(v),
        UnannotatedExp_::Move { from_user, var } => UnannotatedExpView::Move { from_user, var },
        UnannotatedExp_::Copy { from_user, var } => UnannotatedExpView::Copy { from_user, var },
        UnannotatedExp_::Use(var) => UnannotatedExpView::Use(var),
        UnannotatedExp_::Constant(module, name) => UnannotatedExpView::Constant(module, name),
        UnannotatedExp_::ModuleCall(mc) => UnannotatedExpView::ModuleCall(
            Box::new(
                ModuleCallView {
                    module: mc.module,
                    name: mc.name,
                    type_arguments: types_view(mc.type_arguments@),
                    arguments: exp_view(mc.arguments),
                    parameter_types: types_view(mc.parameter_types@),
                },
            ),
        ),
        UnannotatedExp_::VarCall(var, e) => UnannotatedExpView::VarCall(
            var,
            Box::new(exp_view(*e)),
        ),
        UnannotatedExp_::Builtin(b, e) => UnannotatedExpView::Builtin(b, Box::new(exp_view(*e))),
        UnannotatedExp_::Vector(loc, n, ty, e) => UnannotatedExpView::Vector(
            loc,
            n,
            type_view(*ty),
            Box::new(exp_view(*e)),
        ),
        UnannotatedExp_::Lambda(params, body) => UnannotatedExpView::Lambda(
            lvalue_list_view(params),
            Box::new(exp_view(*body)),
        ),
        UnannotatedExp_::IfElse(c, t, f) => UnannotatedExpView::IfElse(
            Box::new(exp_view(*c)),
            Box::new(exp_view(*t)),
            Box::new(exp_view(*f)),
        ),
        UnannotatedExp_::While(c, body) => UnannotatedExpView::While(
            Box::new(exp_view(*c)),
            Box::new(exp_view(*body)),
        ),
        UnannotatedExp_::Loop { has_break, body } => UnannotatedExpView::Loop {
            has_break,
            body: Box::new(exp_view(*body)),
        },
        UnannotatedExp_::Block(seq) => UnannotatedExpView::Block(
            Seq::new(
                seq@.len(),
                |i: int|
                    if 0 <= i < seq@.len() {
                        SequenceItemView {
                            loc: seq@[i].loc,
                            value: match seq@[i].value {
                                SequenceItem_::Exp(e) => SequenceItemView_::Exp(
                                    Box::new(exp_view(*e)),
                                ),
                                SequenceItem_::Declare(decls) => SequenceItemView_::Declare(
                                    lvalue_list_view(decls),
                                ),
                                SequenceItem_::Bind(decls, tys, e) => SequenceItemView_::Bind(
                                    lvalue_list_view(decls),
                                    opt_types_view(tys@),
                                    Box::new(exp_view(*e)),
                                ),
                            },
                        }
                    } else {
                        arbitrary()
                    },
            ),
        ),
        UnannotatedExp_::Assign(lhs, tys, e) => UnannotatedExpView::Assign(
            lvalue_list_view(lhs),
            opt_types_view(tys@),
            Box::new(exp_view(*e)),
        ),
        UnannotatedExp_::Mutate(d, s) => UnannotatedExpView::Mutate(
            Box::new(exp_view(*d)),
            Box::new(exp_view(*s)),
        ),
        UnannotatedExp_::Return(e) => UnannotatedExpView::Return(Box::new(exp_view(*e))),
        UnannotatedExp_::Abort(e) => UnannotatedExpView::Abort(Box::new(exp_view(*e))),
        UnannotatedExp_::Break => UnannotatedExpView::Break,
        UnannotatedExp_::Continue => UnannotatedExpView::Continue,
        UnannotatedExp_::Dereference(e) => UnannotatedExpView::Dereference(
            Box::new(exp_view(*e)),
        ),
        UnannotatedExp_::UnaryExp(op, e) => UnannotatedExpView::UnaryExp(
            op,
            Box::new(exp_view(*e)),
        ),
        UnannotatedExp_::BinopExp(l, op, ty, r) => UnannotatedExpView::BinopExp(
            Box::new(exp_view(*l)),
            op,
            type_view(*ty),
            Box::new(exp_view(*r)),
        ),
        UnannotatedExp_::Pack(module, name, tys, fields) => UnannotatedExpView::Pack(
            module,
            name,
            types_view(tys@),
            Seq::new(
                fields@.len(),
                |i: int|
                    if 0 <= i < fields@.len() {
                        FieldInitView {
                            field: fields@[i].field,
                            ty: type_view(fields@[i].ty),
                            init: exp_view(fields@[i].init),
                        }
                    } else {
                        arbitrary()
                    },
            ),
        ),
        UnannotatedExp_::ExpList(items) => UnannotatedExpView::ExpList(
            Seq::new(
                items@.len(),
                |i: int|
                    if 0 <= i < items@.len() {
                        match items@[i] {
                            ExpListItem::Single(e, ty) => ExpListItemView::Single(
                                exp_view(e),
                                type_view(*ty),
                            ),
                            ExpListItem::Splat(loc, e, tys) => ExpListItemView::Splat(
                                loc,
                                exp_view(e),
                                types_view(tys@),
                            ),
                        }
                    } else {
                        arbitrary()
                    },
            ),
        ),
        UnannotatedExp_::Borrow(mutable, e, field) => UnannotatedExpView::Borrow(
            mutable,
            Box::new(exp_view(*e)),
            field,
        ),
        UnannotatedExp_::TempBorrow(mutable, e) => UnannotatedExpView::TempBorrow(
            mutable,
            Box::new(exp_view(*e)),
        ),
        UnannotatedExp_::BorrowLocal(mutable, var) => UnannotatedExpView::BorrowLocal(
            mutable,
            var,
        ),
        UnannotatedExp_::Cast(e, ty) => UnannotatedExpView::Cast(
            Box::new(exp_view(*e)),
            type_view(*ty),
        ),
        UnannotatedExp_::Annotate(e, ty) => UnannotatedExpView::Annotate(
            Box::new(exp_view(*e)),
            type_view(*ty),
        ),
        UnannotatedExp_::Spec(id) => UnannotatedExpView::Spec(id),
        UnannotatedExp_::UnresolvedError => UnannotatedExpView::UnresolvedError,
    }
}

pub open spec fn field_init_view(f: FieldInit) -> FieldInitView {
    FieldInitView { field: f.field, ty: type_view(f.ty), init: exp_view(f.init) }
}

pub open spec fn field_inits_view(fs: Seq<FieldInit>) -> Seq<FieldInitView> {
    Seq::new(fs.len(), |i: int| field_init_view(fs[i]))
}

pub open spec fn list_item_view(item: ExpListItem) -> ExpListItemView {
    match item {
        ExpListItem::Single(e, ty) => ExpListItemView::Single(exp_view(e), type_view(*ty)),
        ExpListItem::Splat(loc, e, tys) => ExpListItemView::Splat(
            loc,
            exp_view(e),
            types_view(tys@),
        ),
    }
}

pub open spec fn list_items_view(items: Seq<ExpListItem>) -> Seq<ExpListItemView> {
    Seq::new(items.len(), |i: int| list_item_view(items[i]))
}

pub open spec fn statement_view(item: SequenceItem) -> SequenceItemView {
    SequenceItemView {
        loc: item.loc,
        value: match item.value {
            SequenceItem_::Exp(e) => SequenceItemView_::Exp(Box::new(exp_view(*e))),
            SequenceItem_::Declare(decls) => SequenceItemView_::Declare(lvalue_list_view(decls)),
            SequenceItem_::Bind(decls, tys, e) => SequenceItemView_::Bind(
                lvalue_list_view(decls),
                opt_types_view(tys@),
                Box::new(exp_view(*e)),
            ),
        },
    }
}

pub open spec fn sequence_view(items: Seq<SequenceItem>) -> Seq<SequenceItemView> {
    Seq::new(items.len(), |i: int| statement_view(items[i]))
}

pub open spec fn function_view(f: Function) -> FunctionView {
    FunctionView {
        parameters: parameters_view(f.signature.parameters@),
        return_type: type_view(f.signature.return_type),
        body_loc: f.body.loc,
        body: match f.body.value {
            FunctionBody_::Defined(seq) => FunctionBodyView::Defined(sequence_view(seq@)),
            FunctionBody_::Native => FunctionBodyView::Native,
        },
    }
}

/// The view of an applied type holds the views of its arguments.
pub proof fn lemma_type_view(t: Type)
    ensures
        t.value matches Type_::Apply(abilities, name, args) ==> type_view(t).value
            == TypeView_::Apply(abilities, name, types_view(args@)),
{
    reveal(type_view);
    match t.value {
        Type_::Apply(abilities, name, args) => {
            assert(type_view(t).value->Apply_2 =~= types_view(args@));
        },
        _ => {},
    }
}

/// The view of a destructuring target holds the views of its fields.
pub proof fn lemma_lvalue_view(lv: LValue)
    ensures
        lv.value matches LValue_::Unpack(module, name, tys, fields) ==> lvalue_view(lv).value
            == LValueView_::Unpack(module, name, types_view(tys@), field_bindings_view(fields@)),
        lv.value matches LValue_::BorrowUnpack(mutable, module, name, tys, fields) ==> lvalue_view(
            lv,
        ).value == LValueView_::BorrowUnpack(
            mutable,
            module,
            name,
            types_view(tys@),
            field_bindings_view(fields@),
        ),
{
    reveal(lvalue_view);
    match lv.value {
        LValue_::Unpack(module, name, tys, fields) => {
            assert(lvalue_view(lv).value->Unpack_3 =~= field_bindings_view(fields@));
        },
        LValue_::BorrowUnpack(mutable, module, name, tys, fields) => {
            assert(lvalue_view(lv).value->BorrowUnpack_4 =~= field_bindings_view(fields@));
        },
        _ => {},
    }
}

/// The view of a block, of a struct construction and of an expression list
/// holds the views of its members.
pub proof fn lemma_unannotated_view(u: UnannotatedExp_)
    ensures
        u matches UnannotatedExp_::Block(seq) ==> unannotated_view(u) == UnannotatedExpView::Block(
            sequence_view(seq@),
        ),
        u matches UnannotatedExp_::Pack(module, name, tys, fields) ==> unannotated_view(u)
            == UnannotatedExpView::Pack(
            module,
            name,
            types_view(tys@),
            field_inits_view(fields@),
        ),
        u matches UnannotatedExp_::ExpList(items) ==> unannotated_view(u)
            == UnannotatedExpView::ExpList(list_items_view(items@)),
{
    reveal(unannotated_view);
    reveal(exp_view);
    match u {
        UnannotatedExp_::Block(seq) => {
            assert(unannotated_view(u)->Block_0 =~= sequence_view(seq@));
        },
        UnannotatedExp_::Pack(module, name, tys, fields) => {
            assert(unannotated_view(u)->Pack_3 =~= field_inits_view(fields@));
        },
        UnannotatedExp_::ExpList(items) => {
            assert(unannotated_view(u)->ExpList_0 =~= list_items_view(items@));
        },
        _ => {},
    }
}

impl View for Type {
    type V = TypeView;

    open spec fn view(&self) -> TypeView {
        type_view(*self)
    }
}

impl View for LValue {
    type V = LValueView;

    open spec fn view(&self) -> LValueView {
        lvalue_view(*self)
    }
}

impl View for LValueList {
    type V = LValueListView;

    open spec fn view(&self) -> LValueListView {
        lvalue_list_view(*self)
    }
}

impl View for Exp {
    type V = ExpView;

    open spec fn view(&self) -> ExpView {
        exp_view(*self)
    }
}

impl View for UnannotatedExp_ {
    type V = UnannotatedExpView;

    open spec fn view(&self) -> UnannotatedExpView {
        unannotated_view(*self)
    }
}

impl View for SequenceItem {
    type V = SequenceItemView;

    open spec fn view(&self) -> SequenceItemView {
        statement_view(*self)
    }
}

impl View for Function {
    type V = FunctionView;

    open spec fn view(&self) -> FunctionView {
        function_view(*self)
    }
}

// Heights

pub open spec fn max(a: nat, b: nat) -> nat {
    if a >= b {
        a
    } else {
        b
    }
}

/// How many type nodes lie on the longest path down from `t`, not counting
/// `t` itself.
pub open spec fn type_height(t: TypeView) -> nat
    decreases t,
{
    match t.value {
        TypeView_::Ref(_, inner) => 1 + type_height(*inner),
        TypeView_::Apply(_, _, args) => 1 + types_height(args),
        _ => 0,
    }
}

pub open spec fn types_height(ts: Seq<TypeView>) -> nat
    decreases ts,
{
    if ts.len() == 0 {
        0
    } else {
        max(type_height(ts.last()), types_height(ts.drop_last()))
    }
}

/// The depth to which binding targets are nested in `lv`.
pub open spec fn lvalue_height(lv: LValueView) -> nat
    decreases lv,
{
    match lv.value {
        LValueView_::Unpack(_, _, _, fields) => 1 + field_bindings_height(fields),
        LValueView_::BorrowUnpack(_, _, _, _, fields) => 1 + field_bindings_height(fields),
        _ => 0,
    }
}

pub open spec fn field_bindings_height(fs: Seq<FieldBindingView>) -> nat
    decreases fs,
{
    if fs.len() == 0 {
        0
    } else {
        max(lvalue_height(fs.last().target), field_bindings_height(fs.drop_last()))
    }
}

/// The depth to which expressions are nested in `e`. Types and binding
/// targets do not count.
pub open spec fn exp_height(e: ExpView) -> nat
    decreases e,
{
    unannotated_height(e.value)
}

pub open spec fn unannotated_height(u: UnannotatedExpView) -> nat
    decreases u,
{
    match u {
        UnannotatedExpView::ModuleCall(mc) => 1 + exp_height(mc.arguments),
        UnannotatedExpView::VarCall(_, e) => 1 + exp_height(*e),
        UnannotatedExpView::Builtin(_, e) => 1 + exp_height(*e),
        UnannotatedExpView::Vector(_, _, _, e) => 1 + exp_height(*e),
        UnannotatedExpView::Lambda(_, body) => 1 + exp_height(*body),
        UnannotatedExpView::IfElse(c, t, f) => 1 + max(
            exp_height(*c),
            max(exp_height(*t), exp_height(*f)),
        ),
        UnannotatedExpView::While(c, body) => 1 + max(exp_height(*c), exp_height(*body)),
        UnannotatedExpView::Loop { has_break: _, body } => 1 + exp_height(*body),
        UnannotatedExpView::Block(seq) => 1 + sequence_height(seq),
        UnannotatedExpView::Assign(_, _, e) => 1 + exp_height(*e),
        UnannotatedExpView::Mutate(d, s) => 1 + max(exp_height(*d), exp_height(*s)),
        UnannotatedExpView::Return(e) => 1 + exp_height(*e),
        UnannotatedExpView::Abort(e) => 1 + exp_height(*e),
        UnannotatedExpView::Dereference(e) => 1 + exp_height(*e),
        UnannotatedExpView::UnaryExp(_, e) => 1 + exp_height(*e),
        UnannotatedExpView::BinopExp(l, _, _, r) => 1 + max(exp_height(*l), exp_height(*r)),
        UnannotatedExpView::Pack(_, _, _, fields) => 1 + field_inits_height(fields),
        UnannotatedExpView::ExpList(items) => 1 + list_items_height(items),
        UnannotatedExpView::Borrow(_, e, _) => 1 + exp_height(*e),
        UnannotatedExpView::TempBorrow(_, e) => 1 + exp_height(*e),
        UnannotatedExpView::Cast(e, _) => 1 + exp_height(*e),
        UnannotatedExpView::Annotate(e, _) => 1 + exp_height(*e),
        _ => 0,
    }
}

pub open spec fn field_inits_height(fs: Seq<FieldInitView>) -> nat
    decreases fs,
{
    if fs.len() == 0 {
        0
    } else {
        max(exp_height(fs.last().init), field_inits_height(fs.drop_last()))
    }
}

pub open spec fn list_item_height(item: ExpListItemView) -> nat
    decreases item,
{
    match item {
        ExpListItemView::Single(e, _) => exp_height(e),
        ExpListItemView::Splat(_, e, _) => exp_height(e),
    }
}

pub open spec fn list_items_height(items: Seq<ExpListItemView>) -> nat
    decreases items,
{
    if items.len() == 0 {
        0
    } else {
        max(list_item_height(items.last()), list_items_height(items.drop_last()))
    }
}

pub open spec fn statement_height(item: SequenceItemView) -> nat
    decreases item,
{
    match item.value {
        SequenceItemView_::Exp(e) => exp_height(*e),
        SequenceItemView_::Declare(_) => 0,
        SequenceItemView_::Bind(_, _, e) => exp_height(*e),
    }
}

pub open spec fn sequence_height(items: Seq<SequenceItemView>) -> nat
    decreases items,
{
    if items.len() == 0 {
        0
    } else {
        max(statement_height(items.last()), sequence_height(items.drop_last()))
    }
}

/// No type is higher than the list of types.
pub proof fn lemma_types_height(ts: Seq<TypeView>, i: int)
    requires
        0 <= i < ts.len(),
    ensures
        type_height(ts[i]) <= types_height(ts),
    decreases ts.len(),
{
    if i < ts.len() - 1 {
        lemma_types_height(ts.drop_last(), i);
    }
}

/// No field of a destructuring target is higher than the list of fields.
pub proof fn lemma_field_bindings_height(fs: Seq<FieldBindingView>, i: int)
    requires
        0 <= i < fs.len(),
    ensures
        lvalue_height(fs[i].target) <= field_bindings_height(fs),
    decreases fs.len(),
{
    if i < fs.len() - 1 {
        lemma_field_bindings_height(fs.drop_last(), i);
    }
}

/// No initializer is higher than the list of fields.
pub proof fn lemma_field_inits_height(fs: Seq<FieldInitView>, i: int)
    requires
        0 <= i < fs.len(),
    ensures
        exp_height(fs[i].init) <= field_inits_height(fs),
    decreases fs.len(),
{
    if i < fs.len() - 1 {
        lemma_field_inits_height(fs.drop_last(), i);
    }
}

/// No item is higher than the expression list.
pub proof fn lemma_list_items_height(items: Seq<ExpListItemView>, i: int)
    requires
        0 <= i < items.len(),
    ensures
        list_item_height(items[i]) <= list_items_height(items),
    decreases items.len(),
{
    if i < items.len() - 1 {
        lemma_list_items_height(items.drop_last(), i);
    }
}

/// No statement is higher than the sequence.
pub proof fn lemma_sequence_height(items: Seq<SequenceItemView>, i: int)
    requires
        0 <= i < items.len(),
    ensures
        statement_height(items[i]) <= sequence_height(items),
    decreases items.len(),
{
    if i < items.len() - 1 {
        lemma_sequence_height(items.drop_last(), i);
    }
}

} // verus!
