//! Generic parameters, fields and function signatures.
use crate::ast::pat::{Pat, PatView};
use crate::ast::token::{Span, Tokens};
use crate::ast::ty::{
    bounds_view, duplicate_bounds, ReturnType, ReturnTypeView, Type, TypeParamBound,
    TypeParamBoundView, TypeView,
};
use vstd::prelude::*;

verus! {

/// The generic parameters of a declaration with its `where` clause.
#[derive(Debug, PartialEq, Eq)]
pub struct Generics {
    pub params: Vec<GenericParam>,
    pub where_clause: Option<Vec<WherePredicate>>,
}

/// One generic parameter; `rest` holds its name.
#[derive(Debug, PartialEq, Eq)]
pub enum GenericParam {
    /// `T: A + B = D`
    Type { bounds: Vec<TypeParamBound>, default: Option<Type>, rest: Tokens },
    /// `const N: T = 3`
    Const { ty: Type, rest: Tokens },
    /// `'a: 'b`
    Lifetime { rest: Tokens },
}

/// One predicate of a `where` clause.
#[derive(Debug, PartialEq, Eq)]
pub enum WherePredicate {
    /// `for<'a> T: A + B`
    Type { bounded_ty: Type, bounds: Vec<TypeParamBound>, rest: Tokens },
    /// `'a: 'b`, or tokens not understood.
    Other { rest: Tokens },
}

/// The fields of a record type.
#[derive(Debug, PartialEq, Eq)]
pub enum Fields {
    Named { fields: Vec<Field> },
    Unnamed { fields: Vec<Field> },
    Unit,
}

/// One field; `rest` holds its annotations, visibility and name.
#[derive(Debug, PartialEq, Eq)]
pub struct Field {
    pub ty: Type,
    pub rest: Tokens,
}

/// The signature of a function; `rest` holds its name and qualifiers.
#[derive(Debug, PartialEq, Eq)]
pub struct Signature {
    /// The place of the keyword `async`, where it is written.
    pub asyncness: Option<Span>,
    /// The place of the keyword `fn`.
    pub fn_token: Span,
    pub generics: Generics,
    pub inputs: Vec<FnArg>,
    pub output: ReturnType,
    pub rest: Tokens,
}

/// One parameter of a function.
#[derive(Debug, PartialEq, Eq)]
pub enum FnArg {
    /// `self`, `&mut self` or `self: T`
    Receiver { ty: Box<Type>, rest: Tokens },
    /// `p: T`
    Typed { pat: Box<Pat>, ty: Box<Type>, rest: Tokens },
}

pub struct GenericsView {
    pub params: Seq<GenericParamView>,
    pub where_clause: Option<Seq<WherePredicateView>>,
}

pub enum GenericParamView {
    Type { bounds: Seq<TypeParamBoundView>, default: Option<TypeView>, rest: Tokens },
    Const { ty: TypeView, rest: Tokens },
    Lifetime { rest: Tokens },
}

pub enum WherePredicateView {
    Type { bounded_ty: TypeView, bounds: Seq<TypeParamBoundView>, rest: Tokens },
    Other { rest: Tokens },
}

pub enum FieldsView {
    Named { fields: Seq<FieldView> },
    Unnamed { fields: Seq<FieldView> },
    Unit,
}

pub struct FieldView {
    pub ty: TypeView,
    pub rest: Tokens,
}

pub struct SignatureView {
    pub asyncness: Option<Span>,
    pub fn_token: Span,
    pub generics: GenericsView,
    pub inputs: Seq<FnArgView>,
    pub output: ReturnTypeView,
    pub rest: Tokens,
}

pub enum FnArgView {
    Receiver { ty: Box<TypeView>, rest: Tokens },
    Typed { pat: Box<PatView>, ty: Box<TypeView>, rest: Tokens },
}

/// The views of a list of generic parameters.
pub open spec fn generic_params_view(v: Seq<GenericParam>) -> Seq<GenericParamView> {
    Seq::new(v.len(), |i: int| v[i].model())
}

/// The views of the predicates of a `where` clause.
pub open spec fn where_predicates_view(v: Seq<WherePredicate>) -> Seq<WherePredicateView> {
    Seq::new(v.len(), |i: int| v[i].model())
}

/// The views of a list of fields.
pub open spec fn field_list_view(v: Seq<Field>) -> Seq<FieldView> {
    Seq::new(v.len(), |i: int| v[i].model())
}

/// The views of the parameters of a function.
pub open spec fn fn_args_view(v: Seq<FnArg>) -> Seq<FnArgView> {
    Seq::new(v.len(), |i: int| v[i].model())
}

/// The view of the default of a type parameter, where one is written.
pub open spec fn default_view(t: Option<Type>) -> Option<TypeView> {
    match t {
        Some(t) => Some(t.model()),
        None => None,
    }
}

/// The view of a `where` clause, where one is written.
pub open spec fn where_clause_view(w: Option<Vec<WherePredicate>>) -> Option<
    Seq<WherePredicateView>,
> {
    match w {
        Some(w) => Some(where_predicates_view(w@)),
        None => None,
    }
}

impl GenericParam {
    pub open spec fn model(self) -> GenericParamView {
        match self {
            GenericParam::Type { bounds, default, rest } => GenericParamView::Type {
                bounds: bounds_view(bounds@),
                default: default_view(default),
                rest,
            },
            GenericParam::Const { ty, rest } => GenericParamView::Const { ty: ty.model(), rest },
            GenericParam::Lifetime { rest } => GenericParamView::Lifetime { rest },
        }
    }
}

impl WherePredicate {
    pub open spec fn model(self) -> WherePredicateView {
        match self {
            WherePredicate::Type { bounded_ty, bounds, rest } => WherePredicateView::Type {
                bounded_ty: bounded_ty.model(),
                bounds: bounds_view(bounds@),
                rest,
            },
            WherePredicate::Other { rest } => WherePredicateView::Other { rest },
        }
    }
}

impl Generics {
    pub open spec fn model(self) -> GenericsView {
        GenericsView {
            params: generic_params_view(self.params@),
            where_clause: where_clause_view(self.where_clause),
        }
    }
}

impl Field {
    pub open spec fn model(self) -> FieldView {
        FieldView { ty: self.ty.model(), rest: self.rest }
    }
}

impl Fields {
    pub open spec fn model(self) -> FieldsView {
        match self {
            Fields::Named { fields } => FieldsView::Named { fields: field_list_view(fields@) },
            Fields::Unnamed { fields } => FieldsView::Unnamed { fields: field_list_view(fields@) },
            Fields::Unit => FieldsView::Unit,
        }
    }
}

impl FnArg {
    pub open spec fn model(self) -> FnArgView {
        match self {
            FnArg::Receiver { ty, rest } => FnArgView::Receiver { ty: Box::new(ty.model()), rest },
            FnArg::Typed { pat, ty, rest } => FnArgView::Typed {
                pat: Box::new(pat.model()),
                ty: Box::new(ty.model()),
                rest,
            },
        }
    }
}

impl Signature {
    pub open spec fn model(self) -> SignatureView {
        SignatureView {
            asyncness: self.asyncness,
            fn_token: self.fn_token,
            generics: self.generics.model(),
            inputs: fn_args_view(self.inputs@),
            output: self.output.model(),
            rest: self.rest,
        }
    }
}

impl View for GenericParam {
    type V = GenericParamView;

    open spec fn view(&self) -> GenericParamView {
        self.model()
    }
}

impl View for WherePredicate {
    type V = WherePredicateView;

    open spec fn view(&self) -> WherePredicateView {
        self.model()
    }
}

impl View for Generics {
    type V = GenericsView;

    open spec fn view(&self) -> GenericsView {
        self.model()
    }
}

impl View for Field {
    type V = FieldView;

    open spec fn view(&self) -> FieldView {
        self.model()
    }
}

impl View for Fields {
    type V = FieldsView;

    open spec fn view(&self) -> FieldsView {
        self.model()
    }
}

impl View for FnArg {
    type V = FnArgView;

    open spec fn view(&self) -> FnArgView {
        self.model()
    }
}

impl View for Signature {
    type V = SignatureView;

    open spec fn view(&self) -> SignatureView {
        self.model()
    }
}

impl GenericParam {
    pub fn duplicate(&self) -> (r: GenericParam)
        ensures
            r@ == self@,
    {
        match self {
            GenericParam::Type { bounds, default, rest } => GenericParam::Type {
                bounds: duplicate_bounds(bounds),
                default: match default {
                    Some(t) => Some(t.duplicate()),
                    None => None,
                },
                rest: *rest,
            },
            GenericParam::Const { ty, rest } => GenericParam::Const {
                ty: ty.duplicate(),
                rest: *rest,
            },
            GenericParam::Lifetime { rest } => GenericParam::Lifetime { rest: *rest },
        }
    }
}

impl WherePredicate {
    pub fn duplicate(&self) -> (r: WherePredicate)
        ensures
            r@ == self@,
    {
        match self {
            WherePredicate::Type { bounded_ty, bounds, rest } => WherePredicate::Type {
                bounded_ty: bounded_ty.duplicate(),
                bounds: duplicate_bounds(bounds),
                rest: *rest,
            },
            WherePredicate::Other { rest } => WherePredicate::Other { rest: *rest },
        }
    }
}

impl Generics {
    pub fn duplicate(&self) -> (r: Generics)
        ensures
            r@ == self@,
    {
        Generics {
            params: duplicate_generic_params(&self.params),
            where_clause: match &self.where_clause {
                Some(w) => Some(duplicate_where_predicates(w)),
                None => None,
            },
        }
    }
}

impl Field {
    pub fn duplicate(&self) -> (r: Field)
        ensures
            r@ == self@,
    {
        Field { ty: self.ty.duplicate(), rest: self.rest }
    }
}

impl Fields {
    pub fn duplicate(&self) -> (r: Fields)
        ensures
            r@ == self@,
    {
        match self {
            Fields::Named { fields } => Fields::Named { fields: duplicate_field_list(fields) },
            Fields::Unnamed { fields } => Fields::Unnamed { fields: duplicate_field_list(fields) },
            Fields::Unit => Fields::Unit,
        }
    }
}

impl FnArg {
    pub fn duplicate(&self) -> (r: FnArg)
        ensures
            r@ == self@,
    {
        match self {
            FnArg::Receiver { ty, rest } => FnArg::Receiver {
                ty: Box::new(ty.duplicate()),
                rest: *rest,
            },
            FnArg::Typed { pat, ty, rest } => FnArg::Typed {
                pat: Box::new(pat.duplicate()),
                ty: Box::new(ty.duplicate()),
                rest: *rest,
            },
        }
    }
}

impl Signature {
    pub fn duplicate(&self) -> (r: Signature)
        ensures
            r@ == self@,
    {
        Signature {
            asyncness: self.asyncness,
            fn_token: self.fn_token,
            generics: self.generics.duplicate(),
            inputs: duplicate_fn_args(&self.inputs),
            output: self.output.duplicate(),
            rest: self.rest,
        }
    }
}

pub fn duplicate_generic_params(v: &Vec<GenericParam>) -> (r: Vec<GenericParam>)
    ensures
        generic_params_view(r@) == generic_params_view(v@),
{
    let mut out: Vec<GenericParam> = Vec::new();
    let mut i: usize = 0;
    while i < v.len()
        invariant
            i <= v.len(),
            out.len() == i,
            forall|j: int| 0 <= j < i ==> (#[trigger] out[j]).model() == v[j].model(),
        decreases v.len() - i,
    {
        out.push(v[i].duplicate());
        i += 1;
    }
    assert(generic_params_view(out@) =~= generic_params_view(v@));
    out
}

pub fn duplicate_where_predicates(v: &Vec<WherePredicate>) -> (r: Vec<WherePredicate>)
    ensures
        where_predicates_view(r@) == where_predicates_view(v@),
{
    let mut out: Vec<WherePredicate> = Vec::new();
    let mut i: usize = 0;
    while i < v.len()
        invariant
            i <= v.len(),
            out.len() == i,
            forall|j: int| 0 <= j < i ==> (#[trigger] out[j]).model() == v[j].model(),
        decreases v.len() - i,
    {
        out.push(v[i].duplicate());
        i += 1;
    }
    assert(where_predicates_view(out@) =~= where_predicates_view(v@));
    out
}

pub fn duplicate_field_list(v: &Vec<Field>) -> (r: Vec<Field>)
    ensures
        field_list_view(r@) == field_list_view(v@),
{
    let mut out: Vec<Field> = Vec::new();
    let mut i: usize = 0;
    while i < v.len()
        invariant
            i <= v.len(),
            out.len() == i,
            forall|j: int| 0 <= j < i ==> (#[trigger] out[j]).model() == v[j].model(),
        decreases v.len() - i,
    {
        out.push(v[i].duplicate());
        i += 1;
    }
    assert(field_list_view(out@) =~= field_list_view(v@));
    out
}

pub fn duplicate_fn_args(v: &Vec<FnArg>) -> (r: Vec<FnArg>)
    ensures
        fn_args_view(r@) == fn_args_view(v@),
{
    let mut out: Vec<FnArg> = Vec::new();
    let mut i: usize = 0;
    while i < v.len()
        invariant
            i <= v.len(),
            out.len() == i,
            forall|j: int| 0 <= j < i ==> (#[trigger] out[j]).model() == v[j].model(),
        decreases v.len() - i,
    {
        out.push(v[i].duplicate());
        i += 1;
    }
    assert(fn_args_view(out@) =~= fn_args_view(v@));
    out
}

impl Clone for GenericParam {
    fn clone(&self) -> (r: Self)
        ensures
            r@ == self@,
    {
        self.duplicate()
    }
}

impl Clone for WherePredicate {
    fn clone(&self) -> (r: Self)
        ensures
            r@ == self@,
    {
        self.duplicate()
    }
}

impl Clone for Generics {
    fn clone(&self) -> (r: Self)
        ensures
            r@ == self@,
    {
        self.duplicate()
    }
}

impl Clone for Field {
    fn clone(&self) -> (r: Self)
        ensures
            r@ == self@,
    {
        self.duplicate()
    }
}

impl Clone for Fields {
    fn clone(&self) -> (r: Self)
        ensures
            r@ == self@,
    {
        self.duplicate()
    }
}

impl Clone for FnArg {
    fn clone(&self) -> (r: Self)
        ensures
            r@ == self@,
    {
        self.duplicate()
    }
}

impl Clone for Signature {
    fn clone(&self) -> (r: Self)
        ensures
            r@ == self@,
    {
        self.duplicate()
    }
}

} // verus!
