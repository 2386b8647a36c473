//! Paths, generic arguments, bounds and types.
//!
//! These six kinds of node contain each other, so they live in one file.
use crate::ast::token::{Ident, IdentView, Span, Tokens};
use vstd::prelude::*;

verus! {

/// A qualified path such as `std::io::Read` or `::core::fmt::Debug<T>`.
#[derive(Debug, PartialEq, Eq)]
pub struct Path {
    /// Whether the path starts with `::`.
    pub leading_colon: bool,
    pub segments: Vec<PathSegment>,
}

/// One segment of a path with the generic arguments written behind it.
#[derive(Debug, PartialEq, Eq)]
pub struct PathSegment {
    pub ident: Ident,
    pub arguments: PathArguments,
}

/// What is written behind a path segment.
#[derive(Debug, PartialEq, Eq)]
pub enum PathArguments {
    /// Nothing is written behind the segment.
    Empty,
    /// `<'a, T, Item = U>`
    AngleBracketed { args: Vec<GenericArgument>, rest: Tokens },
    /// `(A, B) -> C`
    Parenthesized { inputs: Vec<Type>, output: ReturnType },
}

/// One argument between angle brackets.
#[derive(Debug, PartialEq, Eq)]
pub enum GenericArgument {
    /// `T`
    Type { ty: Type },
    /// `Item = T` or `Item<'a> = T`; `rest` holds the name.
    AssocType { generics: Option<Vec<GenericArgument>>, ty: Type, rest: Tokens },
    /// `N = 3` or `N<T> = 3`; `rest` holds the name and the value.
    AssocConst { generics: Option<Vec<GenericArgument>>, rest: Tokens },
    /// `Item: Bound`; `rest` holds the name and its own generic arguments.
    Constraint { bounds: Vec<TypeParamBound>, rest: Tokens },
    /// A lifetime or a constant expression.
    Other { rest: Tokens },
}

/// The type behind `->`, if one is written.
#[derive(Debug, PartialEq, Eq)]
pub enum ReturnType {
    Default,
    Type { ty: Box<Type> },
}

/// One bound of a bound list.
#[derive(Debug, PartialEq, Eq)]
pub enum TypeParamBound {
    /// A trait, with `rest` holding `?`, `for<'a>` and the like.
    Trait { path: Path, rest: Tokens },
    /// A lifetime, a `use<..>` capture list, or tokens not understood.
    Other { rest: Tokens },
}

/// The explicit self type of a path such as `<T as Trait>::Item`.
#[derive(Debug, PartialEq, Eq)]
pub struct QSelf {
    pub ty: Box<Type>,
    pub rest: Tokens,
}

/// A macro invocation; only the path before `!` is read.
#[derive(Debug, PartialEq, Eq)]
pub struct Macro {
    pub path: Path,
    pub rest: Tokens,
}

/// One parameter of a function pointer type.
#[derive(Debug, PartialEq, Eq)]
pub struct BareFnArg {
    pub ty: Type,
    pub rest: Tokens,
}

/// A type.
#[derive(Debug, PartialEq, Eq)]
pub enum Type {
    /// `[T; n]`, with the length in `rest`.
    Array { elem: Box<Type>, rest: Tokens },
    /// `fn(A, B) -> C`
    BareFn { inputs: Vec<BareFnArg>, output: ReturnType, rest: Tokens },
    /// A type in invisible delimiters.
    Group { elem: Box<Type> },
    /// `impl A + B`
    ImplTrait { bounds: Vec<TypeParamBound> },
    /// A macro in type position.
    Macro { mac: Macro },
    /// `(T)`
    Paren { elem: Box<Type> },
    /// `a::B<T>` or `<T as a::B>::C`
    Path { qself: Option<QSelf>, path: Path },
    /// `*const T` or `*mut T`
    Ptr { elem: Box<Type>, rest: Tokens },
    /// `&'a mut T`
    Reference { elem: Box<Type>, rest: Tokens },
    /// `[T]`
    Slice { elem: Box<Type> },
    /// `dyn A + B`
    TraitObject { bounds: Vec<TypeParamBound>, rest: Tokens },
    /// `(A, B)`
    Tuple { elems: Vec<Type> },
    /// `_`, `!`, or tokens not understood.
    Other { rest: Tokens },
}

pub struct PathView {
    pub leading_colon: bool,
    pub segments: Seq<PathSegmentView>,
}

pub struct PathSegmentView {
    pub ident: IdentView,
    pub arguments: PathArgumentsView,
}

pub enum PathArgumentsView {
    Empty,
    AngleBracketed { args: Seq<GenericArgumentView>, rest: Tokens },
    Parenthesized { inputs: Seq<TypeView>, output: ReturnTypeView },
}

pub enum GenericArgumentView {
    Type { ty: TypeView },
    AssocType { generics: Option<Seq<GenericArgumentView>>, ty: TypeView, rest: Tokens },
    AssocConst { generics: Option<Seq<GenericArgumentView>>, rest: Tokens },
    Constraint { bounds: Seq<TypeParamBoundView>, rest: Tokens },
    Other { rest: Tokens },
}

pub enum ReturnTypeView {
    Default,
    Type { ty: Box<TypeView> },
}

pub enum TypeParamBoundView {
    Trait { path: PathView, rest: Tokens },
    Other { rest: Tokens },
}

pub struct QSelfView {
    pub ty: Box<TypeView>,
    pub rest: Tokens,
}

pub struct MacroView {
    pub path: PathView,
    pub rest: Tokens,
}

pub struct BareFnArgView {
    pub ty: TypeView,
    pub rest: Tokens,
}

pub enum TypeView {
    Array { elem: Box<TypeView>, rest: Tokens },
    BareFn { inputs: Seq<BareFnArgView>, output: ReturnTypeView, rest: Tokens },
    Group { elem: Box<TypeView> },
    ImplTrait { bounds: Seq<TypeParamBoundView> },
    Macro { mac: MacroView },
    Paren { elem: Box<TypeView> },
    Path { qself: Option<QSelfView>, path: PathView },
    Ptr { elem: Box<TypeView>, rest: Tokens },
    Reference { elem: Box<TypeView>, rest: Tokens },
    Slice { elem: Box<TypeView> },
    TraitObject { bounds: Seq<TypeParamBoundView>, rest: Tokens },
    Tuple { elems: Seq<TypeView> },
    Other { rest: Tokens },
}

/// The views of a list of path segments.
pub open spec fn segments_view(v: Seq<PathSegment>) -> Seq<PathSegmentView>
    decreases v,
{
    Seq::new(
        v.len(),
        |i: int|
            if 0 <= i < v.len() {
                v[i].model()
            } else {
                arbitrary()
            },
    )
}

/// The views of a list of generic arguments.
pub open spec fn generic_arguments_view(v: Seq<GenericArgument>) -> Seq<GenericArgumentView>
    decreases v,
{
    Seq::new(
        v.len(),
        |i: int|
            if 0 <= i < v.len() {
                v[i].model()
            } else {
                arbitrary()
            },
    )
}

/// The views of a list of bounds.
pub open spec fn bounds_view(v: Seq<TypeParamBound>) -> Seq<TypeParamBoundView>
    decreases v,
{
    Seq::new(
        v.len(),
        |i: int|
            if 0 <= i < v.len() {
                v[i].model()
            } else {
                arbitrary()
            },
    )
}

/// The views of a list of function pointer parameters.
pub open spec fn bare_fn_args_view(v: Seq<BareFnArg>) -> Seq<BareFnArgView>
    decreases v,
{
    Seq::new(
        v.len(),
        |i: int|
            if 0 <= i < v.len() {
                v[i].model()
            } else {
                arbitrary()
            },
    )
}

/// The view of an explicit self type, where one is written.
pub open spec fn qself_view(q: Option<QSelf>) -> Option<QSelfView>
    decreases q,
{
    match q {
        Some(q) => Some(q.model()),
        None => None,
    }
}

/// The views of a list of types.
pub open spec fn types_view(v: Seq<Type>) -> Seq<TypeView>
    decreases v,
{
    Seq::new(
        v.len(),
        |i: int|
            if 0 <= i < v.len() {
                v[i].model()
            } else {
                arbitrary()
            },
    )
}

impl Path {
    pub open spec fn model(self) -> PathView
        decreases self,
    {
        PathView { leading_colon: self.leading_colon, segments: segments_view(self.segments@) }
    }
}

impl PathSegment {
    pub open spec fn model(self) -> PathSegmentView
        decreases self,
    {
        PathSegmentView { ident: self.ident@, arguments: self.arguments.model() }
    }
}

impl PathArguments {
    pub open spec fn model(self) -> PathArgumentsView
        decreases self,
    {
        match self {
            PathArguments::Empty => PathArgumentsView::Empty,
            PathArguments::AngleBracketed { args, rest } => PathArgumentsView::AngleBracketed {
                args: generic_arguments_view(args@),
                rest,
            },
            PathArguments::Parenthesized { inputs, output } => PathArgumentsView::Parenthesized {
                inputs: types_view(inputs@),
                output: output.model(),
            },
        }
    }
}

impl GenericArgument {
    pub open spec fn model(self) -> GenericArgumentView
        decreases self,
    {
        match self {
            GenericArgument::Type { ty } => GenericArgumentView::Type { ty: ty.model() },
            GenericArgument::AssocType { generics, ty, rest } => GenericArgumentView::AssocType {
                generics: match generics {
                    Some(g) => Some(generic_arguments_view(g@)),
                    None => None,
                },
                ty: ty.model(),
                rest,
            },
            GenericArgument::AssocConst { generics, rest } => GenericArgumentView::AssocConst {
                generics: match generics {
                    Some(g) => Some(generic_arguments_view(g@)),
                    None => None,
                },
                rest,
            },
            GenericArgument::Constraint { bounds, rest } => GenericArgumentView::Constraint {
                bounds: bounds_view(bounds@),
                rest,
            },
            GenericArgument::Other { rest } => GenericArgumentView::Other { rest },
        }
    }
}

impl ReturnType {
    pub open spec fn model(self) -> ReturnTypeView
        decreases self,
    {
        match self {
            ReturnType::Default => ReturnTypeView::Default,
            ReturnType::Type { ty } => ReturnTypeView::Type { ty: Box::new(ty.model()) },
        }
    }
}

impl TypeParamBound {
    pub open spec fn model(self) -> TypeParamBoundView
        decreases self,
    {
        match self {
            TypeParamBound::Trait { path, rest } => TypeParamBoundView::Trait {
                path: path.model(),
                rest,
            },
            TypeParamBound::Other { rest } => TypeParamBoundView::Other { rest },
        }
    }
}

impl QSelf {
    pub open spec fn model(self) -> QSelfView
        decreases self,
    {
        QSelfView { ty: Box::new(self.ty.model()), rest: self.rest }
    }
}

impl Macro {
    pub open spec fn model(self) -> MacroView
        decreases self,
    {
        MacroView { path: self.path.model(), rest: self.rest }
    }
}

impl BareFnArg {
    pub open spec fn model(self) -> BareFnArgView
        decreases self,
    {
        BareFnArgView { ty: self.ty.model(), rest: self.rest }
    }
}

impl Type {
    pub open spec fn model(self) -> TypeView
        decreases self,
    {
        match self {
            Type::Array { elem, rest } => TypeView::Array { elem: Box::new(elem.model()), rest },
            Type::BareFn { inputs, output, rest } => TypeView::BareFn {
                inputs: bare_fn_args_view(inputs@),
                output: output.model(),
                rest,
            },
            Type::Group { elem } => TypeView::Group { elem: Box::new(elem.model()) },
            Type::ImplTrait { bounds } => TypeView::ImplTrait { bounds: bounds_view(bounds@) },
            Type::Macro { mac } => TypeView::Macro { mac: mac.model() },
            Type::Paren { elem } => TypeView::Paren { elem: Box::new(elem.model()) },
            Type::Path { qself, path } => TypeView::Path {
                qself: qself_view(qself),
                path: path.model(),
            },
            Type::Ptr { elem, rest } => TypeView::Ptr { elem: Box::new(elem.model()), rest },
            Type::Reference { elem, rest } => TypeView::Reference {
                elem: Box::new(elem.model()),
                rest,
            },
            Type::Slice { elem } => TypeView::Slice { elem: Box::new(elem.model()) },
            Type::TraitObject { bounds, rest } => TypeView::TraitObject {
                bounds: bounds_view(bounds@),
                rest,
            },
            Type::Tuple { elems } => TypeView::Tuple { elems: types_view(elems@) },
            Type::Other { rest } => TypeView::Other { rest },
        }
    }
}

impl View for Path {
    type V = PathView;

    open spec fn view(&self) -> PathView {
        self.model()
    }
}

impl View for PathSegment {
    type V = PathSegmentView;

    open spec fn view(&self) -> PathSegmentView {
        self.model()
    }
}

impl View for PathArguments {
    type V = PathArgumentsView;

    open spec fn view(&self) -> PathArgumentsView {
        self.model()
    }
}

impl View for GenericArgument {
    type V = GenericArgumentView;

    open spec fn view(&self) -> GenericArgumentView {
        self.model()
    }
}

impl View for ReturnType {
    type V = ReturnTypeView;

    open spec fn view(&self) -> ReturnTypeView {
        self.model()
    }
}

impl View for TypeParamBound {
    type V = TypeParamBoundView;

    open spec fn view(&self) -> TypeParamBoundView {
        self.model()
    }
}

impl View for QSelf {
    type V = QSelfView;

    open spec fn view(&self) -> QSelfView {
        self.model()
    }
}

impl View for Macro {
    type V = MacroView;

    open spec fn view(&self) -> MacroView {
        self.model()
    }
}

impl View for BareFnArg {
    type V = BareFnArgView;

    open spec fn view(&self) -> BareFnArgView {
        self.model()
    }
}

impl View for Type {
    type V = TypeView;

    open spec fn view(&self) -> TypeView {
        self.model()
    }
}

impl Path {
    /// A copy of the path. A copy has the view of what it was made of.
    pub fn duplicate(&self) -> (r: Path)
        ensures
            r@ == self@,
        decreases self,
    {
        Path { leading_colon: self.leading_colon, segments: duplicate_segments(&self.segments) }
    }
}

impl PathSegment {
    pub fn duplicate(&self) -> (r: PathSegment)
        ensures
            r@ == self@,
        decreases self,
    {
        PathSegment { ident: self.ident.clone(), arguments: self.arguments.duplicate() }
    }
}

impl PathArguments {
    pub fn duplicate(&self) -> (r: PathArguments)
        ensures
            r@ == self@,
        decreases self,
    {
        match self {
            PathArguments::Empty => PathArguments::Empty,
            PathArguments::AngleBracketed { args, rest } => PathArguments::AngleBracketed {
                args: duplicate_generic_arguments(args),
                rest: *rest,
            },
            PathArguments::Parenthesized { inputs, output } => PathArguments::Parenthesized {
                inputs: duplicate_types(inputs),
                output: output.duplicate(),
            },
        }
    }
}

impl GenericArgument {
    pub fn duplicate(&self) -> (r: GenericArgument)
        ensures
            r@ == self@,
        decreases self,
    {
        match self {
            GenericArgument::Type { ty } => GenericArgument::Type { ty: ty.duplicate() },
            GenericArgument::AssocType { generics, ty, rest } => GenericArgument::AssocType {
                generics: match generics {
                    Some(g) => Some(duplicate_generic_arguments(g)),
                    None => None,
                },
                ty: ty.duplicate(),
                rest: *rest,
            },
            GenericArgument::AssocConst { generics, rest } => GenericArgument::AssocConst {
                generics: match generics {
                    Some(g) => Some(duplicate_generic_arguments(g)),
                    None => None,
                },
                rest: *rest,
            },
            GenericArgument::Constraint { bounds, rest } => GenericArgument::Constraint {
                bounds: duplicate_bounds(bounds),
                rest: *rest,
            },
            GenericArgument::Other { rest } => GenericArgument::Other { rest: *rest },
        }
    }
}

impl ReturnType {
    pub fn duplicate(&self) -> (r: ReturnType)
        ensures
            r@ == self@,
        decreases self,
    {
        match self {
            ReturnType::Default => ReturnType::Default,
            ReturnType::Type { ty } => ReturnType::Type { ty: Box::new(ty.duplicate()) },
        }
    }
}

impl TypeParamBound {
    pub fn duplicate(&self) -> (r: TypeParamBound)
        ensures
            r@ == self@,
        decreases self,
    {
        match self {
            TypeParamBound::Trait { path, rest } => TypeParamBound::Trait {
                path: path.duplicate(),
                rest: *rest,
            },
            TypeParamBound::Other { rest } => TypeParamBound::Other { rest: *rest },
        }
    }
}

impl QSelf {
    pub fn duplicate(&self) -> (r: QSelf)
        ensures
            r@ == self@,
        decreases self,
    {
        QSelf { ty: Box::new(self.ty.duplicate()), rest: self.rest }
    }
}

impl Macro {
    pub fn duplicate(&self) -> (r: Macro)
        ensures
            r@ == self@,
        decreases self,
    {
        Macro { path: self.path.duplicate(), rest: self.rest }
    }
}

impl BareFnArg {
    pub fn duplicate(&self) -> (r: BareFnArg)
        ensures
            r@ == self@,
        decreases self,
    {
        BareFnArg { ty: self.ty.duplicate(), rest: self.rest }
    }
}

impl TypeView {
    /// Where a type is written: a path stands where its first segment does,
    /// and a type around one other type where that type does. A type without
    /// a name of its own stands at the place of the invocation.
    pub open spec fn place(self) -> Span
        decreases self,
    {
        match self {
            TypeView::Path { qself, path } => if path.segments.len() > 0 {
                path.segments[0].ident.span
            } else {
                Span::call_site()
            },
            TypeView::Array { elem, rest } => elem.place(),
            TypeView::Group { elem } => elem.place(),
            TypeView::Paren { elem } => elem.place(),
            TypeView::Ptr { elem, rest } => elem.place(),
            TypeView::Reference { elem, rest } => elem.place(),
            TypeView::Slice { elem } => elem.place(),
            _ => Span::call_site(),
        }
    }
}

impl Type {
    /// Where the type is written.
    pub fn place(&self) -> (r: Span)
        ensures
            r == self@.place(),
        decreases self,
    {
        match self {
            Type::Path { qself, path } => {
                assert(self@ == TypeView::Path { qself: qself_view(*qself), path: path@ });
                assert(path@.segments.len() == path.segments.len());
                if path.segments.len() > 0 {
                    assert(path@.segments[0] == path.segments[0]@);
                    path.segments[0].ident.span
                } else {
                    Span::call_site()
                }
            },
            Type::Array { elem, rest } => elem.place(),
            Type::Group { elem } => elem.place(),
            Type::Paren { elem } => elem.place(),
            Type::Ptr { elem, rest } => elem.place(),
            Type::Reference { elem, rest } => elem.place(),
            Type::Slice { elem } => elem.place(),
            _ => Span::call_site(),
        }
    }
}

impl Type {
    pub fn duplicate(&self) -> (r: Type)
        ensures
            r@ == self@,
        decreases self,
    {
        match self {
            Type::Array { elem, rest } => Type::Array {
                elem: Box::new(elem.duplicate()),
                rest: *rest,
            },
            Type::BareFn { inputs, output, rest } => Type::BareFn {
                inputs: duplicate_bare_fn_args(inputs),
                output: output.duplicate(),
                rest: *rest,
            },
            Type::Group { elem } => Type::Group { elem: Box::new(elem.duplicate()) },
            Type::ImplTrait { bounds } => Type::ImplTrait { bounds: duplicate_bounds(bounds) },
            Type::Macro { mac } => Type::Macro { mac: mac.duplicate() },
            Type::Paren { elem } => Type::Paren { elem: Box::new(elem.duplicate()) },
            Type::Path { qself, path } => Type::Path {
                qself: duplicate_qself(qself),
                path: path.duplicate(),
            },
            Type::Ptr { elem, rest } => Type::Ptr { elem: Box::new(elem.duplicate()), rest: *rest },
            Type::Reference { elem, rest } => Type::Reference {
                elem: Box::new(elem.duplicate()),
                rest: *rest,
            },
            Type::Slice { elem } => Type::Slice { elem: Box::new(elem.duplicate()) },
            Type::TraitObject { bounds, rest } => Type::TraitObject {
                bounds: duplicate_bounds(bounds),
                rest: *rest,
            },
            Type::Tuple { elems } => Type::Tuple { elems: duplicate_types(elems) },
            Type::Other { rest } => Type::Other { rest: *rest },
        }
    }
}

pub fn duplicate_qself(q: &Option<QSelf>) -> (r: Option<QSelf>)
    ensures
        qself_view(r) == qself_view(*q),
    decreases q,
{
    match q {
        Some(q) => Some(q.duplicate()),
        None => None,
    }
}

pub fn duplicate_segments(v: &Vec<PathSegment>) -> (r: Vec<PathSegment>)
    ensures
        segments_view(r@) == segments_view(v@),
    decreases v,
{
    let mut out: Vec<PathSegment> = Vec::new();
    let mut i: usize = 0;
    while i < v.len()
        invariant
            i <= v.len(),
            out.len() == i,
            forall|j: int| 0 <= j < i ==> (#[trigger] out[j]).model() == v[j].model(),
        decreases v.len() - i,
    {
        out.push(v[i].duplicate());
        i += 1;
    }
    assert(segments_view(out@) =~= segments_view(v@));
    out
}

pub fn duplicate_generic_arguments(v: &Vec<GenericArgument>) -> (r: Vec<GenericArgument>)
    ensures
        generic_arguments_view(r@) == generic_arguments_view(v@),
    decreases v,
{
    let mut out: Vec<GenericArgument> = Vec::new();
    let mut i: usize = 0;
    while i < v.len()
        invariant
            i <= v.len(),
            out.len() == i,
            forall|j: int| 0 <= j < i ==> (#[trigger] out[j]).model() == v[j].model(),
        decreases v.len() - i,
    {
        out.push(v[i].duplicate());
        i += 1;
    }
    assert(generic_arguments_view(out@) =~= generic_arguments_view(v@));
    out
}

pub fn duplicate_bounds(v: &Vec<TypeParamBound>) -> (r: Vec<TypeParamBound>)
    ensures
        bounds_view(r@) == bounds_view(v@),
    decreases v,
{
    let mut out: Vec<TypeParamBound> = Vec::new();
    let mut i: usize = 0;
    while i < v.len()
        invariant
            i <= v.len(),
            out.len() == i,
            forall|j: int| 0 <= j < i ==> (#[trigger] out[j]).model() == v[j].model(),
        decreases v.len() - i,
    {
        out.push(v[i].duplicate());
        i += 1;
    }
    assert(bounds_view(out@) =~= bounds_view(v@));
    out
}

pub fn duplicate_bare_fn_args(v: &Vec<BareFnArg>) -> (r: Vec<BareFnArg>)
    ensures
        bare_fn_args_view(r@) == bare_fn_args_view(v@),
    decreases v,
{
    let mut out: Vec<BareFnArg> = Vec::new();
    let mut i: usize = 0;
    while i < v.len()
        invariant
            i <= v.len(),
            out.len() == i,
            forall|j: int| 0 <= j < i ==> (#[trigger] out[j]).model() == v[j].model(),
        decreases v.len() - i,
    {
        out.push(v[i].duplicate());
        i += 1;
    }
    assert(bare_fn_args_view(out@) =~= bare_fn_args_view(v@));
    out
}

pub fn duplicate_types(v: &Vec<Type>) -> (r: Vec<Type>)
    ensures
        types_view(r@) == types_view(v@),
    decreases v,
{
    let mut out: Vec<Type> = Vec::new();
    let mut i: usize = 0;
    while i < v.len()
        invariant
            i <= v.len(),
            out.len() == i,
            forall|j: int| 0 <= j < i ==> (#[trigger] out[j]).model() == v[j].model(),
        decreases v.len() - i,
    {
        out.push(v[i].duplicate());
        i += 1;
    }
    assert(types_view(out@) =~= types_view(v@));
    out
}

impl Clone for Path {
    fn clone(&self) -> (r: Self)
        ensures
            r@ == self@,
    {
        self.duplicate()
    }
}

impl Clone for PathSegment {
    fn clone(&self) -> (r: Self)
        ensures
            r@ == self@,
    {
        self.duplicate()
    }
}

impl Clone for PathArguments {
    fn clone(&self) -> (r: Self)
        ensures
            r@ == self@,
    {
        self.duplicate()
    }
}

impl Clone for GenericArgument {
    fn clone(&self) -> (r: Self)
        ensures
            r@ == self@,
    {
        self.duplicate()
    }
}

impl Clone for ReturnType {
    fn clone(&self) -> (r: Self)
        ensures
            r@ == self@,
    {
        self.duplicate()
    }
}

impl Clone for TypeParamBound {
    fn clone(&self) -> (r: Self)
        ensures
            r@ == self@,
    {
        self.duplicate()
    }
}

impl Clone for QSelf {
    fn clone(&self) -> (r: Self)
        ensures
            r@ == self@,
    {
        self.duplicate()
    }
}

impl Clone for Macro {
    fn clone(&self) -> (r: Self)
        ensures
            r@ == self@,
    {
        self.duplicate()
    }
}

impl Clone for BareFnArg {
    fn clone(&self) -> (r: Self)
        ensures
            r@ == self@,
    {
        self.duplicate()
    }
}

impl Clone for Type {
    fn clone(&self) -> (r: Self)
        ensures
            r@ == self@,
    {
        self.duplicate()
    }
}

} // verus!
