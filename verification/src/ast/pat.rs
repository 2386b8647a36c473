//! Patterns.
use crate::ast::token::Tokens;
use crate::ast::ty::{
    duplicate_qself, qself_view, Macro, MacroView, Path, PathView, QSelf, QSelfView, Type,
    TypeView,
};
use vstd::prelude::*;

verus! {

/// A pattern.
#[derive(Debug, PartialEq, Eq)]
pub enum Pat {
    /// `ref mut x @ sub`, with all but the sub-pattern in `rest`.
    Ident { subpat: Option<Box<Pat>>, rest: Tokens },
    /// A macro in pattern position.
    Macro { mac: Macro },
    /// `(p)`
    Paren { pat: Box<Pat> },
    /// `a::B` or `<T as a::B>::C`
    Path { qself: Option<QSelf>, path: Path },
    /// `&mut p`
    Reference { pat: Box<Pat>, rest: Tokens },
    /// `[a, b, ..]`
    Slice { elems: Vec<Pat> },
    /// `a::B { x: p, .. }`
    Struct { qself: Option<QSelf>, path: Path, fields: Vec<FieldPat>, rest: Tokens },
    /// `(a, b)`
    Tuple { elems: Vec<Pat> },
    /// `a::B(p, q)`
    TupleStruct { qself: Option<QSelf>, path: Path, elems: Vec<Pat> },
    /// `p: T`
    Type { pat: Box<Pat>, ty: Box<Type> },
    /// A wildcard, a literal, a range, an alternative, `..`, a constant
    /// block, or tokens not understood.
    Other { rest: Tokens },
}

/// One field of a struct pattern; `rest` holds the name.
#[derive(Debug, PartialEq, Eq)]
pub struct FieldPat {
    pub pat: Box<Pat>,
    pub rest: Tokens,
}

pub enum PatView {
    Ident { subpat: Option<Box<PatView>>, rest: Tokens },
    Macro { mac: MacroView },
    Paren { pat: Box<PatView> },
    Path { qself: Option<QSelfView>, path: PathView },
    Reference { pat: Box<PatView>, rest: Tokens },
    Slice { elems: Seq<PatView> },
    Struct { qself: Option<QSelfView>, path: PathView, fields: Seq<FieldPatView>, rest: Tokens },
    Tuple { elems: Seq<PatView> },
    TupleStruct { qself: Option<QSelfView>, path: PathView, elems: Seq<PatView> },
    Type { pat: Box<PatView>, ty: Box<TypeView> },
    Other { rest: Tokens },
}

pub struct FieldPatView {
    pub pat: Box<PatView>,
    pub rest: Tokens,
}

/// The views of a list of patterns.
pub open spec fn pats_view(v: Seq<Pat>) -> Seq<PatView>
    decreases v,
{
    Seq::new(
        v.len(),
        |i: int|
            if 0 <= i < v.len() {
                v[i].model()
            } else {
                arbitrary()
            },
    )
}

/// The views of the fields of a struct pattern.
pub open spec fn field_pats_view(v: Seq<FieldPat>) -> Seq<FieldPatView>
    decreases v,
{
    Seq::new(
        v.len(),
        |i: int|
            if 0 <= i < v.len() {
                v[i].model()
            } else {
                arbitrary()
            },
    )
}

/// The view of the pattern behind `@`, where one is written.
pub open spec fn subpat_view(p: Option<Box<Pat>>) -> Option<Box<PatView>>
    decreases p,
{
    match p {
        Some(p) => Some(Box::new(p.model())),
        None => None,
    }
}

impl FieldPat {
    pub open spec fn model(self) -> FieldPatView
        decreases self,
    {
        FieldPatView { pat: Box::new(self.pat.model()), rest: self.rest }
    }
}

impl Pat {
    pub open spec fn model(self) -> PatView
        decreases self,
    {
        match self {
            Pat::Ident { subpat, rest } => PatView::Ident { subpat: subpat_view(subpat), rest },
            Pat::Macro { mac } => PatView::Macro { mac: mac.model() },
            Pat::Paren { pat } => PatView::Paren { pat: Box::new(pat.model()) },
            Pat::Path { qself, path } => PatView::Path {
                qself: qself_view(qself),
                path: path.model(),
            },
            Pat::Reference { pat, rest } => PatView::Reference {
                pat: Box::new(pat.model()),
                rest,
            },
            Pat::Slice { elems } => PatView::Slice { elems: pats_view(elems@) },
            Pat::Struct { qself, path, fields, rest } => PatView::Struct {
                qself: qself_view(qself),
                path: path.model(),
                fields: field_pats_view(fields@),
                rest,
            },
            Pat::Tuple { elems } => PatView::Tuple { elems: pats_view(elems@) },
            Pat::TupleStruct { qself, path, elems } => PatView::TupleStruct {
                qself: qself_view(qself),
                path: path.model(),
                elems: pats_view(elems@),
            },
            Pat::Type { pat, ty } => PatView::Type {
                pat: Box::new(pat.model()),
                ty: Box::new(ty.model()),
            },
            Pat::Other { rest } => PatView::Other { rest },
        }
    }
}

impl View for Pat {
    type V = PatView;

    open spec fn view(&self) -> PatView {
        self.model()
    }
}

impl View for FieldPat {
    type V = FieldPatView;

    open spec fn view(&self) -> FieldPatView {
        self.model()
    }
}

impl FieldPat {
    pub fn duplicate(&self) -> (r: FieldPat)
        ensures
            r@ == self@,
        decreases self,
    {
        FieldPat { pat: Box::new(self.pat.duplicate()), rest: self.rest }
    }
}

impl Pat {
    pub fn duplicate(&self) -> (r: Pat)
        ensures
            r@ == self@,
        decreases self,
    {
        match self {
            Pat::Ident { subpat, rest } => Pat::Ident {
                subpat: duplicate_subpat(subpat),
                rest: *rest,
            },
            Pat::Macro { mac } => Pat::Macro { mac: mac.duplicate() },
            Pat::Paren { pat } => Pat::Paren { pat: Box::new(pat.duplicate()) },
            Pat::Path { qself, path } => Pat::Path {
                qself: duplicate_qself(qself),
                path: path.duplicate(),
            },
            Pat::Reference { pat, rest } => Pat::Reference {
                pat: Box::new(pat.duplicate()),
                rest: *rest,
            },
            Pat::Slice { elems } => Pat::Slice { elems: duplicate_pats(elems) },
            Pat::Struct { qself, path, fields, rest } => Pat::Struct {
                qself: duplicate_qself(qself),
                path: path.duplicate(),
                fields: duplicate_field_pats(fields),
                rest: *rest,
            },
            Pat::Tuple { elems } => Pat::Tuple { elems: duplicate_pats(elems) },
            Pat::TupleStruct { qself, path, elems } => Pat::TupleStruct {
                qself: duplicate_qself(qself),
                path: path.duplicate(),
                elems: duplicate_pats(elems),
            },
            Pat::Type { pat, ty } => Pat::Type {
                pat: Box::new(pat.duplicate()),
                ty: Box::new(ty.duplicate()),
            },
            Pat::Other { rest } => Pat::Other { rest: *rest },
        }
    }
}

pub fn duplicate_subpat(p: &Option<Box<Pat>>) -> (r: Option<Box<Pat>>)
    ensures
        subpat_view(r) == subpat_view(*p),
    decreases p,
{
    match p {
        Some(p) => Some(Box::new(p.duplicate())),
        None => None,
    }
}

pub fn duplicate_pats(v: &Vec<Pat>) -> (r: Vec<Pat>)
    ensures
        pats_view(r@) == pats_view(v@),
    decreases v,
{
    let mut out: Vec<Pat> = Vec::new();
    let mut i: usize = 0;
    while i < v.len()
        invariant
            i <= v.len(),
            out.len() == i,
            forall|j: int| 0 <= j < i ==> (#[trigger] out[j]).model() == v[j].model(),
        decreases v.len() - i,
    {
        out.push(v[i].duplicate());
        i += 1;
    }
    assert(pats_view(out@) =~= pats_view(v@));
    out
}

pub fn duplicate_field_pats(v: &Vec<FieldPat>) -> (r: Vec<FieldPat>)
    ensures
        field_pats_view(r@) == field_pats_view(v@),
    decreases v,
{
    let mut out: Vec<FieldPat> = Vec::new();
    let mut i: usize = 0;
    while i < v.len()
        invariant
            i <= v.len(),
            out.len() == i,
            forall|j: int| 0 <= j < i ==> (#[trigger] out[j]).model() == v[j].model(),
        decreases v.len() - i,
    {
        out.push(v[i].duplicate());
        i += 1;
    }
    assert(field_pats_view(out@) =~= field_pats_view(v@));
    out
}

impl Clone for Pat {
    fn clone(&self) -> (r: Self)
        ensures
            r@ == self@,
    {
        self.duplicate()
    }
}

impl Clone for FieldPat {
    fn clone(&self) -> (r: Self)
        ensures
            r@ == self@,
    {
        self.duplicate()
    }
}

} // verus!
