//! Annotations: `#[name]`, `#[name(..)]` and `#[name = value]`.
use crate::ast::token::{clone_idents, idents_view, Ident, IdentView, Span, Tokens};
use crate::ast::ty::{Path, PathArguments, PathView};
use vstd::prelude::*;

verus! {

/// One annotation; `rest` tells an inner from an outer one. An annotation
/// that the transformation makes up itself is an outer one and has no `rest`.
#[derive(Debug, PartialEq, Eq)]
pub struct Attribute {
    /// Where the annotation is written.
    pub span: Span,
    pub meta: Meta,
    pub rest: Tokens,
}

/// What stands between the brackets of an annotation.
#[derive(Debug, PartialEq, Eq)]
pub enum Meta {
    /// `name`
    Path { path: Path },
    /// `name(a, b)`: a list of plain names.
    Words { path: Path, words: Vec<Ident> },
    /// `name(..)`, any other list, with the brackets and what they hold in
    /// `rest`.
    List { path: Path, rest: Tokens },
    /// `name = value`
    NameValue { path: Path, value: MetaValue },
}

/// The value of an annotation of the form `name = value`.
#[derive(Debug, PartialEq, Eq)]
pub enum MetaValue {
    /// A string literal: its text, and where it is written.
    Str { value: String, span: Span },
    /// Any other expression.
    Other { rest: Tokens },
}

pub struct AttributeView {
    pub span: Span,
    pub meta: MetaView,
    pub rest: Tokens,
}

pub enum MetaView {
    Path { path: PathView },
    Words { path: PathView, words: Seq<IdentView> },
    List { path: PathView, rest: Tokens },
    NameValue { path: PathView, value: MetaValueView },
}

pub enum MetaValueView {
    Str { value: Seq<char>, span: Span },
    Other { rest: Tokens },
}

impl View for MetaValue {
    type V = MetaValueView;

    open spec fn view(&self) -> MetaValueView {
        match self {
            MetaValue::Str { value, span } => MetaValueView::Str { value: value@, span: *span },
            MetaValue::Other { rest } => MetaValueView::Other { rest: *rest },
        }
    }
}

impl View for Meta {
    type V = MetaView;

    open spec fn view(&self) -> MetaView {
        match self {
            Meta::Path { path } => MetaView::Path { path: path@ },
            Meta::Words { path, words } => MetaView::Words {
                path: path@,
                words: idents_view(words@),
            },
            Meta::List { path, rest } => MetaView::List { path: path@, rest: *rest },
            Meta::NameValue { path, value } => MetaView::NameValue { path: path@, value: value@ },
        }
    }
}

impl View for Attribute {
    type V = AttributeView;

    open spec fn view(&self) -> AttributeView {
        AttributeView { span: self.span, meta: self.meta@, rest: self.rest }
    }
}

/// The views of a list of annotations.
pub open spec fn attrs_view(v: Seq<Attribute>) -> Seq<AttributeView> {
    Seq::new(v.len(), |i: int| v[i]@)
}

impl MetaView {
    /// The path that names the annotation.
    pub open spec fn path(self) -> PathView {
        match self {
            MetaView::Path { path } => path,
            MetaView::Words { path, .. } => path,
            MetaView::List { path, .. } => path,
            MetaView::NameValue { path, .. } => path,
        }
    }
}

impl PathView {
    /// Whether the path is the single name `name`: no leading `::`, one
    /// segment, nothing behind it.
    pub open spec fn is_ident(self, name: Seq<char>) -> bool {
        &&& !self.leading_colon
        &&& self.segments.len() == 1
        &&& self.segments[0].arguments is Empty
        &&& self.segments[0].ident.name == name
    }
}

impl Path {
    /// Whether the path is the single name `name`.
    pub fn is_ident(&self, name: &str) -> (r: bool)
        ensures
            r == self@.is_ident(name@),
    {
        if self.leading_colon || self.segments.len() != 1 {
            return false;
        }
        let first = &self.segments[0];
        match &first.arguments {
            PathArguments::Empty => first.ident.is(name),
            _ => false,
        }
    }
}

impl Meta {
    pub fn path(&self) -> (r: &Path)
        ensures
            r@ == self@.path(),
    {
        match self {
            Meta::Path { path } => path,
            Meta::Words { path, .. } => path,
            Meta::List { path, .. } => path,
            Meta::NameValue { path, .. } => path,
        }
    }
}

impl Attribute {
    /// The path that names the annotation: `test` in `#[test]`, `doc` in
    /// `#[doc = ".."]`.
    pub fn path(&self) -> (r: &Path)
        ensures
            r@ == self@.meta.path(),
    {
        self.meta.path()
    }
}

impl Clone for MetaValue {
    fn clone(&self) -> (r: Self)
        ensures
            r@ == self@,
    {
        match self {
            MetaValue::Str { value, span } => MetaValue::Str { value: value.clone(), span: *span },
            MetaValue::Other { rest } => MetaValue::Other { rest: *rest },
        }
    }
}

impl Clone for Meta {
    fn clone(&self) -> (r: Self)
        ensures
            r@ == self@,
    {
        match self {
            Meta::Path { path } => Meta::Path { path: path.duplicate() },
            Meta::Words { path, words } => Meta::Words {
                path: path.duplicate(),
                words: clone_idents(words),
            },
            Meta::List { path, rest } => Meta::List { path: path.duplicate(), rest: *rest },
            Meta::NameValue { path, value } => Meta::NameValue {
                path: path.duplicate(),
                value: value.clone(),
            },
        }
    }
}

impl Clone for Attribute {
    fn clone(&self) -> (r: Self)
        ensures
            r@ == self@,
    {
        Attribute { span: self.span, meta: self.meta.clone(), rest: self.rest }
    }
}

pub fn clone_attrs(v: &Vec<Attribute>) -> (r: Vec<Attribute>)
    ensures
        attrs_view(r@) == attrs_view(v@),
{
    let mut out: Vec<Attribute> = Vec::new();
    let mut i: usize = 0;
    while i < v.len()
        invariant
            i <= v.len(),
            out.len() == i,
            forall|j: int| 0 <= j < i ==> (#[trigger] out[j])@ == v[j]@,
        decreases v.len() - i,
    {
        out.push(v[i].clone());
        i += 1;
    }
    assert(attrs_view(out@) =~= attrs_view(v@));
    out
}

} // verus!
