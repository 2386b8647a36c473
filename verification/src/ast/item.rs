//! The declarations that are duplicated: namespaces, implementation blocks
//! and record types.
use crate::ast::attr::{attrs_view, clone_attrs, Attribute, AttributeView};
use crate::ast::decl::{Fields, FieldsView, Generics, GenericsView, Signature, SignatureView};
use crate::ast::expr::{duplicate_items, items_view, Block, BlockView, Item, ItemView};
use crate::ast::token::{Ident, IdentView, Span, Tokens};
use crate::ast::ty::{Type, TypeView};
use vstd::prelude::*;

verus! {

/// A namespace: `mod name { .. }`, with its visibility in `rest`.
#[derive(Debug, PartialEq, Eq)]
pub struct ItemMod {
    pub attrs: Vec<Attribute>,
    pub ident: Ident,
    /// The items between the braces; `None` for `mod name;`.
    pub content: Option<Vec<Item>>,
    pub rest: Tokens,
}

/// An implementation block: `impl<T> Type<T> { .. }`.
#[derive(Debug, PartialEq, Eq)]
pub struct ItemImpl {
    pub attrs: Vec<Attribute>,
    pub generics: Generics,
    /// The place of the keyword `for`, where the block implements a trait.
    pub trait_: Option<Span>,
    pub self_ty: Type,
    pub items: Vec<ImplItem>,
    pub rest: Tokens,
}

/// An item of an implementation block.
#[derive(Debug, PartialEq, Eq)]
pub enum ImplItem {
    /// A function.
    Fn { item: ImplItemFn },
    /// A constant, a type, a macro, or tokens not understood.
    Other { rest: Tokens },
}

/// A function of an implementation block; `rest` holds its visibility.
#[derive(Debug, PartialEq, Eq)]
pub struct ImplItemFn {
    pub attrs: Vec<Attribute>,
    pub sig: Signature,
    pub block: Block,
    pub rest: Tokens,
}

/// A record type: `struct Name<T> { .. }`, with its visibility in `rest`.
#[derive(Debug, PartialEq, Eq)]
pub struct ItemStruct {
    pub attrs: Vec<Attribute>,
    pub ident: Ident,
    pub generics: Generics,
    pub fields: Fields,
    pub rest: Tokens,
}

pub struct ItemModView {
    pub attrs: Seq<AttributeView>,
    pub ident: IdentView,
    pub content: Option<Seq<ItemView>>,
    pub rest: Tokens,
}

pub struct ItemImplView {
    pub attrs: Seq<AttributeView>,
    pub generics: GenericsView,
    pub trait_: Option<Span>,
    pub self_ty: TypeView,
    pub items: Seq<ImplItemView>,
    pub rest: Tokens,
}

pub enum ImplItemView {
    Fn { item: ImplItemFnView },
    Other { rest: Tokens },
}

pub struct ImplItemFnView {
    pub attrs: Seq<AttributeView>,
    pub sig: SignatureView,
    pub block: BlockView,
    pub rest: Tokens,
}

pub struct ItemStructView {
    pub attrs: Seq<AttributeView>,
    pub ident: IdentView,
    pub generics: GenericsView,
    pub fields: FieldsView,
    pub rest: Tokens,
}

/// The view of the items of a namespace, where it has braces.
pub open spec fn content_view(content: Option<Vec<Item>>) -> Option<Seq<ItemView>> {
    match content {
        Some(items) => Some(items_view(items@)),
        None => None,
    }
}

impl View for ItemMod {
    type V = ItemModView;

    open spec fn view(&self) -> ItemModView {
        ItemModView {
            attrs: attrs_view(self.attrs@),
            ident: self.ident@,
            content: content_view(self.content),
            rest: self.rest,
        }
    }
}

impl View for ImplItemFn {
    type V = ImplItemFnView;

    open spec fn view(&self) -> ImplItemFnView {
        ImplItemFnView {
            attrs: attrs_view(self.attrs@),
            sig: self.sig@,
            block: self.block@,
            rest: self.rest,
        }
    }
}

impl View for ImplItem {
    type V = ImplItemView;

    open spec fn view(&self) -> ImplItemView {
        match self {
            ImplItem::Fn { item } => ImplItemView::Fn { item: item@ },
            ImplItem::Other { rest } => ImplItemView::Other { rest: *rest },
        }
    }
}

/// The views of the items of an implementation block.
pub open spec fn impl_items_view(v: Seq<ImplItem>) -> Seq<ImplItemView> {
    Seq::new(v.len(), |i: int| v[i]@)
}

impl View for ItemImpl {
    type V = ItemImplView;

    open spec fn view(&self) -> ItemImplView {
        ItemImplView {
            attrs: attrs_view(self.attrs@),
            generics: self.generics@,
            trait_: self.trait_,
            self_ty: self.self_ty@,
            items: impl_items_view(self.items@),
            rest: self.rest,
        }
    }
}

impl View for ItemStruct {
    type V = ItemStructView;

    open spec fn view(&self) -> ItemStructView {
        ItemStructView {
            attrs: attrs_view(self.attrs@),
            ident: self.ident@,
            generics: self.generics@,
            fields: self.fields@,
            rest: self.rest,
        }
    }
}

impl Clone for ItemMod {
    fn clone(&self) -> (r: Self)
        ensures
            r@ == self@,
    {
        ItemMod {
            attrs: clone_attrs(&self.attrs),
            ident: self.ident.clone(),
            content: match &self.content {
                Some(items) => Some(duplicate_items(items)),
                None => None,
            },
            rest: self.rest,
        }
    }
}

impl Clone for ImplItemFn {
    fn clone(&self) -> (r: Self)
        ensures
            r@ == self@,
    {
        ImplItemFn {
            attrs: clone_attrs(&self.attrs),
            sig: self.sig.duplicate(),
            block: self.block.duplicate(),
            rest: self.rest,
        }
    }
}

impl Clone for ImplItem {
    fn clone(&self) -> (r: Self)
        ensures
            r@ == self@,
    {
        match self {
            ImplItem::Fn { item } => ImplItem::Fn { item: item.clone() },
            ImplItem::Other { rest } => ImplItem::Other { rest: *rest },
        }
    }
}

pub fn clone_impl_items(v: &Vec<ImplItem>) -> (r: Vec<ImplItem>)
    ensures
        impl_items_view(r@) == impl_items_view(v@),
{
    let mut out: Vec<ImplItem> = Vec::new();
    let mut i: usize = 0;
    while i < v.len()
        invariant
            i <= v.len(),
            out.len() == i,
            forall|j: int| 0 <= j < i ==> (#[trigger] out[j])@ == v[j]@,
        decreases v.len() - i,
    {
        out.push(v[i].clone());
        i += 1;
    }
    assert(impl_items_view(out@) =~= impl_items_view(v@));
    out
}

impl Clone for ItemImpl {
    fn clone(&self) -> (r: Self)
        ensures
            r@ == self@,
    {
        ItemImpl {
            attrs: clone_attrs(&self.attrs),
            generics: self.generics.duplicate(),
            trait_: self.trait_,
            self_ty: self.self_ty.duplicate(),
            items: clone_impl_items(&self.items),
            rest: self.rest,
        }
    }
}

impl Clone for ItemStruct {
    fn clone(&self) -> (r: Self)
        ensures
            r@ == self@,
    {
        ItemStruct {
            attrs: clone_attrs(&self.attrs),
            ident: self.ident.clone(),
            generics: self.generics.duplicate(),
            fields: self.fields.duplicate(),
            rest: self.rest,
        }
    }
}

} // verus!
