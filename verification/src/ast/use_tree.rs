//! Imports: `use a::b::{C, D as E};`
use crate::ast::attr::{attrs_view, clone_attrs, Attribute, AttributeView};
use crate::ast::token::{Ident, IdentView, Span};
use vstd::prelude::*;

verus! {

/// The tree of one import.
#[derive(Debug, PartialEq, Eq)]
pub enum UseTree {
    /// `ident::tree`
    Path { ident: Ident, tree: Box<UseTree> },
    /// `ident`
    Name { ident: Ident },
    /// `ident as rename`
    Rename { ident: Ident, rename: Ident },
    /// `*`, written at `span`
    Glob { span: Span },
    /// `{a, b, c}`
    Group { items: Vec<UseTree> },
}

pub enum UseTreeView {
    Path { ident: IdentView, tree: Box<UseTreeView> },
    Name { ident: IdentView },
    Rename { ident: IdentView, rename: IdentView },
    Glob { span: Span },
    Group { items: Seq<UseTreeView> },
}

/// The views of the trees of a group.
pub open spec fn use_trees_view(v: Seq<UseTree>) -> Seq<UseTreeView>
    decreases v,
{
    Seq::new(
        v.len(),
        |i: int|
            if 0 <= i < v.len() {
                v[i].model()
            } else {
                arbitrary()
            },
    )
}

impl UseTree {
    pub open spec fn model(self) -> UseTreeView
        decreases self,
    {
        match self {
            UseTree::Path { ident, tree } => UseTreeView::Path {
                ident: ident@,
                tree: Box::new(tree.model()),
            },
            UseTree::Name { ident } => UseTreeView::Name { ident: ident@ },
            UseTree::Rename { ident, rename } => UseTreeView::Rename {
                ident: ident@,
                rename: rename@,
            },
            UseTree::Glob { span } => UseTreeView::Glob { span },
            UseTree::Group { items } => UseTreeView::Group { items: use_trees_view(items@) },
        }
    }

    pub fn duplicate(&self) -> (r: UseTree)
        ensures
            r@ == self@,
        decreases self,
    {
        match self {
            UseTree::Path { ident, tree } => UseTree::Path {
                ident: ident.clone(),
                tree: Box::new(tree.duplicate()),
            },
            UseTree::Name { ident } => UseTree::Name { ident: ident.clone() },
            UseTree::Rename { ident, rename } => UseTree::Rename {
                ident: ident.clone(),
                rename: rename.clone(),
            },
            UseTree::Glob { span } => UseTree::Glob { span: *span },
            UseTree::Group { items } => UseTree::Group { items: duplicate_use_trees(items) },
        }
    }
}

pub fn duplicate_use_trees(v: &Vec<UseTree>) -> (r: Vec<UseTree>)
    ensures
        use_trees_view(r@) == use_trees_view(v@),
    decreases v,
{
    let mut out: Vec<UseTree> = Vec::new();
    let mut i: usize = 0;
    while i < v.len()
        invariant
            i <= v.len(),
            out.len() == i,
            forall|j: int| 0 <= j < i ==> (#[trigger] out[j]).model() == v[j].model(),
        decreases v.len() - i,
    {
        out.push(v[i].duplicate());
        i += 1;
    }
    assert(use_trees_view(out@) =~= use_trees_view(v@));
    out
}

impl View for UseTree {
    type V = UseTreeView;

    open spec fn view(&self) -> UseTreeView {
        self.model()
    }
}

impl Clone for UseTree {
    fn clone(&self) -> (r: Self)
        ensures
            r@ == self@,
    {
        self.duplicate()
    }
}

/// One import as an item: `use ::a::b as c;`
#[derive(Debug, PartialEq, Eq)]
pub struct ItemUse {
    pub attrs: Vec<Attribute>,
    /// Whether the path of the import starts with `::`.
    pub leading_colon: bool,
    pub tree: UseTree,
}

pub struct ItemUseView {
    pub attrs: Seq<AttributeView>,
    pub leading_colon: bool,
    pub tree: UseTreeView,
}

impl View for ItemUse {
    type V = ItemUseView;

    open spec fn view(&self) -> ItemUseView {
        ItemUseView {
            attrs: attrs_view(self.attrs@),
            leading_colon: self.leading_colon,
            tree: self.tree@,
        }
    }
}

impl Clone for ItemUse {
    fn clone(&self) -> (r: Self)
        ensures
            r@ == self@,
    {
        ItemUse {
            attrs: clone_attrs(&self.attrs),
            leading_colon: self.leading_colon,
            tree: self.tree.duplicate(),
        }
    }
}

/// The views of a list of imports.
pub open spec fn item_uses_view(v: Seq<ItemUse>) -> Seq<ItemUseView> {
    Seq::new(v.len(), |i: int| v[i]@)
}

} // verus!
