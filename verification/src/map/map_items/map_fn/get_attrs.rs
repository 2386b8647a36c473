//! The annotations of a statement, an item or an expression.
use crate::ast::attr::{attrs_view, Attribute, AttributeView};
use crate::ast::expr::{Expr, ExprKind, ExprView, Item, ItemFnView, ItemView, LocalView, Stmt, StmtView};
use crate::ast::use_tree::ItemUseView;
use vstd::prelude::*;

verus! {

/// The annotations of an expression. Tokens that were not understood have
/// none.
pub open spec fn expr_attrs(e: ExprView) -> Option<Seq<AttributeView>> {
    if e.kind is Verbatim {
        None
    } else {
        Some(e.attrs)
    }
}

/// The expression with other annotations, if it has annotations at all.
pub open spec fn expr_with_attrs(e: ExprView, attrs: Seq<AttributeView>) -> ExprView {
    if e.kind is Verbatim {
        e
    } else {
        ExprView { attrs, kind: e.kind, rest: e.rest }
    }
}

/// The annotations of an item. Tokens that were not understood have none.
pub open spec fn item_attrs(i: ItemView) -> Option<Seq<AttributeView>> {
    match i {
        ItemView::Fn { item } => Some(item.attrs),
        ItemView::Use { item } => Some(item.attrs),
        ItemView::Other { attrs, .. } => Some(attrs),
        ItemView::Verbatim { .. } => None,
    }
}

/// The item with other annotations, if it has annotations at all.
pub open spec fn item_with_attrs(i: ItemView, attrs: Seq<AttributeView>) -> ItemView {
    match i {
        ItemView::Fn { item } => ItemView::Fn {
            item: ItemFnView { attrs, sig: item.sig, block: item.block, rest: item.rest },
        },
        ItemView::Use { item } => ItemView::Use {
            item: ItemUseView { attrs, leading_colon: item.leading_colon, tree: item.tree },
        },
        ItemView::Other { rest, .. } => ItemView::Other { attrs, rest },
        ItemView::Verbatim { rest } => ItemView::Verbatim { rest },
    }
}

/// The annotations of a statement: those of the `let`, the item, the
/// expression or the macro that it is.
pub open spec fn stmt_attrs(s: StmtView) -> Option<Seq<AttributeView>> {
    match s {
        StmtView::Local { local } => Some(local.attrs),
        StmtView::Item { item } => item_attrs(item),
        StmtView::Expr { expr, .. } => expr_attrs(expr),
        StmtView::Macro { attrs, .. } => Some(attrs),
    }
}

/// The statement with other annotations, if it has annotations at all.
pub open spec fn stmt_with_attrs(s: StmtView, attrs: Seq<AttributeView>) -> StmtView {
    match s {
        StmtView::Local { local } => StmtView::Local {
            local: LocalView { attrs, init: local.init, rest: local.rest },
        },
        StmtView::Item { item } => StmtView::Item { item: item_with_attrs(item, attrs) },
        StmtView::Expr { expr, semi } => StmtView::Expr {
            expr: expr_with_attrs(expr, attrs),
            semi,
        },
        StmtView::Macro { rest, .. } => StmtView::Macro { attrs, rest },
    }
}

pub fn get_attrs_mut_from_stmt(stmt: &mut Stmt) -> (r: Option<&mut Vec<Attribute>>)
    ensures
        match r {
            Some(attrs) => stmt_attrs(old(stmt)@) == Some(attrs_view(attrs@)) && final(stmt)@
                == stmt_with_attrs(old(stmt)@, attrs_view(final(attrs)@)),
            None => stmt_attrs(old(stmt)@) is None && *final(stmt) == *old(stmt),
        },
{
    match stmt {
        Stmt::Local { local } => Some(&mut local.attrs),
        Stmt::Item { item } => get_attrs_mut_from_item(item),
        Stmt::Expr { expr, .. } => get_attrs_mut_from_expr(expr),
        Stmt::Macro { attrs, .. } => Some(attrs),
    }
}

pub fn get_attrs_mut_from_item(item: &mut Item) -> (r: Option<&mut Vec<Attribute>>)
    ensures
        match r {
            Some(attrs) => item_attrs(old(item)@) == Some(attrs_view(attrs@)) && final(item)@
                == item_with_attrs(old(item)@, attrs_view(final(attrs)@)),
            None => item_attrs(old(item)@) is None && *final(item) == *old(item),
        },
{
    match item {
        Item::Fn { item } => Some(&mut item.attrs),
        Item::Use { item } => Some(&mut item.attrs),
        Item::Other { attrs, .. } => Some(attrs),
        Item::Verbatim { .. } => None,
    }
}

pub fn get_attrs_mut_from_expr(expr: &mut Expr) -> (r: Option<&mut Vec<Attribute>>)
    ensures
        match r {
            Some(attrs) => expr_attrs(old(expr)@) == Some(attrs_view(attrs@)) && final(expr)@
                == expr_with_attrs(old(expr)@, attrs_view(final(attrs)@)),
            None => expr_attrs(old(expr)@) is None && *final(expr) == *old(expr),
        },
{
    match expr.kind {
        ExprKind::Verbatim => None,
        _ => Some(&mut expr.attrs),
    }
}

} // verus!
