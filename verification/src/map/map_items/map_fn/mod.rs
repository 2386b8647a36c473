//! The rewrite of one function.
pub mod get_attrs;
pub mod handle_fn;
pub mod handle_fn_laws;
pub mod remove_await;
pub mod remove_await_keeps;
pub mod remove_await_laws;

use crate::args::{item_imports_view, ItemImport, ItemImportView};
use crate::ast::expr::{Item, ItemFn, ItemFnView, ItemView};
use crate::ast::item::{ImplItem, ImplItemFn, ImplItemFnView, ImplItemView};
use crate::error::ExpandError;
use crate::utils::imports_wf;
use vstd::prelude::*;

pub use get_attrs::{get_attrs_mut_from_expr, get_attrs_mut_from_item, get_attrs_mut_from_stmt};
pub use handle_fn::{handle_fn, handled_fn};
pub use remove_await::{
    remove_await_from_block, remove_await_from_expr, remove_await_from_expr_await,
    remove_await_from_local, remove_await_from_stmt,
};

verus! {

/// A function of an implementation block for one variant.
pub open spec fn mapped_impl_fn(
    item: ImplItemFnView,
    asyncness: bool,
    imports: Seq<ItemImportView>,
) -> Result<ImplItemView, ExpandError> {
    match handled_fn(item.attrs, item.sig, Some(item.block), asyncness, imports) {
        Err(e) => Err(e),
        Ok((attrs, sig, block)) => Ok(
            ImplItemView::Fn {
                item: ImplItemFnView { attrs, sig, block: block->0, rest: item.rest },
            },
        ),
    }
}

/// A function of a namespace for one variant.
pub open spec fn mapped_mod_fn(
    item: ItemFnView,
    asyncness: bool,
    imports: Seq<ItemImportView>,
) -> Result<ItemView, ExpandError> {
    match handled_fn(item.attrs, item.sig, Some(*item.block), asyncness, imports) {
        Err(e) => Err(e),
        Ok((attrs, sig, block)) => Ok(
            ItemView::Fn {
                item: ItemFnView { attrs, sig, block: Box::new(block->0), rest: item.rest },
            },
        ),
    }
}

/// The view of an item of an implementation block, or of the error in its
/// place.
pub open spec fn impl_item_result_view(r: Result<ImplItem, ExpandError>) -> Result<ImplItemView, ExpandError> {
    match r {
        Ok(item) => Ok(item@),
        Err(e) => Err(e),
    }
}

/// The view of an item, or of the error in its place.
pub open spec fn item_result_view(r: Result<Item, ExpandError>) -> Result<ItemView, ExpandError> {
    match r {
        Ok(item) => Ok(item@),
        Err(e) => Err(e),
    }
}

pub fn map_impl_fn(item: ImplItemFn, asyncness: bool, item_imports: &[ItemImport]) -> (r: Result<
    ImplItem,
    ExpandError,
>)
    requires
        imports_wf(item_imports_view(item_imports@)),
    ensures
        impl_item_result_view(r) == mapped_impl_fn(
            item@,
            asyncness,
            item_imports_view(item_imports@),
        ),
{
    let rest = item.rest;
    let (attrs, sig, block) = match handle_fn(
        item.attrs,
        item.sig,
        Some(item.block),
        asyncness,
        item_imports,
    ) {
        Ok(handled) => handled,
        Err(e) => {
            return Err(e);
        },
    };

    let block = block.unwrap();
    Ok(ImplItem::Fn { item: ImplItemFn { attrs, sig, block, rest } })
}

pub fn map_mod_fn(item: ItemFn, asyncness: bool, item_imports: &[ItemImport]) -> (r: Result<
    Item,
    ExpandError,
>)
    requires
        imports_wf(item_imports_view(item_imports@)),
    ensures
        item_result_view(r) == mapped_mod_fn(item@, asyncness, item_imports_view(item_imports@)),
{
    let rest = item.rest;
    let (attrs, sig, block) = match handle_fn(
        item.attrs,
        item.sig,
        Some(*item.block),
        asyncness,
        item_imports,
    ) {
        Ok(handled) => handled,
        Err(e) => {
            return Err(e);
        },
    };

    let block = Box::new(block.unwrap());
    Ok(Item::Fn { item: ItemFn { attrs, sig, block, rest } })
}

} // verus!
