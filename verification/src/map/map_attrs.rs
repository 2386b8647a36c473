//! The annotations of a declaration for the two variants.
use crate::args::{item_imports_view, ItemImport};
use crate::ast::attr::{attrs_view, clone_attrs, Attribute};
use crate::error::ExpandError;
use crate::map::replace_item_name::{replaces_from_item_imports, rules_of_imports};
use crate::map::replace_item_name_in_doc::{redirected_attrs, replace_item_name_in_doc};
use vstd::prelude::*;

verus! {

/// The annotations of a declaration for the two variants.
#[derive(Debug, PartialEq, Eq)]
pub struct SyncAsyncAttrs {
    pub sync_attrs: Vec<Attribute>,
    pub async_attrs: Vec<Attribute>,
}

/// Redirects the links of the documentation, for each variant by its own
/// imports.
pub fn map_attrs(
    attrs: Vec<Attribute>,
    item_imports_for_sync: &[ItemImport],
    item_imports_for_async: &[ItemImport],
) -> (r: Result<SyncAsyncAttrs, ExpandError>)
    ensures
        r is Ok,
        attrs_view(r->Ok_0.sync_attrs@) == redirected_attrs(
            attrs_view(attrs@),
            rules_of_imports(item_imports_view(item_imports_for_sync@)),
        ),
        attrs_view(r->Ok_0.async_attrs@) == redirected_attrs(
            attrs_view(attrs@),
            rules_of_imports(item_imports_view(item_imports_for_async@)),
        ),
{
    let mut sync_attrs = clone_attrs(&attrs);
    let mut async_attrs = attrs;
    replace_item_name_in_doc(&mut sync_attrs, &replaces_from_item_imports(item_imports_for_sync));
    replace_item_name_in_doc(&mut async_attrs, &replaces_from_item_imports(item_imports_for_async));

    Ok(SyncAsyncAttrs { sync_attrs, async_attrs })
}

} // verus!
