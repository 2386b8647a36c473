//! The fields of a record type for the two variants.
use crate::args::{item_imports_view, ItemImport};
use crate::ast::decl::Fields;
use crate::error::ExpandError;
use crate::map::replace_item_name::{
    replace_item_name_in_fields, replaces_from_item_imports, rules_of_imports, subst_fields,
};
use vstd::prelude::*;

verus! {

/// The fields of a record type for the two variants.
#[derive(Debug, PartialEq, Eq)]
pub struct SyncAsyncFields {
    pub sync_fields: Fields,
    pub async_fields: Fields,
}

/// Rewrites the types of the fields, for each variant by its own imports.
pub fn map_fields(
    fields: Fields,
    item_imports_for_sync: &[ItemImport],
    item_imports_for_async: &[ItemImport],
) -> (r: Result<SyncAsyncFields, ExpandError>)
    ensures
        r is Ok,
        r->Ok_0.sync_fields@ == subst_fields(
            fields@,
            rules_of_imports(item_imports_view(item_imports_for_sync@)),
        ),
        r->Ok_0.async_fields@ == subst_fields(
            fields@,
            rules_of_imports(item_imports_view(item_imports_for_async@)),
        ),
{
    let mut sync_fields = fields.duplicate();
    let mut async_fields = fields;
    replace_item_name_in_fields(&mut sync_fields, &replaces_from_item_imports(item_imports_for_sync));
    replace_item_name_in_fields(
        &mut async_fields,
        &replaces_from_item_imports(item_imports_for_async),
    );

    Ok(SyncAsyncFields { sync_fields, async_fields })
}

} // verus!
