//! The generic parameters of a declaration for the two variants.
use crate::args::{item_imports_view, ItemImport};
use crate::ast::decl::Generics;
use crate::error::ExpandError;
use crate::map::replace_item_name::{
    replace_item_name_in_generics, replaces_from_item_imports, rules_of_imports, subst_generics,
};
use vstd::prelude::*;

verus! {

/// The generic parameters of a declaration for the two variants.
#[derive(Debug, PartialEq, Eq)]
pub struct SyncAsyncGenerics {
    pub sync_generics: Generics,
    pub async_generics: Generics,
}

/// Rewrites the bounds, defaults and predicates of the generic parameters,
/// for each variant by its own imports.
pub fn map_generics(
    generics: Generics,
    item_imports_for_sync: &[ItemImport],
    item_imports_for_async: &[ItemImport],
) -> (r: Result<SyncAsyncGenerics, ExpandError>)
    ensures
        r is Ok,
        r->Ok_0.sync_generics@ == subst_generics(
            generics@,
            rules_of_imports(item_imports_view(item_imports_for_sync@)),
        ),
        r->Ok_0.async_generics@ == subst_generics(
            generics@,
            rules_of_imports(item_imports_view(item_imports_for_async@)),
        ),
{
    let mut sync_generics = generics.duplicate();
    let mut async_generics = generics;
    replace_item_name_in_generics(
        &mut sync_generics,
        &replaces_from_item_imports(item_imports_for_sync),
    );
    replace_item_name_in_generics(
        &mut async_generics,
        &replaces_from_item_imports(item_imports_for_async),
    );

    Ok(SyncAsyncGenerics { sync_generics, async_generics })
}

} // verus!
