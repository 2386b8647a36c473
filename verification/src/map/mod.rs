//! The rewrites that turn one declaration into its two variants.
pub mod map_attrs;
pub mod map_fields;
pub mod map_generics;
pub mod map_items;
pub mod map_type;
pub mod replace_item_name;
pub mod replace_item_name_in_doc;
pub mod replace_item_name_in_doc_laws;
pub mod replace_item_name_laws;
pub mod utf8_pieces;

pub use replace_item_name::{
    replace_item_name_in_field, replace_item_name_in_fields, replace_item_name_in_fn_arg,
    replace_item_name_in_generic_arguments, replace_item_name_in_generics,
    replace_item_name_in_macro, replace_item_name_in_pat, replace_item_name_in_path,
    replace_item_name_in_path_arguments, replace_item_name_in_return_type,
    replace_item_name_in_signature, replace_item_name_in_type,
    replace_item_name_in_type_param_bound, replace_item_name_in_where_predicates,
    replaces_from_item_imports, ReplaceItemNameFromTo,
};
pub use replace_item_name_in_doc::{
    find_closing, find_type, replace_item_name_in_doc, replace_item_name_in_text, trim_range,
    ItemInDoc,
};
pub use map_attrs::{map_attrs, SyncAsyncAttrs};
pub use map_fields::{map_fields, SyncAsyncFields};
pub use map_generics::{map_generics, SyncAsyncGenerics};
pub use map_items::map_fn::{
    get_attrs_mut_from_expr, get_attrs_mut_from_item, get_attrs_mut_from_stmt, handle_fn,
    map_impl_fn, map_mod_fn, remove_await_from_block, remove_await_from_expr,
    remove_await_from_expr_await, remove_await_from_local, remove_await_from_stmt,
};
pub use map_items::{map_impl_items, map_mod_items, SyncAsyncItems};
pub use map_type::{map_type, map_type_to_ident, SyncAsyncIdentOfType, SyncAsyncType};
