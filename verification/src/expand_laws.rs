//! What holds of the two variants of a namespace, for every namespace.
use crate::args::ItemImportView;
use crate::error::ExpandError;
use crate::ast::expr::{ItemView, StmtView};
use crate::ast::item::ItemModView;
use crate::map::map_items::map_fn::handle_fn_laws::{
    lemma_body_opens_with_imports, opens_with_imports,
};
use crate::map::map_items::map_fn::mapped_mod_fn;
use crate::map::map_items::{
    each_mod_item_mapped, lemma_mod_items_one_by_one, mapped_mod_item, mapped_mod_items,
};
use crate::{expanded_mod, self_import, use_items, variant_name, ExpandedView};
use vstd::prelude::*;

verus! {

/// The items of a namespace; none where it has no braces.
pub open spec fn items_of(item: ItemModView) -> Seq<ItemView> {
    match item.content {
        Some(items) => items,
        None => Seq::empty(),
    }
}

/// The imports of a variant of a namespace: the imports that were given for
/// the variant, and behind them the import that lets the variant, whose name
/// starts with `prefix`, go by the name of the namespace.
pub open spec fn table_of(
    item: ItemModView,
    prefix: Seq<char>,
    imports: Seq<ItemImportView>,
) -> Seq<ItemImportView> {
    imports.push(self_import(variant_name(prefix, item.ident), item.ident))
}

/// Whether `content` is the imports, one `use` item each and in their order,
/// and behind them `items`.
pub open spec fn opens_with_use_items(
    content: Option<Seq<ItemView>>,
    imports: Seq<ItemImportView>,
    items: Seq<ItemView>,
) -> bool {
    content == Some(use_items(imports) + items)
}

/// A variant of a namespace opens with the imports that were given for it.
/// Behind them it holds the items of the namespace, in their order, each
/// rewritten with the imports of the variant and the import of the name of
/// the namespace.
pub proof fn lemma_namespace_holds_imports_and_items(
    item: ItemModView,
    si: Seq<ItemImportView>,
    ai: Seq<ItemImportView>,
)
    ensures
        expanded_mod(item, si, ai) matches Ok(ExpandedView::Mod { sync_item, async_item })
            ==> exists|sync_items: Seq<ItemView>, async_items: Seq<ItemView>| #[trigger]
            each_mod_item_mapped(
                items_of(item),
                table_of(item, "sync_"@, si),
                table_of(item, "async_"@, ai),
                sync_items,
                async_items,
            ) && opens_with_use_items(sync_item.content, si, sync_items) && opens_with_use_items(
                async_item.content,
                ai,
                async_items,
            ),
{
    let sync_table = table_of(item, "sync_"@, si);
    let async_table = table_of(item, "async_"@, ai);
    lemma_mod_items_one_by_one(items_of(item), sync_table, async_table);
    if let Ok((sync_items, async_items)) = mapped_mod_items(
        items_of(item),
        sync_table,
        async_table,
    ) {
        assert(each_mod_item_mapped(
            items_of(item),
            sync_table,
            async_table,
            sync_items,
            async_items,
        ));
    }
}

/// Whether `content` holds `n` items, the one at `i` a function whose body
/// is one `use` statement for `alias` and behind it what stays of `stmts`.
pub open spec fn function_imports_alias_only(
    content: Option<Seq<ItemView>>,
    n: nat,
    i: int,
    alias: ItemImportView,
    stmts: Seq<StmtView>,
) -> bool {
    match content {
        Some(items) => items.len() == n && match items[i] {
            ItemView::Fn { item } => opens_with_imports(*item.block, seq![alias], stmts),
            _ => false,
        },
        None => false,
    }
}

/// A namespace that is given no imports imports nothing but its own name:
/// each variant holds as many items as the namespace, and the body of each
/// of its functions opens with one `use` statement, which lets the variant
/// go by the name of the namespace.
pub proof fn lemma_namespace_imports_its_name_only(item: ItemModView, i: int)
    requires
        0 <= i < items_of(item).len(),
        items_of(item)[i] is Fn,
    ensures
        expanded_mod(item, Seq::empty(), Seq::empty()) matches Ok(
            ExpandedView::Mod { sync_item, async_item },
        ) ==> function_imports_alias_only(
            sync_item.content,
            items_of(item).len(),
            i,
            self_import(variant_name("sync_"@, item.ident), item.ident),
            items_of(item)[i]->Fn_item.block.stmts,
        ) && function_imports_alias_only(
            async_item.content,
            items_of(item).len(),
            i,
            self_import(variant_name("async_"@, item.ident), item.ident),
            items_of(item)[i]->Fn_item.block.stmts,
        ),
{
    let none = Seq::<ItemImportView>::empty();
    let sync_table = table_of(item, "sync_"@, none);
    let async_table = table_of(item, "async_"@, none);
    let all = items_of(item);
    let f = all[i]->Fn_item;
    assert(sync_table =~= seq![self_import(variant_name("sync_"@, item.ident), item.ident)]);
    assert(async_table =~= seq![self_import(variant_name("async_"@, item.ident), item.ident)]);
    lemma_mod_items_one_by_one(all, sync_table, async_table);
    if let Ok((sync_items, async_items)) = mapped_mod_items(all, sync_table, async_table) {
        reveal(mapped_mod_item);
        assert(mapped_mod_item(all[i], sync_table, async_table) == Ok::<
            (ItemView, ItemView),
            ExpandError,
        >((sync_items[i], async_items[i])));
        assert(mapped_mod_fn(f, false, sync_table) == Ok::<ItemView, ExpandError>(
            sync_items[i],
        ));
        assert(mapped_mod_fn(f, true, async_table) == Ok::<ItemView, ExpandError>(
            async_items[i],
        ));
        lemma_body_opens_with_imports(f.attrs, f.sig, *f.block, false, sync_table);
        lemma_body_opens_with_imports(f.attrs, f.sig, *f.block, true, async_table);
        assert(use_items(none) + sync_items =~= sync_items);
        assert(use_items(none) + async_items =~= async_items);
    }
}

} // verus!
