//! The rewrite of the items of a namespace or an implementation block.
//!
//! A function is rewritten once for each variant. Any other item goes into
//! both variants as it is.
pub mod map_fn;

use crate::args::{item_imports_view, ItemImport, ItemImportView};
use crate::ast::expr::{items_view, Item, ItemView};
use crate::ast::item::{impl_items_view, ImplItem, ImplItemView};
use crate::ast::token::Tokens;
use crate::error::ExpandError;
use crate::utils::imports_wf;
use map_fn::{map_impl_fn, map_mod_fn, mapped_impl_fn, mapped_mod_fn};
use vstd::pervasive::VecAdditionalExecFns;
use vstd::prelude::*;

verus! {

/// The items of a declaration for the two variants.
#[derive(Debug, PartialEq, Eq)]
pub struct SyncAsyncItems<T> {
    pub sync_items: Vec<T>,
    pub async_items: Vec<T>,
}

/// One item of a namespace for the two variants, the blocking one first. An
/// error of the blocking variant comes before one of the suspending variant.
#[verifier::opaque]
pub open spec fn mapped_mod_item(
    item: ItemView,
    sync_imports: Seq<ItemImportView>,
    async_imports: Seq<ItemImportView>,
) -> Result<(ItemView, ItemView), ExpandError> {
    match item {
        ItemView::Fn { item } => match mapped_mod_fn(item, false, sync_imports) {
            Err(e) => Err(e),
            Ok(sync_item) => match mapped_mod_fn(item, true, async_imports) {
                Err(e) => Err(e),
                Ok(async_item) => Ok((sync_item, async_item)),
            },
        },
        _ => Ok((item, item)),
    }
}

/// The items of a namespace for the two variants, in their order; or the
/// error of the first item that is rejected.
#[verifier::opaque]
pub open spec fn mapped_mod_items(
    items: Seq<ItemView>,
    sync_imports: Seq<ItemImportView>,
    async_imports: Seq<ItemImportView>,
) -> Result<(Seq<ItemView>, Seq<ItemView>), ExpandError>
    decreases items.len(),
{
    if items.len() == 0 {
        Ok((Seq::empty(), Seq::empty()))
    } else {
        match mapped_mod_items(items.drop_last(), sync_imports, async_imports) {
            Err(e) => Err(e),
            Ok((sync_items, async_items)) => match mapped_mod_item(
                items.last(),
                sync_imports,
                async_imports,
            ) {
                Err(e) => Err(e),
                Ok((sync_item, async_item)) => Ok(
                    (sync_items.push(sync_item), async_items.push(async_item)),
                ),
            },
        }
    }
}

/// One item of an implementation block for the two variants.
#[verifier::opaque]
pub open spec fn mapped_impl_item(
    item: ImplItemView,
    sync_imports: Seq<ItemImportView>,
    async_imports: Seq<ItemImportView>,
) -> Result<(ImplItemView, ImplItemView), ExpandError> {
    match item {
        ImplItemView::Fn { item } => match mapped_impl_fn(item, false, sync_imports) {
            Err(e) => Err(e),
            Ok(sync_item) => match mapped_impl_fn(item, true, async_imports) {
                Err(e) => Err(e),
                Ok(async_item) => Ok((sync_item, async_item)),
            },
        },
        _ => Ok((item, item)),
    }
}

/// The items of an implementation block for the two variants, in their
/// order; or the error of the first item that is rejected.
#[verifier::opaque]
pub open spec fn mapped_impl_items(
    items: Seq<ImplItemView>,
    sync_imports: Seq<ItemImportView>,
    async_imports: Seq<ItemImportView>,
) -> Result<(Seq<ImplItemView>, Seq<ImplItemView>), ExpandError>
    decreases items.len(),
{
    if items.len() == 0 {
        Ok((Seq::empty(), Seq::empty()))
    } else {
        match mapped_impl_items(items.drop_last(), sync_imports, async_imports) {
            Err(e) => Err(e),
            Ok((sync_items, async_items)) => match mapped_impl_item(
                items.last(),
                sync_imports,
                async_imports,
            ) {
                Err(e) => Err(e),
                Ok((sync_item, async_item)) => Ok(
                    (sync_items.push(sync_item), async_items.push(async_item)),
                ),
            },
        }
    }
}

/// The view of the items of a namespace for the two variants, or of the
/// error in their place.
pub open spec fn mod_items_result_view(r: Result<SyncAsyncItems<Item>, ExpandError>) -> Result<
    (Seq<ItemView>, Seq<ItemView>),
    ExpandError,
> {
    match r {
        Ok(items) => Ok((items_view(items.sync_items@), items_view(items.async_items@))),
        Err(e) => Err(e),
    }
}

/// The view of the items of an implementation block for the two variants, or
/// of the error in their place.
pub open spec fn impl_items_result_view(r: Result<SyncAsyncItems<ImplItem>, ExpandError>) -> Result<
    (Seq<ImplItemView>, Seq<ImplItemView>),
    ExpandError,
> {
    match r {
        Ok(items) => Ok((impl_items_view(items.sync_items@), impl_items_view(items.async_items@))),
        Err(e) => Err(e),
    }
}

/// One item of a namespace for the two variants.
fn map_mod_item(
    item: Item,
    item_imports_for_sync: &[ItemImport],
    item_imports_for_async: &[ItemImport],
) -> (r: Result<(Item, Item), ExpandError>)
    requires
        imports_wf(item_imports_view(item_imports_for_sync@)),
        imports_wf(item_imports_view(item_imports_for_async@)),
    ensures
        mapped_mod_item(
            item@,
            item_imports_view(item_imports_for_sync@),
            item_imports_view(item_imports_for_async@),
        ) == match r {
            Ok((sync_item, async_item)) => Ok((sync_item@, async_item@)),
            Err(e) => Err(e),
        },
{
    reveal(mapped_mod_item);
    match item {
        Item::Fn { item: item_fn } => {
            let sync_item = match map_mod_fn(item_fn.duplicate(), false, item_imports_for_sync) {
                Ok(item) => item,
                Err(e) => {
                    return Err(e);
                },
            };
            let async_item = match map_mod_fn(item_fn, true, item_imports_for_async) {
                Ok(item) => item,
                Err(e) => {
                    return Err(e);
                },
            };
            Ok((sync_item, async_item))
        },
        _ => Ok((item.duplicate(), item)),
    }
}

/// One item of an implementation block for the two variants.
fn map_impl_item(
    item: ImplItem,
    item_imports_for_sync: &[ItemImport],
    item_imports_for_async: &[ItemImport],
) -> (r: Result<(ImplItem, ImplItem), ExpandError>)
    requires
        imports_wf(item_imports_view(item_imports_for_sync@)),
        imports_wf(item_imports_view(item_imports_for_async@)),
    ensures
        mapped_impl_item(
            item@,
            item_imports_view(item_imports_for_sync@),
            item_imports_view(item_imports_for_async@),
        ) == match r {
            Ok((sync_item, async_item)) => Ok((sync_item@, async_item@)),
            Err(e) => Err(e),
        },
{
    reveal(mapped_impl_item);
    match item {
        ImplItem::Fn { item: item_fn } => {
            let sync_item = match map_impl_fn(item_fn.clone(), false, item_imports_for_sync) {
                Ok(item) => item,
                Err(e) => {
                    return Err(e);
                },
            };
            let async_item = match map_impl_fn(item_fn, true, item_imports_for_async) {
                Ok(item) => item,
                Err(e) => {
                    return Err(e);
                },
            };
            Ok((sync_item, async_item))
        },
        _ => Ok((item.clone(), item)),
    }
}

pub fn map_mod_items(
    items: Vec<Item>,
    item_imports_for_sync: &[ItemImport],
    item_imports_for_async: &[ItemImport],
) -> (r: Result<SyncAsyncItems<Item>, ExpandError>)
    requires
        imports_wf(item_imports_view(item_imports_for_sync@)),
        imports_wf(item_imports_view(item_imports_for_async@)),
    ensures
        mod_items_result_view(r) == mapped_mod_items(
            items_view(items@),
            item_imports_view(item_imports_for_sync@),
            item_imports_view(item_imports_for_async@),
        ),
{
    let ghost all = items_view(items@);
    let ghost si = item_imports_view(item_imports_for_sync@);
    let ghost ai = item_imports_view(item_imports_for_async@);
    let ghost mut sync_done: Seq<ItemView> = Seq::empty();
    let ghost mut async_done: Seq<ItemView> = Seq::empty();
    let mut left = items;
    let mut sync_items: Vec<Item> = Vec::new();
    let mut async_items: Vec<Item> = Vec::new();
    let n = left.len();
    let mut i: usize = 0;
    proof {
        reveal(mapped_mod_items);
        assert(all.subrange(0, 0) =~= Seq::empty());
    }
    while i < n
        invariant
            i <= n,
            n == left.len(),
            all == items_view(items@),
            si == item_imports_view(item_imports_for_sync@),
            ai == item_imports_view(item_imports_for_async@),
            imports_wf(si),
            imports_wf(ai),
            all.len() == n,
            forall|j: int| i <= j < n ==> (#[trigger] left[j])@ == all[j],
            mapped_mod_items(all.subrange(0, i as int), si, ai) == Ok::<
                (Seq<ItemView>, Seq<ItemView>),
                ExpandError,
            >((sync_done, async_done)),
            sync_done.len() == sync_items.len(),
            async_done.len() == async_items.len(),
            forall|j: int| 0 <= j < sync_done.len() ==> (#[trigger] sync_items[j])@ == sync_done[j],
            forall|j: int|
                0 <= j < async_done.len() ==> (#[trigger] async_items[j])@ == async_done[j],
        decreases n - i,
    {
        let mut item = Item::Verbatim { rest: Tokens::none() };
        left.set_and_swap(i, &mut item);
        assert(item@ == all[i as int]);
        proof {
            lemma_mapped_mod_items_next(all, i as int, si, ai);
        }
        match map_mod_item(item, item_imports_for_sync, item_imports_for_async) {
            Err(e) => {
                proof {
                    lemma_mapped_mod_items_error(all, i as int, si, ai);
                }
                return Err(e);
            },
            Ok((sync_item, async_item)) => {
                proof {
                    sync_done = sync_done.push(sync_item@);
                    async_done = async_done.push(async_item@);
                }
                sync_items.push(sync_item);
                async_items.push(async_item);
            },
        }
        i += 1;
    }
    assert(all.subrange(0, n as int) =~= all);
    assert(items_view(sync_items@) =~= sync_done);
    assert(items_view(async_items@) =~= async_done);
    Ok(SyncAsyncItems { sync_items, async_items })
}

/// What one more item adds to the items of the two variants.
proof fn lemma_mapped_mod_items_next(
    all: Seq<ItemView>,
    i: int,
    si: Seq<ItemImportView>,
    ai: Seq<ItemImportView>,
)
    requires
        0 <= i < all.len(),
    ensures
        mapped_mod_items(all.subrange(0, i + 1), si, ai) == match mapped_mod_items(
            all.subrange(0, i),
            si,
            ai,
        ) {
            Err(e) => Err(e),
            Ok((sync_items, async_items)) => match mapped_mod_item(all[i], si, ai) {
                Err(e) => Err(e),
                Ok((sync_item, async_item)) => Ok(
                    (sync_items.push(sync_item), async_items.push(async_item)),
                ),
            },
        },
{
    reveal(mapped_mod_items);
    assert(all.subrange(0, i + 1).drop_last() =~= all.subrange(0, i));
    assert(all.subrange(0, i + 1).last() == all[i]);
}

/// An error among the first items is the error of all items.
proof fn lemma_mapped_mod_items_error(
    all: Seq<ItemView>,
    i: int,
    si: Seq<ItemImportView>,
    ai: Seq<ItemImportView>,
)
    requires
        0 <= i < all.len(),
        mapped_mod_items(all.subrange(0, i + 1), si, ai) is Err,
    ensures
        mapped_mod_items(all, si, ai) == mapped_mod_items(all.subrange(0, i + 1), si, ai),
    decreases all.len(),
{
    reveal(mapped_mod_items);
    if i + 1 < all.len() {
        assert(all.drop_last().subrange(0, i + 1) =~= all.subrange(0, i + 1));
        lemma_mapped_mod_items_error(all.drop_last(), i, si, ai);
    } else {
        assert(all.subrange(0, i + 1) =~= all);
    }
}

/// Whether each of `sync_items` and `async_items` holds, place by place,
/// what the item of `items` at that place gives for its variant.
pub open spec fn each_mod_item_mapped(
    items: Seq<ItemView>,
    si: Seq<ItemImportView>,
    ai: Seq<ItemImportView>,
    sync_items: Seq<ItemView>,
    async_items: Seq<ItemView>,
) -> bool {
    &&& sync_items.len() == items.len()
    &&& async_items.len() == items.len()
    &&& forall|i: int|
        0 <= i < items.len() ==> #[trigger] mapped_mod_item(items[i], si, ai) == Ok::<
            (ItemView, ItemView),
            ExpandError,
        >((sync_items[i], async_items[i]))
}

/// The items of a namespace are rewritten one by one: where the namespace
/// is not rejected, each variant has as many items as the namespace, and the
/// item at a place is what the item of the namespace at that place gives.
pub proof fn lemma_mod_items_one_by_one(
    items: Seq<ItemView>,
    si: Seq<ItemImportView>,
    ai: Seq<ItemImportView>,
)
    ensures
        mapped_mod_items(items, si, ai) matches Ok((sync_items, async_items))
            ==> each_mod_item_mapped(items, si, ai, sync_items, async_items),
    decreases items.len(),
{
    reveal(mapped_mod_items);
    if items.len() > 0 {
        let first = items.drop_last();
        lemma_mod_items_one_by_one(first, si, ai);
        if let Ok((sync_items, async_items)) = mapped_mod_items(items, si, ai) {
            assert forall|i: int| 0 <= i < items.len() implies #[trigger] mapped_mod_item(
                items[i],
                si,
                ai,
            ) == Ok::<(ItemView, ItemView), ExpandError>((sync_items[i], async_items[i])) by {
                if i < first.len() {
                    assert(items[i] == first[i]);
                }
            }
        }
    }
}

pub fn map_impl_items(
    items: Vec<ImplItem>,
    item_imports_for_sync: &[ItemImport],
    item_imports_for_async: &[ItemImport],
) -> (r: Result<SyncAsyncItems<ImplItem>, ExpandError>)
    requires
        imports_wf(item_imports_view(item_imports_for_sync@)),
        imports_wf(item_imports_view(item_imports_for_async@)),
    ensures
        impl_items_result_view(r) == mapped_impl_items(
            impl_items_view(items@),
            item_imports_view(item_imports_for_sync@),
            item_imports_view(item_imports_for_async@),
        ),
{
    let ghost all = impl_items_view(items@);
    let ghost si = item_imports_view(item_imports_for_sync@);
    let ghost ai = item_imports_view(item_imports_for_async@);
    let ghost mut sync_done: Seq<ImplItemView> = Seq::empty();
    let ghost mut async_done: Seq<ImplItemView> = Seq::empty();
    let mut left = items;
    let mut sync_items: Vec<ImplItem> = Vec::new();
    let mut async_items: Vec<ImplItem> = Vec::new();
    let n = left.len();
    let mut i: usize = 0;
    proof {
        reveal(mapped_impl_items);
        assert(all.subrange(0, 0) =~= Seq::empty());
    }
    while i < n
        invariant
            i <= n,
            n == left.len(),
            all == impl_items_view(items@),
            si == item_imports_view(item_imports_for_sync@),
            ai == item_imports_view(item_imports_for_async@),
            imports_wf(si),
            imports_wf(ai),
            all.len() == n,
            forall|j: int| i <= j < n ==> (#[trigger] left[j])@ == all[j],
            mapped_impl_items(all.subrange(0, i as int), si, ai) == Ok::<
                (Seq<ImplItemView>, Seq<ImplItemView>),
                ExpandError,
            >((sync_done, async_done)),
            sync_done.len() == sync_items.len(),
            async_done.len() == async_items.len(),
            forall|j: int| 0 <= j < sync_done.len() ==> (#[trigger] sync_items[j])@ == sync_done[j],
            forall|j: int|
                0 <= j < async_done.len() ==> (#[trigger] async_items[j])@ == async_done[j],
        decreases n - i,
    {
        let mut item = ImplItem::Other { rest: Tokens::none() };
        left.set_and_swap(i, &mut item);
        assert(item@ == all[i as int]);
        proof {
            lemma_mapped_impl_items_next(all, i as int, si, ai);
        }
        match map_impl_item(item, item_imports_for_sync, item_imports_for_async) {
            Err(e) => {
                proof {
                    lemma_mapped_impl_items_error(all, i as int, si, ai);
                }
                return Err(e);
            },
            Ok((sync_item, async_item)) => {
                proof {
                    sync_done = sync_done.push(sync_item@);
                    async_done = async_done.push(async_item@);
                }
                sync_items.push(sync_item);
                async_items.push(async_item);
            },
        }
        i += 1;
    }
    assert(all.subrange(0, n as int) =~= all);
    assert(impl_items_view(sync_items@) =~= sync_done);
    assert(impl_items_view(async_items@) =~= async_done);
    Ok(SyncAsyncItems { sync_items, async_items })
}

/// What one more item adds to the items of the two variants.
proof fn lemma_mapped_impl_items_next(
    all: Seq<ImplItemView>,
    i: int,
    si: Seq<ItemImportView>,
    ai: Seq<ItemImportView>,
)
    requires
        0 <= i < all.len(),
    ensures
        mapped_impl_items(all.subrange(0, i + 1), si, ai) == match mapped_impl_items(
            all.subrange(0, i),
            si,
            ai,
        ) {
            Err(e) => Err(e),
            Ok((sync_items, async_items)) => match mapped_impl_item(all[i], si, ai) {
                Err(e) => Err(e),
                Ok((sync_item, async_item)) => Ok(
                    (sync_items.push(sync_item), async_items.push(async_item)),
                ),
            },
        },
{
    reveal(mapped_impl_items);
    assert(all.subrange(0, i + 1).drop_last() =~= all.subrange(0, i));
    assert(all.subrange(0, i + 1).last() == all[i]);
}

/// An error among the first items is the error of all items.
proof fn lemma_mapped_impl_items_error(
    all: Seq<ImplItemView>,
    i: int,
    si: Seq<ItemImportView>,
    ai: Seq<ItemImportView>,
)
    requires
        0 <= i < all.len(),
        mapped_impl_items(all.subrange(0, i + 1), si, ai) is Err,
    ensures
        mapped_impl_items(all, si, ai) == mapped_impl_items(all.subrange(0, i + 1), si, ai),
    decreases all.len(),
{
    reveal(mapped_impl_items);
    if i + 1 < all.len() {
        assert(all.drop_last().subrange(0, i + 1) =~= all.subrange(0, i + 1));
        lemma_mapped_impl_items_error(all.drop_last(), i, si, ai);
    } else {
        assert(all.subrange(0, i + 1) =~= all);
    }
}

} // verus!
