//! Duplicates one annotated declaration into a blocking and a suspending
//! variant.
//!
//! A namespace, an implementation block or a record type is written once,
//! with markers on its functions and statements, and comes out twice: once
//! for blocking code and once for suspending code. Each variant has a name of
//! its own, and its own imports decide what the names inside it stand for.
pub mod args;
pub mod ast;
pub mod error;
pub mod expand_laws;
pub mod map;
pub mod utils;

use crate::args::{item_imports_view, ItemImportView};
use crate::ast::attr::{attrs_view, Attribute, AttributeView, Meta, MetaView};
use crate::ast::expr::{items_view, Item, ItemView};
use crate::ast::item::{
    content_view, ItemImpl, ItemImplView, ItemMod, ItemModView, ItemStruct, ItemStructView,
};
use crate::ast::token::{idents_view, Ident, IdentView, Span, Tokens};
use crate::ast::ty::{Path, PathArguments, PathArgumentsView, PathSegment, PathSegmentView, PathView};
use crate::ast::use_tree::{item_uses_view, ItemUse, UseTree};
use crate::map::map_attrs::map_attrs;
use crate::map::map_fields::map_fields;
use crate::map::map_generics::map_generics;
use crate::map::map_items::{
    map_impl_items, map_mod_items, mapped_impl_items, mapped_mod_items,
};
use crate::map::map_type::{
    are_self_names, map_type_with_names, not_a_name, renamed_type, self_names,
};
use crate::map::replace_item_name::{rules_of_imports, subst_fields, subst_generics};
use crate::map::replace_item_name_in_doc::redirected_attrs;
use crate::utils::{imports_wf, item_uses_from_item_imports, item_uses_of, PathWithoutArgsView};
use vstd::pervasive::VecAdditionalExecFns;
use vstd::prelude::*;
use vstd::string::{StrSliceExecFns, StringExecFns};

pub use args::{item_imports_from_use_tree, Args, Availability, ItemImport};
pub use error::{ErrorKind, ExpandError};
pub use utils::PathWithoutArgs;

verus! {

/// The declaration that is to be duplicated.
#[derive(Debug, PartialEq, Eq)]
#[allow(inconsistent_fields)]
pub enum Declaration {
    /// A namespace.
    Mod { item: ItemMod },
    /// An implementation block, with its self type as it is written, token
    /// by token.
    Impl { item: ItemImpl, self_ty: String },
    /// A record type.
    Struct { item: ItemStruct },
    /// Anything else, written at `span`.
    Other { span: Span },
}

/// The two variants of a declaration.
#[derive(Debug, PartialEq, Eq)]
#[allow(inconsistent_fields)]
pub enum Expanded {
    Mod { sync_item: ItemMod, async_item: ItemMod },
    Impl { sync_item: ItemImpl, async_item: ItemImpl },
    Struct { sync_item: ItemStruct, async_item: ItemStruct },
}

#[allow(inconsistent_fields)]
pub enum ExpandedView {
    Mod { sync_item: ItemModView, async_item: ItemModView },
    Impl { sync_item: ItemImplView, async_item: ItemImplView },
    Struct { sync_item: ItemStructView, async_item: ItemStructView },
}

impl View for Expanded {
    type V = ExpandedView;

    open spec fn view(&self) -> ExpandedView {
        match self {
            Expanded::Mod { sync_item, async_item } => ExpandedView::Mod {
                sync_item: sync_item@,
                async_item: async_item@,
            },
            Expanded::Impl { sync_item, async_item } => ExpandedView::Impl {
                sync_item: sync_item@,
                async_item: async_item@,
            },
            Expanded::Struct { sync_item, async_item } => ExpandedView::Struct {
                sync_item: sync_item@,
                async_item: async_item@,
            },
        }
    }
}

/// A name without the `r#` that marks a raw identifier.
pub open spec fn without_raw(name: Seq<char>) -> Seq<char> {
    if name.len() >= 2 && name[0] == 'r' && name[1] == '#' {
        name.subrange(2, name.len() as int)
    } else {
        name
    }
}

/// The name of a variant: the name of the declaration behind a prefix,
/// written where the declaration has its name.
pub open spec fn variant_name(prefix: Seq<char>, ident: IdentView) -> IdentView {
    IdentView { name: prefix + without_raw(ident.name), span: ident.span }
}

/// The import by which a variant goes by the name of the declaration.
pub open spec fn self_import(variant: IdentView, ident: IdentView) -> ItemImportView {
    ItemImportView {
        path: PathWithoutArgsView { leading_colon: false, segments: seq![variant] },
        alias: Some(ident),
    }
}

/// The name of a variant of a declaration.
pub fn variant_ident(prefix: &str, ident: &Ident) -> (r: Ident)
    ensures
        r@ == variant_name(prefix@, ident@),
{
    let name = ident.name.as_str();
    let n = name.unicode_len();
    let mut text = prefix.to_owned();
    if n >= 2 && name.get_char(0) == 'r' && name.get_char(1) == '#' {
        text.append(name.substring_char(2, n));
    } else {
        text.append(name);
    }
    Ident { name: text, span: ident.span }
}

/// The import by which a variant goes by the name of the declaration.
fn self_item_import(variant: &Ident, ident: &Ident) -> (r: ItemImport)
    ensures
        r@ == self_import(variant@, ident@),
{
    let mut segments: Vec<Ident> = Vec::new();
    segments.push(variant.clone());
    assert(idents_view(segments@) =~= seq![variant@]);
    ItemImport {
        path: PathWithoutArgs::from_idents(segments, false),
        alias: Some(ident.clone()),
    }
}

/// Adds an import at the end of a list of imports.
fn push_import(imports: &mut Vec<ItemImport>, import: ItemImport)
    requires
        imports_wf(item_imports_view(old(imports)@)),
        import@.path.segments.len() > 0,
    ensures
        item_imports_view(final(imports)@) == item_imports_view(old(imports)@).push(import@),
        imports_wf(item_imports_view(final(imports)@)),
{
    let ghost before = item_imports_view(imports@);
    imports.push(import);
    assert(item_imports_view(imports@) =~= before.push(import@));
    assert forall|i: int| 0 <= i < imports.len() implies (#[trigger] item_imports_view(
        imports@,
    )[i]).path.segments.len() > 0 by {
        if i < before.len() {
            assert(item_imports_view(imports@)[i] == before[i]);
        }
    }
}

/// The path that is one name, written nowhere in the source.
pub open spec fn plain_path(name: Seq<char>) -> PathView {
    PathView {
        leading_colon: false,
        segments: seq![
            PathSegmentView {
                ident: IdentView { name, span: Span::call_site() },
                arguments: PathArgumentsView::Empty,
            },
        ],
    }
}

/// `#[allow(unused_imports)]`: a variant need not use every import that it
/// opens with.
pub open spec fn allow_unused_imports_view() -> AttributeView {
    AttributeView {
        span: Span::call_site(),
        meta: MetaView::Words {
            path: plain_path("allow"@),
            words: seq![IdentView { name: "unused_imports"@, span: Span::call_site() }],
        },
        rest: Tokens::none(),
    }
}

/// `#[allow(unused_imports)]`
pub fn allow_unused_imports() -> (r: Attribute)
    ensures
        r@ == allow_unused_imports_view(),
{
    let mut segments: Vec<PathSegment> = Vec::new();
    segments.push(
        PathSegment { ident: Ident::new("allow", Span::call_site()), arguments: PathArguments::Empty },
    );
    let mut words: Vec<Ident> = Vec::new();
    words.push(Ident::new("unused_imports", Span::call_site()));
    let r = Attribute {
        span: Span::call_site(),
        meta: Meta::Words { path: Path { leading_colon: false, segments }, words },
        rest: Tokens::none(),
    };
    assert(r@.meta->Words_path.segments =~= plain_path("allow"@).segments);
    assert(r@.meta->Words_words =~= allow_unused_imports_view().meta->Words_words);
    r
}

/// Adds `#[allow(unused_imports)]` behind the annotations.
fn push_allow_unused_imports(attrs: &mut Vec<Attribute>)
    ensures
        attrs_view(final(attrs)@) == attrs_view(old(attrs)@).push(allow_unused_imports_view()),
{
    let ghost before = attrs_view(attrs@);
    attrs.push(allow_unused_imports());
    assert(attrs_view(attrs@) =~= before.push(allow_unused_imports_view()));
}

/// The imports as the items that open a namespace.
pub open spec fn use_items(imports: Seq<ItemImportView>) -> Seq<ItemView> {
    Seq::new(imports.len(), |i: int| ItemView::Use { item: item_uses_of(imports)[i] })
}

/// The imports as the items that open a namespace.
fn use_items_from_item_imports(item_imports: &[ItemImport]) -> (r: Vec<Item>)
    requires
        imports_wf(item_imports_view(item_imports@)),
    ensures
        items_view(r@) == use_items(item_imports_view(item_imports@)),
{
    let ghost imports = item_imports_view(item_imports@);
    let mut items: Vec<Item> = Vec::new();
    let mut uses = item_uses_from_item_imports(item_imports);
    let m = uses.len();
    let mut u: usize = 0;
    assert(item_uses_view(uses@).len() == m);
    assert forall|j: int| 0 <= j < m implies (#[trigger] uses[j])@ == item_uses_of(imports)[j] by {
        assert(item_uses_view(uses@)[j] == uses[j]@);
    }
    while u < m
        invariant
            u <= m,
            m == uses.len(),
            m == imports.len(),
            items.len() == u,
            forall|j: int| 0 <= j < u ==> (#[trigger] items[j])@ == use_items(imports)[j],
            forall|j: int| u <= j < m ==> (#[trigger] uses[j])@ == item_uses_of(imports)[j],
        decreases m - u,
    {
        let mut item_use = ItemUse {
            attrs: Vec::new(),
            leading_colon: false,
            tree: UseTree::Glob { span: Span::call_site() },
        };
        uses.set_and_swap(u, &mut item_use);
        items.push(Item::Use { item: item_use });
        u += 1;
    }
    assert(items_view(items@) =~= use_items(imports));
    items
}

/// The two variants of a namespace `name`: `sync_name` and `async_name`.
///
/// The imports of a variant are the imports that were given for it, and
/// behind them the import that lets the variant go by the name of the
/// namespace. They redirect the links of the documentation of the namespace,
/// and the functions of the namespace are rewritten with them: each body
/// opens with one `use` statement for each of them. The namespace itself
/// still opens with the imports that were given, one `use` item each, without
/// the import of its own name, and is allowed not to use them all.
pub open spec fn expanded_mod(
    item: ItemModView,
    sync_imports: Seq<ItemImportView>,
    async_imports: Seq<ItemImportView>,
) -> Result<ExpandedView, ExpandError> {
    let sync_ident = variant_name("sync_"@, item.ident);
    let async_ident = variant_name("async_"@, item.ident);
    let items = match item.content {
        Some(items) => items,
        None => Seq::empty(),
    };
    let sync_table = sync_imports.push(self_import(sync_ident, item.ident));
    let async_table = async_imports.push(self_import(async_ident, item.ident));
    match mapped_mod_items(items, sync_table, async_table) {
        Err(e) => Err(e),
        Ok((sync_items, async_items)) => Ok(
            ExpandedView::Mod {
                sync_item: ItemModView {
                    attrs: redirected_attrs(item.attrs, rules_of_imports(sync_table)).push(
                        allow_unused_imports_view(),
                    ),
                    ident: sync_ident,
                    content: Some(use_items(sync_imports) + sync_items),
                    rest: item.rest,
                },
                async_item: ItemModView {
                    attrs: redirected_attrs(item.attrs, rules_of_imports(async_table)).push(
                        allow_unused_imports_view(),
                    ),
                    ident: async_ident,
                    content: Some(use_items(async_imports) + async_items),
                    rest: item.rest,
                },
            },
        ),
    }
}

/// The view of the two variants, or of the error in their place.
pub open spec fn expanded_view(r: Result<Expanded, ExpandError>) -> Result<
    ExpandedView,
    ExpandError,
> {
    match r {
        Ok(expanded) => Ok(expanded@),
        Err(e) => Err(e),
    }
}

/// Duplicates a namespace.
pub fn expand_mod(item: ItemMod, args: Args) -> (r: Result<Expanded, ExpandError>)
    requires
        imports_wf(item_imports_view(args.item_imports_for_sync@)),
        imports_wf(item_imports_view(args.item_imports_for_async@)),
    ensures
        expanded_view(r) == expanded_mod(
            item@,
            item_imports_view(args.item_imports_for_sync@),
            item_imports_view(args.item_imports_for_async@),
        ),
{
    let rest = item.rest;
    let mut sync_content = use_items_from_item_imports(args.item_imports_for_sync.as_slice());
    let mut async_content = use_items_from_item_imports(args.item_imports_for_async.as_slice());
    let ghost sync_uses = items_view(sync_content@);
    let ghost async_uses = items_view(async_content@);

    let sync_ident = variant_ident("sync_", &item.ident);
    let async_ident = variant_ident("async_", &item.ident);
    let mut item_imports_for_sync = args.item_imports_for_sync;
    let mut item_imports_for_async = args.item_imports_for_async;
    push_import(&mut item_imports_for_sync, self_item_import(&sync_ident, &item.ident));
    push_import(&mut item_imports_for_async, self_item_import(&async_ident, &item.ident));

    let attrs = match map_attrs(
        item.attrs,
        item_imports_for_sync.as_slice(),
        item_imports_for_async.as_slice(),
    ) {
        Ok(attrs) => attrs,
        Err(e) => {
            return Err(e);
        },
    };
    let mut attrs = attrs;
    push_allow_unused_imports(&mut attrs.sync_attrs);
    push_allow_unused_imports(&mut attrs.async_attrs);
    let content = match item.content {
        Some(content) => content,
        None => Vec::new(),
    };
    assert(items_view(content@) =~= match content_view(item.content) {
        Some(items) => items,
        None => Seq::empty(),
    });

    let mut items = match map_mod_items(
        content,
        item_imports_for_sync.as_slice(),
        item_imports_for_async.as_slice(),
    ) {
        Ok(items) => items,
        Err(e) => {
            return Err(e);
        },
    };
    let ghost sync_items = items_view(items.sync_items@);
    let ghost async_items = items_view(items.async_items@);
    sync_content.append(&mut items.sync_items);
    async_content.append(&mut items.async_items);
    assert(items_view(sync_content@) =~= sync_uses + sync_items);
    assert(items_view(async_content@) =~= async_uses + async_items);

    Ok(
        Expanded::Mod {
            sync_item: ItemMod {
                attrs: attrs.sync_attrs,
                ident: sync_ident,
                content: Some(sync_content),
                rest,
            },
            async_item: ItemMod {
                attrs: attrs.async_attrs,
                ident: async_ident,
                content: Some(async_content),
                rest,
            },
        },
    )
}

/// The two variants of an implementation block for a type that goes by the
/// name `from`: one for the type at `sync_path`, one for the type at
/// `async_path`.
///
/// A block that implements a trait is rejected. The imports of each variant,
/// and the import that lets the variant go by the name of the type, rewrite
/// the generic parameters and the functions and redirect the links of the
/// documentation. The functions open with these imports, and each variant is
/// allowed not to use them all.
pub open spec fn expanded_impl(
    item: ItemImplView,
    from: IdentView,
    sync_path: PathWithoutArgsView,
    async_path: PathWithoutArgsView,
    sync_imports: Seq<ItemImportView>,
    async_imports: Seq<ItemImportView>,
) -> Result<ExpandedView, ExpandError> {
    if item.trait_ is Some {
        Err(ExpandError { kind: ErrorKind::TraitImpl, span: item.trait_->0 })
    } else {
        let sync_imports = sync_imports.push(ItemImportView { path: sync_path, alias: Some(from) });
        let async_imports = async_imports.push(
            ItemImportView { path: async_path, alias: Some(from) },
        );
        let self_tys = renamed_type(item.self_ty, from, sync_path, async_path);
        match mapped_impl_items(item.items, sync_imports, async_imports) {
            Err(e) => Err(e),
            Ok((sync_items, async_items)) => Ok(
                ExpandedView::Impl {
                    sync_item: ItemImplView {
                        attrs: redirected_attrs(item.attrs, rules_of_imports(sync_imports)).push(
                            allow_unused_imports_view(),
                        ),
                        generics: subst_generics(item.generics, rules_of_imports(sync_imports)),
                        trait_: None,
                        self_ty: self_tys.0,
                        items: sync_items,
                        rest: item.rest,
                    },
                    async_item: ItemImplView {
                        attrs: redirected_attrs(item.attrs, rules_of_imports(async_imports)).push(
                            allow_unused_imports_view(),
                        ),
                        generics: subst_generics(item.generics, rules_of_imports(async_imports)),
                        trait_: None,
                        self_ty: self_tys.1,
                        items: async_items,
                        rest: item.rest,
                    },
                },
            ),
        }
    }
}

/// Duplicates an implementation block for a type that goes by the name
/// `from`: the blocking variant is for the type at `sync_path`, the
/// suspending one for the type at `async_path`.
pub fn expand_impl_with_names(
    item: ItemImpl,
    from: Ident,
    sync_path: PathWithoutArgs,
    async_path: PathWithoutArgs,
    args: Args,
) -> (r: Result<Expanded, ExpandError>)
    requires
        imports_wf(item_imports_view(args.item_imports_for_sync@)),
        imports_wf(item_imports_view(args.item_imports_for_async@)),
        sync_path@.segments.len() > 0,
        async_path@.segments.len() > 0,
    ensures
        expanded_view(r) == expanded_impl(
            item@,
            from@,
            sync_path@,
            async_path@,
            item_imports_view(args.item_imports_for_sync@),
            item_imports_view(args.item_imports_for_async@),
        ),
{
    if let Some(span) = item.trait_ {
        return Err(ExpandError { kind: ErrorKind::TraitImpl, span });
    }
    let rest = item.rest;
    let self_tys = map_type_with_names(item.self_ty, &from, &sync_path, &async_path);
    let mut item_imports_for_sync = args.item_imports_for_sync;
    let mut item_imports_for_async = args.item_imports_for_async;
    push_import(
        &mut item_imports_for_sync,
        ItemImport { path: sync_path, alias: Some(from.clone()) },
    );
    push_import(&mut item_imports_for_async, ItemImport { path: async_path, alias: Some(from) });

    let attrs = match map_attrs(
        item.attrs,
        item_imports_for_sync.as_slice(),
        item_imports_for_async.as_slice(),
    ) {
        Ok(attrs) => attrs,
        Err(e) => {
            return Err(e);
        },
    };
    let mut attrs = attrs;
    push_allow_unused_imports(&mut attrs.sync_attrs);
    push_allow_unused_imports(&mut attrs.async_attrs);
    let generics = match map_generics(
        item.generics,
        item_imports_for_sync.as_slice(),
        item_imports_for_async.as_slice(),
    ) {
        Ok(generics) => generics,
        Err(e) => {
            return Err(e);
        },
    };
    let items = match map_impl_items(
        item.items,
        item_imports_for_sync.as_slice(),
        item_imports_for_async.as_slice(),
    ) {
        Ok(items) => items,
        Err(e) => {
            return Err(e);
        },
    };

    Ok(
        Expanded::Impl {
            sync_item: ItemImpl {
                attrs: attrs.sync_attrs,
                generics: generics.sync_generics,
                trait_: None,
                self_ty: self_tys.sync_ty,
                items: items.sync_items,
                rest,
            },
            async_item: ItemImpl {
                attrs: attrs.async_attrs,
                generics: generics.async_generics,
                trait_: None,
                self_ty: self_tys.async_ty,
                items: items.async_items,
                rest,
            },
        },
    )
}

/// Whether `out` is what duplicating an implementation block can give.
///
/// A block that implements a trait is rejected, at the place of its `for`.
/// Of any other block the self type must have a plain name: `out` is then
/// what the block gives for a name and the paths of its two variants; else
/// it is the error that the type has no such name, at the place of the type.
pub open spec fn is_expanded_impl(
    item: ItemImplView,
    sync_imports: Seq<ItemImportView>,
    async_imports: Seq<ItemImportView>,
    out: Result<ExpandedView, ExpandError>,
) -> bool {
    if item.trait_ is Some {
        out == Err::<ExpandedView, ExpandError>(
            ExpandError { kind: ErrorKind::TraitImpl, span: item.trait_->0 },
        )
    } else {
        out == Err::<ExpandedView, ExpandError>(not_a_name(item.self_ty.place())) || exists|
            from: IdentView,
            sync_path: PathWithoutArgsView,
            async_path: PathWithoutArgsView,
        |
            are_self_names(from, sync_path, async_path) && out == #[trigger] expanded_impl(
                item,
                from,
                sync_path,
                async_path,
                sync_imports,
                async_imports,
            )
    }
}

/// Duplicates an implementation block. `self_ty` is the self type of the
/// block as it is written, token by token: the name of the type is read off
/// it.
pub fn expand_impl(item: ItemImpl, self_ty: &str, args: Args) -> (r: Result<Expanded, ExpandError>)
    requires
        imports_wf(item_imports_view(args.item_imports_for_sync@)),
        imports_wf(item_imports_view(args.item_imports_for_async@)),
    ensures
        is_expanded_impl(
            item@,
            item_imports_view(args.item_imports_for_sync@),
            item_imports_view(args.item_imports_for_async@),
            expanded_view(r),
        ),
{
    if let Some(span) = item.trait_ {
        return Err(ExpandError { kind: ErrorKind::TraitImpl, span });
    }
    match self_names(self_ty) {
        Some((from, sync_path, async_path)) => expand_impl_with_names(
            item,
            from,
            sync_path,
            async_path,
            args,
        ),
        None => Err(ExpandError { kind: ErrorKind::SelfTypeName, span: item.self_ty.place() }),
    }
}

/// The two variants of a record type `Name`: `SyncName` and `AsyncName`.
///
/// The imports of each variant, and the import that lets the variant go by
/// the name of the type, rewrite the generic parameters and the types of the
/// fields and redirect the links of the documentation.
pub open spec fn expanded_struct(
    item: ItemStructView,
    sync_imports: Seq<ItemImportView>,
    async_imports: Seq<ItemImportView>,
) -> ExpandedView {
    let sync_ident = variant_name("Sync"@, item.ident);
    let async_ident = variant_name("Async"@, item.ident);
    let sync_rules = rules_of_imports(sync_imports.push(self_import(sync_ident, item.ident)));
    let async_rules = rules_of_imports(async_imports.push(self_import(async_ident, item.ident)));
    ExpandedView::Struct {
        sync_item: ItemStructView {
            attrs: redirected_attrs(item.attrs, sync_rules),
            ident: sync_ident,
            generics: subst_generics(item.generics, sync_rules),
            fields: subst_fields(item.fields, sync_rules),
            rest: item.rest,
        },
        async_item: ItemStructView {
            attrs: redirected_attrs(item.attrs, async_rules),
            ident: async_ident,
            generics: subst_generics(item.generics, async_rules),
            fields: subst_fields(item.fields, async_rules),
            rest: item.rest,
        },
    }
}

/// Duplicates a record type.
pub fn expand_struct(item: ItemStruct, args: Args) -> (r: Result<Expanded, ExpandError>)
    requires
        imports_wf(item_imports_view(args.item_imports_for_sync@)),
        imports_wf(item_imports_view(args.item_imports_for_async@)),
    ensures
        r is Ok,
        r->Ok_0@ == expanded_struct(
            item@,
            item_imports_view(args.item_imports_for_sync@),
            item_imports_view(args.item_imports_for_async@),
        ),
{
    let rest = item.rest;
    let sync_ident = variant_ident("Sync", &item.ident);
    let async_ident = variant_ident("Async", &item.ident);
    let mut item_imports_for_sync = args.item_imports_for_sync;
    let mut item_imports_for_async = args.item_imports_for_async;
    push_import(&mut item_imports_for_sync, self_item_import(&sync_ident, &item.ident));
    push_import(&mut item_imports_for_async, self_item_import(&async_ident, &item.ident));

    let attrs = match map_attrs(
        item.attrs,
        item_imports_for_sync.as_slice(),
        item_imports_for_async.as_slice(),
    ) {
        Ok(attrs) => attrs,
        Err(e) => {
            return Err(e);
        },
    };
    let generics = match map_generics(
        item.generics,
        item_imports_for_sync.as_slice(),
        item_imports_for_async.as_slice(),
    ) {
        Ok(generics) => generics,
        Err(e) => {
            return Err(e);
        },
    };
    let fields = match map_fields(
        item.fields,
        item_imports_for_sync.as_slice(),
        item_imports_for_async.as_slice(),
    ) {
        Ok(fields) => fields,
        Err(e) => {
            return Err(e);
        },
    };

    Ok(
        Expanded::Struct {
            sync_item: ItemStruct {
                attrs: attrs.sync_attrs,
                ident: sync_ident,
                generics: generics.sync_generics,
                fields: fields.sync_fields,
                rest,
            },
            async_item: ItemStruct {
                attrs: attrs.async_attrs,
                ident: async_ident,
                generics: generics.async_generics,
                fields: fields.async_fields,
                rest,
            },
        },
    )
}

/// Whether `out` is what duplicating a declaration can give. Only a
/// namespace, an implementation block and a record type have two variants.
pub open spec fn is_expanded(
    declaration: Declaration,
    sync_imports: Seq<ItemImportView>,
    async_imports: Seq<ItemImportView>,
    out: Result<ExpandedView, ExpandError>,
) -> bool {
    match declaration {
        Declaration::Mod { item } => out == expanded_mod(item@, sync_imports, async_imports),
        Declaration::Impl { item, self_ty } => is_expanded_impl(
            item@,
            sync_imports,
            async_imports,
            out,
        ),
        Declaration::Struct { item } => out == Ok::<ExpandedView, ExpandError>(
            expanded_struct(item@, sync_imports, async_imports),
        ),
        Declaration::Other { span } => out == Err::<ExpandedView, ExpandError>(
            ExpandError { kind: ErrorKind::UnsupportedItem, span },
        ),
    }
}

/// Duplicates a declaration into its blocking and its suspending variant.
pub fn sync_async(declaration: Declaration, args: Args) -> (r: Result<Expanded, ExpandError>)
    requires
        imports_wf(item_imports_view(args.item_imports_for_sync@)),
        imports_wf(item_imports_view(args.item_imports_for_async@)),
    ensures
        is_expanded(
            declaration,
            item_imports_view(args.item_imports_for_sync@),
            item_imports_view(args.item_imports_for_async@),
            expanded_view(r),
        ),
{
    match declaration {
        Declaration::Mod { item } => expand_mod(item, args),
        Declaration::Impl { item, self_ty } => expand_impl(item, self_ty.as_str(), args),
        Declaration::Struct { item } => expand_struct(item, args),
        Declaration::Other { span } => Err(
            ExpandError { kind: ErrorKind::UnsupportedItem, span },
        ),
    }
}

} // verus!
