//! Rewrites one function for one variant.
//!
//! A function carries exactly one mode marker: `#[always_async]`,
//! `#[always_sync]` or `#[maybe_async]`. The marker decides whether the
//! function suspends; `#[maybe_async]` follows the variant. In a function that
//! does not suspend, the suspension points are taken out of the body. A
//! statement marked `#[if_async]` stays only where the function suspends, one
//! marked `#[if_sync]` only where it does not.
use crate::args::{item_imports_view, ItemImport, ItemImportView};
use crate::ast::attr::{attrs_view, Attribute, AttributeView};
use crate::ast::decl::{Signature, SignatureView};
use crate::ast::expr::{stmts_view, Block, BlockView, Item, ItemView, Stmt, StmtView};
use crate::ast::token::{Span, Tokens};
use crate::ast::use_tree::{item_uses_view, ItemUse, UseTree};
use crate::error::{ExpandError, ErrorKind};
use crate::map::map_items::map_fn::get_attrs::{
    get_attrs_mut_from_stmt, stmt_attrs, stmt_with_attrs,
};
use crate::map::map_items::map_fn::remove_await::{remove_await_from_stmt, strip_stmt};
use crate::map::replace_item_name::{
    replace_item_name_in_signature, replaces_from_item_imports, rules_of_imports,
    subst_signature,
};
use crate::map::replace_item_name_in_doc::{redirected_attrs, replace_item_name_in_doc};
use crate::utils::{imports_wf, item_uses_from_item_imports, item_uses_of};
use vstd::pervasive::VecAdditionalExecFns;
use vstd::prelude::*;

verus! {

/// Whether an annotation is the plain marker `name`.
pub open spec fn is_marker(attr: AttributeView, name: Seq<char>) -> bool {
    attr.meta.path().is_ident(name)
}

fn is_always_sync_attr(attr: &Attribute) -> (r: bool)
    ensures
        r == is_marker(attr@, "always_sync"@),
{
    attr.path().is_ident("always_sync")
}

fn is_always_async_attr(attr: &Attribute) -> (r: bool)
    ensures
        r == is_marker(attr@, "always_async"@),
{
    attr.path().is_ident("always_async")
}

fn is_maybe_async_attr(attr: &Attribute) -> (r: bool)
    ensures
        r == is_marker(attr@, "maybe_async"@),
{
    attr.path().is_ident("maybe_async")
}

fn is_if_async_attr(attr: &Attribute) -> (r: bool)
    ensures
        r == is_marker(attr@, "if_async"@),
{
    attr.path().is_ident("if_async")
}

fn is_if_sync_attr(attr: &Attribute) -> (r: bool)
    ensures
        r == is_marker(attr@, "if_sync"@),
{
    attr.path().is_ident("if_sync")
}

/// Tells the markers of one family from other annotations, and what each of
/// them stands for.
pub trait AttrFilterMap<T> {
    /// What the annotation stands for, if it is a marker of the family.
    spec fn marks(&self, attr: AttributeView) -> Option<T>;

    fn filter_map(&self, attr: &Attribute) -> (r: Option<T>)
        ensures
            r == self.marks(attr@),
    ;
}

/// The mode markers, in a variant that suspends or one that does not. A mode
/// marker stands for whether the function suspends.
pub struct ModeMarker {
    pub asyncness: bool,
}

impl AttrFilterMap<bool> for ModeMarker {
    open spec fn marks(&self, attr: AttributeView) -> Option<bool> {
        if is_marker(attr, "always_async"@) {
            Some(true)
        } else if is_marker(attr, "always_sync"@) {
            Some(false)
        } else if is_marker(attr, "maybe_async"@) {
            Some(self.asyncness)
        } else {
            None
        }
    }

    fn filter_map(&self, attr: &Attribute) -> (r: Option<bool>) {
        if is_always_async_attr(attr) {
            Some(true)
        } else if is_always_sync_attr(attr) {
            Some(false)
        } else if is_maybe_async_attr(attr) {
            Some(self.asyncness)
        } else {
            None
        }
    }
}

/// Where a marked statement stays.
#[derive(Clone, Copy, Debug, PartialEq, Eq, Structural)]
pub enum Target {
    IfSync,
    IfAsync,
}

/// The scope markers. A scope marker stands for where the statement stays.
pub struct ScopeMarker {}

impl AttrFilterMap<Target> for ScopeMarker {
    open spec fn marks(&self, attr: AttributeView) -> Option<Target> {
        if is_marker(attr, "if_async"@) {
            Some(Target::IfAsync)
        } else if is_marker(attr, "if_sync"@) {
            Some(Target::IfSync)
        } else {
            None
        }
    }

    fn filter_map(&self, attr: &Attribute) -> (r: Option<Target>) {
        if is_if_async_attr(attr) {
            Some(Target::IfAsync)
        } else if is_if_sync_attr(attr) {
            Some(Target::IfSync)
        } else {
            None
        }
    }
}

/// The place of the first marker among the annotations from `from` on.
pub open spec fn first_marked<T, F: AttrFilterMap<T>>(
    attrs: Seq<AttributeView>,
    family: F,
    from: int,
) -> Option<int>
    decreases attrs.len() - from,
{
    if from < 0 || from >= attrs.len() {
        None
    } else if family.marks(attrs[from]) is Some {
        Some(from)
    } else {
        first_marked(attrs, family, from + 1)
    }
}

/// The one marker among the annotations with what it stands for, if there is
/// one, and the annotations without it. A second marker is an error at its
/// place.
pub open spec fn taken_once<T, F: AttrFilterMap<T>>(
    attrs: Seq<AttributeView>,
    family: F,
    kind: ErrorKind,
) -> Result<(Option<(AttributeView, T)>, Seq<AttributeView>), ExpandError> {
    match first_marked(attrs, family, 0) {
        None => Ok((None, attrs)),
        Some(i) => match first_marked(attrs, family, i + 1) {
            Some(j) => Err(ExpandError { kind, span: attrs[j].span }),
            None => Ok((Some((attrs[i], family.marks(attrs[i])->0)), attrs.remove(i))),
        },
    }
}

/// The place of the first marker among the annotations from `from` on.
fn find_marked<T, F: AttrFilterMap<T>>(attrs: &Vec<Attribute>, family: &F, from: usize) -> (r:
    Option<(usize, T)>)
    ensures
        match r {
            Some((i, t)) => first_marked(attrs_view(attrs@), *family, from as int) == Some(
                i as int,
            ) && from <= i < attrs.len() && family.marks(attrs[i as int]@) == Some(t),
            None => first_marked(attrs_view(attrs@), *family, from as int) is None,
        },
{
    let mut i = from;
    while i < attrs.len()
        invariant
            from <= i,
            first_marked(attrs_view(attrs@), *family, from as int) == first_marked(
                attrs_view(attrs@),
                *family,
                i as int,
            ),
        decreases attrs.len() - i,
    {
        assert(attrs_view(attrs@)[i as int] == attrs[i as int]@);
        if let Some(t) = family.filter_map(&attrs[i]) {
            return Some((i, t));
        }
        i += 1;
    }
    None
}

/// The view of what taking a marker out gives.
pub open spec fn taken_view<T>(
    r: Result<(Option<(Attribute, T)>, Vec<Attribute>), ExpandError>,
) -> Result<(Option<(AttributeView, T)>, Seq<AttributeView>), ExpandError> {
    match r {
        Ok((Some((attr, t)), rest)) => Ok((Some((attr@, t)), attrs_view(rest@))),
        Ok((None, rest)) => Ok((None, attrs_view(rest@))),
        Err(e) => Err(e),
    }
}

/// Takes the marker of a family out of the annotations. At most one is
/// accepted.
pub fn take_once_or_none_with_filter_map_from_attrs<T, F: AttrFilterMap<T>>(
    attrs: Vec<Attribute>,
    filter_map: &F,
    kind: ErrorKind,
) -> (r: Result<(Option<(Attribute, T)>, Vec<Attribute>), ExpandError>)
    ensures
        taken_view(r) == taken_once(attrs_view(attrs@), *filter_map, kind),
{
    let mut attrs = attrs;
    let ghost all = attrs_view(attrs@);
    match find_marked(&attrs, filter_map, 0) {
        None => Ok((None, attrs)),
        Some((i, t)) => {
            match find_marked(&attrs, filter_map, i + 1) {
                Some((j, _)) => {
                    assert(all[j as int] == attrs[j as int]@);
                    Err(ExpandError { kind, span: attrs[j].span })
                },
                None => {
                    assert(all[i as int] == attrs[i as int]@);
                    let target = attrs.remove(i);
                    assert(attrs_view(attrs@) =~= all.remove(i as int));
                    Ok((Some((target, t)), attrs))
                },
            }
        },
    }
}

/// What becomes of one statement of the body: the statement as it stays, or
/// nothing if it is left out.
///
/// Where the function does not suspend, the suspension points are taken out
/// first. A scope marker is taken off the statement; the statement stays if
/// the marker fits the function. A statement without a marker always stays.
pub open spec fn kept_stmt(stmt: StmtView, suspending: bool) -> Result<Option<StmtView>, ExpandError> {
    let stmt = if suspending {
        stmt
    } else {
        strip_stmt(stmt)
    };
    match stmt_attrs(stmt) {
        None => Ok(Some(stmt)),
        Some(attrs) => match taken_once(attrs, ScopeMarker {  }, ErrorKind::RepeatedScopeMarker) {
            Err(e) => Err(e),
            Ok((None, _)) => Ok(Some(stmt)),
            Ok((Some((_, target)), rest)) => if suspending == (target == Target::IfAsync) {
                Ok(Some(stmt_with_attrs(stmt, rest)))
            } else {
                Ok(None)
            },
        },
    }
}

/// The statements that stay, in their order; or the error of the first
/// statement that is rejected.
#[verifier::opaque]
pub open spec fn kept_stmts(stmts: Seq<StmtView>, suspending: bool) -> Result<Seq<StmtView>, ExpandError>
    decreases stmts.len(),
{
    if stmts.len() == 0 {
        Ok(Seq::empty())
    } else {
        match kept_stmts(stmts.drop_last(), suspending) {
            Err(e) => Err(e),
            Ok(before) => match kept_stmt(stmts.last(), suspending) {
                Err(e) => Err(e),
                Ok(Some(stmt)) => Ok(before.push(stmt)),
                Ok(None) => Ok(before),
            },
        }
    }
}

/// The imports as the statements that open the body.
pub open spec fn use_stmts(imports: Seq<ItemImportView>) -> Seq<StmtView> {
    Seq::new(
        imports.len(),
        |i: int| StmtView::Item { item: ItemView::Use { item: item_uses_of(imports)[i] } },
    )
}

/// The body for one variant: the imports first, then the statements that
/// stay.
pub open spec fn handled_block(
    block: Option<BlockView>,
    suspending: bool,
    imports: Seq<ItemImportView>,
) -> Result<Option<BlockView>, ExpandError> {
    match block {
        None => Ok(None),
        Some(block) => match kept_stmts(block.stmts, suspending) {
            Err(e) => Err(e),
            Ok(stmts) => Ok(Some(BlockView { stmts: use_stmts(imports) + stmts })),
        },
    }
}

/// The signature with the keyword `async` set for a function that suspends
/// and taken off for one that does not.
pub open spec fn with_asyncness(sig: SignatureView, suspending: bool) -> SignatureView {
    SignatureView {
        asyncness: if suspending {
            Some(Span::call_site())
        } else {
            None
        },
        fn_token: sig.fn_token,
        generics: sig.generics,
        inputs: sig.inputs,
        output: sig.output,
        rest: sig.rest,
    }
}

/// The annotations, the signature and the body of a function for one variant.
///
/// The keyword `async` on the function itself is rejected, and so is a
/// function with no mode marker or with more than one. The mode marker is
/// taken off. The paths of the signature are rewritten and the links of the
/// documentation redirected by the rules of the imports.
pub open spec fn handled_fn(
    attrs: Seq<AttributeView>,
    sig: SignatureView,
    block: Option<BlockView>,
    asyncness: bool,
    imports: Seq<ItemImportView>,
) -> Result<(Seq<AttributeView>, SignatureView, Option<BlockView>), ExpandError> {
    if sig.asyncness is Some {
        Err(ExpandError { kind: ErrorKind::AsyncKeyword, span: sig.asyncness->0 })
    } else {
        match taken_once(attrs, ModeMarker { asyncness }, ErrorKind::RepeatedModeMarker) {
            Err(e) => Err(e),
            Ok((None, _)) => Err(ExpandError { kind: ErrorKind::MissingModeMarker, span: sig.fn_token }),
            Ok((Some((_, suspending)), rest)) => {
                let rules = rules_of_imports(imports);
                match handled_block(block, suspending, imports) {
                    Err(e) => Err(e),
                    Ok(block) => Ok(
                        (
                            redirected_attrs(rest, rules),
                            subst_signature(with_asyncness(sig, suspending), rules),
                            block,
                        ),
                    ),
                }
            },
        }
    }
}

/// Decides about one statement of the body, and rewrites it if it stays.
fn handle_stmt(stmt: &mut Stmt, suspending: bool) -> (r: Result<bool, ExpandError>)
    ensures
        kept_stmt(old(stmt)@, suspending) == match r {
            Ok(keep) => Ok(
                if keep {
                    Some(final(stmt)@)
                } else {
                    None
                },
            ),
            Err(e) => Err(e),
        },
{
    reveal(kept_stmt);
    if !suspending {
        remove_await_from_stmt(stmt);
    }
    if let Some(attrs) = get_attrs_mut_from_stmt(stmt) {
        let mut taken: Vec<Attribute> = Vec::new();
        std::mem::swap(&mut taken, attrs);
        let (target, rest_attrs) = match take_once_or_none_with_filter_map_from_attrs(
            taken,
            &ScopeMarker {  },
            ErrorKind::RepeatedScopeMarker,
        ) {
            Ok(found) => found,
            Err(e) => {
                return Err(e);
            },
        };
        *attrs = rest_attrs;
        if let Some((_, target)) = target {
            if suspending && target == Target::IfAsync {
                Ok(true)
            } else if !suspending && target == Target::IfSync {
                Ok(true)
            } else {
                Ok(false)
            }
        } else {
            Ok(true)
        }
    } else {
        Ok(true)
    }
}

/// The view of a body that may be left out.
pub open spec fn opt_block_view(block: Option<Block>) -> Option<BlockView> {
    match block {
        Some(block) => Some(block@),
        None => None,
    }
}

/// The view of a body, or of the error in its place.
pub open spec fn block_result_view(r: Result<Option<Block>, ExpandError>) -> Result<
    Option<BlockView>,
    ExpandError,
> {
    match r {
        Ok(block) => Ok(opt_block_view(block)),
        Err(e) => Err(e),
    }
}

/// The view of a list of statements, or of the error in its place.
pub open spec fn stmts_result_view(r: Result<Vec<Stmt>, ExpandError>) -> Result<Seq<StmtView>, ExpandError> {
    match r {
        Ok(stmts) => Ok(stmts_view(stmts@)),
        Err(e) => Err(e),
    }
}

/// The imports as the statements that open the body.
fn use_stmts_from_item_imports(item_imports: &[ItemImport]) -> (r: Vec<Stmt>)
    requires
        imports_wf(item_imports_view(item_imports@)),
    ensures
        stmts_view(r@) == use_stmts(item_imports_view(item_imports@)),
{
    let ghost imports = item_imports_view(item_imports@);
    let mut new_stmts: Vec<Stmt> = Vec::new();
    let mut uses = item_uses_from_item_imports(item_imports);
    let m = uses.len();
    let mut u: usize = 0;
    assert(item_uses_view(uses@).len() == m);
    assert forall|j: int| 0 <= j < m implies (#[trigger] uses[j])@ == item_uses_of(imports)[j] by {
        assert(item_uses_view(uses@)[j] == uses[j]@);
    }
    while u < m
        invariant
            u <= m,
            m == uses.len(),
            m == imports.len(),
            new_stmts.len() == u,
            forall|j: int| 0 <= j < u ==> (#[trigger] new_stmts[j])@ == use_stmts(imports)[j],
            forall|j: int| u <= j < m ==> (#[trigger] uses[j])@ == item_uses_of(imports)[j],
        decreases m - u,
    {
        let mut item_use = ItemUse {
            attrs: Vec::new(),
            leading_colon: false,
            tree: UseTree::Glob { span: Span::call_site() },
        };
        uses.set_and_swap(u, &mut item_use);
        new_stmts.push(Stmt::Item { item: Item::Use { item: item_use } });
        u += 1;
    }
    assert(stmts_view(new_stmts@) =~= use_stmts(imports));
    new_stmts
}

/// The statements of the body that stay, rewritten.
fn handle_stmts(stmts: Vec<Stmt>, suspending: bool) -> (r: Result<Vec<Stmt>, ExpandError>)
    ensures
        stmts_result_view(r) == kept_stmts(stmts_view(stmts@), suspending),
{
    let ghost body = stmts_view(stmts@);
    let mut left = stmts;
    let ghost mut kept: Seq<StmtView> = Seq::empty();
    let mut new_stmts: Vec<Stmt> = Vec::new();
    let n = left.len();
    let mut i: usize = 0;
    proof {
        reveal(kept_stmts);
        assert(body.subrange(0, 0) =~= Seq::empty());
    }
    while i < n
        invariant
            i <= n,
            n == left.len(),
            body == stmts_view(stmts@),
            body.len() == n,
            forall|j: int| i <= j < n ==> (#[trigger] left[j])@ == body[j],
            kept_stmts(body.subrange(0, i as int), suspending) == Ok::<Seq<StmtView>, ExpandError>(kept),
            kept.len() == new_stmts.len(),
            forall|j: int| 0 <= j < kept.len() ==> (#[trigger] new_stmts[j])@ == kept[j],
        decreases n - i,
    {
        let mut stmt = Stmt::Macro { attrs: Vec::new(), rest: Tokens::none() };
        left.set_and_swap(i, &mut stmt);
        assert(stmt@ == body[i as int]);
        proof {
            lemma_kept_stmts_next(body, i as int, suspending);
        }
        match handle_stmt(&mut stmt, suspending) {
            Err(e) => {
                proof {
                    lemma_kept_stmts_error(body, i as int, suspending);
                }
                return Err(e);
            },
            Ok(keep) => {
                if keep {
                    proof {
                        kept = kept.push(stmt@);
                    }
                    new_stmts.push(stmt);
                }
            },
        }
        i += 1;
    }
    assert(body.subrange(0, n as int) =~= body);
    assert(stmts_view(new_stmts@) =~= kept);
    Ok(new_stmts)
}

/// What one more statement adds to the statements that stay.
proof fn lemma_kept_stmts_next(body: Seq<StmtView>, i: int, suspending: bool)
    requires
        0 <= i < body.len(),
    ensures
        kept_stmts(body.subrange(0, i + 1), suspending) == match kept_stmts(
            body.subrange(0, i),
            suspending,
        ) {
            Err(e) => Err(e),
            Ok(before) => match kept_stmt(body[i], suspending) {
                Err(e) => Err(e),
                Ok(Some(stmt)) => Ok(before.push(stmt)),
                Ok(None) => Ok(before),
            },
        },
{
    reveal(kept_stmts);
    assert(body.subrange(0, i + 1).drop_last() =~= body.subrange(0, i));
    assert(body.subrange(0, i + 1).last() == body[i]);
}

/// The body for one variant.
fn handle_block(block: Option<Block>, suspending: bool, item_imports: &[ItemImport]) -> (r: Result<
    Option<Block>,
    ExpandError,
>)
    requires
        imports_wf(item_imports_view(item_imports@)),
    ensures
        block_result_view(r) == handled_block(
            opt_block_view(block),
            suspending,
            item_imports_view(item_imports@),
        ),
{
    let block = match block {
        None => {
            return Ok(None);
        },
        Some(block) => block,
    };
    let mut new_stmts = use_stmts_from_item_imports(item_imports);
    let ghost uses = stmts_view(new_stmts@);
    let mut kept = match handle_stmts(block.stmts, suspending) {
        Ok(kept) => kept,
        Err(e) => {
            return Err(e);
        },
    };
    let ghost stay = stmts_view(kept@);
    new_stmts.append(&mut kept);
    assert(stmts_view(new_stmts@) =~= uses + stay);
    Ok(Some(Block { stmts: new_stmts }))
}

/// An error among the first statements is the error of the whole body.
proof fn lemma_kept_stmts_error(body: Seq<StmtView>, i: int, suspending: bool)
    requires
        0 <= i < body.len(),
        kept_stmts(body.subrange(0, i + 1), suspending) is Err,
    ensures
        kept_stmts(body, suspending) == kept_stmts(body.subrange(0, i + 1), suspending),
    decreases body.len(),
{
    reveal(kept_stmts);
    if i + 1 < body.len() {
        assert(body.drop_last().subrange(0, i + 1) =~= body.subrange(0, i + 1));
        lemma_kept_stmts_error(body.drop_last(), i, suspending);
    } else {
        assert(body.subrange(0, i + 1) =~= body);
    }
}

/// The view of a rewritten function, or of the error in its place.
pub open spec fn handled_view(
    r: Result<(Vec<Attribute>, Signature, Option<Block>), ExpandError>,
) -> Result<(Seq<AttributeView>, SignatureView, Option<BlockView>), ExpandError> {
    match r {
        Ok((attrs, sig, block)) => Ok((attrs_view(attrs@), sig@, opt_block_view(block))),
        Err(e) => Err(e),
    }
}

pub fn handle_fn(
    attrs: Vec<Attribute>,
    sig: Signature,
    block: Option<Block>,
    asyncness: bool,
    item_imports: &[ItemImport],
) -> (r: Result<(Vec<Attribute>, Signature, Option<Block>), ExpandError>)
    requires
        imports_wf(item_imports_view(item_imports@)),
    ensures
        handled_view(r) == handled_fn(
            attrs_view(attrs@),
            sig@,
            opt_block_view(block),
            asyncness,
            item_imports_view(item_imports@),
        ),
{
    if let Some(span) = sig.asyncness {
        return Err(ExpandError { kind: ErrorKind::AsyncKeyword, span });
    }
    let (mode, attrs) = match take_once_or_none_with_filter_map_from_attrs(
        attrs,
        &ModeMarker { asyncness },
        ErrorKind::RepeatedModeMarker,
    ) {
        Ok(found) => found,
        Err(e) => {
            return Err(e);
        },
    };

    let mut sig = sig;
    let suspending = match mode {
        Some((_, suspending)) => suspending,
        None => {
            return Err(ExpandError { kind: ErrorKind::MissingModeMarker, span: sig.fn_token });
        },
    };
    sig.asyncness = if suspending {
        Some(Span::call_site())
    } else {
        None
    };

    let replaces = replaces_from_item_imports(item_imports);
    replace_item_name_in_signature(&mut sig, &replaces);

    let block = match handle_block(block, suspending, item_imports) {
        Ok(block) => block,
        Err(e) => {
            return Err(e);
        },
    };

    let mut attrs = attrs;
    replace_item_name_in_doc(&mut attrs, &replaces);

    Ok((attrs, sig, block))
}

} // verus!
