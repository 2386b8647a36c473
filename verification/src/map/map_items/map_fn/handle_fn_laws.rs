//! What holds of the body of a rewritten function, for every body.
use crate::args::ItemImportView;
use crate::ast::attr::AttributeView;
use crate::ast::expr::{BlockView, StmtView};
use crate::error::{ErrorKind, ExpandError};
use crate::map::map_items::map_fn::get_attrs::{stmt_attrs, stmt_with_attrs};
use crate::ast::decl::SignatureView;
use crate::map::map_items::map_fn::handle_fn::{
    first_marked, handled_block, handled_fn, is_marker, kept_stmt, kept_stmts, taken_once,
    use_stmts, AttrFilterMap, ModeMarker, ScopeMarker, Target,
};
use crate::map::map_items::map_fn::remove_await::strip_stmt;
use crate::map::map_items::map_fn::remove_await_laws::{
    has_await_block, has_await_stmt, has_await_stmts, lemma_no_await_in_all_stmts,
    lemma_no_await_in_each_stmt, lemma_strip_clears_stmt,
};
use vstd::prelude::*;

verus! {

/// The statement as the function sees it: as it is where the function
/// suspends, without suspension points where it does not.
pub open spec fn seen_stmt(stmt: StmtView, suspending: bool) -> StmtView {
    if suspending {
        stmt
    } else {
        strip_stmt(stmt)
    }
}

/// Whether the statement, as the function sees it, carries exactly one scope
/// marker, which stands at `i` and says `target`.
pub open spec fn marked_once(stmt: StmtView, suspending: bool, i: int, target: Target) -> bool {
    let attrs = stmt_attrs(seen_stmt(stmt, suspending));
    &&& attrs is Some
    &&& first_marked(attrs->0, ScopeMarker {  }, 0) == Some(i)
    &&& first_marked(attrs->0, ScopeMarker {  }, i + 1) is None
    &&& (ScopeMarker {  }).marks(attrs->0[i]) == Some(target)
}

/// A statement without a scope marker stays in both variants: as it is
/// where the function suspends, without suspension points where it does not.
pub proof fn lemma_unmarked_statement_stays(stmt: StmtView, suspending: bool)
    requires
        stmt_attrs(seen_stmt(stmt, suspending)) matches Some(attrs) ==> first_marked(
            attrs,
            ScopeMarker {  },
            0,
        ) is None,
    ensures
        kept_stmt(stmt, suspending) == Ok::<Option<StmtView>, ExpandError>(
            Some(seen_stmt(stmt, suspending)),
        ),
{
    reveal(kept_stmt);
}

/// A statement marked `#[if_async]` stays where the function suspends and
/// is left out where it does not; one marked `#[if_sync]` the other way
/// round. Where it stays, the marker is taken off.
pub proof fn lemma_marked_statement_stays_in_its_variant(
    stmt: StmtView,
    suspending: bool,
    i: int,
    target: Target,
)
    requires
        marked_once(stmt, suspending, i, target),
    ensures
        kept_stmt(stmt, suspending) == Ok::<Option<StmtView>, ExpandError>(
            if suspending == (target == Target::IfAsync) {
                Some(
                    stmt_with_attrs(
                        seen_stmt(stmt, suspending),
                        stmt_attrs(seen_stmt(stmt, suspending))->0.remove(i),
                    ),
                )
            } else {
                None
            },
        ),
{
    reveal(kept_stmt);
}

/// A statement with two scope markers is rejected at the second of them.
pub proof fn lemma_statement_marked_twice_is_rejected(
    stmt: StmtView,
    suspending: bool,
    i: int,
    j: int,
)
    requires
        stmt_attrs(seen_stmt(stmt, suspending)) matches Some(attrs) && first_marked(
            attrs,
            ScopeMarker {  },
            0,
        ) == Some(i) && first_marked(attrs, ScopeMarker {  }, i + 1) == Some(j),
    ensures
        kept_stmt(stmt, suspending) == Err::<Option<StmtView>, ExpandError>(
            ExpandError {
                kind: ErrorKind::RepeatedScopeMarker,
                span: stmt_attrs(seen_stmt(stmt, suspending))->0[j].span,
            },
        ),
{
    reveal(kept_stmt);
}

/// What stays of a statement in a function that does not suspend holds no
/// suspension point.
pub proof fn lemma_kept_stmt_has_no_await(stmt: StmtView)
    ensures
        kept_stmt(stmt, false) matches Ok(Some(kept)) ==> !has_await_stmt(kept),
{
    reveal(kept_stmt);
    lemma_strip_clears_stmt(stmt);
}

/// The statements that stay in a function that does not suspend hold no
/// suspension point.
pub proof fn lemma_kept_stmts_have_no_await(stmts: Seq<StmtView>)
    ensures
        kept_stmts(stmts, false) matches Ok(kept) ==> !has_await_stmts(kept),
    decreases stmts.len(),
{
    reveal(kept_stmts);
    if stmts.len() > 0 {
        lemma_kept_stmts_have_no_await(stmts.drop_last());
        lemma_kept_stmt_has_no_await(stmts.last());
        if let Ok(kept) = kept_stmts(stmts, false) {
            let before = kept_stmts(stmts.drop_last(), false)->Ok_0;
            assert forall|k: int| 0 <= k < kept.len() implies !#[trigger] has_await_stmt(
                kept[k],
            ) by {
                if k < before.len() {
                    assert(kept[k] == before[k]);
                    lemma_no_await_in_each_stmt(before, k);
                }
            }
            lemma_no_await_in_all_stmts(kept);
        }
    } else {
        lemma_no_await_in_all_stmts(Seq::<StmtView>::empty());
    }
}

/// The body of a function that does not suspend holds no suspension point,
/// whatever the body was.
pub proof fn lemma_blocking_body_has_no_await(block: BlockView, imports: Seq<ItemImportView>)
    ensures
        handled_block(Some(block), false, imports) matches Ok(Some(body)) ==> !has_await_block(
            body,
        ),
{
    lemma_kept_stmts_have_no_await(block.stmts);
    if let Ok(kept) = kept_stmts(block.stmts, false) {
        let uses = use_stmts(imports);
        let all = uses + kept;
        assert forall|i: int| 0 <= i < all.len() implies !has_await_stmt(all[i]) by {
            if i >= uses.len() {
                assert(all[i] == kept[i - uses.len()]);
                lemma_no_await_in_each_stmt(kept, i - uses.len());
            } else {
                assert(all[i] == uses[i]);
            }
        }
        lemma_no_await_in_all_stmts(all);
    }
}

/// Whether `body` is the imports, one `use` statement each and in their
/// order, and behind them what stays of `stmts` in a function of some mode.
pub open spec fn opens_with_imports(
    body: BlockView,
    imports: Seq<ItemImportView>,
    stmts: Seq<StmtView>,
) -> bool {
    exists|suspending: bool| #[trigger]
        kept_stmts(stmts, suspending) matches Ok(kept) && body.stmts == use_stmts(imports) + kept
}

/// The body of a rewritten function opens with its imports: one `use`
/// statement for each of them, in their order, before any statement of the
/// function.
pub proof fn lemma_body_opens_with_imports(
    attrs: Seq<AttributeView>,
    sig: SignatureView,
    block: BlockView,
    asyncness: bool,
    imports: Seq<ItemImportView>,
)
    ensures
        handled_fn(attrs, sig, Some(block), asyncness, imports) matches Ok((_, _, body))
            ==> body is Some && opens_with_imports(body->0, imports, block.stmts),
{
    if handled_fn(attrs, sig, Some(block), asyncness, imports) is Ok {
        let taken = taken_once(attrs, ModeMarker { asyncness }, ErrorKind::RepeatedModeMarker);
        if let Ok((Some((_, suspending)), _)) = taken {
            assert(kept_stmts(block.stmts, suspending) is Ok);
        }
    }
}

/// In a function that suspends no statement is changed but for its scope
/// marker: what stays of a statement is the statement, with the annotations
/// that stay.
pub proof fn lemma_suspending_body_keeps_its_statements(stmt: StmtView)
    ensures
        kept_stmt(stmt, true) matches Ok(Some(kept)) ==> kept == stmt || (stmt_attrs(
            stmt,
        ) matches Some(attrs) && exists|i: int|
            0 <= i < attrs.len() && kept == stmt_with_attrs(stmt, #[trigger] attrs.remove(i))),
{
    reveal(kept_stmt);
    if let Some(attrs) = stmt_attrs(stmt) {
        if let Ok((Some(_), rest)) = taken_once(
            attrs,
            ScopeMarker {  },
            ErrorKind::RepeatedScopeMarker,
        ) {
            let i = first_marked(attrs, ScopeMarker {  }, 0)->0;
            lemma_first_marked_inside(attrs, ScopeMarker {  }, 0);
            assert(rest == attrs.remove(i));
        }
    }
}

/// The first marker stands among the annotations.
pub proof fn lemma_first_marked_inside<T, F: AttrFilterMap<T>>(
    attrs: Seq<AttributeView>,
    family: F,
    from: int,
)
    requires
        0 <= from,
    ensures
        first_marked(attrs, family, from) matches Some(i) ==> from <= i < attrs.len()
            && family.marks(attrs[i]) is Some,
    decreases attrs.len() - from,
{
    if from < attrs.len() && !(family.marks(attrs[from]) is Some) {
        lemma_first_marked_inside(attrs, family, from + 1);
    }
}

/// A function that comes out without the keyword `async` has no suspension
/// point in its body.
pub proof fn lemma_function_without_async_has_no_await(
    attrs: Seq<AttributeView>,
    sig: SignatureView,
    block: BlockView,
    asyncness: bool,
    imports: Seq<ItemImportView>,
)
    ensures
        handled_fn(attrs, sig, Some(block), asyncness, imports) matches Ok((_, sig, Some(body)))
            ==> (sig.asyncness is None ==> !has_await_block(body)),
{
    lemma_blocking_body_has_no_await(block, imports);
}

/// A function whose one mode marker is `#[maybe_async]` suspends in the
/// suspending variant and does not in the blocking one.
pub proof fn lemma_maybe_async_follows_variant(
    attrs: Seq<AttributeView>,
    sig: SignatureView,
    block: Option<BlockView>,
    asyncness: bool,
    imports: Seq<ItemImportView>,
    i: int,
)
    requires
        first_marked(attrs, ModeMarker { asyncness }, 0) == Some(i),
        first_marked(attrs, ModeMarker { asyncness }, i + 1) is None,
        is_marker(attrs[i], "maybe_async"@),
    ensures
        handled_fn(attrs, sig, block, asyncness, imports) matches Ok((_, sig, _))
            ==> sig.asyncness.is_some() == asyncness,
{
    reveal_strlit("maybe_async");
    reveal_strlit("always_async");
    reveal_strlit("always_sync");
    assert("maybe_async"@ != "always_async"@) by {
        assert("maybe_async"@[0] == 'm');
        assert("always_async"@[0] == 'a');
    }
    assert("maybe_async"@ != "always_sync"@) by {
        assert("maybe_async"@[0] == 'm');
        assert("always_sync"@[0] == 'a');
    }
}

} // verus!
