//! What holds of taking the suspension points out, for every tree.
use crate::ast::expr::{
    ArmView, BlockView, ExprKindView, ExprView, FieldValueView, LocalInitView, StmtView,
};
use crate::map::map_items::map_fn::remove_await::{
    strip_arm, strip_arms, strip_block, strip_expr, strip_exprs, strip_field_values,
    strip_local_init, strip_opt_expr, strip_stmt, strip_stmts,
};
use vstd::prelude::*;

verus! {

/// Whether the expression is a suspension point or holds one in an expression
/// inside it. Items among the statements of a block are not looked into.
pub open spec fn has_await(e: ExprView) -> bool
    decreases e,
{
    match e.kind {
        ExprKindView::Array { elems } => has_await_exprs(elems),
        ExprKindView::Assign { left, right } => has_await(*left) || has_await(*right),
        ExprKindView::Async { block } => has_await_block(block),
        ExprKindView::Await { .. } => true,
        ExprKindView::Binary { left, right } => has_await(*left) || has_await(*right),
        ExprKindView::Block { block } => has_await_block(block),
        ExprKindView::Break { expr } => has_await_opt(expr),
        ExprKindView::Call { func, args } => has_await(*func) || has_await_exprs(args),
        ExprKindView::Cast { expr } => has_await(*expr),
        ExprKindView::Closure { body } => has_await(*body),
        ExprKindView::Const { block } => has_await_block(block),
        ExprKindView::Field { base } => has_await(*base),
        ExprKindView::ForLoop { expr, body } => has_await(*expr) || has_await_block(body),
        ExprKindView::Group { expr } => has_await(*expr),
        ExprKindView::If { cond, then_branch, else_branch } => has_await(*cond) || has_await_block(then_branch) || has_await_opt(else_branch),
        ExprKindView::Index { expr, index } => has_await(*expr) || has_await(*index),
        ExprKindView::Let { expr } => has_await(*expr),
        ExprKindView::Loop { body } => has_await_block(body),
        ExprKindView::Match { expr, arms } => has_await(*expr) || has_await_arms(arms),
        ExprKindView::MethodCall { receiver, args } => has_await(*receiver) || has_await_exprs(args),
        ExprKindView::Paren { expr } => has_await(*expr),
        ExprKindView::Range { start, end } => has_await_opt(start) || has_await_opt(end),
        ExprKindView::RawAddr { expr } => has_await(*expr),
        ExprKindView::Reference { expr } => has_await(*expr),
        ExprKindView::Repeat { expr, len } => has_await(*expr) || has_await(*len),
        ExprKindView::Return { expr } => has_await_opt(expr),
        ExprKindView::Struct { fields, base } => has_await_field_values(fields) || has_await_opt(base),
        ExprKindView::Try { expr } => has_await(*expr),
        ExprKindView::TryBlock { block } => has_await_block(block),
        ExprKindView::Tuple { elems } => has_await_exprs(elems),
        ExprKindView::Unary { expr } => has_await(*expr),
        ExprKindView::Unsafe { block } => has_await_block(block),
        ExprKindView::While { cond, body } => has_await(*cond) || has_await_block(body),
        ExprKindView::Yield { expr } => has_await_opt(expr),
        ExprKindView::Other => false,
        ExprKindView::Verbatim => false,
    }
}

pub open spec fn has_await_exprs(s: Seq<ExprView>) -> bool
    decreases s,
{
    exists|i: int| 0 <= i < s.len() && has_await(#[trigger] s[i])
}

pub open spec fn has_await_opt(e: Option<Box<ExprView>>) -> bool
    decreases e,
{
    match e {
        Some(e) => has_await(*e),
        None => false,
    }
}

pub open spec fn has_await_arm(a: ArmView) -> bool
    decreases a,
{
    has_await_opt(a.guard) || has_await(*a.body)
}

pub open spec fn has_await_arms(s: Seq<ArmView>) -> bool
    decreases s,
{
    exists|i: int| 0 <= i < s.len() && has_await_arm(#[trigger] s[i])
}

pub open spec fn has_await_field_values(s: Seq<FieldValueView>) -> bool
    decreases s,
{
    exists|i: int| 0 <= i < s.len() && has_await((#[trigger] s[i]).expr)
}

pub open spec fn has_await_block(b: BlockView) -> bool
    decreases b,
{
    has_await_stmts(b.stmts)
}

pub open spec fn has_await_stmts(s: Seq<StmtView>) -> bool
    decreases s,
{
    exists|i: int| 0 <= i < s.len() && has_await_stmt(#[trigger] s[i])
}

/// Whether the statement holds a suspension point: in what a `let` is
/// initialised with or diverges to, or in the expression that it is.
pub open spec fn has_await_stmt(s: StmtView) -> bool
    decreases s,
{
    match s {
        StmtView::Local { local } => has_await_local_init(local.init),
        StmtView::Expr { expr, .. } => has_await(expr),
        StmtView::Macro { .. } => false,
        StmtView::Item { .. } => false,
    }
}

pub open spec fn has_await_local_init(init: Option<LocalInitView>) -> bool
    decreases init,
{
    match init {
        Some(init) => has_await(*init.expr) || has_await_opt(init.diverge),
        None => false,
    }
}

/// After the suspension points are taken out of an expression, it holds none.
pub proof fn lemma_strip_clears_expr(e: ExprView)
    ensures
        !has_await(strip_expr(e)),
    decreases e,
{
    match e.kind {
        ExprKindView::Array { elems } => {
            lemma_strip_clears_exprs(elems);
        },
        ExprKindView::Assign { left, right } => {
            lemma_strip_clears_expr(*left);
            lemma_strip_clears_expr(*right);
        },
        ExprKindView::Async { block } => {
            lemma_strip_clears_block(block);
        },
        ExprKindView::Await { base } => {
            lemma_strip_clears_expr(*base);
        },
        ExprKindView::Binary { left, right } => {
            lemma_strip_clears_expr(*left);
            lemma_strip_clears_expr(*right);
        },
        ExprKindView::Block { block } => {
            lemma_strip_clears_block(block);
        },
        ExprKindView::Break { expr } => {
            lemma_strip_clears_opt(expr);
        },
        ExprKindView::Call { func, args } => {
            lemma_strip_clears_expr(*func);
            lemma_strip_clears_exprs(args);
        },
        ExprKindView::Cast { expr } => {
            lemma_strip_clears_expr(*expr);
        },
        ExprKindView::Closure { body } => {
            lemma_strip_clears_expr(*body);
        },
        ExprKindView::Const { block } => {
            lemma_strip_clears_block(block);
        },
        ExprKindView::Field { base } => {
            lemma_strip_clears_expr(*base);
        },
        ExprKindView::ForLoop { expr, body } => {
            lemma_strip_clears_expr(*expr);
            lemma_strip_clears_block(body);
        },
        ExprKindView::Group { expr } => {
            lemma_strip_clears_expr(*expr);
        },
        ExprKindView::If { cond, then_branch, else_branch } => {
            lemma_strip_clears_expr(*cond);
            lemma_strip_clears_block(then_branch);
            lemma_strip_clears_opt(else_branch);
        },
        ExprKindView::Index { expr, index } => {
            lemma_strip_clears_expr(*expr);
            lemma_strip_clears_expr(*index);
        },
        ExprKindView::Let { expr } => {
            lemma_strip_clears_expr(*expr);
        },
        ExprKindView::Loop { body } => {
            lemma_strip_clears_block(body);
        },
        ExprKindView::Match { expr, arms } => {
            lemma_strip_clears_expr(*expr);
            lemma_strip_clears_arms(arms);
        },
        ExprKindView::MethodCall { receiver, args } => {
            lemma_strip_clears_expr(*receiver);
            lemma_strip_clears_exprs(args);
        },
        ExprKindView::Paren { expr } => {
            lemma_strip_clears_expr(*expr);
        },
        ExprKindView::Range { start, end } => {
            lemma_strip_clears_opt(start);
            lemma_strip_clears_opt(end);
        },
        ExprKindView::RawAddr { expr } => {
            lemma_strip_clears_expr(*expr);
        },
        ExprKindView::Reference { expr } => {
            lemma_strip_clears_expr(*expr);
        },
        ExprKindView::Repeat { expr, len } => {
            lemma_strip_clears_expr(*expr);
            lemma_strip_clears_expr(*len);
        },
        ExprKindView::Return { expr } => {
            lemma_strip_clears_opt(expr);
        },
        ExprKindView::Struct { fields, base } => {
            lemma_strip_clears_field_values(fields);
            lemma_strip_clears_opt(base);
        },
        ExprKindView::Try { expr } => {
            lemma_strip_clears_expr(*expr);
        },
        ExprKindView::TryBlock { block } => {
            lemma_strip_clears_block(block);
        },
        ExprKindView::Tuple { elems } => {
            lemma_strip_clears_exprs(elems);
        },
        ExprKindView::Unary { expr } => {
            lemma_strip_clears_expr(*expr);
        },
        ExprKindView::Unsafe { block } => {
            lemma_strip_clears_block(block);
        },
        ExprKindView::While { cond, body } => {
            lemma_strip_clears_expr(*cond);
            lemma_strip_clears_block(body);
        },
        ExprKindView::Yield { expr } => {
            lemma_strip_clears_opt(expr);
        },
        ExprKindView::Other => {},
        ExprKindView::Verbatim => {},
    }
}

pub proof fn lemma_strip_clears_exprs(s: Seq<ExprView>)
    ensures
        !has_await_exprs(strip_exprs(s)),
    decreases s,
{
    assert forall|i: int| 0 <= i < s.len() implies !has_await(strip_exprs(s)[i]) by {
        lemma_strip_clears_expr(s[i]);
    }
}

pub proof fn lemma_strip_clears_opt(e: Option<Box<ExprView>>)
    ensures
        !has_await_opt(strip_opt_expr(e)),
    decreases e,
{
    if let Some(e) = e {
        lemma_strip_clears_expr(*e);
    }
}

pub proof fn lemma_strip_clears_arm(a: ArmView)
    ensures
        !has_await_arm(strip_arm(a)),
    decreases a,
{
    lemma_strip_clears_opt(a.guard);
    lemma_strip_clears_expr(*a.body);
}

pub proof fn lemma_strip_clears_arms(s: Seq<ArmView>)
    ensures
        !has_await_arms(strip_arms(s)),
    decreases s,
{
    assert forall|i: int| 0 <= i < s.len() implies !has_await_arm(strip_arms(s)[i]) by {
        lemma_strip_clears_arm(s[i]);
    }
}

pub proof fn lemma_strip_clears_field_values(s: Seq<FieldValueView>)
    ensures
        !has_await_field_values(strip_field_values(s)),
    decreases s,
{
    assert forall|i: int| 0 <= i < s.len() implies !has_await(strip_field_values(s)[i].expr) by {
        lemma_strip_clears_expr(s[i].expr);
    }
}

pub proof fn lemma_strip_clears_block(b: BlockView)
    ensures
        !has_await_block(strip_block(b)),
    decreases b,
{
    lemma_strip_clears_stmts(b.stmts);
}

pub proof fn lemma_strip_clears_stmts(s: Seq<StmtView>)
    ensures
        !has_await_stmts(strip_stmts(s)),
    decreases s,
{
    assert forall|i: int| 0 <= i < s.len() implies !has_await_stmt(strip_stmts(s)[i]) by {
        lemma_strip_clears_stmt(s[i]);
    }
}

pub proof fn lemma_strip_clears_stmt(s: StmtView)
    ensures
        !has_await_stmt(strip_stmt(s)),
    decreases s,
{
    match s {
        StmtView::Local { local } => lemma_strip_clears_local_init(local.init),
        StmtView::Expr { expr, .. } => lemma_strip_clears_expr(expr),
        StmtView::Macro { .. } => {},
        StmtView::Item { .. } => {},
    }
}

pub proof fn lemma_strip_clears_local_init(init: Option<LocalInitView>)
    ensures
        !has_await_local_init(strip_local_init(init)),
    decreases init,
{
    if let Some(init) = init {
        lemma_strip_clears_expr(*init.expr);
        lemma_strip_clears_opt(init.diverge);
    }
}

/// Statements that hold no suspension point together hold none each.
pub proof fn lemma_no_await_in_each_stmt(s: Seq<StmtView>, k: int)
    requires
        !has_await_stmts(s),
        0 <= k < s.len(),
    ensures
        !has_await_stmt(s[k]),
{
}

/// Statements that hold no suspension point each hold none together.
pub proof fn lemma_no_await_in_all_stmts(s: Seq<StmtView>)
    requires
        forall|k: int| 0 <= k < s.len() ==> !has_await_stmt(#[trigger] s[k]),
    ensures
        !has_await_stmts(s),
{
}

} // verus!
