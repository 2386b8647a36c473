//! Taking the suspension points out changes nothing where there are none.
use crate::ast::expr::{
    ArmView, BlockView, ExprKindView, ExprView, FieldValueView, StmtView,
};
use crate::map::map_items::map_fn::remove_await::{
    strip_arm, strip_arms, strip_block, strip_expr, strip_exprs, strip_field_values,
    strip_opt_expr, strip_stmt, strip_stmts,
};
use crate::map::map_items::map_fn::remove_await_laws::{
    has_await, has_await_arm, has_await_arms, has_await_block, has_await_exprs,
    has_await_field_values, has_await_opt, has_await_stmt, has_await_stmts,
};
use vstd::prelude::*;

verus! {

/// An expression that holds no suspension point stays as it is.
pub proof fn lemma_strip_keeps_expr(e: ExprView)
    requires
        !has_await(e),
    ensures
        strip_expr(e) == e,
    decreases e,
{
    match e.kind {
        ExprKindView::Array { elems } => {
            lemma_strip_keeps_exprs(elems);
        },
        ExprKindView::Assign { left, right } => {
            lemma_strip_keeps_expr(*left);
            lemma_strip_keeps_expr(*right);
        },
        ExprKindView::Async { block } => {
            lemma_strip_keeps_block(block);
        },
        ExprKindView::Await { .. } => {},
        ExprKindView::Binary { left, right } => {
            lemma_strip_keeps_expr(*left);
            lemma_strip_keeps_expr(*right);
        },
        ExprKindView::Block { block } => {
            lemma_strip_keeps_block(block);
        },
        ExprKindView::Break { expr } => {
            lemma_strip_keeps_opt(expr);
        },
        ExprKindView::Call { func, args } => {
            lemma_strip_keeps_expr(*func);
            lemma_strip_keeps_exprs(args);
        },
        ExprKindView::Cast { expr } => {
            lemma_strip_keeps_expr(*expr);
        },
        ExprKindView::Closure { body } => {
            lemma_strip_keeps_expr(*body);
        },
        ExprKindView::Const { block } => {
            lemma_strip_keeps_block(block);
        },
        ExprKindView::Field { base } => {
            lemma_strip_keeps_expr(*base);
        },
        ExprKindView::ForLoop { expr, body } => {
            lemma_strip_keeps_expr(*expr);
            lemma_strip_keeps_block(body);
        },
        ExprKindView::Group { expr } => {
            lemma_strip_keeps_expr(*expr);
        },
        ExprKindView::If { cond, then_branch, else_branch } => {
            lemma_strip_keeps_expr(*cond);
            lemma_strip_keeps_block(then_branch);
            lemma_strip_keeps_opt(else_branch);
        },
        ExprKindView::Index { expr, index } => {
            lemma_strip_keeps_expr(*expr);
            lemma_strip_keeps_expr(*index);
        },
        ExprKindView::Let { expr } => {
            lemma_strip_keeps_expr(*expr);
        },
        ExprKindView::Loop { body } => {
            lemma_strip_keeps_block(body);
        },
        ExprKindView::Match { expr, arms } => {
            lemma_strip_keeps_expr(*expr);
            lemma_strip_keeps_arms(arms);
        },
        ExprKindView::MethodCall { receiver, args } => {
            lemma_strip_keeps_expr(*receiver);
            lemma_strip_keeps_exprs(args);
        },
        ExprKindView::Paren { expr } => {
            lemma_strip_keeps_expr(*expr);
        },
        ExprKindView::Range { start, end } => {
            lemma_strip_keeps_opt(start);
            lemma_strip_keeps_opt(end);
        },
        ExprKindView::RawAddr { expr } => {
            lemma_strip_keeps_expr(*expr);
        },
        ExprKindView::Reference { expr } => {
            lemma_strip_keeps_expr(*expr);
        },
        ExprKindView::Repeat { expr, len } => {
            lemma_strip_keeps_expr(*expr);
            lemma_strip_keeps_expr(*len);
        },
        ExprKindView::Return { expr } => {
            lemma_strip_keeps_opt(expr);
        },
        ExprKindView::Struct { fields, base } => {
            lemma_strip_keeps_field_values(fields);
            lemma_strip_keeps_opt(base);
        },
        ExprKindView::Try { expr } => {
            lemma_strip_keeps_expr(*expr);
        },
        ExprKindView::TryBlock { block } => {
            lemma_strip_keeps_block(block);
        },
        ExprKindView::Tuple { elems } => {
            lemma_strip_keeps_exprs(elems);
        },
        ExprKindView::Unary { expr } => {
            lemma_strip_keeps_expr(*expr);
        },
        ExprKindView::Unsafe { block } => {
            lemma_strip_keeps_block(block);
        },
        ExprKindView::While { cond, body } => {
            lemma_strip_keeps_expr(*cond);
            lemma_strip_keeps_block(body);
        },
        ExprKindView::Yield { expr } => {
            lemma_strip_keeps_opt(expr);
        },
        ExprKindView::Other => {},
        ExprKindView::Verbatim => {},
    }
}

pub proof fn lemma_strip_keeps_exprs(s: Seq<ExprView>)
    requires
        !has_await_exprs(s),
    ensures
        strip_exprs(s) == s,
    decreases s,
{
    assert forall|i: int| 0 <= i < s.len() implies strip_exprs(s)[i] == s[i] by {
        assert(!has_await(s[i]));
        lemma_strip_keeps_expr(s[i]);
    }
    assert(strip_exprs(s) =~= s);
}

pub proof fn lemma_strip_keeps_opt(e: Option<Box<ExprView>>)
    requires
        !has_await_opt(e),
    ensures
        strip_opt_expr(e) == e,
    decreases e,
{
    if let Some(inner) = e {
        lemma_strip_keeps_expr(*inner);
    }
}

pub proof fn lemma_strip_keeps_arm(a: ArmView)
    requires
        !has_await_arm(a),
    ensures
        strip_arm(a) == a,
    decreases a,
{
    lemma_strip_keeps_opt(a.guard);
    lemma_strip_keeps_expr(*a.body);
}

pub proof fn lemma_strip_keeps_arms(s: Seq<ArmView>)
    requires
        !has_await_arms(s),
    ensures
        strip_arms(s) == s,
    decreases s,
{
    assert forall|i: int| 0 <= i < s.len() implies strip_arms(s)[i] == s[i] by {
        assert(!has_await_arm(s[i]));
        lemma_strip_keeps_arm(s[i]);
    }
    assert(strip_arms(s) =~= s);
}

pub proof fn lemma_strip_keeps_field_values(s: Seq<FieldValueView>)
    requires
        !has_await_field_values(s),
    ensures
        strip_field_values(s) == s,
    decreases s,
{
    assert forall|i: int| 0 <= i < s.len() implies strip_field_values(s)[i] == s[i] by {
        assert(!has_await(s[i].expr));
        lemma_strip_keeps_expr(s[i].expr);
    }
    assert(strip_field_values(s) =~= s);
}

pub proof fn lemma_strip_keeps_block(b: BlockView)
    requires
        !has_await_block(b),
    ensures
        strip_block(b) == b,
    decreases b,
{
    lemma_strip_keeps_stmts(b.stmts);
}

pub proof fn lemma_strip_keeps_stmts(s: Seq<StmtView>)
    requires
        !has_await_stmts(s),
    ensures
        strip_stmts(s) == s,
    decreases s,
{
    assert forall|i: int| 0 <= i < s.len() implies strip_stmts(s)[i] == s[i] by {
        assert(!has_await_stmt(s[i]));
        lemma_strip_keeps_stmt(s[i]);
    }
    assert(strip_stmts(s) =~= s);
}

pub proof fn lemma_strip_keeps_stmt(s: StmtView)
    requires
        !has_await_stmt(s),
    ensures
        strip_stmt(s) == s,
    decreases s,
{
    match s {
        StmtView::Local { local } => {
            if let Some(first) = local.init {
                lemma_strip_keeps_expr(*first.expr);
                lemma_strip_keeps_opt(first.diverge);
            }
        },
        StmtView::Expr { expr, .. } => lemma_strip_keeps_expr(expr),
        StmtView::Macro { .. } => {},
        StmtView::Item { .. } => {},
    }
}

} // verus!
