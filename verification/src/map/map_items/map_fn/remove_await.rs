//! Takes the suspension points out of statements and expressions.
//!
//! An expression `base.await` gives way to `base`, and the annotations of the
//! suspension point move to `base`. Every expression inside an expression is
//! treated in the same way. Items and macros among the statements are left as
//! they are: a function inside a function is rewritten on its own account.
use crate::ast::attr::{attrs_view, Attribute};
use crate::ast::expr::{
    arms_view, exprs_view, field_values_view, local_init_view, opt_expr_view, stmts_view, Arm,
    ArmView, Block, BlockView, Expr, ExprKind, ExprKindView, ExprView, FieldValue,
    FieldValueView, Local, LocalInit, LocalInitView, LocalView, Stmt, StmtView,
};
use crate::ast::token::Tokens;
use crate::map::map_items::map_fn::get_attrs::{expr_with_attrs, get_attrs_mut_from_expr};
use vstd::prelude::*;

verus! {

/// The expression without suspension points.
pub open spec fn strip_expr(e: ExprView) -> ExprView
    decreases e,
{
    match e.kind {
        ExprKindView::Array { elems } => ExprView {
            attrs: e.attrs,
            kind: ExprKindView::Array {
                elems: strip_exprs(elems),
            },
            rest: e.rest,
        },
        ExprKindView::Assign { left, right } => ExprView {
            attrs: e.attrs,
            kind: ExprKindView::Assign {
                left: Box::new(strip_expr(*left)),
                right: Box::new(strip_expr(*right)),
            },
            rest: e.rest,
        },
        ExprKindView::Async { block } => ExprView {
            attrs: e.attrs,
            kind: ExprKindView::Async {
                block: strip_block(block),
            },
            rest: e.rest,
        },
        ExprKindView::Await { base } => {
            let inner = strip_expr(*base);
            expr_with_attrs(inner, inner.attrs + e.attrs)
        },
        ExprKindView::Binary { left, right } => ExprView {
            attrs: e.attrs,
            kind: ExprKindView::Binary {
                left: Box::new(strip_expr(*left)),
                right: Box::new(strip_expr(*right)),
            },
            rest: e.rest,
        },
        ExprKindView::Block { block } => ExprView {
            attrs: e.attrs,
            kind: ExprKindView::Block {
                block: strip_block(block),
            },
            rest: e.rest,
        },
        ExprKindView::Break { expr } => ExprView {
            attrs: e.attrs,
            kind: ExprKindView::Break {
                expr: strip_opt_expr(expr),
            },
            rest: e.rest,
        },
        ExprKindView::Call { func, args } => ExprView {
            attrs: e.attrs,
            kind: ExprKindView::Call {
                func: Box::new(strip_expr(*func)),
                args: strip_exprs(args),
            },
            rest: e.rest,
        },
        ExprKindView::Cast { expr } => ExprView {
            attrs: e.attrs,
            kind: ExprKindView::Cast {
                expr: Box::new(strip_expr(*expr)),
            },
            rest: e.rest,
        },
        ExprKindView::Closure { body } => ExprView {
            attrs: e.attrs,
            kind: ExprKindView::Closure {
                body: Box::new(strip_expr(*body)),
            },
            rest: e.rest,
        },
        ExprKindView::Const { block } => ExprView {
            attrs: e.attrs,
            kind: ExprKindView::Const {
                block: strip_block(block),
            },
            rest: e.rest,
        },
        ExprKindView::Field { base } => ExprView {
            attrs: e.attrs,
            kind: ExprKindView::Field {
                base: Box::new(strip_expr(*base)),
            },
            rest: e.rest,
        },
        ExprKindView::ForLoop { expr, body } => ExprView {
            attrs: e.attrs,
            kind: ExprKindView::ForLoop {
                expr: Box::new(strip_expr(*expr)),
                body: strip_block(body),
            },
            rest: e.rest,
        },
        ExprKindView::Group { expr } => ExprView {
            attrs: e.attrs,
            kind: ExprKindView::Group {
                expr: Box::new(strip_expr(*expr)),
            },
            rest: e.rest,
        },
        ExprKindView::If { cond, then_branch, else_branch } => ExprView {
            attrs: e.attrs,
            kind: ExprKindView::If {
                cond: Box::new(strip_expr(*cond)),
                then_branch: strip_block(then_branch),
                else_branch: strip_opt_expr(else_branch),
            },
            rest: e.rest,
        },
        ExprKindView::Index { expr, index } => ExprView {
            attrs: e.attrs,
            kind: ExprKindView::Index {
                expr: Box::new(strip_expr(*expr)),
                index: Box::new(strip_expr(*index)),
            },
            rest: e.rest,
        },
        ExprKindView::Let { expr } => ExprView {
            attrs: e.attrs,
            kind: ExprKindView::Let {
                expr: Box::new(strip_expr(*expr)),
            },
            rest: e.rest,
        },
        ExprKindView::Loop { body } => ExprView {
            attrs: e.attrs,
            kind: ExprKindView::Loop {
                body: strip_block(body),
            },
            rest: e.rest,
        },
        ExprKindView::Match { expr, arms } => ExprView {
            attrs: e.attrs,
            kind: ExprKindView::Match {
                expr: Box::new(strip_expr(*expr)),
                arms: strip_arms(arms),
            },
            rest: e.rest,
        },
        ExprKindView::MethodCall { receiver, args } => ExprView {
            attrs: e.attrs,
            kind: ExprKindView::MethodCall {
                receiver: Box::new(strip_expr(*receiver)),
                args: strip_exprs(args),
            },
            rest: e.rest,
        },
        ExprKindView::Paren { expr } => ExprView {
            attrs: e.attrs,
            kind: ExprKindView::Paren {
                expr: Box::new(strip_expr(*expr)),
            },
            rest: e.rest,
        },
        ExprKindView::Range { start, end } => ExprView {
            attrs: e.attrs,
            kind: ExprKindView::Range {
                start: strip_opt_expr(start),
                end: strip_opt_expr(end),
            },
            rest: e.rest,
        },
        ExprKindView::RawAddr { expr } => ExprView {
            attrs: e.attrs,
            kind: ExprKindView::RawAddr {
                expr: Box::new(strip_expr(*expr)),
            },
            rest: e.rest,
        },
        ExprKindView::Reference { expr } => ExprView {
            attrs: e.attrs,
            kind: ExprKindView::Reference {
                expr: Box::new(strip_expr(*expr)),
            },
            rest: e.rest,
        },
        ExprKindView::Repeat { expr, len } => ExprView {
            attrs: e.attrs,
            kind: ExprKindView::Repeat {
                expr: Box::new(strip_expr(*expr)),
                len: Box::new(strip_expr(*len)),
            },
            rest: e.rest,
        },
        ExprKindView::Return { expr } => ExprView {
            attrs: e.attrs,
            kind: ExprKindView::Return {
                expr: strip_opt_expr(expr),
            },
            rest: e.rest,
        },
        ExprKindView::Struct { fields, base } => ExprView {
            attrs: e.attrs,
            kind: ExprKindView::Struct {
                fields: strip_field_values(fields),
                base: strip_opt_expr(base),
            },
            rest: e.rest,
        },
        ExprKindView::Try { expr } => ExprView {
            attrs: e.attrs,
            kind: ExprKindView::Try {
                expr: Box::new(strip_expr(*expr)),
            },
            rest: e.rest,
        },
        ExprKindView::TryBlock { block } => ExprView {
            attrs: e.attrs,
            kind: ExprKindView::TryBlock {
                block: strip_block(block),
            },
            rest: e.rest,
        },
        ExprKindView::Tuple { elems } => ExprView {
            attrs: e.attrs,
            kind: ExprKindView::Tuple {
                elems: strip_exprs(elems),
            },
            rest: e.rest,
        },
        ExprKindView::Unary { expr } => ExprView {
            attrs: e.attrs,
            kind: ExprKindView::Unary {
                expr: Box::new(strip_expr(*expr)),
            },
            rest: e.rest,
        },
        ExprKindView::Unsafe { block } => ExprView {
            attrs: e.attrs,
            kind: ExprKindView::Unsafe {
                block: strip_block(block),
            },
            rest: e.rest,
        },
        ExprKindView::While { cond, body } => ExprView {
            attrs: e.attrs,
            kind: ExprKindView::While {
                cond: Box::new(strip_expr(*cond)),
                body: strip_block(body),
            },
            rest: e.rest,
        },
        ExprKindView::Yield { expr } => ExprView {
            attrs: e.attrs,
            kind: ExprKindView::Yield {
                expr: strip_opt_expr(expr),
            },
            rest: e.rest,
        },
        ExprKindView::Other => e,
        ExprKindView::Verbatim => e,
    }
}

pub open spec fn strip_exprs(s: Seq<ExprView>) -> Seq<ExprView>
    decreases s,
{
    Seq::new(
        s.len(),
        |i: int|
            if 0 <= i < s.len() {
                strip_expr(s[i])
            } else {
                arbitrary()
            },
    )
}

pub open spec fn strip_opt_expr(e: Option<Box<ExprView>>) -> Option<Box<ExprView>>
    decreases e,
{
    match e {
        Some(e) => Some(Box::new(strip_expr(*e))),
        None => None,
    }
}

pub open spec fn strip_arm(a: ArmView) -> ArmView
    decreases a,
{
    ArmView { guard: strip_opt_expr(a.guard), body: Box::new(strip_expr(*a.body)), rest: a.rest }
}

pub open spec fn strip_arms(s: Seq<ArmView>) -> Seq<ArmView>
    decreases s,
{
    Seq::new(
        s.len(),
        |i: int|
            if 0 <= i < s.len() {
                strip_arm(s[i])
            } else {
                arbitrary()
            },
    )
}

pub open spec fn strip_field_value(f: FieldValueView) -> FieldValueView
    decreases f,
{
    FieldValueView { expr: strip_expr(f.expr), rest: f.rest }
}

pub open spec fn strip_field_values(s: Seq<FieldValueView>) -> Seq<FieldValueView>
    decreases s,
{
    Seq::new(
        s.len(),
        |i: int|
            if 0 <= i < s.len() {
                strip_field_value(s[i])
            } else {
                arbitrary()
            },
    )
}

pub open spec fn strip_block(b: BlockView) -> BlockView
    decreases b,
{
    BlockView { stmts: strip_stmts(b.stmts) }
}

pub open spec fn strip_stmts(s: Seq<StmtView>) -> Seq<StmtView>
    decreases s,
{
    Seq::new(
        s.len(),
        |i: int|
            if 0 <= i < s.len() {
                strip_stmt(s[i])
            } else {
                arbitrary()
            },
    )
}

/// The statement without suspension points. An item or a macro stays as it is.
pub open spec fn strip_stmt(s: StmtView) -> StmtView
    decreases s,
{
    match s {
        StmtView::Local { local } => StmtView::Local { local: strip_local(local) },
        StmtView::Expr { expr, semi } => StmtView::Expr { expr: strip_expr(expr), semi },
        StmtView::Macro { .. } => s,
        StmtView::Item { .. } => s,
    }
}

/// The `let` without suspension points in what it is initialised with and in
/// the block that it diverges to.
pub open spec fn strip_local(l: LocalView) -> LocalView
    decreases l,
{
    LocalView { attrs: l.attrs, init: strip_local_init(l.init), rest: l.rest }
}

pub open spec fn strip_local_init(init: Option<LocalInitView>) -> Option<LocalInitView>
    decreases init,
{
    match init {
        Some(init) => Some(
            LocalInitView {
                expr: Box::new(strip_expr(*init.expr)),
                diverge: strip_opt_expr(init.diverge),
            },
        ),
        None => None,
    }
}

pub fn remove_await_from_stmt(stmt: &mut Stmt)
    ensures
        final(stmt)@ == strip_stmt(old(stmt)@),
    decreases *old(stmt),
{
    match stmt {
        Stmt::Local { local } => remove_await_from_local(local),
        Stmt::Expr { expr, .. } => remove_await_from_expr(expr),
        Stmt::Macro { .. } => (),
        Stmt::Item { .. } => (),
    }
}

pub fn remove_await_from_local(local: &mut Local)
    ensures
        final(local)@ == strip_local(old(local)@),
    decreases *old(local),
{
    remove_await_from_local_init(&mut local.init);
}

/// Takes the suspension points out of what a `let` is initialised with.
pub fn remove_await_from_local_init(init: &mut Option<LocalInit>)
    ensures
        local_init_view(*final(init)) == strip_local_init(local_init_view(*old(init))),
    decreases *old(init),
{
    if let Some(init) = init {
        remove_await_from_expr(&mut *init.expr);
        remove_await_from_opt_expr(&mut init.diverge);
    }
}

/// Takes the suspension points out of an expression that may be left out.
pub fn remove_await_from_opt_expr(e: &mut Option<Box<Expr>>)
    ensures
        opt_expr_view(*final(e)) == strip_opt_expr(opt_expr_view(*old(e))),
    decreases *old(e),
{
    if let Some(e) = e {
        remove_await_from_expr(&mut **e);
    }
}

pub fn remove_await_from_expr(expr: &mut Expr)
    ensures
        final(expr)@ == strip_expr(old(expr)@),
    decreases *old(expr), 1nat,
{
    if expr.kind.is_await() {
        remove_await_from_expr_await(expr);
        return ;
    }
    match &mut expr.kind {
        ExprKind::Array { elems } => {
            remove_await_from_exprs(elems);
        },
        ExprKind::Assign { left, right } => {
            remove_await_from_expr(&mut **left);
            remove_await_from_expr(&mut **right);
        },
        ExprKind::Async { block } => {
            remove_await_from_block(block);
        },
        ExprKind::Await { .. } => (),
        ExprKind::Binary { left, right } => {
            remove_await_from_expr(&mut **left);
            remove_await_from_expr(&mut **right);
        },
        ExprKind::Block { block } => {
            remove_await_from_block(block);
        },
        ExprKind::Break { expr } => {
            remove_await_from_opt_expr(expr);
        },
        ExprKind::Call { func, args } => {
            remove_await_from_expr(&mut **func);
            remove_await_from_exprs(args);
        },
        ExprKind::Cast { expr } => {
            remove_await_from_expr(&mut **expr);
        },
        ExprKind::Closure { body } => {
            remove_await_from_expr(&mut **body);
        },
        ExprKind::Const { block } => {
            remove_await_from_block(block);
        },
        ExprKind::Field { base } => {
            remove_await_from_expr(&mut **base);
        },
        ExprKind::ForLoop { expr, body } => {
            remove_await_from_expr(&mut **expr);
            remove_await_from_block(body);
        },
        ExprKind::Group { expr } => {
            remove_await_from_expr(&mut **expr);
        },
        ExprKind::If { cond, then_branch, else_branch } => {
            remove_await_from_expr(&mut **cond);
            remove_await_from_block(then_branch);
            remove_await_from_opt_expr(else_branch);
        },
        ExprKind::Index { expr, index } => {
            remove_await_from_expr(&mut **expr);
            remove_await_from_expr(&mut **index);
        },
        ExprKind::Let { expr } => {
            remove_await_from_expr(&mut **expr);
        },
        ExprKind::Loop { body } => {
            remove_await_from_block(body);
        },
        ExprKind::Match { expr, arms } => {
            remove_await_from_expr(&mut **expr);
            remove_await_from_arms(arms);
        },
        ExprKind::MethodCall { receiver, args } => {
            remove_await_from_expr(&mut **receiver);
            remove_await_from_exprs(args);
        },
        ExprKind::Paren { expr } => {
            remove_await_from_expr(&mut **expr);
        },
        ExprKind::Range { start, end } => {
            remove_await_from_opt_expr(start);
            remove_await_from_opt_expr(end);
        },
        ExprKind::RawAddr { expr } => {
            remove_await_from_expr(&mut **expr);
        },
        ExprKind::Reference { expr } => {
            remove_await_from_expr(&mut **expr);
        },
        ExprKind::Repeat { expr, len } => {
            remove_await_from_expr(&mut **expr);
            remove_await_from_expr(&mut **len);
        },
        ExprKind::Return { expr } => {
            remove_await_from_opt_expr(expr);
        },
        ExprKind::Struct { fields, base } => {
            remove_await_from_field_values(fields);
            remove_await_from_opt_expr(base);
        },
        ExprKind::Try { expr } => {
            remove_await_from_expr(&mut **expr);
        },
        ExprKind::TryBlock { block } => {
            remove_await_from_block(block);
        },
        ExprKind::Tuple { elems } => {
            remove_await_from_exprs(elems);
        },
        ExprKind::Unary { expr } => {
            remove_await_from_expr(&mut **expr);
        },
        ExprKind::Unsafe { block } => {
            remove_await_from_block(block);
        },
        ExprKind::While { cond, body } => {
            remove_await_from_expr(&mut **cond);
            remove_await_from_block(body);
        },
        ExprKind::Yield { expr } => {
            remove_await_from_opt_expr(expr);
        },
        ExprKind::Other => (),
        ExprKind::Verbatim => (),
    }
}

impl ExprKind {
    /// Whether the expression is a suspension point.
    pub fn is_await(&self) -> (r: bool)
        ensures
            r == (self is Await),
    {
        match self {
            ExprKind::Await { .. } => true,
            _ => false,
        }
    }
}

pub fn remove_await_from_block(block: &mut Block)
    ensures
        final(block)@ == strip_block(old(block)@),
    decreases *old(block),
{
    remove_await_from_stmts(&mut block.stmts);
}

/// Puts the expression that is waited for in the place of a suspension point.
/// Any other expression is left as it is.
pub fn remove_await_from_expr_await(expr: &mut Expr)
    ensures
        old(expr).kind is Await ==> final(expr)@ == strip_expr(old(expr)@),
        !(old(expr).kind is Await) ==> *final(expr) == *old(expr),
    decreases *old(expr), 0nat,
{
    let (mut base_expr, mut await_attrs) = match &mut expr.kind {
        ExprKind::Await { base } => {
            remove_await_from_expr(&mut **base);
            let mut base_expr = Expr {
                attrs: Vec::new(),
                kind: ExprKind::Verbatim,
                rest: Tokens::none(),
            };
            std::mem::swap(&mut base_expr, &mut **base);
            let mut await_attrs: Vec<Attribute> = Vec::new();
            std::mem::swap(&mut await_attrs, &mut expr.attrs);
            (base_expr, await_attrs)
        },
        _ => {
            return ;
        },
    };
    let ghost inner = base_expr@;
    let ghost moved = attrs_view(await_attrs@);
    if let Some(attrs) = get_attrs_mut_from_expr(&mut base_expr) {
        let ghost before = attrs_view(attrs@);
        attrs.append(&mut await_attrs);
        assert(attrs_view(attrs@) =~= before + moved);
    }
    *expr = base_expr;
}

/// Takes the suspension points out of every expression of a list.
pub fn remove_await_from_exprs(v: &mut Vec<Expr>)
    ensures
        exprs_view(final(v)@) == strip_exprs(exprs_view(old(v)@)),
    decreases *old(v),
{
    let n = v.len();
    let mut k: usize = 0;
    while k < n
        invariant
            k <= n,
            n == v.len(),
            v.len() == old(v).len(),
            forall|j: int| 0 <= j < k ==> (#[trigger] v[j]).model() == strip_expr(old(v)[j].model()),
            forall|j: int| k <= j < n ==> v[j] == old(v)[j],
        decreases n - k,
    {
        proof {
            assert(v[k as int] == old(v)[k as int]);
            assert(decreases_to!(*old(v) => old(v)[k as int]));
        }
        remove_await_from_expr(&mut v[k]);
        k += 1;
    }
    assert(exprs_view(v@) =~= strip_exprs(exprs_view(old(v)@)));
}

/// Takes the suspension points out of the guard and the body of an arm.
pub fn remove_await_from_arm(arm: &mut Arm)
    ensures
        final(arm)@ == strip_arm(old(arm)@),
    decreases *old(arm),
{
    remove_await_from_expr(&mut *arm.body);
    remove_await_from_opt_expr(&mut arm.guard);
}

/// Takes the suspension points out of every arm of a `match`.
pub fn remove_await_from_arms(v: &mut Vec<Arm>)
    ensures
        arms_view(final(v)@) == strip_arms(arms_view(old(v)@)),
    decreases *old(v),
{
    let n = v.len();
    let mut k: usize = 0;
    while k < n
        invariant
            k <= n,
            n == v.len(),
            v.len() == old(v).len(),
            forall|j: int| 0 <= j < k ==> (#[trigger] v[j]).model() == strip_arm(old(v)[j].model()),
            forall|j: int| k <= j < n ==> v[j] == old(v)[j],
        decreases n - k,
    {
        proof {
            assert(v[k as int] == old(v)[k as int]);
            assert(decreases_to!(*old(v) => old(v)[k as int]));
        }
        remove_await_from_arm(&mut v[k]);
        k += 1;
    }
    assert(arms_view(v@) =~= strip_arms(arms_view(old(v)@)));
}

/// Takes the suspension points out of every field of a struct expression.
pub fn remove_await_from_field_values(v: &mut Vec<FieldValue>)
    ensures
        field_values_view(final(v)@) == strip_field_values(field_values_view(old(v)@)),
    decreases *old(v),
{
    let n = v.len();
    let mut k: usize = 0;
    while k < n
        invariant
            k <= n,
            n == v.len(),
            v.len() == old(v).len(),
            forall|j: int| 0 <= j < k ==> (#[trigger] v[j]).model() == strip_field_value(old(v)[j].model()),
            forall|j: int| k <= j < n ==> v[j] == old(v)[j],
        decreases n - k,
    {
        proof {
            assert(v[k as int] == old(v)[k as int]);
            assert(decreases_to!(*old(v) => old(v)[k as int]));
        }
        remove_await_from_expr(&mut v[k].expr);
        k += 1;
    }
    assert(field_values_view(v@) =~= strip_field_values(field_values_view(old(v)@)));
}

/// Takes the suspension points out of every statement of a list.
pub fn remove_await_from_stmts(v: &mut Vec<Stmt>)
    ensures
        stmts_view(final(v)@) == strip_stmts(stmts_view(old(v)@)),
    decreases *old(v),
{
    let n = v.len();
    let mut k: usize = 0;
    while k < n
        invariant
            k <= n,
            n == v.len(),
            v.len() == old(v).len(),
            forall|j: int| 0 <= j < k ==> (#[trigger] v[j]).model() == strip_stmt(old(v)[j].model()),
            forall|j: int| k <= j < n ==> v[j] == old(v)[j],
        decreases n - k,
    {
        proof {
            assert(v[k as int] == old(v)[k as int]);
            assert(decreases_to!(*old(v) => old(v)[k as int]));
        }
        remove_await_from_stmt(&mut v[k]);
        k += 1;
    }
    assert(stmts_view(v@) =~= strip_stmts(stmts_view(old(v)@)));
}

} // verus!
