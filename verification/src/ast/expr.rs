//! Expressions, statements and the items that stand among them.
//!
//! An expression can hold a block, a block holds statements, and a statement
//! can be an expression or a function with a block of its own: these nodes
//! contain each other, so they live in one file.
use crate::ast::attr::{attrs_view, clone_attrs, Attribute, AttributeView};
use crate::ast::decl::{Signature, SignatureView};
use crate::ast::token::Tokens;
use crate::ast::use_tree::{ItemUse, ItemUseView};
use vstd::prelude::*;

verus! {

/// An expression: its annotations, what kind of expression it is with the
/// expressions inside it, and in `rest` everything else that it holds, such as
/// operators, labels, patterns and types.
#[derive(Debug, PartialEq, Eq)]
pub struct Expr {
    pub attrs: Vec<Attribute>,
    pub kind: ExprKind,
    pub rest: Tokens,
}

/// The kinds of expression, each with the expressions and blocks inside it.
#[derive(Debug, PartialEq, Eq)]
#[allow(inconsistent_fields)]
pub enum ExprKind {
    /// `[a, b]`
    Array { elems: Vec<Expr> },
    /// `a = b`
    Assign { left: Box<Expr>, right: Box<Expr> },
    /// `async { .. }`
    Async { block: Block },
    /// `base.await`: a suspension point
    Await { base: Box<Expr> },
    /// `a + b`, `a += b`
    Binary { left: Box<Expr>, right: Box<Expr> },
    /// `'a: { .. }`
    Block { block: Block },
    /// `break 'a value`
    Break { expr: Option<Box<Expr>> },
    /// `f(a, b)`
    Call { func: Box<Expr>, args: Vec<Expr> },
    /// `a as T`
    Cast { expr: Box<Expr> },
    /// `|a| body`
    Closure { body: Box<Expr> },
    /// `const { .. }`
    Const { block: Block },
    /// `base.field`
    Field { base: Box<Expr> },
    /// `for p in expr { .. }`
    ForLoop { expr: Box<Expr>, body: Block },
    /// An expression in invisible delimiters.
    Group { expr: Box<Expr> },
    /// `if cond { .. } else ..`
    If { cond: Box<Expr>, then_branch: Block, else_branch: Option<Box<Expr>> },
    /// `a[i]`
    Index { expr: Box<Expr>, index: Box<Expr> },
    /// `let p = expr` in a condition
    Let { expr: Box<Expr> },
    /// `loop { .. }`
    Loop { body: Block },
    /// `match expr { .. }`
    Match { expr: Box<Expr>, arms: Vec<Arm> },
    /// `a.f(b, c)`
    MethodCall { receiver: Box<Expr>, args: Vec<Expr> },
    /// `(a)`
    Paren { expr: Box<Expr> },
    /// `a..b`
    Range { start: Option<Box<Expr>>, end: Option<Box<Expr>> },
    /// `&raw const a`
    RawAddr { expr: Box<Expr> },
    /// `&mut a`
    Reference { expr: Box<Expr> },
    /// `[a; n]`
    Repeat { expr: Box<Expr>, len: Box<Expr> },
    /// `return a`
    Return { expr: Option<Box<Expr>> },
    /// `S { a: x, ..base }`
    Struct { fields: Vec<FieldValue>, base: Option<Box<Expr>> },
    /// `a?`
    Try { expr: Box<Expr> },
    /// `try { .. }`
    TryBlock { block: Block },
    /// `(a, b)`
    Tuple { elems: Vec<Expr> },
    /// `!a`, `*a`, `-a`
    Unary { expr: Box<Expr> },
    /// `unsafe { .. }`
    Unsafe { block: Block },
    /// `while cond { .. }`
    While { cond: Box<Expr>, body: Block },
    /// `yield a`
    Yield { expr: Option<Box<Expr>> },
    /// A literal, a path, a macro, `_` or `continue`.
    Other,
    /// Tokens not understood. Such an expression has no annotations.
    Verbatim,
}

/// One arm of a `match`; `rest` holds its annotations and its pattern.
#[derive(Debug, PartialEq, Eq)]
pub struct Arm {
    pub guard: Option<Box<Expr>>,
    pub body: Box<Expr>,
    pub rest: Tokens,
}

/// One field of a struct expression; `rest` holds its annotations and name.
#[derive(Debug, PartialEq, Eq)]
pub struct FieldValue {
    pub expr: Expr,
    pub rest: Tokens,
}

/// A block: `{ a; b; c }`
#[derive(Debug, PartialEq, Eq)]
pub struct Block {
    pub stmts: Vec<Stmt>,
}

/// A statement.
#[derive(Debug, PartialEq, Eq)]
pub enum Stmt {
    /// `let p = init;`
    Local { local: Local },
    /// An item among the statements.
    Item { item: Item },
    /// An expression, with or without `;` behind it.
    Expr { expr: Expr, semi: bool },
    /// A macro in statement position.
    Macro { attrs: Vec<Attribute>, rest: Tokens },
}

/// `let p = expr else { diverge };` with the pattern in `rest`.
#[derive(Debug, PartialEq, Eq)]
pub struct Local {
    pub attrs: Vec<Attribute>,
    pub init: Option<LocalInit>,
    pub rest: Tokens,
}

/// What stands behind `=` in a `let`.
#[derive(Debug, PartialEq, Eq)]
pub struct LocalInit {
    pub expr: Box<Expr>,
    pub diverge: Option<Box<Expr>>,
}

/// An item in a namespace or among statements.
#[derive(Debug, PartialEq, Eq)]
#[allow(inconsistent_fields)]
pub enum Item {
    /// A function.
    Fn { item: ItemFn },
    /// An import.
    Use { item: ItemUse },
    /// Any other item: only its annotations are read.
    Other { attrs: Vec<Attribute>, rest: Tokens },
    /// Tokens not understood. Such an item has no annotations.
    Verbatim { rest: Tokens },
}

/// A function; `rest` holds its visibility.
#[derive(Debug, PartialEq, Eq)]
pub struct ItemFn {
    pub attrs: Vec<Attribute>,
    pub sig: Signature,
    pub block: Box<Block>,
    pub rest: Tokens,
}

pub struct ExprView {
    pub attrs: Seq<AttributeView>,
    pub kind: ExprKindView,
    pub rest: Tokens,
}

#[allow(inconsistent_fields)]
pub enum ExprKindView {
    Array { elems: Seq<ExprView> },
    Assign { left: Box<ExprView>, right: Box<ExprView> },
    Async { block: BlockView },
    Await { base: Box<ExprView> },
    Binary { left: Box<ExprView>, right: Box<ExprView> },
    Block { block: BlockView },
    Break { expr: Option<Box<ExprView>> },
    Call { func: Box<ExprView>, args: Seq<ExprView> },
    Cast { expr: Box<ExprView> },
    Closure { body: Box<ExprView> },
    Const { block: BlockView },
    Field { base: Box<ExprView> },
    ForLoop { expr: Box<ExprView>, body: BlockView },
    Group { expr: Box<ExprView> },
    If { cond: Box<ExprView>, then_branch: BlockView, else_branch: Option<Box<ExprView>> },
    Index { expr: Box<ExprView>, index: Box<ExprView> },
    Let { expr: Box<ExprView> },
    Loop { body: BlockView },
    Match { expr: Box<ExprView>, arms: Seq<ArmView> },
    MethodCall { receiver: Box<ExprView>, args: Seq<ExprView> },
    Paren { expr: Box<ExprView> },
    Range { start: Option<Box<ExprView>>, end: Option<Box<ExprView>> },
    RawAddr { expr: Box<ExprView> },
    Reference { expr: Box<ExprView> },
    Repeat { expr: Box<ExprView>, len: Box<ExprView> },
    Return { expr: Option<Box<ExprView>> },
    Struct { fields: Seq<FieldValueView>, base: Option<Box<ExprView>> },
    Try { expr: Box<ExprView> },
    TryBlock { block: BlockView },
    Tuple { elems: Seq<ExprView> },
    Unary { expr: Box<ExprView> },
    Unsafe { block: BlockView },
    While { cond: Box<ExprView>, body: BlockView },
    Yield { expr: Option<Box<ExprView>> },
    Other,
    Verbatim,
}

pub struct ArmView {
    pub guard: Option<Box<ExprView>>,
    pub body: Box<ExprView>,
    pub rest: Tokens,
}

pub struct FieldValueView {
    pub expr: ExprView,
    pub rest: Tokens,
}

pub struct BlockView {
    pub stmts: Seq<StmtView>,
}

pub enum StmtView {
    Local { local: LocalView },
    Item { item: ItemView },
    Expr { expr: ExprView, semi: bool },
    Macro { attrs: Seq<AttributeView>, rest: Tokens },
}

pub struct LocalView {
    pub attrs: Seq<AttributeView>,
    pub init: Option<LocalInitView>,
    pub rest: Tokens,
}

pub struct LocalInitView {
    pub expr: Box<ExprView>,
    pub diverge: Option<Box<ExprView>>,
}

#[allow(inconsistent_fields)]
pub enum ItemView {
    Fn { item: ItemFnView },
    Use { item: ItemUseView },
    Other { attrs: Seq<AttributeView>, rest: Tokens },
    Verbatim { rest: Tokens },
}

pub struct ItemFnView {
    pub attrs: Seq<AttributeView>,
    pub sig: SignatureView,
    pub block: Box<BlockView>,
    pub rest: Tokens,
}

/// The views of a list of expressions.
pub open spec fn exprs_view(v: Seq<Expr>) -> Seq<ExprView>
    decreases v,
{
    Seq::new(
        v.len(),
        |i: int|
            if 0 <= i < v.len() {
                v[i].model()
            } else {
                arbitrary()
            },
    )
}

/// The views of the arms of a `match`.
pub open spec fn arms_view(v: Seq<Arm>) -> Seq<ArmView>
    decreases v,
{
    Seq::new(
        v.len(),
        |i: int|
            if 0 <= i < v.len() {
                v[i].model()
            } else {
                arbitrary()
            },
    )
}

/// The views of the fields of a struct expression.
pub open spec fn field_values_view(v: Seq<FieldValue>) -> Seq<FieldValueView>
    decreases v,
{
    Seq::new(
        v.len(),
        |i: int|
            if 0 <= i < v.len() {
                v[i].model()
            } else {
                arbitrary()
            },
    )
}

/// The views of a list of statements.
pub open spec fn stmts_view(v: Seq<Stmt>) -> Seq<StmtView>
    decreases v,
{
    Seq::new(
        v.len(),
        |i: int|
            if 0 <= i < v.len() {
                v[i].model()
            } else {
                arbitrary()
            },
    )
}

/// The views of a list of items.
pub open spec fn items_view(v: Seq<Item>) -> Seq<ItemView>
    decreases v,
{
    Seq::new(
        v.len(),
        |i: int|
            if 0 <= i < v.len() {
                v[i].model()
            } else {
                arbitrary()
            },
    )
}

/// The view of an expression that may be left out.
pub open spec fn opt_expr_view(e: Option<Box<Expr>>) -> Option<Box<ExprView>>
    decreases e,
{
    match e {
        Some(e) => Some(Box::new(e.model())),
        None => None,
    }
}

/// The view of what stands behind `=` in a `let`, if anything does.
pub open spec fn local_init_view(init: Option<LocalInit>) -> Option<LocalInitView>
    decreases init,
{
    match init {
        Some(init) => Some(
            LocalInitView {
                expr: Box::new(init.expr.model()),
                diverge: opt_expr_view(init.diverge),
            },
        ),
        None => None,
    }
}

impl Expr {
    pub open spec fn model(self) -> ExprView
        decreases self,
    {
        ExprView { attrs: attrs_view(self.attrs@), kind: self.kind.model(), rest: self.rest }
    }
}

impl ExprKind {
    pub open spec fn model(self) -> ExprKindView
        decreases self,
    {
        match self {
            ExprKind::Array { elems } => ExprKindView::Array {
                elems: exprs_view(elems@),
            },
            ExprKind::Assign { left, right } => ExprKindView::Assign {
                left: Box::new(left.model()),
                right: Box::new(right.model()),
            },
            ExprKind::Async { block } => ExprKindView::Async {
                block: block.model(),
            },
            ExprKind::Await { base } => ExprKindView::Await {
                base: Box::new(base.model()),
            },
            ExprKind::Binary { left, right } => ExprKindView::Binary {
                left: Box::new(left.model()),
                right: Box::new(right.model()),
            },
            ExprKind::Block { block } => ExprKindView::Block {
                block: block.model(),
            },
            ExprKind::Break { expr } => ExprKindView::Break {
                expr: opt_expr_view(expr),
            },
            ExprKind::Call { func, args } => ExprKindView::Call {
                func: Box::new(func.model()),
                args: exprs_view(args@),
            },
            ExprKind::Cast { expr } => ExprKindView::Cast {
                expr: Box::new(expr.model()),
            },
            ExprKind::Closure { body } => ExprKindView::Closure {
                body: Box::new(body.model()),
            },
            ExprKind::Const { block } => ExprKindView::Const {
                block: block.model(),
            },
            ExprKind::Field { base } => ExprKindView::Field {
                base: Box::new(base.model()),
            },
            ExprKind::ForLoop { expr, body } => ExprKindView::ForLoop {
                expr: Box::new(expr.model()),
                body: body.model(),
            },
            ExprKind::Group { expr } => ExprKindView::Group {
                expr: Box::new(expr.model()),
            },
            ExprKind::If { cond, then_branch, else_branch } => ExprKindView::If {
                cond: Box::new(cond.model()),
                then_branch: then_branch.model(),
                else_branch: opt_expr_view(else_branch),
            },
            ExprKind::Index { expr, index } => ExprKindView::Index {
                expr: Box::new(expr.model()),
                index: Box::new(index.model()),
            },
            ExprKind::Let { expr } => ExprKindView::Let {
                expr: Box::new(expr.model()),
            },
            ExprKind::Loop { body } => ExprKindView::Loop {
                body: body.model(),
            },
            ExprKind::Match { expr, arms } => ExprKindView::Match {
                expr: Box::new(expr.model()),
                arms: arms_view(arms@),
            },
            ExprKind::MethodCall { receiver, args } => ExprKindView::MethodCall {
                receiver: Box::new(receiver.model()),
                args: exprs_view(args@),
            },
            ExprKind::Paren { expr } => ExprKindView::Paren {
                expr: Box::new(expr.model()),
            },
            ExprKind::Range { start, end } => ExprKindView::Range {
                start: opt_expr_view(start),
                end: opt_expr_view(end),
            },
            ExprKind::RawAddr { expr } => ExprKindView::RawAddr {
                expr: Box::new(expr.model()),
            },
            ExprKind::Reference { expr } => ExprKindView::Reference {
                expr: Box::new(expr.model()),
            },
            ExprKind::Repeat { expr, len } => ExprKindView::Repeat {
                expr: Box::new(expr.model()),
                len: Box::new(len.model()),
            },
            ExprKind::Return { expr } => ExprKindView::Return {
                expr: opt_expr_view(expr),
            },
            ExprKind::Struct { fields, base } => ExprKindView::Struct {
                fields: field_values_view(fields@),
                base: opt_expr_view(base),
            },
            ExprKind::Try { expr } => ExprKindView::Try {
                expr: Box::new(expr.model()),
            },
            ExprKind::TryBlock { block } => ExprKindView::TryBlock {
                block: block.model(),
            },
            ExprKind::Tuple { elems } => ExprKindView::Tuple {
                elems: exprs_view(elems@),
            },
            ExprKind::Unary { expr } => ExprKindView::Unary {
                expr: Box::new(expr.model()),
            },
            ExprKind::Unsafe { block } => ExprKindView::Unsafe {
                block: block.model(),
            },
            ExprKind::While { cond, body } => ExprKindView::While {
                cond: Box::new(cond.model()),
                body: body.model(),
            },
            ExprKind::Yield { expr } => ExprKindView::Yield {
                expr: opt_expr_view(expr),
            },
            ExprKind::Other => ExprKindView::Other,
            ExprKind::Verbatim => ExprKindView::Verbatim,
        }
    }
}

impl Arm {
    pub open spec fn model(self) -> ArmView
        decreases self,
    {
        ArmView {
            guard: opt_expr_view(self.guard),
            body: Box::new(self.body.model()),
            rest: self.rest,
        }
    }
}

impl FieldValue {
    pub open spec fn model(self) -> FieldValueView
        decreases self,
    {
        FieldValueView { expr: self.expr.model(), rest: self.rest }
    }
}

impl Block {
    pub open spec fn model(self) -> BlockView
        decreases self,
    {
        BlockView { stmts: stmts_view(self.stmts@) }
    }
}

impl Stmt {
    pub open spec fn model(self) -> StmtView
        decreases self,
    {
        match self {
            Stmt::Local { local } => StmtView::Local { local: local.model() },
            Stmt::Item { item } => StmtView::Item { item: item.model() },
            Stmt::Expr { expr, semi } => StmtView::Expr { expr: expr.model(), semi },
            Stmt::Macro { attrs, rest } => StmtView::Macro { attrs: attrs_view(attrs@), rest },
        }
    }
}

impl Local {
    pub open spec fn model(self) -> LocalView
        decreases self,
    {
        LocalView {
            attrs: attrs_view(self.attrs@),
            init: local_init_view(self.init),
            rest: self.rest,
        }
    }
}

impl Item {
    pub open spec fn model(self) -> ItemView
        decreases self,
    {
        match self {
            Item::Fn { item } => ItemView::Fn { item: item.model() },
            Item::Use { item } => ItemView::Use { item: item@ },
            Item::Other { attrs, rest } => ItemView::Other { attrs: attrs_view(attrs@), rest },
            Item::Verbatim { rest } => ItemView::Verbatim { rest },
        }
    }
}

impl ItemFn {
    pub open spec fn model(self) -> ItemFnView
        decreases self,
    {
        ItemFnView {
            attrs: attrs_view(self.attrs@),
            sig: self.sig@,
            block: Box::new(self.block.model()),
            rest: self.rest,
        }
    }
}

impl View for Expr {
    type V = ExprView;

    open spec fn view(&self) -> ExprView {
        self.model()
    }
}

impl View for ExprKind {
    type V = ExprKindView;

    open spec fn view(&self) -> ExprKindView {
        self.model()
    }
}

impl View for Arm {
    type V = ArmView;

    open spec fn view(&self) -> ArmView {
        self.model()
    }
}

impl View for FieldValue {
    type V = FieldValueView;

    open spec fn view(&self) -> FieldValueView {
        self.model()
    }
}

impl View for Block {
    type V = BlockView;

    open spec fn view(&self) -> BlockView {
        self.model()
    }
}

impl View for Stmt {
    type V = StmtView;

    open spec fn view(&self) -> StmtView {
        self.model()
    }
}

impl View for Local {
    type V = LocalView;

    open spec fn view(&self) -> LocalView {
        self.model()
    }
}

impl View for Item {
    type V = ItemView;

    open spec fn view(&self) -> ItemView {
        self.model()
    }
}

impl View for ItemFn {
    type V = ItemFnView;

    open spec fn view(&self) -> ItemFnView {
        self.model()
    }
}

impl Expr {
    pub fn duplicate(&self) -> (r: Expr)
        ensures
            r@ == self@,
        decreases self,
    {
        Expr { attrs: clone_attrs(&self.attrs), kind: self.kind.duplicate(), rest: self.rest }
    }
}

impl ExprKind {
    pub fn duplicate(&self) -> (r: ExprKind)
        ensures
            r@ == self@,
        decreases self,
    {
        match self {
            ExprKind::Array { elems } => ExprKind::Array {
                elems: duplicate_exprs(elems),
            },
            ExprKind::Assign { left, right } => ExprKind::Assign {
                left: Box::new(left.duplicate()),
                right: Box::new(right.duplicate()),
            },
            ExprKind::Async { block } => ExprKind::Async {
                block: block.duplicate(),
            },
            ExprKind::Await { base } => ExprKind::Await {
                base: Box::new(base.duplicate()),
            },
            ExprKind::Binary { left, right } => ExprKind::Binary {
                left: Box::new(left.duplicate()),
                right: Box::new(right.duplicate()),
            },
            ExprKind::Block { block } => ExprKind::Block {
                block: block.duplicate(),
            },
            ExprKind::Break { expr } => ExprKind::Break {
                expr: duplicate_opt_expr(expr),
            },
            ExprKind::Call { func, args } => ExprKind::Call {
                func: Box::new(func.duplicate()),
                args: duplicate_exprs(args),
            },
            ExprKind::Cast { expr } => ExprKind::Cast {
                expr: Box::new(expr.duplicate()),
            },
            ExprKind::Closure { body } => ExprKind::Closure {
                body: Box::new(body.duplicate()),
            },
            ExprKind::Const { block } => ExprKind::Const {
                block: block.duplicate(),
            },
            ExprKind::Field { base } => ExprKind::Field {
                base: Box::new(base.duplicate()),
            },
            ExprKind::ForLoop { expr, body } => ExprKind::ForLoop {
                expr: Box::new(expr.duplicate()),
                body: body.duplicate(),
            },
            ExprKind::Group { expr } => ExprKind::Group {
                expr: Box::new(expr.duplicate()),
            },
            ExprKind::If { cond, then_branch, else_branch } => ExprKind::If {
                cond: Box::new(cond.duplicate()),
                then_branch: then_branch.duplicate(),
                else_branch: duplicate_opt_expr(else_branch),
            },
            ExprKind::Index { expr, index } => ExprKind::Index {
                expr: Box::new(expr.duplicate()),
                index: Box::new(index.duplicate()),
            },
            ExprKind::Let { expr } => ExprKind::Let {
                expr: Box::new(expr.duplicate()),
            },
            ExprKind::Loop { body } => ExprKind::Loop {
                body: body.duplicate(),
            },
            ExprKind::Match { expr, arms } => ExprKind::Match {
                expr: Box::new(expr.duplicate()),
                arms: duplicate_arms(arms),
            },
            ExprKind::MethodCall { receiver, args } => ExprKind::MethodCall {
                receiver: Box::new(receiver.duplicate()),
                args: duplicate_exprs(args),
            },
            ExprKind::Paren { expr } => ExprKind::Paren {
                expr: Box::new(expr.duplicate()),
            },
            ExprKind::Range { start, end } => ExprKind::Range {
                start: duplicate_opt_expr(start),
                end: duplicate_opt_expr(end),
            },
            ExprKind::RawAddr { expr } => ExprKind::RawAddr {
                expr: Box::new(expr.duplicate()),
            },
            ExprKind::Reference { expr } => ExprKind::Reference {
                expr: Box::new(expr.duplicate()),
            },
            ExprKind::Repeat { expr, len } => ExprKind::Repeat {
                expr: Box::new(expr.duplicate()),
                len: Box::new(len.duplicate()),
            },
            ExprKind::Return { expr } => ExprKind::Return {
                expr: duplicate_opt_expr(expr),
            },
            ExprKind::Struct { fields, base } => ExprKind::Struct {
                fields: duplicate_field_values(fields),
                base: duplicate_opt_expr(base),
            },
            ExprKind::Try { expr } => ExprKind::Try {
                expr: Box::new(expr.duplicate()),
            },
            ExprKind::TryBlock { block } => ExprKind::TryBlock {
                block: block.duplicate(),
            },
            ExprKind::Tuple { elems } => ExprKind::Tuple {
                elems: duplicate_exprs(elems),
            },
            ExprKind::Unary { expr } => ExprKind::Unary {
                expr: Box::new(expr.duplicate()),
            },
            ExprKind::Unsafe { block } => ExprKind::Unsafe {
                block: block.duplicate(),
            },
            ExprKind::While { cond, body } => ExprKind::While {
                cond: Box::new(cond.duplicate()),
                body: body.duplicate(),
            },
            ExprKind::Yield { expr } => ExprKind::Yield {
                expr: duplicate_opt_expr(expr),
            },
            ExprKind::Other => ExprKind::Other,
            ExprKind::Verbatim => ExprKind::Verbatim,
        }
    }
}

impl Arm {
    pub fn duplicate(&self) -> (r: Arm)
        ensures
            r@ == self@,
        decreases self,
    {
        Arm {
            guard: duplicate_opt_expr(&self.guard),
            body: Box::new(self.body.duplicate()),
            rest: self.rest,
        }
    }
}

impl FieldValue {
    pub fn duplicate(&self) -> (r: FieldValue)
        ensures
            r@ == self@,
        decreases self,
    {
        FieldValue { expr: self.expr.duplicate(), rest: self.rest }
    }
}

impl Block {
    pub fn duplicate(&self) -> (r: Block)
        ensures
            r@ == self@,
        decreases self,
    {
        Block { stmts: duplicate_stmts(&self.stmts) }
    }
}

impl Stmt {
    pub fn duplicate(&self) -> (r: Stmt)
        ensures
            r@ == self@,
        decreases self,
    {
        match self {
            Stmt::Local { local } => Stmt::Local { local: local.duplicate() },
            Stmt::Item { item } => Stmt::Item { item: item.duplicate() },
            Stmt::Expr { expr, semi } => Stmt::Expr { expr: expr.duplicate(), semi: *semi },
            Stmt::Macro { attrs, rest } => Stmt::Macro { attrs: clone_attrs(attrs), rest: *rest },
        }
    }
}

impl Local {
    pub fn duplicate(&self) -> (r: Local)
        ensures
            r@ == self@,
        decreases self,
    {
        Local {
            attrs: clone_attrs(&self.attrs),
            init: duplicate_local_init(&self.init),
            rest: self.rest,
        }
    }
}

impl Item {
    pub fn duplicate(&self) -> (r: Item)
        ensures
            r@ == self@,
        decreases self,
    {
        match self {
            Item::Fn { item } => Item::Fn { item: item.duplicate() },
            Item::Use { item } => Item::Use { item: item.clone() },
            Item::Other { attrs, rest } => Item::Other { attrs: clone_attrs(attrs), rest: *rest },
            Item::Verbatim { rest } => Item::Verbatim { rest: *rest },
        }
    }
}

impl ItemFn {
    pub fn duplicate(&self) -> (r: ItemFn)
        ensures
            r@ == self@,
        decreases self,
    {
        ItemFn {
            attrs: clone_attrs(&self.attrs),
            sig: self.sig.duplicate(),
            block: Box::new(self.block.duplicate()),
            rest: self.rest,
        }
    }
}

pub fn duplicate_opt_expr(e: &Option<Box<Expr>>) -> (r: Option<Box<Expr>>)
    ensures
        opt_expr_view(r) == opt_expr_view(*e),
    decreases e,
{
    match e {
        Some(e) => Some(Box::new(e.duplicate())),
        None => None,
    }
}

pub fn duplicate_local_init(init: &Option<LocalInit>) -> (r: Option<LocalInit>)
    ensures
        local_init_view(r) == local_init_view(*init),
    decreases init,
{
    match init {
        Some(init) => Some(
            LocalInit {
                expr: Box::new(init.expr.duplicate()),
                diverge: duplicate_opt_expr(&init.diverge),
            },
        ),
        None => None,
    }
}

pub fn duplicate_exprs(v: &Vec<Expr>) -> (r: Vec<Expr>)
    ensures
        exprs_view(r@) == exprs_view(v@),
    decreases v,
{
    let mut out: Vec<Expr> = Vec::new();
    let mut i: usize = 0;
    while i < v.len()
        invariant
            i <= v.len(),
            out.len() == i,
            forall|j: int| 0 <= j < i ==> (#[trigger] out[j]).model() == v[j].model(),
        decreases v.len() - i,
    {
        out.push(v[i].duplicate());
        i += 1;
    }
    assert(exprs_view(out@) =~= exprs_view(v@));
    out
}

pub fn duplicate_arms(v: &Vec<Arm>) -> (r: Vec<Arm>)
    ensures
        arms_view(r@) == arms_view(v@),
    decreases v,
{
    let mut out: Vec<Arm> = Vec::new();
    let mut i: usize = 0;
    while i < v.len()
        invariant
            i <= v.len(),
            out.len() == i,
            forall|j: int| 0 <= j < i ==> (#[trigger] out[j]).model() == v[j].model(),
        decreases v.len() - i,
    {
        out.push(v[i].duplicate());
        i += 1;
    }
    assert(arms_view(out@) =~= arms_view(v@));
    out
}

pub fn duplicate_field_values(v: &Vec<FieldValue>) -> (r: Vec<FieldValue>)
    ensures
        field_values_view(r@) == field_values_view(v@),
    decreases v,
{
    let mut out: Vec<FieldValue> = Vec::new();
    let mut i: usize = 0;
    while i < v.len()
        invariant
            i <= v.len(),
            out.len() == i,
            forall|j: int| 0 <= j < i ==> (#[trigger] out[j]).model() == v[j].model(),
        decreases v.len() - i,
    {
        out.push(v[i].duplicate());
        i += 1;
    }
    assert(field_values_view(out@) =~= field_values_view(v@));
    out
}

pub fn duplicate_stmts(v: &Vec<Stmt>) -> (r: Vec<Stmt>)
    ensures
        stmts_view(r@) == stmts_view(v@),
    decreases v,
{
    let mut out: Vec<Stmt> = Vec::new();
    let mut i: usize = 0;
    while i < v.len()
        invariant
            i <= v.len(),
            out.len() == i,
            forall|j: int| 0 <= j < i ==> (#[trigger] out[j]).model() == v[j].model(),
        decreases v.len() - i,
    {
        out.push(v[i].duplicate());
        i += 1;
    }
    assert(stmts_view(out@) =~= stmts_view(v@));
    out
}

pub fn duplicate_items(v: &Vec<Item>) -> (r: Vec<Item>)
    ensures
        items_view(r@) == items_view(v@),
    decreases v,
{
    let mut out: Vec<Item> = Vec::new();
    let mut i: usize = 0;
    while i < v.len()
        invariant
            i <= v.len(),
            out.len() == i,
            forall|j: int| 0 <= j < i ==> (#[trigger] out[j]).model() == v[j].model(),
        decreases v.len() - i,
    {
        out.push(v[i].duplicate());
        i += 1;
    }
    assert(items_view(out@) =~= items_view(v@));
    out
}

impl Clone for Expr {
    fn clone(&self) -> (r: Self)
        ensures
            r@ == self@,
    {
        self.duplicate()
    }
}

impl Clone for ExprKind {
    fn clone(&self) -> (r: Self)
        ensures
            r@ == self@,
    {
        self.duplicate()
    }
}

impl Clone for Arm {
    fn clone(&self) -> (r: Self)
        ensures
            r@ == self@,
    {
        self.duplicate()
    }
}

impl Clone for FieldValue {
    fn clone(&self) -> (r: Self)
        ensures
            r@ == self@,
    {
        self.duplicate()
    }
}

impl Clone for Block {
    fn clone(&self) -> (r: Self)
        ensures
            r@ == self@,
    {
        self.duplicate()
    }
}

impl Clone for Stmt {
    fn clone(&self) -> (r: Self)
        ensures
            r@ == self@,
    {
        self.duplicate()
    }
}

impl Clone for Local {
    fn clone(&self) -> (r: Self)
        ensures
            r@ == self@,
    {
        self.duplicate()
    }
}

impl Clone for Item {
    fn clone(&self) -> (r: Self)
        ensures
            r@ == self@,
    {
        self.duplicate()
    }
}

impl Clone for ItemFn {
    fn clone(&self) -> (r: Self)
        ensures
            r@ == self@,
    {
        self.duplicate()
    }
}

} // verus!
