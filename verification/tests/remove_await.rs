use sync_async::ast::{
    Arm, Attribute, Block, Expr, ExprKind, FieldValue, Generics, Ident, Item, ItemFn, Local,
    LocalInit, Meta, Path, PathArguments, PathSegment, ReturnType, Signature, Span, Stmt, Tokens,
};
use sync_async::map::{
    get_attrs_mut_from_expr, get_attrs_mut_from_item, get_attrs_mut_from_stmt,
    remove_await_from_block, remove_await_from_expr, remove_await_from_expr_await,
    remove_await_from_local, remove_await_from_stmt,
};

const REST: Tokens = Tokens { id: 5 };

fn marker(name: &str) -> Attribute {
    Attribute {
        span: Span { id: 1 },
        meta: Meta::Path {
            path: Path {
                leading_colon: false,
                segments: vec![PathSegment {
                    ident: Ident::new(name, Span { id: 2 }),
                    arguments: PathArguments::Empty,
                }],
            },
        },
        rest: REST,
    }
}

fn expr(kind: ExprKind) -> Expr {
    Expr { attrs: vec![], kind, rest: REST }
}

fn leaf(id: u64) -> Expr {
    Expr { attrs: vec![], kind: ExprKind::Other, rest: Tokens { id } }
}

fn bx(e: Expr) -> Box<Expr> {
    Box::new(e)
}

fn awaited(e: Expr) -> Expr {
    Expr { attrs: vec![], kind: ExprKind::Await { base: bx(e) }, rest: Tokens { id: 99 } }
}

fn block(exprs: Vec<Expr>) -> Block {
    Block { stmts: exprs.into_iter().map(|expr| Stmt::Expr { expr, semi: true }).collect() }
}

fn stripped(mut e: Expr) -> Expr {
    remove_await_from_expr(&mut e);
    e
}

#[test]
fn suspension_point_gives_way_to_what_is_waited_for() {
    assert_eq!(stripped(awaited(leaf(1))), leaf(1));
}

#[test]
fn suspension_points_inside_each_other_all_go() {
    let call = expr(ExprKind::MethodCall { receiver: bx(awaited(leaf(1))), args: vec![awaited(leaf(2))] });
    let expected = expr(ExprKind::MethodCall { receiver: bx(leaf(1)), args: vec![leaf(2)] });
    assert_eq!(stripped(awaited(awaited(call))), expected);
}

#[test]
fn annotations_of_the_suspension_point_move_to_the_expression() {
    let mut base = leaf(1);
    base.attrs = vec![marker("a")];
    let mut outer = awaited(base);
    outer.attrs = vec![marker("b"), marker("c")];
    let mut expected = leaf(1);
    expected.attrs = vec![marker("a"), marker("b"), marker("c")];
    assert_eq!(stripped(outer), expected);
}

#[test]
fn annotations_of_nested_suspension_points_keep_their_order() {
    let mut base = leaf(1);
    base.attrs = vec![marker("a")];
    let mut inner = awaited(base);
    inner.attrs = vec![marker("b")];
    let mut outer = awaited(inner);
    outer.attrs = vec![marker("c")];
    let mut expected = leaf(1);
    expected.attrs = vec![marker("a"), marker("b"), marker("c")];
    assert_eq!(stripped(outer), expected);
}

#[test]
fn tokens_not_understood_take_no_annotations() {
    let verbatim = Expr { attrs: vec![], kind: ExprKind::Verbatim, rest: Tokens { id: 7 } };
    let mut outer = awaited(verbatim.clone());
    outer.attrs = vec![marker("b")];
    assert_eq!(stripped(outer), verbatim);
}

#[test]
fn expression_without_suspension_point_stays() {
    let e = expr(ExprKind::Binary { left: bx(leaf(1)), right: bx(expr(ExprKind::Tuple { elems: vec![leaf(2), leaf(3)] })) });
    assert_eq!(stripped(e.clone()), e);
}

#[test]
fn every_kind_of_expression_is_walked() {
    let a = || awaited(leaf(1));
    let l = || leaf(1);
    let arm = |e: fn() -> Expr| Arm { guard: Some(bx(e())), body: bx(e()), rest: REST };
    let cases: Vec<(ExprKind, ExprKind)> = vec![
        (ExprKind::Array { elems: vec![a(), l()] }, ExprKind::Array { elems: vec![l(), l()] }),
        (ExprKind::Assign { left: bx(a()), right: bx(a()) }, ExprKind::Assign { left: bx(l()), right: bx(l()) }),
        (ExprKind::Async { block: block(vec![a()]) }, ExprKind::Async { block: block(vec![l()]) }),
        (ExprKind::Binary { left: bx(a()), right: bx(a()) }, ExprKind::Binary { left: bx(l()), right: bx(l()) }),
        (ExprKind::Block { block: block(vec![a()]) }, ExprKind::Block { block: block(vec![l()]) }),
        (ExprKind::Break { expr: Some(bx(a())) }, ExprKind::Break { expr: Some(bx(l())) }),
        (ExprKind::Break { expr: None }, ExprKind::Break { expr: None }),
        (ExprKind::Call { func: bx(a()), args: vec![a()] }, ExprKind::Call { func: bx(l()), args: vec![l()] }),
        (ExprKind::Cast { expr: bx(a()) }, ExprKind::Cast { expr: bx(l()) }),
        (ExprKind::Closure { body: bx(a()) }, ExprKind::Closure { body: bx(l()) }),
        (ExprKind::Const { block: block(vec![a()]) }, ExprKind::Const { block: block(vec![l()]) }),
        (ExprKind::Field { base: bx(a()) }, ExprKind::Field { base: bx(l()) }),
        (
            ExprKind::ForLoop { expr: bx(a()), body: block(vec![a()]) },
            ExprKind::ForLoop { expr: bx(l()), body: block(vec![l()]) },
        ),
        (ExprKind::Group { expr: bx(a()) }, ExprKind::Group { expr: bx(l()) }),
        (
            ExprKind::If { cond: bx(a()), then_branch: block(vec![a()]), else_branch: Some(bx(a())) },
            ExprKind::If { cond: bx(l()), then_branch: block(vec![l()]), else_branch: Some(bx(l())) },
        ),
        (ExprKind::Index { expr: bx(a()), index: bx(a()) }, ExprKind::Index { expr: bx(l()), index: bx(l()) }),
        (ExprKind::Let { expr: bx(a()) }, ExprKind::Let { expr: bx(l()) }),
        (ExprKind::Loop { body: block(vec![a()]) }, ExprKind::Loop { body: block(vec![l()]) }),
        (
            ExprKind::Match { expr: bx(a()), arms: vec![arm(a), Arm { guard: None, body: bx(a()), rest: REST }] },
            ExprKind::Match { expr: bx(l()), arms: vec![arm(l), Arm { guard: None, body: bx(l()), rest: REST }] },
        ),
        (
            ExprKind::MethodCall { receiver: bx(a()), args: vec![a(), a()] },
            ExprKind::MethodCall { receiver: bx(l()), args: vec![l(), l()] },
        ),
        (ExprKind::Paren { expr: bx(a()) }, ExprKind::Paren { expr: bx(l()) }),
        (
            ExprKind::Range { start: Some(bx(a())), end: Some(bx(a())) },
            ExprKind::Range { start: Some(bx(l())), end: Some(bx(l())) },
        ),
        (ExprKind::Range { start: None, end: None }, ExprKind::Range { start: None, end: None }),
        (ExprKind::RawAddr { expr: bx(a()) }, ExprKind::RawAddr { expr: bx(l()) }),
        (ExprKind::Reference { expr: bx(a()) }, ExprKind::Reference { expr: bx(l()) }),
        (ExprKind::Repeat { expr: bx(a()), len: bx(a()) }, ExprKind::Repeat { expr: bx(l()), len: bx(l()) }),
        (ExprKind::Return { expr: Some(bx(a())) }, ExprKind::Return { expr: Some(bx(l())) }),
        (
            ExprKind::Struct { fields: vec![FieldValue { expr: a(), rest: REST }], base: Some(bx(a())) },
            ExprKind::Struct { fields: vec![FieldValue { expr: l(), rest: REST }], base: Some(bx(l())) },
        ),
        (ExprKind::Try { expr: bx(a()) }, ExprKind::Try { expr: bx(l()) }),
        (ExprKind::TryBlock { block: block(vec![a()]) }, ExprKind::TryBlock { block: block(vec![l()]) }),
        (ExprKind::Tuple { elems: vec![a()] }, ExprKind::Tuple { elems: vec![l()] }),
        (ExprKind::Unary { expr: bx(a()) }, ExprKind::Unary { expr: bx(l()) }),
        (ExprKind::Unsafe { block: block(vec![a()]) }, ExprKind::Unsafe { block: block(vec![l()]) }),
        (
            ExprKind::While { cond: bx(a()), body: block(vec![a()]) },
            ExprKind::While { cond: bx(l()), body: block(vec![l()]) },
        ),
        (ExprKind::Yield { expr: Some(bx(a())) }, ExprKind::Yield { expr: Some(bx(l())) }),
        (ExprKind::Other, ExprKind::Other),
        (ExprKind::Verbatim, ExprKind::Verbatim),
    ];
    for (kind, expected) in cases {
        assert_eq!(stripped(expr(kind)), expr(expected));
    }
}

fn function_with(body: Block) -> Item {
    Item::Fn {
        item: ItemFn {
            attrs: vec![],
            sig: Signature {
                asyncness: None,
                fn_token: Span { id: 3 },
                generics: Generics { params: vec![], where_clause: None },
                inputs: vec![],
                output: ReturnType::Default,
                rest: REST,
            },
            block: Box::new(body),
            rest: REST,
        },
    }
}

#[test]
fn statements_are_walked_but_items_and_macros_are_not() {
    let local = |e: Expr, d: Option<Expr>| Stmt::Local {
        local: Local {
            attrs: vec![],
            init: Some(LocalInit { expr: bx(e), diverge: d.map(bx) }),
            rest: REST,
        },
    };
    let nested = Stmt::Item { item: function_with(block(vec![awaited(leaf(1))])) };
    let mac = Stmt::Macro { attrs: vec![marker("m")], rest: REST };
    let mut body = Block {
        stmts: vec![
            local(awaited(leaf(1)), Some(awaited(leaf(2)))),
            Stmt::Local { local: Local { attrs: vec![], init: None, rest: REST } },
            Stmt::Expr { expr: awaited(leaf(3)), semi: false },
            nested.clone(),
            mac.clone(),
        ],
    };
    remove_await_from_block(&mut body);
    assert_eq!(
        body,
        Block {
            stmts: vec![
                local(leaf(1), Some(leaf(2))),
                Stmt::Local { local: Local { attrs: vec![], init: None, rest: REST } },
                Stmt::Expr { expr: leaf(3), semi: false },
                nested,
                mac,
            ],
        }
    );
}

#[test]
fn one_statement_and_one_local() {
    let mut stmt = Stmt::Expr { expr: awaited(leaf(1)), semi: true };
    remove_await_from_stmt(&mut stmt);
    assert_eq!(stmt, Stmt::Expr { expr: leaf(1), semi: true });
    let mut local = Local {
        attrs: vec![marker("a")],
        init: Some(LocalInit { expr: bx(awaited(leaf(1))), diverge: None }),
        rest: REST,
    };
    remove_await_from_local(&mut local);
    assert_eq!(
        local,
        Local { attrs: vec![marker("a")], init: Some(LocalInit { expr: bx(leaf(1)), diverge: None }), rest: REST }
    );
}

#[test]
fn only_a_suspension_point_is_replaced() {
    let mut e = expr(ExprKind::Paren { expr: bx(awaited(leaf(1))) });
    let same = e.clone();
    remove_await_from_expr_await(&mut e);
    assert_eq!(e, same);
    let mut e = awaited(expr(ExprKind::Paren { expr: bx(awaited(leaf(1))) }));
    remove_await_from_expr_await(&mut e);
    assert_eq!(e, expr(ExprKind::Paren { expr: bx(leaf(1)) }));
}

#[test]
fn annotations_are_found_where_there_are_any() {
    let mut e = leaf(1);
    e.attrs = vec![marker("a")];
    assert_eq!(get_attrs_mut_from_expr(&mut e), Some(&mut vec![marker("a")]));
    let mut verbatim = Expr { attrs: vec![], kind: ExprKind::Verbatim, rest: REST };
    assert_eq!(get_attrs_mut_from_expr(&mut verbatim), None);

    let mut item = Item::Other { attrs: vec![marker("b")], rest: REST };
    assert_eq!(get_attrs_mut_from_item(&mut item), Some(&mut vec![marker("b")]));
    let mut item = function_with(block(vec![]));
    assert_eq!(get_attrs_mut_from_item(&mut item), Some(&mut vec![]));
    let mut item = Item::Verbatim { rest: REST };
    assert_eq!(get_attrs_mut_from_item(&mut item), None);

    let mut stmt = Stmt::Macro { attrs: vec![marker("c")], rest: REST };
    assert_eq!(get_attrs_mut_from_stmt(&mut stmt), Some(&mut vec![marker("c")]));
    let mut stmt = Stmt::Local { local: Local { attrs: vec![marker("d")], init: None, rest: REST } };
    assert_eq!(get_attrs_mut_from_stmt(&mut stmt), Some(&mut vec![marker("d")]));
    let mut stmt = Stmt::Expr { expr: verbatim, semi: false };
    assert_eq!(get_attrs_mut_from_stmt(&mut stmt), None);
    let mut stmt = Stmt::Item { item: Item::Verbatim { rest: REST } };
    assert_eq!(get_attrs_mut_from_stmt(&mut stmt), None);
}

#[test]
fn annotations_can_be_changed_in_place() {
    let mut stmt = Stmt::Expr { expr: leaf(1), semi: true };
    get_attrs_mut_from_stmt(&mut stmt).unwrap().push(marker("x"));
    let mut expected = leaf(1);
    expected.attrs = vec![marker("x")];
    assert_eq!(stmt, Stmt::Expr { expr: expected, semi: true });
}
