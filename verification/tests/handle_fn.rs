use sync_async::ast::{
    Attribute, Block, Expr, ExprKind, FnArg, GenericArgument, Generics, Ident, Item, ItemUse, Local,
    Meta, MetaValue, Path, PathArguments, PathSegment, ReturnType, Signature, Span, Stmt, Tokens,
    Type, UseTree,
};
use sync_async::map::handle_fn;
use sync_async::{ErrorKind, ExpandError, ItemImport, PathWithoutArgs};

const REST: Tokens = Tokens { id: 5 };
const HERE: Span = Span { id: 11 };
const THERE: Span = Span { id: 22 };
const FN: Span = Span { id: 33 };

fn name_path(name: &str) -> Path {
    Path {
        leading_colon: false,
        segments: vec![PathSegment { ident: Ident::new(name, HERE), arguments: PathArguments::Empty }],
    }
}

fn marker_at(name: &str, id: u64) -> Attribute {
    Attribute { span: Span { id }, meta: Meta::Path { path: name_path(name) }, rest: REST }
}

fn marker(name: &str) -> Attribute {
    marker_at(name, 1)
}

fn doc(text: &str) -> Attribute {
    Attribute {
        span: Span { id: 1 },
        meta: Meta::NameValue {
            path: name_path("doc"),
            value: MetaValue::Str { value: text.to_string(), span: Span { id: 2 } },
        },
        rest: REST,
    }
}

fn ty(name: &str) -> Type {
    Type::Path { qself: None, path: name_path(name) }
}

fn sig(output: Type) -> Signature {
    Signature {
        asyncness: None,
        fn_token: FN,
        generics: Generics { params: vec![], where_clause: None },
        inputs: vec![FnArg::Receiver { ty: Box::new(ty("Self")), rest: REST }],
        output: ReturnType::Type { ty: Box::new(output) },
        rest: REST,
    }
}

fn leaf(id: u64) -> Expr {
    Expr { attrs: vec![], kind: ExprKind::Other, rest: Tokens { id } }
}

fn awaited(e: Expr) -> Expr {
    Expr { attrs: vec![], kind: ExprKind::Await { base: Box::new(e) }, rest: Tokens { id: 99 } }
}

fn stmt(e: Expr) -> Stmt {
    Stmt::Expr { expr: e, semi: true }
}

fn marked(e: Expr, markers: &[&str]) -> Stmt {
    let mut e = e;
    e.attrs = markers.iter().enumerate().map(|(i, m)| marker_at(m, 100 + i as u64)).collect();
    stmt(e)
}

fn import(names: &[&str], alias: Option<&str>) -> ItemImport {
    ItemImport {
        path: PathWithoutArgs::from_idents(names.iter().map(|n| Ident::new(n, THERE)).collect(), false),
        alias: alias.map(|a| Ident::new(a, THERE)),
    }
}

fn handled(
    attrs: Vec<Attribute>,
    body: Vec<Stmt>,
    asyncness: bool,
) -> Result<(Vec<Attribute>, Signature, Option<Block>), ExpandError> {
    handle_fn(attrs, sig(ty("u8")), Some(Block { stmts: body }), asyncness, &[])
}

fn body_of(result: Result<(Vec<Attribute>, Signature, Option<Block>), ExpandError>) -> Vec<Stmt> {
    result.unwrap().2.unwrap().stmts
}

#[test]
fn maybe_async_follows_the_variant() {
    let (attrs, sig, _) = handled(vec![marker("maybe_async")], vec![], true).unwrap();
    assert_eq!(attrs, vec![]);
    assert_eq!(sig.asyncness, Some(Span::call_site()));
    let (_, sig, _) = handled(vec![marker("maybe_async")], vec![], false).unwrap();
    assert_eq!(sig.asyncness, None);
}

#[test]
fn always_markers_do_not_follow_the_variant() {
    for asyncness in [false, true] {
        let (_, sig, _) = handled(vec![marker("always_async")], vec![], asyncness).unwrap();
        assert_eq!(sig.asyncness, Some(Span::call_site()));
        let (_, sig, _) = handled(vec![marker("always_sync")], vec![], asyncness).unwrap();
        assert_eq!(sig.asyncness, None);
    }
}

#[test]
fn mode_marker_is_taken_off_and_other_annotations_stay() {
    let attrs = vec![marker("inline"), marker("maybe_async"), doc("text")];
    let (attrs, _, _) = handled(attrs, vec![], true).unwrap();
    assert_eq!(attrs, vec![marker("inline"), doc("text")]);
}

#[test]
fn function_without_mode_marker_is_rejected() {
    let result = handled(vec![marker("inline")], vec![], true);
    assert_eq!(result, Err(ExpandError { kind: ErrorKind::MissingModeMarker, span: FN }));
}

#[test]
fn second_mode_marker_is_rejected_at_its_place() {
    let attrs = vec![marker_at("maybe_async", 7), marker_at("inline", 8), marker_at("always_sync", 9), marker_at("always_async", 10)];
    let result = handled(attrs, vec![], true);
    assert_eq!(result, Err(ExpandError { kind: ErrorKind::RepeatedModeMarker, span: Span { id: 9 } }));
}

#[test]
fn async_keyword_is_rejected() {
    let mut s = sig(ty("u8"));
    s.asyncness = Some(Span { id: 77 });
    let result = handle_fn(vec![marker("maybe_async")], s, None, true, &[]);
    assert_eq!(result, Err(ExpandError { kind: ErrorKind::AsyncKeyword, span: Span { id: 77 } }));
}

#[test]
fn async_keyword_is_rejected_before_markers_are_looked_at() {
    let mut s = sig(ty("u8"));
    s.asyncness = Some(Span { id: 77 });
    let result = handle_fn(vec![], s, None, false, &[]);
    assert_eq!(result, Err(ExpandError { kind: ErrorKind::AsyncKeyword, span: Span { id: 77 } }));
}

#[test]
fn blocking_body_has_no_suspension_point_and_suspending_body_keeps_it() {
    let body = || vec![stmt(awaited(leaf(1)))];
    assert_eq!(body_of(handled(vec![marker("maybe_async")], body(), false)), vec![stmt(leaf(1))]);
    assert_eq!(body_of(handled(vec![marker("maybe_async")], body(), true)), body());
}

#[test]
fn function_that_always_suspends_keeps_its_suspension_points() {
    let body = || vec![stmt(awaited(leaf(1)))];
    assert_eq!(body_of(handled(vec![marker("always_async")], body(), false)), body());
    assert_eq!(body_of(handled(vec![marker("always_sync")], body(), true)), vec![stmt(leaf(1))]);
}

#[test]
fn marked_statement_stays_only_in_its_variant() {
    let body = || vec![marked(leaf(1), &["if_async"]), stmt(leaf(2)), marked(leaf(3), &["if_sync"])];
    assert_eq!(
        body_of(handled(vec![marker("maybe_async")], body(), true)),
        vec![stmt(leaf(1)), stmt(leaf(2))]
    );
    assert_eq!(
        body_of(handled(vec![marker("maybe_async")], body(), false)),
        vec![stmt(leaf(2)), stmt(leaf(3))]
    );
}

#[test]
fn scope_marker_is_taken_off_and_other_annotations_stay() {
    let body = vec![marked(leaf(1), &["allow", "if_async", "inline"])];
    let kept = body_of(handled(vec![marker("maybe_async")], body, true));
    let mut expected = leaf(1);
    expected.attrs = vec![marker_at("allow", 100), marker_at("inline", 102)];
    assert_eq!(kept, vec![stmt(expected)]);
}

#[test]
fn two_scope_markers_on_one_statement_are_rejected() {
    let body = vec![stmt(leaf(1)), marked(leaf(2), &["if_async", "if_sync"]), marked(leaf(3), &["if_sync", "if_sync"])];
    for asyncness in [false, true] {
        let result = handled(vec![marker("maybe_async")], body.clone(), asyncness);
        assert_eq!(result, Err(ExpandError { kind: ErrorKind::RepeatedScopeMarker, span: Span { id: 101 } }));
    }
}

#[test]
fn markers_on_let_item_and_macro_statements() {
    let local = |attrs: Vec<Attribute>| Stmt::Local { local: Local { attrs, init: None, rest: REST } };
    let item = |attrs: Vec<Attribute>| Stmt::Item { item: Item::Other { attrs, rest: REST } };
    let mac = |attrs: Vec<Attribute>| Stmt::Macro { attrs, rest: REST };
    let verbatim = Stmt::Expr { expr: Expr { attrs: vec![], kind: ExprKind::Verbatim, rest: REST }, semi: false };
    let body = vec![
        local(vec![marker("if_sync")]),
        item(vec![marker("if_async")]),
        mac(vec![marker("if_sync"), marker("x")]),
        verbatim.clone(),
    ];
    assert_eq!(
        body_of(handled(vec![marker("maybe_async")], body.clone(), false)),
        vec![local(vec![]), mac(vec![marker("x")]), verbatim.clone()]
    );
    assert_eq!(body_of(handled(vec![marker("maybe_async")], body, true)), vec![item(vec![]), verbatim]);
}

#[test]
fn suspension_point_under_a_marker_moves_the_marker_to_the_expression() {
    let mut e = awaited(leaf(1));
    e.attrs = vec![marker("if_sync")];
    let kept = body_of(handled(vec![marker("maybe_async")], vec![stmt(e)], false));
    assert_eq!(kept, vec![stmt(leaf(1))]);
}

#[test]
fn function_without_body_has_none_afterwards() {
    let result = handle_fn(vec![marker("maybe_async")], sig(ty("u8")), None, true, &[import(&["a", "B"], None)]);
    let (_, _, block) = result.unwrap();
    assert_eq!(block, None);
}

#[test]
fn imports_open_the_body_and_rewrite_signature_and_documentation() {
    let imports = vec![import(&["std", "io", "BufReader"], Some("B")), import(&["x", "Read"], None)];
    let result = handle_fn(
        vec![doc("see [B] and [`Read`](Read::read)"), marker("maybe_async")],
        sig(Type::Path {
            qself: None,
            path: Path {
                leading_colon: false,
                segments: vec![PathSegment {
                    ident: Ident::new("B", HERE),
                    arguments: PathArguments::AngleBracketed {
                        args: vec![GenericArgument::Type { ty: ty("Read") }],
                        rest: REST,
                    },
                }],
            },
        }),
        Some(Block { stmts: vec![stmt(leaf(1))] }),
        true,
        &imports,
    );
    let (attrs, sig, block) = result.unwrap();
    assert_eq!(attrs, vec![doc("see [B](std::io::BufReader) and [`Read`](x::Read::read)")]);
    let seg = |name: &str, span: Span| PathSegment { ident: Ident::new(name, span), arguments: PathArguments::Empty };
    let read = Type::Path {
        qself: None,
        path: Path { leading_colon: false, segments: vec![seg("x", THERE), seg("Read", HERE)] },
    };
    let expected = Type::Path {
        qself: None,
        path: Path {
            leading_colon: false,
            segments: vec![
                seg("std", THERE),
                seg("io", THERE),
                PathSegment {
                    ident: Ident::new("BufReader", HERE),
                    arguments: PathArguments::AngleBracketed {
                        args: vec![GenericArgument::Type { ty: read }],
                        rest: REST,
                    },
                },
            ],
        },
    };
    assert_eq!(sig.output, ReturnType::Type { ty: Box::new(expected) });
    assert_eq!(sig.inputs, vec![FnArg::Receiver { ty: Box::new(ty("Self")), rest: REST }]);
    let id = |n: &str| Ident::new(n, THERE);
    let use_b = ItemUse {
        attrs: vec![],
        leading_colon: false,
        tree: UseTree::Path {
            ident: id("std"),
            tree: Box::new(UseTree::Path {
                ident: id("io"),
                tree: Box::new(UseTree::Rename { ident: id("BufReader"), rename: id("B") }),
            }),
        },
    };
    let use_read = ItemUse {
        attrs: vec![],
        leading_colon: false,
        tree: UseTree::Path { ident: id("x"), tree: Box::new(UseTree::Name { ident: id("Read") }) },
    };
    assert_eq!(
        block.unwrap().stmts,
        vec![
            Stmt::Item { item: Item::Use { item: use_b } },
            Stmt::Item { item: Item::Use { item: use_read } },
            stmt(leaf(1)),
        ]
    );
}

#[test]
fn marker_with_arguments_or_a_longer_path_is_no_marker() {
    let listed = Attribute {
        span: Span { id: 1 },
        meta: Meta::List { path: Path { leading_colon: false, segments: vec![
            PathSegment { ident: Ident::new("x", HERE), arguments: PathArguments::Empty },
            PathSegment { ident: Ident::new("maybe_async", HERE), arguments: PathArguments::Empty },
        ] }, rest: REST },
        rest: REST,
    };
    let result = handled(vec![listed], vec![], true);
    assert_eq!(result, Err(ExpandError { kind: ErrorKind::MissingModeMarker, span: FN }));
    let with_value = Attribute {
        span: Span { id: 1 },
        meta: Meta::List { path: name_path("maybe_async"), rest: REST },
        rest: REST,
    };
    assert!(handled(vec![with_value], vec![], true).is_ok());
}

#[test]
fn messages_name_what_is_expected() {
    assert_eq!(ExpandError { kind: ErrorKind::UnsupportedItem, span: HERE }.message(), "expected one of: impl, mod, struct");
    assert_eq!(ExpandError { kind: ErrorKind::TraitImpl, span: HERE }.message(), "unsupported trait impl");
    assert_eq!(
        ExpandError { kind: ErrorKind::AsyncKeyword, span: HERE }.message(),
        "Instead of the async keyword, use the attribute #[always_async] on the function."
    );
    assert_eq!(
        ExpandError { kind: ErrorKind::RepeatedModeMarker, span: HERE }.message(),
        "Use one of the attributes #[always_async], #[always_sync], or #[maybe_async] on the function."
    );
    assert_eq!(
        ExpandError { kind: ErrorKind::MissingModeMarker, span: HERE }.message(),
        "Use only one of the attributes #[always_async], #[always_sync], or #[maybe_async] on the function."
    );
    assert_eq!(
        ExpandError { kind: ErrorKind::RepeatedScopeMarker, span: HERE }.message(),
        "expected only one of: `#[if_async]`, `#[if_sync]`"
    );
    assert_eq!(ExpandError { kind: ErrorKind::GlobImport, span: HERE }.message(), "a glob import: `*` is not allowed");
    assert_eq!(ExpandError { kind: ErrorKind::SelfTypeName, span: HERE }.message(), "expected the name of a type");
}
