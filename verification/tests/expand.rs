use sync_async::ast::{
    Attribute, Block, Expr, ExprKind, Field, Fields, GenericArgument, GenericParam, Generics, Ident,
    ImplItem, ImplItemFn, Item, ItemFn, ItemImpl, ItemMod, ItemStruct, ItemUse, Meta, MetaValue,
    Path, PathArguments, PathSegment, ReturnType, Signature, Span, Stmt, Tokens, Type,
    TypeParamBound, UseTree,
};
use sync_async::{
    expand_impl, expand_impl_with_names, expand_mod, expand_struct, sync_async, Args, Declaration,
    ErrorKind, ExpandError, Expanded, ItemImport, PathWithoutArgs,
};

const REST: Tokens = Tokens { id: 5 };
const HERE: Span = Span { id: 11 };
const THERE: Span = Span { id: 22 };
const FN: Span = Span { id: 33 };
const CALL: Span = Span { id: 0 };

fn seg(name: &str, span: Span) -> PathSegment {
    PathSegment { ident: Ident::new(name, span), arguments: PathArguments::Empty }
}

fn name_path(name: &str) -> Path {
    Path { leading_colon: false, segments: vec![seg(name, HERE)] }
}

fn allow() -> Attribute {
    Attribute {
        span: CALL,
        meta: Meta::Words {
            path: Path { leading_colon: false, segments: vec![seg("allow", CALL)] },
            words: vec![Ident::new("unused_imports", CALL)],
        },
        rest: Tokens { id: 0 },
    }
}

fn marker(name: &str) -> Attribute {
    Attribute { span: Span { id: 1 }, meta: Meta::Path { path: name_path(name) }, rest: REST }
}

fn doc(text: &str) -> Attribute {
    Attribute {
        span: Span { id: 1 },
        meta: Meta::NameValue {
            path: name_path("doc"),
            value: MetaValue::Str { value: text.to_string(), span: Span { id: 2 } },
        },
        rest: REST,
    }
}

fn ty(name: &str) -> Type {
    Type::Path { qself: None, path: name_path(name) }
}

fn path_ty(segments: Vec<PathSegment>) -> Type {
    Type::Path { qself: None, path: Path { leading_colon: false, segments } }
}

fn sig(asyncness: Option<Span>, output: Type) -> Signature {
    Signature {
        asyncness,
        fn_token: FN,
        generics: Generics { params: vec![], where_clause: None },
        inputs: vec![],
        output: ReturnType::Type { ty: Box::new(output) },
        rest: REST,
    }
}

fn leaf(id: u64) -> Expr {
    Expr { attrs: vec![], kind: ExprKind::Other, rest: Tokens { id } }
}

fn awaited(e: Expr) -> Expr {
    Expr { attrs: vec![], kind: ExprKind::Await { base: Box::new(e) }, rest: Tokens { id: 99 } }
}

fn stmt(e: Expr) -> Stmt {
    Stmt::Expr { expr: e, semi: true }
}

fn import(names: &[&str], alias: Option<&str>) -> ItemImport {
    ItemImport {
        path: PathWithoutArgs::from_idents(names.iter().map(|n| Ident::new(n, THERE)).collect(), false),
        alias: alias.map(|a| Ident::new(a, THERE)),
    }
}

fn no_args() -> Args {
    Args { item_imports_for_async: vec![], item_imports_for_sync: vec![] }
}

fn function(attrs: Vec<Attribute>, asyncness: Option<Span>, output: Type, body: Vec<Stmt>) -> Item {
    Item::Fn {
        item: ItemFn { attrs, sig: sig(asyncness, output), block: Box::new(Block { stmts: body }), rest: REST },
    }
}

fn namespace(name: &str, attrs: Vec<Attribute>, content: Option<Vec<Item>>) -> ItemMod {
    ItemMod { attrs, ident: Ident::new(name, HERE), content, rest: REST }
}

fn use_stmt(tree: UseTree) -> Stmt {
    Stmt::Item { item: Item::Use { item: ItemUse { attrs: vec![], leading_colon: false, tree } } }
}

fn alias_use(variant: &str, name: &str, span: Span) -> Stmt {
    use_stmt(UseTree::Rename { ident: Ident::new(variant, span), rename: Ident::new(name, span) })
}

#[test]
fn namespace_with_one_function_and_no_imports() {
    let input = namespace(
        "X",
        vec![],
        Some(vec![function(vec![marker("maybe_async")], None, ty("u8"), vec![stmt(awaited(leaf(1)))])]),
    );
    let result = sync_async(Declaration::Mod { item: input }, no_args());
    assert_eq!(
        result,
        Ok(Expanded::Mod {
            sync_item: namespace(
                "sync_X",
                vec![allow()],
                Some(vec![function(
                    vec![],
                    None,
                    ty("u8"),
                    vec![alias_use("sync_X", "X", HERE), stmt(leaf(1))],
                )]),
            ),
            async_item: namespace(
                "async_X",
                vec![allow()],
                Some(vec![function(
                    vec![],
                    Some(CALL),
                    ty("u8"),
                    vec![alias_use("async_X", "X", HERE), stmt(awaited(leaf(1)))],
                )]),
            ),
        })
    );
}

#[test]
fn functions_of_a_namespace_go_by_its_name() {
    let input = namespace(
        "X",
        vec![],
        Some(vec![function(
            vec![doc("see [X::g]"), marker("always_async")],
            None,
            path_ty(vec![seg("X", THERE), seg("T", THERE)]),
            vec![],
        )]),
    );
    let Ok(Expanded::Mod { sync_item, async_item }) = expand_mod(input, no_args()) else {
        panic!("expected a namespace");
    };
    assert_eq!(
        sync_item.content,
        Some(vec![function(
            vec![doc("see [X::g](sync_X::g)")],
            Some(CALL),
            path_ty(vec![seg("sync_X", THERE), seg("T", THERE)]),
            vec![alias_use("sync_X", "X", HERE)],
        )])
    );
    assert_eq!(
        async_item.content,
        Some(vec![function(
            vec![doc("see [X::g](async_X::g)")],
            Some(CALL),
            path_ty(vec![seg("async_X", THERE), seg("T", THERE)]),
            vec![alias_use("async_X", "X", HERE)],
        )])
    );
}

fn use_item(tree: UseTree) -> Item {
    Item::Use { item: ItemUse { attrs: vec![], leading_colon: false, tree } }
}

#[test]
fn namespace_opens_with_the_imports_of_its_variant() {
    let args = Args {
        item_imports_for_sync: vec![import(&["a", "S"], Some("T")), import(&["b"], None)],
        item_imports_for_async: vec![import(&["a", "A"], Some("T")), import(&["b"], None)],
    };
    let other = Item::Other { attrs: vec![doc("[T]")], rest: REST };
    let input = namespace(
        "r#mod",
        vec![doc("uses [T] and [r#mod::f]"), marker("cfg")],
        Some(vec![other.clone(), function(vec![marker("always_sync")], None, ty("T"), vec![])]),
    );
    let id = |n: &str| Ident::new(n, THERE);
    let renamed = |n: &str| UseTree::Path {
        ident: id("a"),
        tree: Box::new(UseTree::Rename { ident: id(n), rename: id("T") }),
    };
    let result = expand_mod(input, args);
    assert_eq!(
        result,
        Ok(Expanded::Mod {
            sync_item: namespace(
                "sync_mod",
                vec![doc("uses [T](a::S) and [r#mod::f](sync_mod::f)"), marker("cfg"), allow()],
                Some(vec![
                    use_item(renamed("S")),
                    use_item(UseTree::Name { ident: id("b") }),
                    other.clone(),
                    function(
                        vec![],
                        None,
                        path_ty(vec![seg("a", THERE), seg("S", HERE)]),
                        vec![
                            use_stmt(renamed("S")),
                            use_stmt(UseTree::Name { ident: id("b") }),
                            alias_use("sync_mod", "r#mod", HERE),
                        ],
                    ),
                ]),
            ),
            async_item: namespace(
                "async_mod",
                vec![doc("uses [T](a::A) and [r#mod::f](async_mod::f)"), marker("cfg"), allow()],
                Some(vec![
                    use_item(renamed("A")),
                    use_item(UseTree::Name { ident: id("b") }),
                    other,
                    function(
                        vec![],
                        None,
                        path_ty(vec![seg("a", THERE), seg("A", HERE)]),
                        vec![
                            use_stmt(renamed("A")),
                            use_stmt(UseTree::Name { ident: id("b") }),
                            alias_use("async_mod", "r#mod", HERE),
                        ],
                    ),
                ]),
            ),
        })
    );
}

#[test]
fn namespace_without_braces_gets_a_body() {
    let result = expand_mod(namespace("x", vec![], None), no_args());
    assert_eq!(
        result,
        Ok(Expanded::Mod {
            sync_item: namespace("sync_x", vec![allow()], Some(vec![])),
            async_item: namespace("async_x", vec![allow()], Some(vec![])),
        })
    );
}

#[test]
fn error_in_a_function_rejects_the_namespace() {
    let input = namespace(
        "x",
        vec![],
        Some(vec![
            function(vec![marker("maybe_async")], None, ty("u8"), vec![]),
            function(vec![], None, ty("u8"), vec![]),
            function(vec![marker("maybe_async")], Some(Span { id: 9 }), ty("u8"), vec![]),
        ]),
    );
    assert_eq!(
        expand_mod(input, no_args()),
        Err(ExpandError { kind: ErrorKind::MissingModeMarker, span: FN })
    );
}

fn record(name: &str, attrs: Vec<Attribute>, bound: Path, field: Type) -> ItemStruct {
    ItemStruct {
        attrs,
        ident: Ident::new(name, HERE),
        generics: Generics {
            params: vec![GenericParam::Type {
                bounds: vec![TypeParamBound::Trait { path: bound, rest: REST }],
                default: None,
                rest: REST,
            }],
            where_clause: None,
        },
        fields: Fields::Named { fields: vec![Field { ty: field, rest: REST }] },
        rest: REST,
    }
}

#[test]
fn record_type_is_renamed_and_its_paths_are_rewritten() {
    let args = Args {
        item_imports_for_sync: vec![import(&["std", "io", "Read"], Some("R"))],
        item_imports_for_async: vec![import(&["tokio", "io", "AsyncRead"], Some("R"))],
    };
    let boxed = |inner: Type| {
        path_ty(vec![PathSegment {
            ident: Ident::new("Box", HERE),
            arguments: PathArguments::AngleBracketed {
                args: vec![GenericArgument::Type { ty: inner }],
                rest: REST,
            },
        }])
    };
    let input = record("Conn", vec![doc("a [Conn] over [R]")], name_path("R"), boxed(ty("Conn")));
    let result = expand_struct(input, args);
    let sync_bound = Path {
        leading_colon: false,
        segments: vec![seg("std", THERE), seg("io", THERE), seg("Read", HERE)],
    };
    let async_bound = Path {
        leading_colon: false,
        segments: vec![seg("tokio", THERE), seg("io", THERE), seg("AsyncRead", HERE)],
    };
    assert_eq!(
        result,
        Ok(Expanded::Struct {
            sync_item: record(
                "SyncConn",
                vec![doc("a [Conn](SyncConn) over [R](std::io::Read)")],
                sync_bound,
                boxed(path_ty(vec![seg("SyncConn", HERE)])),
            ),
            async_item: record(
                "AsyncConn",
                vec![doc("a [Conn](AsyncConn) over [R](tokio::io::AsyncRead)")],
                async_bound,
                boxed(path_ty(vec![seg("AsyncConn", HERE)])),
            ),
        })
    );
}

#[test]
fn caller_imports_win_over_the_name_of_the_declaration() {
    let args = Args {
        item_imports_for_sync: vec![import(&["other", "Thing"], Some("Conn"))],
        item_imports_for_async: vec![],
    };
    let input = record("Conn", vec![], name_path("X"), ty("Conn"));
    let Expanded::Struct { sync_item, async_item } = expand_struct(input, args).unwrap() else {
        panic!("expected a record type");
    };
    assert_eq!(
        sync_item.fields,
        Fields::Named {
            fields: vec![Field { ty: path_ty(vec![seg("other", THERE), seg("Thing", HERE)]), rest: REST }],
        }
    );
    assert_eq!(
        async_item.fields,
        Fields::Named { fields: vec![Field { ty: path_ty(vec![seg("AsyncConn", HERE)]), rest: REST }] }
    );
}

fn method(attrs: Vec<Attribute>, asyncness: Option<Span>, output: Type, body: Vec<Stmt>) -> ImplItem {
    ImplItem::Fn {
        item: ImplItemFn { attrs, sig: sig(asyncness, output), block: Block { stmts: body }, rest: REST },
    }
}

fn block_impl(self_ty: Type, trait_: Option<Span>, items: Vec<ImplItem>) -> ItemImpl {
    ItemImpl {
        attrs: vec![doc("for [Foo]")],
        generics: Generics { params: vec![], where_clause: None },
        trait_,
        self_ty,
        items,
        rest: REST,
    }
}

fn self_use(variant: &str) -> Stmt {
    Stmt::Item {
        item: Item::Use {
            item: ItemUse {
                attrs: vec![],
                leading_colon: false,
                tree: UseTree::Rename { ident: Ident::new(variant, CALL), rename: Ident::new("Foo", CALL) },
            },
        },
    }
}

#[test]
fn implementation_block_is_duplicated() {
    let input = block_impl(
        ty("Foo"),
        None,
        vec![
            method(vec![marker("maybe_async")], None, ty("Foo"), vec![stmt(awaited(leaf(1)))]),
            ImplItem::Other { rest: Tokens { id: 8 } },
        ],
    );
    let result = expand_impl(input, "Foo", no_args());
    let mut sync_item = block_impl(
        path_ty(vec![seg("SyncFoo", HERE)]),
        None,
        vec![
            method(vec![], None, path_ty(vec![seg("SyncFoo", HERE)]), vec![self_use("SyncFoo"), stmt(leaf(1))]),
            ImplItem::Other { rest: Tokens { id: 8 } },
        ],
    );
    sync_item.attrs = vec![doc("for [Foo](SyncFoo)"), allow()];
    let mut async_item = block_impl(
        path_ty(vec![seg("AsyncFoo", HERE)]),
        None,
        vec![
            method(
                vec![],
                Some(CALL),
                path_ty(vec![seg("AsyncFoo", HERE)]),
                vec![self_use("AsyncFoo"), stmt(awaited(leaf(1)))],
            ),
            ImplItem::Other { rest: Tokens { id: 8 } },
        ],
    );
    async_item.attrs = vec![doc("for [Foo](AsyncFoo)"), allow()];
    assert_eq!(result, Ok(Expanded::Impl { sync_item, async_item }));
}

#[test]
fn implementation_block_through_the_entry() {
    let input = block_impl(ty("Foo"), None, vec![]);
    let result = sync_async(
        Declaration::Impl { item: input, self_ty: "Foo < T >".to_string() },
        no_args(),
    );
    let Ok(Expanded::Impl { sync_item, async_item }) = result else {
        panic!("expected an implementation block");
    };
    assert_eq!(sync_item.self_ty, path_ty(vec![seg("SyncFoo", HERE)]));
    assert_eq!(async_item.self_ty, path_ty(vec![seg("AsyncFoo", HERE)]));
}

#[test]
fn trait_implementation_is_rejected() {
    let input = block_impl(ty("Foo"), Some(Span { id: 44 }), vec![]);
    assert_eq!(
        expand_impl(input, "Foo", no_args()),
        Err(ExpandError { kind: ErrorKind::TraitImpl, span: Span { id: 44 } })
    );
}

#[test]
fn trait_implementation_is_rejected_before_the_self_type_is_read() {
    let input = block_impl(ty("Foo"), Some(Span { id: 44 }), vec![]);
    assert_eq!(
        expand_impl(input, "& Foo", no_args()),
        Err(ExpandError { kind: ErrorKind::TraitImpl, span: Span { id: 44 } })
    );
}

#[test]
fn self_type_that_is_no_name_is_rejected() {
    for text in ["& Foo", "a :: Foo", "( A , B )", "", "r#type"] {
        let input = block_impl(ty("Foo"), None, vec![]);
        assert_eq!(
            expand_impl(input, text, no_args()),
            Err(ExpandError { kind: ErrorKind::SelfTypeName, span: HERE }),
            "{}",
            text
        );
    }
}

#[test]
fn self_type_that_is_no_name_is_rejected_where_it_stands() {
    let reference = Type::Reference { elem: Box::new(path_ty(vec![seg("Foo", THERE)])), rest: REST };
    assert_eq!(
        expand_impl(block_impl(reference, None, vec![]), "& Foo", no_args()),
        Err(ExpandError { kind: ErrorKind::SelfTypeName, span: THERE })
    );
    let pair = Type::Tuple { elems: vec![ty("A"), ty("B")] };
    assert_eq!(
        sync_async(
            Declaration::Impl { item: block_impl(pair, None, vec![]), self_ty: "( A , B )".to_string() },
            no_args()
        ),
        Err(ExpandError { kind: ErrorKind::SelfTypeName, span: CALL })
    );
}

#[test]
fn self_type_is_rejected_before_the_functions_are_read() {
    let input = block_impl(ty("Foo"), None, vec![method(vec![], None, ty("u8"), vec![])]);
    assert_eq!(
        expand_impl(input, "& Foo", no_args()),
        Err(ExpandError { kind: ErrorKind::SelfTypeName, span: HERE })
    );
}

fn made_path(names: &[&str]) -> PathWithoutArgs {
    PathWithoutArgs::from_idents(names.iter().map(|n| Ident::new(n, CALL)).collect(), false)
}

#[test]
fn implementation_block_goes_by_the_names_that_are_given() {
    let input = block_impl(
        ty("Foo"),
        None,
        vec![method(vec![marker("always_sync")], None, ty("Foo"), vec![stmt(awaited(leaf(1)))])],
    );
    let result = expand_impl_with_names(
        input,
        Ident::new("Foo", CALL),
        made_path(&["a", "Blocking"]),
        made_path(&["Waiting"]),
        no_args(),
    );
    let uses = |tree: UseTree| Stmt::Item {
        item: Item::Use { item: ItemUse { attrs: vec![], leading_colon: false, tree } },
    };
    let id = |n: &str| Ident::new(n, CALL);
    let blocking = || path_ty(vec![seg("a", CALL), seg("Blocking", HERE)]);
    let mut sync_item = block_impl(
        blocking(),
        None,
        vec![method(
            vec![],
            None,
            blocking(),
            vec![
                uses(UseTree::Path {
                    ident: id("a"),
                    tree: Box::new(UseTree::Rename { ident: id("Blocking"), rename: id("Foo") }),
                }),
                stmt(leaf(1)),
            ],
        )],
    );
    sync_item.attrs = vec![doc("for [Foo](a::Blocking)"), allow()];
    let mut async_item = block_impl(
        path_ty(vec![seg("Waiting", HERE)]),
        None,
        vec![method(
            vec![],
            None,
            path_ty(vec![seg("Waiting", HERE)]),
            vec![uses(UseTree::Rename { ident: id("Waiting"), rename: id("Foo") }), stmt(leaf(1))],
        )],
    );
    async_item.attrs = vec![doc("for [Foo](Waiting)"), allow()];
    assert_eq!(result, Ok(Expanded::Impl { sync_item, async_item }));
}

#[test]
fn names_that_are_given_do_not_save_a_trait_implementation() {
    let input = block_impl(ty("Foo"), Some(Span { id: 44 }), vec![]);
    assert_eq!(
        expand_impl_with_names(
            input,
            Ident::new("Foo", CALL),
            made_path(&["SyncFoo"]),
            made_path(&["AsyncFoo"]),
            no_args()
        ),
        Err(ExpandError { kind: ErrorKind::TraitImpl, span: Span { id: 44 } })
    );
}

#[test]
fn error_of_the_blocking_variant_comes_first() {
    let twice = |e: Expr| {
        let mut e = e;
        e.attrs = vec![
            Attribute { span: Span { id: 60 }, meta: Meta::Path { path: name_path("if_async") }, rest: REST },
            Attribute { span: Span { id: 61 }, meta: Meta::Path { path: name_path("if_sync") }, rest: REST },
        ];
        stmt(e)
    };
    let input = block_impl(
        ty("Foo"),
        None,
        vec![method(vec![marker("maybe_async")], None, ty("u8"), vec![twice(leaf(1))])],
    );
    assert_eq!(
        expand_impl(input, "Foo", no_args()),
        Err(ExpandError { kind: ErrorKind::RepeatedScopeMarker, span: Span { id: 61 } })
    );
}

#[test]
fn anything_else_is_rejected() {
    assert_eq!(
        sync_async(Declaration::Other { span: Span { id: 55 } }, no_args()),
        Err(ExpandError { kind: ErrorKind::UnsupportedItem, span: Span { id: 55 } })
    );
}

#[test]
fn record_type_through_the_entry() {
    let input = record("Conn", vec![], name_path("X"), ty("u8"));
    let result = sync_async(Declaration::Struct { item: input }, no_args()).unwrap();
    let Expanded::Struct { sync_item, async_item } = result else {
        panic!("expected a record type");
    };
    assert_eq!(sync_item.ident, Ident::new("SyncConn", HERE));
    assert_eq!(async_item.ident, Ident::new("AsyncConn", HERE));
    assert_eq!(sync_item.attrs, vec![]);
    assert_eq!(async_item.attrs, vec![]);
}
