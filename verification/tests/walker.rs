use sync_async::ast::{
    BareFnArg, Field, Fields, FieldPat, FnArg, GenericArgument, GenericParam, Generics, Ident,
    Macro, Pat, Path, PathArguments, PathSegment, QSelf, ReturnType, Signature, Span, Tokens,
    Type, TypeParamBound, WherePredicate,
};
use sync_async::map::{
    replace_item_name_in_field, replace_item_name_in_fields, replace_item_name_in_fn_arg,
    replace_item_name_in_generic_arguments, replace_item_name_in_generics,
    replace_item_name_in_macro, replace_item_name_in_pat, replace_item_name_in_path,
    replace_item_name_in_path_arguments, replace_item_name_in_return_type,
    replace_item_name_in_signature, replace_item_name_in_type,
    replace_item_name_in_type_param_bound, replace_item_name_in_where_predicates,
    replaces_from_item_imports, ReplaceItemNameFromTo,
};
use sync_async::{ItemImport, PathWithoutArgs};

const HERE: Span = Span { id: 11 };
const THERE: Span = Span { id: 22 };
const REST: Tokens = Tokens { id: 5 };

fn ident(name: &str) -> Ident {
    Ident::new(name, HERE)
}

fn imported(name: &str) -> Ident {
    Ident::new(name, THERE)
}

fn seg(name: &str) -> PathSegment {
    PathSegment { ident: ident(name), arguments: PathArguments::Empty }
}

fn seg_at(name: &str, span: Span) -> PathSegment {
    PathSegment { ident: Ident::new(name, span), arguments: PathArguments::Empty }
}

fn seg_with(name: &str, args: Vec<GenericArgument>) -> PathSegment {
    PathSegment { ident: ident(name), arguments: PathArguments::AngleBracketed { args, rest: REST } }
}

fn path(names: &[&str]) -> Path {
    Path { leading_colon: false, segments: names.iter().map(|n| seg(n)).collect() }
}

fn ty(names: &[&str]) -> Type {
    Type::Path { qself: None, path: path(names) }
}

fn generic(name: &str, args: Vec<Type>) -> Type {
    let args = args.into_iter().map(|ty| GenericArgument::Type { ty }).collect();
    Type::Path { qself: None, path: Path { leading_colon: false, segments: vec![seg_with(name, args)] } }
}

fn target(names: &[&str], leading_colon: bool) -> PathWithoutArgs {
    PathWithoutArgs::from_idents(names.iter().map(|n| imported(n)).collect(), leading_colon)
}

struct Table {
    rules: Vec<(Ident, PathWithoutArgs)>,
}

impl Table {
    fn new(rules: &[(&str, &[&str])]) -> Table {
        Table { rules: rules.iter().map(|(from, to)| (imported(from), target(to, false))).collect() }
    }

    fn rules(&self) -> Vec<ReplaceItemNameFromTo<'_>> {
        self.rules.iter().map(|(from, to)| ReplaceItemNameFromTo { from, to }).collect()
    }
}

fn buf_reader(last: PathSegment) -> Path {
    Path {
        leading_colon: false,
        segments: vec![seg_at("std", THERE), seg_at("io", THERE), last],
    }
}

#[test]
fn no_rules_leave_a_type_as_it_is() {
    let before = Type::Tuple {
        elems: vec![
            generic("B", vec![ty(&["T"]), Type::Reference { elem: Box::new(ty(&["a", "b"])), rest: REST }]),
            Type::Array { elem: Box::new(ty(&["u8"])), rest: REST },
            Type::Other { rest: REST },
        ],
    };
    let mut rewritten = before.clone();
    replace_item_name_in_type(&mut rewritten, &[]);
    assert_eq!(rewritten, before);
}

#[test]
fn no_rules_leave_a_pattern_as_it_is() {
    let before = Pat::TupleStruct {
        qself: None,
        path: path(&["Some"]),
        elems: vec![Pat::Ident { subpat: Some(Box::new(Pat::Path { qself: None, path: path(&["B"]) })), rest: REST }],
    };
    let mut rewritten = before.clone();
    replace_item_name_in_pat(&mut rewritten, &[]);
    assert_eq!(rewritten, before);
}

#[test]
fn path_is_spliced_and_its_arguments_are_rewritten() {
    // B<T> becomes std::io::BufReader<x::Y>
    let table = Table::new(&[("B", &["std", "io", "BufReader"]), ("T", &["x", "Y"])]);
    let mut subject = generic("B", vec![ty(&["T"])]);
    replace_item_name_in_type(&mut subject, &table.rules());
    let inner = Type::Path {
        qself: None,
        path: Path { leading_colon: false, segments: vec![seg_at("x", THERE), seg_at("Y", HERE)] },
    };
    let last = PathSegment {
        ident: Ident::new("BufReader", HERE),
        arguments: PathArguments::AngleBracketed {
            args: vec![GenericArgument::Type { ty: inner }],
            rest: REST,
        },
    };
    assert_eq!(subject, Type::Path { qself: None, path: buf_reader(last) });
}

#[test]
fn path_splice_without_other_rules_keeps_arguments() {
    let table = Table::new(&[("B", &["std", "io", "BufReader"])]);
    let mut subject = generic("B", vec![ty(&["T"])]);
    replace_item_name_in_type(&mut subject, &table.rules());
    let last = PathSegment {
        ident: Ident::new("BufReader", HERE),
        arguments: PathArguments::AngleBracketed {
            args: vec![GenericArgument::Type { ty: ty(&["T"]) }],
            rest: REST,
        },
    };
    assert_eq!(subject, Type::Path { qself: None, path: buf_reader(last) });
}

#[test]
fn only_the_first_segment_is_matched() {
    let table = Table::new(&[("std", &["s"])]);
    let mut subject = path(&["foo", "std", "bar"]);
    replace_item_name_in_path(&mut subject, &table.rules());
    assert_eq!(subject, path(&["foo", "std", "bar"]));
}

#[test]
fn first_segment_is_renamed_and_the_rest_follows() {
    // (std, s): std::io::Read -> s::io::Read
    let table = Table::new(&[("std", &["s"])]);
    let mut subject = path(&["std", "io", "Read"]);
    replace_item_name_in_path(&mut subject, &table.rules());
    assert_eq!(subject, path(&["s", "io", "Read"]));
}

#[test]
fn arguments_of_later_segments_are_rewritten_without_a_match() {
    let table = Table::new(&[("T", &["x", "Y"])]);
    let mut subject = Path {
        leading_colon: true,
        segments: vec![seg("a"), seg_with("b", vec![GenericArgument::Type { ty: ty(&["T"]) }])],
    };
    replace_item_name_in_path(&mut subject, &table.rules());
    let inner = Type::Path {
        qself: None,
        path: Path { leading_colon: false, segments: vec![seg_at("x", THERE), seg_at("Y", HERE)] },
    };
    assert_eq!(
        subject,
        Path {
            leading_colon: true,
            segments: vec![seg("a"), seg_with("b", vec![GenericArgument::Type { ty: inner }])],
        }
    );
}

#[test]
fn first_matching_rule_wins() {
    let table = Table::new(&[("A", &["first"]), ("A", &["second"]), ("first", &["third"])]);
    let mut subject = path(&["A"]);
    replace_item_name_in_path(&mut subject, &table.rules());
    assert_eq!(subject, path(&["first"]));
}

#[test]
fn matching_is_exact_and_case_sensitive() {
    let table = Table::new(&[("Buf", &["x"])]);
    let mut subject = Type::Tuple { elems: vec![ty(&["BufReader"]), ty(&["buf"]), ty(&["Bu"])] };
    let before = subject.clone();
    replace_item_name_in_type(&mut subject, &table.rules());
    assert_eq!(subject, before);
}

#[test]
fn leading_colon_comes_from_the_rule() {
    let from = imported("A");
    let absolute = target(&["a", "B"], true);
    let relative = target(&["a", "B"], false);
    let mut subject = path(&["A", "c"]);
    replace_item_name_in_path(&mut subject, &[ReplaceItemNameFromTo { from: &from, to: &absolute }]);
    assert!(subject.leading_colon);
    assert_eq!(subject.segments.len(), 3);
    let mut subject = Path { leading_colon: true, segments: vec![seg("A"), seg("c")] };
    replace_item_name_in_path(&mut subject, &[ReplaceItemNameFromTo { from: &from, to: &relative }]);
    assert!(!subject.leading_colon);
}

#[test]
fn rule_with_an_empty_path_drops_the_segment() {
    let from = imported("A");
    let nothing = target(&[], false);
    let mut subject = path(&["A", "c"]);
    replace_item_name_in_path(&mut subject, &[ReplaceItemNameFromTo { from: &from, to: &nothing }]);
    assert_eq!(subject, path(&["c"]));
}

#[test]
fn empty_path_stays_empty() {
    let table = Table::new(&[("A", &["b"])]);
    let mut subject = Path { leading_colon: false, segments: vec![] };
    replace_item_name_in_path(&mut subject, &table.rules());
    assert_eq!(subject, Path { leading_colon: false, segments: vec![] });
}

fn renamed(name: &str) -> Type {
    Type::Path {
        qself: None,
        path: Path { leading_colon: false, segments: vec![seg_at("x", THERE), seg_at(name, HERE)] },
    }
}

#[test]
fn every_kind_of_type_is_walked() {
    let table = Table::new(&[("A", &["x", "A"])]);
    let rules = table.rules();
    let a = || ty(&["A"]);
    let b = || Box::new(ty(&["A"]));
    let r = || Box::new(renamed("A"));
    let bound = |t: Path| TypeParamBound::Trait { path: t, rest: REST };
    let renamed_path = || Path { leading_colon: false, segments: vec![seg_at("x", THERE), seg_at("A", HERE)] };
    let cases: Vec<(Type, Type)> = vec![
        (Type::Array { elem: b(), rest: REST }, Type::Array { elem: r(), rest: REST }),
        (
            Type::BareFn {
                inputs: vec![BareFnArg { ty: a(), rest: REST }],
                output: ReturnType::Type { ty: b() },
                rest: REST,
            },
            Type::BareFn {
                inputs: vec![BareFnArg { ty: renamed("A"), rest: REST }],
                output: ReturnType::Type { ty: r() },
                rest: REST,
            },
        ),
        (Type::Group { elem: b() }, Type::Group { elem: r() }),
        (
            Type::ImplTrait { bounds: vec![bound(path(&["A"])), TypeParamBound::Other { rest: REST }] },
            Type::ImplTrait { bounds: vec![bound(renamed_path()), TypeParamBound::Other { rest: REST }] },
        ),
        (
            Type::Macro { mac: Macro { path: path(&["A"]), rest: REST } },
            Type::Macro { mac: Macro { path: renamed_path(), rest: REST } },
        ),
        (Type::Paren { elem: b() }, Type::Paren { elem: r() }),
        (
            Type::Path { qself: Some(QSelf { ty: b(), rest: REST }), path: path(&["T", "Item"]) },
            Type::Path { qself: Some(QSelf { ty: r(), rest: REST }), path: path(&["T", "Item"]) },
        ),
        (Type::Ptr { elem: b(), rest: REST }, Type::Ptr { elem: r(), rest: REST }),
        (Type::Reference { elem: b(), rest: REST }, Type::Reference { elem: r(), rest: REST }),
        (Type::Slice { elem: b() }, Type::Slice { elem: r() }),
        (
            Type::TraitObject { bounds: vec![bound(path(&["A"]))], rest: REST },
            Type::TraitObject { bounds: vec![bound(renamed_path())], rest: REST },
        ),
        (Type::Tuple { elems: vec![a(), ty(&["B"])] }, Type::Tuple { elems: vec![renamed("A"), ty(&["B"])] }),
        (Type::Other { rest: REST }, Type::Other { rest: REST }),
    ];
    for (mut subject, expected) in cases {
        replace_item_name_in_type(&mut subject, &rules);
        assert_eq!(subject, expected);
    }
}

#[test]
fn every_kind_of_pattern_is_walked() {
    let table = Table::new(&[("A", &["x", "A"])]);
    let rules = table.rules();
    let p = || Box::new(Pat::Path { qself: None, path: path(&["A"]) });
    let renamed_path = || Path { leading_colon: false, segments: vec![seg_at("x", THERE), seg_at("A", HERE)] };
    let r = || Box::new(Pat::Path { qself: None, path: renamed_path() });
    let cases: Vec<(Pat, Pat)> = vec![
        (Pat::Ident { subpat: Some(p()), rest: REST }, Pat::Ident { subpat: Some(r()), rest: REST }),
        (Pat::Ident { subpat: None, rest: REST }, Pat::Ident { subpat: None, rest: REST }),
        (
            Pat::Macro { mac: Macro { path: path(&["A"]), rest: REST } },
            Pat::Macro { mac: Macro { path: renamed_path(), rest: REST } },
        ),
        (Pat::Paren { pat: p() }, Pat::Paren { pat: r() }),
        (
            Pat::Path { qself: Some(QSelf { ty: Box::new(ty(&["A"])), rest: REST }), path: path(&["T", "C"]) },
            Pat::Path { qself: Some(QSelf { ty: Box::new(renamed("A")), rest: REST }), path: path(&["T", "C"]) },
        ),
        (Pat::Reference { pat: p(), rest: REST }, Pat::Reference { pat: r(), rest: REST }),
        (Pat::Slice { elems: vec![*p(), Pat::Other { rest: REST }] }, Pat::Slice { elems: vec![*r(), Pat::Other { rest: REST }] }),
        (
            Pat::Struct {
                qself: None,
                path: path(&["A"]),
                fields: vec![FieldPat { pat: p(), rest: REST }],
                rest: REST,
            },
            Pat::Struct {
                qself: None,
                path: renamed_path(),
                fields: vec![FieldPat { pat: r(), rest: REST }],
                rest: REST,
            },
        ),
        (Pat::Tuple { elems: vec![*p()] }, Pat::Tuple { elems: vec![*r()] }),
        (
            Pat::TupleStruct { qself: None, path: path(&["A"]), elems: vec![*p()] },
            Pat::TupleStruct { qself: None, path: renamed_path(), elems: vec![*r()] },
        ),
        (
            Pat::Type { pat: p(), ty: Box::new(ty(&["A"])) },
            Pat::Type { pat: r(), ty: Box::new(renamed("A")) },
        ),
        (Pat::Other { rest: REST }, Pat::Other { rest: REST }),
    ];
    for (mut subject, expected) in cases {
        replace_item_name_in_pat(&mut subject, &rules);
        assert_eq!(subject, expected);
    }
}

#[test]
fn generic_arguments_are_walked() {
    let table = Table::new(&[("A", &["x", "A"])]);
    let rules = table.rules();
    let renamed_path = || Path { leading_colon: false, segments: vec![seg_at("x", THERE), seg_at("A", HERE)] };
    let a = || GenericArgument::Type { ty: ty(&["A"]) };
    let r = || GenericArgument::Type { ty: renamed("A") };
    let cases: Vec<(GenericArgument, GenericArgument)> = vec![
        (a(), r()),
        (
            GenericArgument::AssocType { generics: Some(vec![a()]), ty: ty(&["A"]), rest: REST },
            GenericArgument::AssocType { generics: Some(vec![r()]), ty: renamed("A"), rest: REST },
        ),
        (
            GenericArgument::AssocType { generics: None, ty: ty(&["A"]), rest: REST },
            GenericArgument::AssocType { generics: None, ty: renamed("A"), rest: REST },
        ),
        (
            GenericArgument::AssocConst { generics: Some(vec![a()]), rest: REST },
            GenericArgument::AssocConst { generics: Some(vec![r()]), rest: REST },
        ),
        (
            GenericArgument::Constraint {
                bounds: vec![TypeParamBound::Trait { path: path(&["A"]), rest: REST }],
                rest: REST,
            },
            GenericArgument::Constraint {
                bounds: vec![TypeParamBound::Trait { path: renamed_path(), rest: REST }],
                rest: REST,
            },
        ),
        (GenericArgument::Other { rest: REST }, GenericArgument::Other { rest: REST }),
    ];
    for (mut subject, expected) in cases {
        replace_item_name_in_generic_arguments(&mut subject, &rules);
        assert_eq!(subject, expected);
    }
}

#[test]
fn parenthesized_arguments_are_walked() {
    let table = Table::new(&[("A", &["x", "A"])]);
    let mut subject = PathArguments::Parenthesized {
        inputs: vec![ty(&["A"]), ty(&["B"])],
        output: ReturnType::Type { ty: Box::new(ty(&["A"])) },
    };
    replace_item_name_in_path_arguments(&mut subject, &table.rules());
    assert_eq!(
        subject,
        PathArguments::Parenthesized {
            inputs: vec![renamed("A"), ty(&["B"])],
            output: ReturnType::Type { ty: Box::new(renamed("A")) },
        }
    );
    let mut nothing = PathArguments::Empty;
    replace_item_name_in_path_arguments(&mut nothing, &table.rules());
    assert_eq!(nothing, PathArguments::Empty);
}

#[test]
fn return_type_bound_and_macro_are_walked() {
    let table = Table::new(&[("A", &["x", "A"])]);
    let rules = table.rules();
    let renamed_path = || Path { leading_colon: false, segments: vec![seg_at("x", THERE), seg_at("A", HERE)] };
    let mut output = ReturnType::Type { ty: Box::new(ty(&["A"])) };
    replace_item_name_in_return_type(&mut output, &rules);
    assert_eq!(output, ReturnType::Type { ty: Box::new(renamed("A")) });
    let mut nothing = ReturnType::Default;
    replace_item_name_in_return_type(&mut nothing, &rules);
    assert_eq!(nothing, ReturnType::Default);
    let mut bound = TypeParamBound::Trait { path: path(&["A"]), rest: REST };
    replace_item_name_in_type_param_bound(&mut bound, &rules);
    assert_eq!(bound, TypeParamBound::Trait { path: renamed_path(), rest: REST });
    let mut mac = Macro { path: path(&["A", "m"]), rest: REST };
    replace_item_name_in_macro(&mut mac, &rules);
    assert_eq!(mac.path.segments.len(), 3);
    assert_eq!(mac.rest, REST);
}

#[test]
fn generics_are_walked() {
    let table = Table::new(&[("A", &["x", "A"])]);
    let rules = table.rules();
    let renamed_path = || Path { leading_colon: false, segments: vec![seg_at("x", THERE), seg_at("A", HERE)] };
    let bound = |p: Path| TypeParamBound::Trait { path: p, rest: REST };
    let mut subject = Generics {
        params: vec![
            GenericParam::Lifetime { rest: REST },
            GenericParam::Type { bounds: vec![bound(path(&["A"]))], default: Some(ty(&["A"])), rest: REST },
            GenericParam::Type { bounds: vec![], default: None, rest: REST },
            GenericParam::Const { ty: ty(&["A"]), rest: REST },
        ],
        where_clause: Some(vec![
            WherePredicate::Type { bounded_ty: ty(&["A"]), bounds: vec![bound(path(&["A"]))], rest: REST },
            WherePredicate::Other { rest: REST },
        ]),
    };
    replace_item_name_in_generics(&mut subject, &rules);
    assert_eq!(
        subject,
        Generics {
            params: vec![
                GenericParam::Lifetime { rest: REST },
                GenericParam::Type { bounds: vec![bound(renamed_path())], default: Some(renamed("A")), rest: REST },
                GenericParam::Type { bounds: vec![], default: None, rest: REST },
                GenericParam::Const { ty: renamed("A"), rest: REST },
            ],
            where_clause: Some(vec![
                WherePredicate::Type { bounded_ty: renamed("A"), bounds: vec![bound(renamed_path())], rest: REST },
                WherePredicate::Other { rest: REST },
            ]),
        }
    );
    let mut predicate = WherePredicate::Type { bounded_ty: ty(&["A"]), bounds: vec![], rest: REST };
    replace_item_name_in_where_predicates(&mut predicate, &rules);
    assert_eq!(predicate, WherePredicate::Type { bounded_ty: renamed("A"), bounds: vec![], rest: REST });
}

#[test]
fn fields_are_walked() {
    let table = Table::new(&[("A", &["x", "A"])]);
    let rules = table.rules();
    let named = |t: Type| Fields::Named { fields: vec![Field { ty: t, rest: REST }, Field { ty: ty(&["B"]), rest: REST }] };
    let mut subject = named(ty(&["A"]));
    replace_item_name_in_fields(&mut subject, &rules);
    assert_eq!(subject, named(renamed("A")));
    let mut subject = Fields::Unnamed { fields: vec![Field { ty: ty(&["A"]), rest: REST }] };
    replace_item_name_in_fields(&mut subject, &rules);
    assert_eq!(subject, Fields::Unnamed { fields: vec![Field { ty: renamed("A"), rest: REST }] });
    let mut subject = Fields::Unit;
    replace_item_name_in_fields(&mut subject, &rules);
    assert_eq!(subject, Fields::Unit);
    let mut field = Field { ty: ty(&["A"]), rest: REST };
    replace_item_name_in_field(&mut field, &rules);
    assert_eq!(field, Field { ty: renamed("A"), rest: REST });
}

#[test]
fn signature_is_walked() {
    let table = Table::new(&[("A", &["x", "A"])]);
    let rules = table.rules();
    let renamed_path = || Path { leading_colon: false, segments: vec![seg_at("x", THERE), seg_at("A", HERE)] };
    let sig = |t: fn() -> Type, p: Path| Signature {
        asyncness: None,
        fn_token: Span { id: 3 },
        generics: Generics {
            params: vec![GenericParam::Const { ty: t(), rest: REST }],
            where_clause: None,
        },
        inputs: vec![
            FnArg::Receiver { ty: Box::new(t()), rest: REST },
            FnArg::Typed {
                pat: Box::new(Pat::Path { qself: None, path: p }),
                ty: Box::new(t()),
                rest: REST,
            },
        ],
        output: ReturnType::Type { ty: Box::new(t()) },
        rest: REST,
    };
    let mut subject = sig(|| ty(&["A"]), path(&["A"]));
    replace_item_name_in_signature(&mut subject, &rules);
    assert_eq!(subject, sig(|| renamed("A"), renamed_path()));
    let mut arg = FnArg::Receiver { ty: Box::new(ty(&["A"])), rest: REST };
    replace_item_name_in_fn_arg(&mut arg, &rules);
    assert_eq!(arg, FnArg::Receiver { ty: Box::new(renamed("A")), rest: REST });
}

#[test]
fn rules_come_from_alias_or_last_segment() {
    let imports = vec![
        ItemImport { path: target(&["std", "io", "BufReader"], false), alias: Some(imported("B")) },
        ItemImport { path: target(&["std", "io", "Read"], true), alias: None },
        ItemImport { path: target(&[], false), alias: None },
        ItemImport { path: target(&[], false), alias: Some(imported("N")) },
    ];
    let rules = replaces_from_item_imports(&imports);
    assert_eq!(rules.len(), 3);
    assert_eq!(rules[0].from, &imported("B"));
    assert_eq!(rules[0].to, &imports[0].path);
    assert_eq!(rules[1].from, &imported("Read"));
    assert_eq!(rules[1].to, &imports[1].path);
    assert_eq!(rules[2].from, &imported("N"));
    assert_eq!(rules[2].to, &imports[3].path);
}
