use sync_async::ast::{Ident, Path, PathArguments, PathSegment, Span, Tokens, UseTree};
use sync_async::{
    item_imports_from_use_tree, Args, Availability, ErrorKind, ExpandError, ItemImport,
    PathWithoutArgs,
};

const HERE: Span = Span { id: 11 };

fn id(name: &str) -> Ident {
    Ident::new(name, HERE)
}

fn name(n: &str) -> UseTree {
    UseTree::Name { ident: id(n) }
}

fn rename(n: &str, to: &str) -> UseTree {
    UseTree::Rename { ident: id(n), rename: id(to) }
}

fn path(n: &str, tree: UseTree) -> UseTree {
    UseTree::Path { ident: id(n), tree: Box::new(tree) }
}

fn group(items: Vec<UseTree>) -> UseTree {
    UseTree::Group { items }
}

fn import(names: &[&str], alias: Option<&str>, leading_colon: bool) -> ItemImport {
    ItemImport {
        path: PathWithoutArgs::from_idents(names.iter().map(|n| id(n)).collect(), leading_colon),
        alias: alias.map(id),
    }
}

#[test]
fn one_name_gives_one_import_for_both_variants() {
    let args = item_imports_from_use_tree(path("a", path("b", name("C"))), false, Availability::Both);
    let expected = vec![import(&["a", "b", "C"], None, false)];
    assert_eq!(
        args,
        Ok(Args { item_imports_for_async: expected.clone(), item_imports_for_sync: expected })
    );
}

#[test]
fn tagged_directive_is_for_one_variant() {
    let tree = || path("a", rename("B", "C"));
    let expected = vec![import(&["a", "B"], Some("C"), true)];
    assert_eq!(
        item_imports_from_use_tree(tree(), true, Availability::AsyncOnly),
        Ok(Args { item_imports_for_async: expected.clone(), item_imports_for_sync: vec![] })
    );
    assert_eq!(
        item_imports_from_use_tree(tree(), true, Availability::SyncOnly),
        Ok(Args { item_imports_for_async: vec![], item_imports_for_sync: expected })
    );
}

#[test]
fn group_gives_one_import_for_each_name() {
    // a::{B, c::{D as E, F}, G}
    let tree = path(
        "a",
        group(vec![name("B"), path("c", group(vec![rename("D", "E"), name("F")])), name("G")]),
    );
    let args = item_imports_from_use_tree(tree, false, Availability::SyncOnly).unwrap();
    // level by level: the names of the outer group come first
    assert_eq!(
        args.item_imports_for_sync,
        vec![
            import(&["a", "B"], None, false),
            import(&["a", "G"], None, false),
            import(&["a", "c", "D"], Some("E"), false),
            import(&["a", "c", "F"], None, false),
        ]
    );
}

#[test]
fn empty_group_gives_no_import() {
    let args = item_imports_from_use_tree(path("a", group(vec![])), false, Availability::Both);
    assert_eq!(args, Ok(Args { item_imports_for_async: vec![], item_imports_for_sync: vec![] }));
}

#[test]
fn glob_is_rejected_at_its_place() {
    let glob = |id: u64| UseTree::Glob { span: Span { id } };
    assert_eq!(
        item_imports_from_use_tree(path("a", glob(7)), false, Availability::Both),
        Err(ExpandError { kind: ErrorKind::GlobImport, span: Span { id: 7 } })
    );
    // the glob that is met first, level by level
    let tree = path("a", group(vec![name("B"), path("c", group(vec![glob(8)])), glob(9)]));
    assert_eq!(
        item_imports_from_use_tree(tree, false, Availability::Both),
        Err(ExpandError { kind: ErrorKind::GlobImport, span: Span { id: 9 } })
    );
}

#[test]
fn tags_are_read() {
    assert_eq!(Availability::from_tag(&id("if_async")), Ok(Availability::AsyncOnly));
    assert_eq!(Availability::from_tag(&id("if_sync")), Ok(Availability::SyncOnly));
    assert_eq!(
        Availability::from_tag(&id("if_both")),
        Err(ExpandError { kind: ErrorKind::UnknownTag, span: HERE })
    );
    assert_eq!(
        ExpandError { kind: ErrorKind::UnknownTag, span: HERE }.message(),
        "expected none or one of: `if_async`, `if_sync`"
    );
}

#[test]
fn directives_add_up_in_their_order() {
    let mut args = Args::new();
    assert_eq!(args, Args { item_imports_for_async: vec![], item_imports_for_sync: vec![] });
    args.extend(item_imports_from_use_tree(name("A"), false, Availability::Both).unwrap());
    args.extend(item_imports_from_use_tree(name("B"), false, Availability::SyncOnly).unwrap());
    args.extend(item_imports_from_use_tree(name("C"), false, Availability::AsyncOnly).unwrap());
    assert_eq!(
        args,
        Args {
            item_imports_for_async: vec![import(&["A"], None, false), import(&["C"], None, false)],
            item_imports_for_sync: vec![import(&["A"], None, false), import(&["B"], None, false)],
        }
    );
}

fn seg(name: &str, args: bool) -> PathSegment {
    PathSegment {
        ident: Ident::new(name, Span { id: 99 }),
        arguments: if args {
            PathArguments::AngleBracketed { args: vec![], rest: Tokens { id: 1 } }
        } else {
            PathArguments::Empty
        },
    }
}

#[test]
fn path_without_arguments_compares_by_names() {
    let p = PathWithoutArgs::from_idents(vec![id("a"), id("B")], false);
    let same = Path { leading_colon: false, segments: vec![seg("a", false), seg("B", true)] };
    assert!(p.eq_path(&same));
    let absolute = Path { leading_colon: true, segments: vec![seg("a", false), seg("B", false)] };
    assert!(!p.eq_path(&absolute));
    let shorter = Path { leading_colon: false, segments: vec![seg("a", false)] };
    assert!(!p.eq_path(&shorter));
    let other = Path { leading_colon: false, segments: vec![seg("a", false), seg("C", false)] };
    assert!(!p.eq_path(&other));
}

#[test]
fn path_without_arguments_becomes_a_path() {
    let p = PathWithoutArgs::from_idents(vec![id("a"), id("B")], true);
    let plain = |n: &str| PathSegment { ident: id(n), arguments: PathArguments::Empty };
    assert_eq!(p.into_path(), Path { leading_colon: true, segments: vec![plain("a"), plain("B")] });
}
