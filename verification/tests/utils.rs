use sync_async::ast::{Ident, ItemUse, Span, UseTree};
use sync_async::utils::{item_use_from_item_import, item_uses_from_item_imports};
use sync_async::{ItemImport, PathWithoutArgs};

const HERE: Span = Span { id: 11 };

fn id(name: &str) -> Ident {
    Ident::new(name, HERE)
}

fn path(names: &[&str], leading_colon: bool) -> PathWithoutArgs {
    PathWithoutArgs::from_idents(names.iter().map(|n| id(n)).collect(), leading_colon)
}

#[test]
fn path_is_written_with_separators() {
    assert_eq!(path(&["a", "b", "C"], false).to_string(), "a::b::C");
    assert_eq!(path(&["a", "b", "C"], true).to_string(), "::a::b::C");
    assert_eq!(path(&["C"], false).to_string(), "C");
    assert_eq!(path(&["C"], true).to_string(), "::C");
    assert_eq!(path(&[], false).to_string(), "");
    assert_eq!(path(&[], true).to_string(), "::");
}

#[test]
fn path_from_idents_keeps_them() {
    let p = PathWithoutArgs::from_idents(vec![id("a"), id("b")], true);
    assert_eq!(p, PathWithoutArgs { leading_colon: true, segments: vec![id("a"), id("b")] });
}

#[test]
fn last_ident_of_a_path() {
    assert_eq!(path(&["a", "b"], false).last_ident(), Some(&id("b")));
    assert_eq!(path(&[], false).last_ident(), None);
}

#[test]
fn import_of_one_name() {
    let import = ItemImport { path: path(&["C"], false), alias: None };
    assert_eq!(
        item_use_from_item_import(&import),
        ItemUse { attrs: vec![], leading_colon: false, tree: UseTree::Name { ident: id("C") } }
    );
}

#[test]
fn import_of_a_path_under_an_alias() {
    let import = ItemImport { path: path(&["a", "b", "C"], true), alias: Some(id("D")) };
    assert_eq!(
        item_use_from_item_import(&import),
        ItemUse {
            attrs: vec![],
            leading_colon: true,
            tree: UseTree::Path {
                ident: id("a"),
                tree: Box::new(UseTree::Path {
                    ident: id("b"),
                    tree: Box::new(UseTree::Rename { ident: id("C"), rename: id("D") }),
                }),
            },
        }
    );
}

#[test]
fn imports_keep_their_order() {
    let imports = vec![
        ItemImport { path: path(&["a"], false), alias: None },
        ItemImport { path: path(&["b"], false), alias: Some(id("c")) },
    ];
    let uses = item_uses_from_item_imports(&imports);
    assert_eq!(
        uses,
        vec![
            ItemUse { attrs: vec![], leading_colon: false, tree: UseTree::Name { ident: id("a") } },
            ItemUse {
                attrs: vec![],
                leading_colon: false,
                tree: UseTree::Rename { ident: id("b"), rename: id("c") },
            },
        ]
    );
    assert_eq!(item_uses_from_item_imports(&[]), vec![]);
}

#[test]
fn identifiers_compare_by_their_text() {
    let a = Ident::new("a", Span { id: 1 });
    let b = Ident::new("a", Span { id: 2 });
    assert!(a.same_name(&b));
    assert!(!a.same_name(&id("b")));
    assert!(a.is("a"));
    assert!(!a.is("ab"));
    assert!(!a.is(""));
}
