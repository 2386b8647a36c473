use sync_async::ast::{Attribute, Ident, Meta, MetaValue, Path, PathArguments, PathSegment, Span, Tokens};
use sync_async::map::{
    find_closing, find_type, replace_item_name_in_doc, replace_item_name_in_text, trim_range,
    ItemInDoc, ReplaceItemNameFromTo,
};
use sync_async::PathWithoutArgs;

fn ident(name: &str) -> Ident {
    Ident::new(name, Span { id: 7 })
}

fn target(names: &[&str], leading_colon: bool) -> PathWithoutArgs {
    PathWithoutArgs::from_idents(names.iter().map(|n| ident(n)).collect(), leading_colon)
}

fn rewrite(text: &str, from: &str, to: &[&str]) -> String {
    let from = ident(from);
    let to = target(to, false);
    let rules = vec![ReplaceItemNameFromTo { from: &from, to: &to }];
    replace_item_name_in_text(text, &rules)
}

fn links(text: &str) -> Vec<ItemInDoc> {
    let mut buf = Vec::new();
    find_type(text, &mut buf);
    buf
}

#[test]
fn labeled_link_is_redirected() {
    assert_eq!(rewrite("[Type](F::a)", "F", &["T"]), "[Type](T::a)");
}

#[test]
fn labeled_link_with_reference_target_is_redirected() {
    assert_eq!(rewrite("[`Type`][F]", "F", &["T"]), "[`Type`][T]");
}

#[test]
fn labeled_link_without_remainder() {
    assert_eq!(rewrite("see [Type](F) here", "F", &["a", "T"]), "see [Type](a::T) here");
}

#[test]
fn bare_link_gets_a_target() {
    assert_eq!(rewrite("[`F()`]", "F", &["T"]), "[`F()`](`T()`)");
}

#[test]
fn bare_link_plain() {
    assert_eq!(rewrite("[F]", "F", &["T"]), "[F](T)");
}

#[test]
fn bare_link_with_remainder_and_disambiguator() {
    assert_eq!(rewrite("[struct@F::new]", "F", &["x", "T"]), "[struct@F::new](struct@x::T::new)");
}

#[test]
fn macro_suffix_is_kept_around_the_path() {
    assert_eq!(rewrite("[`F!`]", "F", &["T"]), "[`F!`](`T!`)");
    assert_eq!(rewrite("[`F!()`]", "F", &["T"]), "[`F!()`](`T!()`)");
    assert_eq!(rewrite("[F{}]", "F", &["T"]), "[F{}](T{})");
}

#[test]
fn two_links_of_different_length_are_both_redirected() {
    assert_eq!(
        rewrite("a [x](F::one) b [`F`] c [long label](F) d", "F", &["very", "long", "Target"]),
        "a [x](very::long::Target::one) b [`F`](`very::long::Target`) c [long label](very::long::Target) d"
    );
}

#[test]
fn two_rules_two_links() {
    let f = ident("F");
    let g = ident("G");
    let t = target(&["T"], false);
    let u = target(&["a", "b", "U"], true);
    let rules = vec![
        ReplaceItemNameFromTo { from: &f, to: &t },
        ReplaceItemNameFromTo { from: &g, to: &u },
    ];
    let out = replace_item_name_in_text("[G] and [l](F::x) and [G::y]", &rules);
    assert_eq!(out, "[G](::a::b::U) and [l](T::x) and [G::y](::a::b::U::y)");
}

#[test]
fn first_rule_wins() {
    let f = ident("F");
    let t = target(&["T"], false);
    let u = target(&["U"], false);
    let rules = vec![
        ReplaceItemNameFromTo { from: &f, to: &t },
        ReplaceItemNameFromTo { from: &f, to: &u },
    ];
    let out = replace_item_name_in_text("[F]", &rules);
    assert_eq!(out, "[F](T)");
}

#[test]
fn no_matching_rule_leaves_the_text() {
    assert_eq!(rewrite("[Type](G::a) and [H]", "F", &["T"]), "[Type](G::a) and [H]");
    assert_eq!(rewrite("[FF] [f]", "F", &["T"]), "[FF] [f]");
}

#[test]
fn no_rules_leave_the_text() {
    let out = replace_item_name_in_text("[F] [a](F)", &[]);
    assert_eq!(out, "[F] [a](F)");
}

#[test]
fn unterminated_bracket_stops_the_scan() {
    assert_eq!(rewrite("[F] then [F", "F", &["T"]), "[F](T) then [F");
    assert_eq!(rewrite("[a](F and [F]", "F", &["T"]), "[a](F and [F]");
}

#[test]
fn nested_brackets_in_label() {
    assert_eq!(rewrite("[a [b] c](F)", "F", &["T"]), "[a [b] c](T)");
}

#[test]
fn text_that_is_not_ascii_is_kept() {
    assert_eq!(rewrite("é [F] ü", "F", &["T"]), "é [F](T) ü");
    assert_eq!(rewrite("[é](F::ü) [`Fé`] [Ü@F::é()]", "F", &["Tö"]), "[é](Tö::ü) [`Fé`] [Ü@F::é()](Ü@Tö::é())");
}

#[test]
fn offsets_count_bytes() {
    assert_eq!(links("é[F]"), vec![ItemInDoc { outer: 3..4, inner: 3..4, has_label: false }]);
    assert_eq!(trim_range("é`F`", 0..5), 0..4);
    assert_eq!(trim_range("é`F`", 2..5), 3..4);
}

#[test]
fn last_at_sign_ends_the_disambiguator() {
    assert_eq!(links("[a@b@F]")[0].inner, 5..6);
}

#[test]
fn find_closing_counts_nesting() {
    assert_eq!(find_closing(b"a[b]c]d", 0, b'[', b']'), Some(5));
    assert_eq!(find_closing(b"abc]", 0, b'[', b']'), Some(3));
    assert_eq!(find_closing(b"a[b]c", 0, b'[', b']'), None);
    assert_eq!(find_closing(b"", 0, b'[', b']'), None);
    assert_eq!(find_closing(b"]", 5, b'[', b']'), None);
    assert_eq!(find_closing(b"(()", 0, b'(', b')'), None);
    assert_eq!(find_closing(b"xx", 0, b'x', b'x'), None);
}

#[test]
fn trim_range_strips_in_order() {
    let text = "  `struct@Foo::bar!()`` ";
    assert_eq!(trim_range(text, 0..text.len() - 1), 10..18);
    assert_eq!(trim_range("F()", 0..3), 0..1);
    assert_eq!(trim_range("F![]{}()", 0..8), 0..1);
    assert_eq!(trim_range("F(){}[]!", 0..8), 0..7);
    assert_eq!(trim_range("F!()", 0..4), 0..1);
    assert_eq!(trim_range("F()!", 0..4), 0..3);
    assert_eq!(trim_range("F()()", 0..5), 0..3);
    assert_eq!(trim_range("``", 0..2), 2..2);
    assert_eq!(trim_range("a@", 0..2), 2..2);
    assert_eq!(trim_range("\t\n\x0c\r F", 0..6), 5..6);
    assert_eq!(trim_range("xyz", 1..1), 1..1);
}

#[test]
fn find_type_reports_offsets() {
    let found = links("x [`A`](b::C) [D] [e][`F()`]");
    assert_eq!(
        found,
        vec![
            ItemInDoc { outer: 8..12, inner: 8..12, has_label: true },
            ItemInDoc { outer: 15..16, inner: 15..16, has_label: false },
            ItemInDoc { outer: 22..27, inner: 23..24, has_label: true },
        ]
    );
}

#[test]
fn find_type_appends_to_the_buffer() {
    let mut buf = vec![ItemInDoc { outer: 0..0, inner: 0..0, has_label: false }];
    find_type("[a]", &mut buf);
    assert_eq!(buf.len(), 2);
    assert_eq!(buf[1], ItemInDoc { outer: 1..2, inner: 1..2, has_label: false });
}

fn name_path(name: &str) -> Path {
    Path {
        leading_colon: false,
        segments: vec![PathSegment { ident: ident(name), arguments: PathArguments::Empty }],
    }
}

fn doc(text: &str) -> Attribute {
    Attribute {
        span: Span { id: 1 },
        meta: Meta::NameValue {
            path: name_path("doc"),
            value: MetaValue::Str { value: text.to_string(), span: Span { id: 2 } },
        },
        rest: Tokens { id: 3 },
    }
}

#[test]
fn only_documentation_is_rewritten() {
    let other = Attribute {
        span: Span { id: 1 },
        meta: Meta::NameValue {
            path: name_path("path"),
            value: MetaValue::Str { value: "[F]".to_string(), span: Span { id: 2 } },
        },
        rest: Tokens { id: 3 },
    };
    let plain = Attribute {
        span: Span { id: 4 },
        meta: Meta::Path { path: name_path("doc") },
        rest: Tokens { id: 5 },
    };
    let not_text = Attribute {
        span: Span { id: 4 },
        meta: Meta::NameValue { path: name_path("doc"), value: MetaValue::Other { rest: Tokens { id: 9 } } },
        rest: Tokens { id: 5 },
    };
    let mut attrs = vec![doc("[F]"), other.clone(), plain.clone(), not_text.clone(), doc("none")];
    let from = ident("F");
    let to = target(&["T"], false);
    replace_item_name_in_doc(&mut attrs, &[ReplaceItemNameFromTo { from: &from, to: &to }]);
    assert_eq!(attrs, vec![doc("[F](T)"), other, plain, not_text, doc("none")]);
}
