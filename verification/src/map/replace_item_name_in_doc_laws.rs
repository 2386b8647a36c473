//! What holds of the redirection of links for every text and every table.
use crate::ast::attr::{AttributeView, MetaValueView, MetaView};
use crate::map::replace_item_name::ReplaceItemNameFromToView;
use crate::map::replace_item_name_in_doc::{
    after_last_at, closer_of, closes_at, closing, depth_at, doc_rule, edit_of, head_of, in_order,
    is_whitespace, item_at, lemma_links_in_order, lemma_trimmed_inside, links_from, redirected,
    redirected_attr, redirected_attrs, rest_of, rewritten, rewritten_from, rewritten_text,
    separator_from, skip_leading, skip_trailing, trimmed, ItemInDoc, AT_SIGN, BACKTICK,
    CLOSE_BRACKET, CLOSE_PAREN, COLON, OPEN_BRACKET, OPEN_PAREN,
};
use crate::map::utf8_pieces::{
    beside_ascii, is_ascii_byte, lemma_ascii_text, lemma_piece_is_text, lemma_three_texts,
};
use vstd::prelude::*;
use vstd::utf8::{encode_utf8, encode_utf8_decode_utf8, encode_utf8_valid_utf8, valid_utf8};

verus! {

/// Without a rule that applies to any of its links a text stays as it is.
pub proof fn lemma_unmatched_links_leave_text(
    bytes: Seq<u8>,
    from: int,
    links: Seq<ItemInDoc>,
    rules: Seq<ReplaceItemNameFromToView>,
)
    requires
        0 <= from <= bytes.len(),
        forall|i: int| 0 <= i < links.len() ==> edit_of(bytes, #[trigger] links[i], rules) is None,
    ensures
        rewritten_from(bytes, from, links, rules) == bytes.subrange(from, bytes.len() as int),
    decreases links.len(),
{
    if links.len() > 0 {
        let tail = links.drop_first();
        assert(links.first() == links[0]);
        assert forall|i: int| 0 <= i < tail.len() implies edit_of(
            bytes,
            #[trigger] tail[i],
            rules,
        ) is None by {
            assert(tail[i] == links[i + 1]);
        }
        lemma_unmatched_links_leave_text(bytes, from, tail, rules);
    }
}

/// With an empty table a text stays as it is.
pub proof fn lemma_no_rules_text(text: Seq<char>)
    ensures
        rewritten_text(text, Seq::empty()) == text,
{
    let bytes = encode_utf8(text);
    lemma_unmatched_links_leave_text(bytes, 0, links_from(bytes, 0), Seq::empty());
    assert(bytes.subrange(0, bytes.len() as int) =~= bytes);
    encode_utf8_decode_utf8(text);
}

/// With an empty table annotations stay as they are.
pub proof fn lemma_no_rules_attrs(attrs: Seq<AttributeView>)
    ensures
        redirected_attrs(attrs, Seq::empty()) == attrs,
{
    assert forall|i: int| 0 <= i < attrs.len() implies redirected_attr(attrs[i], Seq::empty())
        == attrs[i] by {
        if let MetaView::NameValue { value: MetaValueView::Str { value, .. }, .. } = attrs[i].meta {
            lemma_no_rules_text(value);
        }
    }
    assert(redirected_attrs(attrs, Seq::empty()) =~= attrs);
}

/// The byte that closes a bracket is the closing bracket.
pub proof fn lemma_closing_is_close(bytes: Seq<u8>, start: int, open: u8, close: u8)
    ensures
        closing(bytes, start, open, close) matches Some(j) ==> start <= j < bytes.len()
            && bytes[j] == close && close != open,
{
    if let Some(j) = closing(bytes, start, open, close) {
        assert(closes_at(bytes, start, open, close, j));
        assert(depth_at(bytes, start, j, open, close) > 0);
    }
}

pub proof fn lemma_skip_leading_beside_ascii(bytes: Seq<u8>, i: int, end: int)
    requires
        0 <= i <= end <= bytes.len(),
    ensures
        skip_leading(bytes, i, end) == i || is_ascii_byte(bytes[skip_leading(bytes, i, end) - 1]),
        i <= skip_leading(bytes, i, end) <= end,
    decreases end - i,
{
    if i < end && (bytes[i] == BACKTICK || is_whitespace(bytes[i])) {
        lemma_skip_leading_beside_ascii(bytes, i + 1, end);
    }
}

pub proof fn lemma_after_last_at_beside_ascii(bytes: Seq<u8>, start: int, end: int)
    requires
        0 <= start <= end <= bytes.len(),
    ensures
        after_last_at(bytes, start, end) == start || is_ascii_byte(
            bytes[after_last_at(bytes, start, end) - 1],
        ),
        start <= after_last_at(bytes, start, end) <= end,
    decreases end - start,
{
    if start < end && bytes[end - 1] != AT_SIGN {
        lemma_after_last_at_beside_ascii(bytes, start, end - 1);
    }
}

pub proof fn lemma_skip_trailing_beside_ascii(bytes: Seq<u8>, start: int, end: int)
    requires
        0 <= start <= end <= bytes.len(),
    ensures
        skip_trailing(bytes, start, end) == end || is_ascii_byte(
            bytes[skip_trailing(bytes, start, end)],
        ),
        start <= skip_trailing(bytes, start, end) <= end,
    decreases end - start,
{
    if start < end && bytes[end - 1] == BACKTICK {
        lemma_skip_trailing_beside_ascii(bytes, start, end - 1);
    }
}

/// What is trimmed starts and ends beside an ASCII byte, if what it was
/// trimmed from does.
pub proof fn lemma_trimmed_beside_ascii(bytes: Seq<u8>, start: int, end: int)
    requires
        start <= end,
        beside_ascii(bytes, start),
        beside_ascii(bytes, end),
    ensures
        beside_ascii(bytes, trimmed(bytes, start, end).0),
        beside_ascii(bytes, trimmed(bytes, start, end).1),
{
    lemma_skip_leading_beside_ascii(bytes, start, end);
    let lead = skip_leading(bytes, start, end);
    lemma_after_last_at_beside_ascii(bytes, lead, end);
    let from = after_last_at(bytes, lead, end);
    lemma_skip_trailing_beside_ascii(bytes, from, end);
}

/// Whether a link lies beside ASCII bytes with all its offsets, and the place
/// behind its closing bracket as well.
pub open spec fn link_beside_ascii(bytes: Seq<u8>, link: ItemInDoc) -> bool {
    &&& beside_ascii(bytes, link.outer.start as int)
    &&& beside_ascii(bytes, link.outer.end as int)
    &&& beside_ascii(bytes, link.inner.start as int)
    &&& beside_ascii(bytes, link.inner.end as int)
    &&& beside_ascii(bytes, link.outer.end + 1)
}

/// The links that the scan finds lie beside ASCII bytes: the brackets.
pub proof fn lemma_links_beside_ascii(bytes: Seq<u8>, i: int)
    requires
        0 <= i,
        bytes.len() <= usize::MAX,
    ensures
        forall|k: int|
            0 <= k < links_from(bytes, i).len() ==> link_beside_ascii(
                bytes,
                #[trigger] links_from(bytes, i)[k],
            ),
    decreases bytes.len() - i,
{
    if i >= bytes.len() {
        assert(links_from(bytes, i).len() == 0);
    } else if bytes[i] != OPEN_BRACKET {
        lemma_links_beside_ascii(bytes, i + 1);
        assert(links_from(bytes, i) == links_from(bytes, i + 1));
    } else {
        lemma_closing_is_close(bytes, i + 1, OPEN_BRACKET, CLOSE_BRACKET);
        match closing(bytes, i + 1, OPEN_BRACKET, CLOSE_BRACKET) {
            None => {
                assert(links_from(bytes, i).len() == 0);
            },
            Some(end_label) => {
                let j = end_label + 1;
                if j < bytes.len() && (bytes[j] == OPEN_PAREN || bytes[j] == OPEN_BRACKET) {
                    lemma_closing_is_close(bytes, j + 1, bytes[j], closer_of(bytes[j]));
                    match closing(bytes, j + 1, bytes[j], closer_of(bytes[j])) {
                        None => {
                            assert(links_from(bytes, i).len() == 0);
                        },
                        Some(end_target) => {
                            lemma_trimmed_inside(bytes, j + 1, end_target);
                            lemma_trimmed_beside_ascii(bytes, j + 1, end_target);
                            lemma_links_beside_ascii(bytes, end_target + 1);
                            let first = item_at(bytes, j + 1, end_target, true);
                            let later = links_from(bytes, end_target + 1);
                            assert(link_beside_ascii(bytes, first));
                            assert forall|k: int|
                                0 <= k < links_from(bytes, i).len() implies link_beside_ascii(
                                bytes,
                                #[trigger] links_from(bytes, i)[k],
                            ) by {
                                assert(links_from(bytes, i) =~= seq![first] + later);
                                if k > 0 {
                                    assert(links_from(bytes, i)[k] == later[k - 1]);
                                }
                            }
                        },
                    }
                } else {
                    lemma_trimmed_inside(bytes, i + 1, end_label);
                    lemma_trimmed_beside_ascii(bytes, i + 1, end_label);
                    lemma_links_beside_ascii(bytes, j);
                    let first = item_at(bytes, i + 1, end_label, false);
                    let later = links_from(bytes, j);
                    assert(link_beside_ascii(bytes, first));
                    assert forall|k: int|
                        0 <= k < links_from(bytes, i).len() implies link_beside_ascii(
                        bytes,
                        #[trigger] links_from(bytes, i)[k],
                    ) by {
                        assert(links_from(bytes, i) =~= seq![first] + later);
                        if k > 0 {
                            assert(links_from(bytes, i)[k] == later[k - 1]);
                        }
                    }
                }
            },
        }
    }
}

/// Where a `::` is found, there it stands.
pub proof fn lemma_separator_is_colons(text: Seq<u8>, i: int)
    requires
        0 <= i,
    ensures
        separator_from(text, i) matches Some(p) ==> i <= p && p + 1 < text.len() && text[p]
            == COLON && text[p + 1] == COLON,
    decreases text.len() - i,
{
    if i + 1 < text.len() && !(text[i] == COLON && text[i + 1] == COLON) {
        lemma_separator_is_colons(text, i + 1);
    }
}

/// What a link gives way to is text, if the link stands in a text.
pub proof fn lemma_edit_is_text(
    bytes: Seq<u8>,
    link: ItemInDoc,
    rules: Seq<ReplaceItemNameFromToView>,
)
    requires
        valid_utf8(bytes),
        link.outer.start <= link.inner.start <= link.inner.end <= link.outer.end < bytes.len(),
        link_beside_ascii(bytes, link),
    ensures
        edit_of(bytes, link, rules) matches Some(edit) ==> valid_utf8(edit.text),
{
    let path = bytes.subrange(link.inner.start as int, link.inner.end as int);
    if let Some(rule) = doc_rule(rules, head_of(path)) {
        let to = encode_utf8(rule.to.text());
        encode_utf8_valid_utf8(rule.to.text());
        let rest = rest_of(path);
        let colons = seq![COLON, COLON];
        lemma_ascii_text(seq![':', ':']);
        assert(Seq::new(2, |i: int| seq![':', ':'][i] as u8) =~= colons);
        lemma_separator_is_colons(path, 0);
        if let Some(p) = separator_from(path, 0) {
            let at = link.inner.start + p + 2;
            assert(rest =~= bytes.subrange(at, link.inner.end as int));
            assert(bytes[at - 1] == path[p + 1]);
            lemma_piece_is_text(bytes, at, link.inner.end as int);
        }
        let target = redirected(rule, rest);
        if rest.len() > 0 {
            lemma_three_texts(to, colons, rest);
        }
        assert(valid_utf8(target));
        if !link.has_label {
            let open = seq![OPEN_PAREN];
            let close = seq![CLOSE_PAREN];
            lemma_ascii_text(seq!['(']);
            assert(Seq::new(1, |i: int| seq!['('][i] as u8) =~= open);
            lemma_ascii_text(seq![')']);
            assert(Seq::new(1, |i: int| seq![')'][i] as u8) =~= close);
            let prefix = bytes.subrange(link.outer.start as int, link.inner.start as int);
            let suffix = bytes.subrange(link.inner.end as int, link.outer.end as int);
            lemma_piece_is_text(bytes, link.outer.start as int, link.inner.start as int);
            lemma_piece_is_text(bytes, link.inner.end as int, link.outer.end as int);
            lemma_three_texts(open, prefix, target);
            lemma_three_texts(open + prefix + target, suffix, close);
        }
    }
}

/// A text with its links redirected is a text.
pub proof fn lemma_rewritten_is_text(
    bytes: Seq<u8>,
    from: int,
    links: Seq<ItemInDoc>,
    rules: Seq<ReplaceItemNameFromToView>,
)
    requires
        valid_utf8(bytes),
        beside_ascii(bytes, from),
        in_order(links, from, bytes.len() as int),
        forall|k: int| 0 <= k < links.len() ==> link_beside_ascii(bytes, #[trigger] links[k]),
    ensures
        valid_utf8(rewritten_from(bytes, from, links, rules)),
    decreases links.len(),
{
    let len = bytes.len() as int;
    if links.len() == 0 {
        lemma_piece_is_text(bytes, from, len);
    } else {
        let link = links.first();
        let tail = links.drop_first();
        assert(link == links[0]);
        assert forall|k: int| 0 <= k < tail.len() implies link_beside_ascii(
            bytes,
            #[trigger] tail[k],
        ) by {
            assert(tail[k] == links[k + 1]);
        }
        match edit_of(bytes, link, rules) {
            None => {
                assert(in_order(tail, from, len)) by {
                    assert forall|a: int| 0 <= a < tail.len() implies from <= (
                    #[trigger] tail[a]).outer.start <= tail[a].inner.start <= tail[a].inner.end
                        <= tail[a].outer.end < len by {
                        assert(tail[a] == links[a + 1]);
                    }
                    assert forall|a: int, b: int| 0 <= a < b < tail.len() implies (
                    #[trigger] tail[a]).outer.end < (#[trigger] tail[b]).outer.start by {
                        assert(tail[a] == links[a + 1]);
                        assert(tail[b] == links[b + 1]);
                    }
                }
                lemma_rewritten_is_text(bytes, from, tail, rules);
            },
            Some(edit) => {
                assert(in_order(tail, edit.end, len)) by {
                    assert forall|a: int| 0 <= a < tail.len() implies edit.end <= (
                    #[trigger] tail[a]).outer.start <= tail[a].inner.start <= tail[a].inner.end
                        <= tail[a].outer.end < len by {
                        assert(tail[a] == links[a + 1]);
                        assert(links[0].outer.end < links[a + 1].outer.start);
                    }
                    assert forall|a: int, b: int| 0 <= a < b < tail.len() implies (
                    #[trigger] tail[a]).outer.end < (#[trigger] tail[b]).outer.start by {
                        assert(tail[a] == links[a + 1]);
                        assert(tail[b] == links[b + 1]);
                    }
                }
                lemma_edit_is_text(bytes, link, rules);
                lemma_piece_is_text(bytes, from, edit.start);
                lemma_rewritten_is_text(bytes, edit.end, tail, rules);
                lemma_three_texts(
                    bytes.subrange(from, edit.start),
                    edit.text,
                    rewritten_from(bytes, edit.end, tail, rules),
                );
            },
        }
    }
}

/// A text with every link redirected that a rule applies to is a text.
pub proof fn lemma_rewritten_text(bytes: Seq<u8>, rules: Seq<ReplaceItemNameFromToView>)
    requires
        valid_utf8(bytes),
        bytes.len() <= usize::MAX,
    ensures
        valid_utf8(rewritten(bytes, rules)),
{
    lemma_links_in_order(bytes, 0);
    lemma_links_beside_ascii(bytes, 0);
    lemma_rewritten_is_text(bytes, 0, links_from(bytes, 0), rules);
}

} // verus!
