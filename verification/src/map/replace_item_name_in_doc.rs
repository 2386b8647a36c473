//! Redirects the links of documentation text by a table of rules.
//!
//! The text is scanned for `[label](target)`, `[label][target]` and
//! `[target]`. Where the first path segment of a target is the name of a rule,
//! the target is redirected to the path of the rule. The scan works on the
//! bytes of the text and never decodes them: every byte it looks for is
//! ASCII, and text that is cut beside an ASCII byte is text again.
use crate::ast::attr::{
    attrs_view, Attribute, AttributeView, Meta, MetaValue, MetaValueView, MetaView,
};
use crate::ast::token::bytes_eq;
use crate::map::replace_item_name::{rules_view, ReplaceItemNameFromTo, ReplaceItemNameFromToView};
use std::ops::Range;
use vstd::prelude::*;
use vstd::slice::{slice_subrange, slice_to_vec};
use crate::map::replace_item_name_in_doc_laws::lemma_rewritten_text;
use vstd::utf8::{
    decode_utf8, encode_utf8, encode_utf8_decode_utf8, encode_utf8_valid_utf8, valid_utf8,
};

verus! {

pub const OPEN_BRACKET: u8 = 0x5b;

pub const CLOSE_BRACKET: u8 = 0x5d;

pub const OPEN_PAREN: u8 = 0x28;

pub const CLOSE_PAREN: u8 = 0x29;

pub const OPEN_BRACE: u8 = 0x7b;

pub const CLOSE_BRACE: u8 = 0x7d;

pub const BACKTICK: u8 = 0x60;

pub const AT_SIGN: u8 = 0x40;

pub const BANG: u8 = 0x21;

pub const COLON: u8 = 0x3a;

/// One link found in documentation text, by byte offsets into the text.
#[derive(Debug, PartialEq, Eq)]
pub struct ItemInDoc {
    /// What stands between the brackets of the target.
    pub outer: Range<usize>,
    /// The path inside `outer`: without backticks, disambiguator and call
    /// suffix.
    pub inner: Range<usize>,
    /// Whether the target stands behind a label of its own. Without a label
    /// the text between the brackets is label and target at once.
    pub has_label: bool,
}

/// How many brackets are open before position `j`, for a scan that started at
/// `start` with one bracket open. A byte that is both `open` and `close`
/// counts as `open`.
pub open spec fn depth_at(bytes: Seq<u8>, start: int, j: int, open: u8, close: u8) -> int
    decreases j - start,
{
    if j <= start {
        1
    } else {
        let before = depth_at(bytes, start, j - 1, open, close);
        if bytes[j - 1] == open {
            before + 1
        } else if bytes[j - 1] == close {
            before - 1
        } else {
            before
        }
    }
}

/// Whether the bracket that was open at `start` is closed by the byte at `j`.
pub open spec fn closes_at(bytes: Seq<u8>, start: int, open: u8, close: u8, j: int) -> bool {
    &&& start <= j < bytes.len()
    &&& depth_at(bytes, start, j + 1, open, close) == 0
    &&& forall|k: int| start <= k <= j ==> depth_at(bytes, start, k, open, close) > 0
}

/// Where the bracket that was open at `start` is closed, if it is.
pub open spec fn closing(bytes: Seq<u8>, start: int, open: u8, close: u8) -> Option<int> {
    if exists|j: int| closes_at(bytes, start, open, close, j) {
        Some(choose|j: int| closes_at(bytes, start, open, close, j))
    } else {
        None
    }
}

/// A bracket is closed at one place at most.
pub proof fn lemma_closes_at_unique(
    bytes: Seq<u8>,
    start: int,
    open: u8,
    close: u8,
    j1: int,
    j2: int,
)
    requires
        closes_at(bytes, start, open, close, j1),
        closes_at(bytes, start, open, close, j2),
    ensures
        j1 == j2,
{
    if j1 < j2 {
        assert(depth_at(bytes, start, j1 + 1, open, close) > 0);
    } else if j2 < j1 {
        assert(depth_at(bytes, start, j2 + 1, open, close) > 0);
    }
}

/// Finds the byte that closes the bracket open at `start`, counting the
/// brackets that open and close on the way.
pub fn find_closing(bytes: &[u8], start: usize, open: u8, close: u8) -> (r: Option<usize>)
    ensures
        match r {
            Some(j) => closing(bytes@, start as int, open, close) == Some(j as int),
            None => closing(bytes@, start as int, open, close) is None,
        },
{
    // the brackets that are open beside the one that was open at `start`
    let mut nested: usize = 0;
    let mut j: usize = start;
    while j < bytes.len()
        invariant
            start <= j,
            nested + 1 == depth_at(bytes@, start as int, j as int, open, close),
            nested <= j - start,
            forall|k: int| start <= k <= j ==> depth_at(bytes@, start as int, k, open, close) > 0,
        decreases bytes.len() - j,
    {
        if bytes[j] == open {
            nested += 1;
        } else if bytes[j] == close {
            if nested == 0 {
                proof {
                    assert(closes_at(bytes@, start as int, open, close, j as int));
                    let found = choose|k: int| closes_at(bytes@, start as int, open, close, k);
                    lemma_closes_at_unique(bytes@, start as int, open, close, j as int, found);
                }
                return Some(j);
            }
            nested -= 1;
        }
        j += 1;
    }
    proof {
        assert forall|k: int| !closes_at(bytes@, start as int, open, close, k) by {
            if start <= k < bytes@.len() {
                assert(depth_at(bytes@, start as int, k + 1, open, close) > 0);
            }
        }
    }
    None
}

/// Whether a byte is ASCII whitespace: space, tab, line feed, form feed or
/// carriage return.
pub open spec fn is_whitespace(b: u8) -> bool {
    b == 0x20 || b == 0x09 || b == 0x0a || b == 0x0c || b == 0x0d
}

/// The first position from `i` on, before `end`, that holds neither a
/// backtick nor whitespace; `end` if there is none.
pub open spec fn skip_leading(bytes: Seq<u8>, i: int, end: int) -> int
    decreases end - i,
{
    if i < end && (bytes[i] == BACKTICK || is_whitespace(bytes[i])) {
        skip_leading(bytes, i + 1, end)
    } else {
        i
    }
}

/// The position behind the last `@` between `start` and `end`; `start` if
/// there is none.
pub open spec fn after_last_at(bytes: Seq<u8>, start: int, end: int) -> int
    decreases end - start,
{
    if end <= start {
        start
    } else if bytes[end - 1] == AT_SIGN {
        end
    } else {
        after_last_at(bytes, start, end - 1)
    }
}

/// The end of the text between `start` and `end` without the backticks that
/// it ends with.
pub open spec fn skip_trailing(bytes: Seq<u8>, start: int, end: int) -> int
    decreases end - start,
{
    if start < end && bytes[end - 1] == BACKTICK {
        skip_trailing(bytes, start, end - 1)
    } else {
        end
    }
}

/// The end of the text between `start` and `end` without the two bytes
/// `first`, `second`, if it ends with them.
pub open spec fn without_pair(bytes: Seq<u8>, start: int, end: int, first: u8, second: u8) -> int {
    if end - start >= 2 && bytes[end - 2] == first && bytes[end - 1] == second {
        end - 2
    } else {
        end
    }
}

/// The end of the text between `start` and `end` without the byte `last`, if
/// it ends with it.
pub open spec fn without_byte(bytes: Seq<u8>, start: int, end: int, last: u8) -> int {
    if end - start >= 1 && bytes[end - 1] == last {
        end - 1
    } else {
        end
    }
}

/// The path of a target that stands between `start` and `end`: without
/// leading backticks and whitespace, without a disambiguator up to its last
/// `@`, without trailing backticks, and then without one `()`, one `{}`, one
/// `[]` and one `!` at its end, taken off in this order.
pub open spec fn trimmed(bytes: Seq<u8>, start: int, end: int) -> (int, int) {
    let from = after_last_at(bytes, skip_leading(bytes, start, end), end);
    let e0 = skip_trailing(bytes, from, end);
    let e1 = without_pair(bytes, from, e0, OPEN_PAREN, CLOSE_PAREN);
    let e2 = without_pair(bytes, from, e1, OPEN_BRACE, CLOSE_BRACE);
    let e3 = without_pair(bytes, from, e2, OPEN_BRACKET, CLOSE_BRACKET);
    let e4 = without_byte(bytes, from, e3, BANG);
    (from, e4)
}

/// What is trimmed lies inside what it was trimmed from.
pub proof fn lemma_trimmed_inside(bytes: Seq<u8>, start: int, end: int)
    requires
        start <= end,
    ensures
        start <= trimmed(bytes, start, end).0 <= trimmed(bytes, start, end).1 <= end,
{
    lemma_skip_leading_inside(bytes, start, end);
    let lead = skip_leading(bytes, start, end);
    lemma_after_last_at_inside(bytes, lead, end);
    let from = after_last_at(bytes, lead, end);
    lemma_skip_trailing_inside(bytes, from, end);
}

pub proof fn lemma_skip_leading_inside(bytes: Seq<u8>, i: int, end: int)
    requires
        i <= end,
    ensures
        i <= skip_leading(bytes, i, end) <= end,
    decreases end - i,
{
    if i < end && (bytes[i] == BACKTICK || is_whitespace(bytes[i])) {
        lemma_skip_leading_inside(bytes, i + 1, end);
    }
}

pub proof fn lemma_after_last_at_inside(bytes: Seq<u8>, start: int, end: int)
    requires
        start <= end,
    ensures
        start <= after_last_at(bytes, start, end) <= end,
    decreases end - start,
{
    if start < end && bytes[end - 1] != AT_SIGN {
        lemma_after_last_at_inside(bytes, start, end - 1);
    }
}

pub proof fn lemma_skip_trailing_inside(bytes: Seq<u8>, start: int, end: int)
    requires
        start <= end,
    ensures
        start <= skip_trailing(bytes, start, end) <= end,
    decreases end - start,
{
    if start < end && bytes[end - 1] == BACKTICK {
        lemma_skip_trailing_inside(bytes, start, end - 1);
    }
}

fn is_ascii_whitespace(b: u8) -> (r: bool)
    ensures
        r == is_whitespace(b),
{
    b == 0x20 || b == 0x09 || b == 0x0a || b == 0x0c || b == 0x0d
}

fn strip_pair(text: &[u8], start: usize, end: usize, first: u8, second: u8) -> (r: usize)
    requires
        start <= end <= text.len(),
    ensures
        r == without_pair(text@, start as int, end as int, first, second),
{
    if end - start >= 2 && text[end - 2] == first && text[end - 1] == second {
        end - 2
    } else {
        end
    }
}

/// Narrows the target between the brackets to the path that it names. The
/// range counts the bytes of the text.
pub fn trim_range(text: &str, range: Range<usize>) -> (r: Range<usize>)
    requires
        range.start <= range.end <= encode_utf8(text@).len(),
    ensures
        (r.start as int, r.end as int) == trimmed(
            encode_utf8(text@),
            range.start as int,
            range.end as int,
        ),
        range.start <= r.start <= r.end <= range.end,
{
    let input = text.as_bytes();
    let start = range.start;
    let end = range.end;
    proof {
        lemma_trimmed_inside(input@, start as int, end as int);
        lemma_skip_leading_inside(input@, start as int, end as int);
    }

    // skip backticks and whitespace at the front
    let mut from = start;
    while from < end && (input[from] == BACKTICK || is_ascii_whitespace(input[from]))
        invariant
            start <= from <= end <= input.len(),
            skip_leading(input@, start as int, end as int) == skip_leading(
                input@,
                from as int,
                end as int,
            ),
        decreases end - from,
    {
        from += 1;
    }

    // a@b becomes b
    let ghost lead = from;
    let mut at = end;
    while at > from && input[at - 1] != AT_SIGN
        invariant
            from <= at <= end <= input.len(),
            after_last_at(input@, from as int, end as int) == after_last_at(
                input@,
                from as int,
                at as int,
            ),
        decreases at - from,
    {
        at -= 1;
    }
    let from = at;
    proof {
        lemma_after_last_at_inside(input@, lead as int, end as int);
        lemma_skip_trailing_inside(input@, from as int, end as int);
    }

    // drop backticks at the end
    let mut to = end;
    while to > from && input[to - 1] == BACKTICK
        invariant
            from <= to <= end <= input.len(),
            skip_trailing(input@, from as int, end as int) == skip_trailing(
                input@,
                from as int,
                to as int,
            ),
        decreases to - from,
    {
        to -= 1;
    }

    // drop (), {}, [] and ! at the end
    let to = strip_pair(input, from, to, OPEN_PAREN, CLOSE_PAREN);
    let to = strip_pair(input, from, to, OPEN_BRACE, CLOSE_BRACE);
    let to = strip_pair(input, from, to, OPEN_BRACKET, CLOSE_BRACKET);
    let to = if to - from >= 1 && input[to - 1] == BANG {
        to - 1
    } else {
        to
    };

    Range { start: from, end: to }
}

/// The link whose target stands between `start` and `end`.
pub open spec fn item_at(bytes: Seq<u8>, start: int, end: int, has_label: bool) -> ItemInDoc {
    let inner = trimmed(bytes, start, end);
    ItemInDoc {
        outer: Range { start: start as usize, end: end as usize },
        inner: Range { start: inner.0 as usize, end: inner.1 as usize },
        has_label,
    }
}

/// The bracket that closes `open`, for the two brackets that open a target.
pub open spec fn closer_of(open: u8) -> u8 {
    if open == OPEN_PAREN {
        CLOSE_PAREN
    } else {
        CLOSE_BRACKET
    }
}

/// The links of the text from position `i` on, in the order of the text.
///
/// A `[` opens a label, which ends at the `]` that closes it. Where a `(` or
/// a `[` follows at once, it opens the target, and the scan goes on behind the
/// bracket that closes the target. Otherwise the label is its own target, and
/// the scan goes on behind the label. A bracket that is never closed ends the
/// scan: nothing after it is a link.
pub open spec fn links_from(bytes: Seq<u8>, i: int) -> Seq<ItemInDoc>
    decreases bytes.len() - i,
{
    if i < 0 || i >= bytes.len() {
        Seq::empty()
    } else if bytes[i] != OPEN_BRACKET {
        links_from(bytes, i + 1)
    } else {
        match closing(bytes, i + 1, OPEN_BRACKET, CLOSE_BRACKET) {
            None => Seq::empty(),
            Some(end_label) => {
                let j = end_label + 1;
                if j < bytes.len() && (bytes[j] == OPEN_PAREN || bytes[j] == OPEN_BRACKET) {
                    match closing(bytes, j + 1, bytes[j], closer_of(bytes[j])) {
                        None => Seq::empty(),
                        Some(end_target) => seq![item_at(bytes, j + 1, end_target, true)]
                            + links_from(bytes, end_target + 1),
                    }
                } else {
                    seq![item_at(bytes, i + 1, end_label, false)] + links_from(bytes, j)
                }
            },
        }
    }
}

/// Appends the links of the text to `buffer`, in the order of the text.
pub fn find_type(text: &str, buffer: &mut Vec<ItemInDoc>)
    ensures
        final(buffer)@ == old(buffer)@ + links_from(encode_utf8(text@), 0),
{
    let input = text.as_bytes();
    let ghost bytes = input@;
    let mut i: usize = 0;
    assert(buffer@ =~= old(buffer)@ + Seq::<ItemInDoc>::empty());
    while i < input.len()
        invariant
            bytes == input@,
            bytes == encode_utf8(text@),
            i <= input.len(),
            buffer@ + links_from(bytes, i as int) == old(buffer)@ + links_from(bytes, 0),
        decreases input.len() - i,
    {
        if input[i] == OPEN_BRACKET {
            let start_label = i + 1;
            let end_label = match find_closing(input, start_label, OPEN_BRACKET, CLOSE_BRACKET) {
                Some(e) => e,
                None => {
                    assert(buffer@ + Seq::<ItemInDoc>::empty() =~= buffer@);
                    return ;
                },
            };
            let ghost before = buffer@;
            let ghost here = i as int;
            i = end_label + 1;

            // is there a target of its own?
            if i < input.len() && (input[i] == OPEN_PAREN || input[i] == OPEN_BRACKET) {
                let open = input[i];
                let close = if open == OPEN_PAREN {
                    CLOSE_PAREN
                } else {
                    CLOSE_BRACKET
                };
                let start_target = i + 1;
                let end_target = match find_closing(input, start_target, open, close) {
                    Some(e) => e,
                    None => {
                        assert(buffer@ + Seq::<ItemInDoc>::empty() =~= buffer@);
                        return ;
                    },
                };
                i = end_target + 1;
                let range = Range { start: start_target, end: end_target };
                let trimmed = trim_range(text, range);
                buffer.push(ItemInDoc { outer: Range { start: start_target, end: end_target }, inner: trimmed, has_label: true });
                assert(buffer@ + links_from(bytes, i as int) =~= before + links_from(bytes, here));
            } else {
                // a lone [..] is label and target at once
                let range = Range { start: start_label, end: end_label };
                let trimmed = trim_range(text, range);
                buffer.push(ItemInDoc { outer: Range { start: start_label, end: end_label }, inner: trimmed, has_label: false });
                assert(buffer@ + links_from(bytes, i as int) =~= before + links_from(bytes, here));
            }
        } else {
            i += 1;
        }
    }
    assert(buffer@ + Seq::<ItemInDoc>::empty() =~= buffer@);
}

/// Where the first `::` of the text stands, looking from `i` on.
pub open spec fn separator_from(text: Seq<u8>, i: int) -> Option<int>
    decreases text.len() - i,
{
    if i < 0 || i + 1 >= text.len() {
        None
    } else if text[i] == COLON && text[i + 1] == COLON {
        Some(i)
    } else {
        separator_from(text, i + 1)
    }
}

/// The first segment of a path: what stands before its first `::`, or all of
/// it.
pub open spec fn head_of(path: Seq<u8>) -> Seq<u8> {
    match separator_from(path, 0) {
        Some(p) => path.subrange(0, p),
        None => path,
    }
}

/// What stands behind the first `::` of a path; nothing if it has none.
pub open spec fn rest_of(path: Seq<u8>) -> Seq<u8> {
    match separator_from(path, 0) {
        Some(p) => path.subrange(p + 2, path.len() as int),
        None => Seq::empty(),
    }
}

/// The first rule of the table that applies to a target with the first
/// segment `head`: the first segment of the name of the rule is `head`.
pub open spec fn doc_rule(
    rules: Seq<ReplaceItemNameFromToView>,
    head: Seq<u8>,
) -> Option<ReplaceItemNameFromToView>
    decreases rules.len(),
{
    if rules.len() == 0 {
        None
    } else if head_of(encode_utf8(rules.first().from.name)) == head {
        Some(rules.first())
    } else {
        doc_rule(rules.drop_first(), head)
    }
}

/// The target that a rule gives for a path with the remainder `rest`: the
/// path of the rule, then `::` and the remainder where there is one.
pub open spec fn redirected(rule: ReplaceItemNameFromToView, rest: Seq<u8>) -> Seq<u8> {
    if rest.len() > 0 {
        encode_utf8(rule.to.text()) + seq![COLON, COLON] + rest
    } else {
        encode_utf8(rule.to.text())
    }
}

/// One change of the text: the bytes from `start` up to `end` give way to
/// `text`.
pub ghost struct Edit {
    pub start: int,
    pub end: int,
    pub text: Seq<u8>,
}

/// The change that a link calls for, if a rule applies to it.
///
/// A target behind a label is replaced by the redirected path; the label
/// stays. A link without a label keeps its text as the label and gets a target
/// of its own behind it, in round brackets: the redirected path, dressed with
/// what stood around the path before.
pub open spec fn edit_of(
    bytes: Seq<u8>,
    link: ItemInDoc,
    rules: Seq<ReplaceItemNameFromToView>,
) -> Option<Edit> {
    let path = bytes.subrange(link.inner.start as int, link.inner.end as int);
    match doc_rule(rules, head_of(path)) {
        None => None,
        Some(rule) => {
            let target = redirected(rule, rest_of(path));
            if link.has_label {
                Some(Edit { start: link.inner.start as int, end: link.inner.end as int, text: target })
            } else {
                Some(
                    Edit {
                        start: link.outer.end + 1,
                        end: link.outer.end + 1,
                        text: seq![OPEN_PAREN] + bytes.subrange(
                            link.outer.start as int,
                            link.inner.start as int,
                        ) + target + bytes.subrange(link.inner.end as int, link.outer.end as int)
                            + seq![CLOSE_PAREN],
                    },
                )
            }
        },
    }
}

/// The text from `from` on with the changes of all `links` made, each at its
/// own place in the text as it was.
pub open spec fn rewritten_from(
    bytes: Seq<u8>,
    from: int,
    links: Seq<ItemInDoc>,
    rules: Seq<ReplaceItemNameFromToView>,
) -> Seq<u8>
    decreases links.len(),
{
    if links.len() == 0 {
        bytes.subrange(from, bytes.len() as int)
    } else {
        match edit_of(bytes, links.first(), rules) {
            None => rewritten_from(bytes, from, links.drop_first(), rules),
            Some(edit) => bytes.subrange(from, edit.start) + edit.text + rewritten_from(
                bytes,
                edit.end,
                links.drop_first(),
                rules,
            ),
        }
    }
}

/// The text with every link redirected that a rule applies to.
pub open spec fn rewritten(bytes: Seq<u8>, rules: Seq<ReplaceItemNameFromToView>) -> Seq<u8> {
    rewritten_from(bytes, 0, links_from(bytes, 0), rules)
}

/// Whether the links lie in the text behind `from`, one after the other.
pub open spec fn in_order(links: Seq<ItemInDoc>, from: int, len: int) -> bool {
    &&& forall|i: int|
        0 <= i < links.len() ==> from <= (#[trigger] links[i]).outer.start
            <= links[i].inner.start <= links[i].inner.end <= links[i].outer.end < len
    &&& forall|i: int, j: int|
        0 <= i < j < links.len() ==> (#[trigger] links[i]).outer.end < (
        #[trigger] links[j]).outer.start
}

/// The links that the scan finds lie in the text one after the other.
pub proof fn lemma_links_in_order(bytes: Seq<u8>, i: int)
    requires
        0 <= i,
        bytes.len() <= usize::MAX,
    ensures
        in_order(links_from(bytes, i), i, bytes.len() as int),
    decreases bytes.len() - i,
{
    if i >= bytes.len() {
    } else if bytes[i] != OPEN_BRACKET {
        lemma_links_in_order(bytes, i + 1);
    } else {
        match closing(bytes, i + 1, OPEN_BRACKET, CLOSE_BRACKET) {
            None => {},
            Some(end_label) => {
                let j = end_label + 1;
                if j < bytes.len() && (bytes[j] == OPEN_PAREN || bytes[j] == OPEN_BRACKET) {
                    match closing(bytes, j + 1, bytes[j], closer_of(bytes[j])) {
                        None => {},
                        Some(end_target) => {
                            lemma_trimmed_inside(bytes, j + 1, end_target);
                            lemma_links_in_order(bytes, end_target + 1);
                            lemma_in_order_cons(
                                item_at(bytes, j + 1, end_target, true),
                                links_from(bytes, end_target + 1),
                                i,
                                bytes.len() as int,
                            );
                        },
                    }
                } else {
                    lemma_trimmed_inside(bytes, i + 1, end_label);
                    lemma_links_in_order(bytes, j);
                    lemma_in_order_cons(
                        item_at(bytes, i + 1, end_label, false),
                        links_from(bytes, j),
                        i,
                        bytes.len() as int,
                    );
                }
            },
        }
    }
}

proof fn lemma_in_order_cons(first: ItemInDoc, later: Seq<ItemInDoc>, from: int, len: int)
    requires
        from <= first.outer.start <= first.inner.start <= first.inner.end <= first.outer.end < len,
        in_order(later, first.outer.end + 1, len),
    ensures
        in_order(seq![first] + later, from, len),
{
    let all = seq![first] + later;
    assert forall|i: int| 0 <= i < all.len() implies from <= (#[trigger] all[i]).outer.start
        <= all[i].inner.start <= all[i].inner.end <= all[i].outer.end < len by {
        if i > 0 {
            assert(all[i] == later[i - 1]);
        }
    }
    assert forall|i: int, j: int| 0 <= i < j < all.len() implies (#[trigger] all[i]).outer.end < (
    #[trigger] all[j]).outer.start by {
        assert(all[j] == later[j - 1]);
        if i > 0 {
            assert(all[i] == later[i - 1]);
        }
    }
}

/// Text before the first link is copied as it is, wherever the copy starts.
pub proof fn lemma_rewritten_from_later(
    bytes: Seq<u8>,
    from: int,
    later: int,
    links: Seq<ItemInDoc>,
    rules: Seq<ReplaceItemNameFromToView>,
)
    requires
        0 <= from <= later <= bytes.len(),
        in_order(links, later, bytes.len() as int),
    ensures
        rewritten_from(bytes, from, links, rules) == bytes.subrange(from, later) + rewritten_from(
            bytes,
            later,
            links,
            rules,
        ),
    decreases links.len(),
{
    if links.len() == 0 {
        assert(bytes.subrange(from, bytes.len() as int) =~= bytes.subrange(from, later)
            + bytes.subrange(later, bytes.len() as int));
    } else {
        let tail = links.drop_first();
        assert(in_order(tail, later, bytes.len() as int)) by {
            assert forall|i: int| 0 <= i < tail.len() implies later <= (
            #[trigger] tail[i]).outer.start <= tail[i].inner.start <= tail[i].inner.end
                <= tail[i].outer.end < bytes.len() by {
                assert(tail[i] == links[i + 1]);
            }
            assert forall|i: int, j: int| 0 <= i < j < tail.len() implies (
            #[trigger] tail[i]).outer.end < (#[trigger] tail[j]).outer.start by {
                assert(tail[i] == links[i + 1]);
                assert(tail[j] == links[j + 1]);
            }
        }
        match edit_of(bytes, links.first(), rules) {
            None => {
                lemma_rewritten_from_later(bytes, from, later, tail, rules);
            },
            Some(edit) => {
                assert(links.first() == links[0]);
                assert(bytes.subrange(from, edit.start) =~= bytes.subrange(from, later)
                    + bytes.subrange(later, edit.start));
                assert(bytes.subrange(from, edit.start) + edit.text + rewritten_from(
                    bytes,
                    edit.end,
                    tail,
                    rules,
                ) =~= bytes.subrange(from, later) + (bytes.subrange(later, edit.start) + edit.text
                    + rewritten_from(bytes, edit.end, tail, rules)));
            },
        }
    }
}

/// Appends bytes to a buffer.
pub fn push_bytes(buf: &mut Vec<u8>, bytes: &[u8])
    ensures
        final(buf)@ == old(buf)@ + bytes@,
{
    let mut i: usize = 0;
    assert(buf@ =~= old(buf)@ + bytes@.subrange(0, 0));
    while i < bytes.len()
        invariant
            i <= bytes.len(),
            buf@ == old(buf)@ + bytes@.subrange(0, i as int),
        decreases bytes.len() - i,
    {
        buf.push(bytes[i]);
        i += 1;
        assert(buf@ =~= old(buf)@ + bytes@.subrange(0, i as int));
    }
    assert(bytes@.subrange(0, i as int) =~= bytes@);
}

/// Puts `with` in the place of the bytes from `start` up to `end`.
pub fn replace_range(buf: &mut Vec<u8>, start: usize, end: usize, with: &[u8])
    requires
        start <= end <= old(buf).len(),
    ensures
        final(buf)@ == old(buf)@.subrange(0, start as int) + with@ + old(buf)@.subrange(
            end as int,
            old(buf).len() as int,
        ),
{
    let mut tail = buf.split_off(end);
    buf.truncate(start);
    assert(buf@ =~= old(buf)@.subrange(0, start as int));
    push_bytes(buf, with);
    buf.append(&mut tail);
}

/// Where the first `::` of the text stands.
pub fn find_separator(text: &[u8]) -> (r: Option<usize>)
    ensures
        match r {
            Some(p) => separator_from(text@, 0) == Some(p as int) && p + 2 <= text.len(),
            None => separator_from(text@, 0) is None,
        },
{
    let mut i: usize = 0;
    while i < text.len() && i + 1 < text.len()
        invariant
            separator_from(text@, 0) == separator_from(text@, i as int),
        decreases text.len() - i,
    {
        if text[i] == COLON && text[i + 1] == COLON {
            return Some(i);
        }
        i += 1;
    }
    None
}

/// The first segment of a path.
pub fn head_segment(path: &[u8]) -> (r: &[u8])
    ensures
        r@ == head_of(path@),
{
    match find_separator(path) {
        Some(p) => slice_subrange(path, 0, p),
        None => path,
    }
}

/// The place of the first rule of the table that applies to a target with
/// the first segment `head`.
fn find_doc_rule<'a>(replaces: &[ReplaceItemNameFromTo<'a>], head: &[u8]) -> (r: Option<usize>)
    ensures
        match r {
            Some(k) => k < replaces.len() && doc_rule(rules_view(replaces@), head@) == Some(
                replaces[k as int]@,
            ),
            None => doc_rule(rules_view(replaces@), head@) is None,
        },
{
    let ghost rules = rules_view(replaces@);
    let mut k: usize = 0;
    assert(rules.subrange(0, rules.len() as int) =~= rules);
    while k < replaces.len()
        invariant
            k <= replaces.len(),
            rules == rules_view(replaces@),
            doc_rule(rules, head@) == doc_rule(rules.subrange(k as int, rules.len() as int), head@),
        decreases replaces.len() - k,
    {
        proof {
            let tail = rules.subrange(k as int, rules.len() as int);
            assert(tail.first() == replaces[k as int]@);
            assert(tail.drop_first() =~= rules.subrange(k + 1, rules.len() as int));
        }
        let from = replaces[k].from.name.as_str().as_bytes();
        if bytes_eq(head_segment(from), head) {
            return Some(k);
        }
        k += 1;
    }
    None
}

/// The text with one change made, or as it is where there is none to make.
pub open spec fn edited(text: Seq<u8>, edit: Option<Edit>) -> Seq<u8> {
    match edit {
        None => text,
        Some(edit) => text.subrange(0, edit.start) + edit.text + text.subrange(
            edit.end,
            text.len() as int,
        ),
    }
}

/// Where the part of the text starts that the links from the `k`th on have
/// changed: at the `k`th link, or at the end of the text if there is none.
pub open spec fn changed_from(bytes: Seq<u8>, links: Seq<ItemInDoc>, k: int) -> int {
    if 0 <= k < links.len() {
        links[k].outer.start as int
    } else {
        bytes.len() as int
    }
}

/// The text in which the links from the `k`th on are redirected and the
/// links before it are not yet.
pub open spec fn rewritten_behind(
    bytes: Seq<u8>,
    links: Seq<ItemInDoc>,
    k: int,
    rules: Seq<ReplaceItemNameFromToView>,
) -> Seq<u8> {
    bytes.subrange(0, changed_from(bytes, links, k)) + rewritten_from(
        bytes,
        changed_from(bytes, links, k),
        links.subrange(k, links.len() as int),
        rules,
    )
}

/// The links of a text may be redirected one by one, the last first, each by
/// its offsets in the text as it was: a change moves only what stands behind
/// it, and all links that are still to be redirected stand before it.
pub proof fn lemma_last_link_first(
    bytes: Seq<u8>,
    links: Seq<ItemInDoc>,
    k: int,
    rules: Seq<ReplaceItemNameFromToView>,
)
    requires
        in_order(links, 0, bytes.len() as int),
        0 < k <= links.len(),
    ensures
        edited(rewritten_behind(bytes, links, k, rules), edit_of(bytes, links[k - 1], rules))
            == rewritten_behind(bytes, links, k - 1, rules),
{
    let link = links[k - 1];
    let done = changed_from(bytes, links, k);
    let later = links.subrange(k, links.len() as int);
    let now = links.subrange(k - 1, links.len() as int);
    let before = rewritten_behind(bytes, links, k, rules);
    let start = link.outer.start as int;
    assert(now.first() == link);
    assert(now.drop_first() =~= later);
    assert(in_order(later, done, bytes.len() as int)) by {
        assert forall|a: int| 0 <= a < later.len() implies done <= (
        #[trigger] later[a]).outer.start <= later[a].inner.start <= later[a].inner.end
            <= later[a].outer.end < bytes.len() by {
            assert(later[a] == links[k + a]);
            if a > 0 {
                assert(links[k].outer.end < links[k + a].outer.start);
            }
        }
        assert forall|a: int, b: int| 0 <= a < b < later.len() implies (
        #[trigger] later[a]).outer.end < (#[trigger] later[b]).outer.start by {
            assert(later[a] == links[k + a]);
            assert(later[b] == links[k + b]);
        }
    }
    if k < links.len() {
        assert(links[k - 1].outer.end < links[k].outer.start);
    }
    assert(bytes.subrange(0, done) =~= bytes.subrange(0, start) + bytes.subrange(start, done));
    match edit_of(bytes, link, rules) {
        None => {
            lemma_rewritten_from_later(bytes, start, done, later, rules);
            assert(before =~= bytes.subrange(0, start) + (bytes.subrange(start, done)
                + rewritten_from(bytes, done, later, rules)));
        },
        Some(edit) => {
            lemma_rewritten_from_later(bytes, edit.end, done, later, rules);
            assert(before.subrange(0, edit.start) =~= bytes.subrange(0, edit.start));
            assert(before.subrange(edit.end, before.len() as int) =~= bytes.subrange(
                edit.end,
                done,
            ) + rewritten_from(bytes, done, later, rules));
            assert(bytes.subrange(0, edit.start) =~= bytes.subrange(0, start) + bytes.subrange(
                start,
                edit.start,
            ));
            assert(edited(before, Some(edit)) =~= bytes.subrange(0, start) + (bytes.subrange(
                start,
                edit.start,
            ) + edit.text + rewritten_from(bytes, edit.end, later, rules)));
        },
    }
}

/// Redirects one link of `doc` in `new_doc`, which holds the text of `doc`
/// up to the end of the link.
fn redirect_link<'a>(
    new_doc: &mut Vec<u8>,
    doc: &[u8],
    link: &ItemInDoc,
    replaces: &[ReplaceItemNameFromTo<'a>],
)
    requires
        link.outer.start <= link.inner.start <= link.inner.end <= link.outer.end < doc.len(),
        link.outer.end < old(new_doc).len(),
    ensures
        final(new_doc)@ == edited(old(new_doc)@, edit_of(doc@, *link, rules_view(replaces@))),
{
    let item_path = slice_subrange(doc, link.inner.start, link.inner.end);
    let (item_name, rest) = match find_separator(item_path) {
        Some(p) => (
            slice_subrange(item_path, 0, p),
            slice_subrange(item_path, p + 2, item_path.len()),
        ),
        None => (item_path, slice_subrange(item_path, 0, 0)),
    };
    assert(item_name@ == head_of(item_path@));
    assert(rest@ =~= rest_of(item_path@));

    // the first rule that applies is the only one that is used
    match find_doc_rule(replaces, item_name) {
        None => {},
        Some(r) => {
            let replace = &replaces[r];
            let mut target: Vec<u8> = Vec::new();
            let to = replace.to.to_string();
            push_bytes(&mut target, to.as_str().as_bytes());
            if rest.len() > 0 {
                target.push(COLON);
                target.push(COLON);
                push_bytes(&mut target, rest);
            }
            assert(target@ =~= redirected(replace@, rest@));
            if link.has_label {
                // [Type](F::A) => [Type](T::A)
                replace_range(new_doc, link.inner.start, link.inner.end, target.as_slice());
            } else {
                // [`F()`] => [`F()`](`T()`)
                let prefix = slice_subrange(doc, link.outer.start, link.inner.start);
                let suffix = slice_subrange(doc, link.inner.end, link.outer.end);
                let mut to: Vec<u8> = Vec::new();
                to.push(OPEN_PAREN);
                push_bytes(&mut to, prefix);
                push_bytes(&mut to, target.as_slice());
                push_bytes(&mut to, suffix);
                to.push(CLOSE_PAREN);
                assert(to@ =~= edit_of(doc@, *link, rules_view(replaces@))->0.text);

                // behind outer.end stands the bracket that closes the link
                let t = link.outer.end + 1;
                replace_range(new_doc, t, t, to.as_slice());
            }
        },
    }
}

/// The error of `String::from_utf8`. It is never looked into.
#[verifier::external_type_specification]
#[verifier::external_body]
pub struct ExFromUtf8Error(std::string::FromUtf8Error);

/// Calls `String::from_utf8`. Where the bytes are UTF-8 the result is the
/// string with these bytes, and an error where they are not.
#[verifier::external_body]
fn string_from_utf8(bytes: Vec<u8>) -> (r: Result<String, std::string::FromUtf8Error>)
    ensures
        match r {
            Ok(text) => encode_utf8(text@) == bytes@,
            Err(_) => !valid_utf8(bytes@),
        },
{
    String::from_utf8(bytes)
}

/// The text with every link redirected that a rule applies to.
pub open spec fn rewritten_text(text: Seq<char>, rules: Seq<ReplaceItemNameFromToView>) -> Seq<
    char,
> {
    decode_utf8(rewritten(encode_utf8(text), rules))
}

/// The text of a documentation comment with its links redirected.
pub fn replace_item_name_in_text<'a>(doc: &str, replaces: &[ReplaceItemNameFromTo<'a>]) -> (r:
    String)
    ensures
        r@ == rewritten_text(doc@, rules_view(replaces@)),
        encode_utf8(r@) == rewritten(encode_utf8(doc@), rules_view(replaces@)),
{
    let text = doc.as_bytes();
    let ghost bytes = text@;
    let ghost rules = rules_view(replaces@);
    let len = text.len();
    let mut buf: Vec<ItemInDoc> = Vec::new();
    find_type(doc, &mut buf);
    let ghost links = links_from(bytes, 0);
    assert(buf@ =~= links);
    let mut new_doc = slice_to_vec(text);
    proof {
        lemma_links_in_order(bytes, 0);
        assert(links.subrange(links.len() as int, links.len() as int) =~= Seq::empty());
        assert(new_doc@ =~= rewritten_behind(bytes, links, links.len() as int, rules));
    }

    // the last link first: a change leaves the offsets before it as they are
    while buf.len() > 0
        invariant
            bytes == text@,
            rules == rules_view(replaces@),
            links == links_from(bytes, 0),
            in_order(links, 0, bytes.len() as int),
            buf@ == links.subrange(0, buf.len() as int),
            buf.len() <= links.len(),
            new_doc@ == rewritten_behind(bytes, links, buf.len() as int, rules),
        decreases buf.len(),
    {
        let ghost k = buf.len() as int;
        let i = buf.pop().unwrap();
        proof {
            assert(i == links[k - 1]);
            assert(buf@ =~= links.subrange(0, k - 1));
            lemma_last_link_first(bytes, links, k, rules);
            if k < links.len() {
                assert(links[k - 1].outer.end < links[k].outer.start);
            }
        }
        redirect_link(&mut new_doc, text, &i, replaces);
    }
    proof {
        assert(links.subrange(0, links.len() as int) =~= links);
        if links.len() > 0 {
            lemma_rewritten_from_later(bytes, 0, links[0].outer.start as int, links, rules);
        } else {
            assert(bytes.subrange(0, bytes.len() as int) + bytes.subrange(
                bytes.len() as int,
                bytes.len() as int,
            ) =~= bytes);
        }
        encode_utf8_valid_utf8(doc@);
        lemma_rewritten_text(bytes, rules);
    }
    match string_from_utf8(new_doc) {
        Ok(text) => {
            proof {
                encode_utf8_decode_utf8(text@);
            }
            text
        },
        Err(_) => {
            // the links are cut out beside their brackets: what is left is text
            assert(false);
            String::new()
        },
    }
}

/// An annotation with its links redirected, if it is a documentation
/// comment: `doc = ".."` with a string for its value. Any other annotation
/// stays as it is.
pub open spec fn redirected_attr(
    attr: AttributeView,
    rules: Seq<ReplaceItemNameFromToView>,
) -> AttributeView {
    match attr.meta {
        MetaView::NameValue { path, value: MetaValueView::Str { value, span } } => if path.is_ident(
            "doc"@,
        ) {
            AttributeView {
                span: attr.span,
                meta: MetaView::NameValue {
                    path,
                    value: MetaValueView::Str { value: rewritten_text(value, rules), span },
                },
                rest: attr.rest,
            }
        } else {
            attr
        },
        _ => attr,
    }
}

/// The annotations with the links of every documentation comment redirected.
pub open spec fn redirected_attrs(
    attrs: Seq<AttributeView>,
    rules: Seq<ReplaceItemNameFromToView>,
) -> Seq<AttributeView> {
    Seq::new(attrs.len(), |i: int| redirected_attr(attrs[i], rules))
}

/// Redirects the links of one annotation, if it is a documentation comment.
pub fn replace_item_name_in_doc_attr<'a>(
    attr: &mut Attribute,
    replaces: &[ReplaceItemNameFromTo<'a>],
)
    ensures
        final(attr)@ == redirected_attr(old(attr)@, rules_view(replaces@)),
{
    match &mut attr.meta {
        Meta::NameValue { path, value } => {
            if !path.is_ident("doc") {
                return ;
            }
            match value {
                MetaValue::Str { value: text, .. } => {
                    let new_doc = replace_item_name_in_text(text.as_str(), replaces);
                    *text = new_doc;
                },
                MetaValue::Other { .. } => {},
            }
        },
        _ => {},
    }
}

/// Redirects the links of every documentation comment among the annotations.
pub fn replace_item_name_in_doc<'a>(
    attrs: &mut Vec<Attribute>,
    replaces: &[ReplaceItemNameFromTo<'a>],
)
    ensures
        attrs_view(final(attrs)@) == redirected_attrs(
            attrs_view(old(attrs)@),
            rules_view(replaces@),
        ),
{
    let ghost rules = rules_view(replaces@);
    let n = attrs.len();
    let mut k: usize = 0;
    while k < n
        invariant
            k <= n,
            n == attrs.len(),
            attrs.len() == old(attrs).len(),
            rules == rules_view(replaces@),
            forall|j: int|
                0 <= j < k ==> (#[trigger] attrs[j])@ == redirected_attr(old(attrs)[j]@, rules),
            forall|j: int| k <= j < n ==> attrs[j] == old(attrs)[j],
        decreases n - k,
    {
        replace_item_name_in_doc_attr(&mut attrs[k], replaces);
        k += 1;
    }
    assert(attrs_view(attrs@) =~= redirected_attrs(attrs_view(old(attrs)@), rules));
}

} // verus!
