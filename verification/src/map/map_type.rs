//! The self type of an implementation block for the two variants.
//!
//! The name of the self type is read off the type as it is written: the text
//! of the type without spaces, up to its first `<`. The name must be an
//! identifier. The blocking variant implements `Sync` + name, the suspending
//! one `Async` + name.
use crate::ast::token::{idents_view, str_eq, Ident, IdentView, Span};
use crate::ast::ty::{Type, TypeView};
use crate::error::{ExpandError, ErrorKind};
use crate::map::replace_item_name::{
    replace_item_name_in_type, rules_view, subst_type, ReplaceItemNameFromTo,
    ReplaceItemNameFromToView,
};
use crate::utils::{PathWithoutArgs, PathWithoutArgsView};
use vstd::prelude::*;
use vstd::string::{StrSliceExecFns, StringExecFns};

verus! {

/// The error of `syn`. Nothing of it is read: a text that `syn` refuses is
/// no name, and the library says so in an error of its own.
#[verifier::external_type_specification]
#[verifier::external_body]
pub struct ExSynError(syn::Error);

/// Whether a text is a word that the language keeps for itself.
pub open spec fn is_keyword(name: Seq<char>) -> bool {
    name == "abstract"@
        || name == "as"@
        || name == "async"@
        || name == "await"@
        || name == "become"@
        || name == "box"@
        || name == "break"@
        || name == "const"@
        || name == "continue"@
        || name == "crate"@
        || name == "do"@
        || name == "dyn"@
        || name == "else"@
        || name == "enum"@
        || name == "extern"@
        || name == "false"@
        || name == "final"@
        || name == "fn"@
        || name == "for"@
        || name == "if"@
        || name == "impl"@
        || name == "in"@
        || name == "let"@
        || name == "loop"@
        || name == "macro"@
        || name == "match"@
        || name == "mod"@
        || name == "move"@
        || name == "mut"@
        || name == "override"@
        || name == "priv"@
        || name == "pub"@
        || name == "ref"@
        || name == "return"@
        || name == "Self"@
        || name == "self"@
        || name == "static"@
        || name == "struct"@
        || name == "super"@
        || name == "trait"@
        || name == "true"@
        || name == "try"@
        || name == "type"@
        || name == "typeof"@
        || name == "unsafe"@
        || name == "unsized"@
        || name == "use"@
        || name == "virtual"@
        || name == "where"@
        || name == "while"@
        || name == "yield"@
}

/// Whether a text is free to be a name: it is neither `_` nor a word that
/// the language keeps for itself. Of the letters of the text this says
/// nothing.
pub open spec fn is_free_name(name: Seq<char>) -> bool {
    name != "_"@ && !is_keyword(name)
}

/// Whether a name is one of the words that may stand in the path of a `use`
/// item but are no names of items.
pub open spec fn is_path_keyword(name: Seq<char>) -> bool {
    name == "super"@ || name == "self"@ || name == "Self"@ || name == "crate"@
}

/// Whether a text is free to be a segment of the path of a `use` item: it
/// is free to be a name, or one of the four words that may stand in such a
/// path.
pub open spec fn is_free_segment(name: Seq<char>) -> bool {
    is_free_name(name) || is_path_keyword(name)
}

/// The texts of a list of strings.
pub open spec fn names_view(names: Seq<String>) -> Seq<Seq<char>> {
    Seq::new(names.len(), |i: int| names[i]@)
}

/// Calls `syn::parse_str::<syn::Ident>` and hands back the text of the
/// identifier that `syn` finds. The contract claims one thing of such a text:
/// `syn` lets it pass as an identifier, so it is neither `_` nor a word that
/// the language keeps for itself. Which texts give an identifier, and how its
/// text follows from the text that was read, is up to the lexer at work, and
/// nothing is claimed of it.
#[verifier::external_body]
fn parse_str_ident(text: &str) -> (r: Result<String, syn::Error>)
    ensures
        r matches Ok(name) ==> is_free_name(name@),
{
    match syn::parse_str::<syn::Ident>(text) {
        Ok(ident) => Ok(ident.to_string()),
        Err(e) => Err(e),
    }
}

/// Calls `syn::Path::parse_mod_style` on a text, through
/// `syn::parse::Parser::parse_str`, and hands back whether the path that
/// `syn` finds starts with `::`, and the texts of its segments. The contract
/// claims of such a path that it has a segment, and that `syn` lets each
/// segment pass: as an identifier, or as one of `super`, `self`, `Self` and
/// `crate`. Which texts give a path is up to the lexer at work, and nothing is
/// claimed of it.
#[verifier::external_body]
fn parse_str_mod_style_path(text: &str) -> (r: Result<(bool, Vec<String>), syn::Error>)
    ensures
        r matches Ok((leading_colon, names)) ==> names.len() > 0 && forall|i: int|
            0 <= i < names.len() ==> is_free_segment(#[trigger] names[i]@),
{
    match syn::parse::Parser::parse_str(syn::Path::parse_mod_style, text) {
        Ok(path) => Ok(
            (
                path.leading_colon.is_some(),
                path.segments.iter().map(|segment| segment.ident.to_string()).collect(),
            ),
        ),
        Err(e) => Err(e),
    }
}

/// Whether an identifier is one that the transformation makes up: a text
/// that is free to be a name, written nowhere in the source.
pub open spec fn is_made_ident(ident: IdentView) -> bool {
    is_free_name(ident.name) && ident.span == Span::call_site()
}

/// Whether a path is one that the transformation makes up: at least one
/// segment, each of them an identifier that the transformation makes up.
pub open spec fn is_made_path(path: PathWithoutArgsView) -> bool {
    path.segments.len() > 0 && forall|i: int|
        0 <= i < path.segments.len() ==> is_made_ident(#[trigger] path.segments[i])
}

/// Reads a text as one identifier. There is none where `syn` finds none in
/// the text.
pub fn parse_ident(text: &str) -> (r: Option<Ident>)
    ensures
        r matches Some(ident) ==> is_made_ident(ident@),
{
    match parse_str_ident(text) {
        Ok(name) => Some(Ident { name, span: Span::call_site() }),
        Err(_) => None,
    }
}

/// The identifiers with the given names, none of them written anywhere in
/// the source.
pub open spec fn idents_of_names(names: Seq<Seq<char>>) -> Seq<IdentView> {
    Seq::new(names.len(), |i: int| IdentView { name: names[i], span: Span::call_site() })
}

/// The path with the given segments. A path has at least one segment, and
/// none of them is `super`, `self`, `Self` or `crate`.
pub open spec fn path_of_names(leading_colon: bool, names: Seq<Seq<char>>) -> Option<
    PathWithoutArgsView,
> {
    if names.len() == 0 || exists|i: int| 0 <= i < names.len() && is_path_keyword(names[i]) {
        None
    } else {
        Some(PathWithoutArgsView { leading_colon, segments: idents_of_names(names) })
    }
}

/// The view of a path, where there is one.
pub open spec fn path_option_view(r: Option<PathWithoutArgs>) -> Option<PathWithoutArgsView> {
    match r {
        Some(path) => Some(path@),
        None => None,
    }
}

/// Makes a path of the texts of its segments.
pub fn path_from_names(leading_colon: bool, names: Vec<String>) -> (r: Option<PathWithoutArgs>)
    ensures
        path_option_view(r) == path_of_names(leading_colon, names_view(names@)),
{
    let ghost all = names_view(names@);
    if names.len() == 0 {
        return None;
    }
    let mut segments: Vec<Ident> = Vec::new();
    let mut i: usize = 0;
    while i < names.len()
        invariant
            i <= names.len(),
            all == names_view(names@),
            segments.len() == i,
            forall|j: int| 0 <= j < i ==> !is_path_keyword(#[trigger] all[j]),
            forall|j: int| 0 <= j < i ==> (#[trigger] segments[j])@ == idents_of_names(all)[j],
        decreases names.len() - i,
    {
        let name = names[i].as_str();
        assert(all[i as int] == name@);
        if str_eq(name, "super") || str_eq(name, "self") || str_eq(name, "Self") || str_eq(
            name,
            "crate",
        ) {
            assert(is_path_keyword(all[i as int]));
            return None;
        }
        segments.push(Ident { name: names[i].clone(), span: Span::call_site() });
        i += 1;
    }
    assert(idents_view(segments@) =~= idents_of_names(all));
    Some(PathWithoutArgs { leading_colon, segments })
}

/// Reads a text as a path without generic arguments: `a::b::C` or
/// `::a::b::C`. There is none where `syn` finds none in the text, nor where
/// a segment is `super`, `self`, `Self` or `crate`.
pub fn parse_path(text: &str) -> (r: Option<PathWithoutArgs>)
    ensures
        r matches Some(path) ==> is_made_path(path@),
{
    match parse_str_mod_style_path(text) {
        Ok((leading_colon, names)) => {
            let r = path_from_names(leading_colon, names);
            proof {
                let all = names_view(names@);
                if r is Some {
                    let path = path_option_view(r)->0;
                    assert forall|i: int| 0 <= i < path.segments.len() implies is_made_ident(
                        #[trigger] path.segments[i],
                    ) by {
                        assert(!is_path_keyword(all[i]));
                        assert(is_free_segment(names[i]@));
                    }
                }
            }
            r
        },
        Err(_) => None,
    }
}

/// The text without its spaces.
pub open spec fn without_spaces(text: Seq<char>) -> Seq<char>
    decreases text.len(),
{
    if text.len() == 0 {
        Seq::empty()
    } else if text.last() == ' ' {
        without_spaces(text.drop_last())
    } else {
        without_spaces(text.drop_last()).push(text.last())
    }
}

/// The length of the text before its first `<`, looking from `i` on.
pub open spec fn angle_from(text: Seq<char>, i: int) -> int
    decreases text.len() - i,
{
    if 0 <= i < text.len() && text[i] != '<' {
        angle_from(text, i + 1)
    } else {
        i
    }
}

/// The name of a type, read off the type as it is written: what stands
/// before the first `<`, without spaces.
pub open spec fn type_ident(text: Seq<char>) -> Seq<char> {
    without_spaces(text.subrange(0, angle_from(text, 0)))
}

pub proof fn lemma_angle_from_inside(text: Seq<char>, i: int)
    requires
        0 <= i <= text.len(),
    ensures
        i <= angle_from(text, i) <= text.len(),
    decreases text.len() - i,
{
    if i < text.len() && text[i] != '<' {
        lemma_angle_from_inside(text, i + 1);
    }
}

/// The name of a type with the names of its two variants.
#[derive(Debug, PartialEq, Eq)]
pub struct SyncAsyncIdentOfType {
    pub sync_ident: String,
    pub async_ident: String,
    pub ident: String,
}

pub fn map_type_to_ident(ty: &str) -> (r: Result<SyncAsyncIdentOfType, ExpandError>)
    ensures
        r is Ok,
        r->Ok_0.ident@ == type_ident(ty@),
        r->Ok_0.sync_ident@ == "Sync"@ + type_ident(ty@),
        r->Ok_0.async_ident@ == "Async"@ + type_ident(ty@),
{
    let n = ty.unicode_len();
    let mut ident = String::new();
    let mut i: usize = 0;
    proof {
        lemma_angle_from_inside(ty@, 0);
        assert(ty@.subrange(0, 0) =~= Seq::empty());
    }
    while i < n && ty.get_char(i) != '<'
        invariant
            i <= n,
            n == ty@.len(),
            angle_from(ty@, 0) == angle_from(ty@, i as int),
            ident@ == without_spaces(ty@.subrange(0, i as int)),
        decreases n - i,
    {
        let c = ty.get_char(i);
        proof {
            assert(ty@.subrange(0, i + 1).drop_last() =~= ty@.subrange(0, i as int));
            assert(ty@.subrange(0, i + 1).last() == c);
            lemma_angle_from_inside(ty@, i + 1);
        }
        if c != ' ' {
            let one = ty.substring_char(i, i + 1);
            assert(one@ =~= seq![c]);
            ident.append(one);
            assert(ident@ =~= without_spaces(ty@.subrange(0, i as int)).push(c));
        }
        i += 1;
    }
    assert(i == angle_from(ty@, 0));
    let mut sync_ident = "Sync".to_owned();
    sync_ident.append(ident.as_str());
    let mut async_ident = "Async".to_owned();
    async_ident.append(ident.as_str());

    Ok(SyncAsyncIdentOfType { sync_ident, async_ident, ident })
}

/// The error for a self type that has no plain name, written at `place`.
pub open spec fn not_a_name(place: Span) -> ExpandError {
    ExpandError { kind: ErrorKind::SelfTypeName, span: place }
}

/// Whether an alias and two paths can be what a self type goes by: the name
/// of the type, and the paths of its two variants.
pub open spec fn are_self_names(
    from: IdentView,
    sync_path: PathWithoutArgsView,
    async_path: PathWithoutArgsView,
) -> bool {
    is_made_ident(from) && is_made_path(sync_path) && is_made_path(async_path)
}

/// The alias and the two paths of the self type: the name of the type, read
/// off the type as it is written, and the names of its two variants. There
/// are none where one of the three is not a name.
pub fn self_names(text: &str) -> (r: Option<(Ident, PathWithoutArgs, PathWithoutArgs)>)
    ensures
        r matches Some((from, sync_path, async_path)) ==> are_self_names(
            from@,
            sync_path@,
            async_path@,
        ),
{
    let names = match map_type_to_ident(text) {
        Ok(names) => names,
        Err(_) => {
            return None;
        },
    };
    let from = match parse_ident(names.ident.as_str()) {
        Some(from) => from,
        None => {
            return None;
        },
    };
    let sync_path = match parse_path(names.sync_ident.as_str()) {
        Some(path) => path,
        None => {
            return None;
        },
    };
    let async_path = match parse_path(names.async_ident.as_str()) {
        Some(path) => path,
        None => {
            return None;
        },
    };
    Some((from, sync_path, async_path))
}

/// The self type of an implementation block for the two variants.
#[derive(Debug, PartialEq, Eq)]
pub struct SyncAsyncType {
    pub sync_ty: Type,
    pub async_ty: Type,
}

/// A type in its two variants: the name `from` goes to `sync_path` in the
/// one and to `async_path` in the other.
pub open spec fn renamed_type(
    ty: TypeView,
    from: IdentView,
    sync_path: PathWithoutArgsView,
    async_path: PathWithoutArgsView,
) -> (TypeView, TypeView) {
    (
        subst_type(ty, seq![ReplaceItemNameFromToView { from, to: sync_path }]),
        subst_type(ty, seq![ReplaceItemNameFromToView { from, to: async_path }]),
    )
}

/// Renames a type for the two variants: the name `from` goes to `sync_path`
/// in the one and to `async_path` in the other.
pub fn map_type_with_names(
    ty: Type,
    from: &Ident,
    sync_path: &PathWithoutArgs,
    async_path: &PathWithoutArgs,
) -> (r: SyncAsyncType)
    ensures
        (r.sync_ty@, r.async_ty@) == renamed_type(ty@, from@, sync_path@, async_path@),
{
    let mut sync_ty = ty.duplicate();
    let mut async_ty = ty;
    let mut sync_rules: Vec<ReplaceItemNameFromTo> = Vec::new();
    sync_rules.push(ReplaceItemNameFromTo { from, to: sync_path });
    let mut async_rules: Vec<ReplaceItemNameFromTo> = Vec::new();
    async_rules.push(ReplaceItemNameFromTo { from, to: async_path });
    assert(rules_view(sync_rules@) =~= seq![
        ReplaceItemNameFromToView { from: from@, to: sync_path@ },
    ]);
    assert(rules_view(async_rules@) =~= seq![
        ReplaceItemNameFromToView { from: from@, to: async_path@ },
    ]);
    replace_item_name_in_type(&mut sync_ty, sync_rules.as_slice());
    replace_item_name_in_type(&mut async_ty, async_rules.as_slice());

    SyncAsyncType { sync_ty, async_ty }
}

/// Whether `out` is what renaming the self type `ty` can give: the type in
/// its two variants, renamed by a name and the paths of its variants, or the
/// error that the type has no plain name, at the place of the type.
pub open spec fn is_mapped_type(ty: TypeView, out: Result<(TypeView, TypeView), ExpandError>) -> bool {
    match out {
        Ok(tys) => exists|
            from: IdentView,
            sync_path: PathWithoutArgsView,
            async_path: PathWithoutArgsView,
        |
            are_self_names(from, sync_path, async_path) && tys == #[trigger] renamed_type(
                ty,
                from,
                sync_path,
                async_path,
            ),
        Err(e) => e == not_a_name(ty.place()),
    }
}

/// The views of the two variants of a type, or the error in their place.
pub open spec fn mapped_type_view(r: Result<SyncAsyncType, ExpandError>) -> Result<
    (TypeView, TypeView),
    ExpandError,
> {
    match r {
        Ok(tys) => Ok((tys.sync_ty@, tys.async_ty@)),
        Err(e) => Err(e),
    }
}

/// Renames the self type for the two variants. `text` is the type as it is
/// written, token by token: the name of the type is read off it.
pub fn map_type(ty: Type, text: &str) -> (r: Result<SyncAsyncType, ExpandError>)
    ensures
        is_mapped_type(ty@, mapped_type_view(r)),
{
    match self_names(text) {
        Some((from, sync_path, async_path)) => Ok(
            map_type_with_names(ty, &from, &sync_path, &async_path),
        ),
        None => Err(ExpandError { kind: ErrorKind::SelfTypeName, span: ty.place() }),
    }
}

} // verus!
