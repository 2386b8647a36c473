//! Rewrites the paths of a piece of syntax by a table of rules.
//!
//! A rule names an imported item and the path it stands for. Wherever a path
//! begins with the name of a rule, the first such rule is applied: the path of
//! the rule takes the place of the first segment. Later segments are never
//! matched. The generic arguments of every segment are rewritten with the same
//! table, whether or not the path itself was.
use crate::args::{item_imports_view, ItemImport, ItemImportView};
use crate::ast::decl::{
    default_view, field_list_view, fn_args_view, generic_params_view, where_clause_view,
    where_predicates_view, Field, FieldView, Fields, FieldsView, FnArg, FnArgView, GenericParam,
    GenericParamView, Generics, GenericsView, Signature, SignatureView, WherePredicate,
    WherePredicateView,
};
use crate::ast::pat::{field_pats_view, pats_view, subpat_view, FieldPat, FieldPatView, Pat, PatView};
use crate::ast::token::{Ident, IdentView};
use crate::ast::ty::{
    bare_fn_args_view, bounds_view, generic_arguments_view, qself_view, segments_view, types_view,
    BareFnArg,
    BareFnArgView, GenericArgument, GenericArgumentView, Macro, MacroView, Path, PathArguments,
    PathArgumentsView, PathSegment, PathSegmentView, PathView, QSelf, QSelfView, ReturnType,
    ReturnTypeView, Type, TypeParamBound, TypeParamBoundView, TypeView,
};
use crate::utils::{PathWithoutArgs, PathWithoutArgsView};
use vstd::prelude::*;

verus! {

/// One rule: paths that begin with `from` begin with `to` afterwards.
pub struct ReplaceItemNameFromTo<'a> {
    pub from: &'a Ident,
    pub to: &'a PathWithoutArgs,
}

pub struct ReplaceItemNameFromToView {
    pub from: IdentView,
    pub to: PathWithoutArgsView,
}

impl<'a> View for ReplaceItemNameFromTo<'a> {
    type V = ReplaceItemNameFromToView;

    open spec fn view(&self) -> ReplaceItemNameFromToView {
        ReplaceItemNameFromToView { from: self.from@, to: self.to@ }
    }
}

/// The views of a table of rules.
pub open spec fn rules_view(v: Seq<ReplaceItemNameFromTo>) -> Seq<ReplaceItemNameFromToView> {
    Seq::new(v.len(), |i: int| v[i]@)
}

/// The rule that an import gives: its alias, or else the last segment of its
/// path, stands for the path. An import with neither gives no rule.
pub open spec fn rule_of_import(import: ItemImportView) -> Option<ReplaceItemNameFromToView> {
    match import.alias {
        Some(alias) => Some(ReplaceItemNameFromToView { from: alias, to: import.path }),
        None => if import.path.segments.len() > 0 {
            Some(ReplaceItemNameFromToView { from: import.path.segments.last(), to: import.path })
        } else {
            None
        },
    }
}

/// The rules of a list of imports, in the order of the imports.
pub open spec fn rules_of_imports(imports: Seq<ItemImportView>) -> Seq<ReplaceItemNameFromToView>
    decreases imports.len(),
{
    if imports.len() == 0 {
        Seq::empty()
    } else {
        let before = rules_of_imports(imports.drop_last());
        match rule_of_import(imports.last()) {
            Some(rule) => before.push(rule),
            None => before,
        }
    }
}

pub fn replaces_from_item_imports<'a>(items: &'a [ItemImport]) -> (r: Vec<ReplaceItemNameFromTo<'a>>)
    ensures
        rules_view(r@) == rules_of_imports(item_imports_view(items@)),
{
    let ghost imports = item_imports_view(items@);
    let mut buf: Vec<ReplaceItemNameFromTo<'a>> = Vec::new();
    let mut i: usize = 0;
    assert(imports.subrange(0, 0) =~= Seq::empty());
    assert(rules_view(buf@) =~= Seq::empty());
    while i < items.len()
        invariant
            i <= items.len(),
            imports == item_imports_view(items@),
            rules_view(buf@) == rules_of_imports(imports.subrange(0, i as int)),
        decreases items.len() - i,
    {
        let item = &items[i];
        let ghost before = buf@;
        proof {
            assert(imports.subrange(0, i + 1).drop_last() =~= imports.subrange(0, i as int));
            assert(imports.subrange(0, i + 1).last() == item@);
        }
        match &item.alias {
            Some(alias) => {
                buf.push(ReplaceItemNameFromTo { from: alias, to: &item.path });
                assert(rules_view(buf@) =~= rules_view(before).push(rule_of_import(item@).unwrap()));
            },
            None => {
                match item.path.last_ident() {
                    Some(last) => {
                        buf.push(ReplaceItemNameFromTo { from: last, to: &item.path });
                        assert(rules_view(buf@) =~= rules_view(before).push(
                            rule_of_import(item@).unwrap(),
                        ));
                    },
                    None => {},
                }
            },
        }
        i += 1;
    }
    assert(imports.subrange(0, i as int) =~= imports);
    buf
}

/// The first rule of the table whose name is `name`.
pub open spec fn first_match(
    rules: Seq<ReplaceItemNameFromToView>,
    name: Seq<char>,
) -> Option<ReplaceItemNameFromToView>
    decreases rules.len(),
{
    if rules.len() == 0 {
        None
    } else if rules.first().from.name == name {
        Some(rules.first())
    } else {
        first_match(rules.drop_first(), name)
    }
}

/// The segments that take the place of the first segment `head` when a rule
/// with the target `to` applies: the names of `to`, the last of them at the
/// place where `head` was written and with the arguments of `head`.
pub open spec fn spliced_head(to: Seq<IdentView>, head: PathSegmentView) -> Seq<PathSegmentView> {
    Seq::new(
        to.len(),
        |i: int|
            if i + 1 == to.len() {
                PathSegmentView {
                    ident: IdentView { name: to[i].name, span: head.ident.span },
                    arguments: head.arguments,
                }
            } else {
                PathSegmentView { ident: to[i], arguments: PathArgumentsView::Empty }
            },
    )
}

/// A path whose segments `segments` have had their arguments rewritten, after
/// the rule for its first segment, if there is one, is applied.
pub open spec fn spliced_path(
    leading_colon: bool,
    segments: Seq<PathSegmentView>,
    rules: Seq<ReplaceItemNameFromToView>,
) -> PathView {
    if segments.len() == 0 {
        PathView { leading_colon, segments }
    } else {
        match first_match(rules, segments[0].ident.name) {
            None => PathView { leading_colon, segments },
            Some(rule) => PathView {
                leading_colon: rule.to.leading_colon,
                segments: spliced_head(rule.to.segments, segments[0]) + segments.subrange(
                    1,
                    segments.len() as int,
                ),
            },
        }
    }
}

pub open spec fn subst_path(p: PathView, rules: Seq<ReplaceItemNameFromToView>) -> PathView
    decreases p,
{
    spliced_path(p.leading_colon, subst_segments(p.segments, rules), rules)
}

/// The segments with their arguments rewritten; the names stay.
pub open spec fn subst_segments(
    s: Seq<PathSegmentView>,
    rules: Seq<ReplaceItemNameFromToView>,
) -> Seq<PathSegmentView>
    decreases s,
{
    Seq::new(
        s.len(),
        |i: int|
            if 0 <= i < s.len() {
                PathSegmentView {
                    ident: s[i].ident,
                    arguments: subst_path_arguments(s[i].arguments, rules),
                }
            } else {
                arbitrary()
            },
    )
}

pub open spec fn subst_path_arguments(
    a: PathArgumentsView,
    rules: Seq<ReplaceItemNameFromToView>,
) -> PathArgumentsView
    decreases a,
{
    match a {
        PathArgumentsView::Empty => PathArgumentsView::Empty,
        PathArgumentsView::AngleBracketed { args, rest } => PathArgumentsView::AngleBracketed {
            args: subst_generic_arguments(args, rules),
            rest,
        },
        PathArgumentsView::Parenthesized { inputs, output } => PathArgumentsView::Parenthesized {
            inputs: subst_types(inputs, rules),
            output: subst_return_type(output, rules),
        },
    }
}

pub open spec fn subst_generic_arguments(
    s: Seq<GenericArgumentView>,
    rules: Seq<ReplaceItemNameFromToView>,
) -> Seq<GenericArgumentView>
    decreases s,
{
    Seq::new(
        s.len(),
        |i: int|
            if 0 <= i < s.len() {
                subst_generic_argument(s[i], rules)
            } else {
                arbitrary()
            },
    )
}

pub open spec fn subst_generic_argument(
    a: GenericArgumentView,
    rules: Seq<ReplaceItemNameFromToView>,
) -> GenericArgumentView
    decreases a,
{
    match a {
        GenericArgumentView::Type { ty } => GenericArgumentView::Type { ty: subst_type(ty, rules) },
        GenericArgumentView::AssocType { generics, ty, rest } => GenericArgumentView::AssocType {
            generics: match generics {
                Some(g) => Some(subst_generic_arguments(g, rules)),
                None => None,
            },
            ty: subst_type(ty, rules),
            rest,
        },
        GenericArgumentView::AssocConst { generics, rest } => GenericArgumentView::AssocConst {
            generics: match generics {
                Some(g) => Some(subst_generic_arguments(g, rules)),
                None => None,
            },
            rest,
        },
        GenericArgumentView::Constraint { bounds, rest } => GenericArgumentView::Constraint {
            bounds: subst_bounds(bounds, rules),
            rest,
        },
        GenericArgumentView::Other { rest } => GenericArgumentView::Other { rest },
    }
}

pub open spec fn subst_return_type(
    r: ReturnTypeView,
    rules: Seq<ReplaceItemNameFromToView>,
) -> ReturnTypeView
    decreases r,
{
    match r {
        ReturnTypeView::Default => ReturnTypeView::Default,
        ReturnTypeView::Type { ty } => ReturnTypeView::Type {
            ty: Box::new(subst_type(*ty, rules)),
        },
    }
}

pub open spec fn subst_bounds(
    s: Seq<TypeParamBoundView>,
    rules: Seq<ReplaceItemNameFromToView>,
) -> Seq<TypeParamBoundView>
    decreases s,
{
    Seq::new(
        s.len(),
        |i: int|
            if 0 <= i < s.len() {
                subst_bound(s[i], rules)
            } else {
                arbitrary()
            },
    )
}

pub open spec fn subst_bound(
    b: TypeParamBoundView,
    rules: Seq<ReplaceItemNameFromToView>,
) -> TypeParamBoundView
    decreases b,
{
    match b {
        TypeParamBoundView::Trait { path, rest } => TypeParamBoundView::Trait {
            path: subst_path(path, rules),
            rest,
        },
        TypeParamBoundView::Other { rest } => TypeParamBoundView::Other { rest },
    }
}

pub open spec fn subst_macro(m: MacroView, rules: Seq<ReplaceItemNameFromToView>) -> MacroView
    decreases m,
{
    MacroView { path: subst_path(m.path, rules), rest: m.rest }
}

pub open spec fn subst_qself(
    q: Option<QSelfView>,
    rules: Seq<ReplaceItemNameFromToView>,
) -> Option<QSelfView>
    decreases q,
{
    match q {
        Some(q) => Some(QSelfView { ty: Box::new(subst_type(*q.ty, rules)), rest: q.rest }),
        None => None,
    }
}

pub open spec fn subst_bare_fn_args(
    s: Seq<BareFnArgView>,
    rules: Seq<ReplaceItemNameFromToView>,
) -> Seq<BareFnArgView>
    decreases s,
{
    Seq::new(
        s.len(),
        |i: int|
            if 0 <= i < s.len() {
                BareFnArgView { ty: subst_type(s[i].ty, rules), rest: s[i].rest }
            } else {
                arbitrary()
            },
    )
}

pub open spec fn subst_types(s: Seq<TypeView>, rules: Seq<ReplaceItemNameFromToView>) -> Seq<
    TypeView,
>
    decreases s,
{
    Seq::new(
        s.len(),
        |i: int|
            if 0 <= i < s.len() {
                subst_type(s[i], rules)
            } else {
                arbitrary()
            },
    )
}

pub open spec fn subst_type(t: TypeView, rules: Seq<ReplaceItemNameFromToView>) -> TypeView
    decreases t,
{
    match t {
        TypeView::Array { elem, rest } => TypeView::Array {
            elem: Box::new(subst_type(*elem, rules)),
            rest,
        },
        TypeView::BareFn { inputs, output, rest } => TypeView::BareFn {
            inputs: subst_bare_fn_args(inputs, rules),
            output: subst_return_type(output, rules),
            rest,
        },
        TypeView::Group { elem } => TypeView::Group { elem: Box::new(subst_type(*elem, rules)) },
        TypeView::ImplTrait { bounds } => TypeView::ImplTrait {
            bounds: subst_bounds(bounds, rules),
        },
        TypeView::Macro { mac } => TypeView::Macro { mac: subst_macro(mac, rules) },
        TypeView::Paren { elem } => TypeView::Paren { elem: Box::new(subst_type(*elem, rules)) },
        TypeView::Path { qself, path } => TypeView::Path {
            qself: subst_qself(qself, rules),
            path: subst_path(path, rules),
        },
        TypeView::Ptr { elem, rest } => TypeView::Ptr {
            elem: Box::new(subst_type(*elem, rules)),
            rest,
        },
        TypeView::Reference { elem, rest } => TypeView::Reference {
            elem: Box::new(subst_type(*elem, rules)),
            rest,
        },
        TypeView::Slice { elem } => TypeView::Slice { elem: Box::new(subst_type(*elem, rules)) },
        TypeView::TraitObject { bounds, rest } => TypeView::TraitObject {
            bounds: subst_bounds(bounds, rules),
            rest,
        },
        TypeView::Tuple { elems } => TypeView::Tuple { elems: subst_types(elems, rules) },
        TypeView::Other { rest } => TypeView::Other { rest },
    }
}

/// The place of the first rule of the table whose name is that of `ident`.
fn find_rule<'a>(replaces: &[ReplaceItemNameFromTo<'a>], ident: &Ident) -> (r: Option<usize>)
    ensures
        match r {
            Some(k) => k < replaces.len() && first_match(rules_view(replaces@), ident@.name)
                == Some(replaces[k as int]@),
            None => first_match(rules_view(replaces@), ident@.name) is None,
        },
{
    let ghost rules = rules_view(replaces@);
    let mut k: usize = 0;
    assert(rules.subrange(0, rules.len() as int) =~= rules);
    while k < replaces.len()
        invariant
            k <= replaces.len(),
            rules == rules_view(replaces@),
            first_match(rules, ident@.name) == first_match(
                rules.subrange(k as int, rules.len() as int),
                ident@.name,
            ),
        decreases replaces.len() - k,
    {
        proof {
            let tail = rules.subrange(k as int, rules.len() as int);
            assert(tail.first() == replaces[k as int]@);
            assert(tail.drop_first() =~= rules.subrange(k + 1, rules.len() as int));
        }
        if replaces[k].from.same_name(ident) {
            return Some(k);
        }
        k += 1;
    }
    None
}

// (from, to)
// (std, s): std::io::Read -> s::io::Read
// (B, std::io::BufReader): B<T> -> std::io::BufReader<T>
pub fn replace_item_name_in_path<'a>(path: &mut Path, replaces: &[ReplaceItemNameFromTo<'a>])
    ensures
        final(path)@ == subst_path(old(path)@, rules_view(replaces@)),
    decreases *old(path),
{
    let ghost rules = rules_view(replaces@);
    replace_item_name_in_segments(&mut path.segments, replaces);
    let ghost segments = segments_view(path.segments@);
    let n = path.segments.len();
    if n == 0 {
        return ;
    }
    match find_rule(replaces, &path.segments[0].ident) {
        None => {},
        Some(k) => {
            let to = replaces[k].to;
            let m = to.segments.len();
            let mut seg_buf: Vec<PathSegment> = Vec::new();
            let ghost head = spliced_head(to@.segments, segments[0]);
            let mut i: usize = 0;
            while i < m
                invariant
                    i <= m,
                    m == to.segments.len(),
                    n == path.segments.len(),
                    n > 0,
                    segments == segments_view(path.segments@),
                    head == spliced_head(to@.segments, segments[0]),
                    seg_buf.len() == i,
                    forall|j: int| 0 <= j < i ==> (#[trigger] seg_buf[j]).model() == head[j],
                decreases m - i,
            {
                let ident = &to.segments[i];
                let seg = if i + 1 == m {
                    PathSegment {
                        ident: Ident { name: ident.name.clone(), span: path.segments[0].ident.span },
                        arguments: path.segments[0].arguments.duplicate(),
                    }
                } else {
                    PathSegment { ident: ident.clone(), arguments: PathArguments::Empty }
                };
                seg_buf.push(seg);
                i += 1;
            }
            let mut i: usize = 1;
            while i < n
                invariant
                    1 <= i <= n,
                    m == to.segments.len(),
                    n == path.segments.len(),
                    segments == segments_view(path.segments@),
                    head == spliced_head(to@.segments, segments[0]),
                    seg_buf.len() == m + i - 1,
                    forall|j: int| 0 <= j < m ==> (#[trigger] seg_buf[j]).model() == head[j],
                    forall|j: int|
                        m <= j < m + i - 1 ==> (#[trigger] seg_buf[j]).model() == segments[j - m
                            + 1],
                decreases n - i,
            {
                seg_buf.push(path.segments[i].duplicate());
                i += 1;
            }
            assert(segments_view(seg_buf@) =~= head + segments.subrange(1, n as int));
            path.leading_colon = to.leading_colon;
            path.segments = seg_buf;
        },
    }
}

/// Rewrites the arguments of every segment; the names stay.
pub fn replace_item_name_in_segments<'a>(
    v: &mut Vec<PathSegment>,
    replaces: &[ReplaceItemNameFromTo<'a>],
)
    ensures
        segments_view(final(v)@) == subst_segments(
            segments_view(old(v)@),
            rules_view(replaces@),
        ),
    decreases *old(v),
{
    let ghost rules = rules_view(replaces@);
    let n = v.len();
    let mut k: usize = 0;
    while k < n
        invariant
            k <= n,
            n == v.len(),
            v.len() == old(v).len(),
            rules == rules_view(replaces@),
            forall|j: int|
                0 <= j < k ==> (#[trigger] v[j]).model() == (PathSegmentView {
                    ident: old(v)[j].model().ident,
                    arguments: subst_path_arguments(old(v)[j].model().arguments, rules),
                }),
            forall|j: int| k <= j < n ==> v[j] == old(v)[j],
        decreases n - k,
    {
        proof {
            assert(v[k as int] == old(v)[k as int]);
            assert(decreases_to!(*old(v) => old(v)[k as int]));
        }
        replace_item_name_in_path_arguments(&mut v[k].arguments, replaces);
        k += 1;
    }
    assert(segments_view(v@) =~= subst_segments(segments_view(old(v)@), rules));
}

pub fn replace_item_name_in_path_arguments<'a>(
    args: &mut PathArguments,
    replaces: &[ReplaceItemNameFromTo<'a>],
)
    ensures
        final(args)@ == subst_path_arguments(old(args)@, rules_view(replaces@)),
    decreases *old(args),
{
    match args {
        PathArguments::Empty => (),
        PathArguments::AngleBracketed { args, .. } => {
            replace_item_name_in_generic_argument_list(args, replaces);
        },
        PathArguments::Parenthesized { inputs, output } => {
            replace_item_name_in_types(inputs, replaces);
            replace_item_name_in_return_type(output, replaces);
        },
    }
}

/// Rewrites every argument of a list.
pub fn replace_item_name_in_generic_argument_list<'a>(
    v: &mut Vec<GenericArgument>,
    replaces: &[ReplaceItemNameFromTo<'a>],
)
    ensures
        generic_arguments_view(final(v)@) == subst_generic_arguments(
            generic_arguments_view(old(v)@),
            rules_view(replaces@),
        ),
    decreases *old(v),
{
    let ghost rules = rules_view(replaces@);
    let n = v.len();
    let mut k: usize = 0;
    while k < n
        invariant
            k <= n,
            n == v.len(),
            v.len() == old(v).len(),
            rules == rules_view(replaces@),
            forall|j: int|
                0 <= j < k ==> (#[trigger] v[j]).model() == subst_generic_argument(
                    old(v)[j].model(),
                    rules,
                ),
            forall|j: int| k <= j < n ==> v[j] == old(v)[j],
        decreases n - k,
    {
        proof {
            assert(v[k as int] == old(v)[k as int]);
            assert(decreases_to!(*old(v) => old(v)[k as int]));
        }
        replace_item_name_in_generic_arguments(&mut v[k], replaces);
        k += 1;
    }
    assert(generic_arguments_view(v@) =~= subst_generic_arguments(
        generic_arguments_view(old(v)@),
        rules,
    ));
}

pub fn replace_item_name_in_generic_arguments<'a>(
    arg: &mut GenericArgument,
    replaces: &[ReplaceItemNameFromTo<'a>],
)
    ensures
        final(arg)@ == subst_generic_argument(old(arg)@, rules_view(replaces@)),
    decreases *old(arg),
{
    match arg {
        GenericArgument::Type { ty } => replace_item_name_in_type(ty, replaces),
        GenericArgument::AssocType { generics, ty, .. } => {
            replace_item_name_in_type(ty, replaces);
            if let Some(g) = generics {
                replace_item_name_in_generic_argument_list(g, replaces);
            }
        },
        GenericArgument::AssocConst { generics, .. } => {
            if let Some(g) = generics {
                replace_item_name_in_generic_argument_list(g, replaces);
            }
        },
        GenericArgument::Constraint { bounds, .. } => {
            replace_item_name_in_bounds(bounds, replaces);
        },
        GenericArgument::Other { .. } => (),
    }
}

pub fn replace_item_name_in_return_type<'a>(
    ty: &mut ReturnType,
    replaces: &[ReplaceItemNameFromTo<'a>],
)
    ensures
        final(ty)@ == subst_return_type(old(ty)@, rules_view(replaces@)),
    decreases *old(ty),
{
    match ty {
        ReturnType::Type { ty } => replace_item_name_in_type(&mut **ty, replaces),
        ReturnType::Default => (),
    }
}

/// Rewrites every bound of a list.
pub fn replace_item_name_in_bounds<'a>(
    v: &mut Vec<TypeParamBound>,
    replaces: &[ReplaceItemNameFromTo<'a>],
)
    ensures
        bounds_view(final(v)@) == subst_bounds(bounds_view(old(v)@), rules_view(replaces@)),
    decreases *old(v),
{
    let ghost rules = rules_view(replaces@);
    let n = v.len();
    let mut k: usize = 0;
    while k < n
        invariant
            k <= n,
            n == v.len(),
            v.len() == old(v).len(),
            rules == rules_view(replaces@),
            forall|j: int|
                0 <= j < k ==> (#[trigger] v[j]).model() == subst_bound(old(v)[j].model(), rules),
            forall|j: int| k <= j < n ==> v[j] == old(v)[j],
        decreases n - k,
    {
        proof {
            assert(v[k as int] == old(v)[k as int]);
            assert(decreases_to!(*old(v) => old(v)[k as int]));
        }
        replace_item_name_in_type_param_bound(&mut v[k], replaces);
        k += 1;
    }
    assert(bounds_view(v@) =~= subst_bounds(bounds_view(old(v)@), rules));
}

pub fn replace_item_name_in_type_param_bound<'a>(
    bound: &mut TypeParamBound,
    replaces: &[ReplaceItemNameFromTo<'a>],
)
    ensures
        final(bound)@ == subst_bound(old(bound)@, rules_view(replaces@)),
    decreases *old(bound),
{
    match bound {
        TypeParamBound::Trait { path, .. } => {
            replace_item_name_in_path(path, replaces);
        },
        TypeParamBound::Other { .. } => (),
    }
}

pub fn replace_item_name_in_macro<'a>(m: &mut Macro, replaces: &[ReplaceItemNameFromTo<'a>])
    ensures
        final(m)@ == subst_macro(old(m)@, rules_view(replaces@)),
    decreases *old(m),
{
    replace_item_name_in_path(&mut m.path, replaces);
}

/// Rewrites the type of every parameter of a function pointer type.
pub fn replace_item_name_in_bare_fn_args<'a>(
    v: &mut Vec<BareFnArg>,
    replaces: &[ReplaceItemNameFromTo<'a>],
)
    ensures
        bare_fn_args_view(final(v)@) == subst_bare_fn_args(
            bare_fn_args_view(old(v)@),
            rules_view(replaces@),
        ),
    decreases *old(v),
{
    let ghost rules = rules_view(replaces@);
    let n = v.len();
    let mut k: usize = 0;
    while k < n
        invariant
            k <= n,
            n == v.len(),
            v.len() == old(v).len(),
            rules == rules_view(replaces@),
            forall|j: int|
                0 <= j < k ==> (#[trigger] v[j]).model() == (BareFnArgView {
                    ty: subst_type(old(v)[j].model().ty, rules),
                    rest: old(v)[j].model().rest,
                }),
            forall|j: int| k <= j < n ==> v[j] == old(v)[j],
        decreases n - k,
    {
        proof {
            assert(v[k as int] == old(v)[k as int]);
            assert(decreases_to!(*old(v) => old(v)[k as int]));
        }
        replace_item_name_in_type(&mut v[k].ty, replaces);
        k += 1;
    }
    assert(bare_fn_args_view(v@) =~= subst_bare_fn_args(bare_fn_args_view(old(v)@), rules));
}

/// Rewrites every type of a list.
pub fn replace_item_name_in_types<'a>(v: &mut Vec<Type>, replaces: &[ReplaceItemNameFromTo<'a>])
    ensures
        types_view(final(v)@) == subst_types(types_view(old(v)@), rules_view(replaces@)),
    decreases *old(v),
{
    let ghost rules = rules_view(replaces@);
    let n = v.len();
    let mut k: usize = 0;
    while k < n
        invariant
            k <= n,
            n == v.len(),
            v.len() == old(v).len(),
            rules == rules_view(replaces@),
            forall|j: int|
                0 <= j < k ==> (#[trigger] v[j]).model() == subst_type(old(v)[j].model(), rules),
            forall|j: int| k <= j < n ==> v[j] == old(v)[j],
        decreases n - k,
    {
        proof {
            assert(v[k as int] == old(v)[k as int]);
            assert(decreases_to!(*old(v) => old(v)[k as int]));
        }
        replace_item_name_in_type(&mut v[k], replaces);
        k += 1;
    }
    assert(types_view(v@) =~= subst_types(types_view(old(v)@), rules));
}

pub fn replace_item_name_in_type<'a>(ty: &mut Type, replaces: &[ReplaceItemNameFromTo<'a>])
    ensures
        final(ty)@ == subst_type(old(ty)@, rules_view(replaces@)),
    decreases *old(ty),
{
    match ty {
        Type::Array { elem, .. } => replace_item_name_in_type(&mut **elem, replaces),
        Type::BareFn { inputs, output, .. } => {
            replace_item_name_in_bare_fn_args(inputs, replaces);
            replace_item_name_in_return_type(output, replaces);
        },
        Type::Group { elem } => replace_item_name_in_type(&mut **elem, replaces),
        Type::ImplTrait { bounds } => replace_item_name_in_bounds(bounds, replaces),
        Type::Paren { elem } => replace_item_name_in_type(&mut **elem, replaces),
        Type::Path { qself, path } => {
            replace_item_name_in_qself(qself, replaces);
            replace_item_name_in_path(path, replaces)
        },
        Type::Ptr { elem, .. } => replace_item_name_in_type(&mut **elem, replaces),
        Type::Reference { elem, .. } => replace_item_name_in_type(&mut **elem, replaces),
        Type::Slice { elem } => replace_item_name_in_type(&mut **elem, replaces),
        Type::TraitObject { bounds, .. } => replace_item_name_in_bounds(bounds, replaces),
        Type::Tuple { elems } => replace_item_name_in_types(elems, replaces),
        Type::Macro { mac } => replace_item_name_in_macro(mac, replaces),
        Type::Other { .. } => (),
    }
}

/// Rewrites the explicit self type that stands before a path, if there is one.
pub fn replace_item_name_in_qself<'a>(
    qself: &mut Option<QSelf>,
    replaces: &[ReplaceItemNameFromTo<'a>],
)
    ensures
        qself_view(*final(qself)) == subst_qself(qself_view(*old(qself)), rules_view(replaces@)),
    decreases *old(qself),
{
    if let Some(q) = qself {
        replace_item_name_in_type(&mut *q.ty, replaces);
    }
}

pub open spec fn subst_subpat(
    p: Option<Box<PatView>>,
    rules: Seq<ReplaceItemNameFromToView>,
) -> Option<Box<PatView>>
    decreases p,
{
    match p {
        Some(p) => Some(Box::new(subst_pat(*p, rules))),
        None => None,
    }
}

pub open spec fn subst_field_pat(
    f: FieldPatView,
    rules: Seq<ReplaceItemNameFromToView>,
) -> FieldPatView
    decreases f,
{
    FieldPatView { pat: Box::new(subst_pat(*f.pat, rules)), rest: f.rest }
}

pub open spec fn subst_field_pats(s: Seq<FieldPatView>, rules: Seq<ReplaceItemNameFromToView>) -> Seq<
    FieldPatView,
>
    decreases s,
{
    Seq::new(
        s.len(),
        |i: int|
            if 0 <= i < s.len() {
                subst_field_pat(s[i], rules)
            } else {
                arbitrary()
            },
    )
}

pub open spec fn subst_pats(s: Seq<PatView>, rules: Seq<ReplaceItemNameFromToView>) -> Seq<
    PatView,
>
    decreases s,
{
    Seq::new(
        s.len(),
        |i: int|
            if 0 <= i < s.len() {
                subst_pat(s[i], rules)
            } else {
                arbitrary()
            },
    )
}

pub open spec fn subst_pat(p: PatView, rules: Seq<ReplaceItemNameFromToView>) -> PatView
    decreases p,
{
    match p {
        PatView::Ident { subpat, rest } => PatView::Ident {
            subpat: subst_subpat(subpat, rules),
            rest,
        },
        PatView::Macro { mac } => PatView::Macro { mac: subst_macro(mac, rules) },
        PatView::Paren { pat } => PatView::Paren { pat: Box::new(subst_pat(*pat, rules)) },
        PatView::Path { qself, path } => PatView::Path {
            qself: subst_qself(qself, rules),
            path: subst_path(path, rules),
        },
        PatView::Reference { pat, rest } => PatView::Reference {
            pat: Box::new(subst_pat(*pat, rules)),
            rest,
        },
        PatView::Slice { elems } => PatView::Slice { elems: subst_pats(elems, rules) },
        PatView::Struct { qself, path, fields, rest } => PatView::Struct {
            qself: subst_qself(qself, rules),
            path: subst_path(path, rules),
            fields: subst_field_pats(fields, rules),
            rest,
        },
        PatView::Tuple { elems } => PatView::Tuple { elems: subst_pats(elems, rules) },
        PatView::TupleStruct { qself, path, elems } => PatView::TupleStruct {
            qself: subst_qself(qself, rules),
            path: subst_path(path, rules),
            elems: subst_pats(elems, rules),
        },
        PatView::Type { pat, ty } => PatView::Type {
            pat: Box::new(subst_pat(*pat, rules)),
            ty: Box::new(subst_type(*ty, rules)),
        },
        PatView::Other { rest } => PatView::Other { rest },
    }
}

pub open spec fn subst_default(
    t: Option<TypeView>,
    rules: Seq<ReplaceItemNameFromToView>,
) -> Option<TypeView> {
    match t {
        Some(t) => Some(subst_type(t, rules)),
        None => None,
    }
}

pub open spec fn subst_generic_param(
    p: GenericParamView,
    rules: Seq<ReplaceItemNameFromToView>,
) -> GenericParamView {
    match p {
        GenericParamView::Type { bounds, default, rest } => GenericParamView::Type {
            bounds: subst_bounds(bounds, rules),
            default: subst_default(default, rules),
            rest,
        },
        GenericParamView::Const { ty, rest } => GenericParamView::Const {
            ty: subst_type(ty, rules),
            rest,
        },
        GenericParamView::Lifetime { rest } => GenericParamView::Lifetime { rest },
    }
}

pub open spec fn subst_generic_params(s: Seq<GenericParamView>, rules: Seq<ReplaceItemNameFromToView>) -> Seq<
    GenericParamView,
>
{
    Seq::new(s.len(), |i: int| subst_generic_param(s[i], rules))
}

pub open spec fn subst_where_predicate(
    p: WherePredicateView,
    rules: Seq<ReplaceItemNameFromToView>,
) -> WherePredicateView {
    match p {
        WherePredicateView::Type { bounded_ty, bounds, rest } => WherePredicateView::Type {
            bounded_ty: subst_type(bounded_ty, rules),
            bounds: subst_bounds(bounds, rules),
            rest,
        },
        WherePredicateView::Other { rest } => WherePredicateView::Other { rest },
    }
}

pub open spec fn subst_where_predicates(s: Seq<WherePredicateView>, rules: Seq<ReplaceItemNameFromToView>) -> Seq<
    WherePredicateView,
>
{
    Seq::new(s.len(), |i: int| subst_where_predicate(s[i], rules))
}

pub open spec fn subst_where_clause(
    w: Option<Seq<WherePredicateView>>,
    rules: Seq<ReplaceItemNameFromToView>,
) -> Option<Seq<WherePredicateView>> {
    match w {
        Some(w) => Some(subst_where_predicates(w, rules)),
        None => None,
    }
}

pub open spec fn subst_generics(
    g: GenericsView,
    rules: Seq<ReplaceItemNameFromToView>,
) -> GenericsView {
    GenericsView {
        params: subst_generic_params(g.params, rules),
        where_clause: subst_where_clause(g.where_clause, rules),
    }
}

pub open spec fn subst_field(f: FieldView, rules: Seq<ReplaceItemNameFromToView>) -> FieldView {
    FieldView { ty: subst_type(f.ty, rules), rest: f.rest }
}

pub open spec fn subst_field_list(s: Seq<FieldView>, rules: Seq<ReplaceItemNameFromToView>) -> Seq<
    FieldView,
>
{
    Seq::new(s.len(), |i: int| subst_field(s[i], rules))
}

pub open spec fn subst_fields(f: FieldsView, rules: Seq<ReplaceItemNameFromToView>) -> FieldsView {
    match f {
        FieldsView::Named { fields } => FieldsView::Named {
            fields: subst_field_list(fields, rules),
        },
        FieldsView::Unnamed { fields } => FieldsView::Unnamed {
            fields: subst_field_list(fields, rules),
        },
        FieldsView::Unit => FieldsView::Unit,
    }
}

pub open spec fn subst_fn_arg(a: FnArgView, rules: Seq<ReplaceItemNameFromToView>) -> FnArgView {
    match a {
        FnArgView::Receiver { ty, rest } => FnArgView::Receiver {
            ty: Box::new(subst_type(*ty, rules)),
            rest,
        },
        FnArgView::Typed { pat, ty, rest } => FnArgView::Typed {
            pat: Box::new(subst_pat(*pat, rules)),
            ty: Box::new(subst_type(*ty, rules)),
            rest,
        },
    }
}

pub open spec fn subst_fn_args(s: Seq<FnArgView>, rules: Seq<ReplaceItemNameFromToView>) -> Seq<
    FnArgView,
>
{
    Seq::new(s.len(), |i: int| subst_fn_arg(s[i], rules))
}

/// A signature with its return type, its generic parameters and its
/// parameters rewritten.
pub open spec fn subst_signature(
    s: SignatureView,
    rules: Seq<ReplaceItemNameFromToView>,
) -> SignatureView {
    SignatureView {
        asyncness: s.asyncness,
        fn_token: s.fn_token,
        generics: subst_generics(s.generics, rules),
        inputs: subst_fn_args(s.inputs, rules),
        output: subst_return_type(s.output, rules),
        rest: s.rest,
    }
}

/// Rewrites the pattern behind `@`, if there is one.
pub fn replace_item_name_in_subpat<'a>(
    subpat: &mut Option<Box<Pat>>,
    replaces: &[ReplaceItemNameFromTo<'a>],
)
    ensures
        subpat_view(*final(subpat)) == subst_subpat(
            subpat_view(*old(subpat)),
            rules_view(replaces@),
        ),
    decreases *old(subpat),
{
    if let Some(p) = subpat {
        replace_item_name_in_pat(&mut **p, replaces);
    }
}

/// Rewrites the pattern of every field of a struct pattern.
pub fn replace_item_name_in_field_pats<'a>(v: &mut Vec<FieldPat>, replaces: &[ReplaceItemNameFromTo<'a>])
    ensures
        field_pats_view(final(v)@) == subst_field_pats(field_pats_view(old(v)@), rules_view(replaces@)),
    decreases *old(v),
{
    let ghost rules = rules_view(replaces@);
    let n = v.len();
    let mut k: usize = 0;
    while k < n
        invariant
            k <= n,
            n == v.len(),
            v.len() == old(v).len(),
            rules == rules_view(replaces@),
            forall|j: int|
                0 <= j < k ==> (#[trigger] v[j]).model() == subst_field_pat(old(v)[j].model(), rules),
            forall|j: int| k <= j < n ==> v[j] == old(v)[j],
        decreases n - k,
    {
        proof {
            assert(v[k as int] == old(v)[k as int]);
            assert(decreases_to!(*old(v) => old(v)[k as int]));
        }
        replace_item_name_in_pat(&mut *v[k].pat, replaces);
        k += 1;
    }
    assert(field_pats_view(v@) =~= subst_field_pats(field_pats_view(old(v)@), rules));
}

/// Rewrites every pattern of a list.
pub fn replace_item_name_in_pats<'a>(v: &mut Vec<Pat>, replaces: &[ReplaceItemNameFromTo<'a>])
    ensures
        pats_view(final(v)@) == subst_pats(pats_view(old(v)@), rules_view(replaces@)),
    decreases *old(v),
{
    let ghost rules = rules_view(replaces@);
    let n = v.len();
    let mut k: usize = 0;
    while k < n
        invariant
            k <= n,
            n == v.len(),
            v.len() == old(v).len(),
            rules == rules_view(replaces@),
            forall|j: int|
                0 <= j < k ==> (#[trigger] v[j]).model() == subst_pat(old(v)[j].model(), rules),
            forall|j: int| k <= j < n ==> v[j] == old(v)[j],
        decreases n - k,
    {
        proof {
            assert(v[k as int] == old(v)[k as int]);
            assert(decreases_to!(*old(v) => old(v)[k as int]));
        }
        replace_item_name_in_pat(&mut v[k], replaces);
        k += 1;
    }
    assert(pats_view(v@) =~= subst_pats(pats_view(old(v)@), rules));
}

pub fn replace_item_name_in_pat<'a>(pat: &mut Pat, replaces: &[ReplaceItemNameFromTo<'a>])
    ensures
        final(pat)@ == subst_pat(old(pat)@, rules_view(replaces@)),
    decreases *old(pat),
{
    match pat {
        Pat::Ident { subpat, .. } => replace_item_name_in_subpat(subpat, replaces),
        Pat::Macro { mac } => replace_item_name_in_macro(mac, replaces),
        Pat::Paren { pat } => replace_item_name_in_pat(&mut **pat, replaces),
        Pat::Path { qself, path } => {
            replace_item_name_in_qself(qself, replaces);
            replace_item_name_in_path(path, replaces)
        },
        Pat::Reference { pat, .. } => replace_item_name_in_pat(&mut **pat, replaces),
        Pat::Slice { elems } => replace_item_name_in_pats(elems, replaces),
        Pat::Struct { qself, path, fields, .. } => {
            replace_item_name_in_qself(qself, replaces);
            replace_item_name_in_field_pats(fields, replaces);
            replace_item_name_in_path(path, replaces);
        },
        Pat::Tuple { elems } => replace_item_name_in_pats(elems, replaces),
        Pat::TupleStruct { qself, path, elems } => {
            replace_item_name_in_qself(qself, replaces);
            replace_item_name_in_pats(elems, replaces);
            replace_item_name_in_path(path, replaces);
        },
        Pat::Type { pat, ty } => {
            replace_item_name_in_pat(&mut **pat, replaces);
            replace_item_name_in_type(&mut **ty, replaces);
        },
        Pat::Other { .. } => (),
    }
}

pub fn replace_item_name_in_fn_arg<'a>(arg: &mut FnArg, replaces: &[ReplaceItemNameFromTo<'a>])
    ensures
        final(arg)@ == subst_fn_arg(old(arg)@, rules_view(replaces@)),
{
    match arg {
        FnArg::Receiver { ty, .. } => replace_item_name_in_type(&mut **ty, replaces),
        FnArg::Typed { pat, ty, .. } => {
            replace_item_name_in_type(&mut **ty, replaces);
            replace_item_name_in_pat(&mut **pat, replaces);
        },
    }
}

/// Rewrites every parameter of a function.
pub fn replace_item_name_in_fn_args<'a>(v: &mut Vec<FnArg>, replaces: &[ReplaceItemNameFromTo<'a>])
    ensures
        fn_args_view(final(v)@) == subst_fn_args(fn_args_view(old(v)@), rules_view(replaces@)),
{
    let ghost rules = rules_view(replaces@);
    let n = v.len();
    let mut k: usize = 0;
    while k < n
        invariant
            k <= n,
            n == v.len(),
            v.len() == old(v).len(),
            rules == rules_view(replaces@),
            forall|j: int|
                0 <= j < k ==> (#[trigger] v[j]).model() == subst_fn_arg(old(v)[j].model(), rules),
            forall|j: int| k <= j < n ==> v[j] == old(v)[j],
        decreases n - k,
    {
        replace_item_name_in_fn_arg(&mut v[k], replaces);
        k += 1;
    }
    assert(fn_args_view(v@) =~= subst_fn_args(fn_args_view(old(v)@), rules));
}

pub fn replace_item_name_in_signature<'a>(
    sig: &mut Signature,
    replaces: &[ReplaceItemNameFromTo<'a>],
)
    ensures
        final(sig)@ == subst_signature(old(sig)@, rules_view(replaces@)),
{
    replace_item_name_in_return_type(&mut sig.output, replaces);
    replace_item_name_in_generics(&mut sig.generics, replaces);
    replace_item_name_in_fn_args(&mut sig.inputs, replaces);
}

pub fn replace_item_name_in_field<'a>(f: &mut Field, replaces: &[ReplaceItemNameFromTo<'a>])
    ensures
        final(f)@ == subst_field(old(f)@, rules_view(replaces@)),
{
    replace_item_name_in_type(&mut f.ty, replaces);
}

/// Rewrites the type of every field of a list.
pub fn replace_item_name_in_field_list<'a>(v: &mut Vec<Field>, replaces: &[ReplaceItemNameFromTo<'a>])
    ensures
        field_list_view(final(v)@) == subst_field_list(field_list_view(old(v)@), rules_view(replaces@)),
{
    let ghost rules = rules_view(replaces@);
    let n = v.len();
    let mut k: usize = 0;
    while k < n
        invariant
            k <= n,
            n == v.len(),
            v.len() == old(v).len(),
            rules == rules_view(replaces@),
            forall|j: int|
                0 <= j < k ==> (#[trigger] v[j]).model() == subst_field(old(v)[j].model(), rules),
            forall|j: int| k <= j < n ==> v[j] == old(v)[j],
        decreases n - k,
    {
        replace_item_name_in_field(&mut v[k], replaces);
        k += 1;
    }
    assert(field_list_view(v@) =~= subst_field_list(field_list_view(old(v)@), rules));
}

pub fn replace_item_name_in_fields<'a>(f: &mut Fields, replaces: &[ReplaceItemNameFromTo<'a>])
    ensures
        final(f)@ == subst_fields(old(f)@, rules_view(replaces@)),
{
    match f {
        Fields::Named { fields } => replace_item_name_in_field_list(fields, replaces),
        Fields::Unnamed { fields } => replace_item_name_in_field_list(fields, replaces),
        Fields::Unit => (),
    }
}

/// Rewrites the default of a type parameter, if there is one.
pub fn replace_item_name_in_default<'a>(
    default: &mut Option<Type>,
    replaces: &[ReplaceItemNameFromTo<'a>],
)
    ensures
        default_view(*final(default)) == subst_default(
            default_view(*old(default)),
            rules_view(replaces@),
        ),
{
    if let Some(t) = default {
        replace_item_name_in_type(t, replaces);
    }
}

/// Rewrites one generic parameter: its bounds and its default, or the type of
/// a constant.
pub fn replace_item_name_in_generic_param<'a>(
    param: &mut GenericParam,
    replaces: &[ReplaceItemNameFromTo<'a>],
)
    ensures
        final(param)@ == subst_generic_param(old(param)@, rules_view(replaces@)),
{
    match param {
        GenericParam::Lifetime { .. } => (),
        GenericParam::Const { ty, .. } => replace_item_name_in_type(ty, replaces),
        GenericParam::Type { bounds, default, .. } => {
            replace_item_name_in_default(default, replaces);
            replace_item_name_in_bounds(bounds, replaces);
        },
    }
}

/// Rewrites every generic parameter of a list.
pub fn replace_item_name_in_generic_params<'a>(v: &mut Vec<GenericParam>, replaces: &[ReplaceItemNameFromTo<'a>])
    ensures
        generic_params_view(final(v)@) == subst_generic_params(generic_params_view(old(v)@), rules_view(replaces@)),
{
    let ghost rules = rules_view(replaces@);
    let n = v.len();
    let mut k: usize = 0;
    while k < n
        invariant
            k <= n,
            n == v.len(),
            v.len() == old(v).len(),
            rules == rules_view(replaces@),
            forall|j: int|
                0 <= j < k ==> (#[trigger] v[j]).model() == subst_generic_param(old(v)[j].model(), rules),
            forall|j: int| k <= j < n ==> v[j] == old(v)[j],
        decreases n - k,
    {
        replace_item_name_in_generic_param(&mut v[k], replaces);
        k += 1;
    }
    assert(generic_params_view(v@) =~= subst_generic_params(generic_params_view(old(v)@), rules));
}

pub fn replace_item_name_in_where_predicates<'a>(
    wp: &mut WherePredicate,
    replaces: &[ReplaceItemNameFromTo<'a>],
)
    ensures
        final(wp)@ == subst_where_predicate(old(wp)@, rules_view(replaces@)),
{
    match wp {
        WherePredicate::Type { bounded_ty, bounds, .. } => {
            replace_item_name_in_type(bounded_ty, replaces);
            replace_item_name_in_bounds(bounds, replaces);
        },
        WherePredicate::Other { .. } => (),
    }
}

/// Rewrites every predicate of a `where` clause.
pub fn replace_item_name_in_where_predicate_list<'a>(v: &mut Vec<WherePredicate>, replaces: &[ReplaceItemNameFromTo<'a>])
    ensures
        where_predicates_view(final(v)@) == subst_where_predicates(where_predicates_view(old(v)@), rules_view(replaces@)),
{
    let ghost rules = rules_view(replaces@);
    let n = v.len();
    let mut k: usize = 0;
    while k < n
        invariant
            k <= n,
            n == v.len(),
            v.len() == old(v).len(),
            rules == rules_view(replaces@),
            forall|j: int|
                0 <= j < k ==> (#[trigger] v[j]).model() == subst_where_predicate(old(v)[j].model(), rules),
            forall|j: int| k <= j < n ==> v[j] == old(v)[j],
        decreases n - k,
    {
        replace_item_name_in_where_predicates(&mut v[k], replaces);
        k += 1;
    }
    assert(where_predicates_view(v@) =~= subst_where_predicates(where_predicates_view(old(v)@), rules));
}

/// Rewrites the `where` clause, if there is one.
pub fn replace_item_name_in_where_clause<'a>(
    w: &mut Option<Vec<WherePredicate>>,
    replaces: &[ReplaceItemNameFromTo<'a>],
)
    ensures
        where_clause_view(*final(w)) == subst_where_clause(
            where_clause_view(*old(w)),
            rules_view(replaces@),
        ),
{
    if let Some(predicates) = w {
        replace_item_name_in_where_predicate_list(predicates, replaces);
    }
}

pub fn replace_item_name_in_generics<'a>(g: &mut Generics, replaces: &[ReplaceItemNameFromTo<'a>])
    ensures
        final(g)@ == subst_generics(old(g)@, rules_view(replaces@)),
{
    replace_item_name_in_where_clause(&mut g.where_clause, replaces);
    replace_item_name_in_generic_params(&mut g.params, replaces);
}

} // verus!
