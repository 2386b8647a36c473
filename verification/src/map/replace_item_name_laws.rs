//! What holds of the rewrite of paths for every tree and every table.
use crate::ast::decl::{
    FieldView, FieldsView, FnArgView, GenericParamView, GenericsView, SignatureView,
    WherePredicateView,
};
use crate::ast::pat::{FieldPatView, PatView};
use crate::ast::token::IdentView;
use crate::ast::ty::{
    BareFnArgView, GenericArgumentView, MacroView, PathArgumentsView, PathSegmentView, PathView,
    QSelfView, ReturnTypeView, TypeParamBoundView, TypeView,
};
use crate::map::replace_item_name::{
    first_match, subst_bare_fn_args, subst_bound, subst_bounds, subst_field, subst_field_list,
    subst_field_pats, subst_fields, subst_fn_arg, subst_fn_args, subst_generic_argument,
    subst_generic_arguments, subst_generic_param, subst_generic_params, subst_generics,
    subst_macro, subst_pat, subst_pats, subst_path, subst_path_arguments, subst_qself,
    subst_subpat,
    subst_return_type, subst_segments, subst_signature, subst_type, subst_types,
    subst_where_predicate, subst_where_predicates, ReplaceItemNameFromToView,
};
use vstd::prelude::*;

verus! {

/// With an empty table a path stays as it is.
pub proof fn lemma_no_rules_path(p: PathView)
    ensures
        subst_path(p, Seq::empty()) == p,
    decreases p,
{
    lemma_no_rules_segments(p.segments);
}

pub proof fn lemma_no_rules_segments(s: Seq<PathSegmentView>)
    ensures
        subst_segments(s, Seq::empty()) == s,
    decreases s,
{
    assert forall|i: int| 0 <= i < s.len() implies subst_segments(s, Seq::empty())[i] == s[i] by {
        lemma_no_rules_path_arguments(s[i].arguments);
    }
    assert(subst_segments(s, Seq::empty()) =~= s);
}

pub proof fn lemma_no_rules_path_arguments(a: PathArgumentsView)
    ensures
        subst_path_arguments(a, Seq::empty()) == a,
    decreases a,
{
    match a {
        PathArgumentsView::Empty => {},
        PathArgumentsView::AngleBracketed { args, .. } => lemma_no_rules_generic_arguments(args),
        PathArgumentsView::Parenthesized { inputs, output } => {
            lemma_no_rules_types(inputs);
            lemma_no_rules_return_type(output);
        },
    }
}

pub proof fn lemma_no_rules_generic_arguments(s: Seq<GenericArgumentView>)
    ensures
        subst_generic_arguments(s, Seq::empty()) == s,
    decreases s,
{
    assert forall|i: int| 0 <= i < s.len() implies subst_generic_arguments(s, Seq::empty())[i] == s[i] by {
        lemma_no_rules_generic_argument(s[i]);
    }
    assert(subst_generic_arguments(s, Seq::empty()) =~= s);
}

pub proof fn lemma_no_rules_generic_argument(a: GenericArgumentView)
    ensures
        subst_generic_argument(a, Seq::empty()) == a,
    decreases a,
{
    match a {
        GenericArgumentView::Type { ty } => lemma_no_rules_type(ty),
        GenericArgumentView::AssocType { generics, ty, .. } => {
            lemma_no_rules_type(ty);
            if let Some(g) = generics {
                lemma_no_rules_generic_arguments(g);
            }
        },
        GenericArgumentView::AssocConst { generics, .. } => {
            if let Some(g) = generics {
                lemma_no_rules_generic_arguments(g);
            }
        },
        GenericArgumentView::Constraint { bounds, .. } => lemma_no_rules_bounds(bounds),
        GenericArgumentView::Other { .. } => {},
    }
}

pub proof fn lemma_no_rules_return_type(r: ReturnTypeView)
    ensures
        subst_return_type(r, Seq::empty()) == r,
    decreases r,
{
    match r {
        ReturnTypeView::Default => {},
        ReturnTypeView::Type { ty } => lemma_no_rules_type(*ty),
    }
}

pub proof fn lemma_no_rules_bounds(s: Seq<TypeParamBoundView>)
    ensures
        subst_bounds(s, Seq::empty()) == s,
    decreases s,
{
    assert forall|i: int| 0 <= i < s.len() implies subst_bounds(s, Seq::empty())[i] == s[i] by {
        lemma_no_rules_bound(s[i]);
    }
    assert(subst_bounds(s, Seq::empty()) =~= s);
}

pub proof fn lemma_no_rules_bound(b: TypeParamBoundView)
    ensures
        subst_bound(b, Seq::empty()) == b,
    decreases b,
{
    match b {
        TypeParamBoundView::Trait { path, .. } => lemma_no_rules_path(path),
        TypeParamBoundView::Other { .. } => {},
    }
}

pub proof fn lemma_no_rules_macro(m: MacroView)
    ensures
        subst_macro(m, Seq::empty()) == m,
    decreases m,
{
    lemma_no_rules_path(m.path);
}

pub proof fn lemma_no_rules_qself(q: Option<QSelfView>)
    ensures
        subst_qself(q, Seq::empty()) == q,
    decreases q,
{
    if let Some(q) = q {
        lemma_no_rules_type(*q.ty);
    }
}

pub proof fn lemma_no_rules_bare_fn_args(s: Seq<BareFnArgView>)
    ensures
        subst_bare_fn_args(s, Seq::empty()) == s,
    decreases s,
{
    assert forall|i: int| 0 <= i < s.len() implies subst_bare_fn_args(s, Seq::empty())[i]
        == s[i] by {
        lemma_no_rules_type(s[i].ty);
    }
    assert(subst_bare_fn_args(s, Seq::empty()) =~= s);
}

pub proof fn lemma_no_rules_types(s: Seq<TypeView>)
    ensures
        subst_types(s, Seq::empty()) == s,
    decreases s,
{
    assert forall|i: int| 0 <= i < s.len() implies subst_types(s, Seq::empty())[i] == s[i] by {
        lemma_no_rules_type(s[i]);
    }
    assert(subst_types(s, Seq::empty()) =~= s);
}

/// With an empty table a type stays as it is.
pub proof fn lemma_no_rules_type(t: TypeView)
    ensures
        subst_type(t, Seq::empty()) == t,
    decreases t,
{
    match t {
        TypeView::Array { elem, .. } => lemma_no_rules_type(*elem),
        TypeView::BareFn { inputs, output, .. } => {
            lemma_no_rules_bare_fn_args(inputs);
            lemma_no_rules_return_type(output);
        },
        TypeView::Group { elem } => lemma_no_rules_type(*elem),
        TypeView::ImplTrait { bounds } => lemma_no_rules_bounds(bounds),
        TypeView::Macro { mac } => lemma_no_rules_macro(mac),
        TypeView::Paren { elem } => lemma_no_rules_type(*elem),
        TypeView::Path { qself, path } => {
            lemma_no_rules_qself(qself);
            lemma_no_rules_path(path);
        },
        TypeView::Ptr { elem, .. } => lemma_no_rules_type(*elem),
        TypeView::Reference { elem, .. } => lemma_no_rules_type(*elem),
        TypeView::Slice { elem } => lemma_no_rules_type(*elem),
        TypeView::TraitObject { bounds, .. } => lemma_no_rules_bounds(bounds),
        TypeView::Tuple { elems } => lemma_no_rules_types(elems),
        TypeView::Other { .. } => {},
    }
}

pub proof fn lemma_no_rules_field_pats(s: Seq<FieldPatView>)
    ensures
        subst_field_pats(s, Seq::empty()) == s,
    decreases s,
{
    assert forall|i: int| 0 <= i < s.len() implies subst_field_pats(s, Seq::empty())[i]
        == s[i] by {
        lemma_no_rules_pat(*s[i].pat);
    }
    assert(subst_field_pats(s, Seq::empty()) =~= s);
}

pub proof fn lemma_no_rules_pats(s: Seq<PatView>)
    ensures
        subst_pats(s, Seq::empty()) == s,
    decreases s,
{
    assert forall|i: int| 0 <= i < s.len() implies subst_pats(s, Seq::empty())[i] == s[i] by {
        lemma_no_rules_pat(s[i]);
    }
    assert(subst_pats(s, Seq::empty()) =~= s);
}

/// With an empty table a pattern stays as it is.
pub proof fn lemma_no_rules_pat(p: PatView)
    ensures
        subst_pat(p, Seq::empty()) == p,
    decreases p,
{
    match p {
        PatView::Ident { subpat, .. } => {
            if let Some(sub) = subpat {
                lemma_no_rules_pat(*sub);
                assert(subst_subpat(subpat, Seq::empty()) == subpat);
            }
        },
        PatView::Macro { mac } => lemma_no_rules_macro(mac),
        PatView::Paren { pat } => lemma_no_rules_pat(*pat),
        PatView::Path { qself, path } => {
            lemma_no_rules_qself(qself);
            lemma_no_rules_path(path);
        },
        PatView::Reference { pat, .. } => lemma_no_rules_pat(*pat),
        PatView::Slice { elems } => lemma_no_rules_pats(elems),
        PatView::Struct { qself, path, fields, .. } => {
            lemma_no_rules_qself(qself);
            lemma_no_rules_path(path);
            lemma_no_rules_field_pats(fields);
        },
        PatView::Tuple { elems } => lemma_no_rules_pats(elems),
        PatView::TupleStruct { qself, path, elems } => {
            lemma_no_rules_qself(qself);
            lemma_no_rules_path(path);
            lemma_no_rules_pats(elems);
        },
        PatView::Type { pat, ty } => {
            lemma_no_rules_pat(*pat);
            lemma_no_rules_type(*ty);
        },
        PatView::Other { .. } => {},
    }
}

pub proof fn lemma_no_rules_generic_param(p: GenericParamView)
    ensures
        subst_generic_param(p, Seq::empty()) == p,
{
    match p {
        GenericParamView::Type { bounds, default, .. } => {
            lemma_no_rules_bounds(bounds);
            if let Some(t) = default {
                lemma_no_rules_type(t);
            }
        },
        GenericParamView::Const { ty, .. } => lemma_no_rules_type(ty),
        GenericParamView::Lifetime { .. } => {},
    }
}

pub proof fn lemma_no_rules_generic_params(s: Seq<GenericParamView>)
    ensures
        subst_generic_params(s, Seq::empty()) == s,
{
    assert forall|i: int| 0 <= i < s.len() implies subst_generic_params(s, Seq::empty())[i] == s[i] by {
        lemma_no_rules_generic_param(s[i]);
    }
    assert(subst_generic_params(s, Seq::empty()) =~= s);
}

pub proof fn lemma_no_rules_where_predicate(p: WherePredicateView)
    ensures
        subst_where_predicate(p, Seq::empty()) == p,
{
    match p {
        WherePredicateView::Type { bounded_ty, bounds, .. } => {
            lemma_no_rules_type(bounded_ty);
            lemma_no_rules_bounds(bounds);
        },
        WherePredicateView::Other { .. } => {},
    }
}

pub proof fn lemma_no_rules_where_predicates(s: Seq<WherePredicateView>)
    ensures
        subst_where_predicates(s, Seq::empty()) == s,
{
    assert forall|i: int| 0 <= i < s.len() implies subst_where_predicates(s, Seq::empty())[i] == s[i] by {
        lemma_no_rules_where_predicate(s[i]);
    }
    assert(subst_where_predicates(s, Seq::empty()) =~= s);
}

/// With an empty table generic parameters and their `where` clause stay as
/// they are.
pub proof fn lemma_no_rules_generics(g: GenericsView)
    ensures
        subst_generics(g, Seq::empty()) == g,
{
    lemma_no_rules_generic_params(g.params);
    if let Some(w) = g.where_clause {
        lemma_no_rules_where_predicates(w);
    }
}

pub proof fn lemma_no_rules_field(f: FieldView)
    ensures
        subst_field(f, Seq::empty()) == f,
{
    lemma_no_rules_type(f.ty);
}

pub proof fn lemma_no_rules_field_list(s: Seq<FieldView>)
    ensures
        subst_field_list(s, Seq::empty()) == s,
{
    assert forall|i: int| 0 <= i < s.len() implies subst_field_list(s, Seq::empty())[i] == s[i] by {
        lemma_no_rules_field(s[i]);
    }
    assert(subst_field_list(s, Seq::empty()) =~= s);
}

/// With an empty table the fields of a record type stay as they are.
pub proof fn lemma_no_rules_fields(f: FieldsView)
    ensures
        subst_fields(f, Seq::empty()) == f,
{
    match f {
        FieldsView::Named { fields } => lemma_no_rules_field_list(fields),
        FieldsView::Unnamed { fields } => lemma_no_rules_field_list(fields),
        FieldsView::Unit => {},
    }
}

pub proof fn lemma_no_rules_fn_arg(a: FnArgView)
    ensures
        subst_fn_arg(a, Seq::empty()) == a,
{
    match a {
        FnArgView::Receiver { ty, .. } => lemma_no_rules_type(*ty),
        FnArgView::Typed { pat, ty, .. } => {
            lemma_no_rules_pat(*pat);
            lemma_no_rules_type(*ty);
        },
    }
}

pub proof fn lemma_no_rules_fn_args(s: Seq<FnArgView>)
    ensures
        subst_fn_args(s, Seq::empty()) == s,
{
    assert forall|i: int| 0 <= i < s.len() implies subst_fn_args(s, Seq::empty())[i] == s[i] by {
        lemma_no_rules_fn_arg(s[i]);
    }
    assert(subst_fn_args(s, Seq::empty()) =~= s);
}

/// With an empty table a signature stays as it is.
pub proof fn lemma_no_rules_signature(s: SignatureView)
    ensures
        subst_signature(s, Seq::empty()) == s,
{
    lemma_no_rules_generics(s.generics);
    lemma_no_rules_fn_args(s.inputs);
    lemma_no_rules_return_type(s.output);
}

/// Only the first segment of a path is matched: where no rule has its name,
/// the path keeps its length, its names and its leading `::`, whatever the
/// later segments are called.
pub proof fn lemma_first_segment_only(p: PathView, rules: Seq<ReplaceItemNameFromToView>)
    requires
        p.segments.len() > 0,
        first_match(rules, p.segments[0].ident.name) is None,
    ensures
        subst_path(p, rules).leading_colon == p.leading_colon,
        subst_path(p, rules).segments.len() == p.segments.len(),
        forall|i: int|
            0 <= i < p.segments.len() ==> (#[trigger] subst_path(p, rules).segments[i]).ident
                == p.segments[i].ident,
{
}

/// Where a rule applies, its path takes the place of the first segment. The
/// last name of that path stands where the first segment was written and has
/// its generic arguments, themselves rewritten; the names before it have no
/// arguments. The later segments follow, with their arguments rewritten.
pub proof fn lemma_path_splice(p: PathView, rules: Seq<ReplaceItemNameFromToView>)
    requires
        p.segments.len() > 0,
        first_match(rules, p.segments[0].ident.name) is Some,
    ensures
        ({
            let rule = first_match(rules, p.segments[0].ident.name)->0;
            let to = rule.to.segments;
            let out = subst_path(p, rules);
            &&& rule.from.name == p.segments[0].ident.name
            &&& out.leading_colon == rule.to.leading_colon
            &&& out.segments.len() == to.len() + p.segments.len() - 1
            &&& forall|i: int|
                0 <= i < to.len() - 1 ==> #[trigger] out.segments[i] == (PathSegmentView {
                    ident: to[i],
                    arguments: PathArgumentsView::Empty,
                })
            &&& to.len() > 0 ==> out.segments[to.len() - 1] == (PathSegmentView {
                ident: IdentView { name: to.last().name, span: p.segments[0].ident.span },
                arguments: subst_path_arguments(p.segments[0].arguments, rules),
            })
            &&& forall|i: int|
                1 <= i < p.segments.len() ==> #[trigger] out.segments[to.len() + i - 1] == (
                PathSegmentView {
                    ident: p.segments[i].ident,
                    arguments: subst_path_arguments(p.segments[i].arguments, rules),
                })
        }),
{
    lemma_first_match_has_name(rules, p.segments[0].ident.name);
}

/// The rule that is found for a name has that name, and no rule before it has.
pub proof fn lemma_first_match_has_name(rules: Seq<ReplaceItemNameFromToView>, name: Seq<char>)
    ensures
        match first_match(rules, name) {
            Some(rule) => rule.from.name == name && exists|k: int|
                0 <= k < rules.len() && #[trigger] rules[k] == rule && forall|j: int|
                    0 <= j < k ==> (#[trigger] rules[j]).from.name != name,
            None => forall|j: int| 0 <= j < rules.len() ==> (#[trigger] rules[j]).from.name != name,
        },
    decreases rules.len(),
{
    if rules.len() > 0 && rules.first().from.name != name {
        let tail = rules.drop_first();
        lemma_first_match_has_name(tail, name);
        match first_match(tail, name) {
            Some(rule) => {
                let k = choose|k: int|
                    0 <= k < tail.len() && #[trigger] tail[k] == rule && forall|j: int|
                        0 <= j < k ==> (#[trigger] tail[j]).from.name != name;
                assert(rules[k + 1] == rule);
                assert forall|j: int| 0 <= j < k + 1 implies (#[trigger] rules[j]).from.name
                    != name by {
                    if j > 0 {
                        assert(rules[j] == tail[j - 1]);
                    }
                }
            },
            None => {
                assert forall|j: int| 0 <= j < rules.len() implies (#[trigger] rules[j]).from.name
                    != name by {
                    if j > 0 {
                        assert(rules[j] == tail[j - 1]);
                    }
                }
            },
        }
    } else if rules.len() > 0 {
        assert(rules[0] == rules.first());
    }
}

} // verus!
