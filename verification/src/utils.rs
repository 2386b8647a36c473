//! Paths without generic arguments, and imports written as `use` items.
use crate::args::{item_imports_view, ItemImport, ItemImportView};
use crate::ast::attr::{attrs_view, AttributeView};
use crate::ast::token::{clone_idents, idents_view, Ident, IdentView, Span};
use crate::ast::ty::{Path, PathArguments, PathArgumentsView, PathSegment, PathSegmentView, PathView};
use crate::ast::use_tree::{item_uses_view, ItemUse, ItemUseView, UseTree, UseTreeView};
use vstd::pervasive::VecAdditionalExecFns;
use vstd::prelude::*;
use vstd::string::StringExecFns;

verus! {

/// A path without generic arguments: the target of an import.
#[derive(Debug, PartialEq, Eq)]
pub struct PathWithoutArgs {
    /// Whether the path starts with `::`.
    pub leading_colon: bool,
    pub segments: Vec<Ident>,
}

pub struct PathWithoutArgsView {
    pub leading_colon: bool,
    pub segments: Seq<IdentView>,
}

impl View for PathWithoutArgs {
    type V = PathWithoutArgsView;

    open spec fn view(&self) -> PathWithoutArgsView {
        PathWithoutArgsView {
            leading_colon: self.leading_colon,
            segments: idents_view(self.segments@),
        }
    }
}

/// The names joined by `::`.
pub open spec fn joined_names(segments: Seq<IdentView>) -> Seq<char>
    decreases segments.len(),
{
    if segments.len() == 0 {
        Seq::empty()
    } else if segments.len() == 1 {
        segments[0].name
    } else {
        joined_names(segments.drop_last()) + seq![':', ':'] + segments.last().name
    }
}

impl PathWithoutArgsView {
    /// The path with no generic arguments behind its segments.
    pub open spec fn as_path(self) -> PathView {
        PathView {
            leading_colon: self.leading_colon,
            segments: Seq::new(
                self.segments.len(),
                |i: int|
                    PathSegmentView {
                        ident: self.segments[i],
                        arguments: PathArgumentsView::Empty,
                    },
            ),
        }
    }

    /// Whether the path has the leading `::` and the names of `other`.
    pub open spec fn same_names(self, other: PathView) -> bool {
        &&& self.leading_colon == other.leading_colon
        &&& self.segments.len() == other.segments.len()
        &&& forall|i: int|
            0 <= i < self.segments.len() ==> (#[trigger] self.segments[i]).name
                == other.segments[i].ident.name
    }

    /// The path as it is written: `a::b::C`, or `::a::b::C`.
    pub open spec fn text(self) -> Seq<char> {
        if self.leading_colon {
            seq![':', ':'] + joined_names(self.segments)
        } else {
            joined_names(self.segments)
        }
    }
}

impl Clone for PathWithoutArgs {
    fn clone(&self) -> (r: Self)
        ensures
            r@ == self@,
    {
        PathWithoutArgs {
            leading_colon: self.leading_colon,
            segments: clone_idents(&self.segments),
        }
    }
}

impl PathWithoutArgs {
    pub fn to_string(&self) -> (r: String)
        ensures
            r@ == self@.text(),
    {
        let ghost segments = idents_view(self.segments@);
        let mut buf = String::new();
        proof {
            reveal_strlit("::");
        }
        assert("::"@ =~= seq![':', ':']);
        if self.leading_colon {
            buf.append("::");
        }
        let ghost prefix = buf@;
        let mut i: usize = 0;
        assert(buf@ =~= prefix + joined_names(segments.subrange(0, 0)));
        while i < self.segments.len()
            invariant
                i <= self.segments.len(),
                segments == idents_view(self.segments@),
                "::"@ == seq![':', ':'],
                buf@ == prefix + joined_names(segments.subrange(0, i as int)),
            decreases self.segments.len() - i,
        {
            let ghost before = segments.subrange(0, i as int);
            let ghost now = segments.subrange(0, i + 1);
            assert(now.drop_last() =~= before);
            assert(now.last() == self.segments[i as int]@);
            if i != 0 {
                buf.append("::");
            }
            buf.append(self.segments[i].name.as_str());
            i += 1;
            assert(buf@ =~= prefix + joined_names(now));
        }
        assert(segments.subrange(0, i as int) =~= segments);
        buf
    }

    pub fn from_idents(idents: Vec<Ident>, is_absolute: bool) -> (r: PathWithoutArgs)
        ensures
            r@ == (PathWithoutArgsView {
                leading_colon: is_absolute,
                segments: idents_view(idents@),
            }),
    {
        PathWithoutArgs { leading_colon: is_absolute, segments: idents }
    }

    /// The path as a path that may carry generic arguments, with none.
    pub fn into_path(self) -> (r: Path)
        ensures
            r@ == self@.as_path(),
    {
        let leading_colon = self.leading_colon;
        let mut idents = self.segments;
        let ghost names = idents_view(idents@);
        let mut segments: Vec<PathSegment> = Vec::new();
        let n = idents.len();
        let mut i: usize = 0;
        while i < n
            invariant
                i <= n,
                n == idents.len(),
                names.len() == n,
                segments.len() == i,
                forall|j: int| i <= j < n ==> (#[trigger] idents[j])@ == names[j],
                forall|j: int|
                    0 <= j < i ==> (#[trigger] segments[j])@ == (PathSegmentView {
                        ident: names[j],
                        arguments: PathArgumentsView::Empty,
                    }),
            decreases n - i,
        {
            let mut ident = Ident { name: String::new(), span: Span::call_site() };
            idents.set_and_swap(i, &mut ident);
            segments.push(PathSegment { ident, arguments: PathArguments::Empty });
            i += 1;
        }
        let r = Path { leading_colon, segments };
        assert(r@.segments =~= self@.as_path().segments);
        r
    }

    /// Whether a path is this path: the same leading `::` and the same
    /// names, whatever generic arguments the path carries.
    pub fn eq_path(&self, other: &Path) -> (r: bool)
        ensures
            r == self@.same_names(other@),
    {
        if self.leading_colon != other.leading_colon {
            return false;
        }
        if self.segments.len() != other.segments.len() {
            return false;
        }
        let mut i: usize = 0;
        while i < self.segments.len()
            invariant
                i <= self.segments.len(),
                self.segments.len() == other.segments.len(),
                forall|j: int|
                    0 <= j < i ==> (#[trigger] self@.segments[j]).name == other@.segments[j].ident.name,
            decreases self.segments.len() - i,
        {
            assert(self@.segments[i as int] == self.segments[i as int]@);
            assert(other@.segments[i as int] == other.segments[i as int].model());
            if !self.segments[i].same_name(&other.segments[i].ident) {
                return false;
            }
            i += 1;
        }
        true
    }

    pub fn last_ident(&self) -> (r: Option<&Ident>)
        ensures
            match r {
                Some(i) => self.segments.len() > 0 && *i == self.segments[self.segments.len() - 1],
                None => self.segments.len() == 0,
            },
    {
        if self.segments.len() == 0 {
            None
        } else {
            Some(&self.segments[self.segments.len() - 1])
        }
    }
}

/// The tree of the import of a path under an alias: the segments one inside
/// the other, the last of them renamed if there is an alias.
pub open spec fn use_tree_of(segments: Seq<IdentView>, alias: Option<IdentView>) -> UseTreeView
    decreases segments.len(),
{
    if segments.len() <= 1 {
        match alias {
            None => UseTreeView::Name { ident: segments[0] },
            Some(alias) => UseTreeView::Rename { ident: segments[0], rename: alias },
        }
    } else {
        UseTreeView::Path {
            ident: segments[0],
            tree: Box::new(use_tree_of(segments.drop_first(), alias)),
        }
    }
}

/// The import as an item: `use a::b::C as D;`, without annotations.
pub open spec fn item_use_of(import: ItemImportView) -> ItemUseView {
    ItemUseView {
        attrs: Seq::<AttributeView>::empty(),
        leading_colon: import.path.leading_colon,
        tree: use_tree_of(import.path.segments, import.alias),
    }
}

/// The imports as items, in their order.
pub open spec fn item_uses_of(imports: Seq<ItemImportView>) -> Seq<ItemUseView> {
    Seq::new(imports.len(), |i: int| item_use_of(imports[i]))
}

/// Whether every import names something: its path has a segment.
pub open spec fn imports_wf(imports: Seq<ItemImportView>) -> bool {
    forall|i: int| 0 <= i < imports.len() ==> (#[trigger] imports[i]).path.segments.len() > 0
}

pub fn item_use_from_item_import(item_import: &ItemImport) -> (r: ItemUse)
    requires
        item_import@.path.segments.len() > 0,
    ensures
        r@ == item_use_of(item_import@),
{
    let segments = &item_import.path.segments;
    let ghost names = idents_view(segments@);
    let ghost alias = item_import@.alias;
    let n = segments.len();
    let top_ident = segments[n - 1].clone();
    let mut tree = match &item_import.alias {
        None => UseTree::Name { ident: top_ident },
        Some(alias) => UseTree::Rename { ident: top_ident, rename: alias.clone() },
    };
    let mut k: usize = n - 1;
    assert(names.subrange(k as int, n as int)[0] == names[k as int]);
    while k > 0
        invariant
            k < n,
            n == segments.len(),
            names == idents_view(segments@),
            tree@ == use_tree_of(names.subrange(k as int, n as int), alias),
        decreases k,
    {
        k -= 1;
        proof {
            let now = names.subrange(k as int, n as int);
            assert(now.drop_first() =~= names.subrange(k + 1, n as int));
            assert(now[0] == segments[k as int]@);
        }
        tree = UseTree::Path { ident: segments[k].clone(), tree: Box::new(tree) };
    }
    assert(names.subrange(0, n as int) =~= names);
    let attrs = Vec::new();
    assert(attrs_view(attrs@) =~= Seq::<AttributeView>::empty());
    ItemUse { attrs, leading_colon: item_import.path.leading_colon, tree }
}

pub fn item_uses_from_item_imports(item_imports: &[ItemImport]) -> (r: Vec<ItemUse>)
    requires
        imports_wf(item_imports_view(item_imports@)),
    ensures
        item_uses_view(r@) == item_uses_of(item_imports_view(item_imports@)),
{
    let mut buf: Vec<ItemUse> = Vec::new();
    let mut i: usize = 0;
    while i < item_imports.len()
        invariant
            i <= item_imports.len(),
            imports_wf(item_imports_view(item_imports@)),
            buf.len() == i,
            forall|j: int| 0 <= j < i ==> (#[trigger] buf[j])@ == item_use_of(item_imports[j]@),
        decreases item_imports.len() - i,
    {
        assert(item_imports_view(item_imports@)[i as int] == item_imports[i as int]@);
        buf.push(item_use_from_item_import(&item_imports[i]));
        i += 1;
    }
    assert(item_uses_view(buf@) =~= item_uses_of(item_imports_view(item_imports@)));
    buf
}

} // verus!
