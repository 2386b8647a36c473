//! The imports of one invocation: which names stand for which paths, for
//! each of the two variants.
use crate::ast::token::{clone_idents, idents_view, Ident, IdentView, Span};
use crate::ast::use_tree::{use_trees_view, UseTree, UseTreeView};
use crate::error::{ErrorKind, ExpandError};
use crate::utils::{imports_wf, PathWithoutArgs, PathWithoutArgsView};
use vstd::pervasive::VecAdditionalExecFns;
use vstd::prelude::*;

verus! {

/// One imported name: the path it stands for and the name it goes by, if
/// that is not the last segment of the path.
#[derive(Debug, PartialEq, Eq)]
pub struct ItemImport {
    pub path: PathWithoutArgs,
    pub alias: Option<Ident>,
}

pub struct ItemImportView {
    pub path: PathWithoutArgsView,
    pub alias: Option<IdentView>,
}

impl View for ItemImport {
    type V = ItemImportView;

    open spec fn view(&self) -> ItemImportView {
        ItemImportView {
            path: self.path@,
            alias: match self.alias {
                Some(a) => Some(a@),
                None => None,
            },
        }
    }
}

impl Clone for ItemImport {
    fn clone(&self) -> (r: Self)
        ensures
            r@ == self@,
    {
        ItemImport {
            path: self.path.clone(),
            alias: match &self.alias {
                Some(a) => Some(a.clone()),
                None => None,
            },
        }
    }
}

/// The views of a list of imports.
pub open spec fn item_imports_view(v: Seq<ItemImport>) -> Seq<ItemImportView> {
    Seq::new(v.len(), |i: int| v[i]@)
}

/// The imports of one invocation, one list for each variant. An import that
/// is available to both variants stands in both lists.
#[derive(Debug, PartialEq, Eq)]
pub struct Args {
    pub item_imports_for_async: Vec<ItemImport>,
    pub item_imports_for_sync: Vec<ItemImport>,
}

/// Which variants an import is for.
#[derive(Clone, Copy, Debug, PartialEq, Eq, Structural)]
pub enum Availability {
    Both,
    SyncOnly,
    AsyncOnly,
}

impl Availability {
    /// The availability that a tag stands for.
    pub open spec fn of_tag(tag: IdentView) -> Result<Availability, ExpandError> {
        if tag.name == "if_async"@ {
            Ok(Availability::AsyncOnly)
        } else if tag.name == "if_sync"@ {
            Ok(Availability::SyncOnly)
        } else {
            Err(ExpandError { kind: ErrorKind::UnknownTag, span: tag.span })
        }
    }

    /// Reads the tag of an import: `if_async` or `if_sync`. An import without
    /// a tag is for both variants.
    pub fn from_tag(tag: &Ident) -> (r: Result<Availability, ExpandError>)
        ensures
            r == Availability::of_tag(tag@),
    {
        if tag.is("if_async") {
            Ok(Availability::AsyncOnly)
        } else if tag.is("if_sync") {
            Ok(Availability::SyncOnly)
        } else {
            Err(ExpandError { kind: ErrorKind::UnknownTag, span: tag.span })
        }
    }

    pub open spec fn for_sync(self) -> bool {
        self != Availability::AsyncOnly
    }

    pub open spec fn for_async(self) -> bool {
        self != Availability::SyncOnly
    }
}

/// How many nodes a tree of imports has.
pub open spec fn tree_size(tree: UseTreeView) -> nat
    decreases tree,
{
    match tree {
        UseTreeView::Path { tree, .. } => 1 + tree_size(*tree),
        UseTreeView::Group { items } => 1 + trees_size(items),
        _ => 1,
    }
}

/// How many nodes the trees have together.
pub open spec fn trees_size(trees: Seq<UseTreeView>) -> nat
    decreases trees,
{
    if trees.len() == 0 {
        0
    } else {
        tree_size(trees.last()) + trees_size(trees.drop_last())
    }
}

/// A tree that is still to be taken apart, with the path that leads to it.
pub type Pending = (Seq<IdentView>, UseTreeView);

/// One imported name: its path, and its alias if it has one.
pub type Leaf = (Seq<IdentView>, Option<IdentView>);

/// How many nodes the trees that are still to be taken apart have together.
pub open spec fn pending_size(queue: Seq<Pending>) -> nat
    decreases queue.len(),
{
    if queue.len() == 0 {
        0
    } else {
        tree_size(queue.last().1) + pending_size(queue.drop_last())
    }
}

/// The trees of a group, each with the path that leads to the group.
pub open spec fn group_members(parent: Seq<IdentView>, items: Seq<UseTreeView>) -> Seq<Pending> {
    Seq::new(items.len(), |i: int| (parent, items[i]))
}

pub proof fn lemma_pending_size_add(a: Seq<Pending>, b: Seq<Pending>)
    ensures
        pending_size(a + b) == pending_size(a) + pending_size(b),
    decreases b.len(),
{
    if b.len() == 0 {
        assert(a + b =~= a);
    } else {
        assert((a + b).drop_last() =~= a + b.drop_last());
        assert((a + b).last() == b.last());
        lemma_pending_size_add(a, b.drop_last());
    }
}

pub proof fn lemma_pending_size_one(p: Pending)
    ensures
        pending_size(seq![p]) == tree_size(p.1),
{
    assert(seq![p].drop_last() =~= Seq::<Pending>::empty());
    assert(seq![p].last() == p);
    reveal_with_fuel(pending_size, 2);
}

pub proof fn lemma_pending_size_first(queue: Seq<Pending>)
    requires
        queue.len() > 0,
    ensures
        pending_size(queue) == tree_size(queue.first().1) + pending_size(queue.drop_first()),
{
    assert(queue =~= seq![queue.first()] + queue.drop_first());
    lemma_pending_size_add(seq![queue.first()], queue.drop_first());
    lemma_pending_size_one(queue.first());
}

pub proof fn lemma_pending_size_group(parent: Seq<IdentView>, items: Seq<UseTreeView>)
    ensures
        pending_size(group_members(parent, items)) == trees_size(items),
    decreases items.len(),
{
    if items.len() > 0 {
        assert(group_members(parent, items).drop_last() =~= group_members(
            parent,
            items.drop_last(),
        ));
        lemma_pending_size_group(parent, items.drop_last());
    }
}

/// The trees that are to be taken apart once the first tree of the queue is:
/// the other trees, and behind them what the first tree holds.
pub open spec fn queue_after(queue: Seq<Pending>) -> Seq<Pending> {
    let (parent, tree) = queue.first();
    match tree {
        UseTreeView::Path { ident, tree } => queue.drop_first().push((parent.push(ident), *tree)),
        UseTreeView::Group { items } => queue.drop_first() + group_members(parent, items),
        _ => queue.drop_first(),
    }
}

pub proof fn lemma_queue_after_smaller(queue: Seq<Pending>)
    requires
        queue.len() > 0,
    ensures
        pending_size(queue_after(queue)) < pending_size(queue),
{
    let (parent, tree) = queue.first();
    let rest = queue.drop_first();
    lemma_pending_size_first(queue);
    match tree {
        UseTreeView::Path { ident, tree } => {
            let next = (parent.push(ident), *tree);
            assert(rest.push(next) =~= rest + seq![next]);
            lemma_pending_size_add(rest, seq![next]);
            lemma_pending_size_one(next);
        },
        UseTreeView::Group { items } => {
            lemma_pending_size_add(rest, group_members(parent, items));
            lemma_pending_size_group(parent, items);
        },
        _ => {},
    }
}

/// The names that the trees of the queue import, level by level: the names
/// of the first tree's own level come before what its groups and paths hold.
/// A `*` anywhere in the trees is an error at its place.
pub open spec fn leaves_of(queue: Seq<Pending>) -> Result<Seq<Leaf>, ExpandError>
    decreases pending_size(queue),
{
    if queue.len() == 0 {
        Ok(Seq::empty())
    } else {
        let (parent, tree) = queue.first();
        proof {
            lemma_queue_after_smaller(queue);
        }
        match tree {
            UseTreeView::Glob { span } => Err(ExpandError { kind: ErrorKind::GlobImport, span }),
            UseTreeView::Name { ident } => match leaves_of(queue_after(queue)) {
                Err(e) => Err(e),
                Ok(leaves) => Ok(seq![(parent.push(ident), None::<IdentView>)] + leaves),
            },
            UseTreeView::Rename { ident, rename } => match leaves_of(queue_after(queue)) {
                Err(e) => Err(e),
                Ok(leaves) => Ok(seq![(parent.push(ident), Some(rename))] + leaves),
            },
            _ => leaves_of(queue_after(queue)),
        }
    }
}

/// Every imported name has a path: no leaf is empty.
pub proof fn lemma_leaves_have_names(queue: Seq<Pending>)
    ensures
        leaves_of(queue) matches Ok(leaves) ==> forall|i: int|
            0 <= i < leaves.len() ==> (#[trigger] leaves[i]).0.len() > 0,
    decreases pending_size(queue),
{
    if queue.len() > 0 {
        lemma_queue_after_smaller(queue);
        lemma_leaves_have_names(queue_after(queue));
        if let Ok(leaves) = leaves_of(queue) {
            let later = leaves_of(queue_after(queue))->Ok_0;
            assert forall|i: int| 0 <= i < leaves.len() implies (#[trigger] leaves[i]).0.len()
                > 0 by {
                if leaves.len() > later.len() && i > 0 {
                    assert(leaves[i] == later[i - 1]);
                }
            }
        }
    }
}

/// The import of one leaf.
pub open spec fn import_of_leaf(leaf: Leaf, is_absolute_paths: bool) -> ItemImportView {
    ItemImportView {
        path: PathWithoutArgsView { leading_colon: is_absolute_paths, segments: leaf.0 },
        alias: leaf.1,
    }
}

/// The imports of the leaves, in their order.
pub open spec fn imports_of_leaves(leaves: Seq<Leaf>, is_absolute_paths: bool) -> Seq<
    ItemImportView,
> {
    Seq::new(leaves.len(), |i: int| import_of_leaf(leaves[i], is_absolute_paths))
}

/// The imports that one `use` directive gives to each variant: one import
/// for each name of its tree, for the variants that the directive is for.
pub open spec fn imports_of_use_tree(
    tree: UseTreeView,
    is_absolute_paths: bool,
    availability: Availability,
) -> Result<(Seq<ItemImportView>, Seq<ItemImportView>), ExpandError> {
    match leaves_of(seq![(Seq::<IdentView>::empty(), tree)]) {
        Err(e) => Err(e),
        Ok(leaves) => {
            let imports = imports_of_leaves(leaves, is_absolute_paths);
            Ok(
                (
                    if availability.for_sync() {
                        imports
                    } else {
                        Seq::empty()
                    },
                    if availability.for_async() {
                        imports
                    } else {
                        Seq::empty()
                    },
                ),
            )
        },
    }
}

/// The view of a tree that is still to be taken apart.
pub open spec fn pending_view(p: (Vec<Ident>, UseTree)) -> Pending {
    (idents_view(p.0@), p.1@)
}

/// The view of the imports of the two variants, the blocking one first, or
/// of the error in their place.
pub open spec fn args_result_view(r: Result<Args, ExpandError>) -> Result<
    (Seq<ItemImportView>, Seq<ItemImportView>),
    ExpandError,
> {
    match r {
        Ok(args) => Ok(
            (
                item_imports_view(args.item_imports_for_sync@),
                item_imports_view(args.item_imports_for_async@),
            ),
        ),
        Err(e) => Err(e),
    }
}

/// Takes the first tree of the queue apart. What it holds goes to the end
/// of the queue; a name that it imports goes to the end of `found`.
fn take_apart(
    parent: Vec<Ident>,
    item: UseTree,
    queue: &mut Vec<(Vec<Ident>, UseTree)>,
    found: &mut Vec<(Vec<Ident>, Option<Ident>)>,
) -> (r: Result<(), ExpandError>)
    ensures
        match r {
            Err(e) => item@ == (UseTreeView::Glob { span: e.span }) && e.kind
                == ErrorKind::GlobImport,
            Ok(_) => !(item@ is Glob),
        },
        r is Ok ==> final(queue).len() >= old(queue).len(),
        r is Ok ==> forall|j: int|
            0 <= j < old(queue).len() ==> #[trigger] final(queue)[j] == old(queue)[j],
        r is Ok ==> Seq::new(
            (final(queue).len() - old(queue).len()) as nat,
            |j: int| pending_view(final(queue)[old(queue).len() + j]),
        ) == queue_after(seq![(idents_view(parent@), item@)]),
        r is Ok ==> final(found).len() >= old(found).len(),
        r is Ok ==> forall|j: int|
            0 <= j < old(found).len() ==> #[trigger] final(found)[j] == old(found)[j],
        r is Ok ==> (match item@ {
            UseTreeView::Name { ident } => final(found).len() == old(found).len() + 1
                && leaf_view(final(found)[old(found).len() as int]) == (
                idents_view(parent@).push(ident),
                None::<IdentView>,
            ),
            UseTreeView::Rename { ident, rename } => final(found).len() == old(found).len() + 1
                && leaf_view(final(found)[old(found).len() as int]) == (
                idents_view(parent@).push(ident),
                Some(rename),
            ),
            _ => final(found).len() == old(found).len(),
        }),
{
    let ghost parent_view = idents_view(parent@);
    let ghost start = queue.len();
    let ghost after = queue_after(seq![(parent_view, item@)]);
    assert(seq![(parent_view, item@)].drop_first() =~= Seq::<Pending>::empty());
    let mut parent = parent;
    match item {
        UseTree::Path { ident, tree } => {
            let ghost pushed = parent_view.push(ident@);
            parent.push(ident);
            assert(idents_view(parent@) =~= pushed);
            queue.push((parent, *tree));
            assert(Seq::new(
                (queue.len() - start) as nat,
                |j: int| pending_view(queue[start + j]),
            ) =~= after);
            Ok(())
        },
        UseTree::Group { items } => {
            let ghost members = use_trees_view(items@);
            let mut items = items;
            let n = items.len();
            let mut k: usize = 0;
            while k < n
                invariant
                    k <= n,
                    n == items.len(),
                    members.len() == n,
                    parent_view == idents_view(parent@),
                    start == old(queue).len(),
                    queue.len() == start + k,
                    forall|j: int| 0 <= j < start ==> #[trigger] queue[j] == old(queue)[j],
                    forall|j: int| k <= j < n ==> (#[trigger] items[j])@ == members[j],
                    forall|j: int|
                        0 <= j < k ==> pending_view(#[trigger] queue[start + j]) == (
                            parent_view,
                            members[j],
                        ),
                decreases n - k,
            {
                let mut member = UseTree::Glob { span: Span::call_site() };
                items.set_and_swap(k, &mut member);
                queue.push((clone_idents(&parent), member));
                k += 1;
            }
            assert(Seq::new(
                (queue.len() - start) as nat,
                |j: int| pending_view(queue[start + j]),
            ) =~= after);
            Ok(())
        },
        UseTree::Name { ident } => {
            let ghost pushed = parent_view.push(ident@);
            parent.push(ident);
            assert(idents_view(parent@) =~= pushed);
            found.push((parent, None));
            assert(Seq::new(
                (queue.len() - start) as nat,
                |j: int| pending_view(queue[start + j]),
            ) =~= after);
            Ok(())
        },
        UseTree::Rename { ident, rename } => {
            let ghost pushed = parent_view.push(ident@);
            parent.push(ident);
            assert(idents_view(parent@) =~= pushed);
            found.push((parent, Some(rename)));
            assert(Seq::new(
                (queue.len() - start) as nat,
                |j: int| pending_view(queue[start + j]),
            ) =~= after);
            Ok(())
        },
        UseTree::Glob { span } => Err(ExpandError { kind: ErrorKind::GlobImport, span }),
    }
}

/// The view of one imported name.
pub open spec fn leaf_view(leaf: (Vec<Ident>, Option<Ident>)) -> Leaf {
    (
        idents_view(leaf.0@),
        match leaf.1 {
            Some(alias) => Some(alias@),
            None => None,
        },
    )
}

/// The views of a list of imported names.
pub open spec fn leaves_view(leaves: Seq<(Vec<Ident>, Option<Ident>)>) -> Seq<Leaf> {
    Seq::new(leaves.len(), |i: int| leaf_view(leaves[i]))
}

/// The views of the trees of the queue from `head` on.
pub open spec fn pending_from(queue: Seq<(Vec<Ident>, UseTree)>, head: int) -> Seq<Pending> {
    Seq::new((queue.len() - head) as nat, |j: int| pending_view(queue[head + j]))
}

/// The names of the queue with the names that were found before them.
pub open spec fn found_and(found: Seq<Leaf>, queue: Seq<Pending>) -> Result<Seq<Leaf>, ExpandError> {
    match leaves_of(queue) {
        Err(e) => Err(e),
        Ok(leaves) => Ok(found + leaves),
    }
}

/// The names that a tree imports, level by level.
fn leaves_from_use_tree(use_tree: UseTree) -> (r: Result<Vec<(Vec<Ident>, Option<Ident>)>, ExpandError>)
    ensures
        leaves_of(seq![(Seq::<IdentView>::empty(), use_tree@)]) == match r {
            Ok(found) => Ok(leaves_view(found@)),
            Err(e) => Err(e),
        },
{
    let ghost initial = seq![(Seq::<IdentView>::empty(), use_tree@)];
    let mut found: Vec<(Vec<Ident>, Option<Ident>)> = Vec::new();
    let mut queue: Vec<(Vec<Ident>, UseTree)> = Vec::new();
    let root: Vec<Ident> = Vec::new();
    assert(idents_view(root@) =~= Seq::<IdentView>::empty());
    queue.push((root, use_tree));
    let mut head: usize = 0;
    proof {
        assert(pending_from(queue@, 0) =~= initial);
        assert(leaves_view(found@) =~= Seq::<Leaf>::empty());
        match leaves_of(initial) {
            Ok(leaves) => assert(Seq::<Leaf>::empty() + leaves =~= leaves),
            Err(_) => {},
        }
    }
    while head < queue.len()
        invariant
            head <= queue.len(),
            initial == seq![(Seq::<IdentView>::empty(), use_tree@)],
            leaves_of(initial) == found_and(leaves_view(found@), pending_from(queue@, head as int)),
        decreases pending_size(pending_from(queue@, head as int)),
    {
        let ghost before = pending_from(queue@, head as int);
        let ghost found_before = leaves_view(found@);
        let ghost queue_before = queue@;
        let mut first: (Vec<Ident>, UseTree) = (
            Vec::new(),
            UseTree::Glob { span: Span::call_site() },
        );
        queue.set_and_swap(head, &mut first);
        head += 1;
        let (parent, item) = first;
        assert(before.first() == (idents_view(parent@), item@));
        assert(pending_from(queue@, head as int) =~= before.drop_first());
        let ghost taken = queue@;
        match take_apart(parent, item, &mut queue, &mut found) {
            Err(e) => {
                return Err(e);
            },
            Ok(_) => {},
        }
        proof {
            let first_view = before.first();
            let added = Seq::new(
                (queue.len() - taken.len()) as nat,
                |j: int| pending_view(queue[taken.len() + j]),
            );
            assert(seq![first_view].drop_first() =~= Seq::<Pending>::empty());
            assert(queue_after(before) =~= before.drop_first() + added) by {
                assert(seq![first_view].first() == first_view);
            }
            assert(pending_from(queue@, head as int) =~= before.drop_first() + added);
            lemma_queue_after_smaller(before);
            let now = leaves_view(found@);
            match first_view.1 {
                UseTreeView::Name { ident } => {
                    assert(now =~= found_before.push((first_view.0.push(ident), None::<IdentView>)));
                    match leaves_of(queue_after(before)) {
                        Ok(leaves) => assert(found_before + (seq![
                            (first_view.0.push(ident), None::<IdentView>),
                        ] + leaves) =~= now + leaves),
                        Err(_) => {},
                    }
                },
                UseTreeView::Rename { ident, rename } => {
                    assert(now =~= found_before.push((first_view.0.push(ident), Some(rename))));
                    match leaves_of(queue_after(before)) {
                        Ok(leaves) => assert(found_before + (seq![
                            (first_view.0.push(ident), Some(rename)),
                        ] + leaves) =~= now + leaves),
                        Err(_) => {},
                    }
                },
                _ => {
                    assert(now =~= found_before);
                },
            }
        }
    }
    proof {
        assert(pending_from(queue@, head as int) =~= Seq::<Pending>::empty());
        assert(leaves_view(found@) + Seq::<Leaf>::empty() =~= leaves_view(found@));
    }
    Ok(found)
}

/// Copies of the imports.
pub fn clone_item_imports(v: &Vec<ItemImport>) -> (r: Vec<ItemImport>)
    ensures
        item_imports_view(r@) == item_imports_view(v@),
{
    let mut out: Vec<ItemImport> = Vec::new();
    let mut i: usize = 0;
    while i < v.len()
        invariant
            i <= v.len(),
            out.len() == i,
            forall|j: int| 0 <= j < i ==> (#[trigger] out[j])@ == v[j]@,
        decreases v.len() - i,
    {
        out.push(v[i].clone());
        i += 1;
    }
    assert(item_imports_view(out@) =~= item_imports_view(v@));
    out
}

/// The imports that one `use` directive gives to each variant.
///
/// Every name of the tree gives one import, a name inside a group as well as
/// a name of its own. The imports go to the variants that the directive is
/// for. A `*` is rejected.
pub fn item_imports_from_use_tree(
    use_tree: UseTree,
    is_absolute_paths: bool,
    availability: Availability,
) -> (r: Result<Args, ExpandError>)
    ensures
        args_result_view(r) == imports_of_use_tree(use_tree@, is_absolute_paths, availability),
        r matches Ok(args) ==> imports_wf(item_imports_view(args.item_imports_for_sync@))
            && imports_wf(item_imports_view(args.item_imports_for_async@)),
{
    proof {
        lemma_leaves_have_names(seq![(Seq::<IdentView>::empty(), use_tree@)]);
    }
    let mut paths_and_aliases = match leaves_from_use_tree(use_tree) {
        Ok(found) => found,
        Err(e) => {
            return Err(e);
        },
    };
    let ghost leaves = leaves_view(paths_and_aliases@);
    let mut imports: Vec<ItemImport> = Vec::new();
    let n = paths_and_aliases.len();
    let mut i: usize = 0;
    while i < n
        invariant
            i <= n,
            n == paths_and_aliases.len(),
            leaves.len() == n,
            imports.len() == i,
            forall|j: int| i <= j < n ==> leaf_view(#[trigger] paths_and_aliases[j]) == leaves[j],
            forall|j: int|
                0 <= j < i ==> (#[trigger] imports[j])@ == import_of_leaf(
                    leaves[j],
                    is_absolute_paths,
                ),
        decreases n - i,
    {
        let mut leaf: (Vec<Ident>, Option<Ident>) = (Vec::new(), None);
        paths_and_aliases.set_and_swap(i, &mut leaf);
        let (path, alias) = leaf;
        let path = PathWithoutArgs::from_idents(path, is_absolute_paths);
        imports.push(ItemImport { path, alias });
        i += 1;
    }
    assert(item_imports_view(imports@) =~= imports_of_leaves(leaves, is_absolute_paths));
    let nothing: Vec<ItemImport> = Vec::new();
    assert(item_imports_view(nothing@) =~= Seq::<ItemImportView>::empty());
    match availability {
        Availability::Both => Ok(
            Args { item_imports_for_async: clone_item_imports(&imports), item_imports_for_sync: imports },
        ),
        Availability::AsyncOnly => Ok(
            Args { item_imports_for_async: imports, item_imports_for_sync: nothing },
        ),
        Availability::SyncOnly => Ok(
            Args { item_imports_for_async: nothing, item_imports_for_sync: imports },
        ),
    }
}

impl Args {
    /// No imports.
    pub fn new() -> (r: Args)
        ensures
            imports_wf(item_imports_view(r.item_imports_for_sync@)),
            imports_wf(item_imports_view(r.item_imports_for_async@)),
            item_imports_view(r.item_imports_for_sync@) == Seq::<ItemImportView>::empty(),
            item_imports_view(r.item_imports_for_async@) == Seq::<ItemImportView>::empty(),
    {
        let r = Args { item_imports_for_async: Vec::new(), item_imports_for_sync: Vec::new() };
        assert(item_imports_view(r.item_imports_for_sync@) =~= Seq::<ItemImportView>::empty());
        assert(item_imports_view(r.item_imports_for_async@) =~= Seq::<ItemImportView>::empty());
        r
    }

    /// Adds the imports of one more directive behind the imports that are
    /// there.
    pub fn extend(&mut self, other: Args)
        ensures
            imports_wf(item_imports_view(old(self).item_imports_for_sync@)) && imports_wf(
                item_imports_view(other.item_imports_for_sync@),
            ) ==> imports_wf(item_imports_view(final(self).item_imports_for_sync@)),
            imports_wf(item_imports_view(old(self).item_imports_for_async@)) && imports_wf(
                item_imports_view(other.item_imports_for_async@),
            ) ==> imports_wf(item_imports_view(final(self).item_imports_for_async@)),
            item_imports_view(final(self).item_imports_for_sync@) == item_imports_view(
                old(self).item_imports_for_sync@,
            ) + item_imports_view(other.item_imports_for_sync@),
            item_imports_view(final(self).item_imports_for_async@) == item_imports_view(
                old(self).item_imports_for_async@,
            ) + item_imports_view(other.item_imports_for_async@),
    {
        let ghost sync_before = item_imports_view(self.item_imports_for_sync@);
        let ghost async_before = item_imports_view(self.item_imports_for_async@);
        let mut more = other;
        self.item_imports_for_sync.append(&mut more.item_imports_for_sync);
        self.item_imports_for_async.append(&mut more.item_imports_for_async);
        assert(item_imports_view(self.item_imports_for_sync@) =~= sync_before + item_imports_view(
            other.item_imports_for_sync@,
        ));
        assert(item_imports_view(self.item_imports_for_async@) =~= async_before
            + item_imports_view(other.item_imports_for_async@));
        assert forall|i: int|
            imports_wf(sync_before) && imports_wf(item_imports_view(other.item_imports_for_sync@))
                && 0 <= i < self.item_imports_for_sync.len() implies (#[trigger] item_imports_view(
            self.item_imports_for_sync@,
        )[i]).path.segments.len() > 0 by {
            if i < sync_before.len() {
                assert(item_imports_view(self.item_imports_for_sync@)[i] == sync_before[i]);
            } else {
                assert(item_imports_view(self.item_imports_for_sync@)[i] == item_imports_view(
                    other.item_imports_for_sync@,
                )[i - sync_before.len()]);
            }
        }
        assert forall|i: int|
            imports_wf(async_before) && imports_wf(
                item_imports_view(other.item_imports_for_async@),
            ) && 0 <= i < self.item_imports_for_async.len() implies (
        #[trigger] item_imports_view(self.item_imports_for_async@)[i]).path.segments.len()
            > 0 by {
            if i < async_before.len() {
                assert(item_imports_view(self.item_imports_for_async@)[i] == async_before[i]);
            } else {
                assert(item_imports_view(self.item_imports_for_async@)[i] == item_imports_view(
                    other.item_imports_for_async@,
                )[i - async_before.len()]);
            }
        }
    }
}

} // verus!
