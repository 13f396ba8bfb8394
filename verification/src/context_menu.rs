//! Context-menu items and submenus, and the handlers they carry.
//!
//! The tree is generic over the handler type `H`: each item carries the
//! handler that runs when the user clicks it.

use vstd::prelude::*;
use crate::text::IntoText;
use crate::registry::handler_clones;

verus! {

/// A clickable item in the session context menu.
pub struct ContextMenuItem<H> {
    id: String,
    label: String,
    handler: H,
}

impl<H> ContextMenuItem<H> {
    /// The item's identifier.
    pub closed spec fn id_view(&self) -> Seq<char> {
        self.id@
    }

    /// The item's display label.
    pub closed spec fn label_view(&self) -> Seq<char> {
        self.label@
    }

    /// The handler that runs when the item is clicked.
    pub closed spec fn handler_view(&self) -> H {
        self.handler
    }

    /// Creates a new context-menu item with the given `id`, display `label` and handler.
    pub fn new<I: IntoText, L: IntoText>(id: I, label: L, handler: H) -> (r: Self)
        ensures
            r.id_view() == id.text_view(),
            r.label_view() == label.text_view(),
            r.handler_view() == handler,
    {
        Self { id: id.into_text(), label: label.into_text(), handler }
    }

    /// The item's identifier.
    pub fn id(&self) -> (r: &str)
        ensures
            r@ == self.id_view(),
    {
        self.id.as_str()
    }

    /// The item's display label.
    pub fn label(&self) -> (r: &str)
        ensures
            r@ == self.label_view(),
    {
        self.label.as_str()
    }

    /// The handler that runs when the item is clicked.
    pub fn handler(&self) -> (r: &H)
        ensures
            *r == self.handler_view(),
    {
        &self.handler
    }
}

/// A submenu that groups context-menu items under a shared label.
pub struct ContextMenuSubmenu<H> {
    label: String,
    children: Vec<ContextMenuNode<H>>,
}

impl<H> ContextMenuSubmenu<H> {
    /// The submenu's display label.
    pub closed spec fn label_view(&self) -> Seq<char> {
        self.label@
    }

    /// The submenu's children, in order.
    pub closed spec fn children_view(&self) -> Seq<ContextMenuNode<H>> {
        self.children@
    }

    /// Creates an empty submenu with the given display `label`.
    pub fn new<L: IntoText>(label: L) -> (r: Self)
        ensures
            r.label_view() == label.text_view(),
            r.children_view() == Seq::<ContextMenuNode<H>>::empty(),
    {
        Self { label: label.into_text(), children: Vec::new() }
    }

    /// Appends all nodes from `children`, draining the provided vec.
    pub fn with_children(self, children: &mut Vec<ContextMenuNode<H>>) -> (r: Self)
        ensures
            r.label_view() == self.label_view(),
            r.children_view() == self.children_view() + old(children)@,
            final(children)@ == Seq::<ContextMenuNode<H>>::empty(),
    {
        let mut s = self;
        s.children.append(children);
        s
    }

    /// Appends a single child node (item or nested submenu).
    pub fn with_child(self, child: ContextMenuNode<H>) -> (r: Self)
        ensures
            r.label_view() == self.label_view(),
            r.children_view() == self.children_view().push(child),
    {
        let mut s = self;
        s.children.push(child);
        s
    }

    /// The submenu's display label.
    pub fn label(&self) -> (r: &str)
        ensures
            r@ == self.label_view(),
    {
        self.label.as_str()
    }

    /// The submenu's children, in order.
    pub fn children(&self) -> (r: &Vec<ContextMenuNode<H>>)
        ensures
            r@ == self.children_view(),
    {
        &self.children
    }
}

/// A node in the context-menu tree, either a leaf [`Item`](ContextMenuNode::Item)
/// or a [`Submenu`](ContextMenuNode::Submenu).
pub enum ContextMenuNode<H> {
    Submenu(ContextMenuSubmenu<H>),
    Item(ContextMenuItem<H>),
}

/// The (id, handler) pairs of every item in the tree of `node`, depth first,
/// in the order of the children.
pub open spec fn menu_handlers<H>(node: ContextMenuNode<H>) -> Seq<(Seq<char>, H)>
    decreases node, 0int,
{
    match node {
        ContextMenuNode::Item(item) => seq![(item.id_view(), item.handler_view())],
        ContextMenuNode::Submenu(sub) => submenu_handlers(sub, sub.children_view().len() as int),
    }
}

/// The (id, handler) pairs of the trees of the first `k` children of `sub`,
/// one tree after another.
pub closed spec fn submenu_handlers<H>(sub: ContextMenuSubmenu<H>, k: int) -> Seq<(Seq<char>, H)>
    decreases sub, k,
{
    if k <= 0 || k > sub.children@.len() {
        Seq::empty()
    } else {
        submenu_handlers(sub, k - 1) + menu_handlers(sub.children@[k - 1])
    }
}

/// The (id, handler) pairs of the trees of `nodes`, one tree after another.
pub open spec fn nodes_handlers<H>(nodes: Seq<ContextMenuNode<H>>) -> Seq<(Seq<char>, H)>
    decreases nodes.len(),
{
    if nodes.len() == 0 {
        Seq::empty()
    } else {
        nodes_handlers(nodes.drop_last()) + menu_handlers(nodes.last())
    }
}

/// The handlers of the first `k` children are those of the trees of the
/// first `k` children.
proof fn lemma_submenu_handlers<H>(sub: ContextMenuSubmenu<H>, k: int)
    requires
        0 <= k <= sub.children@.len(),
    ensures
        submenu_handlers(sub, k) == nodes_handlers(sub.children@.take(k)),
    decreases k,
{
    if k > 0 {
        lemma_submenu_handlers(sub, k - 1);
        assert(sub.children@.take(k).drop_last() =~= sub.children@.take(k - 1));
    } else {
        assert(sub.children@.take(k) =~= Seq::<ContextMenuNode<H>>::empty());
    }
}

/// A submenu yields the handlers of its children's trees, one child after
/// another, in the order of the children.
pub proof fn law_submenu_handlers<H>(sub: ContextMenuSubmenu<H>)
    ensures
        menu_handlers(ContextMenuNode::Submenu(sub)) == nodes_handlers(sub.children_view()),
{
    lemma_submenu_handlers(sub, sub.children@.len() as int);
    assert(sub.children@.take(sub.children@.len() as int) =~= sub.children@);
}

/// A submenu without children yields no handlers.
pub proof fn law_empty_submenu_has_no_handlers<H>(sub: ContextMenuSubmenu<H>)
    requires
        sub.children_view().len() == 0,
    ensures
        menu_handlers(ContextMenuNode::Submenu(sub)) == Seq::<(Seq<char>, H)>::empty(),
{
    law_submenu_handlers(sub);
}

/// A single item yields exactly one pair: the item's id, character for
/// character as the item was given it (what its `id` accessor returns), and
/// the item's own handler. The host calls the handler back by that id.
pub proof fn law_item_registered_under_its_id<H>(item: ContextMenuItem<H>)
    ensures
        menu_handlers(ContextMenuNode::Item(item)).len() == 1,
        menu_handlers(ContextMenuNode::Item(item))[0].0 == item.id_view(),
        menu_handlers(ContextMenuNode::Item(item))[0].1 == item.handler_view(),
{
}

/// The handlers of a concatenation of trees are concatenated.
proof fn lemma_nodes_handlers_concat<H>(a: Seq<ContextMenuNode<H>>, b: Seq<ContextMenuNode<H>>)
    ensures
        nodes_handlers(a + b) == nodes_handlers(a) + nodes_handlers(b),
    decreases b.len(),
{
    if b.len() == 0 {
        assert(a + b =~= a);
        assert(nodes_handlers(a) + nodes_handlers(b) =~= nodes_handlers(a));
    } else {
        lemma_nodes_handlers_concat(a, b.drop_last());
        assert((a + b).drop_last() =~= a + b.drop_last());
        assert((a + b).last() == b.last());
        assert(nodes_handlers(a) + (nodes_handlers(b.drop_last()) + menu_handlers(b.last())) =~= (
        nodes_handlers(a) + nodes_handlers(b.drop_last())) + menu_handlers(b.last()));
    }
}

/// Adding children to a submenu adds their items' handlers after those it
/// already had, in order: what `with_child` and `with_children` build is
/// registered in the order the children were added.
pub proof fn law_added_children_follow<H>(
    before: ContextMenuSubmenu<H>,
    added: Seq<ContextMenuNode<H>>,
    after: ContextMenuSubmenu<H>,
)
    requires
        after.children_view() == before.children_view() + added,
    ensures
        menu_handlers(ContextMenuNode::Submenu(after)) == menu_handlers(ContextMenuNode::Submenu(before)) + nodes_handlers(added),
{
    law_submenu_handlers(before);
    law_submenu_handlers(after);
    lemma_nodes_handlers_concat(before.children_view(), added);
}

/// `with_child` adds the handlers of the child's tree after those the
/// submenu already had.
pub proof fn law_with_child_follows<H>(
    before: ContextMenuSubmenu<H>,
    child: ContextMenuNode<H>,
    after: ContextMenuSubmenu<H>,
)
    requires
        after.children_view() == before.children_view().push(child),
    ensures
        menu_handlers(ContextMenuNode::Submenu(after)) == menu_handlers(ContextMenuNode::Submenu(before)) + menu_handlers(child),
{
    assert(before.children_view().push(child) =~= before.children_view() + seq![child]);
    law_added_children_follow(before, seq![child], after);
    let one = seq![child];
    assert(one.drop_last() =~= Seq::<ContextMenuNode<H>>::empty());
    assert(one.last() == child);
    assert(nodes_handlers(one.drop_last()) =~= Seq::<(Seq<char>, H)>::empty());
    assert(nodes_handlers(one) =~= menu_handlers(child));
}

impl<H: Clone> ContextMenuNode<H> {
    /// The (id, handler) pairs of every item in this tree, depth first.
    pub fn extract_handlers(&self) -> (r: Vec<(String, H)>)
        ensures
            handler_clones(r@, menu_handlers(*self)),
        decreases self,
    {
        match self {
            ContextMenuNode::Item(item) => {
                let mut r: Vec<(String, H)> = Vec::new();
                r.push((item.id.clone(), item.handler.clone()));
                r
            },
            ContextMenuNode::Submenu(sub) => {
                let mut r: Vec<(String, H)> = Vec::new();
                let n = sub.children.len();
                let mut k: usize = 0;
                while k < n
                    invariant
                        *self == ContextMenuNode::Submenu(*sub),
                        n == sub.children@.len(),
                        0 <= k <= n,
                        handler_clones(r@, submenu_handlers(*sub, k as int)),
                    decreases n - k,
                {
                    proof {
                        assert(decreases_to!(*self => self->Submenu_0));
                    }
                    let mut part = sub.children[k].extract_handlers();
                    let ghost before = r@;
                    let ghost part_view = part@;
                    r.append(&mut part);
                    proof {
                        let target = submenu_handlers(*sub, k + 1);
                        assert(target == submenu_handlers(*sub, k as int) + menu_handlers(sub.children@[k as int]));
                        assert forall|i: int| 0 <= i < r@.len() implies (#[trigger] r@[i]).0@ == target[i].0 && cloned(target[i].1, r@[i].1) by {
                            if i < before.len() {
                                assert(r@[i] == before[i]);
                            } else {
                                assert(r@[i] == part_view[i - before.len()]);
                            }
                        }
                    }
                    k += 1;
                }
                r
            },
        }
    }
}

impl<H> From<ContextMenuItem<H>> for ContextMenuNode<H> {
    fn from(item: ContextMenuItem<H>) -> (r: Self)
        ensures
            r == ContextMenuNode::Item(item),
    {
        ContextMenuNode::Item(item)
    }
}

impl<H> vstd::std_specs::convert::FromSpecImpl<ContextMenuItem<H>> for ContextMenuNode<H> {
    open spec fn obeys_from_spec() -> bool {
        true
    }

    open spec fn from_spec(item: ContextMenuItem<H>) -> ContextMenuNode<H> {
        ContextMenuNode::Item(item)
    }
}

impl<H> From<ContextMenuSubmenu<H>> for ContextMenuNode<H> {
    fn from(submenu: ContextMenuSubmenu<H>) -> (r: Self)
        ensures
            r == ContextMenuNode::Submenu(submenu),
    {
        ContextMenuNode::Submenu(submenu)
    }
}

impl<H> vstd::std_specs::convert::FromSpecImpl<ContextMenuSubmenu<H>> for ContextMenuNode<H> {
    open spec fn obeys_from_spec() -> bool {
        true
    }

    open spec fn from_spec(submenu: ContextMenuSubmenu<H>) -> ContextMenuNode<H> {
        ContextMenuNode::Submenu(submenu)
    }
}

} // verus!
