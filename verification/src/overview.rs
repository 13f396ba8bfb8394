//! Overview fields and sections, and the handlers that compute field values.
//!
//! The tree is generic over the handler type `H`: each field carries the
//! handler that computes its value for a session entry.

use vstd::prelude::*;
use crate::text::IntoText;
use crate::registry::handler_clones;

verus! {

/// A single computed field displayed in the Overview section of the Inspector.
pub struct OverviewField<H> {
    id: String,
    label: String,
    handler: H,
}

impl<H> OverviewField<H> {
    /// The field's identifier.
    pub closed spec fn id_view(&self) -> Seq<char> {
        self.id@
    }

    /// The field's display label.
    pub closed spec fn label_view(&self) -> Seq<char> {
        self.label@
    }

    /// The handler that computes the field's value.
    pub closed spec fn handler_view(&self) -> H {
        self.handler
    }

    /// Creates a new overview field with the given `id`, display `label` and handler.
    pub fn new<I: IntoText, L: IntoText>(id: I, label: L, handler: H) -> (r: Self)
        ensures
            r.id_view() == id.text_view(),
            r.label_view() == label.text_view(),
            r.handler_view() == handler,
    {
        Self { id: id.into_text(), label: label.into_text(), handler }
    }

    /// The field's identifier.
    pub fn id(&self) -> (r: &str)
        ensures
            r@ == self.id_view(),
    {
        self.id.as_str()
    }

    /// The field's display label.
    pub fn label(&self) -> (r: &str)
        ensures
            r@ == self.label_view(),
    {
        self.label.as_str()
    }

    /// The handler that computes the field's value.
    pub fn handler(&self) -> (r: &H)
        ensures
            *r == self.handler_view(),
    {
        &self.handler
    }
}

/// A named group of overview fields, displayed as a collapsible section.
pub struct OverviewSection<H> {
    label: String,
    children: Vec<OverviewNode<H>>,
}

impl<H> OverviewSection<H> {
    /// The section's display label.
    pub closed spec fn label_view(&self) -> Seq<char> {
        self.label@
    }

    /// The section's children, in order.
    pub closed spec fn children_view(&self) -> Seq<OverviewNode<H>> {
        self.children@
    }

    /// Creates an empty section with the given display `label`.
    pub fn new<L: IntoText>(label: L) -> (r: Self)
        ensures
            r.label_view() == label.text_view(),
            r.children_view() == Seq::<OverviewNode<H>>::empty(),
    {
        Self { label: label.into_text(), children: Vec::new() }
    }

    /// Appends all nodes from `children`, draining the provided vec.
    pub fn with_children(self, children: &mut Vec<OverviewNode<H>>) -> (r: Self)
        ensures
            r.label_view() == self.label_view(),
            r.children_view() == self.children_view() + old(children)@,
            final(children)@ == Seq::<OverviewNode<H>>::empty(),
    {
        let mut s = self;
        s.children.append(children);
        s
    }

    /// Appends a single child node (field or nested section).
    pub fn with_child(self, child: OverviewNode<H>) -> (r: Self)
        ensures
            r.label_view() == self.label_view(),
            r.children_view() == self.children_view().push(child),
    {
        let mut s = self;
        s.children.push(child);
        s
    }

    /// The section's display label.
    pub fn label(&self) -> (r: &str)
        ensures
            r@ == self.label_view(),
    {
        self.label.as_str()
    }

    /// The section's children, in order.
    pub fn children(&self) -> (r: &Vec<OverviewNode<H>>)
        ensures
            r@ == self.children_view(),
    {
        &self.children
    }
}

/// A node in the overview tree, either a leaf [`Field`](OverviewNode::Field)
/// or a [`Section`](OverviewNode::Section).
pub enum OverviewNode<H> {
    Section(OverviewSection<H>),
    Field(OverviewField<H>),
}

/// The (id, handler) pairs of every field in the tree of `node`, depth first,
/// in the order of the children.
pub open spec fn overview_handlers<H>(node: OverviewNode<H>) -> Seq<(Seq<char>, H)>
    decreases node, 0int,
{
    match node {
        OverviewNode::Field(field) => seq![(field.id_view(), field.handler_view())],
        OverviewNode::Section(sub) => section_handlers(sub, sub.children_view().len() as int),
    }
}

/// The (id, handler) pairs of the trees of the first `k` children of `sub`,
/// one tree after another.
pub closed spec fn section_handlers<H>(sub: OverviewSection<H>, k: int) -> Seq<(Seq<char>, H)>
    decreases sub, k,
{
    if k <= 0 || k > sub.children@.len() {
        Seq::empty()
    } else {
        section_handlers(sub, k - 1) + overview_handlers(sub.children@[k - 1])
    }
}

/// The (id, handler) pairs of the trees of `nodes`, one tree after another.
pub open spec fn overview_nodes_handlers<H>(nodes: Seq<OverviewNode<H>>) -> Seq<(Seq<char>, H)>
    decreases nodes.len(),
{
    if nodes.len() == 0 {
        Seq::empty()
    } else {
        overview_nodes_handlers(nodes.drop_last()) + overview_handlers(nodes.last())
    }
}

/// The handlers of the first `k` children are those of the trees of the
/// first `k` children.
proof fn lemma_section_handlers<H>(sub: OverviewSection<H>, k: int)
    requires
        0 <= k <= sub.children@.len(),
    ensures
        section_handlers(sub, k) == overview_nodes_handlers(sub.children@.take(k)),
    decreases k,
{
    if k > 0 {
        lemma_section_handlers(sub, k - 1);
        assert(sub.children@.take(k).drop_last() =~= sub.children@.take(k - 1));
    } else {
        assert(sub.children@.take(k) =~= Seq::<OverviewNode<H>>::empty());
    }
}

/// A section yields the handlers of its children's trees, one child after
/// another, in the order of the children.
pub proof fn law_section_handlers<H>(sub: OverviewSection<H>)
    ensures
        overview_handlers(OverviewNode::Section(sub)) == overview_nodes_handlers(sub.children_view()),
{
    lemma_section_handlers(sub, sub.children@.len() as int);
    assert(sub.children@.take(sub.children@.len() as int) =~= sub.children@);
}

/// A section without children yields no handlers.
pub proof fn law_empty_section_has_no_handlers<H>(sub: OverviewSection<H>)
    requires
        sub.children_view().len() == 0,
    ensures
        overview_handlers(OverviewNode::Section(sub)) == Seq::<(Seq<char>, H)>::empty(),
{
    law_section_handlers(sub);
}

/// A single field yields exactly one pair: the field's id, character for
/// character as the field was given it (what its `id` accessor returns), and
/// the field's own handler. The host calls the handler back by that id.
pub proof fn law_field_registered_under_its_id<H>(field: OverviewField<H>)
    ensures
        overview_handlers(OverviewNode::Field(field)).len() == 1,
        overview_handlers(OverviewNode::Field(field))[0].0 == field.id_view(),
        overview_handlers(OverviewNode::Field(field))[0].1 == field.handler_view(),
{
}

/// The handlers of a concatenation of trees are concatenated.
proof fn lemma_overview_nodes_handlers_concat<H>(a: Seq<OverviewNode<H>>, b: Seq<OverviewNode<H>>)
    ensures
        overview_nodes_handlers(a + b) == overview_nodes_handlers(a) + overview_nodes_handlers(b),
    decreases b.len(),
{
    if b.len() == 0 {
        assert(a + b =~= a);
        assert(overview_nodes_handlers(a) + overview_nodes_handlers(b) =~= overview_nodes_handlers(a));
    } else {
        lemma_overview_nodes_handlers_concat(a, b.drop_last());
        assert((a + b).drop_last() =~= a + b.drop_last());
        assert((a + b).last() == b.last());
        assert(overview_nodes_handlers(a) + (overview_nodes_handlers(b.drop_last()) + overview_handlers(b.last())) =~= (
        overview_nodes_handlers(a) + overview_nodes_handlers(b.drop_last())) + overview_handlers(b.last()));
    }
}

/// Adding children to a section adds their fields' handlers after those it
/// already had, in order: what `with_child` and `with_children` build is
/// registered in the order the children were added.
pub proof fn law_added_section_children_follow<H>(
    before: OverviewSection<H>,
    added: Seq<OverviewNode<H>>,
    after: OverviewSection<H>,
)
    requires
        after.children_view() == before.children_view() + added,
    ensures
        overview_handlers(OverviewNode::Section(after)) == overview_handlers(OverviewNode::Section(before)) + overview_nodes_handlers(added),
{
    law_section_handlers(before);
    law_section_handlers(after);
    lemma_overview_nodes_handlers_concat(before.children_view(), added);
}

/// `with_child` adds the handlers of the child's tree after those the
/// section already had.
pub proof fn law_section_with_child_follows<H>(
    before: OverviewSection<H>,
    child: OverviewNode<H>,
    after: OverviewSection<H>,
)
    requires
        after.children_view() == before.children_view().push(child),
    ensures
        overview_handlers(OverviewNode::Section(after)) == overview_handlers(OverviewNode::Section(before)) + overview_handlers(child),
{
    assert(before.children_view().push(child) =~= before.children_view() + seq![child]);
    law_added_section_children_follow(before, seq![child], after);
    let one = seq![child];
    assert(one.drop_last() =~= Seq::<OverviewNode<H>>::empty());
    assert(one.last() == child);
    assert(overview_nodes_handlers(one.drop_last()) =~= Seq::<(Seq<char>, H)>::empty());
    assert(overview_nodes_handlers(one) =~= overview_handlers(child));
}

impl<H: Clone> OverviewNode<H> {
    /// The (id, handler) pairs of every field in this tree, depth first.
    pub fn extract_handlers(&self) -> (r: Vec<(String, H)>)
        ensures
            handler_clones(r@, overview_handlers(*self)),
        decreases self,
    {
        match self {
            OverviewNode::Field(field) => {
                let mut r: Vec<(String, H)> = Vec::new();
                r.push((field.id.clone(), field.handler.clone()));
                r
            },
            OverviewNode::Section(sub) => {
                let mut r: Vec<(String, H)> = Vec::new();
                let n = sub.children.len();
                let mut k: usize = 0;
                while k < n
                    invariant
                        *self == OverviewNode::Section(*sub),
                        n == sub.children@.len(),
                        0 <= k <= n,
                        handler_clones(r@, section_handlers(*sub, k as int)),
                    decreases n - k,
                {
                    proof {
                        assert(decreases_to!(*self => self->Section_0));
                    }
                    let mut part = sub.children[k].extract_handlers();
                    let ghost before = r@;
                    let ghost part_view = part@;
                    r.append(&mut part);
                    proof {
                        let target = section_handlers(*sub, k + 1);
                        assert(target == section_handlers(*sub, k as int) + overview_handlers(sub.children@[k as int]));
                        assert forall|i: int| 0 <= i < r@.len() implies (#[trigger] r@[i]).0@ == target[i].0 && cloned(target[i].1, r@[i].1) by {
                            if i < before.len() {
                                assert(r@[i] == before[i]);
                            } else {
                                assert(r@[i] == part_view[i - before.len()]);
                            }
                        }
                    }
                    k += 1;
                }
                r
            },
        }
    }
}

impl<H> From<OverviewField<H>> for OverviewNode<H> {
    fn from(field: OverviewField<H>) -> (r: Self)
        ensures
            r == OverviewNode::Field(field),
    {
        OverviewNode::Field(field)
    }
}

impl<H> vstd::std_specs::convert::FromSpecImpl<OverviewField<H>> for OverviewNode<H> {
    open spec fn obeys_from_spec() -> bool {
        true
    }

    open spec fn from_spec(field: OverviewField<H>) -> OverviewNode<H> {
        OverviewNode::Field(field)
    }
}

impl<H> From<OverviewSection<H>> for OverviewNode<H> {
    fn from(section: OverviewSection<H>) -> (r: Self)
        ensures
            r == OverviewNode::Section(section),
    {
        OverviewNode::Section(section)
    }
}

impl<H> vstd::std_specs::convert::FromSpecImpl<OverviewSection<H>> for OverviewNode<H> {
    open spec fn obeys_from_spec() -> bool {
        true
    }

    open spec fn from_spec(section: OverviewSection<H>) -> OverviewNode<H> {
        OverviewNode::Section(section)
    }
}

} // verus!
