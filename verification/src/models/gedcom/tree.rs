//! The forest that the levels of the lines describe.
//!
//! In a document a line is followed by the lines below it, so the lines are the forest
//! in pre-order. [`GedcomTree::from`] places the lines last line first: a line at level 0
//! takes every node that still waits for a parent, another line takes the waiting nodes
//! one level below it, but only when the line after it lies deeper than itself.
use crate::models::gedcom::line::{GedcomLine, GedcomLineTag, LineView, TagView};
use crate::text::optional_text;
use vstd::prelude::*;

verus! {

/// A line together with the lines below it.
#[derive(Debug, PartialEq, Eq)]
pub struct GedcomTreeNode {
    pub children: Vec<GedcomTreeNode>,
    pub level: u8,
    pub line_value: Option<String>,
    pub tag: GedcomLineTag,
    pub xref_id: Option<String>,
}

/// A node as contracts see it.
pub struct NodeView {
    pub children: Seq<NodeView>,
    pub level: u8,
    pub line_value: Option<Seq<char>>,
    pub tag: TagView,
    pub xref_id: Option<Seq<char>>,
}

/// The views of some nodes, in their order.
pub open spec fn node_views(nodes: Seq<GedcomTreeNode>) -> Seq<NodeView>
    decreases nodes,
{
    if nodes.len() == 0 {
        Seq::empty()
    } else {
        node_views(nodes.drop_last()).push(nodes.last()@)
    }
}

impl View for GedcomTreeNode {
    type V = NodeView;

    open spec fn view(&self) -> NodeView
        decreases self,
    {
        NodeView {
            children: node_views(self.children@),
            level: self.level,
            line_value: optional_text(self.line_value),
            tag: self.tag@,
            xref_id: optional_text(self.xref_id),
        }
    }
}

/// [`node_views`] keeps the length and takes the view at each index.
pub proof fn lemma_node_views(nodes: Seq<GedcomTreeNode>)
    ensures
        node_views(nodes).len() == nodes.len(),
        forall|i: int| 0 <= i < nodes.len() ==> #[trigger] node_views(nodes)[i] == nodes[i]@,
    decreases nodes.len(),
{
    if nodes.len() > 0 {
        lemma_node_views(nodes.drop_last());
        assert(node_views(nodes) == node_views(nodes.drop_last()).push(nodes.last()@));
        assert forall|i: int| 0 <= i < nodes.len() implies #[trigger] node_views(nodes)[i]
            == nodes[i]@ by {
            if i < nodes.len() - 1 {
                assert(nodes.drop_last()[i] == nodes[i]);
            }
        }
    } else {
        assert(node_views(nodes) == Seq::<NodeView>::empty());
    }
}

/// The views of a sequence with one more node at its end.
pub proof fn lemma_node_views_push(nodes: Seq<GedcomTreeNode>, node: GedcomTreeNode)
    ensures
        node_views(nodes.push(node)) == node_views(nodes).push(node@),
{
    assert(nodes.push(node).drop_last() =~= nodes);
}

/// The views of the lines of a document, in their order.
pub open spec fn line_views(lines: Seq<GedcomLine>) -> Seq<LineView> {
    Seq::new(lines.len(), |i: int| lines[i]@)
}

/// The node that holds a line above the given children.
pub open spec fn node_of(line: LineView, children: Seq<NodeView>) -> NodeView {
    NodeView {
        children,
        level: line.level,
        line_value: line.line_value,
        tag: line.tag,
        xref_id: line.xref_id,
    }
}

/// The line that a node holds.
pub open spec fn line_of(node: NodeView) -> LineView {
    LineView {
        level: node.level,
        line_value: node.line_value,
        tag: node.tag,
        xref_id: node.xref_id,
    }
}

/// The nodes at one level.
pub open spec fn at_level(level: int) -> spec_fn(NodeView) -> bool {
    |node: NodeView| node.level == level
}

/// The nodes at any other level.
pub open spec fn off_level(level: int) -> spec_fn(NodeView) -> bool {
    |node: NodeView| node.level != level
}

impl Clone for GedcomTreeNode {
    fn clone(&self) -> (copy: Self)
        ensures
            copy@ == self@,
        decreases self,
    {
        let mut children: Vec<GedcomTreeNode> = Vec::new();
        let mut i: usize = 0;
        while i < self.children.len()
            invariant
                i <= self.children.len(),
                node_views(children@) == node_views(self.children@.take(i as int)),
            decreases self.children.len() - i,
        {
            let child = self.children[i].clone();
            proof {
                lemma_node_views_push(children@, child);
                assert(self.children@.take(i + 1).drop_last() =~= self.children@.take(i as int));
            }
            children.push(child);
            i += 1;
        }
        assert(self.children@.take(i as int) =~= self.children@);
        GedcomTreeNode {
            children,
            level: self.level,
            line_value: self.line_value.clone(),
            tag: self.tag.clone(),
            xref_id: self.xref_id.clone(),
        }
    }
}

impl GedcomTreeNode {
    pub fn children(&self) -> (children: &Vec<GedcomTreeNode>)
        ensures
            *children == self.children,
    {
        &self.children
    }

    pub fn level(&self) -> (level: u8)
        ensures
            level == self.level,
    {
        self.level
    }

    pub fn line_value(&self) -> (value: &Option<String>)
        ensures
            *value == self.line_value,
    {
        &self.line_value
    }

    pub fn tag(&self) -> (tag: &GedcomLineTag)
        ensures
            *tag == self.tag,
    {
        &self.tag
    }

    pub fn xref_id(&self) -> (label: &Option<String>)
        ensures
            *label == self.xref_id,
    {
        &self.xref_id
    }
}

/// Collects a line and the nodes that `build` puts below it.
pub struct GedcomTreeNodeBuilder {
    pub children: Vec<GedcomTreeNode>,
    pub level: u8,
    pub line_value: Option<String>,
    pub tag: GedcomLineTag,
    pub xref_id: Option<String>,
}

impl From<GedcomLine> for GedcomTreeNodeBuilder {
    /// A builder that holds the line and no children.
    fn from(line: GedcomLine) -> (builder: Self)
        ensures
            builder.children@ == Seq::<GedcomTreeNode>::empty(),
            builder.level == line.level,
            builder.line_value == line.line_value,
            builder.tag == line.tag,
            builder.xref_id == line.xref_id,
    {
        GedcomTreeNodeBuilder {
            children: Vec::new(),
            level: line.level,
            line_value: line.line_value,
            tag: line.tag,
            xref_id: line.xref_id,
        }
    }
}

impl vstd::std_specs::convert::FromSpecImpl<GedcomLine> for GedcomTreeNodeBuilder {
    /// The builder is told by its parts, see the contract of `from`.
    open spec fn obeys_from_spec() -> bool {
        false
    }

    open spec fn from_spec(line: GedcomLine) -> GedcomTreeNodeBuilder {
        arbitrary()
    }
}

impl GedcomTreeNodeBuilder {
    /// Makes the node. The children are taken out of the builder and stand in the node
    /// last first; the line stays in the builder.
    pub fn build(&mut self) -> (node: GedcomTreeNode)
        ensures
            node.children@ == old(self).children@.reverse(),
            node.level == old(self).level,
            node.line_value == old(self).line_value,
            node.tag == old(self).tag,
            node.xref_id == old(self).xref_id,
            final(self).children@ == Seq::<GedcomTreeNode>::empty(),
            final(self).level == old(self).level,
            final(self).line_value == old(self).line_value,
            final(self).tag == old(self).tag,
            final(self).xref_id == old(self).xref_id,
    {
        let mut children: Vec<GedcomTreeNode> = Vec::new();
        let ghost given = self.children@;
        while self.children.len() > 0
            invariant
                self.children@.len() <= given.len(),
                self.children@ == given.take(self.children@.len() as int),
                children@ == given.skip(self.children@.len() as int).reverse(),
                self.level == old(self).level,
                self.line_value == old(self).line_value,
                self.tag == old(self).tag,
                self.xref_id == old(self).xref_id,
            decreases self.children.len(),
        {
            let ghost before = self.children@.len() as int;
            let child = self.children.pop();
            if let Some(child) = child {
                children.push(child);
                proof {
                    assert(self.children@ =~= given.take(before - 1));
                    assert(children@ =~= given.skip(before - 1).reverse());
                }
            }
        }
        assert(given.skip(0) =~= given);
        GedcomTreeNode {
            children,
            level: self.level,
            line_value: self.line_value.clone(),
            tag: self.tag.clone(),
            xref_id: self.xref_id.clone(),
        }
    }

    pub fn with_children(&mut self, children: Vec<GedcomTreeNode>) -> (builder: &mut Self)
        ensures
            *builder == (GedcomTreeNodeBuilder { children, ..*old(self) }),
            *final(self) == *final(builder),
    {
        self.children = children;
        self
    }
}

/// The nodes placed so far, while the lines of a document are placed last line first.
pub struct Assembly {
    /// The finished trees, in the order of the document.
    pub roots: Seq<NodeView>,
    /// The nodes that still wait for a parent, in the order of the document.
    pub pending: Seq<NodeView>,
    /// The level of the line that was placed last; 100 before any line.
    pub previous_level: int,
}

/// Places one line before everything that has been placed.
///
/// A line at level 0 becomes a tree above every waiting node. A line that lies above the
/// line after it takes the waiting nodes that lie one level below itself, and waits.
/// Any other line waits as a leaf.
pub open spec fn place(state: Assembly, line: LineView) -> Assembly {
    if line.level == 0 {
        Assembly {
            roots: seq![node_of(line, state.pending)] + state.roots,
            pending: Seq::empty(),
            previous_level: 0,
        }
    } else if line.level < state.previous_level {
        Assembly {
            roots: state.roots,
            pending: seq![node_of(line, state.pending.filter(at_level(line.level + 1)))]
                + state.pending.filter(off_level(line.level + 1)),
            previous_level: line.level as int,
        }
    } else {
        Assembly {
            roots: state.roots,
            pending: seq![node_of(line, Seq::empty())] + state.pending,
            previous_level: line.level as int,
        }
    }
}

/// The state once the lines from index `from` to the last have been placed.
pub open spec fn assemble(lines: Seq<LineView>, from: int) -> Assembly
    decreases lines.len() - from,
{
    if from >= lines.len() {
        Assembly { roots: Seq::empty(), pending: Seq::empty(), previous_level: 100 }
    } else {
        place(assemble(lines, from + 1), lines[from])
    }
}

/// The forest of a document: one tree for each line at level 0, in the order of the
/// document. Nodes that wait for a parent when the first line has been placed are left out.
pub open spec fn forest(lines: Seq<LineView>) -> Seq<NodeView> {
    assemble(lines, 0).roots
}

/// Filtering a sequence commutes with reversing it.
pub proof fn lemma_filter_reverse<A>(s: Seq<A>, keep: spec_fn(A) -> bool)
    ensures
        s.reverse().filter(keep) == s.filter(keep).reverse(),
    decreases s.len(),
{
    reveal(Seq::filter);
    if s.len() > 0 {
        let front = s.drop_last();
        let last = s.last();
        lemma_filter_reverse(front, keep);
        assert(s.reverse() =~= seq![last] + front.reverse());
        Seq::filter_distributes_over_add(seq![last], front.reverse(), keep);
        assert(seq![last].drop_last() =~= Seq::<A>::empty());
        assert(Seq::<A>::empty().filter(keep) =~= Seq::<A>::empty());
        if keep(last) {
            assert(seq![last].filter(keep) =~= seq![last]);
            assert(s.filter(keep).reverse() =~= seq![last] + front.filter(keep).reverse());
        } else {
            assert(seq![last].filter(keep) =~= Seq::<A>::empty());
            assert(s.reverse().filter(keep) =~= front.reverse().filter(keep));
        }
    } else {
        assert(s.reverse() =~= s);
        assert(s.filter(keep).reverse() =~= s);
    }
}

/// The nodes in the opposite order.
fn reversed(nodes: Vec<GedcomTreeNode>) -> (turned: Vec<GedcomTreeNode>)
    ensures
        turned@ == nodes@.reverse(),
{
    let ghost given = nodes@;
    let mut nodes = nodes;
    let mut turned: Vec<GedcomTreeNode> = Vec::new();
    while nodes.len() > 0
        invariant
            nodes@.len() <= given.len(),
            nodes@ == given.take(nodes@.len() as int),
            turned@ == given.skip(nodes@.len() as int).reverse(),
        decreases nodes.len(),
    {
        let ghost before = nodes@.len() as int;
        if let Some(node) = nodes.pop() {
            turned.push(node);
            proof {
                assert(nodes@ =~= given.take(before - 1));
                assert(turned@ =~= given.skip(before - 1).reverse());
            }
        }
    }
    assert(given.skip(0) =~= given);
    turned
}

/// The views of a reversed sequence of nodes.
pub proof fn lemma_node_views_reverse(nodes: Seq<GedcomTreeNode>)
    ensures
        node_views(nodes.reverse()) == node_views(nodes).reverse(),
{
    lemma_node_views(nodes);
    lemma_node_views(nodes.reverse());
    assert(node_views(nodes.reverse()) =~= node_views(nodes).reverse());
}

/// Parts the nodes into those at the given level and the others, each part in the order
/// in which the nodes came.
fn split_by_level(nodes: Vec<GedcomTreeNode>, level: u16) -> (parts: (
    Vec<GedcomTreeNode>,
    Vec<GedcomTreeNode>,
))
    ensures
        node_views(parts.0@) == node_views(nodes@).filter(at_level(level as int)),
        node_views(parts.1@) == node_views(nodes@).filter(off_level(level as int)),
{
    let ghost given = nodes@;
    let mut rest = reversed(nodes);
    let mut taken: Vec<GedcomTreeNode> = Vec::new();
    let mut left: Vec<GedcomTreeNode> = Vec::new();
    proof {
        reveal(Seq::filter);
        assert(given.take(0) =~= Seq::<GedcomTreeNode>::empty());
    }
    while rest.len() > 0
        invariant
            rest@.len() <= given.len(),
            rest@ == given.skip(given.len() - rest@.len()).reverse(),
            node_views(taken@) == node_views(given.take(given.len() - rest@.len())).filter(
                at_level(level as int),
            ),
            node_views(left@) == node_views(given.take(given.len() - rest@.len())).filter(
                off_level(level as int),
            ),
        decreases rest.len(),
    {
        let ghost done = given.len() - rest@.len();
        if let Some(node) = rest.pop() {
            proof {
                assert(node == given[done]);
                assert(rest@ =~= given.skip(done + 1).reverse());
                assert(given.take(done + 1) =~= given.take(done).push(node));
                lemma_node_views_push(given.take(done), node);
                node_views(given.take(done)).lemma_filter_push(node@, at_level(level as int));
                node_views(given.take(done)).lemma_filter_push(node@, off_level(level as int));
                lemma_node_views_push(taken@, node);
                lemma_node_views_push(left@, node);
            }
            if node.level as u16 == level {
                taken.push(node);
            } else {
                left.push(node);
            }
        }
    }
    assert(given.take(given.len() as int) =~= given);
    (taken, left)
}

/// The forest of a document.
#[derive(Debug, PartialEq, Eq)]
pub struct GedcomTree {
    pub nodes: Vec<GedcomTreeNode>,
}

impl View for GedcomTree {
    type V = Seq<NodeView>;

    open spec fn view(&self) -> Seq<NodeView> {
        node_views(self.nodes@)
    }
}

impl GedcomTree {
    /// The trees, in the order of the document.
    pub fn nodes(&self) -> (nodes: &Vec<GedcomTreeNode>)
        ensures
            *nodes == self.nodes,
    {
        &self.nodes
    }
}

impl From<Vec<GedcomLine>> for GedcomTree {
    /// Arranges the lines of a document into its [`forest`].
    fn from(lines: Vec<GedcomLine>) -> (tree: GedcomTree)
        ensures
            tree@ == forest(line_views(lines@)),
    {
        let ghost all = line_views(lines@);
        let mut lines = lines;
        let mut nodes: Vec<GedcomTreeNode> = Vec::new();
        let mut children: Vec<GedcomTreeNode> = Vec::new();
        let mut previous_level: u8 = 100;
        proof {
            assert(all.take(lines@.len() as int) =~= all);
            assert(Seq::<NodeView>::empty().reverse() =~= Seq::<NodeView>::empty());
        }
        while lines.len() > 0
            invariant
                lines@.len() <= all.len(),
                line_views(lines@) == all.take(lines@.len() as int),
                node_views(nodes@) == assemble(all, lines@.len() as int).roots.reverse(),
                node_views(children@) == assemble(all, lines@.len() as int).pending.reverse(),
                previous_level == assemble(all, lines@.len() as int).previous_level,
            decreases lines.len(),
        {
            let ghost before = lines@.len() as int;
            let ghost state = assemble(all, before);
            let ghost held = lines@;
            if let Some(line) = lines.pop() {
                let ghost placed = line@;
                proof {
                    assert(line_views(held)[before - 1] == all.take(before)[before - 1]);
                    assert(placed == all[before - 1]);
                    assert(line_views(lines@) =~= all.take(before - 1));
                    assert(assemble(all, before - 1) == place(state, placed));
                }
                let current_level = line.level();
                if current_level == 0 {
                    let node_children = children;
                    children = Vec::new();
                    let mut builder = GedcomTreeNodeBuilder::from(line);
                    builder.with_children(node_children);
                    let node = builder.build();
                    proof {
                        lemma_node_views_reverse(node_children@);
                        assert(state.pending.reverse().reverse() =~= state.pending);
                        assert(node@ == node_of(placed, state.pending));
                        lemma_node_views_push(nodes@, node);
                        assert(state.roots.reverse().push(node@) =~= (seq![node@]
                            + state.roots).reverse());
                    }
                    nodes.push(node);
                } else if current_level < previous_level {
                    let (node_children, left) = split_by_level(children, current_level as u16 + 1);
                    let mut builder = GedcomTreeNodeBuilder::from(line);
                    builder.with_children(node_children);
                    let node = builder.build();
                    children = left;
                    proof {
                        let level = placed.level + 1;
                        lemma_node_views_reverse(node_children@);
                        lemma_filter_reverse(state.pending, at_level(level));
                        lemma_filter_reverse(state.pending, off_level(level));
                        assert(state.pending.filter(at_level(level)).reverse().reverse()
                            =~= state.pending.filter(at_level(level)));
                        assert(node@ == node_of(placed, state.pending.filter(at_level(level))));
                        lemma_node_views_push(children@, node);
                        assert(state.pending.filter(off_level(level)).reverse().push(node@) =~= (
                        seq![node@] + state.pending.filter(off_level(level))).reverse());
                    }
                    children.push(node);
                } else {
                    let mut builder = GedcomTreeNodeBuilder::from(line);
                    let node = builder.build();
                    proof {
                        assert(Seq::<GedcomTreeNode>::empty().reverse() =~= Seq::<
                            GedcomTreeNode,
                        >::empty());
                        assert(node@ == node_of(placed, Seq::empty()));
                        lemma_node_views_push(children@, node);
                        assert(state.pending.reverse().push(node@) =~= (seq![node@]
                            + state.pending).reverse());
                    }
                    children.push(node);
                }
                previous_level = current_level;
            }
        }
        let ghost placed_last_first = nodes@;
        let nodes = reversed(nodes);
        proof {
            lemma_node_views_reverse(placed_last_first);
            assert(forest(all).reverse().reverse() =~= forest(all));
        }
        GedcomTree { nodes }
    }
}

impl vstd::std_specs::convert::FromSpecImpl<Vec<GedcomLine>> for GedcomTree {
    /// The forest is told by its view, see the contract of `from`.
    open spec fn obeys_from_spec() -> bool {
        false
    }

    open spec fn from_spec(lines: Vec<GedcomLine>) -> GedcomTree {
        arbitrary()
    }
}

/// Whether each child lies one level below its parent, all the way down.
pub open spec fn proper(node: NodeView) -> bool
    decreases node,
{
    forall|i: int|
        0 <= i < node.children.len() ==> (#[trigger] node.children[i]).level == node.level + 1
            && proper(node.children[i])
}

/// The lines of a node and of everything below it, in pre-order.
pub open spec fn flatten(node: NodeView) -> Seq<LineView>
    decreases node,
{
    seq![line_of(node)] + flatten_all(node.children)
}

/// The lines of some trees, one tree after the other.
pub open spec fn flatten_all(nodes: Seq<NodeView>) -> Seq<LineView>
    decreases nodes,
{
    if nodes.len() == 0 {
        Seq::empty()
    } else {
        flatten(nodes.first()) + flatten_all(nodes.drop_first())
    }
}

/// Whether no line lies more than one level below the line before it, from index `from` on.
pub open spec fn steps_down_by_one(lines: Seq<LineView>, from: int) -> bool {
    forall|i: int|
        from <= i < lines.len() - 1 ==> lines[i + 1].level <= (#[trigger] lines[i]).level + 1
}

/// Whether the lines are the pre-order of some forest: the first line is at level 0, and
/// no line lies more than one level below the line before it.
pub open spec fn well_nested(lines: Seq<LineView>) -> bool {
    &&& lines.len() > 0 ==> lines[0].level == 0
    &&& steps_down_by_one(lines, 0)
}

/// The lines of two runs of trees, one run after the other.
pub proof fn lemma_flatten_all_add(front: Seq<NodeView>, back: Seq<NodeView>)
    ensures
        flatten_all(front + back) == flatten_all(front) + flatten_all(back),
    decreases front.len(),
{
    if front.len() == 0 {
        assert(front + back =~= back);
        assert(flatten_all(front) + flatten_all(back) =~= flatten_all(back));
    } else {
        assert((front + back).first() == front.first());
        assert((front + back).drop_first() =~= front.drop_first() + back);
        lemma_flatten_all_add(front.drop_first(), back);
        assert(flatten_all(front + back) =~= flatten_all(front) + flatten_all(back));
    }
}

/// The lines of a run of trees with one more tree before it.
pub proof fn lemma_flatten_all_prepend(node: NodeView, nodes: Seq<NodeView>)
    ensures
        flatten_all(seq![node] + nodes) == flatten(node) + flatten_all(nodes),
{
    assert((seq![node] + nodes).first() == node);
    assert((seq![node] + nodes).drop_first() =~= nodes);
}

/// How many nodes at the front of a run lie at the given level.
pub open spec fn leading(nodes: Seq<NodeView>, level: int) -> int
    decreases nodes.len(),
{
    if nodes.len() > 0 && nodes.first().level == level {
        1 + leading(nodes.drop_first(), level)
    } else {
        0
    }
}

/// Whether no node of a run lies deeper than the node before it.
pub open spec fn never_deeper(nodes: Seq<NodeView>) -> bool
    decreases nodes.len(),
{
    nodes.len() >= 2 ==> nodes[0].level >= nodes[1].level && never_deeper(nodes.drop_first())
}

/// A filter that no element passes leaves nothing.
proof fn lemma_none_kept<A>(s: Seq<A>, keep: spec_fn(A) -> bool)
    requires
        forall|i: int| 0 <= i < s.len() ==> !keep(#[trigger] s[i]),
    ensures
        s.filter(keep) == Seq::<A>::empty(),
    decreases s.len(),
{
    reveal(Seq::filter);
    if s.len() > 0 {
        assert forall|i: int| 0 <= i < s.drop_last().len() implies !keep(
            #[trigger] s.drop_last()[i],
        ) by {
            assert(s.drop_last()[i] == s[i]);
        }
        lemma_none_kept(s.drop_last(), keep);
    }
}

/// A filter that every element passes leaves the sequence as it is.
proof fn lemma_all_kept<A>(s: Seq<A>, keep: spec_fn(A) -> bool)
    requires
        forall|i: int| 0 <= i < s.len() ==> keep(#[trigger] s[i]),
    ensures
        s.filter(keep) == s,
    decreases s.len(),
{
    reveal(Seq::filter);
    if s.len() > 0 {
        assert forall|i: int| 0 <= i < s.drop_last().len() implies keep(
            #[trigger] s.drop_last()[i],
        ) by {
            assert(s.drop_last()[i] == s[i]);
        }
        lemma_all_kept(s.drop_last(), keep);
        assert(s.drop_last().push(s.last()) =~= s);
    }
}

/// In a run that never gets deeper, no node lies deeper than the first.
proof fn lemma_first_is_deepest(nodes: Seq<NodeView>, level: int)
    requires
        never_deeper(nodes),
        nodes.len() > 0 ==> nodes[0].level <= level,
    ensures
        forall|i: int| 0 <= i < nodes.len() ==> (#[trigger] nodes[i]).level <= level,
    decreases nodes.len(),
{
    if nodes.len() >= 2 {
        let rest = nodes.drop_first();
        assert(rest[0] == nodes[1]);
        lemma_first_is_deepest(rest, level);
        assert forall|i: int| 0 <= i < nodes.len() implies (#[trigger] nodes[i]).level
            <= level by {
            if i > 0 {
                assert(nodes[i] == rest[i - 1]);
            }
        }
    }
}

/// What is left of a run that never gets deeper, once nodes are taken from its front,
/// never gets deeper either.
proof fn lemma_never_deeper_skip(nodes: Seq<NodeView>, count: int)
    requires
        never_deeper(nodes),
        0 <= count <= nodes.len(),
    ensures
        never_deeper(nodes.skip(count)),
    decreases count,
{
    if count == 0 {
        assert(nodes.skip(0) =~= nodes);
    } else {
        lemma_never_deeper_skip(nodes, count - 1);
        let shorter = nodes.skip(count - 1);
        assert(shorter.drop_first() =~= nodes.skip(count));
    }
}

/// In a run that never gets deeper and starts no deeper than `level`, the nodes at that
/// level stand at the front, and every node after them lies above that level.
proof fn lemma_leading(nodes: Seq<NodeView>, level: int)
    requires
        never_deeper(nodes),
        nodes.len() > 0 ==> nodes[0].level <= level,
    ensures
        0 <= leading(nodes, level) <= nodes.len(),
        forall|i: int| 0 <= i < leading(nodes, level) ==> (#[trigger] nodes[i]).level == level,
        forall|i: int|
            leading(nodes, level) <= i < nodes.len() ==> (#[trigger] nodes[i]).level < level,
    decreases nodes.len(),
{
    if nodes.len() > 0 {
        let first = nodes.first();
        let rest = nodes.drop_first();
        if first.level == level {
            if rest.len() > 0 {
                assert(rest[0] == nodes[1]);
            }
            lemma_leading(rest, level);
            let k = leading(rest, level);
            assert forall|i: int| 0 <= i < k + 1 implies (#[trigger] nodes[i]).level == level by {
                if i > 0 {
                    assert(nodes[i] == rest[i - 1]);
                }
            }
            assert forall|i: int| k + 1 <= i < nodes.len() implies (#[trigger] nodes[i]).level
                < level by {
                assert(nodes[i] == rest[i - 1]);
            }
        } else {
            lemma_first_is_deepest(nodes, first.level as int);
        }
    }
}

/// Where the elements that a filter passes are the first `count` of a sequence, the
/// filter leaves these, and the opposite filter leaves the others.
proof fn lemma_filter_front<A>(
    s: Seq<A>,
    keep: spec_fn(A) -> bool,
    drop: spec_fn(A) -> bool,
    count: int,
)
    requires
        0 <= count <= s.len(),
        forall|i: int| 0 <= i < count ==> keep(#[trigger] s[i]) && !drop(s[i]),
        forall|i: int| count <= i < s.len() ==> !keep(#[trigger] s[i]) && drop(s[i]),
    ensures
        s.filter(keep) == s.take(count),
        s.filter(drop) == s.skip(count),
{
    let front = s.take(count);
    let back = s.skip(count);
    assert(s =~= front + back);
    Seq::filter_distributes_over_add(front, back, keep);
    Seq::filter_distributes_over_add(front, back, drop);
    lemma_all_kept(front, keep);
    lemma_none_kept(back, keep);
    lemma_none_kept(front, drop);
    lemma_all_kept(back, drop);
    assert(front + Seq::<A>::empty() =~= front);
    assert(Seq::<A>::empty() + back =~= back);
}

/// What holds of the state when the lines from index `from` on have been placed and none
/// of them lies more than one level below the line before it.
pub open spec fn settled(lines: Seq<LineView>, from: int, state: Assembly) -> bool {
    &&& flatten_all(state.pending) + flatten_all(state.roots) == lines.skip(from)
    &&& forall|i: int|
        0 <= i < state.pending.len() ==> proper(#[trigger] state.pending[i])
            && state.pending[i].level >= 1
    &&& forall|i: int|
        0 <= i < state.roots.len() ==> proper(#[trigger] state.roots[i]) && state.roots[i].level
            == 0
    &&& never_deeper(state.pending)
    &&& from >= lines.len() ==> state.previous_level == 100 && state.pending.len() == 0
    &&& from < lines.len() ==> state.previous_level == lines[from].level
    &&& from < lines.len() && lines[from].level == 0 ==> state.pending.len() == 0
    &&& from < lines.len() && lines[from].level != 0 ==> state.pending.len() > 0
        && state.pending[0].level == lines[from].level
}

/// A line at level 0 is placed.
proof fn lemma_place_root(lines: Seq<LineView>, from: int, before: Assembly)
    requires
        0 <= from < lines.len(),
        steps_down_by_one(lines, from),
        settled(lines, from + 1, before),
        lines[from].level == 0,
    ensures
        settled(lines, from, place(before, lines[from])),
{
    let line = lines[from];
    let after = place(before, line);
    let root = node_of(line, before.pending);
    assert(lines.skip(from) =~= seq![line] + lines.skip(from + 1));
    assert(line_of(root) == line);
    lemma_flatten_all_prepend(root, before.roots);
    assert(flatten_all(after.pending) =~= Seq::<LineView>::empty());
    assert(flatten_all(after.pending) + flatten_all(after.roots) =~= seq![line] + (flatten_all(
        before.pending,
    ) + flatten_all(before.roots)));
    if from + 1 < lines.len() {
        assert(lines[from + 1].level <= lines[from].level + 1);
    }
    lemma_first_is_deepest(before.pending, 1);
    assert forall|i: int| 0 <= i < root.children.len() implies (#[trigger] root.children[i]).level
        == root.level + 1 && proper(root.children[i]) by {
        assert(proper(before.pending[i]));
    }
    assert(proper(root));
    assert forall|i: int| 0 <= i < after.roots.len() implies proper(#[trigger] after.roots[i])
        && after.roots[i].level == 0 by {
        if i > 0 {
            assert(after.roots[i] == before.roots[i - 1]);
            assert(proper(before.roots[i - 1]));
        }
    }
}

/// Whether each of the nodes is [`proper`] and lies below level 0.
pub open spec fn all_proper(nodes: Seq<NodeView>) -> bool {
    forall|i: int| 0 <= i < nodes.len() ==> proper(#[trigger] nodes[i]) && nodes[i].level >= 1
}

/// The waiting nodes one level below a line are the front of the waiting nodes.
proof fn lemma_adopted_are_front(pending: Seq<NodeView>, level: int)
    requires
        never_deeper(pending),
        pending.len() > 0 ==> pending[0].level <= level,
    ensures
        0 <= leading(pending, level) <= pending.len(),
        pending.filter(at_level(level)) == pending.take(leading(pending, level)),
        pending.filter(off_level(level)) == pending.skip(leading(pending, level)),
        forall|i: int| 0 <= i < leading(pending, level) ==> (#[trigger] pending[i]).level == level,
        leading(pending, level) < pending.len() ==> pending[leading(pending, level)].level < level,
        never_deeper(pending.skip(leading(pending, level))),
{
    lemma_leading(pending, level);
    lemma_filter_front(pending, at_level(level), off_level(level), leading(pending, level));
    lemma_never_deeper_skip(pending, leading(pending, level));
}

/// The node that takes the first `count` waiting nodes, all one level below it, is proper.
proof fn lemma_parent_is_proper(pending: Seq<NodeView>, line: LineView, count: int)
    requires
        all_proper(pending),
        0 <= count <= pending.len(),
        forall|i: int| 0 <= i < count ==> (#[trigger] pending[i]).level == line.level + 1,
    ensures
        proper(node_of(line, pending.take(count))),
{
    let node = node_of(line, pending.take(count));
    assert forall|i: int| 0 <= i < node.children.len() implies (#[trigger] node.children[i]).level
        == node.level + 1 && proper(node.children[i]) by {
        assert(node.children[i] == pending[i]);
        assert(proper(pending[i]));
    }
}

/// The lines of the waiting nodes, once a node has taken some from their front.
proof fn lemma_parent_flattens(pending: Seq<NodeView>, line: LineView, count: int)
    requires
        0 <= count <= pending.len(),
    ensures
        flatten_all(seq![node_of(line, pending.take(count))] + pending.skip(count)) == seq![line]
            + flatten_all(pending),
{
    let node = node_of(line, pending.take(count));
    assert(line_of(node) == line);
    assert(pending =~= pending.take(count) + pending.skip(count));
    lemma_flatten_all_add(pending.take(count), pending.skip(count));
    lemma_flatten_all_prepend(node, pending.skip(count));
    assert(flatten(node) + flatten_all(pending.skip(count)) =~= seq![line] + (flatten_all(
        pending.take(count),
    ) + flatten_all(pending.skip(count))));
}

/// The waiting nodes stay proper when a proper node takes the place of some at their front.
proof fn lemma_waiting_stay_proper(pending: Seq<NodeView>, node: NodeView, count: int)
    requires
        all_proper(pending),
        0 <= count <= pending.len(),
        proper(node),
        node.level >= 1,
    ensures
        all_proper(seq![node] + pending.skip(count)),
{
    let waiting = seq![node] + pending.skip(count);
    assert forall|i: int| 0 <= i < waiting.len() implies proper(#[trigger] waiting[i])
        && waiting[i].level >= 1 by {
        if i > 0 {
            assert(waiting[i] == pending[count + i - 1]);
            assert(proper(pending[count + i - 1]));
        }
    }
}

/// A run that never gets deeper, with a node before it that is no higher than its first.
proof fn lemma_never_deeper_prepend(node: NodeView, nodes: Seq<NodeView>)
    requires
        never_deeper(nodes),
        nodes.len() > 0 ==> node.level >= nodes[0].level,
    ensures
        never_deeper(seq![node] + nodes),
{
    let longer = seq![node] + nodes;
    assert(longer.drop_first() =~= nodes);
    if nodes.len() > 0 {
        assert(longer[1] == nodes[0]);
    }
}

/// A line is placed above the waiting nodes one level below it.
proof fn lemma_place_parent(lines: Seq<LineView>, from: int, before: Assembly)
    requires
        0 <= from < lines.len(),
        steps_down_by_one(lines, from),
        settled(lines, from + 1, before),
        0 < lines[from].level < before.previous_level,
    ensures
        settled(lines, from, place(before, lines[from])),
{
    let line = lines[from];
    let after = place(before, line);
    let level = line.level + 1;
    let k = leading(before.pending, level);
    let node = node_of(line, before.pending.take(k));
    if from + 1 < lines.len() {
        assert(lines[from + 1].level <= lines[from].level + 1);
    }
    lemma_adopted_are_front(before.pending, level);
    assert(after.pending == seq![node] + before.pending.skip(k));
    assert(after.roots == before.roots);
    lemma_parent_flattens(before.pending, line, k);
    assert(lines.skip(from) =~= seq![line] + lines.skip(from + 1));
    assert(flatten_all(after.pending) + flatten_all(after.roots) =~= seq![line] + (flatten_all(
        before.pending,
    ) + flatten_all(before.roots)));
    assert(all_proper(before.pending));
    lemma_parent_is_proper(before.pending, line, k);
    lemma_waiting_stay_proper(before.pending, node, k);
    if k < before.pending.len() {
        assert(before.pending.skip(k)[0] == before.pending[k]);
    }
    lemma_never_deeper_prepend(node, before.pending.skip(k));
    assert(all_proper(after.pending));
    assert(after.pending[0] == node);
}

/// A line is placed as a leaf.
proof fn lemma_place_leaf(lines: Seq<LineView>, from: int, before: Assembly)
    requires
        0 <= from < lines.len(),
        steps_down_by_one(lines, from),
        settled(lines, from + 1, before),
        lines[from].level > 0,
        lines[from].level >= before.previous_level,
    ensures
        settled(lines, from, place(before, lines[from])),
{
    let line = lines[from];
    let after = place(before, line);
    let leaf = node_of(line, Seq::empty());
    assert(lines.skip(from) =~= seq![line] + lines.skip(from + 1));
    assert(line_of(leaf) == line);
    assert(flatten(leaf) =~= seq![line]);
    lemma_flatten_all_prepend(leaf, before.pending);
    assert(flatten_all(after.pending) + flatten_all(after.roots) =~= seq![line] + (flatten_all(
        before.pending,
    ) + flatten_all(before.roots)));
    assert(proper(leaf));
    assert forall|i: int| 0 <= i < after.pending.len() implies proper(#[trigger] after.pending[i])
        && after.pending[i].level >= 1 by {
        if i > 0 {
            assert(after.pending[i] == before.pending[i - 1]);
            assert(proper(before.pending[i - 1]));
        }
    }
    assert(after.pending.drop_first() =~= before.pending);
    if before.pending.len() > 0 {
        assert(after.pending[1] == before.pending[0]);
    }
    assert(never_deeper(after.pending));
}

/// Placing lines of which none lies more than one level below the line before it keeps
/// the state [`settled`].
proof fn lemma_assemble_settled(lines: Seq<LineView>, from: int)
    requires
        0 <= from <= lines.len(),
        steps_down_by_one(lines, from),
    ensures
        settled(lines, from, assemble(lines, from)),
    decreases lines.len() - from,
{
    if from >= lines.len() {
        assert(lines.skip(from) =~= Seq::<LineView>::empty());
        assert(flatten_all(Seq::<NodeView>::empty()) + flatten_all(Seq::<NodeView>::empty())
            =~= Seq::<LineView>::empty());
    } else {
        lemma_assemble_settled(lines, from + 1);
        let before = assemble(lines, from + 1);
        if lines[from].level == 0 {
            lemma_place_root(lines, from, before);
        } else if lines[from].level < before.previous_level {
            lemma_place_parent(lines, from, before);
        } else {
            lemma_place_leaf(lines, from, before);
        }
    }
}

/// The forest of well-nested lines holds each child one level below its parent, has its
/// roots at level 0, and read in pre-order gives the lines back as they were.
pub proof fn lemma_forest_of_well_nested_lines(lines: Seq<LineView>)
    requires
        well_nested(lines),
    ensures
        forall|i: int|
            0 <= i < forest(lines).len() ==> proper(#[trigger] forest(lines)[i])
                && forest(lines)[i].level == 0,
        flatten_all(forest(lines)) == lines,
{
    lemma_assemble_settled(lines, 0);
    let state = assemble(lines, 0);
    assert(lines.skip(0) =~= lines);
    assert(state.pending.len() == 0);
    assert(flatten_all(state.pending) + flatten_all(state.roots) =~= flatten_all(state.roots));
}

} // verus!
