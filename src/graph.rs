//! The bubble relationship graph: which bubbles exist and which are linked.
//!
//! Links are undirected. A link joins two distinct live bubbles, and a pair
//! of bubbles is joined by at most one link. Removing a bubble removes every
//! link that touches it.

use crate::graph_store::{
    edges_avoiding, links, pairs_unique, store_add_node, store_slots, store_contains_node, store_edge_count,
    store_edges, store_neighbors, store_new, store_node_count, store_nodes, store_remove_edge,
    store_remove_node, store_update_edge,
};
use petgraph::stable_graph::StableGraph;
use petgraph::Undirected;
use vstd::prelude::*;

verus! {

/// Identifier of a bubble: an index into the graph's node table.
pub type BubbleId = u32;

/// Why a graph operation was refused.
#[derive(Debug, Clone, Copy, PartialEq, Eq, Structural)]
pub enum BubbleGraphError {
    /// An identifier that the operation needs is not a live bubble.
    NotPresent,
    /// A bubble cannot be linked to itself.
    SelfLink,
}

/// The mathematical content of a [`BubbleGraph`].
pub struct GraphView {
    /// The live bubbles.
    pub nodes: Set<BubbleId>,
    /// The links, by link index: the two bubbles that each one joins.
    pub edges: Map<u32, (BubbleId, BubbleId)>,
    /// How many identifiers have been handed out so far, live or removed:
    /// the identifier that the next bubble gets when every one below it is
    /// live.
    pub bound: nat,
}

impl GraphView {
    /// Bubbles `a` and `b` are linked.
    pub open spec fn adjacent(self, a: BubbleId, b: BubbleId) -> bool {
        links(self.edges, a, b)
    }

    /// The bubbles linked to `a`.
    pub open spec fn neighbor_set(self, a: BubbleId) -> Set<BubbleId> {
        Set::new(|b: BubbleId| self.adjacent(a, b))
    }

    /// Every link joins two distinct live bubbles: no link dangles.
    pub open spec fn links_closed(self) -> bool {
        forall|e: u32|
            #![trigger self.edges.contains_key(e)]
            self.edges.contains_key(e) ==> self.nodes.contains(self.edges[e].0)
                && self.nodes.contains(self.edges[e].1) && self.edges[e].0 != self.edges[e].1
    }

    /// Every identifier below the bound is live: no removed identifier is
    /// waiting to be reused.
    pub open spec fn packed(self) -> bool {
        forall|i: BubbleId| (i as nat) < self.bound ==> self.nodes.contains(i)
    }

    /// `after` is this graph once `a` and `b` are linked: the bubbles stay,
    /// a link that already joins them stays as it is, and otherwise one link
    /// from `a` to `b` is added under a fresh index.
    pub open spec fn linked_after(self, after: GraphView, a: BubbleId, b: BubbleId) -> bool {
        &&& after.nodes == self.nodes
        &&& after.bound == self.bound
        &&& if self.adjacent(a, b) {
            after.edges == self.edges
        } else {
            exists|e: u32|
                !self.edges.contains_key(e) && after.edges == self.edges.insert(e, (a, b))
        }
    }

    /// `after` is this graph with bubble `id` added: `id` reuses a removed
    /// identifier below the bound, or is the bound itself, which then grows by
    /// one; when no removed identifier waits, it is the bound.
    pub open spec fn inserted(self, after: GraphView, id: BubbleId) -> bool {
        &&& !self.nodes.contains(id)
        &&& after.nodes == self.nodes.insert(id)
        &&& after.edges == self.edges
        &&& id as nat <= self.bound
        &&& after.bound == if id as nat == self.bound {
            self.bound + 1
        } else {
            self.bound
        }
        &&& self.packed() ==> id as nat == self.bound
    }

    /// `after` is this graph with the live, distinct bubbles `a` and `b`
    /// linked.
    pub open spec fn connected(self, after: GraphView, a: BubbleId, b: BubbleId) -> bool {
        &&& self.nodes.contains(a)
        &&& self.nodes.contains(b)
        &&& a != b
        &&& self.linked_after(after, a, b)
    }

    /// `after` is this graph with bubble `id` and its links removed.
    pub open spec fn removed(self, after: GraphView, id: BubbleId) -> bool {
        &&& after.nodes == self.nodes.remove(id)
        &&& after.edges == edges_avoiding(self.edges, id)
        &&& after.bound == self.bound
    }

    /// `after` is what one call of `insert`, `connect` or `remove` leaves of
    /// this graph (a refused call leaves it as it is).
    pub open spec fn step(self, after: GraphView) -> bool {
        ||| self == after
        ||| exists|id: BubbleId| self.inserted(after, id)
        ||| exists|a: BubbleId, b: BubbleId| self.connected(after, a, b)
        ||| exists|id: BubbleId| self.removed(after, id)
    }

    /// The graph is finite, closed and simple.
    pub open spec fn wf(self) -> bool {
        &&& self.nodes.finite()
        &&& self.edges.dom().finite()
        &&& self.links_closed()
        &&& pairs_unique(self.edges)
    }
}

/// An undirected graph over bubble identifiers, backed by a `petgraph`
/// stable graph.
pub struct BubbleGraph {
    graph: StableGraph<(), (), Undirected, u32>,
}

impl View for BubbleGraph {
    type V = GraphView;

    closed spec fn view(&self) -> GraphView {
        GraphView {
            nodes: store_nodes(self.graph),
            edges: store_edges(self.graph),
            bound: store_slots(self.graph),
        }
    }
}

impl Default for BubbleGraph {
    fn default() -> (r: Self)
        ensures
            r.wf(),
            r@.nodes == Set::<BubbleId>::empty(),
            r@.edges.dom() == Set::<u32>::empty(),
            r@.bound == 0,
    {
        Self::new()
    }
}

impl BubbleGraph {
    /// The graph is finite, closed and simple.
    pub open spec fn wf(&self) -> bool {
        self@.wf()
    }

    /// An empty graph.
    pub fn new() -> (r: Self)
        ensures
            r.wf(),
            r@.nodes == Set::<BubbleId>::empty(),
            r@.edges.dom() == Set::<u32>::empty(),
            r@.bound == 0,
    {
        let r = BubbleGraph { graph: store_new() };
        proof {
            assert(r@.edges.dom() =~= Set::<u32>::empty());
        }
        r
    }

    /// Adds a bubble and returns its identifier, which was not live before.
    pub fn insert(&mut self) -> (id: BubbleId)
        requires
            old(self).wf(),
            old(self)@.nodes.len() < u32::MAX,
        ensures
            final(self).wf(),
            !old(self)@.nodes.contains(id),
            final(self)@.nodes == old(self)@.nodes.insert(id),
            final(self)@.edges == old(self)@.edges,
            old(self)@.inserted(final(self)@, id),
            old(self)@.packed() ==> id as nat == old(self)@.bound && final(self)@.bound == old(
                self,
            )@.bound + 1,
            forall|b: BubbleId| !final(self)@.adjacent(id, b),
            old(self)@.step(final(self)@),
    {
        let ghost before = self@;
        let id = store_add_node(&mut self.graph);
        proof {
            assert(before.inserted(self@, id));
            assert forall|b: BubbleId| !self@.adjacent(id, b) by {
                if self@.adjacent(id, b) {
                    let e = choose|e: u32|
                        self@.edges.contains_key(e) && (self@.edges[e] == (id, b) || self@.edges[e] == (
                            b,
                            id,
                        ));
                    assert(before.edges.contains_key(e));
                }
            }
        }
        id
    }

    /// Adds a bubble and returns its identifier; the same as [`Self::insert`].
    pub fn add_bubble(&mut self) -> (id: BubbleId)
        requires
            old(self).wf(),
            old(self)@.nodes.len() < u32::MAX,
        ensures
            final(self).wf(),
            !old(self)@.nodes.contains(id),
            final(self)@.nodes == old(self)@.nodes.insert(id),
            final(self)@.edges == old(self)@.edges,
            old(self)@.inserted(final(self)@, id),
            old(self)@.packed() ==> id as nat == old(self)@.bound && final(self)@.bound == old(
                self,
            )@.bound + 1,
            forall|b: BubbleId| !final(self)@.adjacent(id, b),
            old(self)@.step(final(self)@),
    {
        self.insert()
    }

    /// Links `left` and `right`.
    ///
    /// Fails with `NotPresent` when either is not a live bubble, and with
    /// `SelfLink` when both are the same live bubble; a failed call leaves
    /// the graph as it was. Linking two bubbles that are already linked
    /// succeeds and changes nothing.
    pub fn connect(&mut self, left: BubbleId, right: BubbleId) -> (r: Result<(), BubbleGraphError>)
        requires
            old(self).wf(),
            old(self)@.nodes.contains(left) && old(self)@.nodes.contains(right) && left != right
                ==> old(self)@.edges.len() < u32::MAX,
        ensures
            final(self).wf(),
            r is Ok <==> old(self)@.nodes.contains(left) && old(self)@.nodes.contains(right)
                && left != right,
            (r matches Err(BubbleGraphError::NotPresent)) <==> !old(self)@.nodes.contains(left)
                || !old(self)@.nodes.contains(right),
            (r matches Err(BubbleGraphError::SelfLink)) <==> old(self)@.nodes.contains(left) && left
                == right,
            r is Err ==> final(self)@ == old(self)@,
            r is Ok ==> old(self)@.linked_after(final(self)@, left, right),
            old(self)@.step(final(self)@),
    {
        if !self.contains_node(left) || !self.contains_node(right) {
            return Err(BubbleGraphError::NotPresent);
        }
        if left == right {
            return Err(BubbleGraphError::SelfLink);
        }
        let ghost before = self@;
        let e = store_update_edge(&mut self.graph, left, right);
        proof {
            if !before.adjacent(left, right) {
                assert forall|e1: u32|
                    #![trigger self@.edges.contains_key(e1)]
                    self@.edges.contains_key(e1) && e1 != e implies self@.edges[e1] != (left, right)
                        && self@.edges[e1] != (right, left) by {
                    assert(before.edges.contains_key(e1));
                }
            }
            assert(before.connected(self@, left, right));
        }
        Ok(())
    }

    /// Links `left` and `right`; the same as [`Self::connect`].
    pub fn add_edge(&mut self, left: BubbleId, right: BubbleId) -> (r: Result<(), BubbleGraphError>)
        requires
            old(self).wf(),
            old(self)@.nodes.contains(left) && old(self)@.nodes.contains(right) && left != right
                ==> old(self)@.edges.len() < u32::MAX,
        ensures
            final(self).wf(),
            r is Ok <==> old(self)@.nodes.contains(left) && old(self)@.nodes.contains(right)
                && left != right,
            (r matches Err(BubbleGraphError::NotPresent)) <==> !old(self)@.nodes.contains(left)
                || !old(self)@.nodes.contains(right),
            (r matches Err(BubbleGraphError::SelfLink)) <==> old(self)@.nodes.contains(left) && left
                == right,
            r is Err ==> final(self)@ == old(self)@,
            r is Ok ==> old(self)@.linked_after(final(self)@, left, right),
            old(self)@.step(final(self)@),
    {
        self.connect(left, right)
    }

    /// Removes bubble `id` together with every link that touches it, and
    /// tells whether it was live.
    pub fn remove(&mut self, id: BubbleId) -> (r: bool)
        requires
            old(self).wf(),
        ensures
            final(self).wf(),
            r == old(self)@.nodes.contains(id),
            final(self)@.nodes == old(self)@.nodes.remove(id),
            final(self)@.edges == edges_avoiding(old(self)@.edges, id),
            old(self)@.step(final(self)@),
    {
        let ghost before = self@;
        let r = store_remove_node(&mut self.graph, id);
        proof {
            assert(before.removed(self@, id));
            assert(self@.edges.dom().subset_of(before.edges.dom()));
            vstd::set_lib::lemma_set_subset_finite(before.edges.dom(), self@.edges.dom());
        }
        r
    }

    /// Removes the link with index `id`; `Some` when it was live.
    pub fn remove_edge(&mut self, id: u32) -> (r: Option<()>)
        requires
            old(self).wf(),
        ensures
            final(self).wf(),
            r is Some <==> old(self)@.edges.contains_key(id),
            final(self)@.nodes == old(self)@.nodes,
            final(self)@.edges == old(self)@.edges.remove(id),
            final(self)@.bound == old(self)@.bound,
    {
        if store_remove_edge(&mut self.graph, id) {
            Some(())
        } else {
            None
        }
    }

    /// The bubbles linked to `id`, each once, in no particular order; empty
    /// when `id` has no links or is not a live bubble.
    pub fn neighbors(&self, id: BubbleId) -> (r: Vec<BubbleId>)
        requires
            self.wf(),
        ensures
            r@.no_duplicates(),
            forall|b: BubbleId| r@.contains(b) <==> self@.adjacent(id, b),
            r@.to_set() == self@.neighbor_set(id),
            !self@.nodes.contains(id) ==> r@.len() == 0,
    {
        let r = store_neighbors(&self.graph, id);
        proof {
            assert(r@.to_set() =~= self@.neighbor_set(id));
        }
        r
    }

    /// The number of live bubbles.
    pub fn node_count(&self) -> (r: usize)
        ensures
            r == self@.nodes.len(),
    {
        store_node_count(&self.graph)
    }

    /// The number of links.
    pub fn edge_count(&self) -> (r: usize)
        ensures
            r == self@.edges.len(),
    {
        store_edge_count(&self.graph)
    }

    /// Whether `id` is a live bubble.
    pub fn contains_node(&self, id: BubbleId) -> (r: bool)
        ensures
            r == self@.nodes.contains(id),
    {
        store_contains_node(&self.graph, id)
    }
}

/// In a well-formed graph no link dangles: both bubbles that a link joins
/// are live. Every operation of [`BubbleGraph`] keeps the graph well formed,
/// so this holds after any sequence of them.
pub proof fn lemma_links_have_live_ends(g: GraphView, a: BubbleId, b: BubbleId)
    requires
        g.wf(),
        g.adjacent(a, b),
    ensures
        g.nodes.contains(a),
        g.nodes.contains(b),
        a != b,
{
    let e = choose|e: u32| g.edges.contains_key(e) && (g.edges[e] == (a, b) || g.edges[e] == (b, a));
    assert(g.edges.contains_key(e));
}

/// One step of `insert`, `connect` or `remove` keeps a graph well formed.
pub proof fn lemma_step_keeps_wf(before: GraphView, after: GraphView)
    requires
        before.wf(),
        before.step(after),
    ensures
        after.wf(),
{
    if before == after {
    } else if exists|id: BubbleId| before.inserted(after, id) {
        let id = choose|id: BubbleId| before.inserted(after, id);
        assert(after.links_closed());
    } else if exists|a: BubbleId, b: BubbleId| before.connected(after, a, b) {
        let (a, b) = choose|a: BubbleId, b: BubbleId| before.connected(after, a, b);
        if !before.adjacent(a, b) {
            let e = choose|e: u32|
                !before.edges.contains_key(e) && after.edges == before.edges.insert(e, (a, b));
            assert forall|e1: u32|
                #![trigger after.edges.contains_key(e1)]
                after.edges.contains_key(e1) && e1 != e implies after.edges[e1] != (a, b)
                    && after.edges[e1] != (b, a) by {
                assert(before.edges.contains_key(e1));
            }
        }
    } else {
        let id = choose|id: BubbleId| before.removed(after, id);
        assert(after.edges.dom().subset_of(before.edges.dom()));
        vstd::set_lib::lemma_set_subset_finite(before.edges.dom(), after.edges.dom());
    }
}

/// Graph integrity: along any run of `insert`, `connect` and `remove` calls
/// that starts from a well-formed graph (an empty one, say), every graph is
/// well formed, so no link ever dangles.
pub proof fn lemma_runs_keep_links_closed(states: Seq<GraphView>)
    requires
        states.len() > 0,
        states[0].wf(),
        forall|i: int| 0 <= i < states.len() - 1 ==> #[trigger] states[i].step(states[i + 1]),
    ensures
        forall|i: int| 0 <= i < states.len() ==> #[trigger] states[i].wf() && states[i].links_closed(),
    decreases states.len(),
{
    if states.len() > 1 {
        let prefix = states.drop_last();
        assert forall|i: int| 0 <= i < prefix.len() - 1 implies #[trigger] prefix[i].step(prefix[i + 1]) by {
            assert(states[i].step(states[i + 1]));
        }
        lemma_runs_keep_links_closed(prefix);
        let n = states.len() - 1;
        let m = n - 1;
        assert(prefix[m].wf());
        assert(states[m].step(states[m + 1]));
        lemma_step_keeps_wf(states[m], states[n]);
        assert forall|i: int| 0 <= i < states.len() implies #[trigger] states[i].wf() && states[i].links_closed() by {
            if i < n {
                assert(prefix[i].wf());
            }
        }
    }
}

/// Once `a` and `b` are linked, each is among the other's neighbors.
pub proof fn lemma_link_is_symmetric(before: GraphView, after: GraphView, a: BubbleId, b: BubbleId)
    requires
        before.linked_after(after, a, b),
    ensures
        after.neighbor_set(a).contains(b),
        after.neighbor_set(b).contains(a),
{
    if before.adjacent(a, b) {
        let e = choose|e: u32|
            before.edges.contains_key(e) && (before.edges[e] == (a, b) || before.edges[e] == (b, a));
        assert(after.edges.contains_key(e));
    } else {
        let e = choose|e: u32|
            !before.edges.contains_key(e) && after.edges == before.edges.insert(e, (a, b));
        assert(after.edges.contains_key(e) && after.edges[e] == (a, b));
    }
}

/// Linking `a` and `b` adds exactly that one adjacency, in both directions.
pub proof fn lemma_link_adds_one_pair(
    before: GraphView,
    after: GraphView,
    a: BubbleId,
    b: BubbleId,
    x: BubbleId,
    y: BubbleId,
)
    requires
        before.linked_after(after, a, b),
    ensures
        after.adjacent(x, y) <==> before.adjacent(x, y) || (x == a && y == b) || (x == b && y == a),
{
    lemma_link_is_symmetric(before, after, a, b);
    if !before.adjacent(a, b) {
        let e = choose|e: u32|
            !before.edges.contains_key(e) && after.edges == before.edges.insert(e, (a, b));
        if before.adjacent(x, y) {
            let f = choose|f: u32|
                before.edges.contains_key(f) && (before.edges[f] == (x, y) || before.edges[f] == (y, x));
            assert(after.edges.contains_key(f));
        }
        if after.adjacent(x, y) {
            let f = choose|f: u32|
                after.edges.contains_key(f) && (after.edges[f] == (x, y) || after.edges[f] == (y, x));
            if f != e {
                assert(before.edges.contains_key(f));
            }
        }
    }
}

/// Once bubble `id` is removed, no link touches it, and the links between
/// the other bubbles are those there were.
pub proof fn lemma_removal_cascades(g: GraphView, id: BubbleId, x: BubbleId, y: BubbleId)
    ensures
        !links(edges_avoiding(g.edges, id), id, x),
        links(edges_avoiding(g.edges, id), x, y) <==> g.adjacent(x, y) && x != id && y != id,
{
    let m = edges_avoiding(g.edges, id);
    if links(m, x, y) {
        let f = choose|f: u32| m.contains_key(f) && (m[f] == (x, y) || m[f] == (y, x));
        assert(g.edges.contains_key(f));
    }
    if g.adjacent(x, y) && x != id && y != id {
        let f = choose|f: u32|
            g.edges.contains_key(f) && (g.edges[f] == (x, y) || g.edges[f] == (y, x));
        assert(m.contains_key(f));
    }
}

} // verus!
