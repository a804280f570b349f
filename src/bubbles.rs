//! The bubble directory: spawning bubbles into the graph, alone or under a
//! parent, and reading the links that the spring force follows.

use crate::graph::{lemma_link_adds_one_pair, BubbleGraph, BubbleGraphError, BubbleId, GraphView};
use vstd::prelude::*;

verus! {

/// `k` is the first position at which `snapshot` holds its identifier.
pub open spec fn first_index(snapshot: Seq<BubbleId>, k: int) -> bool {
    &&& 0 <= k < snapshot.len()
    &&& forall|j: int| 0 <= j < k ==> snapshot[j] != snapshot[k]
}

/// The first position at which `snapshot` holds `id`, if it holds it at all.
pub fn find_first(snapshot: &Vec<BubbleId>, id: BubbleId) -> (r: Option<usize>)
    ensures
        r matches Some(k) ==> first_index(snapshot@, k as int) && snapshot@[k as int] == id,
        r is None <==> !snapshot@.contains(id),
{
    let mut k: usize = 0;
    while k < snapshot.len()
        invariant
            k <= snapshot.len(),
            forall|j: int| 0 <= j < k ==> snapshot@[j] != id,
        decreases snapshot.len() - k,
    {
        if snapshot[k] == id {
            return Some(k);
        }
        k = k + 1;
    }
    None
}

/// The graph of bubbles, as spawned by the builders of the scene.
pub struct Bubbles {
    graph: BubbleGraph,
}

impl View for Bubbles {
    type V = GraphView;

    closed spec fn view(&self) -> GraphView {
        self.graph@
    }
}

impl Default for Bubbles {
    fn default() -> (r: Self)
        ensures
            r.wf(),
            r@.nodes == Set::<BubbleId>::empty(),
            r@.edges.dom() == Set::<u32>::empty(),
            r@.bound == 0,
    {
        Self::new()
    }
}

impl Bubbles {
    /// The graph is finite, closed and simple: no link dangles.
    pub open spec fn wf(&self) -> bool {
        self@.wf()
    }

    /// A directory with no bubbles.
    pub fn new() -> (r: Self)
        ensures
            r.wf(),
            r@.nodes == Set::<BubbleId>::empty(),
            r@.edges.dom() == Set::<u32>::empty(),
            r@.bound == 0,
    {
        Bubbles { graph: BubbleGraph::new() }
    }

    /// Spawns a bubble with no links and returns its identifier.
    pub fn spawn_orphan(&mut self) -> (id: BubbleId)
        requires
            old(self).wf(),
            old(self)@.nodes.len() < u32::MAX,
        ensures
            final(self).wf(),
            !old(self)@.nodes.contains(id),
            final(self)@.nodes == old(self)@.nodes.insert(id),
            final(self)@.edges == old(self)@.edges,
            old(self)@.inserted(final(self)@, id),
            old(self)@.packed() ==> id as nat == old(self)@.bound && final(self)@.bound == old(
                self,
            )@.bound + 1,
            forall|b: BubbleId| !final(self)@.adjacent(id, b),
    {
        self.graph.insert()
    }

    /// Spawns a bubble linked to `parent` and returns its identifier.
    ///
    /// Fails with `NotPresent`, and changes nothing, when `parent` is not a
    /// live bubble, a stale identifier included. The caller places the new
    /// bubble and queues the impulse that pushes its neighbours away.
    pub fn spawn_child(&mut self, parent: BubbleId) -> (r: Result<BubbleId, BubbleGraphError>)
        requires
            old(self).wf(),
            old(self)@.nodes.contains(parent) ==> old(self)@.nodes.len() < u32::MAX
                && old(self)@.edges.len() < u32::MAX,
        ensures
            final(self).wf(),
            r is Ok <==> old(self)@.nodes.contains(parent),
            r is Err ==> r == Err::<BubbleId, BubbleGraphError>(BubbleGraphError::NotPresent)
                && final(self)@ == old(self)@,
            r matches Ok(child) ==> {
                &&& !old(self)@.nodes.contains(child)
                &&& exists|e: u32|
                    !old(self)@.edges.contains_key(e) && final(self)@.edges
                        == old(self)@.edges.insert(e, (child, parent))
                &&& final(self)@.nodes == old(self)@.nodes.insert(child)
                &&& child as nat <= old(self)@.bound
                &&& old(self)@.packed() ==> child as nat == old(self)@.bound && final(self)@.bound
                    == old(self)@.bound + 1
                &&& forall|b: BubbleId| final(self)@.adjacent(child, b) <==> b == parent
            },
    {
        if !self.graph.contains_node(parent) {
            return Err(BubbleGraphError::NotPresent);
        }
        let child = self.graph.insert();
        let ghost middle = self@;
        let linked = self.graph.connect(child, parent);
        proof {
            lemma_link_adds_one_pair(middle, self@, child, parent, child, parent);
            assert forall|b: BubbleId| self@.adjacent(child, b) <==> b == parent by {
                lemma_link_adds_one_pair(middle, self@, child, parent, child, b);
            }
            if middle.adjacent(child, parent) {
                let e = choose|e: u32|
                    middle.edges.contains_key(e) && (middle.edges[e] == (child, parent)
                        || middle.edges[e] == (parent, child));
                assert(middle.nodes.contains(middle.edges[e].0));
            }
        }
        Ok(child)
    }

    /// Links `left` and `right`, as [`BubbleGraph::connect`] does.
    pub fn connect(&mut self, left: BubbleId, right: BubbleId) -> (r: Result<(), BubbleGraphError>)
        requires
            old(self).wf(),
            old(self)@.nodes.contains(left) && old(self)@.nodes.contains(right) && left != right
                ==> old(self)@.edges.len() < u32::MAX,
        ensures
            final(self).wf(),
            r is Ok <==> old(self)@.nodes.contains(left) && old(self)@.nodes.contains(right)
                && left != right,
            (r matches Err(BubbleGraphError::NotPresent)) <==> !old(self)@.nodes.contains(left)
                || !old(self)@.nodes.contains(right),
            (r matches Err(BubbleGraphError::SelfLink)) <==> old(self)@.nodes.contains(left) && left
                == right,
            r is Err ==> final(self)@ == old(self)@,
            r is Ok ==> old(self)@.linked_after(final(self)@, left, right),
    {
        self.graph.connect(left, right)
    }

    /// Removes bubble `id` and its links, as [`BubbleGraph::remove`] does.
    pub fn remove(&mut self, id: BubbleId) -> (r: bool)
        requires
            old(self).wf(),
        ensures
            final(self).wf(),
            r == old(self)@.nodes.contains(id),
            final(self)@.nodes == old(self)@.nodes.remove(id),
            final(self)@.edges == crate::graph_store::edges_avoiding(old(self)@.edges, id),
    {
        self.graph.remove(id)
    }

    /// The number of live bubbles.
    pub fn len(&self) -> (r: usize)
        ensures
            r == self@.nodes.len(),
    {
        self.graph.node_count()
    }

    /// The number of links.
    pub fn link_count(&self) -> (r: usize)
        ensures
            r == self@.edges.len(),
    {
        self.graph.edge_count()
    }

    /// Whether `id` is a live bubble.
    pub fn contains(&self, id: BubbleId) -> (r: bool)
        ensures
            r == self@.nodes.contains(id),
    {
        self.graph.contains_node(id)
    }

    /// The bubbles linked to `idx`, each once, in no particular order.
    pub fn neighbors(&self, idx: BubbleId) -> (r: Vec<BubbleId>)
        requires
            self.wf(),
        ensures
            r@.no_duplicates(),
            forall|b: BubbleId| r@.contains(b) <==> self@.adjacent(idx, b),
            !self@.nodes.contains(idx) ==> r@.len() == 0,
    {
        self.graph.neighbors(idx)
    }

    /// Where in a snapshot of bubble positions the bubbles linked to `id`
    /// stand: for each linked bubble that `snapshot` holds, the first
    /// position at which it holds it, each once, in no particular order.
    /// Linked bubbles that the snapshot lacks are left out.
    pub fn link_targets(&self, id: BubbleId, snapshot: &Vec<BubbleId>) -> (r: Vec<usize>)
        requires
            self.wf(),
        ensures
            r@.no_duplicates(),
            forall|k: usize|
                r@.contains(k) <==> first_index(snapshot@, k as int) && self@.adjacent(
                    id,
                    snapshot@[k as int],
                ),
    {
        let linked = self.graph.neighbors(id);
        let mut r: Vec<usize> = Vec::new();
        let mut i: usize = 0;
        while i < linked.len()
            invariant
                i <= linked.len(),
                linked@.no_duplicates(),
                r@.no_duplicates(),
                forall|k: usize|
                    r@.contains(k) <==> first_index(snapshot@, k as int)
                        && linked@.subrange(0, i as int).contains(snapshot@[k as int]),
            decreases linked.len() - i,
        {
            let ghost prev = r@;
            let b = linked[i];
            let found = find_first(snapshot, b);
            match found {
                Some(k) => {
                    proof {
                        assert forall|k2: usize| prev.contains(k2) implies k2 != k by {
                            let below = linked@.subrange(0, i as int);
                            let j = choose|j: int| 0 <= j < below.len() && below[j] == snapshot@[k2 as int];
                            assert(linked@[j] == snapshot@[k2 as int]);
                        }
                    }
                    r.push(k);
                },
                None => {},
            }
            proof {
                let upto = linked@.subrange(0, i + 1);
                let below = linked@.subrange(0, i as int);
                assert(upto[i as int] == b);
                assert forall|k: usize|
                    r@.contains(k) <==> first_index(snapshot@, k as int) && upto.contains(
                        snapshot@[k as int],
                    ) by {
                    if r@.contains(k) {
                        let t = choose|t: int| 0 <= t < r@.len() && r@[t] == k;
                        if t < prev.len() {
                            assert(prev[t] == k);
                        }
                    }
                    if prev.contains(k) {
                        let t = choose|t: int| 0 <= t < prev.len() && prev[t] == k;
                        assert(r@[t] == k);
                    }
                    if first_index(snapshot@, k as int) {
                        if upto.contains(snapshot@[k as int]) {
                            let j = choose|j: int| 0 <= j < upto.len() && upto[j] == snapshot@[k as int];
                            if j < i {
                                assert(below[j] == snapshot@[k as int]);
                            } else {
                                assert(snapshot@.contains(b));
                                assert(r@[r@.len() - 1] == k);
                            }
                        }
                        if below.contains(snapshot@[k as int]) {
                            let j = choose|j: int| 0 <= j < below.len() && below[j] == snapshot@[k as int];
                            assert(upto[j] == snapshot@[k as int]);
                        }
                    }
                }
            }
            i = i + 1;
        }
        proof {
            assert(linked@.subrange(0, i as int) == linked@);
        }
        r
    }
}

} // verus!
