//! The boundary to `petgraph`: the stable undirected graph that backs the
//! bubble graph, modelled as a set of live node indices and a map from edge
//! index to the edge's two endpoints.

use petgraph::stable_graph::{EdgeIndex, NodeIndex, StableGraph};
use petgraph::Undirected;
use vstd::prelude::*;

verus! {

#[verifier::external_type_specification]
#[verifier::external_body]
#[verifier::reject_recursive_types(N)]
#[verifier::reject_recursive_types(E)]
#[verifier::reject_recursive_types(Ty)]
#[verifier::reject_recursive_types(Ix)]
pub struct ExStableGraph<N, E, Ty, Ix>(StableGraph<N, E, Ty, Ix>);

#[verifier::external_type_specification]
#[verifier::external_body]
pub struct ExUndirected(Undirected);

/// The live node indices of a stable graph.
pub uninterp spec fn store_nodes(g: StableGraph<(), (), Undirected, u32>) -> Set<u32>;

/// The live edges of a stable graph: edge index to its two endpoints, in the
/// order in which the edge was added.
pub uninterp spec fn store_edges(g: StableGraph<(), (), Undirected, u32>) -> Map<u32, (u32, u32)>;

/// The number of node slots of a stable graph, live or vacant: the index
/// that the next node takes when no slot is vacant.
pub uninterp spec fn store_slots(g: StableGraph<(), (), Undirected, u32>) -> nat;

/// Some edge of `edges` joins `a` and `b`, in either orientation.
pub open spec fn links(edges: Map<u32, (u32, u32)>, a: u32, b: u32) -> bool {
    exists|e: u32|
        #![trigger edges.contains_key(e)]
        edges.contains_key(e) && (edges[e] == (a, b) || edges[e] == (b, a))
}

/// No two distinct edges join the same pair of nodes.
pub open spec fn pairs_unique(edges: Map<u32, (u32, u32)>) -> bool {
    forall|e1: u32, e2: u32|
        #![trigger edges.contains_key(e1), edges.contains_key(e2)]
        edges.contains_key(e1) && edges.contains_key(e2) && e1 != e2 ==> edges[e1] != edges[e2]
            && edges[e1] != (edges[e2].1, edges[e2].0)
}

/// The edges of `edges` that do not touch node `a`.
pub open spec fn edges_avoiding(edges: Map<u32, (u32, u32)>, a: u32) -> Map<u32, (u32, u32)> {
    Map::new(|e: u32| edges.contains_key(e) && edges[e].0 != a && edges[e].1 != a, |e: u32| edges[e])
}

/// Relies on `StableGraph::default`: a graph with no nodes and no edges.
#[verifier::external_body]
pub(crate) fn store_new() -> (r: StableGraph<(), (), Undirected, u32>)
    ensures
        store_nodes(r) == Set::<u32>::empty(),
        store_edges(r).dom() == Set::<u32>::empty(),
        store_slots(r) == 0,
{
    StableGraph::default()
}

/// Relies on `StableGraph::contains_node`: whether `a` is a live node.
#[verifier::external_body]
pub(crate) fn store_contains_node(g: &StableGraph<(), (), Undirected, u32>, a: u32) -> (r: bool)
    ensures
        r == store_nodes(*g).contains(a),
{
    g.contains_node(NodeIndex::new(a as usize))
}

/// Relies on `StableGraph::node_count`: the number of live nodes.
#[verifier::external_body]
pub(crate) fn store_node_count(g: &StableGraph<(), (), Undirected, u32>) -> (r: usize)
    ensures
        r == store_nodes(*g).len(),
{
    g.node_count()
}

/// Relies on `StableGraph::edge_count`: the number of live edges.
#[verifier::external_body]
pub(crate) fn store_edge_count(g: &StableGraph<(), (), Undirected, u32>) -> (r: usize)
    ensures
        r == store_edges(*g).len(),
{
    g.edge_count()
}

/// Relies on `StableGraph::add_node`: the node takes a vacant slot, whose
/// index is below the slot count, or else a new slot at the end, whose index
/// is the slot count; either way its index was not live before. When every
/// slot is live none is vacant. It panics only when every index below
/// `u32::MAX` is live, which `requires` leaves out.
#[verifier::external_body]
pub(crate) fn store_add_node(g: &mut StableGraph<(), (), Undirected, u32>) -> (r: u32)
    requires
        store_nodes(*old(g)).finite(),
        store_nodes(*old(g)).len() < u32::MAX,
    ensures
        !store_nodes(*old(g)).contains(r),
        store_nodes(*final(g)) == store_nodes(*old(g)).insert(r),
        store_edges(*final(g)) == store_edges(*old(g)),
        r as nat <= store_slots(*old(g)),
        store_slots(*final(g)) == if r as nat == store_slots(*old(g)) {
            store_slots(*old(g)) + 1
        } else {
            store_slots(*old(g))
        },
        (forall|i: u32| (i as nat) < store_slots(*old(g)) ==> store_nodes(*old(g)).contains(i))
            ==> r as nat == store_slots(*old(g)),
{
    g.add_node(()).index() as u32
}

/// Relies on `StableGraph::remove_node`: removes the node and every edge that
/// touches it, and tells whether the node was live.
#[verifier::external_body]
pub(crate) fn store_remove_node(g: &mut StableGraph<(), (), Undirected, u32>, a: u32) -> (r: bool)
    ensures
        r == store_nodes(*old(g)).contains(a),
        store_nodes(*final(g)) == store_nodes(*old(g)).remove(a),
        store_edges(*final(g)) == edges_avoiding(store_edges(*old(g)), a),
        store_slots(*final(g)) == store_slots(*old(g)),
{
    g.remove_node(NodeIndex::new(a as usize)).is_some()
}

/// Relies on `StableGraph::update_edge`: an edge that already joins `a` and
/// `b` (in an undirected graph, in either orientation) is kept, else a new
/// edge from `a` to `b` is added under an index that was not live. It panics
/// when an endpoint is not a live node, or when every edge index below
/// `u32::MAX` is live: `requires` leaves both out.
#[verifier::external_body]
pub(crate) fn store_update_edge(g: &mut StableGraph<(), (), Undirected, u32>, a: u32, b: u32) -> (r: u32)
    requires
        store_nodes(*old(g)).contains(a),
        store_nodes(*old(g)).contains(b),
        store_edges(*old(g)).dom().finite(),
        store_edges(*old(g)).len() < u32::MAX,
    ensures
        store_nodes(*final(g)) == store_nodes(*old(g)),
        store_slots(*final(g)) == store_slots(*old(g)),
        links(store_edges(*old(g)), a, b) ==> store_edges(*final(g)) == store_edges(*old(g)),
        !links(store_edges(*old(g)), a, b) ==> !store_edges(*old(g)).contains_key(r)
            && store_edges(*final(g)) == store_edges(*old(g)).insert(r, (a, b)),
{
    g.update_edge(NodeIndex::new(a as usize), NodeIndex::new(b as usize), ()).index() as u32
}

/// Relies on `StableGraph::remove_edge`: removes the edge with index `e` and
/// tells whether it was live.
#[verifier::external_body]
pub(crate) fn store_remove_edge(g: &mut StableGraph<(), (), Undirected, u32>, e: u32) -> (r: bool)
    ensures
        r == store_edges(*old(g)).contains_key(e),
        store_nodes(*final(g)) == store_nodes(*old(g)),
        store_edges(*final(g)) == store_edges(*old(g)).remove(e),
        store_slots(*final(g)) == store_slots(*old(g)),
{
    g.remove_edge(EdgeIndex::new(e as usize)).is_some()
}

/// Relies on `StableGraph::neighbors`: in an undirected graph, the other
/// endpoint of each edge that touches `a` (a loop counted once), and nothing
/// for a node that is not live.
#[verifier::external_body]
pub(crate) fn store_neighbors(g: &StableGraph<(), (), Undirected, u32>, a: u32) -> (r: Vec<u32>)
    ensures
        forall|b: u32| r@.contains(b) <==> links(store_edges(*g), a, b),
        !store_nodes(*g).contains(a) ==> r@.len() == 0,
        pairs_unique(store_edges(*g)) ==> r@.no_duplicates(),
{
    g.neighbors(NodeIndex::new(a as usize)).map(|x| x.index() as u32).collect()
}

} // verus!
