//! The directed graph that backs a topology, and what is taken on trust
//! about it.
//!
//! The graph itself is `petgraph`'s adjacency-list `Graph`. Nothing in this
//! file is proved: each function below states, for one method of that type,
//! what its source shows it to do to the node and edge lists.

use crate::topology::{BranchId, BusId, TopologyEdge, TopologyNode};
use petgraph::graph::{EdgeIndex, Graph, NodeIndex};
use petgraph::Directed;
use vstd::prelude::*;

verus! {

/// `petgraph::graph::Graph`, held as an opaque value: what it contains is
/// spoken of only through `graph_nodes` and `graph_edges`.
#[verifier::external_type_specification]
#[verifier::external_body]
#[verifier::reject_recursive_types(N)]
#[verifier::reject_recursive_types(E)]
#[verifier::reject_recursive_types(Ty)]
#[verifier::reject_recursive_types(Ix)]
pub struct ExGraph<N, E, Ty, Ix>(Graph<N, E, Ty, Ix>);

/// `petgraph::Directed`, the marker type of graphs with directed edges.
#[verifier::external_type_specification]
#[verifier::external_body]
pub struct ExDirected(Directed);

/// Largest number of nodes, and of edges, that a graph indexed by `u32` holds:
/// the index `u32::MAX` itself is reserved as an end marker.
pub const INDEX_LIMIT: usize = 0xFFFF_FFFF;

/// The bus number carried by each node, in node-index order.
pub uninterp spec fn graph_nodes(g: Graph<TopologyNode, TopologyEdge, Directed, u32>) -> Seq<usize>;

/// `(source, target, branch number)` of each edge, in edge-index order.
pub uninterp spec fn graph_edges(g: Graph<TopologyNode, TopologyEdge, Directed, u32>) -> Seq<
    (usize, usize, usize),
>;

/// `Graph::clone`: a graph with the same nodes and edges under the same
/// indices.
#[verifier::external_body]
pub(crate) fn graph_clone(g: &Graph<TopologyNode, TopologyEdge, Directed, u32>) -> (copy: Graph<
    TopologyNode,
    TopologyEdge,
    Directed,
    u32,
>)
    ensures
        graph_nodes(copy) == graph_nodes(*g),
        graph_edges(copy) == graph_edges(*g),
{
    g.clone()
}

/// `Graph::new`: a graph with no node and no edge.
#[verifier::external_body]
pub(crate) fn graph_new() -> (g: Graph<TopologyNode, TopologyEdge, Directed, u32>)
    ensures
        graph_nodes(g) == Seq::<usize>::empty(),
        graph_edges(g) == Seq::<(usize, usize, usize)>::empty(),
{
    Graph::new()
}

/// `Graph::node_count`: the length of the node list.
#[verifier::external_body]
pub(crate) fn graph_node_count(g: &Graph<TopologyNode, TopologyEdge, Directed, u32>) -> (n: usize)
    ensures
        n == graph_nodes(*g).len(),
{
    g.node_count()
}

/// `Graph::edge_count`: the length of the edge list.
#[verifier::external_body]
pub(crate) fn graph_edge_count(g: &Graph<TopologyNode, TopologyEdge, Directed, u32>) -> (n: usize)
    ensures
        n == graph_edges(*g).len(),
{
    g.edge_count()
}

/// `Graph::add_node`: appends one node carrying `bus` and returns its index,
/// the previous node count. The method panics once the node count has
/// reached the index limit, which the precondition rules out.
#[verifier::external_body]
pub(crate) fn graph_add_node(
    g: &mut Graph<TopologyNode, TopologyEdge, Directed, u32>,
    bus: BusId,
) -> (ix: usize)
    requires
        graph_nodes(*old(g)).len() < INDEX_LIMIT,
    ensures
        graph_nodes(*final(g)) == graph_nodes(*old(g)).push(bus.0),
        graph_edges(*final(g)) == graph_edges(*old(g)),
        ix == graph_nodes(*old(g)).len(),
{
    g.add_node(TopologyNode { bus_id: bus }).index()
}

/// `Graph::add_edge`: appends one edge from node `a` to node `b` carrying
/// `branch` and returns its index, the previous edge count. Parallel edges
/// are kept as distinct edges. The method panics if either node does not
/// exist or the edge count has reached the index limit; the precondition
/// rules both out.
#[verifier::external_body]
pub(crate) fn graph_add_edge(
    g: &mut Graph<TopologyNode, TopologyEdge, Directed, u32>,
    a: usize,
    b: usize,
    branch: BranchId,
) -> (ix: usize)
    requires
        a < graph_nodes(*old(g)).len(),
        b < graph_nodes(*old(g)).len(),
        graph_nodes(*old(g)).len() <= INDEX_LIMIT,
        graph_edges(*old(g)).len() < INDEX_LIMIT,
    ensures
        graph_edges(*final(g)) == graph_edges(*old(g)).push((a, b, branch.0)),
        graph_nodes(*final(g)) == graph_nodes(*old(g)),
        ix == graph_edges(*old(g)).len(),
{
    g.add_edge(NodeIndex::new(a), NodeIndex::new(b), TopologyEdge { branch_id: branch }).index()
}

/// `Graph::edge_endpoints`: source and target of the edge with index `e`, or
/// `None` when there is no such edge. The index is narrowed to `u32` on the
/// way in, so it must fit.
#[verifier::external_body]
pub(crate) fn graph_edge_endpoints(
    g: &Graph<TopologyNode, TopologyEdge, Directed, u32>,
    e: usize,
) -> (ends: Option<(usize, usize)>)
    requires
        e <= INDEX_LIMIT,
    ensures
        e < graph_edges(*g).len() ==> ends == Some((graph_edges(*g)[e as int].0, graph_edges(*g)[e as int].1)),
        e >= graph_edges(*g).len() ==> ends.is_none(),
{
    g.edge_endpoints(EdgeIndex::new(e)).map(|(a, b)| (a.index(), b.index()))
}

} // verus!
