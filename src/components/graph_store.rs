//! The directed multigraph behind a system graph is petgraph's `Graph`. This
//! module declares it to the verifier and states, over two names for its
//! contents, what each petgraph call used by the simulation does.
use petgraph::graph::{DiGraph, EdgeIndex, Graph, NodeIndex};
use vstd::prelude::*;

use super::system_graph::{SystemEdge, SystemNode};

verus! {

#[verifier::external_type_specification]
#[verifier::external_body]
#[verifier::reject_recursive_types(N)]
#[verifier::reject_recursive_types(E)]
#[verifier::reject_recursive_types(Ty)]
#[verifier::reject_recursive_types(Ix)]
pub struct ExGraph<N, E, Ty, Ix>(Graph<N, E, Ty, Ix>);

#[verifier::external_type_specification]
#[verifier::external_body]
#[verifier::reject_recursive_types(Ix)]
pub struct ExNodeIndex<Ix>(NodeIndex<Ix>);

#[verifier::external_type_specification]
#[verifier::external_body]
pub struct ExDirected(petgraph::Directed);

/// The node weights of a graph, in index order.
pub uninterp spec fn graph_nodes(g: DiGraph<SystemNode, SystemEdge>) -> Seq<SystemNode>;

/// The edges of a graph, in index order, each as (source, target, weight).
pub uninterp spec fn graph_edges(g: DiGraph<SystemNode, SystemEdge>) -> Seq<(usize, usize, SystemEdge)>;

/// The node identifier that petgraph builds for a position.
pub uninterp spec fn node_index_at(position: nat) -> NodeIndex;

/// Relies on `Graph::new`: a directed graph without nodes or edges.
#[verifier::external_body]
pub(crate) fn new_graph() -> (g: DiGraph<SystemNode, SystemEdge>)
    ensures
        graph_nodes(g) == Seq::<SystemNode>::empty(),
        graph_edges(g) == Seq::<(usize, usize, SystemEdge)>::empty(),
{
    DiGraph::new()
}

/// Relies on `Graph::node_count`: the length of the node list.
#[verifier::external_body]
pub(crate) fn node_total(g: &DiGraph<SystemNode, SystemEdge>) -> (r: usize)
    ensures
        r == graph_nodes(*g).len(),
{
    g.node_count()
}

/// Relies on `Graph::edge_count`: the length of the edge list.
#[verifier::external_body]
pub(crate) fn edge_total(g: &DiGraph<SystemNode, SystemEdge>) -> (r: usize)
    ensures
        r == graph_edges(*g).len(),
{
    g.edge_count()
}

/// Relies on `Graph::add_node`: the weight is appended to the node list and the
/// identifier of its position is returned. It panics once the `u32` index
/// space is exhausted.
#[verifier::external_body]
pub(crate) fn push_node(g: &mut DiGraph<SystemNode, SystemEdge>, node: SystemNode) -> (r: NodeIndex)
    requires
        graph_nodes(*old(g)).len() < u32::MAX,
    ensures
        graph_nodes(*final(g)) == graph_nodes(*old(g)).push(node),
        graph_edges(*final(g)) == graph_edges(*old(g)),
        r == node_index_at(graph_nodes(*old(g)).len()),
{
    g.add_node(node)
}

/// Relies on `Graph::add_edge`: the edge is appended to the edge list. It
/// panics when an endpoint is not a node or the `u32` index space is exhausted.
#[verifier::external_body]
pub(crate) fn push_edge(g: &mut DiGraph<SystemNode, SystemEdge>, from: usize, to: usize, edge: SystemEdge)
    requires
        graph_nodes(*old(g)).len() <= u32::MAX,
        from < graph_nodes(*old(g)).len(),
        to < graph_nodes(*old(g)).len(),
        graph_edges(*old(g)).len() < u32::MAX,
    ensures
        graph_nodes(*final(g)) == graph_nodes(*old(g)),
        graph_edges(*final(g)) == graph_edges(*old(g)).push((from, to, edge)),
{
    g.add_edge(NodeIndex::new(from), NodeIndex::new(to), edge);
}

/// Relies on indexing a `Graph` by `NodeIndex`: the weight at that position.
#[verifier::external_body]
pub(crate) fn node_at(g: &DiGraph<SystemNode, SystemEdge>, i: usize) -> (r: &SystemNode)
    requires
        graph_nodes(*g).len() <= u32::MAX,
        i < graph_nodes(*g).len(),
    ensures
        *r == graph_nodes(*g)[i as int],
{
    &g[NodeIndex::new(i)]
}

/// Relies on mutable indexing of a `Graph` by `NodeIndex`: the weight at that
/// position is written in place and nothing else changes.
#[verifier::external_body]
pub(crate) fn set_node_levels(g: &mut DiGraph<SystemNode, SystemEdge>, i: usize, health: u32, tech_debt: u32)
    requires
        graph_nodes(*old(g)).len() <= u32::MAX,
        i < graph_nodes(*old(g)).len(),
    ensures
        graph_nodes(*final(g)) == graph_nodes(*old(g)).update(
            i as int,
            SystemNode { health, tech_debt, ..graph_nodes(*old(g))[i as int] },
        ),
        graph_edges(*final(g)) == graph_edges(*old(g)),
{
    let node = &mut g[NodeIndex::new(i)];
    node.health = health;
    node.tech_debt = tech_debt;
}

/// Relies on `Graph::edge_endpoints`: the source and target positions of an
/// edge.
#[verifier::external_body]
pub(crate) fn edge_ends(g: &DiGraph<SystemNode, SystemEdge>, j: usize) -> (r: Option<(usize, usize)>)
    requires
        graph_edges(*g).len() <= u32::MAX,
        j < graph_edges(*g).len(),
    ensures
        r == Some((graph_edges(*g)[j as int].0, graph_edges(*g)[j as int].1)),
{
    g.edge_endpoints(EdgeIndex::new(j)).map(|(a, b)| (a.index(), b.index()))
}

/// Relies on indexing a `Graph` by `EdgeIndex`: the weight of that edge.
#[verifier::external_body]
pub(crate) fn edge_at(g: &DiGraph<SystemNode, SystemEdge>, j: usize) -> (r: &SystemEdge)
    requires
        graph_edges(*g).len() <= u32::MAX,
        j < graph_edges(*g).len(),
    ensures
        *r == graph_edges(*g)[j as int].2,
{
    &g[EdgeIndex::new(j)]
}

} // verus!
