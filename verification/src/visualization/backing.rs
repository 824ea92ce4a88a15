//! The graph that backs the topology: `petgraph`'s `Graph`, with what
//! Verus is told of it.
//!
//! Everything in this file is trusted. The graph's type is opaque; its
//! contents are named by [`graph_nodes`] and [`graph_edges`], and each
//! function here makes one call into `petgraph`, with indices handed over
//! as plain numbers, and says what the call does to those contents.

use vstd::prelude::*;
use petgraph::dot::Config;
use petgraph::dot::Dot;
use petgraph::graph::EdgeIndex;
use petgraph::graph::Graph;
use petgraph::graph::NodeIndex;
use crate::text::text_of;
use crate::visualization::dot::edge_statements;
use crate::visualization::dot::node_statements;
use crate::visualization::topology::MAX_EDGES;
use crate::visualization::topology::MAX_NODES;

verus! {

/// Trusted: the type `petgraph::graph::Graph`, opaque to Verus.
#[verifier::external_type_specification]
#[verifier::external_body]
#[verifier::reject_recursive_types(N)]
#[verifier::reject_recursive_types(E)]
#[verifier::reject_recursive_types(Ty)]
#[verifier::reject_recursive_types(Ix)]
pub struct ExGraph<N, E, Ty, Ix>(Graph<N, E, Ty, Ix>);

/// Trusted: the marker type `petgraph::Directed`, opaque to Verus.
#[verifier::external_type_specification]
#[verifier::external_body]
pub struct ExDirected(petgraph::Directed);

/// The weights of the nodes of a `petgraph` graph, by node index.
pub uninterp spec fn graph_nodes(g: Graph<String, String>) -> Seq<Seq<char>>;

/// The edges of a `petgraph` graph, by edge index: the index of the source
/// node, the index of the target node and the weight.
pub uninterp spec fn graph_edges(g: Graph<String, String>) -> Seq<(nat, nat, Seq<char>)>;

/// Trusted: `Graph::new` of `petgraph`, which makes a directed graph
/// without nodes or edges.
#[verifier::external_body]
pub(crate) fn graph_new() -> (g: Graph<String, String>)
    ensures
        graph_nodes(g) == Seq::<Seq<char>>::empty(),
        graph_edges(g) == Seq::<(nat, nat, Seq<char>)>::empty(),
{
    Graph::new()
}

/// Trusted: `Graph::node_count` of `petgraph`, the number of nodes.
#[verifier::external_body]
pub(crate) fn graph_node_count(g: &Graph<String, String>) -> (n: usize)
    ensures
        n == graph_nodes(*g).len(),
{
    g.node_count()
}

/// Trusted: `Graph::edge_count` of `petgraph`, the number of edges.
#[verifier::external_body]
pub(crate) fn graph_edge_count(g: &Graph<String, String>) -> (n: usize)
    ensures
        n == graph_edges(*g).len(),
{
    g.edge_count()
}

/// Trusted: `Graph::add_node` of `petgraph`. It appends a node with the
/// given weight and returns its index, which is the number of nodes before
/// the call; edges are untouched. It panics on a graph that already holds
/// as many nodes as a 32-bit index can number, which `requires` rules out.
#[verifier::external_body]
pub(crate) fn graph_add_node(g: &mut Graph<String, String>, weight: String) -> (idx: usize)
    requires
        graph_nodes(*old(g)).len() < MAX_NODES,
    ensures
        idx == graph_nodes(*old(g)).len(),
        graph_nodes(*final(g)) == graph_nodes(*old(g)).push(weight@),
        graph_edges(*final(g)) == graph_edges(*old(g)),
{
    g.add_node(weight).index()
}

/// Trusted: `Graph::add_edge` of `petgraph`. It appends an edge from node
/// `from` to node `to` with the given weight; nodes are untouched. It
/// panics where an end is no node of the graph or the graph already holds
/// as many edges as a 32-bit index can number, which `requires` rules out.
#[verifier::external_body]
pub(crate) fn graph_add_edge(g: &mut Graph<String, String>, from: usize, to: usize, weight: String)
    requires
        from < graph_nodes(*old(g)).len(),
        to < graph_nodes(*old(g)).len(),
        graph_nodes(*old(g)).len() <= MAX_NODES,
        graph_edges(*old(g)).len() < MAX_EDGES,
    ensures
        graph_nodes(*final(g)) == graph_nodes(*old(g)),
        graph_edges(*final(g)) == graph_edges(*old(g)).push((from as nat, to as nat, weight@)),
{
    g.add_edge(NodeIndex::new(from), NodeIndex::new(to), weight);
}

/// Trusted: `Graph::node_weight` of `petgraph`, which gives the weight of
/// the node with the given index, here a copy of it. The index is one of
/// the graph and fits the 32 bits that `NodeIndex::new` keeps of it.
#[verifier::external_body]
pub(crate) fn graph_node_weight(g: &Graph<String, String>, idx: usize) -> (w: Option<String>)
    requires
        idx < graph_nodes(*g).len(),
        graph_nodes(*g).len() <= MAX_NODES,
    ensures
        text_of(w) == Some(graph_nodes(*g)[idx as int]),
{
    g.node_weight(NodeIndex::new(idx)).cloned()
}

/// Trusted: `Graph::edge_endpoints` of `petgraph`, which gives the indices
/// of the source and the target of the edge with the given index. The
/// index is one of the graph and fits the 32 bits that `EdgeIndex::new`
/// keeps of it.
#[verifier::external_body]
pub(crate) fn graph_edge_endpoints(g: &Graph<String, String>, idx: usize) -> (ends: Option<(usize, usize)>)
    requires
        idx < graph_edges(*g).len(),
        graph_edges(*g).len() <= MAX_EDGES,
    ensures
        match ends {
            Some((from, to)) => from == graph_edges(*g)[idx as int].0 && to == graph_edges(
                *g,
            )[idx as int].1,
            None => false,
        },
{
    match g.edge_endpoints(EdgeIndex::new(idx)) {
        Some((source, target)) => Some((source.index(), target.index())),
        None => None,
    }
}

/// Trusted: the `Debug` rendering of `petgraph::dot::Dot` with the options
/// `NodeIndexLabel`, `EdgeNoLabel` and `GraphContentOnly`. It writes one
/// line per node, in index order, that names and labels the node by its
/// index (`    0 [ label = "0" ]`), then one line per edge, in index order,
/// with the indices of its ends and no label (`    0 -> 1 [ ]`); it writes
/// no header and no closing brace. Indices are written in decimal.
#[verifier::external_body]
pub(crate) fn graph_statements(g: &Graph<String, String>) -> (s: String)
    ensures
        s@ == node_statements(graph_nodes(*g).len()) + edge_statements(graph_edges(*g)),
{
    format!(
        "{:?}",
        Dot::with_config(g, &[Config::NodeIndexLabel, Config::EdgeNoLabel, Config::GraphContentOnly])
    )
}

} // verus!
