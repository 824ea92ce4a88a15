//! The diagram text of a topology: styling directives, one statement per
//! node and per edge, then a legend.

use vstd::prelude::*;
use crate::text::decimal;
use crate::visualization::topology::Topology;

verus! {

/// The opening of every diagram: the graph's header and the styling of
/// graph, nodes and edges.
pub const DOT_PREAMBLE: &'static str = "digraph {
    rankdir=LR;
    splines=curved;
    bgcolor=\"#ffffff\";
    node [
        style=\"filled\",
        gradientangle=270,
        fillcolor=\"#88c0d0:#5e81ac\",
        shape=\"box\",
        rounded=true,
        fontname=\"Arial\",
        fontsize=12
    ];
    edge [
        color=\"#a3be8c\",
        penwidth=2.0,
        arrowsize=0.8
    ];
";

/// The close of every diagram: the legend and the closing brace.
pub const DOT_LEGEND: &'static str = "
    subgraph cluster_legend {
        label=\"Légende\";
        node [shape=none];
        legend [label=<
            <table border=\"0\">
                <tr><td>Nœud actif</td></tr>
                <tr><td>Canal ouvert</td></tr>
            </table>
        >];
    }
}
";

/// The statement of the node with handle `i`: the node is named and
/// labelled by its handle.
pub open spec fn node_statement(i: nat) -> Seq<char> {
    "    "@ + decimal(i) + " [ label = \""@ + decimal(i) + "\" ]\n"@
}

/// The statement of an edge from handle `from` to handle `to`; it carries
/// no label.
pub open spec fn edge_statement(from: nat, to: nat) -> Seq<char> {
    "    "@ + decimal(from) + " -> "@ + decimal(to) + " [ ]\n"@
}

/// The statements of the nodes with handles below `n`, in order.
pub open spec fn node_statements(n: nat) -> Seq<char>
    decreases n,
{
    if n == 0 {
        Seq::empty()
    } else {
        node_statements((n - 1) as nat) + node_statement((n - 1) as nat)
    }
}

/// The statements of `edges`, in order.
pub open spec fn edge_statements(edges: Seq<(nat, nat, Seq<char>)>) -> Seq<char>
    decreases edges.len(),
{
    if edges.len() == 0 {
        Seq::empty()
    } else {
        edge_statements(edges.drop_last()) + edge_statement(edges.last().0, edges.last().1)
    }
}

/// The statements of a topology: all nodes, then all edges.
pub open spec fn statements(t: Topology) -> Seq<char> {
    node_statements(t.labels.len()) + edge_statements(t.edges)
}

/// The diagram of a topology.
pub open spec fn diagram(t: Topology) -> Seq<char> {
    DOT_PREAMBLE@ + statements(t) + DOT_LEGEND@
}

/// The diagram of the empty graph holds the styling directives and the
/// legend and nothing between them: no node statement and no edge
/// statement.
pub proof fn lemma_empty_diagram()
    ensures
        statements(Topology::empty()) == Seq::<char>::empty(),
        diagram(Topology::empty()) == DOT_PREAMBLE@ + DOT_LEGEND@,
{
}

/// Every node and every edge adds exactly one statement: the statements of
/// a graph with one more node or one more edge are those of the graph
/// before, with the new statement in its place.
pub proof fn lemma_statements_grow(t: Topology, label: Seq<char>, edge: (nat, nat, Seq<char>))
    ensures
        node_statements(t.labels.push(label).len()) == node_statements(t.labels.len())
            + node_statement(t.labels.len()),
        edge_statements(t.edges.push(edge)) == edge_statements(t.edges) + edge_statement(
            edge.0,
            edge.1,
        ),
{
    assert(t.edges.push(edge).drop_last() =~= t.edges);
}

} // verus!
