//! The topology graph itself: a directed graph of peers and channels, built
//! from peers' snapshots and rendered as a diagram.

use vstd::prelude::*;
use vstd::string::*;
use vstd::hash_map::StringHashMap;
use petgraph::graph::Graph;
use crate::document::Document;
use crate::error::HarnessError;
use crate::error::InfoField;
use crate::text::first_chars;
use crate::text::push_decimal;
use crate::text::text_of;
use crate::visualization::backing::graph_add_edge;
use crate::visualization::backing::graph_add_node;
use crate::visualization::backing::graph_edge_count;
use crate::visualization::backing::graph_edge_endpoints;
use crate::visualization::backing::graph_edges;
use crate::visualization::backing::graph_new;
use crate::visualization::backing::graph_node_count;
use crate::visualization::backing::graph_node_weight;
use crate::visualization::backing::graph_nodes;
use crate::visualization::backing::graph_statements;
use crate::visualization::dot::diagram;
use crate::visualization::dot::DOT_LEGEND;
use crate::visualization::dot::DOT_PREAMBLE;
use crate::visualization::snapshot::aggregate_capacity;
use crate::visualization::snapshot::channel_views;
use crate::visualization::snapshot::channels_of;
use crate::visualization::snapshot::node_info_of;
use crate::visualization::snapshot::total_capacity;
use crate::visualization::snapshot::Funds;
use crate::visualization::snapshot::NodeInfo;
use crate::visualization::topology::edge_label;
use crate::visualization::topology::lemma_add_channel_wf;
use crate::visualization::topology::lemma_add_node_wf;
use crate::visualization::topology::lemma_link_all_grows;
use crate::visualization::topology::lemma_room_suffices;
use crate::visualization::topology::merge_result;
use crate::visualization::topology::node_label;
use crate::visualization::topology::Topology;
use crate::visualization::topology::MAX_EDGES;
use crate::visualization::topology::MAX_NODES;

verus! {

/// The label text of a new node.
fn make_node_label(alias: &str, id: &str, capacity: u64, state: &str) -> (label: String)
    ensures
        label@ == node_label(alias@, id@, capacity as nat, state@),
{
    let mut label = alias.to_owned();
    label.append("\n(");
    let short = first_chars(id, 8);
    label.append(short.as_str());
    label.append(")\nCapacité: ");
    push_decimal(&mut label, capacity);
    label.append(" sats\nÉtat: ");
    label.append(state);
    label
}

/// The label text of a new edge.
fn make_edge_label(capacity: &str) -> (label: String)
    ensures
        label@ == edge_label(capacity@),
{
    let mut label = "Capacité: ".to_owned();
    label.append(capacity);
    label.append("\nÉtat: actif");
    label
}

/// A directed graph of peers and channels.
///
/// Its view is the [`Topology`] it holds. Every operation asks for a well
/// formed graph and leaves one.
pub struct NetworkGraph {
    graph: Graph<String, String>,
    node_indices: StringHashMap<usize>,
    node_capacities: StringHashMap<u64>,
    node_states: StringHashMap<String>,
}

impl View for NetworkGraph {
    type V = Topology;

    closed spec fn view(&self) -> Topology {
        Topology {
            labels: graph_nodes(self.graph),
            handles: Map::new(
                |id: Seq<char>| self.node_indices@.contains_key(id),
                |id: Seq<char>| self.node_indices@[id] as nat,
            ),
            capacities: Map::new(
                |id: Seq<char>| self.node_capacities@.contains_key(id),
                |id: Seq<char>| self.node_capacities@[id] as nat,
            ),
            states: Map::new(
                |id: Seq<char>| self.node_states@.contains_key(id),
                |id: Seq<char>| self.node_states@[id]@,
            ),
            edges: graph_edges(self.graph),
        }
    }
}

impl NetworkGraph {
    /// The empty graph.
    pub fn new() -> (g: Self)
        ensures
            g@ == Topology::empty(),
            g@.wf(),
    {
        let g = NetworkGraph {
            graph: graph_new(),
            node_indices: StringHashMap::new(),
            node_capacities: StringHashMap::new(),
            node_states: StringHashMap::new(),
        };
        proof {
            assert(g@.handles =~= Map::<Seq<char>, nat>::empty());
            assert(g@.capacities =~= Map::<Seq<char>, nat>::empty());
            assert(g@.states =~= Map::<Seq<char>, Seq<char>>::empty());
        }
        g
    }

    /// The number of nodes.
    pub fn node_count(&self) -> (n: usize)
        ensures
            n == self@.labels.len(),
    {
        graph_node_count(&self.graph)
    }

    /// The number of edges.
    pub fn edge_count(&self) -> (n: usize)
        ensures
            n == self@.edges.len(),
    {
        graph_edge_count(&self.graph)
    }

    /// The handle of the node of `node_id`, if it has one.
    pub fn handle(&self, node_id: &str) -> (h: Option<usize>)
        ensures
            match h {
                Some(idx) => self@.handles.contains_key(node_id@) && idx == self@.handles[node_id@],
                None => !self@.handles.contains_key(node_id@),
            },
    {
        match self.node_indices.get(node_id) {
            Some(idx) => Some(*idx),
            None => None,
        }
    }

    /// The aggregate capacity last recorded for `node_id`, zero where none
    /// was.
    pub fn capacity(&self, node_id: &str) -> (c: u64)
        ensures
            c == self@.capacity_of(node_id@),
    {
        match self.node_capacities.get(node_id) {
            Some(c) => *c,
            None => 0,
        }
    }

    /// The state last recorded for `node_id`, `unknown` where none was.
    pub fn state(&self, node_id: &str) -> (s: String)
        ensures
            s@ == self@.state_of(node_id@),
    {
        match self.node_states.get(node_id) {
            Some(s) => s.clone(),
            None => "unknown".to_owned(),
        }
    }

    /// The label of the node with the given handle, if there is one.
    pub fn label(&self, handle: usize) -> (l: Option<String>)
        requires
            self@.wf(),
        ensures
            text_of(l) == (if handle < self@.labels.len() {
                Some(self@.labels[handle as int])
            } else {
                None
            }),
    {
        if handle >= graph_node_count(&self.graph) {
            return None;
        }
        graph_node_weight(&self.graph, handle)
    }

    /// The handles that the edge with the given index leaves and enters, if
    /// there is such an edge.
    pub fn endpoints(&self, index: usize) -> (ends: Option<(usize, usize)>)
        requires
            self@.wf(),
        ensures
            match ends {
                Some((from, to)) => index < self@.edges.len() && from == self@.edges[index as int].0
                    && to == self@.edges[index as int].1,
                None => index >= self@.edges.len(),
            },
    {
        if index >= graph_edge_count(&self.graph) {
            return None;
        }
        graph_edge_endpoints(&self.graph, index)
    }

    /// Gives `node_id` a node, unless it has one, and returns the node's
    /// handle. A new node is labelled with the alias, the start of the
    /// identity, and the capacity and state recorded for the identity.
    pub fn add_node(&mut self, node_id: &str, alias: &str) -> (idx: usize)
        requires
            old(self)@.wf(),
            old(self)@.add_node(node_id@, alias@).labels.len() <= MAX_NODES,
        ensures
            final(self)@ == old(self)@.add_node(node_id@, alias@),
            final(self)@.wf(),
            final(self)@.handles.contains_key(node_id@),
            idx == final(self)@.handles[node_id@],
            old(self)@.handles.contains_key(node_id@) ==> idx == old(self)@.handles[node_id@],
    {
        proof {
            lemma_add_node_wf(self@, node_id@, alias@);
        }
        match self.node_indices.get(node_id) {
            Some(idx) => {
                return *idx;
            },
            None => {},
        }
        let capacity = self.capacity(node_id);
        let state = self.state(node_id);
        let label = make_node_label(alias, node_id, capacity, state.as_str());
        let idx = graph_add_node(&mut self.graph, label);
        self.node_indices.insert(node_id.to_owned(), idx);
        assert(self@.handles =~= old(self)@.add_node(node_id@, alias@).handles);
        idx
    }

    /// Adds an edge from the node of `from_id` to the node of `to_id`,
    /// labelled with `capacity`. Where either identity has no node, nothing
    /// happens.
    pub fn add_channel(&mut self, from_id: &str, to_id: &str, capacity: &str)
        requires
            old(self)@.wf(),
            old(self)@.add_channel(from_id@, to_id@, capacity@).edges.len() <= MAX_EDGES,
        ensures
            final(self)@ == old(self)@.add_channel(from_id@, to_id@, capacity@),
            final(self)@.wf(),
    {
        proof {
            lemma_add_channel_wf(self@, from_id@, to_id@, capacity@);
        }
        let from = match self.node_indices.get(from_id) {
            Some(idx) => *idx,
            None => {
                return ;
            },
        };
        let to = match self.node_indices.get(to_id) {
            Some(idx) => *idx,
            None => {
                return ;
            },
        };
        let label = make_edge_label(capacity);
        graph_add_edge(&mut self.graph, from, to, label);
    }

    /// Whether the graph has room for what a peer's status document and
    /// funds document may add: where the status document is complete, the
    /// aggregate capacity must fit in 64 bits, and one node more and, for
    /// every listed channel, a node and an edge more must be within the
    /// limits. Documents for which this holds can be merged.
    pub fn has_room(&self, node_info: &Document, channels: &Document) -> (ok: bool)
        requires
            self@.wf(),
        ensures
            ok == self@.has_room(node_info_of(*node_info), channels_of(*channels)),
            ok ==> self@.can_merge(node_info_of(*node_info), channels_of(*channels)),
    {
        proof {
            if self@.has_room(node_info_of(*node_info), channels_of(*channels)) {
                lemma_room_suffices(self@, node_info_of(*node_info), channels_of(*channels));
            }
        }
        let info = NodeInfo::from_document(node_info);
        if info.id.is_none() || info.alias.is_none() {
            return true;
        }
        let funds = Funds::from_document(channels);
        let nodes = graph_node_count(&self.graph);
        let edges = graph_edge_count(&self.graph);
        match &funds.channels {
            Some(list) => {
                let entries = list.len();
                aggregate_capacity(list).is_some() && nodes < MAX_NODES && entries <= MAX_NODES
                    - nodes - 1 && entries <= MAX_EDGES - edges
            },
            None => nodes < MAX_NODES,
        }
    }

    /// Merges a peer's status document and funds document into the graph.
    ///
    /// A status document without identity or alias is refused and the graph
    /// stays as it was. Otherwise the peer's funds are recorded where the
    /// funds document holds a channel list (the aggregate capacity, and the
    /// state `active`), the peer gets a node unless it has one, and every
    /// channel that names its far end and its capacity gives the far end a
    /// node (alias `Unknown`) unless it has one, and an edge to it.
    ///
    /// The graph that results must be within the limits on nodes and edges,
    /// and the aggregate capacity must fit in 64 bits.
    pub fn update_from_node_info(&mut self, node_info: &Document, channels: &Document) -> (r: Result<
        (),
        HarnessError,
    >)
        requires
            old(self)@.wf(),
            old(self)@.can_merge(node_info_of(*node_info), channels_of(*channels)),
        ensures
            final(self)@.wf(),
            final(self)@ == old(self)@.merged(node_info_of(*node_info), channels_of(*channels)),
            r == merge_result(node_info_of(*node_info)),
    {
        let info = NodeInfo::from_document(node_info);
        let funds = Funds::from_document(channels);
        self.merge_snapshot(&info, &funds)
    }

    /// Merges a peer's snapshot into the graph, as
    /// [`NetworkGraph::update_from_node_info`] does with the documents that
    /// the snapshot was read from.
    pub fn merge_snapshot(&mut self, node_info: &NodeInfo, funds: &Funds) -> (r: Result<
        (),
        HarnessError,
    >)
        requires
            old(self)@.wf(),
            old(self)@.can_merge(node_info@, funds@),
        ensures
            final(self)@.wf(),
            final(self)@ == old(self)@.merged(node_info@, funds@),
            r == merge_result(node_info@),
    {
        let id = match &node_info.id {
            Some(id) => id,
            None => {
                return Err(HarnessError::MissingField(InfoField::Id));
            },
        };
        let alias = match &node_info.alias {
            Some(alias) => alias,
            None => {
                return Err(HarnessError::MissingField(InfoField::Alias));
            },
        };
        let ghost start = self@;
        match &funds.channels {
            Some(list) => {
                let total = match aggregate_capacity(list) {
                    Some(total) => total,
                    None => 0,
                };
                self.node_capacities.insert(id.clone(), total);
                self.node_states.insert(id.clone(), "active".to_owned());
                proof {
                    let want = start.record_funds(id@, total_capacity(funds@->0));
                    assert(self@.capacities =~= want.capacities);
                    assert(self@.states =~= want.states);
                    lemma_link_all_grows(want.add_node(id@, alias@), id@, funds@->0, 0);
                }
            },
            None => {},
        }
        self.add_node(id.as_str(), alias.as_str());
        match &funds.channels {
            Some(list) => {
                let ghost base = self@;
                let ghost views = channel_views(list@);
                let n = list.len();
                let mut i: usize = 0;
                while i < n
                    invariant
                        i <= n,
                        n == list@.len(),
                        views == channel_views(list@),
                        self@ == base.link_all(id@, views.take(i as int)),
                        self@.wf(),
                        base.link_all(id@, views).fits(),
                    decreases n - i,
                {
                    let channel = &list[i];
                    proof {
                        let next = views.take(i + 1);
                        assert(next.drop_last() =~= views.take(i as int));
                        lemma_link_all_grows(base, id@, views, i + 1);
                    }
                    match (&channel.peer_id, &channel.amount_msat) {
                        (Some(peer), Some(capacity)) => {
                            self.add_node(peer.as_str(), "Unknown");
                            self.add_channel(id.as_str(), peer.as_str(), capacity.as_str());
                        },
                        _ => {},
                    }
                    i = i + 1;
                }
                assert(views.take(n as int) =~= views);
            },
            None => {},
        }
        Ok(())
    }

    /// The diagram of the graph: the styling directives, the statements of
    /// all nodes and edges, and the legend.
    pub fn to_dot(&self) -> (dot: String)
        ensures
            dot@ == diagram(self@),
    {
        let mut dot = DOT_PREAMBLE.to_owned();
        let body = graph_statements(&self.graph);
        dot.append(body.as_str());
        dot.append(DOT_LEGEND);
        dot
    }
}

} // verus!
