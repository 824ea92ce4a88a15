//! The mathematical model of the topology graph: what the graph holds and
//! how each operation changes it, with the laws that follow.

use vstd::prelude::*;
use crate::text::decimal;
use crate::text::prefix;
use crate::error::HarnessError;
use crate::visualization::snapshot::ChannelView;
use crate::visualization::snapshot::NodeInfoView;
use crate::visualization::snapshot::total_capacity;

verus! {

/// The most nodes a graph can hold.
pub const MAX_NODES: usize = 0xFFFF_FFFF;

/// The most edges a graph can hold.
pub const MAX_EDGES: usize = 0xFFFF_FFFF;

/// What a topology graph holds.
///
/// A node is known by its handle, its position in `labels`. An edge is a
/// triple of the handle it leaves, the handle it enters and its label.
pub struct Topology {
    /// The display label of every node, by handle.
    pub labels: Seq<Seq<char>>,
    /// The handle of every peer identity that has a node.
    pub handles: Map<Seq<char>, nat>,
    /// The last aggregate capacity recorded for an identity.
    pub capacities: Map<Seq<char>, nat>,
    /// The last state recorded for an identity.
    pub states: Map<Seq<char>, Seq<char>>,
    /// The directed edges, in the order they were added.
    pub edges: Seq<(nat, nat, Seq<char>)>,
}

/// The label of a node: its alias, the first eight characters of its
/// identity, its capacity and its state, on four lines.
pub open spec fn node_label(
    alias: Seq<char>,
    id: Seq<char>,
    capacity: nat,
    state: Seq<char>,
) -> Seq<char> {
    alias + "\n("@ + prefix(id, 8) + ")\nCapacité: "@ + decimal(capacity) + " sats\nÉtat: "@
        + state
}

/// The label of an edge whose capacity reads `capacity`.
pub open spec fn edge_label(capacity: Seq<char>) -> Seq<char> {
    "Capacité: "@ + capacity + "\nÉtat: actif"@
}

impl Topology {
    /// The graph without nodes, edges or records.
    pub open spec fn empty() -> Topology {
        Topology {
            labels: Seq::empty(),
            handles: Map::empty(),
            capacities: Map::empty(),
            states: Map::empty(),
            edges: Seq::empty(),
        }
    }

    /// The invariant of a topology: identities and handles correspond one to
    /// one, every edge joins two nodes of the graph, and the graph is within
    /// its limits.
    pub open spec fn wf(self) -> bool {
        &&& self.handles.dom().finite()
        &&& self.handles.len() == self.labels.len()
        &&& forall|id: Seq<char>| #[trigger]
            self.handles.contains_key(id) ==> self.handles[id] < self.labels.len()
        &&& forall|a: Seq<char>, b: Seq<char>|
            #![trigger self.handles[a], self.handles[b]]
            self.handles.contains_key(a) && self.handles.contains_key(b) && self.handles[a]
                == self.handles[b] ==> a == b
        &&& forall|i: int|
            0 <= i < self.edges.len() ==> (#[trigger] self.edges[i]).0 < self.labels.len()
                && self.edges[i].1 < self.labels.len()
        &&& self.fits()
    }

    /// Whether the graph is within the limits on nodes and edges.
    pub open spec fn fits(self) -> bool {
        self.labels.len() <= MAX_NODES && self.edges.len() <= MAX_EDGES
    }

    /// The capacity last recorded for `id`, zero where none was.
    pub open spec fn capacity_of(self, id: Seq<char>) -> nat {
        if self.capacities.contains_key(id) {
            self.capacities[id]
        } else {
            0
        }
    }

    /// The state last recorded for `id`, `unknown` where none was.
    pub open spec fn state_of(self, id: Seq<char>) -> Seq<char> {
        if self.states.contains_key(id) {
            self.states[id]
        } else {
            "unknown"@
        }
    }

    /// The graph after `add_node`: unchanged where `id` has a node, else
    /// with one more node, labelled from what is recorded for `id`.
    pub open spec fn add_node(self, id: Seq<char>, alias: Seq<char>) -> Topology {
        if self.handles.contains_key(id) {
            self
        } else {
            Topology {
                labels: self.labels.push(
                    node_label(alias, id, self.capacity_of(id), self.state_of(id)),
                ),
                handles: self.handles.insert(id, self.labels.len()),
                ..self
            }
        }
    }

    /// The graph after `add_channel`: with one more edge where both ends
    /// have a node, else unchanged.
    pub open spec fn add_channel(
        self,
        from: Seq<char>,
        to: Seq<char>,
        capacity: Seq<char>,
    ) -> Topology {
        if self.handles.contains_key(from) && self.handles.contains_key(to) {
            Topology {
                edges: self.edges.push((self.handles[from], self.handles[to], edge_label(capacity))),
                ..self
            }
        } else {
            self
        }
    }

    /// The graph after the funds of `id` were recorded as `total`.
    pub open spec fn record_funds(self, id: Seq<char>, total: nat) -> Topology {
        Topology {
            capacities: self.capacities.insert(id, total),
            states: self.states.insert(id, "active"@),
            ..self
        }
    }

    /// The graph after one channel of `from` was merged: a channel that
    /// names its peer and its capacity gives the peer a node, under the
    /// alias `Unknown` where it had none, and an edge to it.
    pub open spec fn link(self, from: Seq<char>, c: ChannelView) -> Topology {
        match (c.peer_id, c.amount_msat) {
            (Some(peer), Some(capacity)) => self.add_node(peer, "Unknown"@).add_channel(
                from,
                peer,
                capacity,
            ),
            _ => self,
        }
    }

    /// The graph after all channels of `from` were merged, first to last.
    pub open spec fn link_all(self, from: Seq<char>, channels: Seq<ChannelView>) -> Topology
        decreases channels.len(),
    {
        if channels.len() == 0 {
            self
        } else {
            self.link_all(from, channels.drop_last()).link(from, channels.last())
        }
    }

    /// The graph after a peer's snapshot was merged. With a channel list the
    /// peer's funds are recorded first, so that a node made for it shows
    /// them; without one nothing is recorded.
    pub open spec fn merge(
        self,
        id: Seq<char>,
        alias: Seq<char>,
        channels: Option<Seq<ChannelView>>,
    ) -> Topology {
        match channels {
            Some(list) => self.record_funds(id, total_capacity(list)).add_node(id, alias).link_all(
                id,
                list,
            ),
            None => self.add_node(id, alias),
        }
    }

    /// The graph after a peer's report and channel list were taken in: as
    /// it was where the report lacks a field, else with the peer merged.
    pub open spec fn merged(self, info: NodeInfoView, channels: Option<Seq<ChannelView>>) -> Topology {
        if info.missing() is None {
            self.merge(info.id->0, info.alias->0, channels)
        } else {
            self
        }
    }

    /// Whether a peer's report and channel list can be taken in: where the
    /// report is complete, the aggregate capacity must fit in 64 bits and
    /// the graph that results must be within its limits.
    pub open spec fn can_merge(self, info: NodeInfoView, channels: Option<Seq<ChannelView>>) -> bool {
        info.missing() is None ==> {
            &&& channels is Some ==> total_capacity(channels->0) <= u64::MAX
            &&& self.merge(info.id->0, info.alias->0, channels).fits()
        }
    }

    /// Whether the graph has room for whatever a peer's report and channel
    /// list may add: the aggregate capacity fits in 64 bits, and the graph
    /// stays within its limits even if the peer and the far end of every
    /// channel are new.
    pub open spec fn has_room(self, info: NodeInfoView, channels: Option<Seq<ChannelView>>) -> bool {
        info.missing() is None ==> match channels {
            Some(list) => {
                &&& total_capacity(list) <= u64::MAX
                &&& self.labels.len() + 1 + list.len() <= MAX_NODES
                &&& self.edges.len() + list.len() <= MAX_EDGES
            },
            None => self.labels.len() + 1 <= MAX_NODES,
        }
    }
}

/// What taking in a peer's report answers: the field that the report lacks,
/// or success.
pub open spec fn merge_result(info: NodeInfoView) -> Result<(), HarnessError> {
    match info.missing() {
        Some(field) => Err(HarnessError::MissingField(field)),
        None => Ok(()),
    }
}

/// The empty graph is well formed.
pub proof fn lemma_empty_wf()
    ensures
        Topology::empty().wf(),
{
}

/// Adding a node keeps the graph well formed, as long as it stays within
/// the limit on nodes.
pub proof fn lemma_add_node_wf(t: Topology, id: Seq<char>, alias: Seq<char>)
    requires
        t.wf(),
        t.add_node(id, alias).labels.len() <= MAX_NODES,
    ensures
        t.add_node(id, alias).wf(),
        t.add_node(id, alias).handles.contains_key(id),
{
}

/// Adding a channel keeps the graph well formed, as long as it stays within
/// the limit on edges.
pub proof fn lemma_add_channel_wf(t: Topology, from: Seq<char>, to: Seq<char>, capacity: Seq<char>)
    requires
        t.wf(),
        t.add_channel(from, to, capacity).edges.len() <= MAX_EDGES,
    ensures
        t.add_channel(from, to, capacity).wf(),
{
}

/// Adding a node twice is adding it once: the second call changes nothing,
/// whatever alias it gives, and the identity keeps the handle the first call
/// gave it.
pub proof fn lemma_add_node_idempotent(t: Topology, id: Seq<char>, a: Seq<char>, b: Seq<char>)
    ensures
        t.add_node(id, a).add_node(id, b) == t.add_node(id, a),
        t.add_node(id, a).add_node(id, b).handles[id] == t.add_node(id, a).handles[id],
        t.add_node(id, a).add_node(id, b).labels.len() == t.add_node(id, a).labels.len(),
{
}

/// A channel between identities of which one has no node leaves the graph
/// as it is: no edge is added.
pub proof fn lemma_add_channel_needs_both_ends(
    t: Topology,
    from: Seq<char>,
    to: Seq<char>,
    capacity: Seq<char>,
)
    requires
        !t.handles.contains_key(from) || !t.handles.contains_key(to),
    ensures
        t.add_channel(from, to, capacity) == t,
        t.add_channel(from, to, capacity).edges.len() == t.edges.len(),
{
}

/// An edge is only ever added between two nodes of the graph.
pub proof fn lemma_add_channel_joins_nodes(
    t: Topology,
    from: Seq<char>,
    to: Seq<char>,
    capacity: Seq<char>,
)
    requires
        t.wf(),
        t.handles.contains_key(from),
        t.handles.contains_key(to),
    ensures
        t.add_channel(from, to, capacity).edges == t.edges.push(
            (t.handles[from], t.handles[to], edge_label(capacity)),
        ),
        t.handles[from] < t.labels.len(),
        t.handles[to] < t.labels.len(),
{
}

/// Merging channels only ever adds nodes and edges, and changes no record.
pub proof fn lemma_link_all_grows(t: Topology, from: Seq<char>, channels: Seq<ChannelView>, k: int)
    requires
        0 <= k <= channels.len(),
    ensures
        t.link_all(from, channels.take(k)).labels.len() <= t.link_all(from, channels).labels.len(),
        t.link_all(from, channels.take(k)).edges.len() <= t.link_all(from, channels).edges.len(),
        t.link_all(from, channels).capacities == t.capacities,
        t.link_all(from, channels).states == t.states,
        t.labels.len() <= t.link_all(from, channels).labels.len(),
        t.edges.len() <= t.link_all(from, channels).edges.len(),
    decreases channels.len(),
{
    if channels.len() > 0 {
        lemma_link_all_grows(t, from, channels.drop_last(), 0);
        if k == channels.len() {
            assert(channels.take(k) =~= channels);
        } else {
            assert(channels.drop_last().take(k) =~= channels.take(k));
            lemma_link_all_grows(t, from, channels.drop_last(), k);
        }
    }
}

/// Merging channels adds at most one node and one edge per channel.
pub proof fn lemma_link_all_bounded(t: Topology, from: Seq<char>, channels: Seq<ChannelView>)
    ensures
        t.link_all(from, channels).labels.len() <= t.labels.len() + channels.len(),
        t.link_all(from, channels).edges.len() <= t.edges.len() + channels.len(),
    decreases channels.len(),
{
    if channels.len() > 0 {
        lemma_link_all_bounded(t, from, channels.drop_last());
    }
}

/// A graph with room for a report and a channel list can take them in.
pub proof fn lemma_room_suffices(
    t: Topology,
    info: NodeInfoView,
    channels: Option<Seq<ChannelView>>,
)
    requires
        t.wf(),
        t.has_room(info, channels),
    ensures
        t.can_merge(info, channels),
{
    if info.missing() is None {
        let id = info.id->0;
        match channels {
            Some(list) => {
                let recorded = t.record_funds(id, total_capacity(list)).add_node(id, info.alias->0);
                lemma_link_all_bounded(recorded, id, list);
            },
            None => {},
        }
    }
}

/// Merging channels keeps a node that was there, under its handle.
pub proof fn lemma_link_all_keeps_nodes(
    t: Topology,
    from: Seq<char>,
    channels: Seq<ChannelView>,
    id: Seq<char>,
)
    requires
        t.handles.contains_key(id),
    ensures
        t.link_all(from, channels).handles.contains_key(id),
        t.link_all(from, channels).handles[id] == t.handles[id],
    decreases channels.len(),
{
    if channels.len() > 0 {
        lemma_link_all_keeps_nodes(t, from, channels.drop_last(), id);
    }
}

/// Merging a snapshot keeps the graph well formed, as long as the result
/// is within the limits.
pub proof fn lemma_link_all_wf(t: Topology, from: Seq<char>, channels: Seq<ChannelView>)
    requires
        t.wf(),
        t.link_all(from, channels).fits(),
    ensures
        t.link_all(from, channels).wf(),
    decreases channels.len(),
{
    if channels.len() > 0 {
        let before = t.link_all(from, channels.drop_last());
        let c = channels.last();
        lemma_link_all_wf(t, from, channels.drop_last());
        match (c.peer_id, c.amount_msat) {
            (Some(peer), Some(capacity)) => {
                lemma_add_node_wf(before, peer, "Unknown"@);
                lemma_add_channel_wf(before.add_node(peer, "Unknown"@), from, peer, capacity);
            },
            _ => {},
        }
    }
}

/// After a complete report was taken in with a channel list, the peer's
/// aggregate capacity is the sum of the amounts of the listed channels and
/// its state is `active`. After one without a channel list, both are what
/// they were before: zero and `unknown` for a peer of which nothing was
/// recorded.
pub proof fn lemma_merge_records_capacity(
    t: Topology,
    info: NodeInfoView,
    channels: Option<Seq<ChannelView>>,
)
    requires
        info.missing() is None,
    ensures
        channels is Some ==> t.merged(info, channels).capacity_of(info.id->0) == total_capacity(
            channels->0,
        ),
        channels is Some ==> t.merged(info, channels).state_of(info.id->0) == "active"@,
        channels is None ==> t.merged(info, channels).capacity_of(info.id->0) == t.capacity_of(
            info.id->0,
        ),
        channels is None ==> t.merged(info, channels).state_of(info.id->0) == t.state_of(
            info.id->0,
        ),
        channels is None && !t.capacities.contains_key(info.id->0) ==> t.merged(
            info,
            channels,
        ).capacity_of(info.id->0) == 0,
        channels is None && !t.states.contains_key(info.id->0) ==> t.merged(
            info,
            channels,
        ).state_of(info.id->0) == "unknown"@,
{
    match channels {
        Some(list) => {
            let id = info.id->0;
            let recorded = t.record_funds(id, total_capacity(list)).add_node(id, info.alias->0);
            lemma_link_all_grows(recorded, id, list, 0);
        },
        None => {},
    }
}

/// A report that lacks its identity or its alias changes nothing: the
/// graph is taken in whole or not at all.
pub proof fn lemma_incomplete_report_changes_nothing(
    t: Topology,
    info: NodeInfoView,
    channels: Option<Seq<ChannelView>>,
)
    requires
        info.id is None || info.alias is None,
    ensures
        t.merged(info, channels) == t,
        merge_result(info) is Err,
{
}

/// After a complete report was taken in, its peer has a node.
pub proof fn lemma_merge_adds_peer(
    t: Topology,
    info: NodeInfoView,
    channels: Option<Seq<ChannelView>>,
)
    requires
        info.missing() is None,
    ensures
        t.merged(info, channels).handles.contains_key(info.id->0),
{
    match channels {
        Some(list) => {
            let id = info.id->0;
            let recorded = t.record_funds(id, total_capacity(list)).add_node(id, info.alias->0);
            lemma_link_all_keeps_nodes(recorded, id, list, id);
        },
        None => {},
    }
}

} // verus!
