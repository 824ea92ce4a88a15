//! Status snapshots of a peer, as plain values: what a peer says of itself
//! and of its channels at one moment. A snapshot is rebuilt at every fetch
//! and never compared with an earlier one.

use vstd::prelude::*;
use crate::document::Document;
use crate::error::InfoField;
use crate::text::parse_u64;
use crate::text::parse_amount;
use crate::text::text_of;

verus! {

/// What a peer reports of itself. Either field may be missing from the
/// document the peer sent.
#[derive(Debug, Clone, PartialEq, Eq)]
pub struct NodeInfo {
    pub id: Option<String>,
    pub alias: Option<String>,
}

/// One channel of a peer's funds listing.
#[derive(Debug, Clone, PartialEq, Eq)]
pub struct ChannelSnapshot {
    /// The identity of the peer at the other end.
    pub peer_id: Option<String>,
    /// The capacity in the smallest unit, as the peer wrote it.
    pub amount_msat: Option<String>,
    /// The state label the peer gave the channel.
    pub state: Option<String>,
}

/// A peer's funds listing. `channels` is `None` where the document holds no
/// channel list at all, which is not the same as an empty list.
#[derive(Debug, Clone, PartialEq, Eq)]
pub struct Funds {
    pub channels: Option<Vec<ChannelSnapshot>>,
}

/// What a peer reports of itself, as mathematics.
pub struct NodeInfoView {
    pub id: Option<Seq<char>>,
    pub alias: Option<Seq<char>>,
}

impl View for NodeInfo {
    type V = NodeInfoView;

    open spec fn view(&self) -> NodeInfoView {
        NodeInfoView { id: text_of(self.id), alias: text_of(self.alias) }
    }
}

impl NodeInfoView {
    /// The first field that the report lacks, if it lacks one: the identity
    /// is looked for before the alias.
    pub open spec fn missing(self) -> Option<InfoField> {
        if self.id is None {
            Some(InfoField::Id)
        } else if self.alias is None {
            Some(InfoField::Alias)
        } else {
            None
        }
    }
}

/// What a peer's status document says of the peer: the strings at `id` and
/// `alias` of its `result`.
pub open spec fn node_info_of(doc: Document) -> NodeInfoView {
    NodeInfoView {
        id: doc.at("result"@).at("id"@).text(),
        alias: doc.at("result"@).at("alias"@).text(),
    }
}

/// What an entry of a channel list says of the channel: the strings at
/// `peer_id` and `amount_msat`.
pub open spec fn channel_of(entry: Document) -> ChannelView {
    ChannelView {
        peer_id: entry.at("peer_id"@).text(),
        amount_msat: entry.at("amount_msat"@).text(),
    }
}

/// What a peer's funds document says of its channels: the list at
/// `channels` of its `result`, entry by entry, or `None` where there is no
/// such list.
pub open spec fn channels_of(doc: Document) -> Option<Seq<ChannelView>> {
    match doc.at("result"@).at("channels"@).items() {
        Some(entries) => Some(Seq::new(entries.len(), |i: int| channel_of(entries[i]))),
        None => None,
    }
}

impl NodeInfo {
    /// Reads what a peer's status document says of the peer.
    pub fn from_document(doc: &Document) -> (info: NodeInfo)
        ensures
            info@ == node_info_of(*doc),
    {
        NodeInfo { id: doc.text_at("result", "id"), alias: doc.text_at("result", "alias") }
    }
}

/// A channel as the topology sees it: the far end and the capacity text.
pub struct ChannelView {
    pub peer_id: Option<Seq<char>>,
    pub amount_msat: Option<Seq<char>>,
}

impl View for ChannelSnapshot {
    type V = ChannelView;

    open spec fn view(&self) -> ChannelView {
        ChannelView { peer_id: text_of(self.peer_id), amount_msat: text_of(self.amount_msat) }
    }
}

/// The views of a list of channels, in order.
pub open spec fn channel_views(list: Seq<ChannelSnapshot>) -> Seq<ChannelView> {
    Seq::new(list.len(), |i: int| list[i]@)
}

impl View for Funds {
    type V = Option<Seq<ChannelView>>;

    open spec fn view(&self) -> Option<Seq<ChannelView>> {
        match self.channels {
            Some(list) => Some(channel_views(list@)),
            None => None,
        }
    }
}

/// What one channel adds to a peer's aggregate capacity: the amount it
/// states, or nothing where the amount is missing or is no number.
pub open spec fn channel_amount(c: ChannelView) -> nat {
    match c.amount_msat {
        Some(a) => match parse_u64(a) {
            Some(v) => v as nat,
            None => 0,
        },
        None => 0,
    }
}

/// The sum of the amounts of all channels of a list.
pub open spec fn total_capacity(channels: Seq<ChannelView>) -> nat
    decreases channels.len(),
{
    if channels.len() == 0 {
        0
    } else {
        total_capacity(channels.drop_last()) + channel_amount(channels.last())
    }
}

/// The capacity of a listing never shrinks when channels are appended.
pub proof fn lemma_total_capacity_monotone(channels: Seq<ChannelView>, k: int)
    requires
        0 <= k <= channels.len(),
    ensures
        total_capacity(channels.take(k)) <= total_capacity(channels),
    decreases channels.len(),
{
    if k == channels.len() {
        assert(channels.take(k) =~= channels);
    } else {
        assert(channels.drop_last().take(k) =~= channels.take(k));
        lemma_total_capacity_monotone(channels.drop_last(), k);
    }
}

impl ChannelSnapshot {
    /// Reads an entry of a channel list.
    pub fn from_document(entry: &Document) -> (c: ChannelSnapshot)
        ensures
            c@ == channel_of(*entry),
            text_of(c.state) == entry.at("state"@).text(),
    {
        ChannelSnapshot {
            peer_id: entry.text_in("peer_id"),
            amount_msat: entry.text_in("amount_msat"),
            state: entry.text_in("state"),
        }
    }

    /// The amount this channel adds to its owner's aggregate capacity.
    pub fn amount(&self) -> (v: u64)
        ensures
            v == channel_amount(self@),
    {
        match &self.amount_msat {
            Some(a) => match parse_amount(a.as_str()) {
                Some(v) => v,
                None => 0,
            },
            None => 0,
        }
    }
}

/// The aggregate capacity of a channel list, or `None` where the sum does
/// not fit in 64 bits.
pub fn aggregate_capacity(channels: &Vec<ChannelSnapshot>) -> (r: Option<u64>)
    ensures
        match r {
            Some(total) => total == total_capacity(channel_views(channels@)),
            None => total_capacity(channel_views(channels@)) > u64::MAX,
        },
{
    let ghost views = channel_views(channels@);
    let n = channels.len();
    let mut total: u64 = 0;
    let mut i: usize = 0;
    while i < n
        invariant
            i <= n,
            n == channels@.len(),
            views == channel_views(channels@),
            total == total_capacity(views.take(i as int)),
        decreases n - i,
    {
        let amount = channels[i].amount();
        proof {
            let next = views.take(i + 1);
            assert(next.drop_last() =~= views.take(i as int));
            lemma_total_capacity_monotone(views, i + 1);
        }
        if amount > u64::MAX - total {
            return None;
        }
        total = total + amount;
        i = i + 1;
    }
    assert(views.take(n as int) =~= views);
    Some(total)
}

impl Funds {
    /// Reads what a peer's funds document says of its channels.
    pub fn from_document(doc: &Document) -> (funds: Funds)
        ensures
            funds@ == channels_of(*doc),
    {
        match doc.list_at("result", "channels") {
            Some(entries) => {
                let n = entries.len();
                let mut list: Vec<ChannelSnapshot> = Vec::new();
                let mut i: usize = 0;
                while i < n
                    invariant
                        i <= n,
                        n == entries@.len(),
                        list@.len() == i,
                        forall|k: int| 0 <= k < i ==> (#[trigger] list@[k])@ == channel_of(entries@[k]),
                    decreases n - i,
                {
                    list.push(ChannelSnapshot::from_document(&entries[i]));
                    i = i + 1;
                }
                Funds { channels: Some(list) }
            },
            None => Funds { channels: None },
        }
    }

    /// The aggregate capacity of the listing: zero without a channel list,
    /// `None` where the sum does not fit in 64 bits.
    pub fn total(&self) -> (r: Option<u64>)
        ensures
            match (self@, r) {
                (None, Some(total)) => total == 0,
                (Some(list), Some(total)) => total == total_capacity(list),
                (Some(list), None) => total_capacity(list) > u64::MAX,
                (None, None) => false,
            },
    {
        match &self.channels {
            Some(list) => aggregate_capacity(list),
            None => Some(0),
        }
    }
}

} // verus!
