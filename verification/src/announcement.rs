//! When the node announces itself to the gossip network.

use crate::metrics::NodeMetrics;
use vstd::prelude::*;

verus! {

/// The seconds that lie between two broadcasts of the node announcement.
pub const NODE_ANN_BCAST_INTERVAL_SECS: u64 = 3600;

/// What the node looks like when the broadcast timer fires.
#[derive(Clone, Copy, Debug, PartialEq, Eq, Structural)]
pub struct AnnouncementConditions {
    /// UNIX time of the last broadcast that the store knows of, unset where
    /// there was none.
    pub latest_broadcast_secs: Option<u64>,
    /// The UNIX time now.
    pub now_secs: u64,
    /// Whether the node has a public channel.
    pub has_public_channel: bool,
    /// Whether a peer is connected to gossip to.
    pub has_connected_peer: bool,
    /// The number of addresses that the node listens on.
    pub num_listening_addresses: usize,
}

/// Whether the last broadcast lies a full interval back, or there was none.
pub open spec fn spec_broadcast_is_due(latest_broadcast_secs: Option<u64>, now_secs: u64) -> bool {
    match latest_broadcast_secs {
        None => true,
        Some(latest) => latest + NODE_ANN_BCAST_INTERVAL_SECS <= now_secs,
    }
}

/// Whether the node announces itself now.
pub open spec fn spec_should_broadcast(conditions: AnnouncementConditions) -> bool {
    &&& spec_broadcast_is_due(conditions.latest_broadcast_secs, conditions.now_secs)
    &&& conditions.has_public_channel
    &&& conditions.has_connected_peer
    &&& conditions.num_listening_addresses > 0
}

/// Returns whether the node announces itself now.
///
/// It does when the last broadcast lies a full interval back or none was made
/// yet, and there is something to announce and someone to announce it to: a
/// public channel, a connected peer, and an address that the node listens on.
pub fn should_broadcast_node_announcement(conditions: &AnnouncementConditions) -> (broadcast: bool)
    ensures
        broadcast == spec_should_broadcast(*conditions),
{
    let due = match conditions.latest_broadcast_secs {
        None => true,
        Some(latest) => conditions.now_secs >= latest && conditions.now_secs - latest
            >= NODE_ANN_BCAST_INTERVAL_SECS,
    };
    due && conditions.has_public_channel && conditions.has_connected_peer
        && conditions.num_listening_addresses > 0
}

/// Returns the metrics after a broadcast at UNIX time `now`, unset where the
/// clock could not be read.
pub fn record_node_announcement_broadcast(metrics: &NodeMetrics, now: Option<u64>) -> (recorded:
    NodeMetrics)
    ensures
        recorded == (NodeMetrics { latest_node_announcement_broadcast_timestamp: now, ..*metrics }),
{
    let mut recorded = *metrics;
    recorded.latest_node_announcement_broadcast_timestamp = now;
    recorded
}

} // verus!
