//! The node's persisted metrics and the status that callers can query.

use crate::error::Error;
use vstd::prelude::*;

verus! {

/// When each background routine last succeeded.
///
/// The record is the node's recovery state: it is loaded once at startup, with
/// every field unset where nothing was stored, and outlives the individual sync
/// passes. A field moves only after the routine it belongs to has succeeded and
/// the new record has been written to the store.
#[derive(Clone, Copy, Debug, PartialEq, Eq, Structural)]
pub struct NodeMetrics {
    /// UNIX time of the last successful sync of the Lightning wallet.
    pub latest_lightning_wallet_sync_timestamp: Option<u64>,
    /// UNIX time of the last successful sync of the on-chain wallet.
    pub latest_onchain_wallet_sync_timestamp: Option<u64>,
    /// UNIX time of the last successful update of the fee-rate cache.
    pub latest_fee_rate_cache_update_timestamp: Option<u64>,
    /// UNIX time at which the last applied gossip snapshot was generated.
    pub latest_rgs_snapshot_timestamp: Option<u64>,
    /// UNIX time of the last broadcast of a node announcement.
    pub latest_node_announcement_broadcast_timestamp: Option<u64>,
    /// Block height at which resolved channel monitors were last archived.
    pub latest_channel_monitor_archival_height: Option<u32>,
}

impl NodeMetrics {
    /// The record of a node on which no routine has succeeded yet.
    pub open spec fn spec_new() -> NodeMetrics {
        NodeMetrics {
            latest_lightning_wallet_sync_timestamp: None,
            latest_onchain_wallet_sync_timestamp: None,
            latest_fee_rate_cache_update_timestamp: None,
            latest_rgs_snapshot_timestamp: None,
            latest_node_announcement_broadcast_timestamp: None,
            latest_channel_monitor_archival_height: None,
        }
    }

    /// Returns the record of a node on which no routine has succeeded yet.
    #[verifier::when_used_as_spec(spec_new)]
    pub fn new() -> (metrics: NodeMetrics)
        ensures
            metrics == NodeMetrics::spec_new(),
    {
        NodeMetrics {
            latest_lightning_wallet_sync_timestamp: None,
            latest_onchain_wallet_sync_timestamp: None,
            latest_fee_rate_cache_update_timestamp: None,
            latest_rgs_snapshot_timestamp: None,
            latest_node_announcement_broadcast_timestamp: None,
            latest_channel_monitor_archival_height: None,
        }
    }

    /// The record after `candidate` was handed to the store: the candidate
    /// where the write succeeded, the record as it was where it failed.
    pub open spec fn spec_commit(self, candidate: NodeMetrics, persisted: bool) -> NodeMetrics {
        if persisted {
            candidate
        } else {
            self
        }
    }

    /// What a write of the record to the store is reported as.
    pub open spec fn spec_commit_result(persisted: bool) -> Result<(), Error> {
        if persisted {
            Ok(())
        } else {
            Err(Error::PersistenceFailed)
        }
    }

    /// Makes `candidate` the authoritative record if, and only if, the store
    /// accepted it.
    ///
    /// The caller writes `candidate` to the store first and reports in
    /// `persisted` whether the write succeeded. A failed write leaves the
    /// record untouched and is reported as [`Error::PersistenceFailed`], so the
    /// record never refers to work that was not persisted.
    pub fn commit(&mut self, candidate: NodeMetrics, persisted: bool) -> (r: Result<(), Error>)
        ensures
            *final(self) == old(self).spec_commit(candidate, persisted),
            r == NodeMetrics::spec_commit_result(persisted),
    {
        if persisted {
            *self = candidate;
            Ok(())
        } else {
            Err(Error::PersistenceFailed)
        }
    }
}

impl Default for NodeMetrics {
    fn default() -> (metrics: NodeMetrics)
        ensures
            metrics == NodeMetrics::spec_new(),
    {
        NodeMetrics::new()
    }
}

/// The block that the Lightning wallet is currently synced to.
#[derive(Clone, Copy, Debug, PartialEq, Eq)]
pub struct BestBlock {
    /// The hash of the block.
    pub block_hash: [u8; 32],
    /// The height of the block.
    pub height: u32,
}

/// The status of the node, as a caller sees it.
///
/// A background sync that fails does not stop the node: the timestamp of the
/// routine simply does not advance, which makes staleness visible here.
#[derive(Clone, Copy, Debug, PartialEq, Eq)]
pub struct NodeStatus {
    /// Whether the node is running.
    pub is_running: bool,
    /// Whether the node listens for incoming connections.
    pub is_listening: bool,
    /// The best block that the Lightning wallet is synced to.
    pub current_best_block: BestBlock,
    /// UNIX time of the last successful sync of the Lightning wallet, unset
    /// if there was none.
    pub latest_wallet_sync_timestamp: Option<u64>,
    /// UNIX time of the last successful sync of the on-chain wallet, unset if
    /// there was none.
    pub latest_onchain_wallet_sync_timestamp: Option<u64>,
    /// UNIX time of the last successful update of the fee-rate cache, unset
    /// if there was none.
    pub latest_fee_rate_cache_update_timestamp: Option<u64>,
    /// UNIX time at which the last applied gossip snapshot was generated,
    /// unset if there was none.
    pub latest_rgs_snapshot_timestamp: Option<u64>,
    /// UNIX time of the last broadcast of a node announcement, unset if there
    /// was none.
    pub latest_node_announcement_broadcast_timestamp: Option<u64>,
}

impl NodeStatus {
    /// Returns the status of a node with the given run state, best block and
    /// metrics.
    pub fn status(
        is_running: bool,
        is_listening: bool,
        current_best_block: BestBlock,
        metrics: &NodeMetrics,
    ) -> (status: NodeStatus)
        ensures
            status.is_running == is_running,
            status.is_listening == is_listening,
            status.current_best_block == current_best_block,
            status.latest_wallet_sync_timestamp == metrics.latest_lightning_wallet_sync_timestamp,
            status.latest_onchain_wallet_sync_timestamp
                == metrics.latest_onchain_wallet_sync_timestamp,
            status.latest_fee_rate_cache_update_timestamp
                == metrics.latest_fee_rate_cache_update_timestamp,
            status.latest_rgs_snapshot_timestamp == metrics.latest_rgs_snapshot_timestamp,
            status.latest_node_announcement_broadcast_timestamp
                == metrics.latest_node_announcement_broadcast_timestamp,
    {
        NodeStatus {
            is_running,
            is_listening,
            current_best_block,
            latest_wallet_sync_timestamp: metrics.latest_lightning_wallet_sync_timestamp,
            latest_onchain_wallet_sync_timestamp: metrics.latest_onchain_wallet_sync_timestamp,
            latest_fee_rate_cache_update_timestamp: metrics.latest_fee_rate_cache_update_timestamp,
            latest_rgs_snapshot_timestamp: metrics.latest_rgs_snapshot_timestamp,
            latest_node_announcement_broadcast_timestamp:
                metrics.latest_node_announcement_broadcast_timestamp,
        }
    }
}

} // verus!
