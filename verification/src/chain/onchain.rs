//! The sync of the on-chain wallet.
//!
//! A pass is led by the caller that the coordinator elects. The leader scans
//! the chain, in full on the first run and incrementally afterwards, lets the
//! wallet apply the update, writes the new metrics to the store and only then
//! makes them authoritative. Nothing is retried within a pass: a failed sync
//! waits for the next tick of its timer.

use crate::chain::sync_status::{
    phase_after_propagate, phase_after_register, registers_as_leader, WalletSyncStatus,
};
use crate::config::{BDK_CLIENT_CONCURRENCY, BDK_CLIENT_STOP_GAP};
use crate::error::Error;
use crate::metrics::NodeMetrics;
use tokio::sync::broadcast::Receiver;
use vstd::prelude::*;

verus! {

/// How the chain is scanned for the wallet's transactions.
#[derive(Clone, Copy, Debug, PartialEq, Eq, Structural)]
pub enum SyncMode {
    /// Addresses are derived and queried outward until `stop_gap` consecutive
    /// ones are unused, with up to `parallel_requests` queries in flight.
    FullScan { stop_gap: usize, parallel_requests: usize },
    /// Only the addresses and scripts derived so far are queried, with up to
    /// `parallel_requests` queries in flight.
    Incremental { parallel_requests: usize },
}

/// How the scan and the application of its update ended.
#[derive(Clone, Copy, Debug, PartialEq, Eq, Structural)]
pub enum WalletScanOutcome {
    /// The provider answered and the wallet applied the update, as a whole.
    Applied,
    /// The provider answered, but the wallet rejected the update, as a whole.
    ApplyFailed,
    /// The provider could not be reached or answered with an HTTP error.
    HttpError,
    /// The provider answered with another error.
    ProviderError,
    /// The time limit elapsed before the provider answered.
    TimedOut,
}

/// What the leader of a pass does next.
#[derive(Clone, Copy, Debug, PartialEq, Eq)]
pub enum OnchainSync {
    /// Scan the chain in `mode`, within the time limit, and let the wallet
    /// apply the update.
    Scan { mode: SyncMode },
    /// Write `candidate` to the store.
    Persist { candidate: NodeMetrics },
    /// Hand `result` to the coordinator and return it.
    Done { result: Result<(), Error> },
}

/// What the leader of a pass reports back.
#[derive(Clone, Copy, Debug, PartialEq, Eq, Structural)]
pub enum OnchainSyncEvent {
    /// The scan ended with `outcome`; `now` is the UNIX time at that moment,
    /// unset where the clock could not be read.
    ScanFinished { outcome: WalletScanOutcome, now: Option<u64> },
    /// The write of the metrics ended; `persisted` says whether it succeeded.
    PersistFinished { persisted: bool },
}

/// How a call of the sync starts.
pub enum OnchainSyncStart {
    /// The caller leads the pass and starts with `first`.
    Lead { first: OnchainSync },
    /// A pass is running: the caller awaits its result on `subscription` and
    /// reports it.
    Await { subscription: Receiver<Result<(), Error>> },
}

/// The mode of the next scan: a full scan as long as no sync has succeeded,
/// an incremental one from then on.
pub open spec fn spec_sync_mode(metrics: NodeMetrics) -> SyncMode {
    if metrics.latest_onchain_wallet_sync_timestamp is None {
        SyncMode::FullScan {
            stop_gap: BDK_CLIENT_STOP_GAP,
            parallel_requests: BDK_CLIENT_CONCURRENCY,
        }
    } else {
        SyncMode::Incremental { parallel_requests: BDK_CLIENT_CONCURRENCY }
    }
}

/// The result that a scan with the given outcome stands for.
pub open spec fn spec_scan_result(outcome: WalletScanOutcome) -> Result<(), Error> {
    match outcome {
        WalletScanOutcome::Applied => Ok(()),
        WalletScanOutcome::ApplyFailed => Err(Error::WalletOperationFailed),
        WalletScanOutcome::HttpError => Err(Error::WalletOperationFailed),
        WalletScanOutcome::ProviderError => Err(Error::WalletOperationFailed),
        WalletScanOutcome::TimedOut => Err(Error::WalletOperationTimeout),
    }
}

/// The metrics after a successful sync at time `now`.
pub open spec fn spec_synced_metrics(metrics: NodeMetrics, now: Option<u64>) -> NodeMetrics {
    NodeMetrics { latest_onchain_wallet_sync_timestamp: now, ..metrics }
}

/// Returns the mode of the next scan: a full scan as long as no sync has
/// succeeded, an incremental one from then on.
pub fn sync_mode(metrics: &NodeMetrics) -> (mode: SyncMode)
    ensures
        mode == spec_sync_mode(*metrics),
{
    match metrics.latest_onchain_wallet_sync_timestamp {
        None => SyncMode::FullScan {
            stop_gap: BDK_CLIENT_STOP_GAP,
            parallel_requests: BDK_CLIENT_CONCURRENCY,
        },
        Some(_) => SyncMode::Incremental { parallel_requests: BDK_CLIENT_CONCURRENCY },
    }
}

/// Returns the result that a scan with the given outcome stands for: a
/// provider or apply failure is a failed wallet operation, an elapsed time
/// limit a timed-out one.
pub fn scan_result(outcome: WalletScanOutcome) -> (result: Result<(), Error>)
    ensures
        result == spec_scan_result(outcome),
{
    match outcome {
        WalletScanOutcome::Applied => Ok(()),
        WalletScanOutcome::ApplyFailed => Err(Error::WalletOperationFailed),
        WalletScanOutcome::HttpError => Err(Error::WalletOperationFailed),
        WalletScanOutcome::ProviderError => Err(Error::WalletOperationFailed),
        WalletScanOutcome::TimedOut => Err(Error::WalletOperationTimeout),
    }
}

impl OnchainSync {
    /// The step that follows `self` on `event`. An event that does not
    /// belong to the step leaves it as it is.
    pub open spec fn spec_next(self, metrics: NodeMetrics, event: OnchainSyncEvent) -> OnchainSync {
        match (self, event) {
            (OnchainSync::Scan { .. }, OnchainSyncEvent::ScanFinished { outcome, now }) => {
                match spec_scan_result(outcome) {
                    Ok(_) => OnchainSync::Persist { candidate: spec_synced_metrics(metrics, now) },
                    Err(e) => OnchainSync::Done { result: Err(e) },
                }
            },
            (OnchainSync::Persist { .. }, OnchainSyncEvent::PersistFinished { persisted }) => {
                OnchainSync::Done { result: NodeMetrics::spec_commit_result(persisted) }
            },
            _ => self,
        }
    }

    /// The metrics after `event` arrived in step `self`: they move only when
    /// the store has accepted the candidate.
    pub open spec fn spec_metrics_after(
        self,
        metrics: NodeMetrics,
        event: OnchainSyncEvent,
    ) -> NodeMetrics {
        match (self, event) {
            (
                OnchainSync::Persist { candidate },
                OnchainSyncEvent::PersistFinished { persisted },
            ) => metrics.spec_commit(candidate, persisted),
            _ => metrics,
        }
    }

    /// Takes the leader from one step of a pass to the next.
    ///
    /// After the scan: a failure ends the pass with its error, a success asks
    /// for the metrics with the new timestamp to be written. After the write:
    /// only a successful write makes the new metrics authoritative and ends
    /// the pass with success; a failed one ends it with
    /// [`Error::PersistenceFailed`] and leaves the metrics untouched. An event
    /// that does not belong to the step changes nothing.
    pub fn next(self, metrics: &mut NodeMetrics, event: OnchainSyncEvent) -> (step: OnchainSync)
        ensures
            step == self.spec_next(*old(metrics), event),
            *final(metrics) == self.spec_metrics_after(*old(metrics), event),
    {
        match self {
            OnchainSync::Scan { mode } => match event {
                OnchainSyncEvent::ScanFinished { outcome, now } => match scan_result(outcome) {
                    Ok(_) => {
                        let mut candidate = *metrics;
                        candidate.latest_onchain_wallet_sync_timestamp = now;
                        OnchainSync::Persist { candidate }
                    },
                    Err(e) => OnchainSync::Done { result: Err(e) },
                },
                OnchainSyncEvent::PersistFinished { .. } => OnchainSync::Scan { mode },
            },
            OnchainSync::Persist { candidate } => match event {
                OnchainSyncEvent::PersistFinished { persisted } => {
                    let result = metrics.commit(candidate, persisted);
                    OnchainSync::Done { result }
                },
                OnchainSyncEvent::ScanFinished { .. } => OnchainSync::Persist { candidate },
            },
            OnchainSync::Done { result } => OnchainSync::Done { result },
        }
    }
}

/// Starts a call of the on-chain wallet sync.
///
/// Where no pass is running the caller becomes the leader, the status moves to
/// `InProgress`, and the first step is a scan in the mode that the metrics call
/// for. Where a pass is running the status stays as it was and the caller gets
/// a subscription to that pass.
pub fn begin_onchain_wallet_sync(status: &mut WalletSyncStatus, metrics: &NodeMetrics) -> (start:
    OnchainSyncStart)
    ensures
        final(status)@ == phase_after_register(old(status)@),
        registers_as_leader(old(status)@) ==> (start matches OnchainSyncStart::Lead { first }
            && first == (OnchainSync::Scan { mode: spec_sync_mode(*metrics) })),
        !registers_as_leader(old(status)@) ==> start is Await && *final(status) == *old(status),
{
    match status.register_or_subscribe_pending_sync() {
        None => OnchainSyncStart::Lead { first: OnchainSync::Scan { mode: sync_mode(metrics) } },
        Some(subscription) => OnchainSyncStart::Await { subscription },
    }
}

/// Starts a sync of a wallet that keeps no record of earlier syncs: it is
/// scanned in full each time.
///
/// Where no pass is running the caller becomes the leader and the status
/// moves to `InProgress`. Where a pass is running the status stays as it was
/// and the caller gets a subscription to that pass.
pub fn begin_wallet_sync(status: &mut WalletSyncStatus) -> (start: OnchainSyncStart)
    ensures
        final(status)@ == phase_after_register(old(status)@),
        registers_as_leader(old(status)@) ==> (start matches OnchainSyncStart::Lead { first }
            && first == (OnchainSync::Scan { mode: spec_sync_mode(NodeMetrics::spec_new()) })),
        !registers_as_leader(old(status)@) ==> start is Await && *final(status) == *old(status),
{
    match status.register_or_subscribe_pending_sync() {
        None => OnchainSyncStart::Lead {
            first: OnchainSync::Scan {
                mode: SyncMode::FullScan {
                    stop_gap: BDK_CLIENT_STOP_GAP,
                    parallel_requests: BDK_CLIENT_CONCURRENCY,
                },
            },
        },
        Some(subscription) => OnchainSyncStart::Await { subscription },
    }
}

/// Ends a sync of a wallet that keeps no record of earlier syncs: the result
/// that `outcome` stands for is handed to the subscribers and returned, and
/// the status moves back to `Completed`.
pub fn finish_wallet_sync(status: &mut WalletSyncStatus, outcome: WalletScanOutcome) -> (result:
    Result<(), Error>)
    ensures
        final(status)@ == phase_after_propagate(old(status)@),
        result == spec_scan_result(outcome),
{
    status.finish(scan_result(outcome))
}

/// What the outside reported to the leader of one pass.
pub struct OnchainPass {
    /// How the scan and the application of its update ended.
    pub outcome: WalletScanOutcome,
    /// The UNIX time when the scan ended.
    pub now: Option<u64>,
    /// Whether the store accepted the new metrics; only asked after a scan
    /// that succeeded.
    pub persisted: bool,
}

/// The result that the pass ends with.
pub open spec fn spec_pass_result(pass: OnchainPass) -> Result<(), Error> {
    match spec_scan_result(pass.outcome) {
        Ok(_) => NodeMetrics::spec_commit_result(pass.persisted),
        Err(e) => Err(e),
    }
}

/// The metrics that the pass leaves behind.
pub open spec fn spec_pass_metrics(metrics: NodeMetrics, pass: OnchainPass) -> NodeMetrics {
    if spec_pass_result(pass) is Ok {
        spec_synced_metrics(metrics, pass.now)
    } else {
        metrics
    }
}

/// The metrics after the given passes, in their order, on a node that starts
/// without any.
pub open spec fn spec_metrics_after_passes(passes: Seq<OnchainPass>) -> NodeMetrics
    decreases passes.len(),
{
    if passes.len() == 0 {
        NodeMetrics::spec_new()
    } else {
        spec_pass_metrics(spec_metrics_after_passes(passes.drop_last()), passes.last())
    }
}

/// A pass is the leader's steps in a row: the scan, then, if it succeeded, the
/// write. It ends with [`spec_pass_result`] and leaves [`spec_pass_metrics`].
pub proof fn lemma_pass_follows_steps(metrics: NodeMetrics, pass: OnchainPass)
    ensures
        ({
            let first = OnchainSync::Scan { mode: spec_sync_mode(metrics) };
            let scan = OnchainSyncEvent::ScanFinished { outcome: pass.outcome, now: pass.now };
            let write = OnchainSyncEvent::PersistFinished { persisted: pass.persisted };
            let scanned = first.spec_next(metrics, scan);
            let scanned_metrics = first.spec_metrics_after(metrics, scan);
            &&& scanned_metrics == metrics
            &&& scanned.spec_next(scanned_metrics, write) == (OnchainSync::Done {
                result: spec_pass_result(pass),
            })
            &&& scanned.spec_metrics_after(scanned_metrics, write) == spec_pass_metrics(
                metrics,
                pass,
            )
        }),
{
}

/// A sync that fails leaves the metrics, and with them the timestamp of the
/// last on-chain sync, exactly as they were before the call.
pub proof fn lemma_failed_sync_keeps_metrics(metrics: NodeMetrics, pass: OnchainPass)
    requires
        spec_pass_result(pass) is Err,
    ensures
        spec_pass_metrics(metrics, pass) == metrics,
        spec_pass_metrics(metrics, pass).latest_onchain_wallet_sync_timestamp
            == metrics.latest_onchain_wallet_sync_timestamp,
{
}

/// No single step of a pass that ends it with an error moves the metrics.
pub proof fn lemma_failing_step_keeps_metrics(
    step: OnchainSync,
    metrics: NodeMetrics,
    event: OnchainSyncEvent,
)
    requires
        step.spec_next(metrics, event) matches OnchainSync::Done { result } && result is Err,
    ensures
        step.spec_metrics_after(metrics, event) == metrics,
{
}

/// The scan is a full scan until the first sync has succeeded and an
/// incremental one ever after, whatever failures lie in between: a failed
/// sync never sets the mode back.
///
/// The clock must have been readable at each successful sync, because the
/// recorded timestamp is what tells a synced wallet from a new one.
pub proof fn lemma_full_scan_until_first_success(passes: Seq<OnchainPass>)
    requires
        forall|i: int|
            0 <= i < passes.len() && spec_pass_result(#[trigger] passes[i]) is Ok
                ==> passes[i].now is Some,
    ensures
        spec_sync_mode(spec_metrics_after_passes(passes)) is FullScan <==> forall|i: int|
            0 <= i < passes.len() ==> spec_pass_result(#[trigger] passes[i]) is Err,
    decreases passes.len(),
{
    if passes.len() > 0 {
        let earlier = passes.drop_last();
        assert forall|i: int|
            0 <= i < earlier.len() && spec_pass_result(#[trigger] earlier[i]) is Ok implies earlier[i].now is Some by {
            assert(earlier[i] == passes[i]);
        }
        lemma_full_scan_until_first_success(earlier);
        let last = passes.last();
        if spec_pass_result(last) is Ok {
            assert(passes[passes.len() - 1] == last);
        } else {
            if forall|i: int| 0 <= i < earlier.len() ==> spec_pass_result(#[trigger] earlier[i]) is Err {
                assert forall|i: int| 0 <= i < passes.len() implies spec_pass_result(
                    #[trigger] passes[i],
                ) is Err by {
                    if i < earlier.len() {
                        assert(earlier[i] == passes[i]);
                    }
                }
            } else {
                let i = choose|i: int|
                    0 <= i < earlier.len() && !(spec_pass_result(#[trigger] earlier[i]) is Err);
                assert(earlier[i] == passes[i]);
            }
        }
    }
}

} // verus!
