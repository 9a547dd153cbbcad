//! The sync of the Lightning wallet: delivery of confirmations and reorgs to
//! everything that tracks the chain, and the archival of resolved channel
//! monitors that follows it.

use crate::chain::sync_status::{phase_after_register, registers_as_leader, WalletSyncStatus};
use crate::error::Error;
use crate::metrics::NodeMetrics;
use tokio::sync::broadcast::Receiver;
use vstd::prelude::*;

verus! {

/// A consumer that must be told about confirmed and unconfirmed transactions.
#[derive(Clone, Copy, Debug, PartialEq, Eq, Structural)]
pub enum Confirmable {
    /// The channel manager.
    ChannelManager,
    /// The chain monitor, which holds the channel monitors.
    ChainMonitor,
    /// The sweeper of spendable outputs.
    OutputSweeper,
}

/// How the pass over the confirmables ended.
#[derive(Clone, Copy, Debug, PartialEq, Eq, Structural)]
pub enum TxSyncOutcome {
    /// Every confirmable of the batch was advanced to the chain tip.
    Synced,
    /// The provider or the sync failed.
    Failed,
    /// The time limit elapsed before the pass ended.
    TimedOut,
}

/// What the leader of a pass does next.
#[derive(Clone, Copy, Debug, PartialEq, Eq)]
pub enum LightningSync {
    /// Advance all of `batch` in one pass, within the time limit.
    Sync { batch: [Confirmable; 3] },
    /// Write `candidate` to the store. `tip_height` is the height that the
    /// pass reached.
    PersistSync { candidate: NodeMetrics, tip_height: u32 },
    /// Archive the resolved channel monitors, then write `candidate` to the
    /// store.
    Archive { candidate: NodeMetrics },
    /// Hand `result` to the coordinator and return it.
    Done { result: Result<(), Error> },
}

/// What the leader of a pass reports back.
#[derive(Clone, Copy, Debug, PartialEq, Eq, Structural)]
pub enum LightningSyncEvent {
    /// The pass ended with `outcome` at UNIX time `now`, unset where the clock
    /// could not be read; `tip_height` is the height of the best block after
    /// it.
    SyncFinished { outcome: TxSyncOutcome, now: Option<u64>, tip_height: u32 },
    /// A write of the metrics ended; `persisted` says whether it succeeded.
    PersistFinished { persisted: bool },
}

/// How a call of the sync starts.
pub enum LightningSyncStart {
    /// The caller leads the pass and starts with `first`.
    Lead { first: LightningSync },
    /// A pass is running: the caller awaits its result on `subscription` and
    /// reports it.
    Await { subscription: Receiver<Result<(), Error>> },
}

/// The consumers that one pass advances together, in the order in which they
/// are handed over.
pub open spec fn spec_confirmables() -> Seq<Confirmable> {
    seq![Confirmable::ChannelManager, Confirmable::ChainMonitor, Confirmable::OutputSweeper]
}

/// The result that a pass with the given outcome stands for.
pub open spec fn spec_tx_sync_result(outcome: TxSyncOutcome) -> Result<(), Error> {
    match outcome {
        TxSyncOutcome::Synced => Ok(()),
        TxSyncOutcome::Failed => Err(Error::TxSyncFailed),
        TxSyncOutcome::TimedOut => Err(Error::TxSyncTimeout),
    }
}

/// The metrics after a successful sync at time `now`.
pub open spec fn spec_synced_metrics(metrics: NodeMetrics, now: Option<u64>) -> NodeMetrics {
    NodeMetrics { latest_lightning_wallet_sync_timestamp: now, ..metrics }
}

/// Whether resolved monitors are to be archived at `cur_height`: no archival
/// has run yet, or the chain has grown by at least `archival_interval` blocks
/// since the last one.
pub open spec fn spec_should_archive(
    latest_archival_height: Option<u32>,
    cur_height: u32,
    archival_interval: u32,
) -> bool {
    match latest_archival_height {
        None => true,
        Some(height) => cur_height - height >= archival_interval,
    }
}

/// The metrics after an archival at `cur_height`.
pub open spec fn spec_archived_metrics(metrics: NodeMetrics, cur_height: u32) -> NodeMetrics {
    NodeMetrics { latest_channel_monitor_archival_height: Some(cur_height), ..metrics }
}

/// What the archival housekeeping asks for: the metrics to write after
/// archiving, or nothing where no archival is due.
pub open spec fn spec_archival(
    metrics: NodeMetrics,
    cur_height: u32,
    archival_interval: u32,
) -> Option<NodeMetrics> {
    if spec_should_archive(
        metrics.latest_channel_monitor_archival_height,
        cur_height,
        archival_interval,
    ) {
        Some(spec_archived_metrics(metrics, cur_height))
    } else {
        None
    }
}

/// Returns the consumers that one pass advances together: the channel manager,
/// the chain monitor and the output sweeper, each once.
pub fn confirmables() -> (batch: [Confirmable; 3])
    ensures
        batch@ == spec_confirmables(),
{
    let batch = [Confirmable::ChannelManager, Confirmable::ChainMonitor, Confirmable::OutputSweeper];
    assert(batch@ =~= spec_confirmables());
    batch
}

/// Returns the result that a pass with the given outcome stands for: a failure
/// of the provider or of the sync is surfaced as such, an elapsed time limit
/// as a timeout.
pub fn tx_sync_result(outcome: TxSyncOutcome) -> (result: Result<(), Error>)
    ensures
        result == spec_tx_sync_result(outcome),
{
    match outcome {
        TxSyncOutcome::Synced => Ok(()),
        TxSyncOutcome::Failed => Err(Error::TxSyncFailed),
        TxSyncOutcome::TimedOut => Err(Error::TxSyncTimeout),
    }
}

/// Returns whether resolved monitors are to be archived at `cur_height`: no
/// archival has run yet, or the chain has grown by at least
/// `archival_interval` blocks since the last one.
pub fn should_archive(
    latest_archival_height: Option<u32>,
    cur_height: u32,
    archival_interval: u32,
) -> (due: bool)
    ensures
        due == spec_should_archive(latest_archival_height, cur_height, archival_interval),
{
    match latest_archival_height {
        None => true,
        Some(height) => cur_height >= height && cur_height - height >= archival_interval,
    }
}

/// Decides the archival of fully resolved channel monitors after a sync that
/// reached `cur_height`.
///
/// Where an archival is due the answer holds the metrics with `cur_height` as
/// the height of the last archival: the caller archives the monitors, writes
/// these metrics to the store and commits them. Where none is due the answer is
/// `None` and nothing is to be done.
pub fn periodically_archive_fully_resolved_monitors(
    metrics: &NodeMetrics,
    cur_height: u32,
    archival_interval: u32,
) -> (archival: Option<NodeMetrics>)
    ensures
        archival == spec_archival(*metrics, cur_height, archival_interval),
        archival is Some <==> spec_should_archive(
            metrics.latest_channel_monitor_archival_height,
            cur_height,
            archival_interval,
        ),
{
    if should_archive(metrics.latest_channel_monitor_archival_height, cur_height, archival_interval) {
        let mut candidate = *metrics;
        candidate.latest_channel_monitor_archival_height = Some(cur_height);
        Some(candidate)
    } else {
        None
    }
}

impl LightningSync {
    /// The step that follows `self` on `event`. An event that does not
    /// belong to the step leaves it as it is.
    pub open spec fn spec_next(
        self,
        metrics: NodeMetrics,
        event: LightningSyncEvent,
        archival_interval: u32,
    ) -> LightningSync {
        match (self, event) {
            (
                LightningSync::Sync { .. },
                LightningSyncEvent::SyncFinished { outcome, now, tip_height },
            ) => {
                match spec_tx_sync_result(outcome) {
                    Ok(_) => LightningSync::PersistSync {
                        candidate: spec_synced_metrics(metrics, now),
                        tip_height,
                    },
                    Err(e) => LightningSync::Done { result: Err(e) },
                }
            },
            (
                LightningSync::PersistSync { candidate, tip_height },
                LightningSyncEvent::PersistFinished { persisted },
            ) => {
                if persisted {
                    match spec_archival(candidate, tip_height, archival_interval) {
                        Some(archived) => LightningSync::Archive { candidate: archived },
                        None => LightningSync::Done { result: Ok(()) },
                    }
                } else {
                    LightningSync::Done { result: Err(Error::PersistenceFailed) }
                }
            },
            (LightningSync::Archive { .. }, LightningSyncEvent::PersistFinished { persisted }) => {
                LightningSync::Done { result: NodeMetrics::spec_commit_result(persisted) }
            },
            _ => self,
        }
    }

    /// The metrics after `event` arrived in step `self`: they move only when
    /// the store has accepted a candidate.
    pub open spec fn spec_metrics_after(
        self,
        metrics: NodeMetrics,
        event: LightningSyncEvent,
    ) -> NodeMetrics {
        match (self, event) {
            (
                LightningSync::PersistSync { candidate, .. },
                LightningSyncEvent::PersistFinished { persisted },
            ) => metrics.spec_commit(candidate, persisted),
            (
                LightningSync::Archive { candidate },
                LightningSyncEvent::PersistFinished { persisted },
            ) => metrics.spec_commit(candidate, persisted),
            _ => metrics,
        }
    }

    /// Takes the leader from one step of a pass to the next.
    ///
    /// After the pass over the confirmables: a failure ends the sync with its
    /// error, a success asks for the metrics with the new timestamp to be
    /// written. After that write: a failed one ends the sync with
    /// [`Error::PersistenceFailed`] and leaves the metrics untouched; a
    /// successful one makes the new metrics authoritative, and the sync goes on
    /// to the archival if, and only if, one is due at the height reached. After
    /// the archival and its write: the new archival height becomes
    /// authoritative only if the store accepted it. An event that does not
    /// belong to the step changes nothing.
    pub fn next(
        self,
        metrics: &mut NodeMetrics,
        event: LightningSyncEvent,
        archival_interval: u32,
    ) -> (step: LightningSync)
        ensures
            step == self.spec_next(*old(metrics), event, archival_interval),
            *final(metrics) == self.spec_metrics_after(*old(metrics), event),
    {
        match self {
            LightningSync::Sync { batch } => match event {
                LightningSyncEvent::SyncFinished { outcome, now, tip_height } => {
                    match tx_sync_result(outcome) {
                        Ok(_) => {
                            let mut candidate = *metrics;
                            candidate.latest_lightning_wallet_sync_timestamp = now;
                            LightningSync::PersistSync { candidate, tip_height }
                        },
                        Err(e) => LightningSync::Done { result: Err(e) },
                    }
                },
                LightningSyncEvent::PersistFinished { .. } => LightningSync::Sync { batch },
            },
            LightningSync::PersistSync { candidate, tip_height } => match event {
                LightningSyncEvent::PersistFinished { persisted } => {
                    match metrics.commit(candidate, persisted) {
                        Ok(_) => {
                            match periodically_archive_fully_resolved_monitors(
                                metrics,
                                tip_height,
                                archival_interval,
                            ) {
                                Some(archived) => LightningSync::Archive { candidate: archived },
                                None => LightningSync::Done { result: Ok(()) },
                            }
                        },
                        Err(e) => LightningSync::Done { result: Err(e) },
                    }
                },
                LightningSyncEvent::SyncFinished { .. } => LightningSync::PersistSync {
                    candidate,
                    tip_height,
                },
            },
            LightningSync::Archive { candidate } => match event {
                LightningSyncEvent::PersistFinished { persisted } => {
                    let result = metrics.commit(candidate, persisted);
                    LightningSync::Done { result }
                },
                LightningSyncEvent::SyncFinished { .. } => LightningSync::Archive { candidate },
            },
            LightningSync::Done { result } => LightningSync::Done { result },
        }
    }
}

/// Starts a call of the Lightning wallet sync.
///
/// Where no pass is running the caller becomes the leader, the status moves to
/// `InProgress`, and the first step is one pass over all confirmables. Where a
/// pass is running the status stays as it was and the caller gets a
/// subscription to that pass.
pub fn begin_lightning_wallet_sync(status: &mut WalletSyncStatus) -> (start: LightningSyncStart)
    ensures
        final(status)@ == phase_after_register(old(status)@),
        registers_as_leader(old(status)@) ==> (start matches LightningSyncStart::Lead { first }
            && first matches LightningSync::Sync { batch } && batch@ == spec_confirmables()),
        !registers_as_leader(old(status)@) ==> start is Await && *final(status) == *old(status),
{
    match status.register_or_subscribe_pending_sync() {
        None => LightningSyncStart::Lead { first: LightningSync::Sync { batch: confirmables() } },
        Some(subscription) => LightningSyncStart::Await { subscription },
    }
}

/// What the outside reported to the leader of one pass.
pub struct LightningPass {
    /// How the pass over the confirmables ended.
    pub outcome: TxSyncOutcome,
    /// The UNIX time when it ended.
    pub now: Option<u64>,
    /// The height of the best block after it.
    pub tip_height: u32,
    /// Whether the store accepted the metrics with the new timestamp; only
    /// asked after a pass that succeeded.
    pub sync_persisted: bool,
    /// Whether the store accepted the metrics with the new archival height;
    /// only asked after an archival.
    pub archival_persisted: bool,
}

/// Whether the pass gets as far as archiving resolved monitors.
pub open spec fn spec_pass_archives(
    metrics: NodeMetrics,
    pass: LightningPass,
    archival_interval: u32,
) -> bool {
    &&& spec_tx_sync_result(pass.outcome) is Ok
    &&& pass.sync_persisted
    &&& spec_should_archive(
        metrics.latest_channel_monitor_archival_height,
        pass.tip_height,
        archival_interval,
    )
}

/// The result that the pass ends with.
pub open spec fn spec_pass_result(
    metrics: NodeMetrics,
    pass: LightningPass,
    archival_interval: u32,
) -> Result<(), Error> {
    match spec_tx_sync_result(pass.outcome) {
        Err(e) => Err(e),
        Ok(_) => if !pass.sync_persisted {
            Err(Error::PersistenceFailed)
        } else if spec_pass_archives(metrics, pass, archival_interval) {
            NodeMetrics::spec_commit_result(pass.archival_persisted)
        } else {
            Ok(())
        },
    }
}

/// The metrics that the pass leaves behind.
pub open spec fn spec_pass_metrics(
    metrics: NodeMetrics,
    pass: LightningPass,
    archival_interval: u32,
) -> NodeMetrics {
    if spec_tx_sync_result(pass.outcome) is Ok && pass.sync_persisted {
        let synced = spec_synced_metrics(metrics, pass.now);
        if spec_pass_archives(metrics, pass, archival_interval) && pass.archival_persisted {
            spec_archived_metrics(synced, pass.tip_height)
        } else {
            synced
        }
    } else {
        metrics
    }
}

/// A pass is the leader's steps in a row: the pass over the confirmables,
/// the write of the timestamp, and the archival with its write where one is
/// due. It ends with [`spec_pass_result`] and leaves [`spec_pass_metrics`].
pub proof fn lemma_pass_follows_steps(
    batch: [Confirmable; 3],
    metrics: NodeMetrics,
    pass: LightningPass,
    archival_interval: u32,
)
    ensures
        ({
            let first = LightningSync::Sync { batch };
            let synced = LightningSyncEvent::SyncFinished {
                outcome: pass.outcome,
                now: pass.now,
                tip_height: pass.tip_height,
            };
            let sync_written = LightningSyncEvent::PersistFinished { persisted: pass.sync_persisted };
            let archival_written = LightningSyncEvent::PersistFinished {
                persisted: pass.archival_persisted,
            };
            let second = first.spec_next(metrics, synced, archival_interval);
            let metrics2 = first.spec_metrics_after(metrics, synced);
            let third = second.spec_next(metrics2, sync_written, archival_interval);
            let metrics3 = second.spec_metrics_after(metrics2, sync_written);
            let last = if third is Archive {
                third.spec_next(metrics3, archival_written, archival_interval)
            } else {
                third
            };
            let metrics4 = if third is Archive {
                third.spec_metrics_after(metrics3, archival_written)
            } else {
                metrics3
            };
            &&& third is Archive <==> spec_pass_archives(metrics, pass, archival_interval)
            &&& last == (LightningSync::Done {
                result: spec_pass_result(metrics, pass, archival_interval),
            })
            &&& metrics4 == spec_pass_metrics(metrics, pass, archival_interval)
        }),
{
}

/// Archival threshold: a pass archives resolved monitors if, and only if, the
/// sync succeeded, its timestamp was stored, and either no archival has run
/// yet or the height reached lies at least `archival_interval` blocks above
/// the height of the last one.
pub proof fn lemma_archival_threshold(
    metrics: NodeMetrics,
    pass: LightningPass,
    archival_interval: u32,
)
    requires
        spec_tx_sync_result(pass.outcome) is Ok,
        pass.sync_persisted,
    ensures
        spec_pass_archives(metrics, pass, archival_interval) <==> (
        metrics.latest_channel_monitor_archival_height matches Some(height) ==> pass.tip_height
            - height >= archival_interval),
        spec_pass_archives(metrics, pass, archival_interval) && pass.archival_persisted
            ==> spec_pass_metrics(
            metrics,
            pass,
            archival_interval,
        ).latest_channel_monitor_archival_height == Some(pass.tip_height),
        !spec_pass_archives(metrics, pass, archival_interval) ==> spec_pass_metrics(
            metrics,
            pass,
            archival_interval,
        ).latest_channel_monitor_archival_height
            == metrics.latest_channel_monitor_archival_height,
{
}

/// A sync that fails leaves the metrics, and with them the timestamp of the
/// last Lightning sync, exactly as they were before the call.
///
/// The one failure left out is that of the write which follows an archival:
/// by then the sync itself has succeeded and its timestamp has been stored.
pub proof fn lemma_failed_sync_keeps_metrics(
    metrics: NodeMetrics,
    pass: LightningPass,
    archival_interval: u32,
)
    requires
        spec_pass_result(metrics, pass, archival_interval) is Err,
        !spec_pass_archives(metrics, pass, archival_interval),
    ensures
        spec_pass_metrics(metrics, pass, archival_interval) == metrics,
        spec_pass_metrics(metrics, pass, archival_interval).latest_lightning_wallet_sync_timestamp
            == metrics.latest_lightning_wallet_sync_timestamp,
{
}

/// No single step of a pass that ends it with an error moves the metrics.
pub proof fn lemma_failing_step_keeps_metrics(
    step: LightningSync,
    metrics: NodeMetrics,
    event: LightningSyncEvent,
    archival_interval: u32,
)
    requires
        step.spec_next(metrics, event, archival_interval) matches LightningSync::Done { result }
            && result is Err,
    ensures
        step.spec_metrics_after(metrics, event) == metrics,
{
}

/// The heights of the views that the confirmables hold after one pass which
/// advances each member of `batch` to the snapshot at `tip_height`.
pub open spec fn spec_views_after_pass(
    views: Map<Confirmable, u32>,
    batch: Seq<Confirmable>,
    tip_height: u32,
) -> Map<Confirmable, u32> {
    Map::new(
        |c: Confirmable| batch.contains(c) || views.dom().contains(c),
        |c: Confirmable|
            if batch.contains(c) {
                tip_height
            } else {
                views[c]
            },
    )
}

/// The batch of a pass holds every confirmable, each once.
pub proof fn lemma_batch_is_complete(confirmable: Confirmable)
    ensures
        spec_confirmables().contains(confirmable),
        spec_confirmables().no_duplicates(),
{
    let batch = spec_confirmables();
    assert(batch[0] == Confirmable::ChannelManager);
    assert(batch[1] == Confirmable::ChainMonitor);
    assert(batch[2] == Confirmable::OutputSweeper);
}

/// Consistent confirmation snapshot: after one pass over the batch, which
/// reports the chain tip at `tip_height`, every confirmable holds a view at
/// that height, whatever it held before. None is left at a stale height,
/// because the batch of a pass leaves none out.
pub proof fn lemma_consistent_confirmation_snapshot(
    views: Map<Confirmable, u32>,
    tip_height: u32,
    confirmable: Confirmable,
)
    ensures
        spec_views_after_pass(views, spec_confirmables(), tip_height).dom().contains(confirmable),
        spec_views_after_pass(views, spec_confirmables(), tip_height)[confirmable] == tip_height,
{
    lemma_batch_is_complete(confirmable);
}

} // verus!
