//! De-duplication of concurrent sync requests.
//!
//! One [`WalletSyncStatus`] exists per kind of sync. The caller that finds it
//! `Completed` becomes the leader of a pass and performs the sync; every caller
//! that arrives while the pass runs subscribes to the leader's result instead
//! of starting redundant work. The leader ends the pass by handing its result
//! to [`WalletSyncStatus::propagate_result_to_subscribers`].

use crate::error::Error;
use tokio::sync::broadcast::{Receiver, Sender};
use vstd::prelude::*;

verus! {

/// The sending half of a broadcast channel, which hands each value to every
/// receiver subscribed at the time.
#[verifier::external_type_specification]
#[verifier::external_body]
#[verifier::reject_recursive_types(T)]
pub struct ExSender<T>(tokio::sync::broadcast::Sender<T>);

/// The receiving half of a broadcast channel.
#[verifier::external_type_specification]
#[verifier::external_body]
#[verifier::reject_recursive_types(T)]
pub struct ExReceiver<T>(tokio::sync::broadcast::Receiver<T>);

/// The number of results that the channel of one pass can hold: a pass ends
/// with exactly one.
pub const SYNC_RESULT_CHANNEL_CAPACITY: usize = 1;

/// Whether a sync of one kind is running.
#[derive(Clone, Copy, Debug, PartialEq, Eq, Structural)]
pub enum SyncPhase {
    /// No sync is in flight.
    Completed,
    /// A sync is running.
    InProgress,
}

/// The sync status of one kind of sync.
pub enum WalletSyncStatus {
    /// No sync is in flight.
    Completed,
    /// A sync is running; `subscribers` delivers its eventual result to every
    /// caller that arrived after it started.
    InProgress { subscribers: Sender<Result<(), Error>> },
}

/// What became of a result that a leader handed over.
#[derive(Clone, Copy, Debug, PartialEq, Eq, Structural)]
pub enum Propagation {
    /// No sync was in progress, so there was nothing to end.
    NoSyncInProgress,
    /// The pass ended with nobody waiting for its result.
    NoSubscribers,
    /// The result was handed to the channel while `receivers` callers were
    /// subscribed.
    Delivered { receivers: usize },
    /// Callers were subscribed, but all of them had given up by the time the
    /// result was sent. The pass ended nevertheless.
    DeliveryFailed,
}

/// The phase that a status is in once a caller has registered with it.
pub open spec fn phase_after_register(phase: SyncPhase) -> SyncPhase {
    SyncPhase::InProgress
}

/// Whether the caller that registers in `phase` is the one to perform the
/// sync.
pub open spec fn registers_as_leader(phase: SyncPhase) -> bool {
    phase == SyncPhase::Completed
}

/// The phase that a status is in once a result has been propagated.
pub open spec fn phase_after_propagate(phase: SyncPhase) -> SyncPhase {
    SyncPhase::Completed
}

/// What a leader reports of a pass that ended while `receiver_count` callers
/// were subscribed, where `sent` is what the channel answered to the send (and
/// is not looked at where nobody was subscribed).
pub open spec fn spec_delivery_report(receiver_count: usize, sent: Option<usize>) -> Propagation {
    if receiver_count == 0 {
        Propagation::NoSubscribers
    } else {
        match sent {
            Some(receivers) => Propagation::Delivered { receivers },
            None => Propagation::DeliveryFailed,
        }
    }
}

/// The result that a caller reports which waited for another caller's sync and
/// `received` this on its subscription.
pub open spec fn subscriber_view(received: Option<Result<(), Error>>) -> Result<(), Error> {
    match received {
        Some(result) => result,
        None => Err(Error::WalletOperationFailed),
    }
}

impl View for WalletSyncStatus {
    type V = SyncPhase;

    open spec fn view(&self) -> SyncPhase {
        match self {
            WalletSyncStatus::Completed => SyncPhase::Completed,
            WalletSyncStatus::InProgress { .. } => SyncPhase::InProgress,
        }
    }
}

/// Opens a channel with `tokio::sync::broadcast::channel`.
///
/// Nothing is claimed of the two halves. The call panics on a capacity of zero
/// or above `usize::MAX / 2`, which the precondition rules out.
#[verifier::external_body]
fn open_channel(capacity: usize) -> (halves: (
    Sender<Result<(), Error>>,
    Receiver<Result<(), Error>>,
))
    requires
        0 < capacity <= usize::MAX / 2,
{
    tokio::sync::broadcast::channel(capacity)
}

/// Adds a receiver with `tokio::sync::broadcast::Sender::subscribe`.
///
/// Nothing is claimed of the receiver. The call panics only on a channel that
/// already has `usize::MAX / 4` receivers, more than a process can hold.
#[verifier::external_body]
fn subscribe(subscribers: &Sender<Result<(), Error>>) -> (receiver: Receiver<Result<(), Error>>) {
    subscribers.subscribe()
}

/// Reads `tokio::sync::broadcast::Sender::receiver_count`.
///
/// The count changes as other tasks subscribe and give up, so nothing is
/// claimed of it.
#[verifier::external_body]
fn receiver_count(subscribers: &Sender<Result<(), Error>>) -> (count: usize) {
    subscribers.receiver_count()
}

/// Sends with `tokio::sync::broadcast::Sender::send`.
///
/// The answer is the number of receivers subscribed at the time of the send,
/// or nothing where there was none. A send is only accepted while at least one
/// receiver is subscribed, which is all that is claimed.
#[verifier::external_body]
fn send(subscribers: &Sender<Result<(), Error>>, result: Result<(), Error>) -> (sent: Option<usize>)
    ensures
        sent is Some ==> sent->0 >= 1,
{
    subscribers.send(result).ok()
}

/// Returns what a leader reports of a pass that ended while `receiver_count`
/// callers were subscribed, where `sent` is what the channel answered to the
/// send.
pub fn delivery_report(receiver_count: usize, sent: Option<usize>) -> (report: Propagation)
    ensures
        report == spec_delivery_report(receiver_count, sent),
{
    if receiver_count == 0 {
        Propagation::NoSubscribers
    } else {
        match sent {
            Some(receivers) => Propagation::Delivered { receivers },
            None => Propagation::DeliveryFailed,
        }
    }
}

/// Returns what a caller reports that waited for another caller's sync.
///
/// `received` is what arrived on the subscription: the leader's result, or
/// nothing where the subscription ended without one. The latter shows a defect
/// on the leader's side and is reported as [`Error::WalletOperationFailed`];
/// otherwise the waiter reports exactly what the leader reported.
pub fn subscriber_result(received: Option<Result<(), Error>>) -> (result: Result<(), Error>)
    ensures
        result == subscriber_view(received),
{
    match received {
        Some(result) => result,
        None => Err(Error::WalletOperationFailed),
    }
}

impl WalletSyncStatus {
    /// Returns the status of a kind of sync of which no pass has run yet.
    pub fn new() -> (status: WalletSyncStatus)
        ensures
            status@ == SyncPhase::Completed,
    {
        WalletSyncStatus::Completed
    }

    /// Returns whether a sync is running.
    pub fn is_in_progress(&self) -> (in_progress: bool)
        ensures
            in_progress == (self@ == SyncPhase::InProgress),
    {
        match self {
            WalletSyncStatus::Completed => false,
            WalletSyncStatus::InProgress { .. } => true,
        }
    }

    /// Registers the caller as the leader of a new pass, or subscribes it to
    /// the pass that is running.
    ///
    /// Where no sync was in flight the status moves to `InProgress`, with a
    /// channel made for this pass alone, and the answer is `None`: the caller
    /// leads and must perform the sync. Where a sync was running the status
    /// stays as it was and the answer is a subscription to that pass: the
    /// caller must not sync, and awaits the leader's result instead.
    pub fn register_or_subscribe_pending_sync(&mut self) -> (subscription: Option<
        Receiver<Result<(), Error>>,
    >)
        ensures
            final(self)@ == phase_after_register(old(self)@),
            subscription is None <==> registers_as_leader(old(self)@),
            !registers_as_leader(old(self)@) ==> *final(self) == *old(self),
    {
        match self {
            WalletSyncStatus::Completed => {
                let (subscribers, _) = open_channel(SYNC_RESULT_CHANNEL_CAPACITY);
                *self = WalletSyncStatus::InProgress { subscribers };
                None
            },
            WalletSyncStatus::InProgress { subscribers } => Some(subscribe(subscribers)),
        }
    }

    /// Ends the pass that the caller leads and returns the result for the
    /// caller to report: the same that every subscriber is handed.
    pub fn finish(&mut self, result: Result<(), Error>) -> (reported: Result<(), Error>)
        ensures
            final(self)@ == phase_after_propagate(old(self)@),
            reported == result,
    {
        let _ = self.propagate_result_to_subscribers(result);
        result
    }

    /// Ends the pass that is running: hands `res` to every caller subscribed
    /// to it and moves the status back to `Completed`.
    ///
    /// Only the leader of the pass calls this, once. Where nobody is subscribed
    /// nothing is sent. A send that fails because every subscriber gave up is
    /// reported and does not keep the pass from ending. Where no sync was in
    /// progress nothing happens.
    pub fn propagate_result_to_subscribers(&mut self, res: Result<(), Error>) -> (report:
        Propagation)
        ensures
            final(self)@ == phase_after_propagate(old(self)@),
            report == Propagation::NoSyncInProgress <==> old(self)@ == SyncPhase::Completed,
            report matches Propagation::Delivered { receivers } ==> receivers >= 1,
    {
        match self {
            WalletSyncStatus::Completed => Propagation::NoSyncInProgress,
            WalletSyncStatus::InProgress { subscribers } => {
                let waiting = receiver_count(subscribers);
                let report = if waiting > 0 {
                    let sent = send(subscribers, res);
                    delivery_report(waiting, sent)
                } else {
                    delivery_report(waiting, None)
                };
                *self = WalletSyncStatus::Completed;
                report
            },
        }
    }
}

/// A call that reaches the coordinator of one kind of sync.
pub enum CoordinatorCall {
    /// `caller` asks for a sync.
    Register { caller: nat },
    /// The leader of the running pass hands over its result.
    Propagate { result: Result<(), Error> },
}

/// The coordinator of one kind of sync together with the callers it serves.
///
/// This is the model against which the coordinator's guarantee is stated; the
/// phase moves exactly as [`WalletSyncStatus`] moves it.
pub struct Coordination {
    /// Whether a pass is running.
    pub phase: SyncPhase,
    /// The number of callers that were told to perform the sync and have not
    /// handed over a result yet.
    pub provider_calls_in_flight: nat,
    /// The leader and the subscribers of the running pass.
    pub round: Set<nat>,
    /// What each caller of an ended pass was told.
    pub outcomes: Map<nat, Result<(), Error>>,
}

impl Coordination {
    /// The coordinator before any call.
    pub open spec fn initial() -> Coordination {
        Coordination {
            phase: SyncPhase::Completed,
            provider_calls_in_flight: 0,
            round: Set::empty(),
            outcomes: Map::empty(),
        }
    }

    /// The coordinator after `caller` registered.
    pub open spec fn register(self, caller: nat) -> Coordination {
        if registers_as_leader(self.phase) {
            Coordination {
                phase: phase_after_register(self.phase),
                provider_calls_in_flight: self.provider_calls_in_flight + 1,
                round: Set::empty().insert(caller),
                outcomes: self.outcomes,
            }
        } else {
            Coordination {
                phase: phase_after_register(self.phase),
                provider_calls_in_flight: self.provider_calls_in_flight,
                round: self.round.insert(caller),
                outcomes: self.outcomes,
            }
        }
    }

    /// The coordinator after the leader handed over `result`: each caller of
    /// the pass is told what its subscription delivers.
    pub open spec fn propagate(self, result: Result<(), Error>) -> Coordination {
        if self.phase == SyncPhase::InProgress {
            Coordination {
                phase: phase_after_propagate(self.phase),
                provider_calls_in_flight: (self.provider_calls_in_flight - 1) as nat,
                round: Set::empty(),
                outcomes: Map::new(
                    |caller: nat| self.round.contains(caller) || self.outcomes.dom().contains(caller),
                    |caller: nat|
                        if self.round.contains(caller) {
                            subscriber_view(Some(result))
                        } else {
                            self.outcomes[caller]
                        },
                ),
            }
        } else {
            self
        }
    }

    /// The coordinator after one call.
    pub open spec fn apply(self, call: CoordinatorCall) -> Coordination {
        match call {
            CoordinatorCall::Register { caller } => self.register(caller),
            CoordinatorCall::Propagate { result } => self.propagate(result),
        }
    }

    /// The coordinator after `calls`, in their order, from the initial state.
    pub open spec fn after(calls: Seq<CoordinatorCall>) -> Coordination
        decreases calls.len(),
    {
        if calls.len() == 0 {
            Coordination::initial()
        } else {
            Coordination::after(calls.drop_last()).apply(calls.last())
        }
    }
}

/// Mutual exclusion: whatever calls reach the coordinator of one kind of sync,
/// and in whatever order, at most one caller at a time has been told to
/// perform the sync and has not ended its pass; one such caller exists exactly
/// while the status is `InProgress`.
pub proof fn lemma_mutual_exclusion(calls: Seq<CoordinatorCall>)
    ensures
        Coordination::after(calls).provider_calls_in_flight <= 1,
        Coordination::after(calls).provider_calls_in_flight == 1 <==> Coordination::after(
            calls,
        ).phase == SyncPhase::InProgress,
    decreases calls.len(),
{
    if calls.len() > 0 {
        lemma_mutual_exclusion(calls.drop_last());
    }
}

/// A caller that registers while a pass is running never starts a second
/// provider call: the number of calls in flight stays as it was.
pub proof fn lemma_late_arrival_starts_no_work(before: Coordination, caller: nat)
    requires
        before.phase == SyncPhase::InProgress,
    ensures
        before.register(caller).provider_calls_in_flight == before.provider_calls_in_flight,
        before.register(caller).phase == SyncPhase::InProgress,
        before.register(caller).round.contains(caller),
{
}

/// Every caller of a pass, the leader and each subscriber, is told the same
/// terminal result: the one that the leader handed over.
pub proof fn lemma_callers_share_result(
    before: Coordination,
    result: Result<(), Error>,
    first: nat,
    second: nat,
)
    requires
        before.phase == SyncPhase::InProgress,
        before.round.contains(first),
        before.round.contains(second),
    ensures
        before.propagate(result).outcomes.dom().contains(first),
        before.propagate(result).outcomes.dom().contains(second),
        before.propagate(result).outcomes[first] == result,
        before.propagate(result).outcomes[second] == result,
{
}

} // verus!
