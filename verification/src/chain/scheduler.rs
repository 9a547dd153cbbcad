//! The timers that drive the background routines.
//!
//! Each routine has a timer of its own. A timer is idle until it fires and
//! ticking while the routine it dispatched runs. A tick that arrives while the
//! routine of the same kind still runs is skipped, never queued. A shutdown is
//! observed at the boundary of a tick only: work in flight runs to its end, and
//! no further tick is dispatched.

use crate::config::{
    effective_interval_secs, spec_effective_interval_secs, EsploraSyncConfig,
    BDK_WALLET_SYNC_TIMEOUT_SECS, FEE_RATE_CACHE_UPDATE_TIMEOUT_SECS,
    LDK_WALLET_SYNC_TIMEOUT_SECS, TX_BROADCAST_TIMEOUT_SECS,
};
use vstd::prelude::*;

verus! {

/// The interval at which the broadcast queue is flushed, in seconds.
pub const BROADCAST_QUEUE_INTERVAL_SECS: u64 = 1;

/// A routine that runs off a timer.
#[derive(Clone, Copy, Debug, PartialEq, Eq, Structural)]
pub enum TimerKind {
    /// The sync of the on-chain wallet.
    OnchainWalletSync,
    /// The sync of the Lightning wallet.
    LightningWalletSync,
    /// The update of the fee-rate cache.
    FeeRateCacheUpdate,
    /// The flush of the broadcast queue.
    BroadcastQueueFlush,
}

/// Whether the routine of a timer runs.
#[derive(Clone, Copy, Debug, PartialEq, Eq, Structural)]
pub enum TimerState {
    /// The timer waits for its next tick.
    Idle,
    /// The timer has fired and its routine runs.
    Ticking,
}

/// How the timer of a routine is set up.
#[derive(Clone, Copy, Debug, PartialEq, Eq, Structural)]
pub struct TimerPlan {
    /// The seconds between two ticks.
    pub interval_secs: u64,
    /// Whether the first tick comes at once, rather than after one interval.
    pub fires_at_start: bool,
    /// The time limit of each call to the provider that the routine makes, in
    /// seconds.
    pub timeout_secs: u64,
}

/// What reaches the scheduler.
#[derive(Clone, Copy, Debug, PartialEq, Eq, Structural)]
pub enum SchedulerEvent {
    /// The shutdown signal was observed.
    Shutdown,
    /// The timer of `kind` fired.
    Tick { kind: TimerKind },
    /// The routine of `kind` returned.
    Finished { kind: TimerKind },
}

/// What the scheduler asks for.
#[derive(Clone, Copy, Debug, PartialEq, Eq, Structural)]
pub enum SchedulerAction {
    /// Run the routine of `kind` once.
    Dispatch { kind: TimerKind },
    /// Do nothing for this tick: the routine of its kind still runs.
    Skip,
    /// Wait for the next event.
    Wait,
    /// Schedule no further tick.
    Stop,
}

/// The timers of one node.
#[derive(Clone, Copy, Debug, PartialEq, Eq, Structural)]
pub struct Scheduler {
    /// The timer of the on-chain wallet sync.
    pub onchain_wallet_sync: TimerState,
    /// The timer of the Lightning wallet sync.
    pub lightning_wallet_sync: TimerState,
    /// The timer of the fee-rate cache update.
    pub fee_rate_cache_update: TimerState,
    /// The timer of the broadcast queue flush.
    pub broadcast_queue_flush: TimerState,
    /// Whether the shutdown signal was observed.
    pub shutdown: bool,
}

/// How the timer of `kind` is set up under `config`.
pub open spec fn spec_timer_plan(kind: TimerKind, config: EsploraSyncConfig) -> TimerPlan {
    match kind {
        TimerKind::OnchainWalletSync => TimerPlan {
            interval_secs: spec_effective_interval_secs(config.onchain_wallet_sync_interval_secs),
            fires_at_start: true,
            timeout_secs: BDK_WALLET_SYNC_TIMEOUT_SECS,
        },
        TimerKind::LightningWalletSync => TimerPlan {
            interval_secs: spec_effective_interval_secs(config.lightning_wallet_sync_interval_secs),
            fires_at_start: true,
            timeout_secs: LDK_WALLET_SYNC_TIMEOUT_SECS,
        },
        TimerKind::FeeRateCacheUpdate => TimerPlan {
            interval_secs: spec_effective_interval_secs(config.fee_rate_cache_update_interval_secs),
            fires_at_start: false,
            timeout_secs: FEE_RATE_CACHE_UPDATE_TIMEOUT_SECS,
        },
        TimerKind::BroadcastQueueFlush => TimerPlan {
            interval_secs: BROADCAST_QUEUE_INTERVAL_SECS,
            fires_at_start: true,
            timeout_secs: TX_BROADCAST_TIMEOUT_SECS,
        },
    }
}

/// Returns how the timer of `kind` is set up under `config`.
///
/// The three sync timers run at their configured interval, raised to the
/// enforced minimum where it lies below. The fee-rate timer skips its first
/// tick, because the cache is updated once at startup before any timer runs.
pub fn timer_plan(kind: TimerKind, config: &EsploraSyncConfig) -> (plan: TimerPlan)
    ensures
        plan == spec_timer_plan(kind, *config),
{
    match kind {
        TimerKind::OnchainWalletSync => TimerPlan {
            interval_secs: effective_interval_secs(config.onchain_wallet_sync_interval_secs),
            fires_at_start: true,
            timeout_secs: BDK_WALLET_SYNC_TIMEOUT_SECS,
        },
        TimerKind::LightningWalletSync => TimerPlan {
            interval_secs: effective_interval_secs(config.lightning_wallet_sync_interval_secs),
            fires_at_start: true,
            timeout_secs: LDK_WALLET_SYNC_TIMEOUT_SECS,
        },
        TimerKind::FeeRateCacheUpdate => TimerPlan {
            interval_secs: effective_interval_secs(config.fee_rate_cache_update_interval_secs),
            fires_at_start: false,
            timeout_secs: FEE_RATE_CACHE_UPDATE_TIMEOUT_SECS,
        },
        TimerKind::BroadcastQueueFlush => TimerPlan {
            interval_secs: BROADCAST_QUEUE_INTERVAL_SECS,
            fires_at_start: true,
            timeout_secs: TX_BROADCAST_TIMEOUT_SECS,
        },
    }
}

impl Scheduler {
    /// The scheduler of a node that has just started.
    pub open spec fn spec_new() -> Scheduler {
        Scheduler {
            onchain_wallet_sync: TimerState::Idle,
            lightning_wallet_sync: TimerState::Idle,
            fee_rate_cache_update: TimerState::Idle,
            broadcast_queue_flush: TimerState::Idle,
            shutdown: false,
        }
    }

    /// The state of the timer of `kind`.
    pub open spec fn spec_state(self, kind: TimerKind) -> TimerState {
        match kind {
            TimerKind::OnchainWalletSync => self.onchain_wallet_sync,
            TimerKind::LightningWalletSync => self.lightning_wallet_sync,
            TimerKind::FeeRateCacheUpdate => self.fee_rate_cache_update,
            TimerKind::BroadcastQueueFlush => self.broadcast_queue_flush,
        }
    }

    /// Whether the shutdown signal was observed.
    pub open spec fn spec_is_shutdown(self) -> bool {
        self.shutdown
    }

    /// The scheduler with the timer of `kind` in `state`.
    pub open spec fn spec_with_state(self, kind: TimerKind, state: TimerState) -> Scheduler {
        match kind {
            TimerKind::OnchainWalletSync => Scheduler { onchain_wallet_sync: state, ..self },
            TimerKind::LightningWalletSync => Scheduler { lightning_wallet_sync: state, ..self },
            TimerKind::FeeRateCacheUpdate => Scheduler { fee_rate_cache_update: state, ..self },
            TimerKind::BroadcastQueueFlush => Scheduler { broadcast_queue_flush: state, ..self },
        }
    }

    /// What the scheduler asks for on `event`.
    pub open spec fn spec_action(self, event: SchedulerEvent) -> SchedulerAction {
        match event {
            SchedulerEvent::Shutdown => SchedulerAction::Stop,
            SchedulerEvent::Tick { kind } => if self.shutdown {
                SchedulerAction::Stop
            } else if self.spec_state(kind) == TimerState::Ticking {
                SchedulerAction::Skip
            } else {
                SchedulerAction::Dispatch { kind }
            },
            SchedulerEvent::Finished { .. } => if self.shutdown {
                SchedulerAction::Stop
            } else {
                SchedulerAction::Wait
            },
        }
    }

    /// The scheduler after `event`.
    pub open spec fn spec_after(self, event: SchedulerEvent) -> Scheduler {
        match event {
            SchedulerEvent::Shutdown => Scheduler { shutdown: true, ..self },
            SchedulerEvent::Tick { kind } => if self.spec_action(event) is Dispatch {
                self.spec_with_state(kind, TimerState::Ticking)
            } else {
                self
            },
            SchedulerEvent::Finished { kind } => self.spec_with_state(kind, TimerState::Idle),
        }
    }

    /// Returns the scheduler of a node that has just started: every timer
    /// idle, no shutdown observed.
    pub fn new() -> (scheduler: Scheduler)
        ensures
            scheduler == Scheduler::spec_new(),
    {
        Scheduler {
            onchain_wallet_sync: TimerState::Idle,
            lightning_wallet_sync: TimerState::Idle,
            fee_rate_cache_update: TimerState::Idle,
            broadcast_queue_flush: TimerState::Idle,
            shutdown: false,
        }
    }

    /// Returns the state of the timer of `kind`.
    pub fn state(&self, kind: TimerKind) -> (state: TimerState)
        ensures
            state == self.spec_state(kind),
    {
        match kind {
            TimerKind::OnchainWalletSync => self.onchain_wallet_sync,
            TimerKind::LightningWalletSync => self.lightning_wallet_sync,
            TimerKind::FeeRateCacheUpdate => self.fee_rate_cache_update,
            TimerKind::BroadcastQueueFlush => self.broadcast_queue_flush,
        }
    }

    /// Returns whether the shutdown signal was observed.
    pub fn is_shutdown(&self) -> (shutdown: bool)
        ensures
            shutdown == self.spec_is_shutdown(),
    {
        self.shutdown
    }

    fn set_state(&mut self, kind: TimerKind, state: TimerState)
        ensures
            *final(self) == old(self).spec_with_state(kind, state),
    {
        match kind {
            TimerKind::OnchainWalletSync => {
                self.onchain_wallet_sync = state;
            },
            TimerKind::LightningWalletSync => {
                self.lightning_wallet_sync = state;
            },
            TimerKind::FeeRateCacheUpdate => {
                self.fee_rate_cache_update = state;
            },
            TimerKind::BroadcastQueueFlush => {
                self.broadcast_queue_flush = state;
            },
        }
    }

    /// Takes in one event and says what to do.
    ///
    /// A tick of an idle timer dispatches its routine once and leaves the
    /// timer ticking until the routine is reported as finished. A tick of a
    /// timer whose routine still runs is skipped and changes nothing. The
    /// shutdown signal stops the scheduling of ticks, now and for every later
    /// tick, and leaves the routines in flight alone.
    pub fn on_event(&mut self, event: SchedulerEvent) -> (action: SchedulerAction)
        ensures
            action == old(self).spec_action(event),
            *final(self) == old(self).spec_after(event),
    {
        match event {
            SchedulerEvent::Shutdown => {
                self.shutdown = true;
                SchedulerAction::Stop
            },
            SchedulerEvent::Tick { kind } => {
                if self.shutdown {
                    SchedulerAction::Stop
                } else {
                    match self.state(kind) {
                        TimerState::Ticking => SchedulerAction::Skip,
                        TimerState::Idle => {
                            self.set_state(kind, TimerState::Ticking);
                            SchedulerAction::Dispatch { kind }
                        },
                    }
                }
            },
            SchedulerEvent::Finished { kind } => {
                self.set_state(kind, TimerState::Idle);
                if self.shutdown {
                    SchedulerAction::Stop
                } else {
                    SchedulerAction::Wait
                }
            },
        }
    }

    /// The scheduler after `events`, in their order, from the start.
    pub open spec fn spec_run(events: Seq<SchedulerEvent>) -> Scheduler
        decreases events.len(),
    {
        if events.len() == 0 {
            Scheduler::spec_new()
        } else {
            Scheduler::spec_run(events.drop_last()).spec_after(events.last())
        }
    }

    /// The number of routines of `kind` that were dispatched during `events`
    /// and have not finished.
    pub open spec fn spec_in_flight(events: Seq<SchedulerEvent>, kind: TimerKind) -> int
        decreases events.len(),
    {
        if events.len() == 0 {
            0
        } else {
            let before = Scheduler::spec_run(events.drop_last());
            let earlier = Scheduler::spec_in_flight(events.drop_last(), kind);
            if before.spec_action(events.last()) == (SchedulerAction::Dispatch { kind }) {
                earlier + 1
            } else if events.last() == (SchedulerEvent::Finished { kind }) && before.spec_state(kind)
                == TimerState::Ticking {
                earlier - 1
            } else {
                earlier
            }
        }
    }
}

/// Missed-tick skip: a tick that arrives while the routine of its kind still
/// runs asks for nothing and changes nothing. It is not queued and starts no
/// second run.
pub proof fn lemma_tick_while_running_is_skipped(scheduler: Scheduler, kind: TimerKind)
    requires
        !scheduler.spec_is_shutdown(),
        scheduler.spec_state(kind) == TimerState::Ticking,
    ensures
        scheduler.spec_action(SchedulerEvent::Tick { kind }) == SchedulerAction::Skip,
        scheduler.spec_after(SchedulerEvent::Tick { kind }) == scheduler,
{
}

/// Whatever events arrive, and in whatever order, at most one routine of each
/// kind is in flight: exactly one while its timer is ticking, none while it is
/// idle.
pub proof fn lemma_one_routine_per_kind(events: Seq<SchedulerEvent>, kind: TimerKind)
    ensures
        0 <= Scheduler::spec_in_flight(events, kind) <= 1,
        Scheduler::spec_in_flight(events, kind) == 1 <==> Scheduler::spec_run(events).spec_state(
            kind,
        ) == TimerState::Ticking,
    decreases events.len(),
{
    if events.len() > 0 {
        lemma_one_routine_per_kind(events.drop_last(), kind);
    }
}

/// Timers are independent: an event of one kind never changes the timer of
/// another.
pub proof fn lemma_timers_are_independent(
    scheduler: Scheduler,
    kind: TimerKind,
    other: TimerKind,
)
    requires
        kind != other,
    ensures
        scheduler.spec_after(SchedulerEvent::Tick { kind }).spec_state(other)
            == scheduler.spec_state(other),
        scheduler.spec_after(SchedulerEvent::Finished { kind }).spec_state(other)
            == scheduler.spec_state(other),
{
}

/// Shutdown never cancels work in flight and is final: the timers stay as
/// they are, and every tick from then on stops instead of dispatching.
pub proof fn lemma_shutdown_is_cooperative(scheduler: Scheduler, kind: TimerKind)
    ensures
        scheduler.spec_after(SchedulerEvent::Shutdown).spec_state(kind) == scheduler.spec_state(
            kind,
        ),
        scheduler.spec_after(SchedulerEvent::Shutdown).spec_action(SchedulerEvent::Tick { kind })
            == SchedulerAction::Stop,
        scheduler.spec_after(SchedulerEvent::Shutdown).spec_after(SchedulerEvent::Tick { kind })
            == scheduler.spec_after(SchedulerEvent::Shutdown),
{
}

} // verus!
