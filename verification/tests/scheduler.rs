use ldk_node::chain::scheduler::{
    timer_plan, Scheduler, SchedulerAction, SchedulerEvent, TimerKind, TimerPlan, TimerState,
};
use ldk_node::config::{effective_interval_secs, EsploraSyncConfig};

const KINDS: [TimerKind; 4] = [
    TimerKind::OnchainWalletSync,
    TimerKind::LightningWalletSync,
    TimerKind::FeeRateCacheUpdate,
    TimerKind::BroadcastQueueFlush,
];

#[test]
fn intervals_have_a_minimum() {
    assert_eq!(effective_interval_secs(0), 10);
    assert_eq!(effective_interval_secs(9), 10);
    assert_eq!(effective_interval_secs(10), 10);
    assert_eq!(effective_interval_secs(11), 11);
    assert_eq!(effective_interval_secs(u64::MAX), u64::MAX);
}

#[test]
fn default_timer_plans() {
    let config = EsploraSyncConfig::default();
    assert_eq!(
        timer_plan(TimerKind::OnchainWalletSync, &config),
        TimerPlan { interval_secs: 80, fires_at_start: true, timeout_secs: 90 }
    );
    assert_eq!(
        timer_plan(TimerKind::LightningWalletSync, &config),
        TimerPlan { interval_secs: 30, fires_at_start: true, timeout_secs: 30 }
    );
    assert_eq!(
        timer_plan(TimerKind::FeeRateCacheUpdate, &config),
        TimerPlan { interval_secs: 600, fires_at_start: false, timeout_secs: 5 }
    );
    assert_eq!(
        timer_plan(TimerKind::BroadcastQueueFlush, &config),
        TimerPlan { interval_secs: 1, fires_at_start: true, timeout_secs: 5 }
    );
}

#[test]
fn short_intervals_are_raised() {
    let config = EsploraSyncConfig {
        onchain_wallet_sync_interval_secs: 1,
        lightning_wallet_sync_interval_secs: 2,
        fee_rate_cache_update_interval_secs: 3,
    };
    assert_eq!(timer_plan(TimerKind::OnchainWalletSync, &config).interval_secs, 10);
    assert_eq!(timer_plan(TimerKind::LightningWalletSync, &config).interval_secs, 10);
    assert_eq!(timer_plan(TimerKind::FeeRateCacheUpdate, &config).interval_secs, 10);
}

#[test]
fn tick_dispatches_once_and_missed_ticks_are_skipped() {
    for kind in KINDS {
        let mut scheduler = Scheduler::new();
        assert_eq!(scheduler.state(kind), TimerState::Idle);
        assert_eq!(scheduler.on_event(SchedulerEvent::Tick { kind }), SchedulerAction::Dispatch { kind });
        assert_eq!(scheduler.state(kind), TimerState::Ticking);

        let running = scheduler;
        assert_eq!(scheduler.on_event(SchedulerEvent::Tick { kind }), SchedulerAction::Skip);
        assert_eq!(scheduler.on_event(SchedulerEvent::Tick { kind }), SchedulerAction::Skip);
        assert_eq!(scheduler, running);

        assert_eq!(scheduler.on_event(SchedulerEvent::Finished { kind }), SchedulerAction::Wait);
        assert_eq!(scheduler, Scheduler::new());
        assert_eq!(scheduler.on_event(SchedulerEvent::Tick { kind }), SchedulerAction::Dispatch { kind });
    }
}

#[test]
fn timers_run_independently() {
    let mut scheduler = Scheduler::new();
    for kind in KINDS {
        assert_eq!(scheduler.on_event(SchedulerEvent::Tick { kind }), SchedulerAction::Dispatch { kind });
    }
    for kind in KINDS {
        assert_eq!(scheduler.state(kind), TimerState::Ticking);
    }
    let kind = TimerKind::LightningWalletSync;
    assert_eq!(scheduler.on_event(SchedulerEvent::Finished { kind }), SchedulerAction::Wait);
    assert_eq!(scheduler.state(TimerKind::OnchainWalletSync), TimerState::Ticking);
    assert_eq!(scheduler.state(TimerKind::LightningWalletSync), TimerState::Idle);
    assert_eq!(scheduler.state(TimerKind::FeeRateCacheUpdate), TimerState::Ticking);
    assert_eq!(scheduler.state(TimerKind::BroadcastQueueFlush), TimerState::Ticking);
}

#[test]
fn shutdown_lets_work_finish_and_stops_ticks() {
    let mut scheduler = Scheduler::new();
    let kind = TimerKind::OnchainWalletSync;
    assert_eq!(scheduler.on_event(SchedulerEvent::Tick { kind }), SchedulerAction::Dispatch { kind });
    assert!(!scheduler.is_shutdown());
    assert_eq!(scheduler.on_event(SchedulerEvent::Shutdown), SchedulerAction::Stop);
    assert!(scheduler.is_shutdown());
    assert_eq!(scheduler.state(kind), TimerState::Ticking);

    for other in KINDS {
        assert_eq!(scheduler.on_event(SchedulerEvent::Tick { kind: other }), SchedulerAction::Stop);
    }
    assert_eq!(scheduler.state(TimerKind::LightningWalletSync), TimerState::Idle);
    assert_eq!(scheduler.on_event(SchedulerEvent::Finished { kind }), SchedulerAction::Stop);
    assert_eq!(scheduler.state(kind), TimerState::Idle);
    assert_eq!(scheduler.on_event(SchedulerEvent::Tick { kind }), SchedulerAction::Stop);
    assert_eq!(scheduler.state(kind), TimerState::Idle);
}
