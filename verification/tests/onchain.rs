use ldk_node::chain::onchain::{
    begin_onchain_wallet_sync, scan_result, sync_mode, OnchainSync, OnchainSyncEvent,
    OnchainSyncStart, SyncMode, WalletScanOutcome,
};
use ldk_node::chain::sync_status::{subscriber_result, WalletSyncStatus};
use ldk_node::error::Error;
use ldk_node::metrics::NodeMetrics;

fn full_scan() -> SyncMode {
    SyncMode::FullScan { stop_gap: 20, parallel_requests: 4 }
}

fn incremental() -> SyncMode {
    SyncMode::Incremental { parallel_requests: 4 }
}

fn run_pass(
    metrics: &mut NodeMetrics, outcome: WalletScanOutcome, now: Option<u64>, persisted: bool,
) -> Result<(), Error> {
    let mut step = OnchainSync::Scan { mode: sync_mode(metrics) };
    step = step.next(metrics, OnchainSyncEvent::ScanFinished { outcome, now });
    if let OnchainSync::Persist { .. } = step {
        step = step.next(metrics, OnchainSyncEvent::PersistFinished { persisted });
    }
    match step {
        OnchainSync::Done { result } => result,
        _ => panic!("the pass did not end"),
    }
}

#[test]
fn first_sync_is_a_full_scan() {
    let metrics = NodeMetrics::new();
    assert_eq!(sync_mode(&metrics), full_scan());
}

#[test]
fn later_syncs_are_incremental() {
    let mut metrics = NodeMetrics::new();
    assert_eq!(run_pass(&mut metrics, WalletScanOutcome::Applied, Some(1_700_000_000), true), Ok(()));
    assert_eq!(metrics.latest_onchain_wallet_sync_timestamp, Some(1_700_000_000));
    assert_eq!(sync_mode(&metrics), incremental());
}

#[test]
fn failures_do_not_change_the_mode() {
    let mut metrics = NodeMetrics::new();
    let failures = [
        WalletScanOutcome::TimedOut,
        WalletScanOutcome::HttpError,
        WalletScanOutcome::ProviderError,
        WalletScanOutcome::ApplyFailed,
    ];
    for outcome in failures {
        assert!(run_pass(&mut metrics, outcome, Some(5), true).is_err());
        assert_eq!(metrics, NodeMetrics::new());
        assert_eq!(sync_mode(&metrics), full_scan());
    }
    assert_eq!(run_pass(&mut metrics, WalletScanOutcome::Applied, Some(10), true), Ok(()));
    assert_eq!(sync_mode(&metrics), incremental());
    for outcome in failures {
        assert!(run_pass(&mut metrics, outcome, Some(20), true).is_err());
        assert_eq!(metrics.latest_onchain_wallet_sync_timestamp, Some(10));
        assert_eq!(sync_mode(&metrics), incremental());
    }
}

#[test]
fn scan_outcomes_map_to_errors() {
    assert_eq!(scan_result(WalletScanOutcome::Applied), Ok(()));
    assert_eq!(scan_result(WalletScanOutcome::ApplyFailed), Err(Error::WalletOperationFailed));
    assert_eq!(scan_result(WalletScanOutcome::HttpError), Err(Error::WalletOperationFailed));
    assert_eq!(scan_result(WalletScanOutcome::ProviderError), Err(Error::WalletOperationFailed));
    assert_eq!(scan_result(WalletScanOutcome::TimedOut), Err(Error::WalletOperationTimeout));
}

#[test]
fn timestamp_moves_only_after_the_write() {
    let mut metrics = NodeMetrics::new();
    metrics.latest_fee_rate_cache_update_timestamp = Some(3);
    let before = metrics;
    let step = OnchainSync::Scan { mode: full_scan() };
    let step = step.next(
        &mut metrics,
        OnchainSyncEvent::ScanFinished { outcome: WalletScanOutcome::Applied, now: Some(42) },
    );
    assert_eq!(metrics, before);
    let mut expected = before;
    expected.latest_onchain_wallet_sync_timestamp = Some(42);
    assert_eq!(step, OnchainSync::Persist { candidate: expected });

    let done = step.next(&mut metrics, OnchainSyncEvent::PersistFinished { persisted: true });
    assert_eq!(done, OnchainSync::Done { result: Ok(()) });
    assert_eq!(metrics, expected);
}

#[test]
fn failed_write_fails_the_sync_and_keeps_the_metrics() {
    let mut metrics = NodeMetrics::new();
    assert_eq!(
        run_pass(&mut metrics, WalletScanOutcome::Applied, Some(42), false),
        Err(Error::PersistenceFailed)
    );
    assert_eq!(metrics, NodeMetrics::new());
    assert_eq!(sync_mode(&metrics), full_scan());
}

#[test]
fn events_out_of_turn_change_nothing() {
    let mut metrics = NodeMetrics::new();
    let scan = OnchainSync::Scan { mode: full_scan() };
    assert_eq!(scan.next(&mut metrics, OnchainSyncEvent::PersistFinished { persisted: true }), scan);
    let persist = OnchainSync::Persist { candidate: NodeMetrics::new() };
    let event = OnchainSyncEvent::ScanFinished { outcome: WalletScanOutcome::Applied, now: None };
    assert_eq!(persist.next(&mut metrics, event), persist);
    let done = OnchainSync::Done { result: Err(Error::WalletOperationTimeout) };
    assert_eq!(done.next(&mut metrics, event), done);
    assert_eq!(metrics, NodeMetrics::new());
}

#[test]
fn only_one_caller_leads_an_onchain_sync() {
    let mut status = WalletSyncStatus::new();
    let mut metrics = NodeMetrics::new();
    let first = match begin_onchain_wallet_sync(&mut status, &metrics) {
        OnchainSyncStart::Lead { first } => first,
        OnchainSyncStart::Await { .. } => panic!("the first caller must lead"),
    };
    assert_eq!(first, OnchainSync::Scan { mode: full_scan() });

    let mut subscription = match begin_onchain_wallet_sync(&mut status, &metrics) {
        OnchainSyncStart::Await { subscription } => subscription,
        OnchainSyncStart::Lead { .. } => panic!("a second caller must not lead"),
    };

    let result = run_pass(&mut metrics, WalletScanOutcome::Applied, Some(7), true);
    assert_eq!(status.finish(result), Ok(()));
    assert_eq!(subscriber_result(subscription.try_recv().ok()), Ok(()));
    assert!(!status.is_in_progress());

    match begin_onchain_wallet_sync(&mut status, &metrics) {
        OnchainSyncStart::Lead { first } => {
            assert_eq!(first, OnchainSync::Scan { mode: incremental() })
        },
        OnchainSyncStart::Await { .. } => panic!("the status was reset"),
    }
}
