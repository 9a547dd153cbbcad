use ldk_node::announcement::{
    record_node_announcement_broadcast, should_broadcast_node_announcement, AnnouncementConditions,
};
use ldk_node::chain::manual::ManualSync;
use ldk_node::chain::onchain::{
    begin_wallet_sync, finish_wallet_sync, OnchainSync, OnchainSyncStart, SyncMode,
    WalletScanOutcome,
};
use ldk_node::chain::sync_status::WalletSyncStatus;
use ldk_node::error::Error;
use ldk_node::metrics::NodeMetrics;
use ldk_node::wallet::{check_funds, get_balances, get_spendable_amount_sats};

#[test]
fn spendable_balance_leaves_the_reserve() {
    assert_eq!(get_balances(100_000, 80_000, 30_000), (100_000, 50_000));
    assert_eq!(get_balances(100_000, 80_000, 80_000), (100_000, 0));
    assert_eq!(get_balances(100_000, 80_000, 80_001), (100_000, 0));
    assert_eq!(get_balances(u64::MAX, u64::MAX, 0), (u64::MAX, u64::MAX));
    assert_eq!(get_spendable_amount_sats(100_000, 80_000, 30_000), 50_000);
    assert_eq!(get_spendable_amount_sats(0, 0, u64::MAX), 0);
}

#[test]
fn funds_must_cover_the_amount() {
    assert_eq!(check_funds(1000, 1000), Ok(()));
    assert_eq!(check_funds(1000, 999), Ok(()));
    assert_eq!(check_funds(1000, 1001), Err(Error::InsufficientFunds));
}

#[test]
fn a_wallet_without_metrics_is_scanned_in_full() {
    let mut status = WalletSyncStatus::new();
    for _ in 0..2 {
        match begin_wallet_sync(&mut status) {
            OnchainSyncStart::Lead { first } => assert_eq!(
                first,
                OnchainSync::Scan { mode: SyncMode::FullScan { stop_gap: 20, parallel_requests: 4 } }
            ),
            OnchainSyncStart::Await { .. } => panic!("no sync is running"),
        }
        let mut waiter = match begin_wallet_sync(&mut status) {
            OnchainSyncStart::Await { subscription } => subscription,
            OnchainSyncStart::Lead { .. } => panic!("a sync is running"),
        };
        assert_eq!(
            finish_wallet_sync(&mut status, WalletScanOutcome::TimedOut),
            Err(Error::WalletOperationTimeout)
        );
        assert_eq!(waiter.try_recv(), Ok(Err(Error::WalletOperationTimeout)));
        assert!(!status.is_in_progress());
    }
    assert!(status.register_or_subscribe_pending_sync().is_none());
    assert_eq!(finish_wallet_sync(&mut status, WalletScanOutcome::Applied), Ok(()));
}

#[test]
fn manual_sync_runs_both_wallets_in_turn() {
    assert_eq!(ManualSync::begin(false), ManualSync::Done { result: Err(Error::NotRunning) });
    let first = ManualSync::begin(true);
    assert_eq!(first, ManualSync::SyncOnchainWallet);
    let second = first.next(Ok(()));
    assert_eq!(second, ManualSync::SyncLightningWallet);
    assert_eq!(second.next(Ok(())), ManualSync::Done { result: Ok(()) });
    assert_eq!(
        second.next(Err(Error::TxSyncTimeout)),
        ManualSync::Done { result: Err(Error::TxSyncTimeout) }
    );
    let failed = first.next(Err(Error::WalletOperationFailed));
    assert_eq!(failed, ManualSync::Done { result: Err(Error::WalletOperationFailed) });
    assert_eq!(failed.next(Ok(())), failed);
}

#[test]
fn node_announcement_conditions() {
    let ready = AnnouncementConditions {
        latest_broadcast_secs: Some(1_000),
        now_secs: 4_600,
        has_public_channel: true,
        has_connected_peer: true,
        num_listening_addresses: 1,
    };
    assert!(should_broadcast_node_announcement(&ready));
    assert!(!should_broadcast_node_announcement(&AnnouncementConditions { now_secs: 4_599, ..ready }));
    assert!(!should_broadcast_node_announcement(&AnnouncementConditions { now_secs: 999, ..ready }));
    assert!(should_broadcast_node_announcement(&AnnouncementConditions {
        latest_broadcast_secs: None,
        now_secs: 0,
        ..ready
    }));
    assert!(!should_broadcast_node_announcement(&AnnouncementConditions {
        latest_broadcast_secs: Some(u64::MAX),
        now_secs: u64::MAX,
        ..ready
    }));
    assert!(!should_broadcast_node_announcement(&AnnouncementConditions {
        has_public_channel: false,
        ..ready
    }));
    assert!(!should_broadcast_node_announcement(&AnnouncementConditions {
        has_connected_peer: false,
        ..ready
    }));
    assert!(!should_broadcast_node_announcement(&AnnouncementConditions {
        num_listening_addresses: 0,
        ..ready
    }));

    let mut expected = NodeMetrics::new();
    expected.latest_node_announcement_broadcast_timestamp = Some(4_600);
    assert_eq!(record_node_announcement_broadcast(&NodeMetrics::new(), Some(4_600)), expected);
}
