use ldk_node::chain::sync_status::{
    delivery_report, subscriber_result, Propagation, WalletSyncStatus,
};
use ldk_node::error::Error;
use tokio::sync::broadcast::error::TryRecvError;

#[test]
fn first_caller_leads_and_later_callers_subscribe() {
    let mut status = WalletSyncStatus::new();
    assert!(!status.is_in_progress());

    assert!(status.register_or_subscribe_pending_sync().is_none());
    assert!(status.is_in_progress());

    let subscription = status.register_or_subscribe_pending_sync();
    assert!(subscription.is_some());
    assert!(status.is_in_progress());
}

#[test]
fn leader_result_reaches_every_subscriber() {
    let mut status = WalletSyncStatus::new();
    assert!(status.register_or_subscribe_pending_sync().is_none());
    let mut first = status.register_or_subscribe_pending_sync().unwrap();
    let mut second = status.register_or_subscribe_pending_sync().unwrap();
    assert_eq!(first.try_recv(), Err(TryRecvError::Empty));

    let report = status.propagate_result_to_subscribers(Err(Error::WalletOperationTimeout));
    assert_eq!(report, Propagation::Delivered { receivers: 2 });
    assert!(!status.is_in_progress());

    let first_seen = subscriber_result(first.try_recv().ok());
    let second_seen = subscriber_result(second.try_recv().ok());
    assert_eq!(first_seen, Err(Error::WalletOperationTimeout));
    assert_eq!(second_seen, first_seen);
}

#[test]
fn success_is_propagated_as_success() {
    let mut status = WalletSyncStatus::new();
    assert!(status.register_or_subscribe_pending_sync().is_none());
    let mut waiter = status.register_or_subscribe_pending_sync().unwrap();
    assert_eq!(status.finish(Ok(())), Ok(()));
    assert!(!status.is_in_progress());
    assert_eq!(waiter.try_recv(), Ok(Ok(())));
}

#[test]
fn propagating_without_subscribers_resets_the_status() {
    let mut status = WalletSyncStatus::new();
    assert!(status.register_or_subscribe_pending_sync().is_none());
    let report = status.propagate_result_to_subscribers(Ok(()));
    assert_eq!(report, Propagation::NoSubscribers);
    assert!(!status.is_in_progress());
}

#[test]
fn subscribers_that_gave_up_do_not_keep_the_pass_open() {
    let mut status = WalletSyncStatus::new();
    assert!(status.register_or_subscribe_pending_sync().is_none());
    let waiter = status.register_or_subscribe_pending_sync().unwrap();
    drop(waiter);
    let report = status.propagate_result_to_subscribers(Err(Error::TxSyncFailed));
    assert_eq!(report, Propagation::NoSubscribers);
    assert!(!status.is_in_progress());
}

#[test]
fn propagating_when_completed_does_nothing() {
    let mut status = WalletSyncStatus::new();
    let report = status.propagate_result_to_subscribers(Ok(()));
    assert_eq!(report, Propagation::NoSyncInProgress);
    assert!(!status.is_in_progress());
}

#[test]
fn each_pass_gets_a_fresh_channel() {
    let mut status = WalletSyncStatus::new();
    assert!(status.register_or_subscribe_pending_sync().is_none());
    let mut stale = status.register_or_subscribe_pending_sync().unwrap();
    assert_eq!(status.finish(Err(Error::WalletOperationFailed)), Err(Error::WalletOperationFailed));
    assert_eq!(stale.try_recv(), Ok(Err(Error::WalletOperationFailed)));

    assert!(status.register_or_subscribe_pending_sync().is_none());
    let mut fresh = status.register_or_subscribe_pending_sync().unwrap();
    assert_eq!(status.finish(Ok(())), Ok(()));
    assert_eq!(fresh.try_recv(), Ok(Ok(())));
    assert_eq!(stale.try_recv(), Err(TryRecvError::Closed));
}

#[test]
fn a_subscription_that_ends_without_a_result_is_an_error() {
    let mut status = WalletSyncStatus::new();
    assert!(status.register_or_subscribe_pending_sync().is_none());
    let mut waiter = status.register_or_subscribe_pending_sync().unwrap();
    drop(status);
    assert_eq!(subscriber_result(waiter.try_recv().ok()), Err(Error::WalletOperationFailed));
    assert_eq!(subscriber_result(None), Err(Error::WalletOperationFailed));
    assert_eq!(subscriber_result(Some(Ok(()))), Ok(()));
    assert_eq!(subscriber_result(Some(Err(Error::TxSyncTimeout))), Err(Error::TxSyncTimeout));
}

#[test]
fn delivery_reports() {
    assert_eq!(delivery_report(0, None), Propagation::NoSubscribers);
    assert_eq!(delivery_report(0, Some(3)), Propagation::NoSubscribers);
    assert_eq!(delivery_report(2, Some(2)), Propagation::Delivered { receivers: 2 });
    assert_eq!(delivery_report(1, None), Propagation::DeliveryFailed);
}
