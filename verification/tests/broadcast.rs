use ldk_node::chain::broadcast::{
    broadcast_verdict, process_broadcast_package, BroadcastOutcome, BroadcastVerdict, PackageReport,
};

#[test]
fn bad_request_means_already_known() {
    let outcome = BroadcastOutcome::HttpError { status: Some(400) };
    let verdict = broadcast_verdict(outcome);
    assert_eq!(verdict, BroadcastVerdict::AlreadyKnown);
    assert!(!verdict.is_failure());
    assert!(verdict.records_transaction());
}

#[test]
fn other_outcomes() {
    assert_eq!(broadcast_verdict(BroadcastOutcome::Accepted), BroadcastVerdict::Broadcast);
    assert!(!BroadcastVerdict::Broadcast.is_failure());
    assert!(!BroadcastVerdict::Broadcast.records_transaction());
    for status in [Some(401), Some(399), Some(500), Some(0), None] {
        let verdict = broadcast_verdict(BroadcastOutcome::HttpError { status });
        assert_eq!(verdict, BroadcastVerdict::HttpFailure);
        assert!(verdict.is_failure());
        assert!(verdict.records_transaction());
    }
    assert_eq!(broadcast_verdict(BroadcastOutcome::ProviderError), BroadcastVerdict::ProviderFailure);
    assert!(BroadcastVerdict::ProviderFailure.is_failure());
    assert_eq!(broadcast_verdict(BroadcastOutcome::TimedOut), BroadcastVerdict::Timeout);
    assert!(BroadcastVerdict::Timeout.is_failure());
}

#[test]
fn package_report_counts_every_transaction() {
    let outcomes = vec![
        BroadcastOutcome::Accepted,
        BroadcastOutcome::TimedOut,
        BroadcastOutcome::HttpError { status: Some(400) },
        BroadcastOutcome::Accepted,
        BroadcastOutcome::HttpError { status: None },
        BroadcastOutcome::ProviderError,
    ];
    assert_eq!(
        process_broadcast_package(&outcomes),
        PackageReport { broadcast: 2, already_known: 1, failed: 3 }
    );
    assert_eq!(
        process_broadcast_package(&Vec::new()),
        PackageReport { broadcast: 0, already_known: 0, failed: 0 }
    );
}
