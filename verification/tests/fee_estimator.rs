use ldk_node::config::Network;
use ldk_node::error::Error;
use ldk_node::fee_estimator::{
    apply_post_estimation_adjustments, get_all_conf_targets, get_num_block_defaults_for_target,
    update_fee_rate_estimates, ConfirmationTarget, FeeEstimates, FeeEstimatesOutcome, FeeRateCache,
};
use ldk_node::metrics::NodeMetrics;

fn fetched(is_empty: bool, sat_per_kwu: [Option<u64>; 10]) -> FeeEstimatesOutcome {
    FeeEstimatesOutcome::Fetched { estimates: FeeEstimates { is_empty, sat_per_kwu } }
}

fn filled_cache() -> FeeRateCache {
    let mut cache = FeeRateCache::new();
    let metrics = NodeMetrics::new();
    let outcome = fetched(false, [Some(5000); 10]);
    assert!(update_fee_rate_estimates(&mut cache, &metrics, Network::Bitcoin, outcome, Some(1)).is_ok());
    cache
}

#[test]
fn targets_and_block_defaults() {
    let targets = get_all_conf_targets();
    assert_eq!(targets.len(), 10);
    for (i, target) in targets.iter().enumerate() {
        assert_eq!(target.index(), i);
    }
    assert_eq!(get_num_block_defaults_for_target(ConfirmationTarget::OnchainPayment), 6);
    assert_eq!(get_num_block_defaults_for_target(ConfirmationTarget::ChannelFunding), 12);
    assert_eq!(get_num_block_defaults_for_target(ConfirmationTarget::MaximumFeeEstimate), 1);
    assert_eq!(get_num_block_defaults_for_target(ConfirmationTarget::UrgentOnChainSweep), 6);
    assert_eq!(
        get_num_block_defaults_for_target(ConfirmationTarget::MinAllowedAnchorChannelRemoteFee),
        1008
    );
    assert_eq!(
        get_num_block_defaults_for_target(ConfirmationTarget::MinAllowedNonAnchorChannelRemoteFee),
        144
    );
    assert_eq!(get_num_block_defaults_for_target(ConfirmationTarget::AnchorChannelFee), 1008);
    assert_eq!(get_num_block_defaults_for_target(ConfirmationTarget::NonAnchorChannelFee), 12);
    assert_eq!(get_num_block_defaults_for_target(ConfirmationTarget::ChannelCloseMinimum), 144);
    assert_eq!(get_num_block_defaults_for_target(ConfirmationTarget::OutputSpendingFee), 12);
}

#[test]
fn post_estimation_adjustments() {
    let target = ConfirmationTarget::MinAllowedNonAnchorChannelRemoteFee;
    assert_eq!(apply_post_estimation_adjustments(target, 1000), 750);
    assert_eq!(apply_post_estimation_adjustments(target, 250), 0);
    assert_eq!(apply_post_estimation_adjustments(target, 249), 0);
    assert_eq!(apply_post_estimation_adjustments(target, u64::MAX), u64::MAX - 250);
    for other in get_all_conf_targets() {
        if other != target {
            assert_eq!(apply_post_estimation_adjustments(other, 1000), 1000);
            assert_eq!(apply_post_estimation_adjustments(other, 0), 0);
        }
    }
}

#[test]
fn new_cache_is_empty() {
    let cache = FeeRateCache::new();
    for target in get_all_conf_targets() {
        assert_eq!(cache.get(target), None);
    }
}

#[test]
fn successful_update_replaces_the_whole_cache() {
    let mut cache = filled_cache();
    let mut metrics = NodeMetrics::new();
    metrics.latest_onchain_wallet_sync_timestamp = Some(4);
    let rates = [
        Some(1500),
        Some(1250),
        Some(9000),
        Some(1501),
        Some(253),
        Some(500),
        Some(254),
        Some(1251),
        Some(501),
        Some(1252),
    ];
    let updated =
        update_fee_rate_estimates(&mut cache, &metrics, Network::Bitcoin, fetched(false, rates), Some(88));
    let mut expected = metrics;
    expected.latest_fee_rate_cache_update_timestamp = Some(88);
    assert_eq!(updated, Ok(expected));
    assert_eq!(cache.get(ConfirmationTarget::OnchainPayment), Some(1500));
    assert_eq!(cache.get(ConfirmationTarget::ChannelFunding), Some(1250));
    assert_eq!(cache.get(ConfirmationTarget::MaximumFeeEstimate), Some(9000));
    assert_eq!(cache.get(ConfirmationTarget::UrgentOnChainSweep), Some(1501));
    assert_eq!(cache.get(ConfirmationTarget::MinAllowedAnchorChannelRemoteFee), Some(253));
    assert_eq!(cache.get(ConfirmationTarget::MinAllowedNonAnchorChannelRemoteFee), Some(250));
    assert_eq!(cache.get(ConfirmationTarget::AnchorChannelFee), Some(254));
    assert_eq!(cache.get(ConfirmationTarget::NonAnchorChannelFee), Some(1251));
    assert_eq!(cache.get(ConfirmationTarget::ChannelCloseMinimum), Some(501));
    assert_eq!(cache.get(ConfirmationTarget::OutputSpendingFee), Some(1252));
}

#[test]
fn empty_estimates_fail_on_mainnet() {
    let mut cache = filled_cache();
    let before = cache;
    let metrics = NodeMetrics::new();
    let outcome = fetched(true, [Some(250); 10]);
    assert_eq!(
        update_fee_rate_estimates(&mut cache, &metrics, Network::Bitcoin, outcome, Some(9)),
        Err(Error::FeerateEstimationUpdateFailed)
    );
    assert_eq!(cache, before);
}

#[test]
fn empty_estimates_succeed_on_test_networks() {
    for network in [Network::Testnet, Network::Signet, Network::Regtest] {
        let mut cache = filled_cache();
        let metrics = NodeMetrics::new();
        let outcome = fetched(true, [Some(250); 10]);
        let updated = update_fee_rate_estimates(&mut cache, &metrics, network, outcome, Some(9));
        let mut expected = NodeMetrics::new();
        expected.latest_fee_rate_cache_update_timestamp = Some(9);
        assert_eq!(updated, Ok(expected));
        assert_eq!(cache.get(ConfirmationTarget::OnchainPayment), Some(250));
        assert_eq!(cache.get(ConfirmationTarget::MinAllowedNonAnchorChannelRemoteFee), Some(0));
    }
}

#[test]
fn failed_and_timed_out_fetches_keep_the_cache() {
    let mut cache = filled_cache();
    let before = cache;
    let metrics = NodeMetrics::new();
    assert_eq!(
        update_fee_rate_estimates(
            &mut cache,
            &metrics,
            Network::Regtest,
            FeeEstimatesOutcome::TimedOut,
            Some(9)
        ),
        Err(Error::FeerateEstimationUpdateTimeout)
    );
    assert_eq!(cache, before);
    assert_eq!(
        update_fee_rate_estimates(
            &mut cache,
            &metrics,
            Network::Regtest,
            FeeEstimatesOutcome::Failed,
            Some(9)
        ),
        Err(Error::FeerateEstimationUpdateFailed)
    );
    assert_eq!(cache, before);
}

#[test]
fn a_target_without_a_rate_fails_the_update() {
    let mut cache = filled_cache();
    let before = cache;
    let metrics = NodeMetrics::new();
    let mut rates = [Some(300); 10];
    rates[9] = None;
    assert_eq!(
        update_fee_rate_estimates(&mut cache, &metrics, Network::Regtest, fetched(false, rates), Some(9)),
        Err(Error::FeerateEstimationUpdateFailed)
    );
    assert_eq!(cache, before);
}
