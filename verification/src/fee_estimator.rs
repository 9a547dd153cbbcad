//! The cache of fee rates per confirmation target, and the rules by which an
//! update rebuilds it.

use crate::config::Network;
use crate::error::Error;
use crate::metrics::NodeMetrics;
use vstd::array::*;
use vstd::prelude::*;

verus! {

/// The number of confirmation targets that the cache tracks.
pub const NUM_CONFIRMATION_TARGETS: usize = 10;

/// The fee rate, in satoshis per 1000 weight units, by which the estimate for
/// [`ConfirmationTarget::MinAllowedNonAnchorChannelRemoteFee`] is lowered.
pub const MIN_ALLOWED_NON_ANCHOR_REMOTE_FEE_MARGIN_SAT_PER_KWU: u64 = 250;

/// What a transaction is built for, which decides how soon it has to confirm.
#[derive(Clone, Copy, Debug, PartialEq, Eq, Hash, Structural)]
pub enum ConfirmationTarget {
    /// A payment that the user sends on chain.
    OnchainPayment,
    /// The funding transaction of a channel.
    ChannelFunding,
    /// The highest fee rate that a counterparty may ask.
    MaximumFeeEstimate,
    /// A sweep that has to confirm before a deadline.
    UrgentOnChainSweep,
    /// The lowest fee rate accepted from the counterparty of an anchor channel.
    MinAllowedAnchorChannelRemoteFee,
    /// The lowest fee rate accepted from the counterparty of a channel without
    /// anchors.
    MinAllowedNonAnchorChannelRemoteFee,
    /// The fee rate of the commitment transaction of an anchor channel.
    AnchorChannelFee,
    /// The fee rate of the commitment transaction of a channel without anchors.
    NonAnchorChannelFee,
    /// The lowest fee rate of a cooperative close.
    ChannelCloseMinimum,
    /// A sweep of outputs that are not time critical.
    OutputSpendingFee,
}

/// The raw estimates of one fetch, converted for each tracked target.
#[derive(Clone, Copy, Debug, PartialEq, Eq)]
pub struct FeeEstimates {
    /// Whether the provider's response held no estimate at all.
    pub is_empty: bool,
    /// The fee rate, in satoshis per 1000 weight units, derived from the
    /// response for each target, in the order of [`get_all_conf_targets`];
    /// unset where none could be derived.
    pub sat_per_kwu: [Option<u64>; 10],
}

/// How the fetch of the fee estimates ended.
#[derive(Clone, Copy, Debug, PartialEq, Eq)]
pub enum FeeEstimatesOutcome {
    /// The provider answered with these estimates.
    Fetched { estimates: FeeEstimates },
    /// The provider could not be reached or answered with an error.
    Failed,
    /// The time limit elapsed before the provider answered.
    TimedOut,
}

/// The fee rate of each confirmation target, in satoshis per 1000 weight
/// units.
///
/// The cache is empty until the first update and is replaced as a whole by each
/// successful one.
#[derive(Clone, Copy, Debug, PartialEq, Eq)]
pub struct FeeRateCache {
    rates: [Option<u64>; 10],
}

/// The tracked confirmation targets, in the order in which estimates are
/// derived for them.
pub open spec fn spec_all_conf_targets() -> Seq<ConfirmationTarget> {
    seq![
        ConfirmationTarget::OnchainPayment,
        ConfirmationTarget::ChannelFunding,
        ConfirmationTarget::MaximumFeeEstimate,
        ConfirmationTarget::UrgentOnChainSweep,
        ConfirmationTarget::MinAllowedAnchorChannelRemoteFee,
        ConfirmationTarget::MinAllowedNonAnchorChannelRemoteFee,
        ConfirmationTarget::AnchorChannelFee,
        ConfirmationTarget::NonAnchorChannelFee,
        ConfirmationTarget::ChannelCloseMinimum,
        ConfirmationTarget::OutputSpendingFee,
    ]
}

/// The number of blocks within which a transaction for `target` should
/// confirm.
pub open spec fn spec_num_block_defaults_for_target(target: ConfirmationTarget) -> usize {
    match target {
        ConfirmationTarget::OnchainPayment => 6,
        ConfirmationTarget::ChannelFunding => 12,
        ConfirmationTarget::MaximumFeeEstimate => 1,
        ConfirmationTarget::UrgentOnChainSweep => 6,
        ConfirmationTarget::MinAllowedAnchorChannelRemoteFee => 1008,
        ConfirmationTarget::MinAllowedNonAnchorChannelRemoteFee => 144,
        ConfirmationTarget::AnchorChannelFee => 1008,
        ConfirmationTarget::NonAnchorChannelFee => 12,
        ConfirmationTarget::ChannelCloseMinimum => 144,
        ConfirmationTarget::OutputSpendingFee => 12,
    }
}

/// The fee rate that is cached for `target` when `estimated_rate` was derived
/// for it.
pub open spec fn spec_post_estimation_adjustments(
    target: ConfirmationTarget,
    estimated_rate: u64,
) -> u64 {
    if target == ConfirmationTarget::MinAllowedNonAnchorChannelRemoteFee {
        if estimated_rate >= MIN_ALLOWED_NON_ANCHOR_REMOTE_FEE_MARGIN_SAT_PER_KWU {
            (estimated_rate - MIN_ALLOWED_NON_ANCHOR_REMOTE_FEE_MARGIN_SAT_PER_KWU) as u64
        } else {
            0
        }
    } else {
        estimated_rate
    }
}

/// Whether a rate was derived for every tracked target.
pub open spec fn spec_all_derived(sat_per_kwu: [Option<u64>; 10]) -> bool {
    forall|i: int| 0 <= i < 10 ==> (#[trigger] sat_per_kwu@[i]) is Some
}

/// The error that an update with the given outcome fails with, if it fails.
pub open spec fn spec_update_error(network: Network, outcome: FeeEstimatesOutcome) -> Option<
    Error,
> {
    match outcome {
        FeeEstimatesOutcome::TimedOut => Some(Error::FeerateEstimationUpdateTimeout),
        FeeEstimatesOutcome::Failed => Some(Error::FeerateEstimationUpdateFailed),
        FeeEstimatesOutcome::Fetched { estimates } => if estimates.is_empty
            && network.spec_is_mainnet() {
            Some(Error::FeerateEstimationUpdateFailed)
        } else if !spec_all_derived(estimates.sat_per_kwu) {
            Some(Error::FeerateEstimationUpdateFailed)
        } else {
            None
        },
    }
}

/// The cache that a successful update builds from `estimates`: every tracked
/// target, with its adjusted rate.
pub open spec fn spec_fresh_cache(estimates: FeeEstimates) -> Map<ConfirmationTarget, u64> {
    Map::new(
        |target: ConfirmationTarget| true,
        |target: ConfirmationTarget|
            spec_post_estimation_adjustments(
                target,
                estimates.sat_per_kwu[target.spec_index()]->0,
            ),
    )
}

/// The metrics after a successful update at time `now`.
pub open spec fn spec_updated_metrics(metrics: NodeMetrics, now: Option<u64>) -> NodeMetrics {
    NodeMetrics { latest_fee_rate_cache_update_timestamp: now, ..metrics }
}

impl ConfirmationTarget {
    /// The place of the target among the tracked targets.
    pub open spec fn spec_index(self) -> int {
        match self {
            ConfirmationTarget::OnchainPayment => 0,
            ConfirmationTarget::ChannelFunding => 1,
            ConfirmationTarget::MaximumFeeEstimate => 2,
            ConfirmationTarget::UrgentOnChainSweep => 3,
            ConfirmationTarget::MinAllowedAnchorChannelRemoteFee => 4,
            ConfirmationTarget::MinAllowedNonAnchorChannelRemoteFee => 5,
            ConfirmationTarget::AnchorChannelFee => 6,
            ConfirmationTarget::NonAnchorChannelFee => 7,
            ConfirmationTarget::ChannelCloseMinimum => 8,
            ConfirmationTarget::OutputSpendingFee => 9,
        }
    }

    /// Returns the place of the target among the tracked targets.
    pub fn index(self) -> (i: usize)
        ensures
            i == self.spec_index(),
            i < NUM_CONFIRMATION_TARGETS,
            spec_all_conf_targets()[i as int] == self,
    {
        match self {
            ConfirmationTarget::OnchainPayment => 0,
            ConfirmationTarget::ChannelFunding => 1,
            ConfirmationTarget::MaximumFeeEstimate => 2,
            ConfirmationTarget::UrgentOnChainSweep => 3,
            ConfirmationTarget::MinAllowedAnchorChannelRemoteFee => 4,
            ConfirmationTarget::MinAllowedNonAnchorChannelRemoteFee => 5,
            ConfirmationTarget::AnchorChannelFee => 6,
            ConfirmationTarget::NonAnchorChannelFee => 7,
            ConfirmationTarget::ChannelCloseMinimum => 8,
            ConfirmationTarget::OutputSpendingFee => 9,
        }
    }
}

/// Returns the tracked confirmation targets, in the order in which estimates
/// are derived for them.
pub fn get_all_conf_targets() -> (targets: [ConfirmationTarget; 10])
    ensures
        targets@ == spec_all_conf_targets(),
{
    let targets = [
        ConfirmationTarget::OnchainPayment,
        ConfirmationTarget::ChannelFunding,
        ConfirmationTarget::MaximumFeeEstimate,
        ConfirmationTarget::UrgentOnChainSweep,
        ConfirmationTarget::MinAllowedAnchorChannelRemoteFee,
        ConfirmationTarget::MinAllowedNonAnchorChannelRemoteFee,
        ConfirmationTarget::AnchorChannelFee,
        ConfirmationTarget::NonAnchorChannelFee,
        ConfirmationTarget::ChannelCloseMinimum,
        ConfirmationTarget::OutputSpendingFee,
    ];
    assert(targets@ =~= spec_all_conf_targets());
    targets
}

/// Returns the number of blocks within which a transaction for `target`
/// should confirm.
pub fn get_num_block_defaults_for_target(target: ConfirmationTarget) -> (num_blocks: usize)
    ensures
        num_blocks == spec_num_block_defaults_for_target(target),
{
    match target {
        ConfirmationTarget::OnchainPayment => 6,
        ConfirmationTarget::ChannelFunding => 12,
        ConfirmationTarget::MaximumFeeEstimate => 1,
        ConfirmationTarget::UrgentOnChainSweep => 6,
        ConfirmationTarget::MinAllowedAnchorChannelRemoteFee => 1008,
        ConfirmationTarget::MinAllowedNonAnchorChannelRemoteFee => 144,
        ConfirmationTarget::AnchorChannelFee => 1008,
        ConfirmationTarget::NonAnchorChannelFee => 12,
        ConfirmationTarget::ChannelCloseMinimum => 144,
        ConfirmationTarget::OutputSpendingFee => 12,
    }
}

/// Returns the fee rate that is cached for `target` when `estimated_rate` was
/// derived for it.
///
/// The rate below which a counterparty's fee on a channel without anchors is
/// refused is kept a fixed margin under the estimate, and never under zero, so
/// that a counterparty whose estimator runs slightly lower is not rejected.
/// All other targets keep their estimate.
pub fn apply_post_estimation_adjustments(target: ConfirmationTarget, estimated_rate: u64) -> (rate:
    u64)
    ensures
        rate == spec_post_estimation_adjustments(target, estimated_rate),
        rate <= estimated_rate,
{
    match target {
        ConfirmationTarget::MinAllowedNonAnchorChannelRemoteFee => {
            if estimated_rate >= MIN_ALLOWED_NON_ANCHOR_REMOTE_FEE_MARGIN_SAT_PER_KWU {
                estimated_rate - MIN_ALLOWED_NON_ANCHOR_REMOTE_FEE_MARGIN_SAT_PER_KWU
            } else {
                0
            }
        },
        _ => estimated_rate,
    }
}

impl View for FeeRateCache {
    type V = Map<ConfirmationTarget, u64>;

    closed spec fn view(&self) -> Map<ConfirmationTarget, u64> {
        Map::new(
            |target: ConfirmationTarget| self.rates[target.spec_index()] is Some,
            |target: ConfirmationTarget| self.rates[target.spec_index()]->0,
        )
    }
}

impl FeeRateCache {
    /// Returns a cache without any rate.
    pub fn new() -> (cache: FeeRateCache)
        ensures
            cache@ == Map::<ConfirmationTarget, u64>::empty(),
    {
        let cache = FeeRateCache { rates: array_fill_for_copy_types(None) };
        assert(cache@ =~= Map::<ConfirmationTarget, u64>::empty());
        cache
    }

    /// Returns the cached fee rate of `target`, in satoshis per 1000 weight
    /// units, if there is one.
    pub fn get(&self, target: ConfirmationTarget) -> (rate: Option<u64>)
        ensures
            rate is Some <==> self@.dom().contains(target),
            rate is Some ==> rate->0 == self@[target],
    {
        self.rates[target.index()]
    }

    /// Replaces the whole cache by `fee_rate_cache`.
    pub fn set_fee_rate_cache(&mut self, fee_rate_cache: FeeRateCache)
        ensures
            *final(self) == fee_rate_cache,
    {
        *self = fee_rate_cache;
    }
}

/// Rebuilds the fee-rate cache from the outcome of a fetch.
///
/// A fetch that timed out or failed, an empty response on the production
/// network, and a target for which no rate could be derived each fail the
/// update and leave the cache as it was. Otherwise the whole cache is replaced:
/// it then holds, for every tracked target, the rate derived for it with the
/// target's adjustment applied. On success the answer holds the metrics with
/// `now` as the time of the last update, which the caller writes to the store
/// and commits.
pub fn update_fee_rate_estimates(
    cache: &mut FeeRateCache,
    metrics: &NodeMetrics,
    network: Network,
    outcome: FeeEstimatesOutcome,
    now: Option<u64>,
) -> (updated: Result<NodeMetrics, Error>)
    ensures
        match spec_update_error(network, outcome) {
            Some(e) => updated == Err::<NodeMetrics, Error>(e) && *final(cache) == *old(cache),
            None => updated == Ok::<NodeMetrics, Error>(spec_updated_metrics(*metrics, now))
                && final(cache)@ == spec_fresh_cache(outcome->estimates),
        },
{
    let estimates = match outcome {
        FeeEstimatesOutcome::TimedOut => {
            return Err(Error::FeerateEstimationUpdateTimeout);
        },
        FeeEstimatesOutcome::Failed => {
            return Err(Error::FeerateEstimationUpdateFailed);
        },
        FeeEstimatesOutcome::Fetched { estimates } => estimates,
    };
    if estimates.is_empty && network.is_mainnet() {
        return Err(Error::FeerateEstimationUpdateFailed);
    }
    let targets = get_all_conf_targets();
    let mut rates: [Option<u64>; 10] = array_fill_for_copy_types(None);
    let mut i: usize = 0;
    while i < NUM_CONFIRMATION_TARGETS
        invariant
            i <= NUM_CONFIRMATION_TARGETS,
            targets@ == spec_all_conf_targets(),
            *cache == *old(cache),
            outcome == (FeeEstimatesOutcome::Fetched { estimates }),
            !(estimates.is_empty && network.spec_is_mainnet()),
            forall|j: int|
                0 <= j < i ==> (#[trigger] estimates.sat_per_kwu@[j]) is Some && rates@[j] == Some(
                    spec_post_estimation_adjustments(
                        spec_all_conf_targets()[j],
                        estimates.sat_per_kwu@[j]->0,
                    ),
                ),
        decreases NUM_CONFIRMATION_TARGETS - i,
    {
        let ghost before = rates@;
        match estimates.sat_per_kwu[i] {
            None => {
                assert(estimates.sat_per_kwu@[i as int] is None);
                return Err(Error::FeerateEstimationUpdateFailed);
            },
            Some(estimated_rate) => {
                rates[i] = Some(apply_post_estimation_adjustments(targets[i], estimated_rate));
            },
        }
        assert(rates@ =~= before.update(i as int, rates@[i as int]));
        i += 1;
    }
    cache.set_fee_rate_cache(FeeRateCache { rates });
    proof {
        assert(spec_all_derived(estimates.sat_per_kwu));
        assert forall|target: ConfirmationTarget|
            spec_all_conf_targets()[#[trigger] target.spec_index()] == target && 0
                <= target.spec_index() < 10 by {}
        assert forall|target: ConfirmationTarget| #[trigger]
            cache@.dom().contains(target) && cache@[target] == spec_fresh_cache(
                estimates,
            )[target] by {
            let k = target.spec_index();
            assert(estimates.sat_per_kwu@[k] is Some);
        }
        assert(cache@ =~= spec_fresh_cache(estimates));
    }
    let mut candidate = *metrics;
    candidate.latest_fee_rate_cache_update_timestamp = now;
    Ok(candidate)
}

/// Empty fee estimates are a hard failure on the production network, where
/// they always fail the update with
/// [`Error::FeerateEstimationUpdateFailed`]. On a test network the emptiness
/// of a response decides nothing: the identical response succeeds as soon as a
/// rate was derived for every target.
pub proof fn lemma_empty_estimates_fail_only_on_mainnet(network: Network, estimates: FeeEstimates)
    requires
        estimates.is_empty,
    ensures
        network.spec_is_mainnet() ==> spec_update_error(
            network,
            FeeEstimatesOutcome::Fetched { estimates },
        ) == Some(Error::FeerateEstimationUpdateFailed),
        !network.spec_is_mainnet() ==> spec_update_error(
            network,
            FeeEstimatesOutcome::Fetched { estimates },
        ) == spec_update_error(
            network,
            FeeEstimatesOutcome::Fetched {
                estimates: FeeEstimates { is_empty: false, sat_per_kwu: estimates.sat_per_kwu },
            },
        ),
        !network.spec_is_mainnet() && spec_all_derived(estimates.sat_per_kwu) ==> spec_update_error(
            network,
            FeeEstimatesOutcome::Fetched { estimates },
        ) is None,
{
}

} // verus!
