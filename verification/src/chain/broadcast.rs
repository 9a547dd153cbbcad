//! The handling of what the provider answers to a transaction broadcast.

use vstd::prelude::*;

verus! {

/// The HTTP status with which the provider refuses a transaction that it
/// already knows.
pub const HTTP_STATUS_BAD_REQUEST: u16 = 400;

/// How the broadcast of one transaction ended.
#[derive(Clone, Copy, Debug, PartialEq, Eq, Structural)]
pub enum BroadcastOutcome {
    /// The provider accepted the transaction.
    Accepted,
    /// The request failed on the HTTP level; `status` is the status that the
    /// provider answered with, unset where the connection itself failed.
    HttpError { status: Option<u16> },
    /// The provider answered with another error.
    ProviderError,
    /// The time limit elapsed before the provider answered.
    TimedOut,
}

/// What a broadcast outcome means for the transaction.
#[derive(Clone, Copy, Debug, PartialEq, Eq, Structural)]
pub enum BroadcastVerdict {
    /// The transaction was handed to the network.
    Broadcast,
    /// The provider has the transaction already: not a failure.
    AlreadyKnown,
    /// The broadcast failed with an HTTP or connection error.
    HttpFailure,
    /// The broadcast failed with an error of the provider.
    ProviderFailure,
    /// The broadcast did not finish within its time limit.
    Timeout,
}

/// What `outcome` means for the transaction.
pub open spec fn spec_broadcast_verdict(outcome: BroadcastOutcome) -> BroadcastVerdict {
    match outcome {
        BroadcastOutcome::Accepted => BroadcastVerdict::Broadcast,
        BroadcastOutcome::HttpError { status } => if status == Some(HTTP_STATUS_BAD_REQUEST) {
            BroadcastVerdict::AlreadyKnown
        } else {
            BroadcastVerdict::HttpFailure
        },
        BroadcastOutcome::ProviderError => BroadcastVerdict::ProviderFailure,
        BroadcastOutcome::TimedOut => BroadcastVerdict::Timeout,
    }
}

impl BroadcastVerdict {
    /// Whether the verdict is a failure that is reported as an error.
    pub open spec fn spec_is_failure(self) -> bool {
        self == BroadcastVerdict::HttpFailure || self == BroadcastVerdict::ProviderFailure || self
            == BroadcastVerdict::Timeout
    }

    /// Returns whether the verdict is a failure that is reported as an error.
    pub fn is_failure(self) -> (failure: bool)
        ensures
            failure == self.spec_is_failure(),
    {
        match self {
            BroadcastVerdict::Broadcast => false,
            BroadcastVerdict::AlreadyKnown => false,
            BroadcastVerdict::HttpFailure => true,
            BroadcastVerdict::ProviderFailure => true,
            BroadcastVerdict::Timeout => true,
        }
    }

    /// Whether the raw bytes of the transaction are recorded for diagnosis:
    /// whenever the provider did not accept it.
    pub open spec fn spec_records_transaction(self) -> bool {
        self != BroadcastVerdict::Broadcast
    }

    /// Returns whether the raw bytes of the transaction are recorded for
    /// diagnosis: whenever the provider did not accept it.
    pub fn records_transaction(self) -> (records: bool)
        ensures
            records == self.spec_records_transaction(),
    {
        match self {
            BroadcastVerdict::Broadcast => false,
            _ => true,
        }
    }
}

/// Returns what `outcome` means for the transaction.
///
/// An HTTP error with status 400 is how the provider refuses a transaction
/// that it already has, so a rebroadcast that meets it is no failure. Every
/// other HTTP error, an error of the provider and an elapsed time limit are.
/// None of them is retried here: the queue moves on to the next transaction.
pub fn broadcast_verdict(outcome: BroadcastOutcome) -> (verdict: BroadcastVerdict)
    ensures
        verdict == spec_broadcast_verdict(outcome),
{
    match outcome {
        BroadcastOutcome::Accepted => BroadcastVerdict::Broadcast,
        BroadcastOutcome::HttpError { status } => match status {
            Some(code) => if code == HTTP_STATUS_BAD_REQUEST {
                BroadcastVerdict::AlreadyKnown
            } else {
                BroadcastVerdict::HttpFailure
            },
            None => BroadcastVerdict::HttpFailure,
        },
        BroadcastOutcome::ProviderError => BroadcastVerdict::ProviderFailure,
        BroadcastOutcome::TimedOut => BroadcastVerdict::Timeout,
    }
}

/// What became of the transactions of one package.
#[derive(Clone, Copy, Debug, PartialEq, Eq, Structural)]
pub struct PackageReport {
    /// The number of transactions that the provider accepted.
    pub broadcast: usize,
    /// The number of transactions that the provider had already.
    pub already_known: usize,
    /// The number of transactions whose broadcast failed.
    pub failed: usize,
}

/// The number of outcomes among `outcomes` whose verdict is `verdict`.
pub open spec fn spec_count_verdicts(outcomes: Seq<BroadcastOutcome>, verdict: BroadcastVerdict) -> nat
    decreases outcomes.len(),
{
    if outcomes.len() == 0 {
        0
    } else {
        spec_count_verdicts(outcomes.drop_last(), verdict) + if spec_broadcast_verdict(
            outcomes.last(),
        ) == verdict {
            1nat
        } else {
            0nat
        }
    }
}

/// The number of outcomes among `outcomes` that are failures.
pub open spec fn spec_count_failures(outcomes: Seq<BroadcastOutcome>) -> nat {
    spec_count_verdicts(outcomes, BroadcastVerdict::HttpFailure) + spec_count_verdicts(
        outcomes,
        BroadcastVerdict::ProviderFailure,
    ) + spec_count_verdicts(outcomes, BroadcastVerdict::Timeout)
}

/// Every outcome has exactly one verdict, so the counts of a package add up
/// to its size.
pub proof fn lemma_verdict_counts_add_up(outcomes: Seq<BroadcastOutcome>)
    ensures
        spec_count_verdicts(outcomes, BroadcastVerdict::Broadcast) + spec_count_verdicts(
            outcomes,
            BroadcastVerdict::AlreadyKnown,
        ) + spec_count_failures(outcomes) == outcomes.len(),
    decreases outcomes.len(),
{
    if outcomes.len() > 0 {
        lemma_verdict_counts_add_up(outcomes.drop_last());
    }
}

/// Sums up the outcomes of the transactions of one package.
///
/// Every transaction of the package is attempted whatever became of those
/// before it, so the report counts each outcome once: as broadcast, as already
/// known, or as failed.
pub fn process_broadcast_package(outcomes: &Vec<BroadcastOutcome>) -> (report: PackageReport)
    ensures
        report.broadcast == spec_count_verdicts(outcomes@, BroadcastVerdict::Broadcast),
        report.already_known == spec_count_verdicts(outcomes@, BroadcastVerdict::AlreadyKnown),
        report.failed == spec_count_failures(outcomes@),
        report.broadcast + report.already_known + report.failed == outcomes@.len(),
{
    let mut report = PackageReport { broadcast: 0, already_known: 0, failed: 0 };
    let mut i: usize = 0;
    while i < outcomes.len()
        invariant
            i <= outcomes.len(),
            report.broadcast == spec_count_verdicts(
                outcomes@.take(i as int),
                BroadcastVerdict::Broadcast,
            ),
            report.already_known == spec_count_verdicts(
                outcomes@.take(i as int),
                BroadcastVerdict::AlreadyKnown,
            ),
            report.failed == spec_count_failures(outcomes@.take(i as int)),
            report.broadcast + report.already_known + report.failed == i,
        decreases outcomes.len() - i,
    {
        proof {
            assert(outcomes@.take(i + 1).drop_last() =~= outcomes@.take(i as int));
            assert(outcomes@.take(i + 1).last() == outcomes@[i as int]);
        }
        let verdict = broadcast_verdict(outcomes[i]);
        if verdict.is_failure() {
            report.failed = report.failed + 1;
        } else {
            match verdict {
                BroadcastVerdict::AlreadyKnown => {
                    report.already_known = report.already_known + 1;
                },
                _ => {
                    report.broadcast = report.broadcast + 1;
                },
            }
        }
        i += 1;
    }
    proof {
        assert(outcomes@.take(i as int) =~= outcomes@);
    }
    report
}

} // verus!
