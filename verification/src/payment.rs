//! The rules by which the node decides on sending a payment and on what it
//! records of it.

use crate::error::Error;
use crate::payment_store::{
    PaymentDetails, PaymentDirection, PaymentHash, PaymentPreimage, PaymentSecret, PaymentStatus,
};
use vstd::prelude::*;

verus! {

/// How the attempt to send a payment ended.
#[derive(Clone, Copy, Debug, PartialEq, Eq, Structural)]
pub enum SendOutcome {
    /// The payment is on its way.
    Sent,
    /// A payment with the same id is on its way already.
    DuplicatePayment,
    /// The payment could not be sent.
    Failed,
}

/// Whether an operation may go on, given that the node runs or does not.
pub open spec fn spec_check_running(is_running: bool) -> Result<(), Error> {
    if is_running {
        Ok(())
    } else {
        Err(Error::NotRunning)
    }
}

/// Whether a payment may be sent of which the store holds `known`.
pub open spec fn spec_check_not_duplicate(known: Option<PaymentDetails>) -> Result<(), Error> {
    match known {
        Some(payment) => if payment.status.spec_blocks_resend() {
            Err(Error::DuplicatePayment)
        } else {
            Ok(())
        },
        None => Ok(()),
    }
}

/// Whether `amount_msat` pays an invoice that asks for `invoice_amount_msat`.
pub open spec fn spec_check_amount(amount_msat: u64, invoice_amount_msat: Option<u64>) -> Result<
    (),
    Error,
> {
    match invoice_amount_msat {
        Some(required) => if amount_msat < required {
            Err(Error::InvalidAmount)
        } else {
            Ok(())
        },
        None => Ok(()),
    }
}

/// What the store is to hold of an outbound payment after the attempt to send
/// it: nothing new where the payment was a duplicate, the payment as pending
/// where it was sent, as failed where it was not.
pub open spec fn spec_outbound_record(
    hash: PaymentHash,
    preimage: Option<PaymentPreimage>,
    secret: Option<PaymentSecret>,
    amount_msat: Option<u64>,
    outcome: SendOutcome,
) -> Option<PaymentDetails> {
    match outcome {
        SendOutcome::DuplicatePayment => None,
        SendOutcome::Sent => Some(
            PaymentDetails {
                hash,
                preimage,
                secret,
                amount_msat,
                direction: PaymentDirection::Outbound,
                status: PaymentStatus::Pending,
                maximum_counterparty_skimmed_fee_msat: None,
            },
        ),
        SendOutcome::Failed => Some(
            PaymentDetails {
                hash,
                preimage,
                secret,
                amount_msat,
                direction: PaymentDirection::Outbound,
                status: PaymentStatus::Failed,
                maximum_counterparty_skimmed_fee_msat: None,
            },
        ),
    }
}

/// What the caller is told of the attempt to send the payment of `hash`.
pub open spec fn spec_send_result(hash: PaymentHash, outcome: SendOutcome) -> Result<
    PaymentHash,
    Error,
> {
    match outcome {
        SendOutcome::Sent => Ok(hash),
        SendOutcome::DuplicatePayment => Err(Error::DuplicatePayment),
        SendOutcome::Failed => Err(Error::PaymentSendingFailed),
    }
}

/// Checks that the node runs: an operation on a node that does not is
/// refused as [`Error::NotRunning`].
pub fn check_running(is_running: bool) -> (checked: Result<(), Error>)
    ensures
        checked == spec_check_running(is_running),
{
    if is_running {
        Ok(())
    } else {
        Err(Error::NotRunning)
    }
}

/// Checks that a payment is not sent twice.
///
/// `known` is what the store holds under the hash of the payment. A payment
/// that is pending or has succeeded is refused as
/// [`Error::DuplicatePayment`]; one that failed, or is not known, may be sent.
pub fn check_not_duplicate(known: Option<&PaymentDetails>) -> (checked: Result<(), Error>)
    ensures
        checked == spec_check_not_duplicate(
            match known {
                Some(payment) => Some(*payment),
                None => None,
            },
        ),
{
    match known {
        Some(payment) => if payment.status.blocks_resend() {
            Err(Error::DuplicatePayment)
        } else {
            Ok(())
        },
        None => Ok(()),
    }
}

/// Checks the amount that a user wants to pay on an invoice: less than the
/// invoice asks for is refused as [`Error::InvalidAmount`]. An invoice
/// without an amount takes any.
pub fn check_amount(amount_msat: u64, invoice_amount_msat: Option<u64>) -> (checked: Result<
    (),
    Error,
>)
    ensures
        checked == spec_check_amount(amount_msat, invoice_amount_msat),
{
    match invoice_amount_msat {
        Some(required) => if amount_msat < required {
            Err(Error::InvalidAmount)
        } else {
            Ok(())
        },
        None => Ok(()),
    }
}

/// Decides what is recorded and reported of an outbound payment after the
/// attempt to send it.
///
/// A payment that was sent is recorded as pending and its hash returned. One
/// that could not be sent is recorded as failed, so that it may be retried,
/// and reported as [`Error::PaymentSendingFailed`]. A duplicate is reported as
/// [`Error::DuplicatePayment`] and nothing is recorded: the record of the
/// payment that is on its way stays.
pub fn conclude_send(
    hash: PaymentHash,
    preimage: Option<PaymentPreimage>,
    secret: Option<PaymentSecret>,
    amount_msat: Option<u64>,
    outcome: SendOutcome,
) -> (concluded: (Option<PaymentDetails>, Result<PaymentHash, Error>))
    ensures
        concluded.0 == spec_outbound_record(hash, preimage, secret, amount_msat, outcome),
        concluded.1 == spec_send_result(hash, outcome),
{
    match outcome {
        SendOutcome::Sent => (
            Some(
                PaymentDetails {
                    hash,
                    preimage,
                    secret,
                    amount_msat,
                    direction: PaymentDirection::Outbound,
                    status: PaymentStatus::Pending,
                    maximum_counterparty_skimmed_fee_msat: None,
                },
            ),
            Ok(hash),
        ),
        SendOutcome::DuplicatePayment => (None, Err(Error::DuplicatePayment)),
        SendOutcome::Failed => (
            Some(
                PaymentDetails {
                    hash,
                    preimage,
                    secret,
                    amount_msat,
                    direction: PaymentDirection::Outbound,
                    status: PaymentStatus::Failed,
                    maximum_counterparty_skimmed_fee_msat: None,
                },
            ),
            Err(Error::PaymentSendingFailed),
        ),
    }
}

/// Returns what is recorded of a payment that the node expects to receive on
/// an invoice it has issued: an inbound payment that is pending.
pub fn inbound_payment(
    hash: PaymentHash,
    secret: PaymentSecret,
    amount_msat: Option<u64>,
    maximum_counterparty_skimmed_fee_msat: Option<u64>,
) -> (payment: PaymentDetails)
    ensures
        payment == (PaymentDetails {
            hash,
            preimage: None,
            secret: Some(secret),
            amount_msat,
            direction: PaymentDirection::Inbound,
            status: PaymentStatus::Pending,
            maximum_counterparty_skimmed_fee_msat,
        }),
{
    PaymentDetails {
        hash,
        preimage: None,
        secret: Some(secret),
        amount_msat,
        direction: PaymentDirection::Inbound,
        status: PaymentStatus::Pending,
        maximum_counterparty_skimmed_fee_msat,
    }
}

} // verus!
