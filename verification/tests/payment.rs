use ldk_node::error::Error;
use ldk_node::payment::{
    check_amount, check_not_duplicate, check_running, conclude_send, inbound_payment, SendOutcome,
};
use ldk_node::payment_store::{
    PaymentDetails, PaymentDirection, PaymentHash, PaymentPreimage, PaymentSecret, PaymentStatus,
};

fn known(status: PaymentStatus) -> PaymentDetails {
    PaymentDetails {
        hash: PaymentHash([1; 32]),
        preimage: None,
        secret: None,
        amount_msat: Some(5),
        direction: PaymentDirection::Outbound,
        status,
        maximum_counterparty_skimmed_fee_msat: None,
    }
}

#[test]
fn operations_need_a_running_node() {
    assert_eq!(check_running(true), Ok(()));
    assert_eq!(check_running(false), Err(Error::NotRunning));
}

#[test]
fn an_invoice_is_not_paid_twice() {
    assert_eq!(check_not_duplicate(None), Ok(()));
    assert_eq!(check_not_duplicate(Some(&known(PaymentStatus::Failed))), Ok(()));
    assert_eq!(
        check_not_duplicate(Some(&known(PaymentStatus::Pending))),
        Err(Error::DuplicatePayment)
    );
    assert_eq!(
        check_not_duplicate(Some(&known(PaymentStatus::Succeeded))),
        Err(Error::DuplicatePayment)
    );
}

#[test]
fn the_amount_must_cover_the_invoice() {
    assert_eq!(check_amount(0, None), Ok(()));
    assert_eq!(check_amount(1000, Some(1000)), Ok(()));
    assert_eq!(check_amount(1001, Some(1000)), Ok(()));
    assert_eq!(check_amount(999, Some(1000)), Err(Error::InvalidAmount));
}

#[test]
fn sent_payments_are_recorded_as_pending() {
    let hash = PaymentHash([4; 32]);
    let secret = Some(PaymentSecret([5; 32]));
    let (record, result) = conclude_send(hash, None, secret, Some(21), SendOutcome::Sent);
    assert_eq!(result, Ok(hash));
    assert_eq!(
        record,
        Some(PaymentDetails {
            hash,
            preimage: None,
            secret,
            amount_msat: Some(21),
            direction: PaymentDirection::Outbound,
            status: PaymentStatus::Pending,
            maximum_counterparty_skimmed_fee_msat: None,
        })
    );
}

#[test]
fn failed_payments_are_recorded_as_failed() {
    let hash = PaymentHash([4; 32]);
    let preimage = Some(PaymentPreimage([6; 32]));
    let (record, result) = conclude_send(hash, preimage, None, Some(21), SendOutcome::Failed);
    assert_eq!(result, Err(Error::PaymentSendingFailed));
    assert_eq!(
        record,
        Some(PaymentDetails {
            hash,
            preimage,
            secret: None,
            amount_msat: Some(21),
            direction: PaymentDirection::Outbound,
            status: PaymentStatus::Failed,
            maximum_counterparty_skimmed_fee_msat: None,
        })
    );
}

#[test]
fn duplicates_leave_no_record() {
    let hash = PaymentHash([4; 32]);
    let (record, result) = conclude_send(hash, None, None, None, SendOutcome::DuplicatePayment);
    assert_eq!(result, Err(Error::DuplicatePayment));
    assert_eq!(record, None);
}

#[test]
fn issued_invoices_are_recorded_as_pending_inbound() {
    let hash = PaymentHash([7; 32]);
    let secret = PaymentSecret([8; 32]);
    assert_eq!(
        inbound_payment(hash, secret, None, Some(3)),
        PaymentDetails {
            hash,
            preimage: None,
            secret: Some(secret),
            amount_msat: None,
            direction: PaymentDirection::Inbound,
            status: PaymentStatus::Pending,
            maximum_counterparty_skimmed_fee_msat: Some(3),
        }
    );
}
