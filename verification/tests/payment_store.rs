use ldk_node::error::Error;
use ldk_node::payment_store::{
    same_hash, store_key, PaymentDetails, PaymentDetailsUpdate, PaymentDirection, PaymentHash,
    PaymentPreimage, PaymentSecret, PaymentStatus, PaymentStore,
};
use std::collections::HashMap;

fn payment(byte: u8, status: PaymentStatus) -> PaymentDetails {
    PaymentDetails {
        hash: PaymentHash([byte; 32]),
        preimage: None,
        secret: None,
        amount_msat: Some(u64::from(byte) * 1000),
        direction: PaymentDirection::Outbound,
        status,
        maximum_counterparty_skimmed_fee_msat: None,
    }
}

#[test]
fn payment_info_is_persisted() {
    let mut store: HashMap<String, Vec<u8>> = HashMap::new();
    let mut payment_store = PaymentStore::new(Vec::new());

    let hash = PaymentHash([42u8; 32]);
    assert!(!payment_store.get(&hash).is_some());

    let store_key = store_key(&hash);
    assert!(store.get(&store_key).is_none());

    let payment = PaymentDetails {
        hash,
        preimage: None,
        secret: None,
        amount_msat: None,
        direction: PaymentDirection::Inbound,
        status: PaymentStatus::Pending,
        maximum_counterparty_skimmed_fee_msat: None,
    };

    store.insert(store_key.clone(), payment.hash.0.to_vec());
    assert_eq!(Ok(false), payment_store.insert(payment.clone(), true));
    assert!(payment_store.get(&hash).is_some());
    assert!(store.get(&store_key).is_some());

    assert_eq!(Ok(true), payment_store.insert(payment, true));
    assert!(payment_store.get(&hash).is_some());

    let mut update = PaymentDetailsUpdate::new(hash);
    update.status = Some(PaymentStatus::Succeeded);
    assert_eq!(Ok(true), payment_store.update(&update, true));
    assert!(payment_store.get(&hash).is_some());

    assert_eq!(PaymentStatus::Succeeded, payment_store.get(&hash).unwrap().status);
}

#[test]
fn store_key_is_lower_case_hex() {
    assert_eq!(store_key(&PaymentHash([42u8; 32])), "2a".repeat(32));
    let mut bytes = [0u8; 32];
    for (i, byte) in bytes.iter_mut().enumerate() {
        *byte = (i as u8) * 8 + 7;
    }
    bytes[0] = 0x00;
    bytes[1] = 0xff;
    bytes[2] = 0x0a;
    bytes[3] = 0xa0;
    let key = store_key(&PaymentHash(bytes));
    assert_eq!(key.len(), 64);
    assert!(key.starts_with("00ff0aa0272f"));
    let expected: String = bytes.iter().map(|b| format!("{:02x}", b)).collect();
    assert_eq!(key, expected);
}

#[test]
fn hashes_compare_byte_by_byte() {
    let a = PaymentHash([1; 32]);
    let mut b = PaymentHash([1; 32]);
    assert!(same_hash(&a, &b));
    b.0[31] = 2;
    assert!(!same_hash(&a, &b));
    b.0[31] = 1;
    b.0[0] = 0;
    assert!(!same_hash(&a, &b));
}

#[test]
fn later_payments_replace_earlier_ones_on_load() {
    let store = PaymentStore::new(vec![
        payment(1, PaymentStatus::Pending),
        payment(2, PaymentStatus::Pending),
        payment(1, PaymentStatus::Failed),
    ]);
    assert_eq!(
        store.list_payments(),
        vec![payment(1, PaymentStatus::Failed), payment(2, PaymentStatus::Pending)]
    );
    assert_eq!(store.get(&PaymentHash([1; 32])), Some(payment(1, PaymentStatus::Failed)));
    assert_eq!(store.get(&PaymentHash([3; 32])), None);
}

#[test]
fn failed_writes_are_reported() {
    let mut store = PaymentStore::new(Vec::new());
    assert_eq!(store.insert(payment(5, PaymentStatus::Pending), false), Err(Error::PersistenceFailed));
    assert_eq!(store.get(&PaymentHash([5; 32])), Some(payment(5, PaymentStatus::Pending)));

    let mut update = PaymentDetailsUpdate::new(PaymentHash([5; 32]));
    update.status = Some(PaymentStatus::Failed);
    assert_eq!(store.updated_details(&update), Some(payment(5, PaymentStatus::Failed)));
    assert_eq!(store.update(&update, false), Err(Error::PersistenceFailed));
    assert_eq!(store.get(&PaymentHash([5; 32])), Some(payment(5, PaymentStatus::Failed)));
}

#[test]
fn update_changes_only_what_it_names() {
    let mut store = PaymentStore::new(vec![payment(7, PaymentStatus::Pending)]);
    let hash = PaymentHash([7; 32]);

    let unknown = PaymentDetailsUpdate::new(PaymentHash([8; 32]));
    assert_eq!(store.updated_details(&unknown), None);
    assert_eq!(store.update(&unknown, true), Ok(false));
    assert_eq!(store.list_payments(), vec![payment(7, PaymentStatus::Pending)]);

    let nothing = PaymentDetailsUpdate::new(hash);
    assert_eq!(store.update(&nothing, true), Ok(true));
    assert_eq!(store.get(&hash), Some(payment(7, PaymentStatus::Pending)));

    let mut update = PaymentDetailsUpdate::new(hash);
    update.preimage = Some(Some(PaymentPreimage([9; 32])));
    update.secret = Some(Some(PaymentSecret([10; 32])));
    update.amount_msat = Some(None);
    update.direction = Some(PaymentDirection::Inbound);
    update.status = Some(PaymentStatus::Succeeded);
    update.maximum_counterparty_skimmed_fee_msat = Some(Some(11));
    assert_eq!(store.update(&update, true), Ok(true));
    assert_eq!(
        store.get(&hash),
        Some(PaymentDetails {
            hash,
            preimage: Some(PaymentPreimage([9; 32])),
            secret: Some(PaymentSecret([10; 32])),
            amount_msat: None,
            direction: PaymentDirection::Outbound,
            status: PaymentStatus::Succeeded,
            maximum_counterparty_skimmed_fee_msat: Some(11),
        })
    );
}

#[test]
fn list_filter_keeps_what_the_filter_accepts() {
    let mut store = PaymentStore::new(Vec::new());
    for byte in 1..=6u8 {
        let status = if byte % 2 == 0 { PaymentStatus::Succeeded } else { PaymentStatus::Pending };
        assert_eq!(store.insert(payment(byte, status), true), Ok(false));
    }
    let succeeded = store.list_filter(|p| p.status == PaymentStatus::Succeeded);
    assert_eq!(
        succeeded,
        vec![
            payment(2, PaymentStatus::Succeeded),
            payment(4, PaymentStatus::Succeeded),
            payment(6, PaymentStatus::Succeeded)
        ]
    );
    assert_eq!(store.list_filter(|_| true), store.list_payments());
    assert_eq!(store.list_filter(|_| false), Vec::new());
    assert_eq!(store.list_filter(|p| p.direction == PaymentDirection::Inbound), Vec::new());
}
