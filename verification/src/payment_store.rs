//! The records of the payments that the node has sent and received.
//!
//! The store keeps one record per payment hash. A record that is inserted
//! under a hash that the store already knows replaces the old one.

use crate::error::Error;
use vstd::prelude::*;
use vstd::string::*;

verus! {

/// The hash of the preimage of a payment.
#[derive(Clone, Copy, Debug, PartialEq, Eq, Hash)]
pub struct PaymentHash(pub [u8; 32]);

/// The preimage of a payment.
#[derive(Clone, Copy, Debug, PartialEq, Eq, Hash)]
pub struct PaymentPreimage(pub [u8; 32]);

/// The secret of a payment.
#[derive(Clone, Copy, Debug, PartialEq, Eq, Hash)]
pub struct PaymentSecret(pub [u8; 32]);

/// The direction of a payment.
#[derive(Clone, Copy, Debug, PartialEq, Eq, Structural)]
pub enum PaymentDirection {
    /// The payment is inbound.
    Inbound,
    /// The payment is outbound.
    Outbound,
}

/// The current status of a payment.
#[derive(Clone, Copy, Debug, PartialEq, Eq, Structural)]
pub enum PaymentStatus {
    /// The payment is still pending.
    Pending,
    /// The payment succeeded.
    Succeeded,
    /// The payment failed.
    Failed,
}

/// A payment.
#[derive(Clone, Copy, Debug, PartialEq, Eq)]
pub struct PaymentDetails {
    /// The payment hash, i.e., the hash of the `preimage`.
    pub hash: PaymentHash,
    /// The pre-image used by the payment.
    pub preimage: Option<PaymentPreimage>,
    /// The secret used by the payment.
    pub secret: Option<PaymentSecret>,
    /// The amount transferred.
    pub amount_msat: Option<u64>,
    /// The direction of the payment.
    pub direction: PaymentDirection,
    /// The status of the payment.
    pub status: PaymentStatus,
    /// The maximal amount that the counterparty may withhold when forwarding
    /// the payment. Usually set only for a payment that is received over a
    /// channel which a liquidity provider opens just in time, where the first
    /// inbound payment pays for the opening of the channel.
    pub maximum_counterparty_skimmed_fee_msat: Option<u64>,
}

/// The changes to make to the record of one payment. A field that is unset
/// leaves the record's field as it is.
#[derive(Clone, Copy, Debug, PartialEq, Eq)]
pub struct PaymentDetailsUpdate {
    /// The hash of the payment to change.
    pub hash: PaymentHash,
    /// The new preimage.
    pub preimage: Option<Option<PaymentPreimage>>,
    /// The new secret.
    pub secret: Option<Option<PaymentSecret>>,
    /// The new amount.
    pub amount_msat: Option<Option<u64>>,
    /// The direction of the payment. A record keeps its direction.
    pub direction: Option<PaymentDirection>,
    /// The new status.
    pub status: Option<PaymentStatus>,
    /// The new limit on what the counterparty may withhold.
    pub maximum_counterparty_skimmed_fee_msat: Option<Option<u64>>,
}

/// The records of the payments, one per payment hash.
pub struct PaymentStore {
    payments: Vec<PaymentDetails>,
}

/// The lower-case hexadecimal digit of `nibble`.
pub open spec fn spec_hex_digit(nibble: u8) -> char {
    match nibble {
        0 => '0',
        1 => '1',
        2 => '2',
        3 => '3',
        4 => '4',
        5 => '5',
        6 => '6',
        7 => '7',
        8 => '8',
        9 => '9',
        10 => 'a',
        11 => 'b',
        12 => 'c',
        13 => 'd',
        14 => 'e',
        _ => 'f',
    }
}

/// `bytes` in lower-case hexadecimal, two digits per byte.
pub open spec fn spec_hex(bytes: Seq<u8>) -> Seq<char>
    decreases bytes.len(),
{
    if bytes.len() == 0 {
        Seq::empty()
    } else {
        spec_hex(bytes.drop_last()) + seq![
            spec_hex_digit(bytes.last() / 16),
            spec_hex_digit(bytes.last() % 16),
        ]
    }
}

/// The place of the record of `hash` among `payments`, if there is one.
pub open spec fn spec_index_of(payments: Seq<PaymentDetails>, hash: PaymentHash) -> Option<int>
    decreases payments.len(),
{
    if payments.len() == 0 {
        None
    } else if payments.first().hash == hash {
        Some(0)
    } else {
        match spec_index_of(payments.drop_first(), hash) {
            Some(i) => Some(i + 1),
            None => None,
        }
    }
}

/// Whether no two of `payments` share a hash.
pub open spec fn spec_unique_hashes(payments: Seq<PaymentDetails>) -> bool {
    forall|i: int, j: int|
        0 <= i < j < payments.len() ==> (#[trigger] payments[i]).hash != (
        #[trigger] payments[j]).hash
}

/// The records after `payment` was inserted: it replaces the record of its
/// hash, or is added where there is none.
pub open spec fn spec_insert(
    payments: Seq<PaymentDetails>,
    payment: PaymentDetails,
) -> Seq<PaymentDetails> {
    match spec_index_of(payments, payment.hash) {
        Some(i) => payments.update(i, payment),
        None => payments.push(payment),
    }
}

/// The records after each of `payments` was inserted into an empty store, in
/// their order.
pub open spec fn spec_from_payments(payments: Seq<PaymentDetails>) -> Seq<PaymentDetails>
    decreases payments.len(),
{
    if payments.len() == 0 {
        Seq::empty()
    } else {
        spec_insert(spec_from_payments(payments.drop_last()), payments.last())
    }
}

/// `payment` with the changes of `update` made to it. The hash and the
/// direction stay.
pub open spec fn spec_apply_update(
    payment: PaymentDetails,
    update: PaymentDetailsUpdate,
) -> PaymentDetails {
    PaymentDetails {
        hash: payment.hash,
        preimage: match update.preimage {
            Some(preimage) => preimage,
            None => payment.preimage,
        },
        secret: match update.secret {
            Some(secret) => secret,
            None => payment.secret,
        },
        amount_msat: match update.amount_msat {
            Some(amount_msat) => amount_msat,
            None => payment.amount_msat,
        },
        direction: payment.direction,
        status: match update.status {
            Some(status) => status,
            None => payment.status,
        },
        maximum_counterparty_skimmed_fee_msat: match update.maximum_counterparty_skimmed_fee_msat {
            Some(limit) => limit,
            None => payment.maximum_counterparty_skimmed_fee_msat,
        },
    }
}

/// Whether `kept` holds, in their order, exactly those of `all` that `f`
/// accepted.
pub open spec fn spec_filtered<F: Fn(&PaymentDetails) -> bool>(
    all: Seq<PaymentDetails>,
    kept: Seq<PaymentDetails>,
    f: F,
) -> bool
    decreases all.len(),
{
    if all.len() == 0 {
        kept.len() == 0
    } else {
        ||| (f.ensures((&all.last(),), true) && kept.len() > 0 && kept.last() == all.last()
            && spec_filtered(all.drop_last(), kept.drop_last(), f))
        ||| (f.ensures((&all.last(),), false) && spec_filtered(all.drop_last(), kept, f))
    }
}

/// What an operation on the store reports that changed `changed` and whose
/// record the store on disk did or did not accept.
pub open spec fn spec_persisted_result(changed: bool, persisted: bool) -> Result<bool, Error> {
    if persisted {
        Ok(changed)
    } else {
        Err(Error::PersistenceFailed)
    }
}

/// A record is found at the first place that holds its hash.
pub proof fn lemma_index_of_first_match(payments: Seq<PaymentDetails>, hash: PaymentHash, at: int)
    requires
        0 <= at < payments.len(),
        payments[at].hash == hash,
        forall|j: int| 0 <= j < at ==> (#[trigger] payments[j]).hash != hash,
    ensures
        spec_index_of(payments, hash) == Some(at),
    decreases payments.len(),
{
    if at > 0 {
        let rest = payments.drop_first();
        assert(payments.first() == payments[0]);
        assert forall|j: int| 0 <= j < at - 1 implies (#[trigger] rest[j]).hash != hash by {
            assert(rest[j] == payments[j + 1]);
        }
        assert(rest[at - 1] == payments[at]);
        lemma_index_of_first_match(rest, hash, at - 1);
    }
}

/// No record is found where no place holds the hash.
pub proof fn lemma_index_of_no_match(payments: Seq<PaymentDetails>, hash: PaymentHash)
    requires
        forall|j: int| 0 <= j < payments.len() ==> (#[trigger] payments[j]).hash != hash,
    ensures
        spec_index_of(payments, hash) is None,
    decreases payments.len(),
{
    if payments.len() > 0 {
        let rest = payments.drop_first();
        assert(payments.first() == payments[0]);
        assert forall|j: int| 0 <= j < rest.len() implies (#[trigger] rest[j]).hash != hash by {
            assert(rest[j] == payments[j + 1]);
        }
        lemma_index_of_no_match(rest, hash);
    }
}

/// What is found is a place that holds the hash, and no earlier place does.
pub proof fn lemma_index_of_is_a_match(payments: Seq<PaymentDetails>, hash: PaymentHash)
    ensures
        match spec_index_of(payments, hash) {
            Some(i) => 0 <= i < payments.len() && payments[i].hash == hash && forall|j: int|
                0 <= j < i ==> (#[trigger] payments[j]).hash != hash,
            None => forall|j: int| 0 <= j < payments.len() ==> (#[trigger] payments[j]).hash != hash,
        },
    decreases payments.len(),
{
    if payments.len() > 0 {
        let rest = payments.drop_first();
        lemma_index_of_is_a_match(rest, hash);
        assert(payments.first() == payments[0]);
        if payments.first().hash != hash {
            match spec_index_of(rest, hash) {
                Some(i) => {
                    assert(rest[i] == payments[i + 1]);
                    assert forall|j: int| 0 <= j < i + 1 implies (#[trigger] payments[j]).hash
                        != hash by {
                        if j > 0 {
                            assert(rest[j - 1] == payments[j]);
                        }
                    }
                },
                None => {
                    assert forall|j: int| 0 <= j < payments.len() implies (
                    #[trigger] payments[j]).hash != hash by {
                        if j > 0 {
                            assert(rest[j - 1] == payments[j]);
                        }
                    }
                },
            }
        }
    }
}

/// Inserting keeps the hashes unique: the store never holds two records of
/// one payment.
pub proof fn lemma_insert_keeps_hashes_unique(payments: Seq<PaymentDetails>, payment: PaymentDetails)
    requires
        spec_unique_hashes(payments),
    ensures
        spec_unique_hashes(spec_insert(payments, payment)),
        spec_index_of(spec_insert(payments, payment), payment.hash) is Some,
{
    lemma_index_of_is_a_match(payments, payment.hash);
    let after = spec_insert(payments, payment);
    match spec_index_of(payments, payment.hash) {
        Some(i) => {
            assert forall|a: int, b: int| 0 <= a < b < after.len() implies (#[trigger] after[a]).hash
                != (#[trigger] after[b]).hash by {
                assert(after[a].hash == payments[a].hash);
                assert(after[b].hash == payments[b].hash);
            }
            assert(after[i].hash == payment.hash);
            assert forall|j: int| 0 <= j < i implies (#[trigger] after[j]).hash != payment.hash by {
                assert(after[j] == payments[j]);
            }
            lemma_index_of_first_match(after, payment.hash, i);
        },
        None => {
            assert forall|a: int, b: int| 0 <= a < b < after.len() implies (#[trigger] after[a]).hash
                != (#[trigger] after[b]).hash by {
                assert(after[a] == payments[a]);
                if b < payments.len() {
                    assert(after[b] == payments[b]);
                }
            }
            let last = payments.len() as int;
            assert(after[last].hash == payment.hash);
            assert forall|j: int| 0 <= j < last implies (#[trigger] after[j]).hash
                != payment.hash by {
                assert(after[j] == payments[j]);
            }
            lemma_index_of_first_match(after, payment.hash, last);
        },
    }
}

/// Returns whether the two hashes are the same.
pub fn same_hash(a: &PaymentHash, b: &PaymentHash) -> (same: bool)
    ensures
        same == (*a == *b),
{
    let mut i: usize = 0;
    while i < 32
        invariant
            i <= 32,
            forall|j: int| 0 <= j < i ==> a.0@[j] == b.0@[j],
        decreases 32 - i,
    {
        if a.0[i] != b.0[i] {
            assert(a.0@[i as int] != b.0@[i as int]);
            return false;
        }
        i += 1;
    }
    assert(a.0 =~= b.0);
    true
}

fn hex_digit(nibble: u8) -> (digit: &'static str)
    requires
        nibble < 16,
    ensures
        digit@ == seq![spec_hex_digit(nibble)],
{
    proof {
        reveal_strlit("0");
        reveal_strlit("1");
        reveal_strlit("2");
        reveal_strlit("3");
        reveal_strlit("4");
        reveal_strlit("5");
        reveal_strlit("6");
        reveal_strlit("7");
        reveal_strlit("8");
        reveal_strlit("9");
        reveal_strlit("a");
        reveal_strlit("b");
        reveal_strlit("c");
        reveal_strlit("d");
        reveal_strlit("e");
        reveal_strlit("f");
    }
    let digit = match nibble {
        0 => "0",
        1 => "1",
        2 => "2",
        3 => "3",
        4 => "4",
        5 => "5",
        6 => "6",
        7 => "7",
        8 => "8",
        9 => "9",
        10 => "a",
        11 => "b",
        12 => "c",
        13 => "d",
        14 => "e",
        _ => "f",
    };
    assert(digit@ =~= seq![spec_hex_digit(nibble)]);
    digit
}

/// Returns the key under which the record of `hash` lies in the store on
/// disk: the hash in lower-case hexadecimal.
pub fn store_key(hash: &PaymentHash) -> (key: String)
    ensures
        key@ == spec_hex(hash.0@),
{
    let mut key = String::new();
    let mut i: usize = 0;
    while i < 32
        invariant
            i <= 32,
            key@ == spec_hex(hash.0@.take(i as int)),
        decreases 32 - i,
    {
        let byte = hash.0[i];
        proof {
            assert(hash.0@.take(i + 1).drop_last() =~= hash.0@.take(i as int));
            assert(hash.0@.take(i + 1).last() == byte);
        }
        key.append(hex_digit(byte / 16));
        key.append(hex_digit(byte % 16));
        assert(key@ =~= spec_hex(hash.0@.take(i + 1)));
        i += 1;
    }
    assert(hash.0@.take(32) =~= hash.0@);
    key
}

impl PaymentStatus {
    /// Whether a payment in this status must not be sent again: one that is
    /// pending or has succeeded.
    pub open spec fn spec_blocks_resend(self) -> bool {
        self == PaymentStatus::Pending || self == PaymentStatus::Succeeded
    }

    /// Returns whether a payment in this status must not be sent again: one
    /// that is pending or has succeeded. A failed payment may be retried.
    pub fn blocks_resend(self) -> (blocks: bool)
        ensures
            blocks == self.spec_blocks_resend(),
    {
        match self {
            PaymentStatus::Pending => true,
            PaymentStatus::Succeeded => true,
            PaymentStatus::Failed => false,
        }
    }
}

impl PaymentDetailsUpdate {
    /// Returns an update for the payment of `hash` that changes nothing yet.
    pub fn new(hash: PaymentHash) -> (update: PaymentDetailsUpdate)
        ensures
            update == (PaymentDetailsUpdate {
                hash,
                preimage: None,
                secret: None,
                amount_msat: None,
                direction: None,
                status: None,
                maximum_counterparty_skimmed_fee_msat: None,
            }),
    {
        PaymentDetailsUpdate {
            hash,
            preimage: None,
            secret: None,
            amount_msat: None,
            direction: None,
            status: None,
            maximum_counterparty_skimmed_fee_msat: None,
        }
    }

    /// Returns `payment` with the changes of this update made to it. The hash
    /// and the direction of the record stay.
    pub fn apply(&self, payment: &PaymentDetails) -> (updated: PaymentDetails)
        ensures
            updated == spec_apply_update(*payment, *self),
    {
        let mut updated = *payment;
        if let Some(preimage) = self.preimage {
            updated.preimage = preimage;
        }
        if let Some(secret) = self.secret {
            updated.secret = secret;
        }
        if let Some(amount_msat) = self.amount_msat {
            updated.amount_msat = amount_msat;
        }
        if let Some(status) = self.status {
            updated.status = status;
        }
        if let Some(limit) = self.maximum_counterparty_skimmed_fee_msat {
            updated.maximum_counterparty_skimmed_fee_msat = limit;
        }
        updated
    }
}

impl View for PaymentStore {
    type V = Seq<PaymentDetails>;

    closed spec fn view(&self) -> Seq<PaymentDetails> {
        self.payments@
    }
}

impl PaymentStore {
    /// Whether the store holds at most one record per payment hash.
    pub open spec fn wf(&self) -> bool {
        spec_unique_hashes(self@)
    }

    /// Returns a store that holds `payments`. Where several of them share a
    /// hash, the last one stays.
    pub fn new(payments: Vec<PaymentDetails>) -> (store: PaymentStore)
        ensures
            store.wf(),
            store@ == spec_from_payments(payments@),
    {
        let mut store = PaymentStore { payments: Vec::new() };
        let mut i: usize = 0;
        while i < payments.len()
            invariant
                i <= payments.len(),
                store.wf(),
                store@ == spec_from_payments(payments@.take(i as int)),
            decreases payments.len() - i,
        {
            proof {
                assert(payments@.take(i + 1).drop_last() =~= payments@.take(i as int));
                assert(payments@.take(i + 1).last() == payments@[i as int]);
            }
            store.insert_record(payments[i]);
            i += 1;
        }
        assert(payments@.take(i as int) =~= payments@);
        store
    }

    fn position(&self, hash: &PaymentHash) -> (place: Option<usize>)
        ensures
            match place {
                Some(i) => spec_index_of(self@, *hash) == Some(i as int) && i < self@.len(),
                None => spec_index_of(self@, *hash) is None,
            },
    {
        let mut i: usize = 0;
        while i < self.payments.len()
            invariant
                i <= self.payments.len(),
                forall|j: int| 0 <= j < i ==> (#[trigger] self.payments@[j]).hash != *hash,
            decreases self.payments.len() - i,
        {
            if same_hash(&self.payments[i].hash, hash) {
                proof {
                    lemma_index_of_first_match(self.payments@, *hash, i as int);
                }
                return Some(i);
            }
            i += 1;
        }
        proof {
            lemma_index_of_no_match(self.payments@, *hash);
        }
        None
    }

    fn insert_record(&mut self, payment: PaymentDetails) -> (updated: bool)
        requires
            old(self).wf(),
        ensures
            final(self).wf(),
            final(self)@ == spec_insert(old(self)@, payment),
            updated == spec_index_of(old(self)@, payment.hash) is Some,
    {
        proof {
            lemma_insert_keeps_hashes_unique(self@, payment);
        }
        match self.position(&payment.hash) {
            Some(i) => {
                self.payments[i] = payment;
                true
            },
            None => {
                self.payments.push(payment);
                false
            },
        }
    }

    /// Inserts the record of a payment, in place of the record of the same
    /// hash where there is one.
    ///
    /// The caller writes the record to the store on disk and says in
    /// `persisted` whether that succeeded. The record is kept in memory either
    /// way; a failed write is reported as [`Error::PersistenceFailed`].
    /// Otherwise the answer says whether a record was replaced.
    pub fn insert(&mut self, payment: PaymentDetails, persisted: bool) -> (inserted: Result<
        bool,
        Error,
    >)
        requires
            old(self).wf(),
        ensures
            final(self).wf(),
            final(self)@ == spec_insert(old(self)@, payment),
            inserted == spec_persisted_result(
                spec_index_of(old(self)@, payment.hash) is Some,
                persisted,
            ),
    {
        let updated = self.insert_record(payment);
        if persisted {
            Ok(updated)
        } else {
            Err(Error::PersistenceFailed)
        }
    }

    /// Returns the record of the payment of `hash`, if the store holds one.
    pub fn get(&self, hash: &PaymentHash) -> (payment: Option<PaymentDetails>)
        ensures
            payment == match spec_index_of(self@, *hash) {
                Some(i) => Some(self@[i]),
                None => None,
            },
            payment matches Some(found) ==> found.hash == *hash,
    {
        proof {
            lemma_index_of_is_a_match(self@, *hash);
        }
        match self.position(hash) {
            Some(i) => Some(self.payments[i]),
            None => None,
        }
    }

    /// Returns what the record of the payment that `update` names becomes by
    /// the update, for the caller to write to the store on disk; nothing where
    /// the store holds no such record.
    pub fn updated_details(&self, update: &PaymentDetailsUpdate) -> (updated: Option<
        PaymentDetails,
    >)
        ensures
            updated == match spec_index_of(self@, update.hash) {
                Some(i) => Some(spec_apply_update(self@[i], *update)),
                None => None,
            },
    {
        match self.get(&update.hash) {
            Some(payment) => Some(update.apply(&payment)),
            None => None,
        }
    }

    /// Makes the changes of `update` to the record of the payment that it
    /// names.
    ///
    /// Where the store holds no such record nothing happens and the answer is
    /// `false`. Otherwise the record is changed in memory; `persisted` says
    /// whether the caller could write the changed record to the store on
    /// disk, and a failed write is reported as [`Error::PersistenceFailed`].
    pub fn update(&mut self, update: &PaymentDetailsUpdate, persisted: bool) -> (updated: Result<
        bool,
        Error,
    >)
        requires
            old(self).wf(),
        ensures
            final(self).wf(),
            match spec_index_of(old(self)@, update.hash) {
                Some(i) => final(self)@ == old(self)@.update(
                    i,
                    spec_apply_update(old(self)@[i], *update),
                ) && updated == spec_persisted_result(true, persisted),
                None => final(self)@ == old(self)@ && updated == Ok::<bool, Error>(false),
            },
    {
        match self.position(&update.hash) {
            Some(i) => {
                let changed = update.apply(&self.payments[i]);
                let ghost before = self.payments@;
                self.payments[i] = changed;
                proof {
                    assert forall|a: int, b: int|
                        0 <= a < b < self.payments@.len() implies (
                    #[trigger] self.payments@[a]).hash != (#[trigger] self.payments@[b]).hash by {
                        assert(self.payments@[a].hash == before[a].hash);
                        assert(self.payments@[b].hash == before[b].hash);
                    }
                }
                if persisted {
                    Ok(true)
                } else {
                    Err(Error::PersistenceFailed)
                }
            },
            None => Ok(false),
        }
    }

    /// Returns the records of the payments that `f` accepts, in the order in
    /// which their hashes came into the store.
    pub fn list_filter<F: Fn(&PaymentDetails) -> bool>(&self, f: F) -> (payments: Vec<
        PaymentDetails,
    >)
        requires
            forall|payment: PaymentDetails| #[trigger] f.requires((&payment,)),
        ensures
            spec_filtered(self@, payments@, f),
    {
        let mut payments = Vec::new();
        let mut i: usize = 0;
        while i < self.payments.len()
            invariant
                i <= self.payments.len(),
                forall|payment: PaymentDetails| #[trigger] f.requires((&payment,)),
                spec_filtered(self.payments@.take(i as int), payments@, f),
            decreases self.payments.len() - i,
        {
            let ghost kept = payments@;
            proof {
                assert(self.payments@.take(i + 1).drop_last() =~= self.payments@.take(i as int));
                assert(self.payments@.take(i + 1).last() == self.payments@[i as int]);
            }
            if f(&self.payments[i]) {
                payments.push(self.payments[i]);
                assert(payments@.drop_last() =~= kept);
            }
            i += 1;
        }
        assert(self.payments@.take(i as int) =~= self.payments@);
        payments
    }

    /// Returns the records of all payments, in the order in which their
    /// hashes came into the store.
    pub fn list_payments(&self) -> (payments: Vec<PaymentDetails>)
        ensures
            payments@ == self@,
    {
        let mut payments = Vec::new();
        let mut i: usize = 0;
        while i < self.payments.len()
            invariant
                i <= self.payments.len(),
                payments@ == self.payments@.take(i as int),
            decreases self.payments.len() - i,
        {
            payments.push(self.payments[i]);
            assert(payments@ =~= self.payments@.take(i + 1));
            i += 1;
        }
        assert(self.payments@.take(i as int) =~= self.payments@);
        payments
    }
}

} // verus!
