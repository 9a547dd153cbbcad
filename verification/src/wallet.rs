//! The balances of the on-chain wallet.

use crate::error::Error;
use vstd::prelude::*;

verus! {

/// What of `trusted_spendable_sats` is left to spend once the reserve for
/// anchor channels is set aside.
pub open spec fn spec_spendable_amount_sats(
    trusted_spendable_sats: u64,
    total_anchor_channels_reserve_sats: u64,
) -> u64 {
    if trusted_spendable_sats >= total_anchor_channels_reserve_sats {
        (trusted_spendable_sats - total_anchor_channels_reserve_sats) as u64
    } else {
        0
    }
}

/// Returns the total and the spendable balance of the wallet, in satoshis.
///
/// The spendable balance is what the wallet trusts to be spendable, less the
/// reserve kept for anchor channels, and never less than zero.
pub fn get_balances(
    total_sats: u64,
    trusted_spendable_sats: u64,
    total_anchor_channels_reserve_sats: u64,
) -> (balances: (u64, u64))
    ensures
        balances.0 == total_sats,
        balances.1 == spec_spendable_amount_sats(
            trusted_spendable_sats,
            total_anchor_channels_reserve_sats,
        ),
{
    let spendable = if trusted_spendable_sats >= total_anchor_channels_reserve_sats {
        trusted_spendable_sats - total_anchor_channels_reserve_sats
    } else {
        0
    };
    (total_sats, spendable)
}

/// Returns the spendable balance of the wallet, in satoshis.
pub fn get_spendable_amount_sats(
    total_sats: u64,
    trusted_spendable_sats: u64,
    total_anchor_channels_reserve_sats: u64,
) -> (spendable: u64)
    ensures
        spendable == spec_spendable_amount_sats(
            trusted_spendable_sats,
            total_anchor_channels_reserve_sats,
        ),
{
    get_balances(total_sats, trusted_spendable_sats, total_anchor_channels_reserve_sats).1
}

/// Checks that `amount_sats` can be paid out of `spendable_sats`: a balance
/// below the amount is refused as [`Error::InsufficientFunds`].
pub fn check_funds(spendable_sats: u64, amount_sats: u64) -> (checked: Result<(), Error>)
    ensures
        spendable_sats >= amount_sats ==> checked == Ok::<(), Error>(()),
        spendable_sats < amount_sats ==> checked == Err::<(), Error>(Error::InsufficientFunds),
{
    if spendable_sats < amount_sats {
        Err(Error::InsufficientFunds)
    } else {
        Ok(())
    }
}

} // verus!
