//! The error type surfaced by the node's operations.

use vstd::prelude::*;

verus! {

/// An error that a node operation may return.
///
/// A timeout says that the bounded wait elapsed before the provider
/// answered. A failure says that the provider answered with an error, or that
/// the result could not be applied or stored.
#[derive(Clone, Copy, Debug, PartialEq, Eq, Structural)]
pub enum Error {
    /// The node is not running.
    NotRunning,
    /// Sending a payment has failed.
    PaymentSendingFailed,
    /// Persistence failed.
    PersistenceFailed,
    /// The fee-rate estimates could not be updated.
    FeerateEstimationUpdateFailed,
    /// Updating the fee-rate estimates did not finish within its time limit.
    FeerateEstimationUpdateTimeout,
    /// A wallet operation failed.
    WalletOperationFailed,
    /// A wallet operation did not finish within its time limit.
    WalletOperationTimeout,
    /// Syncing the Lightning wallet's transactions failed.
    TxSyncFailed,
    /// Syncing the Lightning wallet's transactions did not finish within its
    /// time limit.
    TxSyncTimeout,
    /// The given amount is invalid.
    InvalidAmount,
    /// A payment with the same hash is already pending or has succeeded.
    DuplicatePayment,
    /// The available funds do not cover the operation.
    InsufficientFunds,
}

} // verus!
