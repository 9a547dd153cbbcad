//! Chain synchronization and wallet-sync coordination for a non-custodial
//! Lightning node.
//!
//! The crate holds the decisions of the node's chain-facing runtime: which of
//! several concurrent sync requests performs the work, whether the on-chain
//! wallet is scanned in full or incrementally, how each provider outcome maps to
//! a typed error, when the persisted metrics move, when resolved channel
//! monitors are archived, how the fee-rate cache is rebuilt, and what each
//! timer tick dispatches. Network calls, timeouts and persistence are performed
//! by the caller, which hands their outcomes to the functions found here.

pub mod announcement;
pub mod builder;
pub mod chain;
pub mod config;
pub mod error;
pub mod fee_estimator;
pub mod metrics;
pub mod payment;
pub mod payment_store;
pub mod wallet;
