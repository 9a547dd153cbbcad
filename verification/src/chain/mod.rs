//! Keeping the on-chain wallet and the Lightning wallet in step with the
//! chain.

pub mod broadcast;
pub mod lightning;
pub mod manual;
pub mod onchain;
pub mod scheduler;
pub mod sync_status;
