//! The sync of both wallets that a caller asks for by hand.

use crate::error::Error;
use vstd::prelude::*;

verus! {

/// What a manual sync does next.
#[derive(Clone, Copy, Debug, PartialEq, Eq)]
pub enum ManualSync {
    /// Sync the on-chain wallet.
    SyncOnchainWallet,
    /// Sync the Lightning wallet.
    SyncLightningWallet,
    /// Return `result`.
    Done { result: Result<(), Error> },
}

impl ManualSync {
    /// The first step of a manual sync on a node that runs or does not.
    pub open spec fn spec_begin(is_running: bool) -> ManualSync {
        if is_running {
            ManualSync::SyncOnchainWallet
        } else {
            ManualSync::Done { result: Err(Error::NotRunning) }
        }
    }

    /// The step that follows `self` when the wallet sync it asked for ended
    /// with `result`.
    pub open spec fn spec_next(self, result: Result<(), Error>) -> ManualSync {
        match self {
            ManualSync::SyncOnchainWallet => match result {
                Ok(_) => ManualSync::SyncLightningWallet,
                Err(e) => ManualSync::Done { result: Err(e) },
            },
            ManualSync::SyncLightningWallet => ManualSync::Done { result },
            ManualSync::Done { .. } => self,
        }
    }

    /// Starts a manual sync: on a node that does not run it ends at once with
    /// [`Error::NotRunning`], otherwise it begins with the on-chain wallet.
    pub fn begin(is_running: bool) -> (step: ManualSync)
        ensures
            step == ManualSync::spec_begin(is_running),
    {
        if is_running {
            ManualSync::SyncOnchainWallet
        } else {
            ManualSync::Done { result: Err(Error::NotRunning) }
        }
    }

    /// Takes a manual sync one step further.
    ///
    /// The Lightning wallet is synced only after the on-chain wallet has been
    /// synced with success; the first failure ends the sync and is its result.
    pub fn next(self, result: Result<(), Error>) -> (step: ManualSync)
        ensures
            step == self.spec_next(result),
    {
        match self {
            ManualSync::SyncOnchainWallet => match result {
                Ok(_) => ManualSync::SyncLightningWallet,
                Err(e) => ManualSync::Done { result: Err(e) },
            },
            ManualSync::SyncLightningWallet => ManualSync::Done { result },
            ManualSync::Done { result: ended } => ManualSync::Done { result: ended },
        }
    }
}

/// A manual sync succeeds if, and only if, the node runs and both wallets
/// sync with success; otherwise it fails with the first error met.
pub proof fn lemma_manual_sync_result(
    is_running: bool,
    onchain: Result<(), Error>,
    lightning: Result<(), Error>,
)
    ensures
        ({
            let first = ManualSync::spec_begin(is_running);
            let last = first.spec_next(onchain).spec_next(lightning);
            last == (ManualSync::Done {
                result: if !is_running {
                    Err(Error::NotRunning)
                } else if onchain is Err {
                    onchain
                } else {
                    lightning
                },
            })
        }),
{
}

} // verus!
