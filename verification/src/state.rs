//! The bridge's own record and the accounts it moves value between.

use crate::identity::same_key;
use anchor_lang::prelude::Pubkey;
use vstd::prelude::*;

verus! {

/// The most that a single lock or release may move.
pub const MAX_SINGLE_TX: u64 = 1_000_000_000;

/// The bridge's singleton record: who administers it, and how much it holds
/// in custody. `admin` and `bump` are fixed when the bridge is set up;
/// `total_locked` grows with each lock and shrinks with each release.
#[derive(Clone, Copy, Debug, PartialEq, Eq)]
pub struct BridgeState {
    pub admin: Pubkey,
    pub total_locked: u64,
    pub bump: u8,
}

/// An account of the ledger as the bridge sees it: its key and its balance.
#[derive(Clone, Copy, Debug, PartialEq, Eq)]
pub struct Wallet {
    pub key: Pubkey,
    pub lamports: u64,
}

impl BridgeState {
    /// The record of a bridge that `admin` has just set up: nothing is locked.
    pub open spec fn fresh(admin: Pubkey, bump: u8) -> BridgeState {
        BridgeState { admin, total_locked: 0, bump }
    }

    /// Tells whether `key` is the key of the bridge's admin.
    pub fn is_admin(&self, key: &Pubkey) -> (yes: bool)
        ensures
            yes == (*key == self.admin),
    {
        same_key(key, &self.admin)
    }

    /// This record with `amount` more in custody.
    pub open spec fn plus(self, amount: u64) -> BridgeState {
        BridgeState { total_locked: (self.total_locked + amount) as u64, ..self }
    }

    /// This record with `amount` less in custody.
    pub open spec fn minus(self, amount: u64) -> BridgeState {
        BridgeState { total_locked: (self.total_locked - amount) as u64, ..self }
    }
}

} // verus!
