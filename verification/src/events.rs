//! What the bridge announces to those who watch it.

use anchor_lang::prelude::Pubkey;
use vstd::prelude::*;

verus! {

/// Announces that `amount` was locked by `source_address`, to be made
/// available to `destination_address` on the foreign chain.
#[derive(Debug, PartialEq, Eq)]
pub struct LockEvent {
    pub source_address: Pubkey,
    pub destination_address: String,
    pub amount: u64,
    pub timestamp: i64,
}

/// A [`LockEvent`] with its text as a sequence of characters.
pub struct LockEventView {
    pub source_address: Pubkey,
    pub destination_address: Seq<char>,
    pub amount: u64,
    pub timestamp: i64,
}

impl View for LockEvent {
    type V = LockEventView;

    open spec fn view(&self) -> LockEventView {
        LockEventView {
            source_address: self.source_address,
            destination_address: self.destination_address@,
            amount: self.amount,
            timestamp: self.timestamp,
        }
    }
}

impl Clone for LockEvent {
    fn clone(&self) -> (copy: Self)
        ensures
            copy@ == self@,
    {
        LockEvent {
            source_address: self.source_address,
            destination_address: self.destination_address.clone(),
            amount: self.amount,
            timestamp: self.timestamp,
        }
    }
}

/// Announces that `amount` was released to `recipient` on account of the
/// foreign transaction `evm_tx_hash`.
#[derive(Debug, PartialEq, Eq)]
pub struct ReleaseEvent {
    pub recipient: Pubkey,
    pub amount: u64,
    pub evm_tx_hash: String,
    pub timestamp: i64,
}

/// A [`ReleaseEvent`] with its text as a sequence of characters.
pub struct ReleaseEventView {
    pub recipient: Pubkey,
    pub amount: u64,
    pub evm_tx_hash: Seq<char>,
    pub timestamp: i64,
}

impl View for ReleaseEvent {
    type V = ReleaseEventView;

    open spec fn view(&self) -> ReleaseEventView {
        ReleaseEventView {
            recipient: self.recipient,
            amount: self.amount,
            evm_tx_hash: self.evm_tx_hash@,
            timestamp: self.timestamp,
        }
    }
}

impl Clone for ReleaseEvent {
    fn clone(&self) -> (copy: Self)
        ensures
            copy@ == self@,
    {
        ReleaseEvent {
            recipient: self.recipient,
            amount: self.amount,
            evm_tx_hash: self.evm_tx_hash.clone(),
            timestamp: self.timestamp,
        }
    }
}

} // verus!
