//! The record of foreign transactions that have been released, kept so that
//! none is released twice.

use crate::error::{rejected_with, BridgeError};
use anchor_lang::prelude::Pubkey;
use vstd::prelude::*;

verus! {

/// What was released on account of one foreign transaction.
#[derive(Debug, PartialEq, Eq)]
pub struct ProcessedTransaction {
    pub is_processed: bool,
    pub evm_tx_hash: String,
    pub amount: u64,
    pub recipient: Pubkey,
    pub timestamp: i64,
}

/// A [`ProcessedTransaction`] with its text as a sequence of characters.
pub struct ProcessedTransactionView {
    pub is_processed: bool,
    pub evm_tx_hash: Seq<char>,
    pub amount: u64,
    pub recipient: Pubkey,
    pub timestamp: i64,
}

impl View for ProcessedTransaction {
    type V = ProcessedTransactionView;

    open spec fn view(&self) -> ProcessedTransactionView {
        ProcessedTransactionView {
            is_processed: self.is_processed,
            evm_tx_hash: self.evm_tx_hash@,
            amount: self.amount,
            recipient: self.recipient,
            timestamp: self.timestamp,
        }
    }
}

impl Clone for ProcessedTransaction {
    fn clone(&self) -> (copy: Self)
        ensures
            copy@ == self@,
    {
        ProcessedTransaction {
            is_processed: self.is_processed,
            evm_tx_hash: self.evm_tx_hash.clone(),
            amount: self.amount,
            recipient: self.recipient,
            timestamp: self.timestamp,
        }
    }
}

/// The record of a release of `amount` to `recipient` at `timestamp` on
/// account of the foreign transaction `evm_tx_hash`.
pub open spec fn processed_record(
    evm_tx_hash: Seq<char>,
    amount: u64,
    recipient: Pubkey,
    timestamp: i64,
) -> ProcessedTransactionView {
    ProcessedTransactionView { is_processed: true, evm_tx_hash, amount, recipient, timestamp }
}

/// Whether `log` holds a record of the foreign transaction `evm_tx_hash`.
pub open spec fn has_record(log: Seq<ProcessedTransactionView>, evm_tx_hash: Seq<char>) -> bool {
    exists|i: int| 0 <= i < log.len() && (#[trigger] log[i]).evm_tx_hash == evm_tx_hash
}

/// What holds of every registry: each record is marked as processed, and no
/// two records are of the same foreign transaction.
pub open spec fn well_formed(log: Seq<ProcessedTransactionView>) -> bool {
    &&& forall|i: int| 0 <= i < log.len() ==> (#[trigger] log[i]).is_processed
    &&& forall|i: int, j: int|
        0 <= i < j < log.len() ==> (#[trigger] log[i]).evm_tx_hash != (
        #[trigger] log[j]).evm_tx_hash
}

/// Adding the record of a foreign transaction that has none yet keeps a
/// registry well formed.
pub proof fn lemma_push_keeps_well_formed(
    log: Seq<ProcessedTransactionView>,
    record: ProcessedTransactionView,
)
    requires
        well_formed(log),
        record.is_processed,
        !has_record(log, record.evm_tx_hash),
    ensures
        well_formed(log.push(record)),
        has_record(log.push(record), record.evm_tx_hash),
{
    let longer = log.push(record);
    assert forall|i: int, j: int| 0 <= i < j < longer.len() implies (#[trigger] longer[i]).evm_tx_hash
        != (#[trigger] longer[j]).evm_tx_hash by {
        if j == log.len() {
            assert(log[i].evm_tx_hash != record.evm_tx_hash);
        }
    }
    assert(longer[log.len() as int].evm_tx_hash == record.evm_tx_hash);
}

/// The views of `records`, in order.
spec fn views_of(records: Seq<ProcessedTransaction>) -> Seq<ProcessedTransactionView> {
    Seq::new(records.len(), |i: int| records[i]@)
}

/// The registry of processed foreign transactions: an append-only log with
/// at most one record per foreign transaction. Its view is the sequence of
/// its records, oldest first.
#[derive(Debug, PartialEq, Eq)]
pub struct IdempotencyRegistry {
    records: Vec<ProcessedTransaction>,
}

impl View for IdempotencyRegistry {
    type V = Seq<ProcessedTransactionView>;

    closed spec fn view(&self) -> Seq<ProcessedTransactionView> {
        views_of(self.records@)
    }
}

impl IdempotencyRegistry {
    /// Every registry holds a well-formed log, at all times.
    #[verifier::type_invariant]
    pub open spec fn holds_well_formed_log(&self) -> bool {
        well_formed(self@)
    }

    /// A registry without records.
    pub fn new() -> (registry: Self)
        ensures
            registry@ == Seq::<ProcessedTransactionView>::empty(),
    {
        IdempotencyRegistry { records: Vec::new() }
    }

    /// The number of foreign transactions on record.
    pub fn len(&self) -> (count: usize)
        ensures
            count == self@.len(),
            well_formed(self@),
    {
        proof {
            use_type_invariant(self);
        }
        self.records.len()
    }

    /// Looks up the record of the foreign transaction `evm_tx_hash`.
    pub fn get(&self, evm_tx_hash: &String) -> (found: Option<&ProcessedTransaction>)
        ensures
            found is Some <==> has_record(self@, evm_tx_hash@),
            found matches Some(record) ==> record@.evm_tx_hash == evm_tx_hash@ && self@.contains(
                record@,
            ),
            well_formed(self@),
    {
        proof {
            use_type_invariant(self);
        }
        let mut at: usize = 0;
        while at < self.records.len()
            invariant
                at <= self.records.len(),
                well_formed(self@),
                forall|i: int| 0 <= i < at ==> (#[trigger] self@[i]).evm_tx_hash != evm_tx_hash@,
            decreases self.records.len() - at,
        {
            if self.records[at].evm_tx_hash == *evm_tx_hash {
                assert(self@[at as int] == self.records[at as int]@);
                return Some(&self.records[at]);
            }
            at += 1;
        }
        None
    }

    /// Tells whether the foreign transaction `evm_tx_hash` is on record.
    pub fn contains(&self, evm_tx_hash: &String) -> (present: bool)
        ensures
            present == has_record(self@, evm_tx_hash@),
    {
        self.get(evm_tx_hash).is_some()
    }

    /// Puts a release on record, unless its foreign transaction is on record
    /// already: then the registry stays as it is and the call is rejected
    /// with `TransactionAlreadyProcessed`.
    pub fn create_if_absent(
        &mut self,
        evm_tx_hash: String,
        amount: u64,
        recipient: Pubkey,
        timestamp: i64,
    ) -> (result: Result<(), BridgeError>)
        ensures
            has_record(old(self)@, evm_tx_hash@) ==> rejected_with(
                result,
                BridgeError::TransactionAlreadyProcessed,
            ) && *final(self) == *old(self),
            !has_record(old(self)@, evm_tx_hash@) ==> result is Ok && final(self)@ == old(
                self,
            )@.push(processed_record(evm_tx_hash@, amount, recipient, timestamp)),
            well_formed(final(self)@),
    {
        proof {
            use_type_invariant(&*self);
        }
        if self.contains(&evm_tx_hash) {
            return Err(BridgeError::TransactionAlreadyProcessed);
        }
        self.append(evm_tx_hash, amount, recipient, timestamp);
        proof {
            use_type_invariant(&*self);
        }
        Ok(())
    }

    /// Puts a release on record, at the end of the log.
    pub(crate) fn append(
        &mut self,
        evm_tx_hash: String,
        amount: u64,
        recipient: Pubkey,
        timestamp: i64,
    )
        requires
            !has_record(old(self)@, evm_tx_hash@),
        ensures
            final(self)@ == old(self)@.push(
                processed_record(evm_tx_hash@, amount, recipient, timestamp),
            ),
    {
        let record = ProcessedTransaction {
            is_processed: true,
            evm_tx_hash,
            amount,
            recipient,
            timestamp,
        };
        let mut records: Vec<ProcessedTransaction> = Vec::new();
        proof {
            use_type_invariant(&*self);
            lemma_push_keeps_well_formed(self@, record@);
            assert(views_of(self.records@.push(record)) =~= self@.push(record@));
        }
        // The log is taken out while it grows and put back whole, so that the
        // registry is well formed at every step.
        std::mem::swap(&mut self.records, &mut records);
        records.push(record);
        std::mem::swap(&mut self.records, &mut records);
    }
}

} // verus!
