//! The reasons for which an operation is turned down.

use vstd::prelude::*;

verus! {

/// Why an operation was rejected. A rejected operation changes nothing.
#[derive(Clone, Copy, Debug, PartialEq, Eq, Structural)]
pub enum BridgeError {
    /// The amount is zero.
    InvalidAmount,
    /// The amount exceeds the ceiling for a single operation.
    AmountTooLarge,
    /// The destination does not have the shape of a foreign-chain address.
    InvalidDestinationAddress,
    /// A balance or the locked total would exceed what a `u64` holds.
    MathOverflow,
    /// More would be released than is locked.
    MathUnderflow,
    /// The caller is not the bridge's admin.
    InvalidAdmin,
    /// The foreign transaction has been released before.
    TransactionAlreadyProcessed,
    /// The custody account holds less than the amount to release.
    InsufficientBalance,
    /// The bridge has been set up before.
    AlreadyInitialized,
}

/// The text that accompanies each error.
pub open spec fn message_text(error: BridgeError) -> Seq<char> {
    match error {
        BridgeError::InvalidAmount => "Invalid amt must be greater than 0"@,
        BridgeError::AmountTooLarge => "Amount too large"@,
        BridgeError::InvalidDestinationAddress => "Invalid destination address "@,
        BridgeError::MathOverflow => "math overflow"@,
        BridgeError::MathUnderflow => "Math underflow"@,
        BridgeError::InvalidAdmin => "Invalid admin authority"@,
        BridgeError::TransactionAlreadyProcessed => "Transaction already processed"@,
        BridgeError::InsufficientBalance => "Insufficient balance"@,
        BridgeError::AlreadyInitialized => "Bridge already initialized"@,
    }
}

/// Whether `result` is a rejection, and for the reason `error`.
pub open spec fn rejected_with<T>(result: Result<T, BridgeError>, error: BridgeError) -> bool {
    result matches Err(e) && e == error
}

impl BridgeError {
    /// The human-readable message of this error.
    pub fn message(&self) -> (text: &'static str)
        ensures
            text@ == message_text(*self),
    {
        match self {
            BridgeError::InvalidAmount => "Invalid amt must be greater than 0",
            BridgeError::AmountTooLarge => "Amount too large",
            BridgeError::InvalidDestinationAddress => "Invalid destination address ",
            BridgeError::MathOverflow => "math overflow",
            BridgeError::MathUnderflow => "Math underflow",
            BridgeError::InvalidAdmin => "Invalid admin authority",
            BridgeError::TransactionAlreadyProcessed => "Transaction already processed",
            BridgeError::InsufficientBalance => "Insufficient balance",
            BridgeError::AlreadyInitialized => "Bridge already initialized",
        }
    }
}

} // verus!
