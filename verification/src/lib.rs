//! The custodial core of a two-chain asset bridge.
//!
//! Value is locked on this ledger to be made available on a foreign chain,
//! and released again, on the admin's word, on account of a transaction seen
//! on that chain. The bridge keeps count of what is locked and keeps a record
//! of every foreign transaction it has released, so that none is released
//! twice.

pub mod address;
pub mod error;
pub mod events;
pub mod identity;
pub mod laws;
pub mod operations;
pub mod registry;
pub mod state;

pub use address::{is_valid_destination, DESTINATION_ADDRESS_LEN};
pub use error::BridgeError;
pub use events::{LockEvent, ReleaseEvent};
pub use operations::{initialize, lock, release, Initialize, Lock, Release};
pub use registry::{IdempotencyRegistry, ProcessedTransaction};
pub use state::{BridgeState, Wallet, MAX_SINGLE_TX};
