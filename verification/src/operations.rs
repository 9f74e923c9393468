//! The bridge's three operations: setting it up, locking and releasing.
//!
//! Each operation works on a context that holds, as plain values, the
//! accounts it touches. An operation either succeeds and updates its context,
//! or is rejected with a [`BridgeError`] and leaves the context as it was.

use crate::address::{has_destination_shape, is_valid_destination};
use crate::error::{rejected_with, BridgeError};
use crate::events::{LockEvent, LockEventView, ReleaseEvent, ReleaseEventView};
use crate::registry::{
    has_record, processed_record, well_formed, IdempotencyRegistry, ProcessedTransactionView,
};
use crate::state::{BridgeState, Wallet, MAX_SINGLE_TX};
use anchor_lang::prelude::Pubkey;
use vstd::prelude::*;

verus! {

/// What setting up the bridge works on: the place of the bridge's record,
/// empty until the bridge is set up, and the bump that goes into the record.
#[derive(Clone, Copy, Debug, PartialEq, Eq)]
pub struct Initialize {
    pub bridge_state: Option<BridgeState>,
    pub bump: u8,
}

/// What a lock works on: the bridge's record and the key of the user whose
/// funds are locked.
#[derive(Clone, Copy, Debug, PartialEq, Eq)]
pub struct Lock {
    pub bridge_state: BridgeState,
    pub user: Pubkey,
}

/// What a release works on: the bridge's record, the caller's account, out of
/// which the funds are paid, the account that receives them, and the
/// registry of the foreign transactions released so far.
#[derive(Debug, PartialEq, Eq)]
pub struct Release {
    pub bridge_state: BridgeState,
    pub admin: Wallet,
    pub recipient: Wallet,
    pub registry: IdempotencyRegistry,
}

/// A [`Release`] context with its registry as a sequence of records.
pub struct ReleaseView {
    pub bridge_state: BridgeState,
    pub admin: Wallet,
    pub recipient: Wallet,
    pub registry: Seq<ProcessedTransactionView>,
}

impl View for Release {
    type V = ReleaseView;

    open spec fn view(&self) -> ReleaseView {
        ReleaseView {
            bridge_state: self.bridge_state,
            admin: self.admin,
            recipient: self.recipient,
            registry: self.registry@,
        }
    }
}

/// The error with which a lock of `amount` for `destination_address` is
/// rejected when the bridge's record is `state`, or `None` if it is accepted.
/// Where several errors apply, the first one in this order is given.
pub open spec fn lock_rejection(
    state: BridgeState,
    amount: u64,
    destination_address: Seq<char>,
) -> Option<BridgeError> {
    if amount == 0 {
        Some(BridgeError::InvalidAmount)
    } else if amount > MAX_SINGLE_TX {
        Some(BridgeError::AmountTooLarge)
    } else if !has_destination_shape(destination_address) {
        Some(BridgeError::InvalidDestinationAddress)
    } else if state.total_locked + amount > u64::MAX {
        Some(BridgeError::MathOverflow)
    } else {
        None
    }
}

/// The event that an accepted lock announces.
pub open spec fn lock_event(
    user: Pubkey,
    amount: u64,
    destination_address: Seq<char>,
    timestamp: i64,
) -> LockEventView {
    LockEventView { source_address: user, destination_address, amount, timestamp }
}

/// The error with which a release of `amount` on account of the foreign
/// transaction `evm_tx_hash` is rejected in the context `ctx`, or `None` if
/// it is accepted. Where several errors apply, the first one in this order
/// is given.
pub open spec fn release_rejection(ctx: ReleaseView, amount: u64, evm_tx_hash: Seq<char>) -> Option<
    BridgeError,
> {
    if ctx.admin.key != ctx.bridge_state.admin {
        Some(BridgeError::InvalidAdmin)
    } else if amount == 0 {
        Some(BridgeError::InvalidAmount)
    } else if amount > MAX_SINGLE_TX {
        Some(BridgeError::AmountTooLarge)
    } else if has_record(ctx.registry, evm_tx_hash) {
        Some(BridgeError::TransactionAlreadyProcessed)
    } else if ctx.admin.lamports < amount {
        Some(BridgeError::InsufficientBalance)
    } else if ctx.bridge_state.total_locked < amount {
        Some(BridgeError::MathUnderflow)
    } else if ctx.recipient.lamports + amount > u64::MAX {
        Some(BridgeError::MathOverflow)
    } else {
        None
    }
}

/// The event that an accepted release announces.
pub open spec fn release_event(
    amount: u64,
    evm_tx_hash: Seq<char>,
    recipient: Pubkey,
    timestamp: i64,
) -> ReleaseEventView {
    ReleaseEventView { recipient, amount, evm_tx_hash, timestamp }
}

/// The context `ctx` after an accepted release: `amount` has left the
/// caller's account, reached the receiving account and left the locked
/// total, and the registry has one more record, at its end.
pub open spec fn released(
    ctx: ReleaseView,
    amount: u64,
    evm_tx_hash: Seq<char>,
    recipient: Pubkey,
    timestamp: i64,
) -> ReleaseView {
    ReleaseView {
        bridge_state: ctx.bridge_state.minus(amount),
        admin: Wallet { key: ctx.admin.key, lamports: (ctx.admin.lamports - amount) as u64 },
        recipient: Wallet {
            key: ctx.recipient.key,
            lamports: (ctx.recipient.lamports + amount) as u64,
        },
        registry: ctx.registry.push(processed_record(evm_tx_hash, amount, recipient, timestamp)),
    }
}

/// Sets up the bridge with `admin` as its administrator and nothing locked.
///
/// This succeeds once: when the bridge has its record already, the call is
/// rejected with `AlreadyInitialized` and the record stays as it is.
pub fn initialize(ctx: &mut Initialize, admin: Pubkey) -> (result: Result<(), BridgeError>)
    ensures
        old(ctx).bridge_state is None ==> result is Ok && final(ctx).bridge_state == Some(
            BridgeState::fresh(admin, old(ctx).bump),
        ),
        old(ctx).bridge_state is Some ==> rejected_with(result, BridgeError::AlreadyInitialized)
            && final(ctx).bridge_state == old(ctx).bridge_state,
        final(ctx).bump == old(ctx).bump,
{
    if ctx.bridge_state.is_some() {
        return Err(BridgeError::AlreadyInitialized);
    }
    ctx.bridge_state = Some(BridgeState { admin, total_locked: 0, bump: ctx.bump });
    Ok(())
}

/// Takes `amount` into the locked total on behalf of `ctx.user`, for
/// `destination_address` on the foreign chain, and returns the event that
/// announces it.
///
/// The funds themselves are moved by the ledger: the caller transfers the
/// event's `amount` from its `source_address` to the admin's account, and
/// keeps the updated record and publishes the event only if that transfer
/// went through.
///
/// A lock is rejected, in this order, for an amount of zero, an amount above
/// [`MAX_SINGLE_TX`], a destination that has not the shape of an address, and
/// a locked total that would not fit. A rejected lock changes nothing.
pub fn lock(ctx: &mut Lock, amount: u64, destination_address: String, timestamp: i64) -> (result:
    Result<LockEvent, BridgeError>)
    ensures
        match lock_rejection(old(ctx).bridge_state, amount, destination_address@) {
            Some(error) => rejected_with(result, error) && *final(ctx) == *old(ctx),
            None => result matches Ok(event) && event@ == lock_event(
                old(ctx).user,
                amount,
                destination_address@,
                timestamp,
            ) && final(ctx).bridge_state == old(ctx).bridge_state.plus(amount) && final(ctx).user
                == old(ctx).user,
        },
        result is Ok ==> final(ctx).bridge_state.total_locked == old(ctx).bridge_state.total_locked
            + amount,
        amount == 0 ==> rejected_with(result, BridgeError::InvalidAmount) && *final(ctx) == *old(
            ctx,
        ),
        amount > MAX_SINGLE_TX ==> rejected_with(result, BridgeError::AmountTooLarge) && *final(ctx)
            == *old(ctx),
{
    if amount == 0 {
        return Err(BridgeError::InvalidAmount);
    }
    if amount > MAX_SINGLE_TX {
        return Err(BridgeError::AmountTooLarge);
    }
    if !is_valid_destination(destination_address.as_str()) {
        return Err(BridgeError::InvalidDestinationAddress);
    }
    let total_locked = match ctx.bridge_state.total_locked.checked_add(amount) {
        Some(total) => total,
        None => {
            return Err(BridgeError::MathOverflow);
        },
    };
    ctx.bridge_state.total_locked = total_locked;
    Ok(LockEvent { source_address: ctx.user, destination_address, amount, timestamp })
}

/// Pays `amount` out of the caller's account into the receiving account on
/// account of the foreign transaction `evm_tx_hash`, takes it off the locked
/// total, puts the release on record and returns the event that announces it.
/// The record and the event name `recipient` as the one paid.
///
/// Each foreign transaction is released at most once: a release succeeds only
/// if the registry has no record of `evm_tx_hash`, and then adds one.
///
/// A release is rejected, in this order, for a caller who is not the admin,
/// an amount of zero, an amount above [`MAX_SINGLE_TX`], a foreign
/// transaction already on record, a caller's balance below the amount, a
/// locked total below the amount, and a receiving balance that would not
/// fit. A rejected release changes nothing.
pub fn release(
    ctx: &mut Release,
    amount: u64,
    evm_tx_hash: String,
    recipient: Pubkey,
    timestamp: i64,
) -> (result: Result<ReleaseEvent, BridgeError>)
    ensures
        match release_rejection(old(ctx)@, amount, evm_tx_hash@) {
            Some(error) => rejected_with(result, error) && *final(ctx) == *old(ctx),
            None => result matches Ok(event) && event@ == release_event(
                amount,
                evm_tx_hash@,
                recipient,
                timestamp,
            ) && final(ctx)@ == released(old(ctx)@, amount, evm_tx_hash@, recipient, timestamp),
        },
        result is Ok ==> final(ctx).bridge_state.total_locked == old(ctx).bridge_state.total_locked
            - amount,
        old(ctx).bridge_state.total_locked < amount ==> result is Err && *final(ctx) == *old(ctx),
        rejected_with(result, BridgeError::MathUnderflow) <==> (old(ctx).admin.key == old(
            ctx,
        ).bridge_state.admin && 0 < amount <= MAX_SINGLE_TX && !has_record(
            old(ctx).registry@,
            evm_tx_hash@,
        ) && old(ctx).admin.lamports >= amount && old(ctx).bridge_state.total_locked < amount),
        old(ctx).admin.key != old(ctx).bridge_state.admin ==> rejected_with(
            result,
            BridgeError::InvalidAdmin,
        ) && *final(ctx) == *old(ctx),
        well_formed(final(ctx).registry@),
{
    proof {
        use_type_invariant(&ctx.registry);
    }
    if !ctx.bridge_state.is_admin(&ctx.admin.key) {
        return Err(BridgeError::InvalidAdmin);
    }
    if amount == 0 {
        return Err(BridgeError::InvalidAmount);
    }
    if amount > MAX_SINGLE_TX {
        return Err(BridgeError::AmountTooLarge);
    }
    if ctx.registry.contains(&evm_tx_hash) {
        return Err(BridgeError::TransactionAlreadyProcessed);
    }
    if ctx.admin.lamports < amount {
        return Err(BridgeError::InsufficientBalance);
    }
    let total_locked = match ctx.bridge_state.total_locked.checked_sub(amount) {
        Some(total) => total,
        None => {
            return Err(BridgeError::MathUnderflow);
        },
    };
    let credited = match ctx.recipient.lamports.checked_add(amount) {
        Some(balance) => balance,
        None => {
            return Err(BridgeError::MathOverflow);
        },
    };
    ctx.admin.lamports = ctx.admin.lamports - amount;
    ctx.recipient.lamports = credited;
    ctx.registry.append(evm_tx_hash.clone(), amount, recipient, timestamp);
    ctx.bridge_state.total_locked = total_locked;
    Ok(ReleaseEvent { recipient, amount, evm_tx_hash, timestamp })
}

} // verus!
