//! Identities of accounts.

use anchor_lang::prelude::Pubkey;
use vstd::prelude::*;

verus! {

/// `anchor_lang::prelude::Pubkey`, the ledger's account address. It is
/// opaque here: nothing in this library looks inside a key. A key is stored,
/// handed on and compared.
#[verifier::external_type_specification]
#[verifier::external_body]
pub struct ExPubkey(Pubkey);

/// Calls `PartialEq::eq` of `Pubkey`, which the ledger crate derives over
/// the 32 bytes of a key. Taken on trust, not proved: the call returns
/// `true` exactly when the two keys are the same key.
#[verifier::external_body]
pub(crate) fn same_key(a: &Pubkey, b: &Pubkey) -> (same: bool)
    ensures
        same == (*a == *b),
{
    a == b
}

} // verus!
