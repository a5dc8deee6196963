//! The value-transfer rail, modeled at its interface.
//!
//! The host environment moves funds between per-identity token accounts;
//! the core only needs the rail's contract: a transfer either moves the
//! whole amount from a funding account to a receiving account, or fails and
//! moves nothing. A transfer fails on a wrong authority, an asset mismatch
//! between the two accounts, an insufficient balance, or a receiving
//! balance that would overflow.

use vstd::prelude::*;

use crate::errors::ErrorCode;
use crate::identity::Identity;
use crate::identity::identity_eq;
use crate::identity::spec_same_identity;

verus! {

/// A fungible-value account: who owns it, which asset it holds, how much.
#[derive(Clone, Copy, Debug, PartialEq, Eq)]
pub struct TokenAccount {
    /// The identity allowed to authorize debits from this account.
    pub owner: Identity,
    /// The asset this account holds, named by the asset's identity.
    pub mint: Identity,
    /// The current balance.
    pub balance: u64,
}

/// When a transfer of `amount` from `from` to `to`, authorized by
/// `authority`, goes through: the authority owns the funding account, the
/// two accounts hold the same asset, the funding balance suffices, and the
/// receiving balance does not overflow.
pub open spec fn spec_transfer_ok(
    from: TokenAccount,
    to: TokenAccount,
    authority: Identity,
    amount: u64,
) -> bool {
    &&& spec_same_identity(from.owner, authority)
    &&& spec_same_identity(from.mint, to.mint)
    &&& from.balance >= amount
    &&& to.balance + amount <= u64::MAX
}

/// Moves `amount` from `from` to `to`, or fails and changes nothing.
/// All-or-nothing: on success exactly the amount moves and both accounts
/// keep their owner and asset; on failure both accounts are untouched.
pub fn transfer(
    from: &mut TokenAccount,
    to: &mut TokenAccount,
    authority: &Identity,
    amount: u64,
) -> (result: Result<(), ErrorCode>)
    ensures
        spec_transfer_ok(*old(from), *old(to), *authority, amount) ==> {
            &&& result == Ok::<(), ErrorCode>(())
            &&& final(from).balance == old(from).balance - amount
            &&& final(to).balance == old(to).balance + amount
        },
        !spec_transfer_ok(*old(from), *old(to), *authority, amount) ==> {
            &&& result == Err::<(), ErrorCode>(ErrorCode::TransferFailed)
            &&& *final(to) == *old(to)
        },
        final(from).owner == old(from).owner,
        final(from).mint == old(from).mint,
        final(to).owner == old(to).owner,
        final(to).mint == old(to).mint,
        !spec_transfer_ok(*old(from), *old(to), *authority, amount) ==> *final(from) == *old(
            from,
        ),
{
    if !identity_eq(&from.owner, authority) {
        return Err(ErrorCode::TransferFailed);
    }
    if !identity_eq(&from.mint, &to.mint) {
        return Err(ErrorCode::TransferFailed);
    }
    if from.balance < amount {
        return Err(ErrorCode::TransferFailed);
    }
    if to.balance > u64::MAX - amount {
        return Err(ErrorCode::TransferFailed);
    }
    from.balance = from.balance - amount;
    to.balance = to.balance + amount;
    Ok(())
}

} // verus!
