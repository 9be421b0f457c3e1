//! An in-memory model of the two value-moving collaborators: the fungible
//! token ledger (balances of one asset's units) and the payment currency.
//! The registry and the marketplace delegate every value move to these
//! primitives and add no arithmetic of their own.

use vstd::prelude::*;

use crate::errors::ErrorCode;

verus! {

/// Identity of an account, as the ledger and the registry key it.
#[derive(Clone, Copy, Debug, PartialEq, Eq, Structural)]
pub struct AccountId {
    pub id: u64,
}

/// A fungible-token balance: units of one asset held by one owner. Only the
/// owner, acting as transfer authority, may move the balance out.
#[derive(Clone, Copy, Debug, PartialEq, Eq, Structural)]
pub struct TokenAccount {
    pub owner: AccountId,
    pub balance: u64,
}

/// A payment-currency balance, the asset buyers pay with.
#[derive(Clone, Copy, Debug, PartialEq, Eq, Structural)]
pub struct Wallet {
    pub balance: u64,
}

/// Outcome of the token ledger's transfer checks: a transfer fails exactly
/// when the authority is not the source owner, or the source balance is
/// short of the amount.
pub open spec fn token_transfer_check(
    from: TokenAccount,
    authority: AccountId,
    amount: u64,
) -> Option<ErrorCode> {
    if authority != from.owner {
        Some(ErrorCode::NotAuthorized)
    } else if amount > from.balance {
        Some(ErrorCode::InsufficientTokens)
    } else {
        None
    }
}

/// Ledger primitive: create `amount` fresh units in `account`. Who may mint,
/// and for which asset, is decided before this point (the registry checks
/// the supply cap, the runtime checks the mint authority's signature), so
/// the deposit itself cannot fail.
pub fn mint_to(account: &mut TokenAccount, amount: u64)
    requires
        old(account).balance + amount <= u64::MAX,
    ensures
        final(account).owner == old(account).owner,
        final(account).balance == old(account).balance + amount,
{
    account.balance = account.balance + amount;
}

/// Ledger primitive: move `amount` units from `from` to `to`, provided
/// `authority` owns the source account and its balance suffices. On failure
/// neither account changes.
pub fn token_transfer(
    from: &mut TokenAccount,
    to: &mut TokenAccount,
    authority: AccountId,
    amount: u64,
) -> (r: Result<(), ErrorCode>)
    requires
        token_transfer_check(*old(from), authority, amount) is None
            ==> old(to).balance + amount <= u64::MAX,
    ensures
        r is Ok <==> token_transfer_check(*old(from), authority, amount) is None,
        token_transfer_check(*old(from), authority, amount) matches Some(e)
            ==> r == Err::<(), ErrorCode>(e),
        r is Ok ==> final(from).balance == old(from).balance - amount
            && final(to).balance == old(to).balance + amount,
        r is Err ==> *final(from) == *old(from) && *final(to) == *old(to),
        final(from).owner == old(from).owner,
        final(to).owner == old(to).owner,
{
    if authority != from.owner {
        return Err(ErrorCode::NotAuthorized);
    }
    if amount > from.balance {
        return Err(ErrorCode::InsufficientTokens);
    }
    from.balance = from.balance - amount;
    to.balance = to.balance + amount;
    Ok(())
}

/// Payment primitive: move `amount` currency units from `from` to `to`. The
/// payer's consent is the runtime's signature check and is settled before
/// this point, so the move fails exactly when the payer's balance is short;
/// on failure neither wallet changes.
pub fn pay(from: &mut Wallet, to: &mut Wallet, amount: u64) -> (r: Result<(), ErrorCode>)
    requires
        amount <= old(from).balance ==> old(to).balance + amount <= u64::MAX,
    ensures
        r is Ok <==> amount <= old(from).balance,
        r is Err ==> r == Err::<(), ErrorCode>(ErrorCode::InsufficientPayment),
        r is Ok ==> final(from).balance == old(from).balance - amount
            && final(to).balance == old(to).balance + amount,
        r is Err ==> *final(from) == *old(from) && *final(to) == *old(to),
{
    if amount > from.balance {
        return Err(ErrorCode::InsufficientPayment);
    }
    from.balance = from.balance - amount;
    to.balance = to.balance + amount;
    Ok(())
}

} // verus!
