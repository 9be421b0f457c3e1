//! Settlement: direct token transfers and the atomic two-leg purchase that
//! exchanges payment currency for asset tokens against a listing.

use vstd::prelude::*;

use crate::errors::ErrorCode;
use crate::ledger::{pay, token_transfer, token_transfer_check, AccountId, TokenAccount, Wallet};
use crate::listing::Listing;

verus! {

/// Direct token transfer between two accounts: forwards to the ledger's
/// transfer primitive and adds no rule of its own — the ledger alone decides
/// whether `authority` may move the source balance, and whether it suffices.
pub fn transfer_asset_tokens(
    from: &mut TokenAccount,
    to: &mut TokenAccount,
    authority: AccountId,
    amount: u64,
) -> (r: Result<(), ErrorCode>)
    requires
        token_transfer_check(*old(from), authority, amount) is None
            ==> old(to).balance + amount <= u64::MAX,
    ensures
        r is Ok <==> token_transfer_check(*old(from), authority, amount) is None,
        token_transfer_check(*old(from), authority, amount) matches Some(e)
            ==> r == Err::<(), ErrorCode>(e),
        r is Ok ==> final(from).balance == old(from).balance - amount
            && final(to).balance == old(to).balance + amount,
        r is Err ==> *final(from) == *old(from) && *final(to) == *old(to),
        final(from).owner == old(from).owner,
        final(to).owner == old(to).owner,
{
    token_transfer(from, to, authority, amount)
}

/// The full purchase price of `amount` units at the listing's unit price, as
/// an unbounded integer.
pub open spec fn purchase_total(listing: Listing, amount: u64) -> int {
    listing.price * amount
}

/// Outcome of the checks guarding a purchase, in the order the legs run:
/// listing state, remaining amount, price arithmetic, the payment leg
/// against the buyer's funds, then the token leg against the seller's token
/// account (whose authority must be the listing's seller).
pub open spec fn purchase_check(
    listing: Listing,
    buyer_funds: u64,
    seller_tokens: TokenAccount,
    amount: u64,
) -> Option<ErrorCode> {
    if !listing.is_active {
        Some(ErrorCode::ListingNotActive)
    } else if amount > listing.amount {
        Some(ErrorCode::InsufficientListingAmount)
    } else if purchase_total(listing, amount) > u64::MAX {
        Some(ErrorCode::PriceOverflow)
    } else if purchase_total(listing, amount) > buyer_funds {
        Some(ErrorCode::InsufficientPayment)
    } else {
        token_transfer_check(seller_tokens, listing.seller, amount)
    }
}

/// The listing after a successful purchase of `amount` units: the units
/// leave, the other fields stay, and the listing closes exactly when it is
/// depleted.
pub open spec fn listing_after_purchase(listing: Listing, amount: u64) -> Listing {
    Listing {
        amount: (listing.amount - amount) as u64,
        is_active: listing.amount != amount,
        ..listing
    }
}

/// Buy `amount` units from `listing`: the buyer pays `price * amount`
/// currency units to the seller's wallet, the seller's token account hands
/// `amount` units to the buyer's, and the listing is decremented, closing
/// when it reaches zero.
///
/// The two legs are all-or-nothing. The payment leg runs first; if the token
/// leg then fails, the already-moved payment is compensated before the error
/// propagates, so a failed purchase leaves every wallet, token account and
/// the listing exactly as they were.
pub fn purchase_from_listing(
    listing: &mut Listing,
    buyer: &mut Wallet,
    seller: &mut Wallet,
    seller_tokens: &mut TokenAccount,
    buyer_tokens: &mut TokenAccount,
    amount: u64,
) -> (r: Result<(), ErrorCode>)
    requires
        old(listing).is_active && amount <= old(listing).amount
            && purchase_total(*old(listing), amount) <= u64::MAX
            && purchase_total(*old(listing), amount) <= old(buyer).balance
            ==> old(seller).balance + purchase_total(*old(listing), amount) <= u64::MAX,
        purchase_check(*old(listing), old(buyer).balance, *old(seller_tokens), amount) is None
            ==> old(buyer_tokens).balance + amount <= u64::MAX,
    ensures
        r is Ok <==> purchase_check(
            *old(listing),
            old(buyer).balance,
            *old(seller_tokens),
            amount,
        ) is None,
        purchase_check(*old(listing), old(buyer).balance, *old(seller_tokens), amount)
            matches Some(e) ==> r == Err::<(), ErrorCode>(e),
        r is Ok ==> *final(listing) == listing_after_purchase(*old(listing), amount)
            && final(buyer).balance
                == old(buyer).balance - purchase_total(*old(listing), amount)
            && final(seller).balance
                == old(seller).balance + purchase_total(*old(listing), amount)
            && final(seller_tokens).balance == old(seller_tokens).balance - amount
            && final(buyer_tokens).balance == old(buyer_tokens).balance + amount,
        r is Err ==> *final(listing) == *old(listing)
            && *final(buyer) == *old(buyer)
            && *final(seller) == *old(seller)
            && *final(seller_tokens) == *old(seller_tokens)
            && *final(buyer_tokens) == *old(buyer_tokens),
        final(seller_tokens).owner == old(seller_tokens).owner,
        final(buyer_tokens).owner == old(buyer_tokens).owner,
{
    if !listing.is_active {
        return Err(ErrorCode::ListingNotActive);
    }
    if amount > listing.amount {
        return Err(ErrorCode::InsufficientListingAmount);
    }
    let total: u64 = match listing.price.checked_mul(amount) {
        Some(t) => t,
        None => {
            return Err(ErrorCode::PriceOverflow);
        },
    };
    // Payment leg: currency moves from the buyer to the seller.
    match pay(buyer, seller, total) {
        Ok(()) => {},
        Err(e) => {
            return Err(e);
        },
    }
    // Token leg: asset units move from the seller's token account to the
    // buyer's, with the listing's seller as the transfer authority.
    match token_transfer(seller_tokens, buyer_tokens, listing.seller, amount) {
        Ok(()) => {},
        Err(e) => {
            // Compensate the already-settled payment leg, so the purchase
            // stays all-or-nothing.
            seller.balance = seller.balance - total;
            buyer.balance = buyer.balance + total;
            return Err(e);
        },
    }
    listing.amount = listing.amount - amount;
    if listing.amount == 0 {
        listing.is_active = false;
    }
    Ok(())
}

/// Law: a purchase that takes the listing's entire remaining amount closes
/// it, and every later purchase attempt on the closed listing fails with
/// `ListingNotActive`, whatever amount or balances come with it.
pub proof fn lemma_depleted_listing_closes(
    listing: Listing,
    buyer_funds: u64,
    seller_tokens: TokenAccount,
    amount: u64,
)
    requires
        purchase_check(listing, buyer_funds, seller_tokens, amount) is None,
        amount == listing.amount,
    ensures
        !listing_after_purchase(listing, amount).is_active,
        listing_after_purchase(listing, amount).amount == 0,
        forall|funds: u64, tokens: TokenAccount, later: u64|
            purchase_check(listing_after_purchase(listing, amount), funds, tokens, later)
                == Some(ErrorCode::ListingNotActive),
{
}

/// Law: an inactive listing rejects every purchase attempt with
/// `ListingNotActive`. Joined with the purchase contract, which leaves every
/// record unchanged on failure, repeated attempts on such a listing never
/// mutate anything.
pub proof fn lemma_inactive_listing_rejects(listing: Listing)
    requires
        !listing.is_active,
    ensures
        forall|funds: u64, tokens: TokenAccount, amount: u64|
            purchase_check(listing, funds, tokens, amount)
                == Some(ErrorCode::ListingNotActive),
{
}

} // verus!
