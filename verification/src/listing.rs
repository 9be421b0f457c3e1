//! The listing engine: a seller's open offer to sell a bounded quantity of
//! an asset's tokens at a fixed unit price.

use vstd::prelude::*;

use crate::ledger::AccountId;

verus! {

/// An open offer to sell `amount` units of the referenced asset at `price`
/// currency units each. Purchases decrement `amount`; when it reaches zero
/// the listing closes (`is_active` becomes false) and never reopens.
#[derive(Clone, Copy, Debug, PartialEq, Eq, Structural)]
pub struct Listing {
    /// Who offers the tokens and receives the payment.
    pub seller: AccountId,
    /// Non-owning reference to the asset whose tokens are on offer.
    pub asset: AccountId,
    /// Fixed unit price, in currency units.
    pub price: u64,
    /// Remaining sellable units.
    pub amount: u64,
    /// False once the listing is depleted; a closed listing rejects every
    /// purchase.
    pub is_active: bool,
    /// Creation timestamp, immutable.
    pub created_at: i64,
}

/// Create a listing. Deliberately, nothing checks that the seller actually
/// holds `amount` tokens: creation is a pure data entry, and oversubscription
/// surfaces only at purchase time, when the token ledger refuses the
/// transfer (lazy validation). The creation timestamp comes from the host
/// clock and is passed in.
pub fn create_listing(
    seller: AccountId,
    asset: AccountId,
    price: u64,
    amount: u64,
    created_at: i64,
) -> (listing: Listing)
    ensures
        listing.seller == seller,
        listing.asset == asset,
        listing.price == price,
        listing.amount == amount,
        listing.is_active,
        listing.created_at == created_at,
{
    Listing { seller, asset, price, amount, is_active: true, created_at }
}

} // verus!
