use vstd::prelude::*;

verus! {

/// Typed failures of the tokenization core.
///
/// Every failure names the precondition or collaborator check that rejected
/// the operation, and no operation that returns one of these leaves a
/// partial effect behind: the contracts of the operations state that on an
/// error every record and balance is unchanged.
#[derive(Clone, Copy, Debug, PartialEq, Eq, Structural)]
pub enum ErrorCode {
    /// Minting was attempted on an asset whose active flag is false.
    AssetNotActive,
    /// Minting would push the circulating supply past the total supply.
    ExceedsMaxSupply,
    /// A purchase was attempted on a closed listing.
    ListingNotActive,
    /// A purchase asked for more units than the listing still offers.
    InsufficientListingAmount,
    /// Unit price times purchase amount does not fit in 64 bits.
    PriceOverflow,
    /// The buyer's wallet does not hold the full purchase price.
    InsufficientPayment,
    /// The named authority may not move the source token balance.
    NotAuthorized,
    /// The source token account holds fewer units than the transfer moves.
    InsufficientTokens,
}

} // verus!
