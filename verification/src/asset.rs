//! The asset registry: the record of one tokenizable thing, its creation,
//! and supply-capped minting against it.

use vstd::prelude::*;

use crate::errors::ErrorCode;
use crate::ledger::{mint_to, AccountId, TokenAccount};

verus! {

/// Longest allowed asset identifier, in characters.
pub const MAX_ASSET_ID_LEN: usize = 50;

/// Longest allowed metadata pointer, in characters.
pub const MAX_METADATA_URI_LEN: usize = 200;

/// The closed set of asset categories. Purely descriptive today: no rule of
/// the core branches on the category.
#[derive(Clone, Copy, Debug, PartialEq, Eq, Structural)]
pub enum AssetType {
    RealEstate,
    Art,
    Music,
    Gaming,
}

/// One tokenizable thing: a fixed maximum supply, the running count of units
/// minted so far, and descriptive metadata. Only minting mutates the record,
/// and only while `is_active` holds.
#[derive(Clone, Debug)]
pub struct Asset {
    /// Identity of the account that registered the asset; set once.
    pub owner: AccountId,
    /// Short human-readable identifier, at most `MAX_ASSET_ID_LEN` characters.
    pub asset_id: String,
    /// Descriptive category.
    pub asset_type: AssetType,
    /// Maximum mintable units, fixed at creation.
    pub total_supply: u64,
    /// Units minted so far; never exceeds `total_supply`.
    pub circulating_supply: u64,
    /// Pointer to off-system descriptive data, at most
    /// `MAX_METADATA_URI_LEN` characters; opaque to the core.
    pub metadata_uri: String,
    /// Informational price reference; not enforced against trades.
    pub valuation: u64,
    /// Once false, no further minting is permitted.
    pub is_active: bool,
    /// Creation timestamp, immutable.
    pub created_at: i64,
}

impl Asset {
    /// Well-formedness: the supply cap and the string bounds.
    pub open spec fn wf(&self) -> bool {
        &&& self.circulating_supply <= self.total_supply
        &&& self.asset_id@.len() <= MAX_ASSET_ID_LEN
        &&& self.metadata_uri@.len() <= MAX_METADATA_URI_LEN
    }
}

/// Outcome of the checks guarding a mint of `amount` units: it fails exactly
/// when the asset is inactive, or the new circulating supply would pass the
/// total supply (an overflowing addition counts as passing it).
pub open spec fn mint_check(asset: Asset, amount: u64) -> Option<ErrorCode> {
    if !asset.is_active {
        Some(ErrorCode::AssetNotActive)
    } else if asset.circulating_supply + amount > asset.total_supply {
        Some(ErrorCode::ExceedsMaxSupply)
    } else {
        None
    }
}

/// The asset record after a successful mint: only the circulating supply
/// moves.
pub open spec fn asset_after_mint(asset: Asset, amount: u64) -> Asset {
    Asset { circulating_supply: (asset.circulating_supply + amount) as u64, ..asset }
}

/// Create a new asset record: no units circulating yet, active, owned by its
/// registrant. The creation timestamp comes from the host clock and is
/// passed in. Whether `asset_id` collides with an existing record is the
/// storage collaborator's concern, not checked here.
pub fn initialize_asset(
    owner: AccountId,
    asset_id: String,
    asset_type: AssetType,
    total_supply: u64,
    metadata_uri: String,
    valuation: u64,
    created_at: i64,
) -> (asset: Asset)
    requires
        asset_id@.len() <= MAX_ASSET_ID_LEN,
        metadata_uri@.len() <= MAX_METADATA_URI_LEN,
    ensures
        asset.owner == owner,
        asset.asset_id == asset_id,
        asset.asset_type == asset_type,
        asset.total_supply == total_supply,
        asset.circulating_supply == 0,
        asset.metadata_uri == metadata_uri,
        asset.valuation == valuation,
        asset.is_active,
        asset.created_at == created_at,
        asset.wf(),
{
    Asset {
        owner,
        asset_id,
        asset_type,
        total_supply,
        circulating_supply: 0,
        metadata_uri,
        valuation,
        is_active: true,
        created_at,
    }
}

/// Mint `amount` units of `asset` into `recipient`.
///
/// Fails with `AssetNotActive` on an inactive asset and with
/// `ExceedsMaxSupply` when the mint would pass the supply cap; on failure
/// neither the asset record nor the recipient's balance changes. On success
/// the supply counter and the recipient's ledger balance rise together by
/// `amount`, one atomic step: the checks all run before either mutation.
pub fn mint_asset_tokens(
    asset: &mut Asset,
    recipient: &mut TokenAccount,
    amount: u64,
) -> (r: Result<(), ErrorCode>)
    requires
        old(asset).wf(),
        mint_check(*old(asset), amount) is None
            ==> old(recipient).balance + amount <= u64::MAX,
    ensures
        r is Ok <==> mint_check(*old(asset), amount) is None,
        mint_check(*old(asset), amount) matches Some(e) ==> r == Err::<(), ErrorCode>(e),
        r is Ok ==> *final(asset) == asset_after_mint(*old(asset), amount)
            && final(recipient).balance == old(recipient).balance + amount,
        r is Err ==> *final(asset) == *old(asset) && *final(recipient) == *old(recipient),
        final(recipient).owner == old(recipient).owner,
        final(asset).wf(),
{
    if !asset.is_active {
        return Err(ErrorCode::AssetNotActive);
    }
    if amount > asset.total_supply - asset.circulating_supply {
        return Err(ErrorCode::ExceedsMaxSupply);
    }
    mint_to(recipient, amount);
    asset.circulating_supply = asset.circulating_supply + amount;
    Ok(())
}

/// The asset state after a sequence of mint attempts: each attempt applies
/// exactly when its checks pass, and leaves the record unchanged otherwise.
pub open spec fn run_mints(asset: Asset, amounts: Seq<u64>) -> Asset
    decreases amounts.len(),
{
    if amounts.len() == 0 {
        asset
    } else {
        let next = if mint_check(asset, amounts[0]) is None {
            asset_after_mint(asset, amounts[0])
        } else {
            asset
        };
        run_mints(next, amounts.drop_first())
    }
}

/// Law: over every sequence of mint attempts on a well-formed asset, the
/// circulating supply never exceeds the total supply; a rejected attempt
/// leaves the record as it was, and neither the cap nor the identity fields
/// ever move.
pub proof fn lemma_supply_cap_holds(asset: Asset, amounts: Seq<u64>)
    requires
        asset.wf(),
    ensures
        run_mints(asset, amounts).wf(),
        run_mints(asset, amounts).total_supply == asset.total_supply,
        run_mints(asset, amounts).circulating_supply <= asset.total_supply,
    decreases amounts.len(),
{
    if amounts.len() != 0 {
        let next = if mint_check(asset, amounts[0]) is None {
            asset_after_mint(asset, amounts[0])
        } else {
            asset
        };
        assert(next.wf());
        lemma_supply_cap_holds(next, amounts.drop_first());
    }
}

} // verus!
