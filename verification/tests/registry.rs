use asset_tokenization::asset::{initialize_asset, mint_asset_tokens, Asset, AssetType};
use asset_tokenization::errors::ErrorCode;
use asset_tokenization::ledger::{AccountId, TokenAccount};

fn owner() -> AccountId {
    AccountId { id: 1 }
}

#[test]
fn initialize_asset_sets_every_field() {
    let asset = initialize_asset(
        owner(),
        String::from("villa-12"),
        AssetType::RealEstate,
        1_000_000,
        String::from("ipfs://villa-12"),
        250_000,
        1_700_000_000,
    );
    assert_eq!(asset.owner, owner());
    assert_eq!(asset.asset_id, "villa-12");
    assert_eq!(asset.asset_type, AssetType::RealEstate);
    assert_eq!(asset.total_supply, 1_000_000);
    assert_eq!(asset.circulating_supply, 0);
    assert_eq!(asset.metadata_uri, "ipfs://villa-12");
    assert_eq!(asset.valuation, 250_000);
    assert!(asset.is_active);
    assert_eq!(asset.created_at, 1_700_000_000);
}

#[test]
fn mint_within_cap_raises_supply_and_balance() {
    let mut asset = initialize_asset(
        owner(),
        String::from("song-7"),
        AssetType::Music,
        1000,
        String::from("uri"),
        10,
        42,
    );
    let mut recipient = TokenAccount { owner: AccountId { id: 2 }, balance: 3 };
    let r = mint_asset_tokens(&mut asset, &mut recipient, 400);
    assert_eq!(r, Ok(()));
    assert_eq!(asset.circulating_supply, 400);
    assert_eq!(recipient.balance, 403);
    assert!(asset.is_active);
}

#[test]
fn mint_past_cap_fails_and_changes_nothing() {
    // Cap 1000: a 400-unit mint succeeds, the following 700-unit mint fails
    // (400 + 700 = 1100 > 1000) and the counter stays at 400.
    let mut asset = initialize_asset(
        owner(),
        String::from("song-7"),
        AssetType::Music,
        1000,
        String::from("uri"),
        10,
        42,
    );
    let mut recipient = TokenAccount { owner: AccountId { id: 2 }, balance: 0 };
    assert_eq!(mint_asset_tokens(&mut asset, &mut recipient, 400), Ok(()));
    let r = mint_asset_tokens(&mut asset, &mut recipient, 700);
    assert_eq!(r, Err(ErrorCode::ExceedsMaxSupply));
    assert_eq!(asset.circulating_supply, 400);
    assert_eq!(recipient.balance, 400);
}

#[test]
fn mint_exactly_to_cap_succeeds_then_one_more_fails() {
    let mut asset = initialize_asset(
        owner(),
        String::from("art-1"),
        AssetType::Art,
        500,
        String::from("uri"),
        9,
        7,
    );
    let mut recipient = TokenAccount { owner: AccountId { id: 2 }, balance: 0 };
    assert_eq!(mint_asset_tokens(&mut asset, &mut recipient, 500), Ok(()));
    assert_eq!(asset.circulating_supply, 500);
    assert_eq!(mint_asset_tokens(&mut asset, &mut recipient, 1), Err(ErrorCode::ExceedsMaxSupply));
    assert_eq!(asset.circulating_supply, 500);
    assert_eq!(recipient.balance, 500);
}

#[test]
fn longest_allowed_identifiers_are_accepted() {
    let asset = initialize_asset(
        owner(),
        "i".repeat(50),
        AssetType::Art,
        10,
        "u".repeat(200),
        0,
        0,
    );
    assert_eq!(asset.asset_id.len(), 50);
    assert_eq!(asset.metadata_uri.len(), 200);
    assert!(asset.is_active);
}

#[test]
fn cap_at_the_integer_limit_can_be_minted_in_one_step() {
    let mut asset = initialize_asset(
        owner(),
        String::from("big"),
        AssetType::Gaming,
        u64::MAX,
        String::from("uri"),
        0,
        0,
    );
    let mut recipient = TokenAccount { owner: AccountId { id: 2 }, balance: 0 };
    assert_eq!(mint_asset_tokens(&mut asset, &mut recipient, u64::MAX), Ok(()));
    assert_eq!(asset.circulating_supply, u64::MAX);
    assert_eq!(recipient.balance, u64::MAX);
    assert_eq!(mint_asset_tokens(&mut asset, &mut recipient, 1), Err(ErrorCode::ExceedsMaxSupply));
    assert_eq!(asset.circulating_supply, u64::MAX);
}

#[test]
fn mint_on_inactive_asset_fails_and_changes_nothing() {
    let mut asset = Asset {
        owner: owner(),
        asset_id: String::from("game-3"),
        asset_type: AssetType::Gaming,
        total_supply: 1000,
        circulating_supply: 10,
        metadata_uri: String::from("uri"),
        valuation: 1,
        is_active: false,
        created_at: 0,
    };
    let mut recipient = TokenAccount { owner: AccountId { id: 2 }, balance: 7 };
    let r = mint_asset_tokens(&mut asset, &mut recipient, 5);
    assert_eq!(r, Err(ErrorCode::AssetNotActive));
    assert_eq!(asset.circulating_supply, 10);
    assert_eq!(recipient.balance, 7);
    assert!(!asset.is_active);
}

#[test]
fn inactive_asset_rejects_even_a_zero_mint() {
    let mut asset = Asset {
        owner: owner(),
        asset_id: String::from("game-3"),
        asset_type: AssetType::Gaming,
        total_supply: 1000,
        circulating_supply: 10,
        metadata_uri: String::from("uri"),
        valuation: 1,
        is_active: false,
        created_at: 0,
    };
    let mut recipient = TokenAccount { owner: AccountId { id: 2 }, balance: 0 };
    assert_eq!(mint_asset_tokens(&mut asset, &mut recipient, 0), Err(ErrorCode::AssetNotActive));
    assert_eq!(asset.circulating_supply, 10);
    assert_eq!(recipient.balance, 0);
}
