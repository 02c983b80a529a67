use nft_ledger::contract::MyNftContract;
use nft_ledger::errors::NftError;
use nft_ledger::ledger::TokenMetadata;
use nft_ledger::storage::StorageBalanceBounds;

const MIN_BALANCE: u128 = 7000000000000000000000;
const MAX_BALANCE: u128 = 21000000000000000000000;
const ONE_YOCTO: u128 = 1;

const TOKEN_ID: u64 = 10;
const ROOT: u64 = 1;
const ALICE: u64 = 2;

fn burn_fixture() -> MyNftContract {
    let mut contract = MyNftContract::new(StorageBalanceBounds {
        min: MIN_BALANCE,
        max: Some(MAX_BALANCE),
    });
    let metadata = TokenMetadata {
        title: Some(format!("Title for {TOKEN_ID}")),
        description: Some(format!("Description for {TOKEN_ID}")),
        copies: Some(1),
    };
    contract
        .nft_mint(TOKEN_ID, metadata, Some(ROOT), ROOT, MAX_BALANCE)
        .expect("mint should succeed");
    contract
}

#[test]
fn test_burn_requires_one_yocto() {
    let mut contract = burn_fixture();

    let res = contract.nft_burn(TOKEN_ID, ROOT, 0);
    assert_eq!(res, Err(NftError::InsufficientDeposit));

    assert_eq!(contract.nft_total_supply(), 1);
}

#[test]
fn test_burn_removes_token() {
    let mut contract = burn_fixture();

    let res = contract.nft_burn(TOKEN_ID, ROOT, ONE_YOCTO);
    assert_eq!(res, Ok(()));

    assert_eq!(contract.nft_total_supply(), 0);
    assert!(contract.nft_token(TOKEN_ID).is_none());
}

#[test]
fn test_burn_fails_for_non_owner() {
    let mut contract = burn_fixture();

    let res = contract.nft_burn(TOKEN_ID, ALICE, ONE_YOCTO);
    assert_eq!(res, Err(NftError::NotOwner));

    let token = contract.nft_token(TOKEN_ID).expect("token should remain");
    assert_eq!(token.owner, ROOT);
    assert_eq!(contract.nft_total_supply(), 1);
}

#[test]
fn test_burn_missing_token() {
    let mut contract = burn_fixture();

    let res = contract.nft_burn(99, ROOT, ONE_YOCTO);
    assert_eq!(res, Err(NftError::NotFound));
    assert_eq!(contract.nft_total_supply(), 1);
}

#[test]
fn test_burn_ignores_standing_approvals() {
    let mut contract = burn_fixture();

    // an approved account still may not burn: only the owner may
    assert_eq!(contract.nft_approve(TOKEN_ID, ALICE, ROOT, ONE_YOCTO), Ok(0));
    let res = contract.nft_burn(TOKEN_ID, ALICE, ONE_YOCTO);
    assert_eq!(res, Err(NftError::NotOwner));
    assert!(contract.nft_token(TOKEN_ID).is_some());
}
