use nft_ledger::contract::MyNftContract;
use nft_ledger::errors::NftError;
use nft_ledger::ledger::TokenMetadata;
use nft_ledger::storage::StorageBalanceBounds;

const MIN_BALANCE: u128 = 7000000000000000000000;
const MAX_BALANCE: u128 = 21000000000000000000000;

const TOKEN_ID: u64 = 20;
const ROOT: u64 = 1;
const ALICE: u64 = 2;

fn fresh_contract() -> MyNftContract {
    MyNftContract::new(StorageBalanceBounds { min: MIN_BALANCE, max: Some(MAX_BALANCE) })
}

fn plain_metadata() -> TokenMetadata {
    TokenMetadata {
        title: Some(format!("Title for {TOKEN_ID}")),
        description: Some(format!("Description for {TOKEN_ID}")),
        copies: Some(1),
    }
}

#[test]
fn test_mint_registers_owner_without_storage() {
    let mut contract = fresh_contract();

    let storage_before = contract.storage_balance_of(ALICE);
    assert!(storage_before.is_none());

    contract
        .nft_mint(TOKEN_ID, plain_metadata(), Some(ALICE), ROOT, MAX_BALANCE)
        .expect("mint should succeed");

    let token = contract.nft_token(TOKEN_ID).expect("token should exist");
    assert_eq!(token.owner, ALICE);

    let storage_after = contract
        .storage_balance_of(ALICE)
        .expect("storage should be deposited");

    let bounds = contract.storage_balance_bounds();
    assert!(
        storage_after >= bounds.min,
        "expected storage total {} to be at least {}",
        storage_after,
        bounds.min
    );
}

#[test]
fn test_mint_defaults_owner_to_predecessor() {
    let mut contract = fresh_contract();

    contract
        .nft_mint(TOKEN_ID, plain_metadata(), None, ROOT, MAX_BALANCE)
        .expect("mint should succeed");

    let token = contract.nft_token(TOKEN_ID).expect("token should exist");
    assert_eq!(token.owner, ROOT);
}

#[test]
fn test_mint_rejects_duplicate_id() {
    let mut contract = fresh_contract();

    contract
        .nft_mint(TOKEN_ID, plain_metadata(), Some(ROOT), ROOT, MAX_BALANCE)
        .expect("mint should succeed");
    let res = contract.nft_mint(TOKEN_ID, plain_metadata(), Some(ROOT), ROOT, MAX_BALANCE);
    assert_eq!(res, Err(NftError::AlreadyExists));
    assert_eq!(contract.nft_total_supply(), 1);
}

#[test]
fn test_mint_rejects_underfunded_owner() {
    let mut contract = fresh_contract();

    let res = contract.nft_mint(TOKEN_ID, plain_metadata(), Some(ALICE), ROOT, MIN_BALANCE - 1);
    assert_eq!(res, Err(NftError::InsufficientDeposit));
    assert!(contract.nft_token(TOKEN_ID).is_none());
    assert!(contract.storage_balance_of(ALICE).is_none());
    assert_eq!(contract.nft_total_supply(), 0);
}

#[test]
fn test_mint_deposit_capped_at_max() {
    let mut contract = fresh_contract();

    contract
        .nft_mint(TOKEN_ID, plain_metadata(), Some(ALICE), ROOT, MAX_BALANCE * 4)
        .expect("mint should succeed");
    assert_eq!(contract.storage_balance_of(ALICE), Some(MAX_BALANCE));
}

#[test]
fn test_mint_skips_topup_when_already_funded() {
    let mut contract = fresh_contract();

    contract
        .nft_mint(TOKEN_ID, plain_metadata(), Some(ALICE), ROOT, MIN_BALANCE)
        .expect("mint should succeed");
    assert_eq!(contract.storage_balance_of(ALICE), Some(MIN_BALANCE));

    // the balance already covers the minimum: a second mint for the same
    // owner needs no deposit and credits nothing
    contract
        .nft_mint(TOKEN_ID + 1, plain_metadata(), Some(ALICE), ROOT, 0)
        .expect("mint should succeed");
    assert_eq!(contract.storage_balance_of(ALICE), Some(MIN_BALANCE));
    assert_eq!(contract.nft_total_supply(), 2);
}
