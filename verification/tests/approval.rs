use nft_ledger::contract::MyNftContract;
use nft_ledger::errors::NftError;
use nft_ledger::ledger::TokenMetadata;
use nft_ledger::storage::StorageBalanceBounds;

const MIN_BALANCE: u128 = 7000000000000000000000;
const MAX_BALANCE: u128 = 21000000000000000000000;
const ONE_YOCTO: u128 = 1;

const TOKEN_ID: u64 = 0;
const ROOT: u64 = 1;
const ALICE: u64 = 2;
const TOKEN_RECEIVER: u64 = 3;

fn approval_fixture() -> MyNftContract {
    let mut contract = MyNftContract::new(StorageBalanceBounds {
        min: MIN_BALANCE,
        max: Some(MAX_BALANCE),
    });
    let metadata = TokenMetadata {
        title: Some(format!("Title for {TOKEN_ID}")),
        description: Some(format!("Description for {TOKEN_ID}")),
        copies: Some(1),
    };
    contract
        .nft_mint(TOKEN_ID, metadata, Some(ROOT), ROOT, MAX_BALANCE)
        .expect("mint should succeed");
    contract
}

#[test]
fn test_simple_approve() {
    let mut contract = approval_fixture();

    // root approves alice
    let res = contract.nft_approve(TOKEN_ID, ALICE, ROOT, ONE_YOCTO);
    assert!(res.is_ok());

    // check nft_is_approved, don't provide approval_id
    assert!(contract.nft_is_approved(TOKEN_ID, ALICE, None));

    // check nft_is_approved, with approval_id=0
    assert!(contract.nft_is_approved(TOKEN_ID, ALICE, Some(0)));

    // check nft_is_approved, with approval_id=1
    assert!(!contract.nft_is_approved(TOKEN_ID, ALICE, Some(1)));

    // check nft_is_approved, with approval_id=2
    assert!(!contract.nft_is_approved(TOKEN_ID, ALICE, Some(2)));

    // alice's stored approval id is 0
    assert_eq!(res, Ok(0));

    // can't approve the same account again
    let res = contract.nft_approve(TOKEN_ID, ALICE, ROOT, ONE_YOCTO);
    assert_eq!(res, Err(NftError::AlreadyApproved));

    // approving another account gives a different approval id
    let res = contract.nft_approve(TOKEN_ID, TOKEN_RECEIVER, ROOT, ONE_YOCTO);
    assert_eq!(res, Ok(1));
    assert!(contract.nft_is_approved(TOKEN_ID, TOKEN_RECEIVER, Some(1)));
}

#[test]
fn test_revoke() {
    let mut contract = approval_fixture();

    // root approves alice, then token_receiver
    assert_eq!(contract.nft_approve(TOKEN_ID, ALICE, ROOT, ONE_YOCTO), Ok(0));
    assert_eq!(
        contract.nft_approve(TOKEN_ID, TOKEN_RECEIVER, ROOT, ONE_YOCTO),
        Ok(1)
    );

    // root revokes alice
    assert_eq!(contract.nft_revoke(TOKEN_ID, ALICE, ROOT, ONE_YOCTO), Ok(()));

    // alice is revoked...
    assert!(!contract.nft_is_approved(TOKEN_ID, ALICE, Some(0)));

    // but token_receiver is still approved
    assert!(contract.nft_is_approved(TOKEN_ID, TOKEN_RECEIVER, None));

    // root revokes token_receiver
    assert_eq!(
        contract.nft_revoke(TOKEN_ID, TOKEN_RECEIVER, ROOT, ONE_YOCTO),
        Ok(())
    );

    // alice is still revoked...
    assert!(!contract.nft_is_approved(TOKEN_ID, ALICE, Some(0)));

    // ...and now so is token_receiver
    assert!(!contract.nft_is_approved(TOKEN_ID, TOKEN_RECEIVER, None));

    // alice tries to send it to self under her old approval id and fails
    let res = contract.nft_transfer(ALICE, TOKEN_ID, Some(0), ALICE, ONE_YOCTO, false);
    assert_eq!(res, Err(NftError::NotOwner));
}

#[test]
fn test_revoke_all() {
    let mut contract = approval_fixture();

    // root approves alice, then token_receiver
    assert_eq!(contract.nft_approve(TOKEN_ID, ALICE, ROOT, ONE_YOCTO), Ok(0));
    assert_eq!(
        contract.nft_approve(TOKEN_ID, TOKEN_RECEIVER, ROOT, ONE_YOCTO),
        Ok(1)
    );

    // root revokes all
    assert_eq!(contract.nft_revoke_all(TOKEN_ID, ROOT, ONE_YOCTO), Ok(()));

    // alice is revoked...
    assert!(!contract.nft_is_approved(TOKEN_ID, ALICE, Some(0)));

    // and so is token_receiver
    assert!(!contract.nft_is_approved(TOKEN_ID, TOKEN_RECEIVER, None));

    // alice tries to send it to self and fails
    let res = contract.nft_transfer(ALICE, TOKEN_ID, Some(0), ALICE, ONE_YOCTO, false);
    assert_eq!(res, Err(NftError::NotOwner));

    // so does token_receiver
    let res = contract.nft_transfer(ALICE, TOKEN_ID, Some(1), TOKEN_RECEIVER, ONE_YOCTO, false);
    assert_eq!(res, Err(NftError::NotOwner));
}

#[test]
fn test_revoke_is_idempotent() {
    let mut contract = approval_fixture();

    // revoking an account that holds no approval succeeds as a no-op
    assert_eq!(contract.nft_revoke(TOKEN_ID, ALICE, ROOT, ONE_YOCTO), Ok(()));
    assert!(!contract.nft_is_approved(TOKEN_ID, ALICE, None));
    let token = contract.nft_token(TOKEN_ID).expect("token should exist");
    assert_eq!(token.owner, ROOT);
}

#[test]
fn test_approval_ids_survive_revocation() {
    let mut contract = approval_fixture();

    // the counter never reuses an id, even after the grant it named is gone
    assert_eq!(contract.nft_approve(TOKEN_ID, ALICE, ROOT, ONE_YOCTO), Ok(0));
    assert_eq!(contract.nft_revoke(TOKEN_ID, ALICE, ROOT, ONE_YOCTO), Ok(()));
    assert_eq!(
        contract.nft_approve(TOKEN_ID, TOKEN_RECEIVER, ROOT, ONE_YOCTO),
        Ok(1)
    );
    assert_eq!(contract.nft_approve(TOKEN_ID, ALICE, ROOT, ONE_YOCTO), Ok(2));
}

#[test]
fn test_approve_requires_exact_deposit() {
    let mut contract = approval_fixture();

    assert_eq!(
        contract.nft_approve(TOKEN_ID, ALICE, ROOT, 0),
        Err(NftError::InsufficientDeposit)
    );
    assert_eq!(
        contract.nft_approve(TOKEN_ID, ALICE, ROOT, 2),
        Err(NftError::InsufficientDeposit)
    );
    assert!(!contract.nft_is_approved(TOKEN_ID, ALICE, None));
}

#[test]
fn test_approve_rejects_non_owner_and_missing_token() {
    let mut contract = approval_fixture();

    assert_eq!(
        contract.nft_approve(TOKEN_ID, TOKEN_RECEIVER, ALICE, ONE_YOCTO),
        Err(NftError::NotOwner)
    );
    assert_eq!(
        contract.nft_approve(99, ALICE, ROOT, ONE_YOCTO),
        Err(NftError::NotFound)
    );
}

#[test]
fn test_is_approved_ignores_id_when_none_given() {
    let mut contract = approval_fixture();

    // missing token: false, not an error
    assert!(!contract.nft_is_approved(99, ALICE, None));

    // no entry yet
    assert!(!contract.nft_is_approved(TOKEN_ID, ALICE, None));

    // with an entry, the query without an id is true whatever the id is
    assert_eq!(contract.nft_approve(TOKEN_ID, ALICE, ROOT, ONE_YOCTO), Ok(0));
    assert!(contract.nft_is_approved(TOKEN_ID, ALICE, None));
    assert!(contract.nft_is_approved(TOKEN_ID, ALICE, Some(0)));
    assert!(!contract.nft_is_approved(TOKEN_ID, ALICE, Some(7)));
}
