//! The contract facade: the mint/burn lifecycle over the token ledger and
//! the storage accounting, the approval surface, and the read-only queries.
//! Every mutating entry point other than mint runs the authorization guard
//! before it validates anything else; mint is instead gated by the owner's
//! storage-rent balance.

use vstd::prelude::*;

use crate::errors::NftError;
use crate::guard::check_deposit;
use crate::guard::deposit_authorizes;
use crate::ledger::spec_is_approved;
use crate::ledger::TokenEntry;
use crate::ledger::TokenLedger;
use crate::ledger::TokenMetadata;
use crate::ledger::TokenView;
use crate::storage::bounds_ok;
use crate::storage::stored_or_zero;
use crate::storage::top_up_ok;
use crate::storage::top_up_result;
use crate::storage::StorageAccounting;
use crate::storage::StorageBalanceBounds;

verus! {

/// The owner a mint resolves to: the explicit argument, else the caller.
pub open spec fn effective_owner(owner_id: Option<u64>, caller: u64) -> u64 {
    match owner_id {
        Some(o) => o,
        None => caller,
    }
}

/// The ledger contract: token records, their approvals, and the per-account
/// storage balances, mutated only through the operations below.
pub struct MyNftContract {
    pub ledger: TokenLedger,
    pub storage: StorageAccounting,
}

impl MyNftContract {
    /// Both components are well formed.
    pub open spec fn wf(self) -> bool {
        &&& self.ledger.wf()
        &&& self.storage.wf()
    }

    /// The approval counter of `id` can still hand out a fresh id.
    pub open spec fn can_grant(self, id: u64) -> bool {
        self.ledger@.contains_key(id) ==> self.ledger@[id].next_approval_id < u64::MAX
    }

    /// A fresh contract: empty ledger, no balances, the given bounds.
    pub fn new(bounds: StorageBalanceBounds) -> (r: MyNftContract)
        requires
            bounds_ok(bounds),
        ensures
            r.wf(),
            r.ledger@ == Map::<u64, TokenView>::empty(),
            r.storage@ == Map::<u64, u128>::empty(),
            r.storage.spec_bounds() == bounds,
    {
        MyNftContract { ledger: TokenLedger::new(), storage: StorageAccounting::new(bounds) }
    }

    /// Mint `token_id` for the explicit owner, defaulting to the caller.
    /// The owner's storage balance is brought up to the minimum from the
    /// attached deposit first; the credit the deposit commits stands even
    /// when the mint itself then collides with an existing id.
    pub fn nft_mint(
        &mut self,
        token_id: u64,
        metadata: TokenMetadata,
        owner_id: Option<u64>,
        caller: u64,
        attached: u128,
    ) -> (r: Result<(), NftError>)
        requires
            old(self).wf(),
        ensures
            final(self).wf(),
            final(self).storage.spec_bounds() == old(self).storage.spec_bounds(),
            !top_up_ok(
                old(self).storage.spec_bounds(),
                old(self).storage@,
                effective_owner(owner_id, caller),
                attached,
            ) ==> r == Err::<(), NftError>(NftError::InsufficientDeposit) && *final(self) == *old(self),
            top_up_ok(
                old(self).storage.spec_bounds(),
                old(self).storage@,
                effective_owner(owner_id, caller),
                attached,
            ) ==> final(self).storage@ == top_up_result(
                old(self).storage.spec_bounds(),
                old(self).storage@,
                effective_owner(owner_id, caller),
                attached,
            ) && stored_or_zero(final(self).storage@, effective_owner(owner_id, caller)) >= old(self).storage.spec_bounds().min,
            top_up_ok(
                old(self).storage.spec_bounds(),
                old(self).storage@,
                effective_owner(owner_id, caller),
                attached,
            ) && old(self).ledger@.contains_key(token_id) ==> r == Err::<(), NftError>(
                NftError::AlreadyExists,
            ) && final(self).ledger@ == old(self).ledger@,
            top_up_ok(
                old(self).storage.spec_bounds(),
                old(self).storage@,
                effective_owner(owner_id, caller),
                attached,
            ) && !old(self).ledger@.contains_key(token_id) ==> r == Ok::<(), NftError>(())
                && final(self).ledger@ == old(self).ledger@.insert(
                token_id,
                (TokenView {
                    owner: effective_owner(owner_id, caller),
                    metadata,
                    approvals: Map::<u64, u64>::empty(),
                    next_approval_id: 0,
                }),
            ),
    {
        let owner = match owner_id {
            Some(o) => o,
            None => caller,
        };
        match self.storage.ensure_min_for(owner, attached) {
            Ok(()) => {}
            Err(e) => {
                return Err(e);
            }
        }
        self.ledger.mint(token_id, owner, metadata)
    }

    /// Burn `token_id`. The call must carry the authorization deposit and
    /// come from the owner; standing approvals give no right to burn. The
    /// storage balance is not refunded: rent is per account, not per token.
    pub fn nft_burn(&mut self, token_id: u64, caller: u64, attached: u128) -> (r: Result<
        (),
        NftError,
    >)
        requires
            old(self).wf(),
        ensures
            final(self).wf(),
            final(self).storage == old(self).storage,
            !deposit_authorizes(attached) ==> r == Err::<(), NftError>(
                NftError::InsufficientDeposit,
            ) && *final(self) == *old(self),
            deposit_authorizes(attached) && !old(self).ledger@.contains_key(token_id) ==> r
                == Err::<(), NftError>(NftError::NotFound) && *final(self) == *old(self),
            deposit_authorizes(attached) && old(self).ledger@.contains_key(token_id) && old(self).ledger@[token_id].owner != caller ==> r == Err::<(), NftError>(NftError::NotOwner)
                && *final(self) == *old(self),
            deposit_authorizes(attached) && old(self).ledger@.contains_key(token_id) && old(self).ledger@[token_id].owner == caller ==> r == Ok::<(), NftError>(()) && final(self).ledger@ == old(self).ledger@.remove(token_id),
    {
        match check_deposit(attached) {
            Ok(()) => {}
            Err(e) => {
                return Err(e);
            }
        }
        self.ledger.burn(token_id, caller)
    }

    /// Approve `account` to transfer `token_id`; owner-only, guarded, and
    /// rejected when `account` already holds a live approval.
    pub fn nft_approve(
        &mut self,
        token_id: u64,
        account: u64,
        caller: u64,
        attached: u128,
    ) -> (r: Result<u64, NftError>)
        requires
            old(self).wf(),
            old(self).can_grant(token_id),
        ensures
            final(self).wf(),
            final(self).storage == old(self).storage,
            !deposit_authorizes(attached) ==> r == Err::<u64, NftError>(
                NftError::InsufficientDeposit,
            ) && *final(self) == *old(self),
            deposit_authorizes(attached) && !old(self).ledger@.contains_key(token_id) ==> r
                == Err::<u64, NftError>(NftError::NotFound) && *final(self) == *old(self),
            deposit_authorizes(attached) && old(self).ledger@.contains_key(token_id) && old(self).ledger@[token_id].owner != caller ==> r == Err::<u64, NftError>(NftError::NotOwner)
                && *final(self) == *old(self),
            deposit_authorizes(attached) && old(self).ledger@.contains_key(token_id) && old(self).ledger@[token_id].owner == caller && old(self).ledger@[token_id].approvals.contains_key(
                account,
            ) ==> r == Err::<u64, NftError>(NftError::AlreadyApproved) && *final(self) == *old(self),
            deposit_authorizes(attached) && old(self).ledger@.contains_key(token_id) && old(self).ledger@[token_id].owner == caller && !old(self).ledger@[token_id].approvals.contains_key(account) ==> r == Ok::<u64, NftError>(
                old(self).ledger@[token_id].next_approval_id,
            ) && final(self).ledger@ == old(self).ledger@.insert(
                token_id,
                (TokenView {
                    owner: caller,
                    metadata: old(self).ledger@[token_id].metadata,
                    approvals: old(self).ledger@[token_id].approvals.insert(
                        account,
                        old(self).ledger@[token_id].next_approval_id,
                    ),
                    next_approval_id: (old(self).ledger@[token_id].next_approval_id + 1) as u64,
                }),
            ),
    {
        match check_deposit(attached) {
            Ok(()) => {}
            Err(e) => {
                return Err(e);
            }
        }
        self.ledger.approve(token_id, account, caller)
    }

    /// Revoke `account`'s approval on `token_id`; owner-only, guarded, and a
    /// successful no-op when no approval stands.
    pub fn nft_revoke(
        &mut self,
        token_id: u64,
        account: u64,
        caller: u64,
        attached: u128,
    ) -> (r: Result<(), NftError>)
        requires
            old(self).wf(),
        ensures
            final(self).wf(),
            final(self).storage == old(self).storage,
            !deposit_authorizes(attached) ==> r == Err::<(), NftError>(
                NftError::InsufficientDeposit,
            ) && *final(self) == *old(self),
            deposit_authorizes(attached) && !old(self).ledger@.contains_key(token_id) ==> r
                == Err::<(), NftError>(NftError::NotFound) && *final(self) == *old(self),
            deposit_authorizes(attached) && old(self).ledger@.contains_key(token_id) && old(self).ledger@[token_id].owner != caller ==> r == Err::<(), NftError>(NftError::NotOwner)
                && *final(self) == *old(self),
            deposit_authorizes(attached) && old(self).ledger@.contains_key(token_id) && old(self).ledger@[token_id].owner == caller ==> r == Ok::<(), NftError>(()) && final(self).ledger@ == old(self).ledger@.insert(
                token_id,
                (TokenView {
                    owner: caller,
                    metadata: old(self).ledger@[token_id].metadata,
                    approvals: old(self).ledger@[token_id].approvals.remove(account),
                    next_approval_id: old(self).ledger@[token_id].next_approval_id,
                }),
            ),
            deposit_authorizes(attached) && old(self).ledger@.contains_key(token_id) && old(self).ledger@[token_id].owner == caller && !old(self).ledger@[token_id].approvals.contains_key(account) ==> final(self).ledger@ == old(self).ledger@,
    {
        match check_deposit(attached) {
            Ok(()) => {}
            Err(e) => {
                return Err(e);
            }
        }
        self.ledger.revoke(token_id, account, caller)
    }

    /// Clear every approval on `token_id`; owner-only and guarded.
    pub fn nft_revoke_all(&mut self, token_id: u64, caller: u64, attached: u128) -> (r: Result<
        (),
        NftError,
    >)
        requires
            old(self).wf(),
        ensures
            final(self).wf(),
            final(self).storage == old(self).storage,
            !deposit_authorizes(attached) ==> r == Err::<(), NftError>(
                NftError::InsufficientDeposit,
            ) && *final(self) == *old(self),
            deposit_authorizes(attached) && !old(self).ledger@.contains_key(token_id) ==> r
                == Err::<(), NftError>(NftError::NotFound) && *final(self) == *old(self),
            deposit_authorizes(attached) && old(self).ledger@.contains_key(token_id) && old(self).ledger@[token_id].owner != caller ==> r == Err::<(), NftError>(NftError::NotOwner)
                && *final(self) == *old(self),
            deposit_authorizes(attached) && old(self).ledger@.contains_key(token_id) && old(self).ledger@[token_id].owner == caller ==> r == Ok::<(), NftError>(()) && final(self).ledger@ == old(self).ledger@.insert(
                token_id,
                (TokenView {
                    owner: caller,
                    metadata: old(self).ledger@[token_id].metadata,
                    approvals: Map::<u64, u64>::empty(),
                    next_approval_id: old(self).ledger@[token_id].next_approval_id,
                }),
            ),
    {
        match check_deposit(attached) {
            Ok(()) => {}
            Err(e) => {
                return Err(e);
            }
        }
        self.ledger.revoke_all(token_id, caller)
    }

    /// Whether `account` holds an approval on `token_id`, optionally under
    /// exactly the given approval id. Never fails on missing data.
    pub fn nft_is_approved(&self, token_id: u64, account: u64, approval_id: Option<u64>) -> (r:
        bool)
        requires
            self.wf(),
        ensures
            r == spec_is_approved(self.ledger@, token_id, account, approval_id),
    {
        self.ledger.is_approved(token_id, account, approval_id)
    }

    /// The record for `token_id`, if any.
    pub fn nft_token(&self, token_id: u64) -> (r: Option<&TokenEntry>)
        requires
            self.wf(),
        ensures
            match r {
                Some(e) => self.ledger@.contains_key(token_id) && e@ == self.ledger@[token_id],
                None => !self.ledger@.contains_key(token_id),
            },
    {
        self.ledger.get(token_id)
    }

    /// How many tokens the ledger holds.
    pub fn nft_total_supply(&self) -> (r: u128)
        ensures
            r == self.ledger@.dom().len(),
            self.ledger@.dom().finite(),
    {
        self.ledger.total_supply() as u128
    }

    /// The storage balance `account` holds, or `None` if it never deposited.
    pub fn storage_balance_of(&self, account: u64) -> (r: Option<u128>)
        ensures
            r == (if self.storage@.contains_key(account) {
                Some(self.storage@[account])
            } else {
                None::<u128>
            }),
    {
        self.storage.balance_of(account)
    }

    /// The configured storage bounds.
    pub fn storage_balance_bounds(&self) -> (r: StorageBalanceBounds)
        ensures
            r == self.storage.spec_bounds(),
    {
        self.storage.bounds()
    }

    /// Whether the approval counter of `token_id` can still hand out an id;
    /// callers check this before `nft_approve`.
    pub fn can_grant_more(&self, token_id: u64) -> (r: bool)
        requires
            self.wf(),
        ensures
            r == self.can_grant(token_id),
    {
        match self.ledger.get(token_id) {
            None => true,
            Some(e) => e.approvals.next_value() < u64::MAX,
        }
    }
}

} // verus!
