//! Laws that relate several operations, proved once and for all over the
//! same spec views and predicates the operations' own contracts use.

use vstd::prelude::*;

use crate::approvals::grant_ok;
use crate::approvals::revoke_ok;
use crate::approvals::ApprovalsView;
use crate::errors::NftError;
use crate::ledger::spec_is_approved;
use crate::ledger::TokenMetadata;
use crate::ledger::TokenView;
use crate::storage::stored_or_zero;
use crate::storage::top_up_ok;
use crate::storage::top_up_result;
use crate::storage::StorageBalanceBounds;
use crate::transfer::rollback_applied;
use crate::transfer::snapshot_matches;
use crate::transfer::transfer_decision;
use crate::transfer::transfer_updated;
use crate::transfer::PendingTransfer;

verus! {

/// Every account that owns at least one token record holds at least the
/// minimum storage balance.
pub open spec fn owners_covered(
    ledger: Map<u64, TokenView>,
    balances: Map<u64, u128>,
    bounds: StorageBalanceBounds,
) -> bool {
    forall|id: u64|
        #[trigger] ledger.contains_key(id) ==> stored_or_zero(balances, ledger[id].owner)
            >= bounds.min
}

/// Approval ids are handed out in strictly increasing order: a grant made
/// after another on the same token carries a larger id, even when the first
/// grantee was revoked in between. No id is ever reused.
pub proof fn lemma_approval_ids_strictly_increase(
    s0: ApprovalsView,
    s1: ApprovalsView,
    s2: ApprovalsView,
    s3: ApprovalsView,
    first: u64,
    second: u64,
    id_first: u64,
    id_second: u64,
)
    requires
        grant_ok(s0, s1, first, id_first),
        s2 == s1 || revoke_ok(s1, s2, first),
        grant_ok(s2, s3, second, id_second),
    ensures
        id_first < id_second,
{
}

/// Granting an approval and then revoking it leaves the grantee with
/// nothing: a query for it, under any id or none, answers `false`.
pub proof fn lemma_grant_revoke_round_trip(
    s0: ApprovalsView,
    s1: ApprovalsView,
    s2: ApprovalsView,
    account: u64,
    id: u64,
)
    requires
        grant_ok(s0, s1, account, id),
        revoke_ok(s1, s2, account),
    ensures
        !s2.grants.contains_key(account),
{
}

/// After every approval on a token is cleared, no account other than the
/// owner can move it: a transfer attempt by any previously approved account,
/// with any approval id or none, is refused as `NotOwner`, and no approval
/// query for it succeeds.
pub proof fn lemma_revoke_all_blocks_delegates(
    pre: Map<u64, TokenView>,
    post: Map<u64, TokenView>,
    token_id: u64,
    caller: u64,
    approval_id: Option<u64>,
)
    requires
        pre.contains_key(token_id),
        post == pre.insert(
            token_id,
            (TokenView {
                owner: pre[token_id].owner,
                metadata: pre[token_id].metadata,
                approvals: Map::<u64, u64>::empty(),
                next_approval_id: pre[token_id].next_approval_id,
            }),
        ),
        caller != pre[token_id].owner,
    ensures
        transfer_decision(post, token_id, caller, approval_id, 1) == Err::<(), NftError>(
            NftError::NotOwner,
        ),
        !spec_is_approved(post, token_id, caller, approval_id),
{
}

/// A rolled-back transfer restores the ledger exactly: applying the undo
/// record of an optimistic ownership change brings every token, owner,
/// grant and approval id back to where it stood before the transfer.
pub proof fn lemma_rollback_restores_ledger(
    pre: Map<u64, TokenView>,
    mid: Map<u64, TokenView>,
    post: Map<u64, TokenView>,
    token_id: u64,
    receiver: u64,
    p: PendingTransfer,
)
    requires
        transfer_updated(pre, mid, token_id, receiver),
        snapshot_matches(pre, token_id, p),
        rollback_applied(mid, post, p),
    ensures
        post == pre,
{
    assert(post[token_id] == pre[token_id]);
    assert(post =~= pre);
}

/// Minting keeps every owner covered: the effective owner is brought up to
/// the minimum before the record appears, the top-up touches no other
/// account, and every other record keeps its owner.
pub proof fn lemma_mint_preserves_owner_coverage(
    pre_ledger: Map<u64, TokenView>,
    post_ledger: Map<u64, TokenView>,
    pre_balances: Map<u64, u128>,
    post_balances: Map<u64, u128>,
    bounds: StorageBalanceBounds,
    token_id: u64,
    owner: u64,
    metadata: TokenMetadata,
    attached: u128,
)
    requires
        owners_covered(pre_ledger, pre_balances, bounds),
        top_up_ok(bounds, pre_balances, owner, attached),
        post_balances == top_up_result(bounds, pre_balances, owner, attached),
        stored_or_zero(post_balances, owner) >= bounds.min,
        post_ledger == pre_ledger.insert(
            token_id,
            (TokenView {
                owner,
                metadata,
                approvals: Map::<u64, u64>::empty(),
                next_approval_id: 0,
            }),
        ),
    ensures
        owners_covered(post_ledger, post_balances, bounds),
{
    assert forall|id: u64| #[trigger] post_ledger.contains_key(id) implies stored_or_zero(
        post_balances,
        post_ledger[id].owner,
    ) >= bounds.min by {
        if id != token_id && post_ledger[id].owner != owner {
            assert(stored_or_zero(post_balances, post_ledger[id].owner) == stored_or_zero(
                pre_balances,
                pre_ledger[id].owner,
            ));
        }
    }
}

/// Burning keeps every owner covered: a record disappears and no balance
/// moves.
pub proof fn lemma_burn_preserves_owner_coverage(
    pre_ledger: Map<u64, TokenView>,
    post_ledger: Map<u64, TokenView>,
    balances: Map<u64, u128>,
    bounds: StorageBalanceBounds,
    token_id: u64,
)
    requires
        owners_covered(pre_ledger, balances, bounds),
        post_ledger == pre_ledger.remove(token_id),
    ensures
        owners_covered(post_ledger, balances, bounds),
{
}

/// A transfer to a receiver that holds the minimum balance keeps every
/// owner covered. The hypothesis on the receiver is needed: the transfer
/// itself checks authority, not the receiver's storage.
pub proof fn lemma_transfer_preserves_owner_coverage(
    pre_ledger: Map<u64, TokenView>,
    post_ledger: Map<u64, TokenView>,
    balances: Map<u64, u128>,
    bounds: StorageBalanceBounds,
    token_id: u64,
    receiver: u64,
)
    requires
        owners_covered(pre_ledger, balances, bounds),
        transfer_updated(pre_ledger, post_ledger, token_id, receiver),
        stored_or_zero(balances, receiver) >= bounds.min,
    ensures
        owners_covered(post_ledger, balances, bounds),
{
}

} // verus!
