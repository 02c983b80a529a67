//! The transfer protocol. A transfer validates authority, reassigns the
//! owner optimistically, and, when the receiver supports the transfer hook,
//! hands back an undo record. The hook's verdict is delivered later through
//! the resolution step: explicit acceptance commits, anything else rolls the
//! mutation back to exactly the pre-transfer state.

use vstd::prelude::*;

use crate::approvals::ApprovalSet;
use crate::contract::MyNftContract;
use crate::errors::NftError;
use crate::guard::check_deposit;
use crate::guard::deposit_authorizes;
use crate::ledger::TokenView;

verus! {

/// The undo record of an in-flight transfer: created immediately before the
/// hook is invoked, consumed exactly once by the resolution step.
#[derive(Debug, PartialEq, Eq)]
pub struct PendingTransfer {
    pub token_id: u64,
    pub previous_owner: u64,
    pub previous_approvals: ApprovalSet,
}

/// What the execution substrate delivers for a pending transfer: the hook
/// accepted, the hook refused, or the verdict never arrived.
#[derive(Clone, Copy, Debug, PartialEq, Eq, Structural)]
pub enum HookVerdict {
    Accepted,
    Rejected,
    Unreachable,
}

/// How a pending transfer ended.
#[derive(Clone, Copy, Debug, PartialEq, Eq, Structural)]
pub enum ResolveStatus {
    /// The ownership change stands and the undo record is discarded.
    Committed,
    /// The pre-transfer state was restored; the cause distinguishes an
    /// explicit refusal from an unreachable hook.
    RolledBack(NftError),
    /// The token vanished while the hook was in flight; nothing was touched
    /// and the caller must surface the violation instead of half-reverting.
    IntegrityViolation,
}

/// The resolution step's outcome, carrying the hook's echo value through
/// unchanged.
#[derive(Debug, PartialEq, Eq)]
pub struct ResolveReceipt {
    pub status: ResolveStatus,
    pub echo: Option<String>,
}

/// The validation verdict of a transfer request against ledger `m`: the
/// guard first, then existence, then authority. A caller who is not the
/// owner needs a live approval, and a supplied approval id must match the
/// stored one exactly.
pub open spec fn transfer_decision(
    m: Map<u64, TokenView>,
    token_id: u64,
    caller: u64,
    approval_id: Option<u64>,
    attached: u128,
) -> Result<(), NftError> {
    if !deposit_authorizes(attached) {
        Err(NftError::InsufficientDeposit)
    } else if !m.contains_key(token_id) {
        Err(NftError::NotFound)
    } else if caller == m[token_id].owner {
        Ok(())
    } else if !m[token_id].approvals.contains_key(caller) {
        Err(NftError::NotOwner)
    } else {
        match approval_id {
            Some(k) => if m[token_id].approvals[caller] != k {
                Err(NftError::ApprovalMismatch)
            } else {
                Ok(())
            },
            None => Ok(()),
        }
    }
}

/// The optimistic mutation: the token now belongs to `receiver`, its grants
/// are cleared, its approval counter keeps its place, everything else
/// stands.
pub open spec fn transfer_updated(
    pre: Map<u64, TokenView>,
    post: Map<u64, TokenView>,
    token_id: u64,
    receiver: u64,
) -> bool {
    &&& pre.contains_key(token_id)
    &&& post == pre.insert(
        token_id,
        (TokenView {
            owner: receiver,
            metadata: pre[token_id].metadata,
            approvals: Map::<u64, u64>::empty(),
            next_approval_id: pre[token_id].next_approval_id,
        }),
    )
}

/// The undo record captures the token's pre-transfer state exactly.
pub open spec fn snapshot_matches(
    pre: Map<u64, TokenView>,
    token_id: u64,
    p: PendingTransfer,
) -> bool {
    &&& p.token_id == token_id
    &&& pre.contains_key(token_id)
    &&& p.previous_owner == pre[token_id].owner
    &&& p.previous_approvals@.grants == pre[token_id].approvals
    &&& p.previous_approvals@.next == pre[token_id].next_approval_id
}

/// The rollback: the undo record is applied in reverse, restoring the
/// previous owner and the previous approval set verbatim, ids included.
pub open spec fn rollback_applied(
    mid: Map<u64, TokenView>,
    post: Map<u64, TokenView>,
    p: PendingTransfer,
) -> bool {
    &&& mid.contains_key(p.token_id)
    &&& post == mid.insert(
        p.token_id,
        (TokenView {
            owner: p.previous_owner,
            metadata: mid[p.token_id].metadata,
            approvals: p.previous_approvals@.grants,
            next_approval_id: p.previous_approvals@.next,
        }),
    )
}

/// The error a failed hook verdict maps to: refusal and non-delivery roll
/// back alike, distinguished only in diagnostics.
pub open spec fn rollback_cause(verdict: HookVerdict) -> NftError {
    match verdict {
        HookVerdict::Rejected => NftError::HookRejected,
        _ => NftError::HookUnreachable,
    }
}

impl MyNftContract {
    /// Transfer `token_id` to `receiver`, authorized by ownership or by a
    /// live approval (whose id, when supplied, must match exactly). The
    /// ownership change is applied at once; when the receiver supports the
    /// transfer hook the undo record comes back and the transfer stays
    /// pending until `nft_resolve_transfer` delivers the verdict.
    pub fn nft_transfer(
        &mut self,
        receiver: u64,
        token_id: u64,
        approval_id: Option<u64>,
        caller: u64,
        attached: u128,
        receiver_hook: bool,
    ) -> (r: Result<Option<PendingTransfer>, NftError>)
        requires
            old(self).wf(),
        ensures
            final(self).wf(),
            final(self).storage == old(self).storage,
            match transfer_decision(old(self).ledger@, token_id, caller, approval_id, attached) {
                Err(e) => r == Err::<Option<PendingTransfer>, NftError>(e) && *final(self) == *old(
                    self,
                ),
                Ok(()) => {
                    &&& transfer_updated(
                        old(self).ledger@,
                        final(self).ledger@,
                        token_id,
                        receiver,
                    )
                    &&& receiver_hook ==> (r matches Ok(Some(p)) && snapshot_matches(
                        old(self).ledger@,
                        token_id,
                        p,
                    ) && p.previous_approvals.wf())
                    &&& !receiver_hook ==> r == Ok::<Option<PendingTransfer>, NftError>(None)
                },
            },
    {
        match check_deposit(attached) {
            Ok(()) => {}
            Err(e) => {
                return Err(e);
            }
        }
        match self.ledger.get(token_id) {
            None => {
                return Err(NftError::NotFound);
            }
            Some(e) => {
                if caller != e.owner {
                    match e.approvals.id_of(caller) {
                        None => {
                            return Err(NftError::NotOwner);
                        }
                        Some(stored) => {
                            match approval_id {
                                Some(k) => {
                                    if stored != k {
                                        return Err(NftError::ApprovalMismatch);
                                    }
                                }
                                None => {}
                            }
                        }
                    }
                }
            }
        }
        match self.ledger.set_owner(token_id, receiver) {
            Err(e) => Err(e),
            Ok((previous_owner, previous_approvals)) => {
                if receiver_hook {
                    Ok(Some(PendingTransfer { token_id, previous_owner, previous_approvals }))
                } else {
                    Ok(None)
                }
            }
        }
    }

    /// Deliver the hook's verdict for a pending transfer, surfacing the
    /// hook's echo value unchanged. Acceptance discards the undo record;
    /// any other verdict restores the pre-transfer state, unless the token
    /// vanished in the meantime, which is an integrity violation and mutates
    /// nothing.
    pub fn nft_resolve_transfer(
        &mut self,
        pending: PendingTransfer,
        verdict: HookVerdict,
        echo: Option<String>,
    ) -> (r: ResolveReceipt)
        requires
            old(self).wf(),
            pending.previous_approvals.wf(),
        ensures
            final(self).wf(),
            final(self).storage == old(self).storage,
            r.echo == echo,
            verdict == HookVerdict::Accepted ==> *final(self) == *old(self) && r.status
                == ResolveStatus::Committed,
            verdict != HookVerdict::Accepted && !old(self).ledger@.contains_key(pending.token_id)
                ==> *final(self) == *old(self) && r.status == ResolveStatus::IntegrityViolation,
            verdict != HookVerdict::Accepted && old(self).ledger@.contains_key(pending.token_id)
                ==> rollback_applied(old(self).ledger@, final(self).ledger@, pending) && r.status
                == ResolveStatus::RolledBack(rollback_cause(verdict)),
    {
        match verdict {
            HookVerdict::Accepted => ResolveReceipt { status: ResolveStatus::Committed, echo },
            _ => {
                let cause = match verdict {
                    HookVerdict::Rejected => NftError::HookRejected,
                    _ => NftError::HookUnreachable,
                };
                let PendingTransfer { token_id, previous_owner, previous_approvals } = pending;
                match self.ledger.restore(token_id, previous_owner, previous_approvals) {
                    Ok(()) => ResolveReceipt { status: ResolveStatus::RolledBack(cause), echo },
                    Err(_) => ResolveReceipt { status: ResolveStatus::IntegrityViolation, echo },
                }
            }
        }
    }
}

} // verus!
