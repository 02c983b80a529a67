//! The authoritative token ledger: one record per token id, holding the
//! owner, the metadata, and the token's approval set as a satellite that is
//! created empty at mint and destroyed with the record at burn.

use std::collections::HashMap;

use vstd::prelude::*;

use crate::approvals::ApprovalSet;
use crate::errors::NftError;

verus! {

broadcast use vstd::std_specs::hash::group_hash_axioms;

/// The descriptive fields carried with a token. The ledger stores them at
/// mint and never touches them again; their schema is the caller's concern.
#[derive(Clone, Debug, PartialEq, Eq)]
pub struct TokenMetadata {
    pub title: Option<String>,
    pub description: Option<String>,
    pub copies: Option<u64>,
}

/// Spec view of one token record: its owner, its metadata, its live grants
/// and the next approval id its counter will hand out.
#[verifier::ext_equal]
pub ghost struct TokenView {
    pub owner: u64,
    pub metadata: TokenMetadata,
    pub approvals: Map<u64, u64>,
    pub next_approval_id: u64,
}

/// Whether `account` holds an approval on token `id` in ledger `m`, and,
/// when `approval_id` is given, holds it under exactly that id. A missing
/// token yields `false`.
pub open spec fn spec_is_approved(
    m: Map<u64, TokenView>,
    id: u64,
    account: u64,
    approval_id: Option<u64>,
) -> bool {
    &&& m.contains_key(id)
    &&& m[id].approvals.contains_key(account)
    &&& match approval_id {
        Some(k) => m[id].approvals[account] == k,
        None => true,
    }
}

/// One stored token record with its satellite approval set.
pub struct TokenEntry {
    pub owner: u64,
    pub metadata: TokenMetadata,
    pub approvals: ApprovalSet,
}

impl View for TokenEntry {
    type V = TokenView;

    open spec fn view(&self) -> TokenView {
        TokenView {
            owner: self.owner,
            metadata: self.metadata,
            approvals: self.approvals@.grants,
            next_approval_id: self.approvals@.next,
        }
    }
}

/// The ledger: token records addressed by token id. Each operation touches
/// only the record it names.
pub struct TokenLedger {
    tokens: HashMap<u64, TokenEntry>,
}

impl View for TokenLedger {
    type V = Map<u64, TokenView>;

    closed spec fn view(&self) -> Map<u64, TokenView> {
        self.tokens@.map_values(|e: TokenEntry| e@)
    }
}

proof fn lemma_view_insert(m: Map<u64, TokenEntry>, id: u64, e: TokenEntry)
    ensures
        m.insert(id, e).map_values(|t: TokenEntry| t@) == m.map_values(
            |t: TokenEntry| t@,
        ).insert(id, e@),
{
    assert(m.insert(id, e).map_values(|t: TokenEntry| t@) =~= m.map_values(
        |t: TokenEntry| t@,
    ).insert(id, e@));
}

proof fn lemma_view_remove(m: Map<u64, TokenEntry>, id: u64)
    ensures
        m.remove(id).map_values(|t: TokenEntry| t@) == m.map_values(
            |t: TokenEntry| t@,
        ).remove(id),
{
    assert(m.remove(id).map_values(|t: TokenEntry| t@) =~= m.map_values(
        |t: TokenEntry| t@,
    ).remove(id));
}

impl TokenLedger {
    /// Every stored approval set is well formed.
    pub closed spec fn wf(self) -> bool {
        forall|id: u64|
            #[trigger] self.tokens@.contains_key(id) ==> self.tokens@[id].approvals.wf()
    }

    /// An empty ledger.
    pub fn new() -> (r: TokenLedger)
        ensures
            r.wf(),
            r@ == Map::<u64, TokenView>::empty(),
    {
        let r = TokenLedger { tokens: HashMap::new() };
        proof {
            assert(r@ =~= Map::<u64, TokenView>::empty());
        }
        r
    }

    /// Create `id` owned by `owner` with an empty approval set; a colliding
    /// id leaves the ledger untouched.
    pub fn mint(&mut self, id: u64, owner: u64, metadata: TokenMetadata) -> (r: Result<
        (),
        NftError,
    >)
        requires
            old(self).wf(),
        ensures
            final(self).wf(),
            old(self)@.contains_key(id) ==> r == Err::<(), NftError>(NftError::AlreadyExists)
                && *final(self) == *old(self),
            !old(self)@.contains_key(id) ==> r == Ok::<(), NftError>(()) && final(self)@ == old(self)@.insert(
                id,
                (TokenView {
                    owner,
                    metadata,
                    approvals: Map::<u64, u64>::empty(),
                    next_approval_id: 0,
                }),
            ),
    {
        if self.tokens.contains_key(&id) {
            Err(NftError::AlreadyExists)
        } else {
            let entry = TokenEntry { owner, metadata, approvals: ApprovalSet::new() };
            proof {
                lemma_view_insert(self.tokens@, id, entry);
            }
            self.tokens.insert(id, entry);
            Ok(())
        }
    }

    /// Remove `id` and its whole approval set; only the current owner may.
    pub fn burn(&mut self, id: u64, caller: u64) -> (r: Result<(), NftError>)
        requires
            old(self).wf(),
        ensures
            final(self).wf(),
            !old(self)@.contains_key(id) ==> r == Err::<(), NftError>(NftError::NotFound)
                && *final(self) == *old(self),
            old(self)@.contains_key(id) && old(self)@[id].owner != caller ==> r == Err::<
                (),
                NftError,
            >(NftError::NotOwner) && *final(self) == *old(self),
            old(self)@.contains_key(id) && old(self)@[id].owner == caller ==> r == Ok::<
                (),
                NftError,
            >(()) && final(self)@ == old(self)@.remove(id),
    {
        match self.tokens.get(&id) {
            None => Err(NftError::NotFound),
            Some(e) => {
                if e.owner != caller {
                    Err(NftError::NotOwner)
                } else {
                    proof {
                        lemma_view_remove(self.tokens@, id);
                    }
                    self.tokens.remove(&id);
                    Ok(())
                }
            }
        }
    }

    /// Pure lookup of the record for `id`.
    pub fn get(&self, id: u64) -> (r: Option<&TokenEntry>)
        requires
            self.wf(),
        ensures
            match r {
                Some(e) => self@.contains_key(id) && e@ == self@[id] && e.approvals.wf(),
                None => !self@.contains_key(id),
            },
    {
        self.tokens.get(&id)
    }

    /// How many tokens the ledger holds.
    pub fn total_supply(&self) -> (r: usize)
        ensures
            r == self@.dom().len(),
            self@.dom().finite(),
    {
        proof {
            assert(self@.dom() =~= self.tokens@.dom());
        }
        self.tokens.len()
    }

    /// Reassign `id` to `new_owner`. Approvals are owner-scoped, so the
    /// grants are cleared, while the id counter keeps its place; the previous
    /// owner and the approval set as it stood come back as the undo record.
    pub fn set_owner(&mut self, id: u64, new_owner: u64) -> (r: Result<(u64, ApprovalSet), NftError>)
        requires
            old(self).wf(),
        ensures
            final(self).wf(),
            !old(self)@.contains_key(id) ==> r == Err::<(u64, ApprovalSet), NftError>(
                NftError::NotFound,
            ) && *final(self) == *old(self),
            old(self)@.contains_key(id) ==> (r matches Ok(p) && p.0 == old(self)@[id].owner
                && p.1.wf() && p.1@.grants == old(self)@[id].approvals && p.1@.next == old(self)@[id].next_approval_id) && final(self)@ == old(self)@.insert(
                id,
                (TokenView {
                    owner: new_owner,
                    metadata: old(self)@[id].metadata,
                    approvals: Map::<u64, u64>::empty(),
                    next_approval_id: old(self)@[id].next_approval_id,
                }),
            ),
    {
        if !self.tokens.contains_key(&id) {
            return Err(NftError::NotFound);
        }
        proof {
            lemma_view_remove(self.tokens@, id);
        }
        let entry = match self.tokens.remove(&id) {
            Some(e) => e,
            None => {
                return Err(NftError::NotFound);
            }
        };
        let TokenEntry { owner: prev_owner, metadata, approvals } = entry;
        let fresh = ApprovalSet::cleared_from(approvals.next_value());
        let replacement = TokenEntry { owner: new_owner, metadata, approvals: fresh };
        proof {
            lemma_view_insert(self.tokens@, id, replacement);
            assert(old(self)@.remove(id).insert(id, replacement@) =~= old(self)@.insert(
                id,
                replacement@,
            ));
        }
        self.tokens.insert(id, replacement);
        Ok((prev_owner, approvals))
    }

    /// Put back a previously captured owner and approval set; the undo step
    /// of a rolled-back transfer. Fails only if the token vanished meanwhile.
    pub fn restore(&mut self, id: u64, owner: u64, approvals: ApprovalSet) -> (r: Result<
        (),
        NftError,
    >)
        requires
            old(self).wf(),
            approvals.wf(),
        ensures
            final(self).wf(),
            !old(self)@.contains_key(id) ==> r == Err::<(), NftError>(NftError::NotFound)
                && *final(self) == *old(self),
            old(self)@.contains_key(id) ==> r == Ok::<(), NftError>(()) && final(self)@ == old(self)@.insert(
                id,
                (TokenView {
                    owner,
                    metadata: old(self)@[id].metadata,
                    approvals: approvals@.grants,
                    next_approval_id: approvals@.next,
                }),
            ),
    {
        if !self.tokens.contains_key(&id) {
            return Err(NftError::NotFound);
        }
        proof {
            lemma_view_remove(self.tokens@, id);
        }
        let entry = match self.tokens.remove(&id) {
            Some(e) => e,
            None => {
                return Err(NftError::NotFound);
            }
        };
        let replacement = TokenEntry { owner, metadata: entry.metadata, approvals };
        proof {
            lemma_view_insert(self.tokens@, id, replacement);
            assert(old(self)@.remove(id).insert(id, replacement@) =~= old(self)@.insert(
                id,
                replacement@,
            ));
        }
        self.tokens.insert(id, replacement);
        Ok(())
    }

    /// Owner `caller` grants `account` the right to transfer `id`; the id of
    /// the new grant comes back. Re-approving a live grantee is rejected, so
    /// an old approval id can never be confused with a fresh one.
    pub fn approve(&mut self, id: u64, account: u64, caller: u64) -> (r: Result<u64, NftError>)
        requires
            old(self).wf(),
            old(self)@.contains_key(id) ==> old(self)@[id].next_approval_id < u64::MAX,
        ensures
            final(self).wf(),
            !old(self)@.contains_key(id) ==> r == Err::<u64, NftError>(NftError::NotFound)
                && *final(self) == *old(self),
            old(self)@.contains_key(id) && old(self)@[id].owner != caller ==> r == Err::<
                u64,
                NftError,
            >(NftError::NotOwner) && *final(self) == *old(self),
            old(self)@.contains_key(id) && old(self)@[id].owner == caller && old(self)@[id].approvals.contains_key(account) ==> r == Err::<u64, NftError>(
                NftError::AlreadyApproved,
            ) && *final(self) == *old(self),
            old(self)@.contains_key(id) && old(self)@[id].owner == caller && !old(self)@[id].approvals.contains_key(account) ==> r == Ok::<u64, NftError>(
                old(self)@[id].next_approval_id,
            ) && final(self)@ == old(self)@.insert(
                id,
                (TokenView {
                    owner: caller,
                    metadata: old(self)@[id].metadata,
                    approvals: old(self)@[id].approvals.insert(
                        account,
                        old(self)@[id].next_approval_id,
                    ),
                    next_approval_id: (old(self)@[id].next_approval_id + 1) as u64,
                }),
            ),
    {
        match self.tokens.get(&id) {
            None => {
                return Err(NftError::NotFound);
            }
            Some(e) => {
                if e.owner != caller {
                    return Err(NftError::NotOwner);
                }
                if e.approvals.id_of(account).is_some() {
                    return Err(NftError::AlreadyApproved);
                }
            }
        }
        proof {
            lemma_view_remove(self.tokens@, id);
        }
        let mut entry = match self.tokens.remove(&id) {
            Some(e) => e,
            None => {
                return Err(NftError::NotFound);
            }
        };
        let granted = entry.approvals.grant(account);
        proof {
            lemma_view_insert(self.tokens@, id, entry);
            assert(old(self)@.remove(id).insert(id, entry@) =~= old(self)@.insert(id, entry@));
            assert(entry@ =~= TokenView {
                owner: caller,
                metadata: old(self)@[id].metadata,
                approvals: old(self)@[id].approvals.insert(
                    account,
                    old(self)@[id].next_approval_id,
                ),
                next_approval_id: (old(self)@[id].next_approval_id + 1) as u64,
            });
        }
        self.tokens.insert(id, entry);
        Ok(granted)
    }

    /// Owner `caller` removes `account`'s approval on `id`; revoking an
    /// absent approval succeeds and changes nothing.
    pub fn revoke(&mut self, id: u64, account: u64, caller: u64) -> (r: Result<(), NftError>)
        requires
            old(self).wf(),
        ensures
            final(self).wf(),
            !old(self)@.contains_key(id) ==> r == Err::<(), NftError>(NftError::NotFound)
                && *final(self) == *old(self),
            old(self)@.contains_key(id) && old(self)@[id].owner != caller ==> r == Err::<
                (),
                NftError,
            >(NftError::NotOwner) && *final(self) == *old(self),
            old(self)@.contains_key(id) && old(self)@[id].owner == caller ==> r == Ok::<
                (),
                NftError,
            >(()) && final(self)@ == old(self)@.insert(
                id,
                (TokenView {
                    owner: caller,
                    metadata: old(self)@[id].metadata,
                    approvals: old(self)@[id].approvals.remove(account),
                    next_approval_id: old(self)@[id].next_approval_id,
                }),
            ),
            old(self)@.contains_key(id) && old(self)@[id].owner == caller && !old(self)@[id].approvals.contains_key(account) ==> final(self)@ == old(self)@,
    {
        match self.tokens.get(&id) {
            None => {
                return Err(NftError::NotFound);
            }
            Some(e) => {
                if e.owner != caller {
                    return Err(NftError::NotOwner);
                }
            }
        }
        proof {
            lemma_view_remove(self.tokens@, id);
        }
        let mut entry = match self.tokens.remove(&id) {
            Some(e) => e,
            None => {
                return Err(NftError::NotFound);
            }
        };
        entry.approvals.revoke(account);
        proof {
            lemma_view_insert(self.tokens@, id, entry);
            assert(old(self)@.remove(id).insert(id, entry@) =~= old(self)@.insert(id, entry@));
            if !old(self)@[id].approvals.contains_key(account) {
                assert(entry@ =~= old(self)@[id]);
                assert(old(self)@.insert(id, old(self)@[id]) =~= old(self)@);
            } else {
                assert(entry@ =~= TokenView {
                    owner: caller,
                    metadata: old(self)@[id].metadata,
                    approvals: old(self)@[id].approvals.remove(account),
                    next_approval_id: old(self)@[id].next_approval_id,
                });
            }
        }
        self.tokens.insert(id, entry);
        Ok(())
    }

    /// Owner `caller` clears every approval on `id`; the id counter keeps
    /// its place so revoked ids are never handed out again.
    pub fn revoke_all(&mut self, id: u64, caller: u64) -> (r: Result<(), NftError>)
        requires
            old(self).wf(),
        ensures
            final(self).wf(),
            !old(self)@.contains_key(id) ==> r == Err::<(), NftError>(NftError::NotFound)
                && *final(self) == *old(self),
            old(self)@.contains_key(id) && old(self)@[id].owner != caller ==> r == Err::<
                (),
                NftError,
            >(NftError::NotOwner) && *final(self) == *old(self),
            old(self)@.contains_key(id) && old(self)@[id].owner == caller ==> r == Ok::<
                (),
                NftError,
            >(()) && final(self)@ == old(self)@.insert(
                id,
                (TokenView {
                    owner: caller,
                    metadata: old(self)@[id].metadata,
                    approvals: Map::<u64, u64>::empty(),
                    next_approval_id: old(self)@[id].next_approval_id,
                }),
            ),
    {
        match self.tokens.get(&id) {
            None => {
                return Err(NftError::NotFound);
            }
            Some(e) => {
                if e.owner != caller {
                    return Err(NftError::NotOwner);
                }
            }
        }
        proof {
            lemma_view_remove(self.tokens@, id);
        }
        let mut entry = match self.tokens.remove(&id) {
            Some(e) => e,
            None => {
                return Err(NftError::NotFound);
            }
        };
        entry.approvals.revoke_all();
        proof {
            lemma_view_insert(self.tokens@, id, entry);
            assert(old(self)@.remove(id).insert(id, entry@) =~= old(self)@.insert(id, entry@));
            assert(entry@ =~= TokenView {
                owner: caller,
                metadata: old(self)@[id].metadata,
                approvals: Map::<u64, u64>::empty(),
                next_approval_id: old(self)@[id].next_approval_id,
            });
        }
        self.tokens.insert(id, entry);
        Ok(())
    }

    /// Whether `account` holds an approval on `id`, optionally checking the
    /// stored id exactly. A missing token answers `false`, never an error.
    pub fn is_approved(&self, id: u64, account: u64, approval_id: Option<u64>) -> (r: bool)
        requires
            self.wf(),
        ensures
            r == spec_is_approved(self@, id, account, approval_id),
    {
        match self.get(id) {
            None => false,
            Some(e) => match e.approvals.id_of(account) {
                None => false,
                Some(stored) => match approval_id {
                    None => true,
                    Some(k) => stored == k,
                },
            },
        }
    }
}

} // verus!
