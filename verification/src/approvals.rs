//! Per-token approval sets: which accounts may transfer a token on its
//! owner's behalf, each grant tagged with an id drawn from a per-token
//! counter that never resets and never hands out the same value twice.

use vstd::prelude::*;

verus! {

/// One grant: `account` may transfer the token; `id` identifies this grant
/// instance so stale authority can be told from live authority.
#[derive(Clone, Copy, Debug, PartialEq, Eq, Structural)]
pub struct Approval {
    pub account: u64,
    pub id: u64,
}

/// Spec view of an approval set: the live grants (account to approval id)
/// and the next id the counter will hand out.
#[verifier::ext_equal]
pub ghost struct ApprovalsView {
    pub grants: Map<u64, u64>,
    pub next: u64,
}

/// The grant map recorded by a sequence of approval entries. Later entries
/// would shadow earlier ones; well-formed sets hold each account once, so
/// nothing is ever shadowed.
pub open spec fn grants_of(entries: Seq<Approval>) -> Map<u64, u64>
    decreases entries.len(),
{
    if entries.len() == 0 {
        Map::<u64, u64>::empty()
    } else {
        grants_of(entries.drop_last()).insert(entries.last().account, entries.last().id)
    }
}

/// No account appears twice.
pub open spec fn distinct_accounts(entries: Seq<Approval>) -> bool {
    forall|i: int, j: int|
        0 <= i < j < entries.len() ==> #[trigger] entries[i].account != #[trigger] entries[j].account
}

/// Every recorded id was drawn before the counter reached `bound`.
pub open spec fn ids_below(entries: Seq<Approval>, bound: u64) -> bool {
    forall|i: int| 0 <= i < entries.len() ==> (#[trigger] entries[i]).id < bound
}

/// A successful grant: `account` held nothing, receives id `pre.next`, and
/// the counter moves past it.
pub open spec fn grant_ok(pre: ApprovalsView, post: ApprovalsView, account: u64, id: u64) -> bool {
    &&& !pre.grants.contains_key(account)
    &&& id == pre.next
    &&& post.grants == pre.grants.insert(account, id)
    &&& post.next == pre.next + 1
}

/// A revocation: `account`'s grant (if any) is gone, the counter stands.
pub open spec fn revoke_ok(pre: ApprovalsView, post: ApprovalsView, account: u64) -> bool {
    &&& post.grants == pre.grants.remove(account)
    &&& post.next == pre.next
}

/// Clearing the set: every grant is gone, the counter stands.
pub open spec fn revoke_all_ok(pre: ApprovalsView, post: ApprovalsView) -> bool {
    &&& post.grants == Map::<u64, u64>::empty()
    &&& post.next == pre.next
}

/// The approval set of one token. The entries are kept distinct by account;
/// `next_id` only ever grows, so no approval id is ever reused.
#[derive(Debug, PartialEq, Eq)]
pub struct ApprovalSet {
    entries: Vec<Approval>,
    next_id: u64,
}

impl View for ApprovalSet {
    type V = ApprovalsView;

    closed spec fn view(&self) -> ApprovalsView {
        ApprovalsView { grants: grants_of(self.entries@), next: self.next_id }
    }
}

proof fn lemma_grants_membership(entries: Seq<Approval>)
    ensures
        forall|a: u64|
            #[trigger] grants_of(entries).contains_key(a) <==> exists|i: int|
                0 <= i < entries.len() && (#[trigger] entries[i]).account == a,
    decreases entries.len(),
{
    if entries.len() > 0 {
        lemma_grants_membership(entries.drop_last());
        assert forall|a: u64| #[trigger] grants_of(entries).contains_key(a) implies exists|i: int|
            0 <= i < entries.len() && (#[trigger] entries[i]).account == a by {
            if a == entries.last().account {
                assert((entries[entries.len() - 1]).account == a);
            } else {
                assert(grants_of(entries.drop_last()).contains_key(a));
                let i = choose|i: int|
                    0 <= i < entries.drop_last().len() && (#[trigger] entries.drop_last()[i]).account == a;
                assert((entries[i]).account == a);
            }
        }
        assert forall|a: u64|
            (exists|i: int| 0 <= i < entries.len() && (#[trigger] entries[i]).account == a)
            implies #[trigger] grants_of(entries).contains_key(a) by {
            let i = choose|i: int| 0 <= i < entries.len() && (entries[i]).account == a;
            if i < entries.len() - 1 {
                assert((entries.drop_last()[i]).account == a);
                assert(grants_of(entries.drop_last()).contains_key(a));
            } else {
                assert(a == entries.last().account);
            }
        }
    }
}

proof fn lemma_grants_values(entries: Seq<Approval>)
    requires
        distinct_accounts(entries),
    ensures
        forall|i: int|
            0 <= i < entries.len() ==> {
                &&& grants_of(entries).contains_key((#[trigger] entries[i]).account)
                &&& grants_of(entries)[entries[i].account] == entries[i].id
            },
    decreases entries.len(),
{
    if entries.len() > 0 {
        lemma_grants_values(entries.drop_last());
        lemma_grants_membership(entries.drop_last());
        assert forall|i: int| 0 <= i < entries.len() implies {
            &&& grants_of(entries).contains_key((#[trigger] entries[i]).account)
            &&& grants_of(entries)[entries[i].account] == entries[i].id
        } by {
            if i < entries.len() - 1 {
                assert((entries.drop_last()[i]).account == entries[i].account);
                assert(entries[i].account != entries.last().account);
            }
        }
    }
}

proof fn lemma_grants_remove(entries: Seq<Approval>, i: int)
    requires
        distinct_accounts(entries),
        0 <= i < entries.len(),
    ensures
        grants_of(entries.remove(i)) == grants_of(entries).remove(entries[i].account),
    decreases entries.len(),
{
    lemma_grants_membership(entries.drop_last());
    if i == entries.len() - 1 {
        assert(entries.remove(i) =~= entries.drop_last());
        assert(!grants_of(entries.drop_last()).contains_key(entries.last().account));
        assert(grants_of(entries.drop_last()).insert(entries.last().account, entries.last().id)
            .remove(entries.last().account) =~= grants_of(entries.drop_last()));
    } else {
        let r = entries.remove(i);
        assert(r.len() == entries.len() - 1);
        assert(r.last() == entries.last());
        assert(r.drop_last() =~= entries.drop_last().remove(i));
        lemma_grants_remove(entries.drop_last(), i);
        let a = entries[i].account;
        assert(entries.drop_last()[i] == entries[i]);
        assert(a != entries.last().account);
        assert(grants_of(r) == grants_of(entries.drop_last()).remove(a).insert(
            entries.last().account,
            entries.last().id,
        ));
        assert(grants_of(entries.drop_last()).remove(a).insert(
            entries.last().account,
            entries.last().id,
        ) =~= grants_of(entries.drop_last()).insert(
            entries.last().account,
            entries.last().id,
        ).remove(a));
    }
}

proof fn lemma_grants_len(entries: Seq<Approval>)
    requires
        distinct_accounts(entries),
    ensures
        grants_of(entries).dom().finite(),
        grants_of(entries).dom().len() == entries.len(),
    decreases entries.len(),
{
    if entries.len() > 0 {
        lemma_grants_len(entries.drop_last());
        lemma_grants_membership(entries.drop_last());
        assert(!grants_of(entries.drop_last()).contains_key(entries.last().account));
        assert(grants_of(entries).dom() =~= grants_of(entries.drop_last()).dom().insert(
            entries.last().account,
        ));
    }
}

impl ApprovalSet {
    /// Entries name each account once and every id lies below the counter.
    pub closed spec fn wf(self) -> bool {
        &&& distinct_accounts(self.entries@)
        &&& ids_below(self.entries@, self.next_id)
    }

    /// An empty set whose counter starts at zero.
    pub fn new() -> (r: ApprovalSet)
        ensures
            r.wf(),
            r@.grants == Map::<u64, u64>::empty(),
            r@.next == 0,
    {
        ApprovalSet { entries: Vec::new(), next_id: 0 }
    }

    /// An empty set whose counter resumes at `next`; used when a token
    /// changes owner and its grants are cleared but the counter must not
    /// rewind.
    pub fn cleared_from(next: u64) -> (r: ApprovalSet)
        ensures
            r.wf(),
            r@.grants == Map::<u64, u64>::empty(),
            r@.next == next,
    {
        ApprovalSet { entries: Vec::new(), next_id: next }
    }

    /// The counter's next value.
    pub fn next_value(&self) -> (r: u64)
        ensures
            r == self@.next,
    {
        self.next_id
    }

    fn find(&self, account: u64) -> (r: Option<usize>)
        ensures
            match r {
                Some(i) => i < self.entries@.len() && self.entries@[i as int].account == account,
                None => forall|i: int|
                    0 <= i < self.entries@.len() ==> (#[trigger] self.entries@[i]).account != account,
            },
    {
        let mut k: usize = 0;
        while k < self.entries.len()
            invariant
                k <= self.entries@.len(),
                forall|i: int| 0 <= i < k ==> (#[trigger] self.entries@[i]).account != account,
            decreases self.entries@.len() - k,
        {
            if self.entries[k].account == account {
                return Some(k);
            }
            k = k + 1;
        }
        None
    }

    /// The approval id `account` holds, if it holds one.
    pub fn id_of(&self, account: u64) -> (r: Option<u64>)
        requires
            self.wf(),
        ensures
            r == (if self@.grants.contains_key(account) {
                Some(self@.grants[account])
            } else {
                None::<u64>
            }),
    {
        proof {
            lemma_grants_membership(self.entries@);
            lemma_grants_values(self.entries@);
        }
        match self.find(account) {
            Some(i) => Some(self.entries[i].id),
            None => None,
        }
    }

    /// How many grants are live.
    pub fn count(&self) -> (r: usize)
        requires
            self.wf(),
        ensures
            r == self@.grants.dom().len(),
            self@.grants.dom().finite(),
    {
        proof {
            lemma_grants_len(self.entries@);
        }
        self.entries.len()
    }

    /// Record a grant for `account` and hand out the next id. The caller
    /// settles beforehand that `account` holds nothing yet.
    pub fn grant(&mut self, account: u64) -> (r: u64)
        requires
            old(self).wf(),
            !old(self)@.grants.contains_key(account),
            old(self)@.next < u64::MAX,
        ensures
            final(self).wf(),
            r == old(self)@.next,
            grant_ok(old(self)@, final(self)@, account, r),
    {
        proof {
            lemma_grants_membership(self.entries@);
        }
        let id = self.next_id;
        self.entries.push(Approval { account, id });
        self.next_id = self.next_id + 1;
        proof {
            assert(self.entries@.drop_last() =~= old(self).entries@);
            assert(forall|i: int|
                0 <= i < old(self).entries@.len()
                    ==> (#[trigger] old(self).entries@[i]).account != account);
        }
        id
    }

    /// Drop `account`'s grant; dropping an absent grant changes nothing.
    pub fn revoke(&mut self, account: u64)
        requires
            old(self).wf(),
        ensures
            final(self).wf(),
            revoke_ok(old(self)@, final(self)@, account),
            !old(self)@.grants.contains_key(account) ==> *final(self) == *old(self),
    {
        proof {
            lemma_grants_membership(self.entries@);
        }
        match self.find(account) {
            Some(i) => {
                proof {
                    lemma_grants_remove(self.entries@, i as int);
                }
                self.entries.remove(i);
            }
            None => {
                proof {
                    assert(grants_of(self.entries@).remove(account) =~= grants_of(
                        self.entries@,
                    ));
                }
            }
        }
    }

    /// Drop every grant; the counter keeps its value.
    pub fn revoke_all(&mut self)
        requires
            old(self).wf(),
        ensures
            final(self).wf(),
            revoke_all_ok(old(self)@, final(self)@),
    {
        self.entries = Vec::new();
    }
}

} // verus!
