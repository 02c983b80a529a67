//! Storage-rent accounting: each account's balance, held against the global
//! bounds required to own a token record. Minting tops an owner's balance up
//! from the attached deposit before a record is created.

use std::collections::HashMap;

use vstd::prelude::*;

use crate::errors::NftError;

verus! {

broadcast use vstd::std_specs::hash::group_hash_axioms;

/// The process-wide storage bounds, fixed when the contract is initialized:
/// the balance an account needs to own a record, and the most it may hold.
#[derive(Clone, Copy, Debug, PartialEq, Eq)]
pub struct StorageBalanceBounds {
    pub min: u128,
    pub max: Option<u128>,
}

/// Bounds that admit at least one balance: the cap, if any, covers the
/// minimum.
pub open spec fn bounds_ok(bounds: StorageBalanceBounds) -> bool {
    match bounds.max {
        Some(m) => bounds.min <= m,
        None => true,
    }
}

/// The balance an account holds, with an unregistered account at zero.
pub open spec fn stored_or_zero(m: Map<u64, u128>, account: u64) -> u128 {
    if m.contains_key(account) {
        m[account]
    } else {
        0
    }
}

/// The balance after crediting `attached` on top of `bal`: saturating at the
/// numeric limit, then capped at the configured maximum.
pub open spec fn topped_up(bounds: StorageBalanceBounds, bal: u128, attached: u128) -> u128 {
    let raw: int = bal + attached;
    let sat: u128 = if raw > u128::MAX as int {
        u128::MAX
    } else {
        raw as u128
    };
    match bounds.max {
        Some(m) => if sat > m {
            m
        } else {
            sat
        },
        None => sat,
    }
}

/// Whether the account reaches the minimum, either as it stands or after the
/// attached deposit is credited.
pub open spec fn top_up_ok(
    bounds: StorageBalanceBounds,
    m: Map<u64, u128>,
    account: u64,
    attached: u128,
) -> bool {
    ||| stored_or_zero(m, account) >= bounds.min
    ||| topped_up(bounds, stored_or_zero(m, account), attached) >= bounds.min
}

/// The balances after a successful top-up: untouched when the account was
/// already at the minimum, else credited with the capped deposit.
pub open spec fn top_up_result(
    bounds: StorageBalanceBounds,
    m: Map<u64, u128>,
    account: u64,
    attached: u128,
) -> Map<u64, u128> {
    if stored_or_zero(m, account) >= bounds.min {
        m
    } else {
        m.insert(account, topped_up(bounds, stored_or_zero(m, account), attached))
    }
}

/// Rent-style balances per account, with the global bounds they are held
/// against.
pub struct StorageAccounting {
    balances: HashMap<u64, u128>,
    bounds: StorageBalanceBounds,
}

impl View for StorageAccounting {
    type V = Map<u64, u128>;

    closed spec fn view(&self) -> Map<u64, u128> {
        self.balances@
    }
}

impl StorageAccounting {
    /// The configured bounds.
    pub closed spec fn spec_bounds(self) -> StorageBalanceBounds {
        self.bounds
    }

    /// The bounds admit a balance and every stored balance respects the cap.
    pub closed spec fn wf(self) -> bool {
        &&& bounds_ok(self.bounds)
        &&& match self.bounds.max {
            Some(m) => forall|a: u64|
                #[trigger] self.balances@.contains_key(a) ==> self.balances@[a] <= m,
            None => true,
        }
    }

    /// Empty accounting under the given bounds.
    pub fn new(bounds: StorageBalanceBounds) -> (r: StorageAccounting)
        requires
            bounds_ok(bounds),
        ensures
            r.wf(),
            r@ == Map::<u64, u128>::empty(),
            r.spec_bounds() == bounds,
    {
        StorageAccounting { balances: HashMap::new(), bounds }
    }

    /// The configured bounds, read-only.
    pub fn bounds(&self) -> (r: StorageBalanceBounds)
        ensures
            r == self.spec_bounds(),
    {
        self.bounds
    }

    /// The balance `account` holds, or `None` if it never deposited.
    pub fn balance_of(&self, account: u64) -> (r: Option<u128>)
        ensures
            r == (if self@.contains_key(account) {
                Some(self@[account])
            } else {
                None::<u128>
            }),
    {
        match self.balances.get(&account) {
            Some(b) => Some(*b),
            None => None,
        }
    }

    /// See that `account` holds at least the minimum, crediting the attached
    /// deposit (saturated, then capped at the maximum) when it does not. A
    /// deposit too small to reach the minimum is refused and nothing changes.
    pub fn ensure_min_for(&mut self, account: u64, attached: u128) -> (r: Result<(), NftError>)
        requires
            old(self).wf(),
        ensures
            final(self).wf(),
            final(self).spec_bounds() == old(self).spec_bounds(),
            top_up_ok(old(self).spec_bounds(), old(self)@, account, attached) ==> r == Ok::<
                (),
                NftError,
            >(()) && final(self)@ == top_up_result(
                old(self).spec_bounds(),
                old(self)@,
                account,
                attached,
            ) && stored_or_zero(final(self)@, account) >= old(self).spec_bounds().min,
            !top_up_ok(old(self).spec_bounds(), old(self)@, account, attached) ==> r == Err::<
                (),
                NftError,
            >(NftError::InsufficientDeposit) && *final(self) == *old(self),
    {
        let bal = match self.balances.get(&account) {
            Some(b) => *b,
            None => 0,
        };
        if bal >= self.bounds.min {
            return Ok(());
        }
        let headroom = u128::MAX - bal;
        let raw = if attached > headroom {
            u128::MAX
        } else {
            bal + attached
        };
        let capped = match self.bounds.max {
            Some(m) => if raw > m {
                m
            } else {
                raw
            },
            None => raw,
        };
        if capped < self.bounds.min {
            return Err(NftError::InsufficientDeposit);
        }
        self.balances.insert(account, capped);
        Ok(())
    }
}

} // verus!
