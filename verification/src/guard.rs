//! The authorization guard: a state-mutating call must carry exactly one
//! minimal unit of value as a deliberate-intent signal. The guard runs before
//! any other validation, so a call that fails it mutates nothing.

use vstd::prelude::*;

use crate::errors::NftError;

verus! {

/// The one attached amount the guard accepts.
pub open spec fn deposit_authorizes(attached: u128) -> bool {
    attached == 1
}

/// Accept exactly one unit of attached value; anything else is refused.
pub fn check_deposit(attached: u128) -> (r: Result<(), NftError>)
    ensures
        r == (if deposit_authorizes(attached) {
            Ok::<(), NftError>(())
        } else {
            Err::<(), NftError>(NftError::InsufficientDeposit)
        }),
{
    if attached == 1 {
        Ok(())
    } else {
        Err(NftError::InsufficientDeposit)
    }
}

} // verus!
