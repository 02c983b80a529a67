use vstd::prelude::*;

verus! {

/// Every failure a ledger operation can report. Mutating operations return
/// one of these instead of committing a partial write; queries never fail.
#[derive(Clone, Copy, Debug, PartialEq, Eq, Structural)]
pub enum NftError {
    /// The token (or account) the call names is not in the ledger.
    NotFound,
    /// The caller lacks the authority the operation demands.
    NotOwner,
    /// A mint collided with an existing token id.
    AlreadyExists,
    /// The grantee already holds a live approval on this token.
    AlreadyApproved,
    /// The supplied approval id is not the live one for that grantee.
    ApprovalMismatch,
    /// The authorization deposit or the storage-rent balance falls short.
    InsufficientDeposit,
    /// The transfer hook explicitly refused the transfer.
    HookRejected,
    /// The hook's verdict never arrived; treated as refusal, kept distinct
    /// for diagnostics.
    HookUnreachable,
}

} // verus!
