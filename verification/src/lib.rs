//! A non-fungible-token ownership ledger with owner-scoped approvals, a
//! storage-rent gate on minting, and a commit/rollback protocol for transfers
//! that await an external receiver's verdict.

pub mod approvals;
pub mod contract;
pub mod errors;
pub mod guard;
pub mod laws;
pub mod ledger;
pub mod storage;
pub mod transfer;
