use vstd::prelude::*;

verus! {

/// An account or principal identifier. The enclosing environment is
/// responsible for binding these identifiers to real principals; the ledger
/// only compares them for equality.
pub type Address = u64;

/// Compliance classification attached to a freeze record. `Unflagged` is the
/// neutral classification: it is what an account without an active freeze
/// record reports.
#[derive(Clone, Copy, Debug, PartialEq, Eq, Structural)]
pub enum ComplianceStatus {
    Unflagged,
    KycPending,
    AmlFlagged,
    Sanctioned,
    Other,
}

/// A per-account freeze record.
///
/// An `expiration_ledger` of 0 means the freeze is indefinite; a nonzero
/// value means the freeze is active at every ledger sequence number strictly
/// below it, and logically expired from that boundary on.
#[derive(Clone, Debug, PartialEq, Eq)]
pub struct FreezeInfo {
    pub expiration_ledger: u32,
    pub reason: String,
    pub compliance_tag: ComplianceStatus,
}

/// Identifies an allowance: the owner granting it and the spender allowed to
/// draw on it.
#[derive(Clone, Copy, Debug, PartialEq, Eq, Hash, Structural)]
pub struct AllowanceDataKey {
    pub from: Address,
    pub spender: Address,
}

/// An authorized spend amount together with the last ledger sequence number
/// at which it may still be used. A record whose `expiration_ledger` lies
/// before the current sequence number reads as amount 0.
#[derive(Clone, Copy, Debug, PartialEq, Eq, Structural)]
pub struct AllowanceValue {
    pub amount: i128,
    pub expiration_ledger: u32,
}

} // verus!
