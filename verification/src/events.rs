use vstd::prelude::*;

use crate::storage_types::{Address, ComplianceStatus};

verus! {

/// A notification emitted by a successful mutating operation. Each carries
/// the relevant principals and values; a failed operation emits nothing.
///
/// On a freeze, the expiration boundary is carried only when the freeze is
/// timed, and the compliance tag only when it is meaningful (not
/// [`ComplianceStatus::Unflagged`]).
#[derive(Clone, Debug, PartialEq, Eq)]
pub enum Event {
    Mint { admin: Address, to: Address, amount: i128 },
    SetAdmin { old_admin: Address, new_admin: Address },
    Approve { from: Address, spender: Address, expiration_ledger: u32, amount: i128 },
    Transfer { from: Address, to: Address, amount: i128 },
    Burn { from: Address, amount: i128 },
    Freeze {
        admin: Address,
        account: Address,
        expiration_ledger: Option<u32>,
        reason: String,
        compliance_tag: Option<ComplianceStatus>,
    },
    Unfreeze { admin: Address, account: Address },
}

} // verus!
