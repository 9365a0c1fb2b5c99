use vstd::prelude::*;

use crate::identity::Identity;

verus! {

/// The state of one account on the external ledger, as one operation sees it:
/// owning program, currency balance, and stored bytes. An account that was
/// never created appears with a foreign owner, zero balance and empty data.
#[derive(Clone, Debug)]
pub struct LedgerAccount {
    pub owner: Identity,
    pub lamports: u64,
    pub data: Vec<u8>,
}

/// Whether the account belongs to this program's logic domain.
pub open spec fn owned_by(a: LedgerAccount, program: Identity) -> bool {
    a.owner@ == program@
}

} // verus!
