use vstd::prelude::*;

verus! {

/// Identifier of an account (a user, a merchant or a contract) known to the contracts.
pub type AccountId = u64;

/// The amount stored under `a` in `m`, where an absent entry counts as zero.
pub open spec fn stored_or_zero(m: Map<AccountId, i128>, a: AccountId) -> int {
    if m.contains_key(a) {
        m[a] as int
    } else {
        0
    }
}

} // verus!
