//! Account identifiers.

use vstd::prelude::*;

verus! {

/// Width of an account identifier in bytes.
pub const ACCOUNT_ID_LEN: usize = 32;

/// Identifier of an account of the host ledger: 32 opaque bytes.
pub type AccountId = [u8; 32];

/// The all-zero identifier, which names no account: in a result message it
/// stands for "no winner".
pub open spec fn spec_no_account() -> Seq<u8> {
    Seq::new(32, |i: int| 0u8)
}

/// Whether two identifiers hold the same bytes.
pub fn same_account(a: &AccountId, b: &AccountId) -> (same: bool)
    ensures
        same == (*a == *b),
        same == (a@ == b@),
{
    let mut i: usize = 0;
    while i < 32
        invariant
            i <= 32,
            forall|j: int| 0 <= j < i ==> a[j] == b[j],
        decreases 32 - i,
    {
        if a[i] != b[i] {
            assert(a@[i as int] != b@[i as int]);
            return false;
        }
        i += 1;
    }
    assert(*a =~= *b);
    assert(a@ =~= b@);
    true
}

/// Whether `id` is the all-zero identifier.
pub fn is_no_account(id: &AccountId) -> (zero: bool)
    ensures
        zero == (id@ == spec_no_account()),
{
    let mut i: usize = 0;
    while i < 32
        invariant
            i <= 32,
            forall|j: int| 0 <= j < i ==> id[j] == 0,
        decreases 32 - i,
    {
        if id[i] != 0 {
            assert(id@[i as int] != spec_no_account()[i as int]);
            return false;
        }
        i += 1;
    }
    assert(id@ =~= spec_no_account());
    true
}

} // verus!
