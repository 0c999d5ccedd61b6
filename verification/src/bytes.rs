//! Copying and comparing byte strings and identities.

use vstd::prelude::*;
use crate::session::account_less;
use crate::types::AccountId;

verus! {

/// Makes a copy of a byte string.
pub fn copy_bytes(source: &Vec<u8>) -> (copy: Vec<u8>)
    ensures
        copy@ == source@,
{
    let mut copy: Vec<u8> = Vec::with_capacity(source.len());
    let mut i: usize = 0;
    while i < source.len()
        invariant
            i <= source@.len(),
            copy@ == source@.take(i as int),
        decreases source@.len() - i,
    {
        copy.push(source[i]);
        i = i + 1;
    }
    copy
}

/// Makes a copy of a list of identities.
pub fn copy_accounts(source: &Vec<AccountId>) -> (copy: Vec<AccountId>)
    ensures
        copy@ == source@,
{
    let mut copy: Vec<AccountId> = Vec::with_capacity(source.len());
    let mut i: usize = 0;
    while i < source.len()
        invariant
            i <= source@.len(),
            copy@ == source@.take(i as int),
        decreases source@.len() - i,
    {
        copy.push(source[i]);
        i = i + 1;
    }
    copy
}

/// Tells whether two strings of 32 bytes, identities or identifiers, are the
/// same.
pub fn same_bytes(a: &[u8; 32], b: &[u8; 32]) -> (same: bool)
    ensures
        same == (*a == *b),
{
    let mut i: usize = 0;
    while i < 32
        invariant
            i <= 32,
            forall|j: int| 0 <= j < i ==> a@[j] == b@[j],
        decreases 32 - i,
    {
        if a[i] != b[i] {
            return false;
        }
        i = i + 1;
    }
    assert(*a =~= *b);
    true
}

/// Tells whether `a` comes before `b` in the order of byte strings.
pub fn account_before(a: &AccountId, b: &AccountId) -> (before: bool)
    ensures
        before == account_less(*a, *b),
{
    let mut i: usize = 0;
    while i < 32
        invariant
            i <= 32,
            forall|j: int| 0 <= j < i ==> a@[j] == b@[j],
        decreases 32 - i,
    {
        if a[i] < b[i] {
            return true;
        }
        if a[i] > b[i] {
            assert(!account_less(*a, *b)) by {
                if account_less(*a, *b) {
                    let w = choose|w: int|
                        0 <= w < 32 && #[trigger] a@[w] < b@[w] && forall|j: int|
                            0 <= j < w ==> a@[j] == b@[j];
                    if w < i {
                    } else if w > i {
                        assert(a@[i as int] == b@[i as int]);
                    }
                }
            }
            return false;
        }
        i = i + 1;
    }
    false
}

} // verus!
