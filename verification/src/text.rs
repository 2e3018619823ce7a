//! Verified string comparison, character by character.

use vstd::prelude::*;

verus! {

/// Whether two strings hold the same characters.
pub fn str_eq(a: &str, b: &str) -> (r: bool)
    ensures
        r == (a@ == b@),
{
    let la = a.unicode_len();
    let lb = b.unicode_len();
    if la != lb {
        proof {
            assert(a@ != b@);
        }
        return false;
    }
    let mut idx: usize = 0;
    while idx < la
        invariant
            la == a@.len(),
            la == b@.len(),
            idx <= la,
            forall|j: int| 0 <= j < idx ==> a@[j] == b@[j],
        decreases la - idx,
    {
        if a.get_char(idx) != b.get_char(idx) {
            return false;
        }
        idx += 1;
    }
    proof {
        assert(a@ =~= b@);
    }
    true
}

} // verus!
