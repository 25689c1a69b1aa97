use vstd::prelude::*;

verus! {

/// `s` holds no NUL byte before index `end`.
pub open spec fn nul_free_prefix(s: Seq<u8>, end: int) -> bool {
    forall|i: int| 0 <= i < end ==> s[i] != 0u8
}

/// The position of the first NUL byte of `s`, if any: exactly the positions
/// at which a native string built from `s` would be cut short.
pub open spec fn first_nul(s: Seq<u8>) -> Option<usize> {
    if nul_free_prefix(s, s.len() as int) {
        None
    } else {
        Some((choose|i: int| 0 <= i < s.len() && s[i] == 0u8 && nul_free_prefix(s, i)) as usize)
    }
}

/// Finds the first NUL byte of an address string (host or port).
pub fn find_nul(s: &[u8]) -> (r: Option<usize>)
    ensures
        r == first_nul(s@),
        match r {
            Some(i) => i < s@.len() && s@[i as int] == 0u8 && nul_free_prefix(s@, i as int),
            None => nul_free_prefix(s@, s@.len() as int),
        },
{
    let mut i: usize = 0;
    while i < s.len()
        invariant
            i <= s@.len(),
            nul_free_prefix(s@, i as int),
        decreases s@.len() - i,
    {
        if s[i] == 0u8 {
            proof {
                assert(!nul_free_prefix(s@, s@.len() as int));
                let j = choose|j: int| 0 <= j < s.len() && s@[j] == 0u8 && nul_free_prefix(s@, j);
                if j < i {
                } else if j > i {
                    assert(s@[i as int] != 0u8);
                }
                assert(j == i);
            }
            return Some(i);
        }
        i = i + 1;
    }
    None
}

} // verus!
