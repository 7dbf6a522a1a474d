//! Wildcard-aware byte signature search.

use vstd::prelude::*;

verus! {

/// Mask byte that marks a signature position as an exact-match byte; any
/// other mask value makes the position a wildcard.
pub const EXACT: u8 = 0xFF;

/// The signature `pattern`/`mask` matches `data` when placed at offset `i`.
pub open spec fn matches_at(data: Seq<u8>, pattern: Seq<u8>, mask: Seq<u8>, i: int) -> bool {
    &&& 0 <= i
    &&& i + pattern.len() <= data.len()
    &&& forall|j: int|
        0 <= j < pattern.len() && mask[j] == EXACT ==> #[trigger] data[i + j] == pattern[j]
}

/// Finds the first offset in `data` at which `pattern` matches, comparing only
/// the positions whose `mask` byte is `EXACT`. A pattern and mask of
/// different lengths never match.
pub fn find_pattern(data: &[u8], pattern: &[u8], mask: &[u8]) -> (r: Option<usize>)
    ensures
        pattern@.len() != mask@.len() ==> r is None,
        pattern@.len() == mask@.len() ==> match r {
            Some(i) => matches_at(data@, pattern@, mask@, i as int) && forall|k: int|
                0 <= k < i ==> !matches_at(data@, pattern@, mask@, k),
            None => forall|k: int| !matches_at(data@, pattern@, mask@, k),
        },
{
    if pattern.len() != mask.len() || pattern.len() > data.len() {
        return None;
    }
    let last: usize = data.len() - pattern.len();
    let mut i: usize = 0;
    loop
        invariant
            pattern@.len() == mask@.len(),
            last == data@.len() - pattern@.len(),
            i <= last,
            forall|k: int| 0 <= k < i ==> !matches_at(data@, pattern@, mask@, k),
        decreases last - i,
    {
        let mut found = true;
        let mut j: usize = 0;
        while found && j < pattern.len()
            invariant
                pattern@.len() == mask@.len(),
                last == data@.len() - pattern@.len(),
                i <= last,
                j <= pattern@.len(),
                data@.len() == data.len(),
                found ==> forall|t: int|
                    0 <= t < j && mask@[t] == EXACT ==> data@[i + t] == pattern@[t],
                !found ==> !matches_at(data@, pattern@, mask@, i as int),
            decreases pattern@.len() - j + (if found { 1int } else { 0int }),
        {
            if mask[j] == EXACT && data[i + j] != pattern[j] {
                found = false;
                assert(data@[i + j] != pattern@[j as int]);
            } else {
                j = j + 1;
            }
        }
        if found {
            assert(matches_at(data@, pattern@, mask@, i as int)) by {
                assert forall|t: int|
                    0 <= t < pattern@.len() && mask@[t] == EXACT implies data@[i + t]
                        == pattern@[t] by {};
            };
            return Some(i);
        }
        if i == last {
            assert forall|k: int| !matches_at(data@, pattern@, mask@, k) by {
                if 0 <= k < i {
                }
            };
            return None;
        }
        i = i + 1;
    }
}

} // verus!
