//! Nearest-centre lookup: resolving an arbitrary axis coordinate to the
//! closest configured cell-centre value by binary search.

use vstd::prelude::*;

verus! {

/// Distance between two mathematical integers.
pub open spec fn dist(a: int, b: int) -> int {
    if a >= b {
        a - b
    } else {
        b - a
    }
}

/// The sequence is strictly increasing.
pub open spec fn strictly_increasing(s: Seq<i32>) -> bool {
    forall|i: int, j: int| 0 <= i < j < s.len() ==> s[i] < s[j]
}

/// `r` is the value of `s` closest to `target`; on an exact half-distance
/// tie the smaller value wins.
pub open spec fn is_closest(s: Seq<i32>, target: int, r: i32) -> bool {
    &&& exists|i: int| 0 <= i < s.len() && s[i] == r
    &&& forall|i: int| 0 <= i < s.len() ==> dist(target, r as int) <= dist(
        target,
        (#[trigger] s[i]) as int,
    )
    &&& forall|i: int| 0 <= i < s.len() && #[trigger] s[i] < r ==> dist(target, r as int) < dist(
        target,
        s[i] as int,
    )
}

/// At most one value of a strictly increasing sequence is closest to a
/// given target.
pub proof fn lemma_closest_unique(s: Seq<i32>, target: int, r1: i32, r2: i32)
    requires
        strictly_increasing(s),
        is_closest(s, target, r1),
        is_closest(s, target, r2),
    ensures
        r1 == r2,
{
    if r1 < r2 {
        let i = choose|i: int| 0 <= i < s.len() && s[i] == r1;
        assert(dist(target, r2 as int) < dist(target, s[i] as int));
        assert(dist(target, r1 as int) <= dist(target, s[i] as int));
    }
    if r2 < r1 {
        let i = choose|i: int| 0 <= i < s.len() && s[i] == r2;
        assert(dist(target, r1 as int) < dist(target, s[i] as int));
        assert(dist(target, r2 as int) <= dist(target, s[i] as int));
    }
}

/// A target exactly halfway between two adjacent values resolves to the
/// lower of the two.
pub proof fn lemma_closest_tie_prefers_lower(s: Seq<i32>, target: int, i: int, r: i32)
    requires
        strictly_increasing(s),
        0 <= i,
        i + 1 < s.len(),
        s[i] as int <= target <= s[i + 1] as int,
        s[i + 1] as int - target == target - s[i] as int,
        is_closest(s, target, r),
    ensures
        r == s[i],
{
    assert(dist(target, s[i] as int) == dist(target, s[i + 1] as int));
    assert(forall|j: int| 0 <= j < s.len() && j < i ==> #[trigger] s[j] < s[i]);
    assert(forall|j: int| 0 <= j < s.len() && j > i + 1 ==> #[trigger] s[j] > s[i + 1]);
    let w = choose|w: int| 0 <= w < s.len() && s[w] == r;
    if w < i {
        assert(dist(target, r as int) > dist(target, s[i] as int));
        assert(dist(target, r as int) <= dist(target, s[i] as int));
    }
    if w > i + 1 {
        assert(dist(target, r as int) > dist(target, s[i + 1] as int));
        assert(dist(target, r as int) <= dist(target, s[i + 1] as int));
    }
    if w == i + 1 && s[i] < s[i + 1] {
        assert(s[i] < r);
        assert(dist(target, r as int) < dist(target, s[i] as int));
    }
}

/// Finds the index at which a strictly increasing vector holds `target`,
/// by binary search.
pub fn binary_search_index(vector: &Vec<i32>, target: i32) -> (r: Option<usize>)
    requires
        strictly_increasing(vector@),
    ensures
        match r {
            Some(i) => i < vector@.len() && vector@[i as int] == target,
            None => forall|j: int| 0 <= j < vector@.len() ==> (#[trigger] vector@[j]) != target,
        },
{
    let mut lo: usize = 0;
    let mut hi: usize = vector.len();
    while lo < hi
        invariant
            lo <= hi <= vector@.len(),
            strictly_increasing(vector@),
            forall|i: int| 0 <= i < lo ==> (#[trigger] vector@[i]) < target,
            forall|i: int| hi <= i < vector@.len() ==> (#[trigger] vector@[i]) >= target,
        decreases hi - lo,
    {
        let mid = lo + (hi - lo) / 2;
        if vector[mid] < target {
            lo = mid + 1;
        } else {
            hi = mid;
        }
    }
    if lo < vector.len() && vector[lo] == target {
        Some(lo)
    } else {
        None
    }
}

/// Finds the value of a strictly increasing vector closest to `target`
/// with a binary search; exact half-distance ties resolve to the smaller
/// value.
pub fn find_closest_value(vector: &Vec<i32>, target: i32) -> (r: i32)
    requires
        vector@.len() > 0,
        strictly_increasing(vector@),
    ensures
        is_closest(vector@, target as int, r),
{
    let mut lo: usize = 0;
    let mut hi: usize = vector.len();
    while lo < hi
        invariant
            lo <= hi <= vector@.len(),
            strictly_increasing(vector@),
            forall|i: int| 0 <= i < lo ==> (#[trigger] vector@[i]) < target,
            forall|i: int| hi <= i < vector@.len() ==> (#[trigger] vector@[i]) >= target,
        decreases hi - lo,
    {
        let mid = lo + (hi - lo) / 2;
        if vector[mid] < target {
            lo = mid + 1;
        } else {
            hi = mid;
        }
    }
    let idx: usize = if lo == vector.len() {
        lo - 1
    } else if lo == 0 {
        0
    } else {
        let d_hi: i64 = vector[lo] as i64 - target as i64;
        let d_lo: i64 = target as i64 - vector[lo - 1] as i64;
        if d_hi >= d_lo {
            lo - 1
        } else {
            lo
        }
    };
    vector[idx]
}

} // verus!
