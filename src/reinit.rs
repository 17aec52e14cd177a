//! Step schedule of the jump-flooding pass that turns the transported surface field
//! back into a signed distance.
use vstd::prelude::*;
use vstd::arithmetic::power2::{pow2, lemma_pow2_unfold, lemma_pow2_strictly_increases, lemma2_to64};
use crate::grid::GridSize;

verus! {

/// The larger of the two grid dimensions.
pub open spec fn max_dim(size: GridSize) -> u32 {
    if size.width >= size.height { size.width } else { size.height }
}

/// `s` is `2^k, 2^(k-1), ..., 1` with `2^k` the largest power of two below `m`;
/// with no power of two below `m` it is empty.
pub open spec fn is_jump_flooding_schedule(m: nat, s: Seq<u32>) -> bool {
    if m <= 1 {
        s.len() == 0
    } else {
        &&& s.len() >= 1
        &&& pow2((s.len() - 1) as nat) < m <= pow2(s.len() as nat)
        &&& forall|i: int| 0 <= i < s.len() ==> #[trigger] s[i] == pow2((s.len() - 1 - i) as nat)
    }
}

/// Offsets of the jump-flooding sweeps for a grid of `size`, largest first, one sweep per
/// power of two from the largest below `max(width, height)` down to one.
pub fn jump_flooding_steps(size: GridSize) -> (r: Vec<u32>)
    ensures
        is_jump_flooding_schedule(max_dim(size) as nat, r@),
{
    let m: u32 = if size.width >= size.height { size.width } else { size.height };
    let mut steps: Vec<u32> = Vec::new();
    if m <= 1 {
        return steps;
    }
    proof {
        lemma2_to64();
    }
    let mut top: u32 = 1;
    let mut k: u32 = 0;
    while (top as u64) * 2 < m as u64
        invariant
            top as nat == pow2(k as nat),
            1 <= top < m,
            k < 32,
            m == max_dim(size),
        decreases m - top,
    {
        proof {
            lemma_pow2_unfold((k + 1) as nat);
            if k + 1 >= 32 {
                lemma_pow2_strictly_increases(31, (k + 1) as nat);
                assert(pow2(31) == 0x8000_0000) by { lemma2_to64(); }
            }
        }
        top = top * 2;
        k = k + 1;
    }
    proof {
        lemma_pow2_unfold((k + 1) as nat);
    }
    let mut s: u32 = top;
    let mut i: u32 = 0;
    while i <= k
        invariant
            i <= k + 1,
            k < 32,
            steps@.len() == i,
            i <= k ==> s as nat == pow2((k - i) as nat),
            forall|t: int| 0 <= t < i ==> #[trigger] steps@[t] == pow2((k - t) as nat),
        decreases k + 1 - i,
    {
        steps.push(s);
        proof {
            if i < k {
                lemma_pow2_unfold((k - i) as nat);
                assert((k - i - 1) as nat == ((k - (i + 1)) as nat));
            }
        }
        s = s / 2;
        i = i + 1;
    }
    assert(steps@.len() == k + 1);
    assert(steps@.len() - 1 == k);
    steps
}

/// Each sweep offset is twice the next one and the last sweep has offset one.
pub proof fn lemma_schedule_halves(m: nat, s: Seq<u32>)
    requires
        is_jump_flooding_schedule(m, s),
        m > 1,
    ensures
        s[s.len() - 1] == 1,
        forall|i: int| 0 <= i < s.len() - 1 ==> #[trigger] s[i] == 2 * s[i + 1],
{
    lemma2_to64();
    assert(s[s.len() - 1] == pow2(0));
    assert forall|i: int| 0 <= i < s.len() - 1 implies #[trigger] s[i] == 2 * s[i + 1] by {
        assert(s[i] == pow2((s.len() - 1 - i) as nat));
        assert(s[i + 1] == pow2((s.len() - 1 - (i + 1)) as nat));
        lemma_pow2_unfold((s.len() - 1 - i) as nat);
    }
}


/// The schedule for a given `m` is unique.
pub proof fn lemma_schedule_unique(m: nat, s1: Seq<u32>, s2: Seq<u32>)
    requires
        is_jump_flooding_schedule(m, s1),
        is_jump_flooding_schedule(m, s2),
    ensures
        s1 == s2,
{
    if m > 1 {
        lemma_schedule_length_bound(m, s1, s2);
        lemma_schedule_length_bound(m, s2, s1);
    }
    assert(s1 =~= s2);
}

proof fn lemma_schedule_length_bound(m: nat, s1: Seq<u32>, s2: Seq<u32>)
    requires
        m > 1,
        is_jump_flooding_schedule(m, s1),
        is_jump_flooding_schedule(m, s2),
    ensures
        s2.len() <= s1.len(),
{
    if s1.len() + 1 < s2.len() {
        lemma_pow2_strictly_increases(s1.len(), (s2.len() - 1) as nat);
    }
}

} // verus!
