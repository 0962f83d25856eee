//! Numbering of the children of a parent: evaluations of a project, runs
//! of a job, actions of a project, builds of a derivation.

use vstd::prelude::*;

verus! {

/// The largest of the numbers, and zero where there is none.
pub open spec fn max_num(nums: Seq<i64>) -> int
    decreases nums.len(),
{
    if nums.len() == 0 {
        0
    } else {
        let rest = max_num(nums.drop_last());
        if nums.last() > rest {
            nums.last() as int
        } else {
            rest
        }
    }
}

/// The numbers are exactly 1 to their count, each once, in any order.
pub open spec fn dense(nums: Seq<i64>) -> bool {
    &&& forall|i: int| 0 <= i < nums.len() ==> 1 <= #[trigger] nums[i] <= nums.len()
    &&& forall|i: int, j: int| 0 <= i < j < nums.len() ==> #[trigger] nums[i] != #[trigger] nums[j]
}

/// The largest number bounds all, is zero or among them, and is never
/// negative.
pub proof fn lemma_max_num(nums: Seq<i64>)
    ensures
        max_num(nums) >= 0,
        forall|i: int| 0 <= i < nums.len() ==> #[trigger] nums[i] <= max_num(nums),
        max_num(nums) == 0 || exists|i: int| 0 <= i < nums.len() && #[trigger] nums[i] == max_num(nums),
    decreases nums.len(),
{
    if nums.len() > 0 {
        let front = nums.drop_last();
        lemma_max_num(front);
        assert forall|i: int| 0 <= i < nums.len() implies #[trigger] nums[i] <= max_num(nums) by {
            if i < front.len() {
                assert(front[i] == nums[i]);
            }
        }
        if max_num(nums) != 0 {
            if nums.last() > max_num(front) {
                assert(nums[nums.len() - 1] == max_num(nums));
            } else {
                let i = choose|i: int| 0 <= i < front.len() && #[trigger] front[i] == max_num(front);
                assert(nums[i] == max_num(nums));
            }
        }
    }
}

/// Numbers between 1 and a bound, each at most once, are at most as many
/// as the bound.
proof fn lemma_count_bounded(nums: Seq<i64>, bound: int)
    requires
        bound >= 0,
        forall|i: int| 0 <= i < nums.len() ==> 1 <= #[trigger] nums[i] <= bound,
        forall|i: int, j: int| 0 <= i < j < nums.len() ==> #[trigger] nums[i] != #[trigger] nums[j],
    ensures
        nums.len() <= bound,
    decreases bound,
{
    if nums.len() > 0 {
        if bound == 0 {
            assert(1 <= nums[0] <= bound);
        } else {
            // Take out the entry that holds the bound, if there is one.
            if exists|k: int| 0 <= k < nums.len() && #[trigger] nums[k] == bound {
                let k = choose|k: int| 0 <= k < nums.len() && #[trigger] nums[k] == bound;
                let rest = nums.remove(k);
                assert forall|i: int| 0 <= i < rest.len() implies 1 <= #[trigger] rest[i] <= bound
                    - 1 by {
                    let i0 = if i < k {
                        i
                    } else {
                        i + 1
                    };
                    assert(rest[i] == nums[i0]);
                    assert(1 <= nums[i0] <= bound);
                    if i0 < k {
                        assert(nums[i0] != nums[k]);
                    } else {
                        assert(nums[k] != nums[i0]);
                    }
                }
                assert forall|i: int, j: int| 0 <= i < j < rest.len() implies #[trigger] rest[i]
                    != #[trigger] rest[j] by {
                    let i0 = if i < k {
                        i
                    } else {
                        i + 1
                    };
                    let j0 = if j < k {
                        j
                    } else {
                        j + 1
                    };
                    assert(rest[i] == nums[i0]);
                    assert(rest[j] == nums[j0]);
                    assert(nums[i0] != nums[j0]);
                }
                lemma_count_bounded(rest, bound - 1);
            } else {
                assert forall|i: int| 0 <= i < nums.len() implies 1 <= #[trigger] nums[i] <= bound
                    - 1 by {
                    assert(1 <= nums[i] <= bound);
                }
                lemma_count_bounded(nums, bound - 1);
            }
        }
    }
}

/// Where the numbers are 1 to their count, the largest is their count.
pub proof fn lemma_dense_max(nums: Seq<i64>)
    requires
        dense(nums),
    ensures
        max_num(nums) == nums.len(),
{
    lemma_max_num(nums);
    let top = max_num(nums);
    // No number is above the count, so the largest is not either.
    if top > nums.len() {
        let i = choose|i: int| 0 <= i < nums.len() && #[trigger] nums[i] == top;
        assert(nums[i] <= nums.len());
    }
    // All numbers lie between 1 and the largest, each once.
    assert forall|i: int| 0 <= i < nums.len() implies 1 <= #[trigger] nums[i] <= top by {}
    lemma_count_bounded(nums, top);
}

/// Taking the number after the largest keeps the numbering without gaps:
/// where the numbers were 1 to n, they are 1 to n + 1 afterwards.
pub proof fn lemma_next_num_dense(nums: Seq<i64>)
    requires
        dense(nums),
        max_num(nums) < i64::MAX,
    ensures
        dense(nums.push((max_num(nums) + 1) as i64)),
        max_num(nums) + 1 == nums.len() + 1,
{
    lemma_dense_max(nums);
    lemma_max_num(nums);
    let next = (max_num(nums) + 1) as i64;
    let after = nums.push(next);
    assert forall|i: int, j: int| 0 <= i < j < after.len() implies #[trigger] after[i]
        != #[trigger] after[j] by {
        if j < nums.len() {
            assert(nums[i] != nums[j]);
        } else {
            assert(nums[i] <= max_num(nums));
        }
    }
    assert forall|i: int| 0 <= i < after.len() implies 1 <= #[trigger] after[i] <= after.len() by {
        if i < nums.len() {
            assert(1 <= nums[i] <= nums.len());
        }
    }
}

/// The number for the next child of a parent whose children hold `nums`:
/// one more than the largest, and 1 for the first child. `None` where the
/// largest cannot be exceeded.
pub fn next_num(nums: &Vec<i64>) -> (next: Option<i64>)
    ensures
        match next {
            Some(n) => n == max_num(nums@) + 1,
            None => max_num(nums@) == i64::MAX,
        },
{
    let mut top: i64 = 0;
    let mut i: usize = 0;
    proof {
        assert(nums@.take(0) =~= Seq::<i64>::empty());
    }
    while i < nums.len()
        invariant
            i <= nums.len(),
            top == max_num(nums@.take(i as int)),
        decreases nums.len() - i,
    {
        proof {
            assert(nums@.take(i as int + 1).drop_last() =~= nums@.take(i as int));
        }
        if nums[i] > top {
            top = nums[i];
        }
        i = i + 1;
    }
    proof {
        assert(nums@.take(nums@.len() as int) =~= nums@);
    }
    if top < i64::MAX {
        Some(top + 1)
    } else {
        None
    }
}

/// The numbers of the children of a parent after `count` creations, each
/// of which took the number after the largest.
pub open spec fn numbered(count: nat) -> Seq<i64>
    decreases count,
{
    if count == 0 {
        Seq::empty()
    } else {
        let before = numbered((count - 1) as nat);
        before.push((max_num(before) + 1) as i64)
    }
}

/// After any number of creations the children are numbered 1, 2, 3 and
/// so on in the order of their creation, without a gap and without a
/// number used twice.
pub proof fn lemma_numbered_is_dense(count: nat)
    requires
        count <= i64::MAX,
    ensures
        numbered(count).len() == count,
        dense(numbered(count)),
        forall|i: int| 0 <= i < count ==> #[trigger] numbered(count)[i] == i + 1,
    decreases count,
{
    if count > 0 {
        let before = numbered((count - 1) as nat);
        lemma_numbered_is_dense((count - 1) as nat);
        lemma_dense_max(before);
        lemma_next_num_dense(before);
    }
}

} // verus!
