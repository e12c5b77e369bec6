//! The Euclidean norm of an integer vector, rounded down to a whole number.

use vstd::prelude::*;
use crate::squares::{lemma_sum_of_squares_zero, squared_norm, sum_of_squares};

verus! {

/// `r` is the integer part of the square root of `n`.
pub open spec fn is_floor_sqrt(n: int, r: int) -> bool {
    0 <= r && r * r <= n < (r + 1) * (r + 1)
}

/// Only one number is the integer part of a square root.
pub proof fn lemma_floor_sqrt_unique(n: int, a: int, b: int)
    requires
        is_floor_sqrt(n, a),
        is_floor_sqrt(n, b),
    ensures
        a == b,
{
    assert(a == b) by (nonlinear_arith)
        requires
            0 <= a,
            0 <= b,
            a * a <= n < (a + 1) * (a + 1),
            b * b <= n < (b + 1) * (b + 1),
    ;
}

/// The integer part of the square root of `n`.
pub fn isqrt(n: u128) -> (r: u64)
    ensures
        is_floor_sqrt(n as int, r as int),
{
    let mut lo: u128 = 0;
    let mut hi: u128 = 0x1_0000_0000_0000_0000;
    while hi - lo > 1
        invariant
            lo < hi <= 0x1_0000_0000_0000_0000,
            lo * lo <= n < hi * hi,
        decreases hi - lo,
    {
        let mid: u128 = lo + (hi - lo) / 2;
        assert(mid * mid <= 0xffff_ffff_ffff_ffff * 0xffff_ffff_ffff_ffff) by (nonlinear_arith)
            requires
                0 <= mid <= 0xffff_ffff_ffff_ffff,
        ;
        if mid * mid <= n {
            lo = mid;
        } else {
            hi = mid;
        }
    }
    lo as u64
}

/// The Euclidean norm of `nums`, rounded down: the integer part of the square root of the
/// sum of the squares of its elements. It is zero exactly when every element is zero, so
/// in particular for the empty vector.
pub fn norm_func(nums: Vec<i32>) -> (norm: u64)
    ensures
        is_floor_sqrt(sum_of_squares(nums@), norm as int),
        norm == 0 <==> (forall|i: int| 0 <= i < nums.len() ==> nums[i] == 0),
{
    let total = squared_norm(&nums);
    let norm = isqrt(total);
    proof {
        lemma_sum_of_squares_zero(nums@);
        assert(norm == 0 <==> total == 0) by (nonlinear_arith)
            requires
                0 <= norm,
                norm * norm <= total < (norm + 1) * (norm + 1),
        ;
    }
    norm
}

} // verus!
