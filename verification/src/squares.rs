//! Sums of squares of integer sequences.

use vstd::prelude::*;

verus! {

/// The largest square that a 32-bit component can have: `2^62`.
pub open spec fn max_square() -> int {
    0x4000_0000_0000_0000
}

/// The sum of the squares of all elements of `s`.
pub open spec fn sum_of_squares(s: Seq<i32>) -> int
    decreases s.len(),
{
    if s.len() == 0 {
        0
    } else {
        sum_of_squares(s.drop_last()) + s.last() * s.last()
    }
}

/// The square of a 32-bit integer lies between zero and `2^62`, and is zero only for zero.
pub proof fn lemma_square_bounds(v: i32)
    ensures
        0 <= v * v <= max_square(),
        v * v == 0 <==> v == 0,
{
    let a: int = v as int;
    assert(0 <= a * a <= 0x4000_0000_0000_0000 && (a * a == 0 <==> a == 0)) by (nonlinear_arith)
        requires
            -0x8000_0000 <= a < 0x8000_0000,
    ;
}

/// The product of two 32-bit integers lies between `-2^62` and `2^62`.
pub proof fn lemma_product_bounds(a: i32, b: i32)
    ensures
        -max_square() <= a * b <= max_square(),
{
    let p: int = a as int;
    let q: int = b as int;
    assert(-0x4000_0000_0000_0000 <= p * q <= 0x4000_0000_0000_0000) by (nonlinear_arith)
        requires
            -0x8000_0000 <= p < 0x8000_0000,
            -0x8000_0000 <= q < 0x8000_0000,
    ;
}

/// A sum of squares is never negative, and grows by at most `2^62` with each element.
pub proof fn lemma_sum_of_squares_bounds(s: Seq<i32>)
    ensures
        0 <= sum_of_squares(s) <= s.len() * max_square(),
    decreases s.len(),
{
    if s.len() > 0 {
        lemma_sum_of_squares_bounds(s.drop_last());
        lemma_square_bounds(s.last());
    }
}

/// A sum of squares is zero exactly when every element is zero.
pub proof fn lemma_sum_of_squares_zero(s: Seq<i32>)
    ensures
        sum_of_squares(s) == 0 <==> (forall|i: int| 0 <= i < s.len() ==> s[i] == 0),
    decreases s.len(),
{
    if s.len() > 0 {
        let front = s.drop_last();
        lemma_sum_of_squares_zero(front);
        lemma_sum_of_squares_bounds(front);
        lemma_square_bounds(s.last());
        if sum_of_squares(s) == 0 {
            assert forall|i: int| 0 <= i < s.len() implies s[i] == 0 by {
                if i < s.len() - 1 {
                    assert(front[i] == s[i]);
                }
            }
        }
        if forall|i: int| 0 <= i < s.len() ==> s[i] == 0 {
            assert(s.last() == s[s.len() - 1]);
            assert forall|i: int| 0 <= i < front.len() implies front[i] == 0 by {
                assert(front[i] == s[i]);
            }
        }
    }
}

/// The sum of squares of four numbers, written out.
pub proof fn lemma_sum_of_squares_four(s: Seq<i32>)
    requires
        s.len() == 4,
    ensures
        sum_of_squares(s) == s[0] * s[0] + s[1] * s[1] + s[2] * s[2] + s[3] * s[3],
{
    let s3 = s.drop_last();
    let s2 = s3.drop_last();
    let s1 = s2.drop_last();
    let s0 = s1.drop_last();
    assert(sum_of_squares(s0) == 0);
    assert(sum_of_squares(s1) == sum_of_squares(s0) + s1.last() * s1.last());
    assert(sum_of_squares(s2) == sum_of_squares(s1) + s2.last() * s2.last());
    assert(sum_of_squares(s3) == sum_of_squares(s2) + s3.last() * s3.last());
    assert(sum_of_squares(s) == sum_of_squares(s3) + s.last() * s.last());
}

/// Multiplying every element by `k` multiplies the sum of squares by `k * k`.
pub proof fn lemma_sum_of_squares_scaled(s: Seq<i32>, scaled: Seq<i32>, k: int)
    requires
        scaled.len() == s.len(),
        forall|i: int| 0 <= i < s.len() ==> scaled[i] == k * s[i],
    ensures
        sum_of_squares(scaled) == (k * k) * sum_of_squares(s),
    decreases s.len(),
{
    if s.len() == 0 {
        assert((k * k) * 0 == 0) by (nonlinear_arith);
    } else {
        lemma_sum_of_squares_scaled(s.drop_last(), scaled.drop_last(), k);
        let v: int = s.last() as int;
        let rest = sum_of_squares(s.drop_last());
        assert(scaled.last() == k * v);
        assert((k * v) * (k * v) == (k * k) * (v * v)) by (nonlinear_arith);
        assert((k * k) * (rest + v * v) == (k * k) * rest + (k * k) * (v * v))
            by (nonlinear_arith);
    }
}

/// The sum of the squares of all elements of `nums`, computed without overflow.
pub fn squared_norm(nums: &Vec<i32>) -> (total: u128)
    ensures
        total == sum_of_squares(nums@),
        total <= nums.len() * max_square(),
{
    let mut total: u128 = 0;
    let mut i: usize = 0;
    while i < nums.len()
        invariant
            i <= nums.len(),
            total == sum_of_squares(nums@.take(i as int)),
            total <= i * max_square(),
        decreases nums.len() - i,
    {
        let v: i64 = nums[i] as i64;
        proof {
            lemma_square_bounds(nums[i as int]);
            assert(nums@.take(i + 1).drop_last() =~= nums@.take(i as int));
        }
        let sq: i64 = v * v;
        total = total + sq as u128;
        i = i + 1;
    }
    proof {
        assert(nums@.take(nums.len() as int) =~= nums@);
    }
    total
}

} // verus!
