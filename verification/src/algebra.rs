//! Products of sums, multiplied out: the steps of algebra that the proofs about rotations
//! are built from.

use vstd::prelude::*;

verus! {

/// Multiplication of integers commutes.
pub proof fn lemma_commute(x: int, y: int)
    ensures
        x * y == y * x,
{
    assert(x * y == y * x) by (nonlinear_arith);
}

/// The product of two doubled sums or differences.
pub proof fn lemma_pair_times_pair(p: int, q: int, r: int, s: int)
    ensures
        (2 * (p + q)) * (2 * (r + s)) == 4 * (p * r + p * s + q * r + q * s),
        (2 * (p + q)) * (2 * (r - s)) == 4 * (p * r - p * s + q * r - q * s),
        (2 * (p - q)) * (2 * (r + s)) == 4 * (p * r + p * s - q * r - q * s),
        (2 * (p - q)) * (2 * (r - s)) == 4 * (p * r - p * s - q * r + q * s),
{
    assert((2 * (p + q)) * (2 * (r + s)) == 4 * (p * r + p * s + q * r + q * s))
        by (nonlinear_arith);
    assert((2 * (p + q)) * (2 * (r - s)) == 4 * (p * r - p * s + q * r - q * s))
        by (nonlinear_arith);
    assert((2 * (p - q)) * (2 * (r + s)) == 4 * (p * r + p * s - q * r - q * s))
        by (nonlinear_arith);
    assert((2 * (p - q)) * (2 * (r - s)) == 4 * (p * r - p * s - q * r + q * s))
        by (nonlinear_arith);
}

/// The product of a sum of four signed terms and a doubled sum or difference.
pub proof fn lemma_four_times_pair(a: int, b: int, c: int, d: int, p: int, q: int)
    ensures
        (a + b + c + d) * (2 * (p + q)) == 2 * (a * p + b * p + c * p + d * p + a * q + b * q
            + c * q + d * q),
        (a + b + c + d) * (2 * (p - q)) == 2 * (a * p + b * p + c * p + d * p - a * q - b * q
            - c * q - d * q),
        (a + b - c - d) * (2 * (p + q)) == 2 * (a * p + b * p - c * p - d * p + a * q + b * q
            - c * q - d * q),
        (a + b - c - d) * (2 * (p - q)) == 2 * (a * p + b * p - c * p - d * p - a * q - b * q
            + c * q + d * q),
{
    assert((a + b + c + d) * (2 * (p + q)) == 2 * (a * p + b * p + c * p + d * p + a * q + b
        * q + c * q + d * q)) by (nonlinear_arith);
    assert((a + b + c + d) * (2 * (p - q)) == 2 * (a * p + b * p + c * p + d * p - a * q - b
        * q - c * q - d * q)) by (nonlinear_arith);
    assert((a + b - c - d) * (2 * (p + q)) == 2 * (a * p + b * p - c * p - d * p + a * q + b
        * q - c * q - d * q)) by (nonlinear_arith);
    assert((a + b - c - d) * (2 * (p - q)) == 2 * (a * p + b * p - c * p - d * p - a * q - b
        * q + c * q + d * q)) by (nonlinear_arith);
}

/// The square of a sum of two parts from which one part is taken twice.
pub proof fn lemma_square_of_difference(e: int, f: int)
    ensures
        (f - e) * (f - e) == (e + f) * (e + f) - 4 * (e * f),
{
    assert((f - e) * (f - e) == (e + f) * (e + f) - 4 * (e * f)) by (nonlinear_arith);
}

/// Multiplication distributes over a difference.
pub proof fn lemma_times_difference(a: int, x: int, y: int)
    ensures
        a * (x - y) == a * x - a * y,
{
    assert(a * (x - y) == a * x - a * y) by (nonlinear_arith);
}

/// A sum times the difference of the same two numbers.
pub proof fn lemma_sum_times_difference(a: int, b: int)
    ensures
        (a + b) * (a - b) == a * a - b * b,
{
    assert((a + b) * (a - b) == a * a - b * b) by (nonlinear_arith);
}

/// The product of two sums of two terms.
pub proof fn lemma_two_times_two(a: int, b: int, c: int, d: int)
    ensures
        (a + b) * (c + d) == a * c + a * d + b * c + b * d,
        (a - b) * (c - d) == a * c - a * d - b * c + b * d,
{
    assert((a + b) * (c + d) == a * c + a * d + b * c + b * d) by (nonlinear_arith);
    assert((a - b) * (c - d) == a * c - a * d - b * c + b * d) by (nonlinear_arith);
}

/// Three numbers, each multiplied by `n` times itself, add up to `n` times the sum of
/// their squares.
pub proof fn lemma_weighted_squares(n: int, x: int, y: int, z: int)
    ensures
        x * (n * x) + y * (n * y) + z * (n * z) == n * (x * x + y * y + z * z),
{
    assert(x * (n * x) == n * (x * x)) by (nonlinear_arith);
    assert(y * (n * y) == n * (y * y)) by (nonlinear_arith);
    assert(z * (n * z) == n * (z * z)) by (nonlinear_arith);
    assert(n * (x * x + y * y + z * z) == n * (x * x) + n * (y * y) + n * (z * z))
        by (nonlinear_arith);
}

/// The product of two numbers that were both multiplied by `k`.
pub proof fn lemma_scaled_factors(k: int, x: int, y: int)
    ensures
        (k * x) * (k * y) == (k * k) * (x * y),
{
    assert((k * x) * (k * y) == (k * k) * (x * y)) by (nonlinear_arith);
}

/// A factor in front of the entries of a rotation matrix goes into their terms.
pub proof fn lemma_scaled_entries(k: int, n: int, e: int, f: int)
    ensures
        k * (n - 2 * (e + f)) == k * n - 2 * (k * e + k * f),
        k * (2 * (e + f)) == 2 * (k * e + k * f),
        k * (2 * (e - f)) == 2 * (k * e - k * f),
{
    assert(k * (n - 2 * (e + f)) == k * n - 2 * (k * e + k * f)) by (nonlinear_arith);
    assert(k * (2 * (e + f)) == 2 * (k * e + k * f)) by (nonlinear_arith);
    assert(k * (2 * (e - f)) == 2 * (k * e - k * f)) by (nonlinear_arith);
}

/// A fraction keeps its value when numerator and denominator take the same factor.
pub proof fn lemma_scaled_fraction(v: int, k: int, n: int)
    ensures
        v * (k * n) == (k * v) * n,
{
    assert(v * (k * n) == (k * v) * n) by (nonlinear_arith);
}

/// The square of a number that is not zero is positive.
pub proof fn lemma_square_positive(k: int)
    requires
        k != 0,
    ensures
        k * k > 0,
{
    assert(k * k > 0) by (nonlinear_arith)
        requires
            k != 0,
    ;
}

/// A positive factor times a number is zero only if the number is.
pub proof fn lemma_product_zero(k: int, n: int)
    requires
        k > 0,
    ensures
        k * n == 0 <==> n == 0,
{
    assert(k * n == 0 <==> n == 0) by (nonlinear_arith)
        requires
            k > 0,
    ;
}

} // verus!
