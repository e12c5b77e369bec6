//! What holds of every rotation matrix that a quaternion gives.

use vstd::prelude::*;
use crate::algebra::{
    lemma_commute, lemma_four_times_pair, lemma_pair_times_pair, lemma_product_zero,
    lemma_scaled_entries, lemma_scaled_factors, lemma_scaled_fraction,
    lemma_square_of_difference, lemma_square_positive, lemma_sum_times_difference,
    lemma_times_difference, lemma_two_times_two, lemma_weighted_squares,
};
use crate::model::{
    column_dot, det3, is_identity_matrix, is_rotation, quat_rotation, rotation_numerators,
    same_matrix, RationalMatrix,
};
use crate::squares::{lemma_sum_of_squares_four, lemma_sum_of_squares_scaled, sum_of_squares};
use crate::validate::QuatError;

verus! {

/// The determinant of the matrix with the rows `(a, b, c)`, `(d, e, f)` and `(g, h, i)`
/// is the last column times the cross product of the first two.
proof fn lemma_det3_by_last_column(
    a: int, b: int, c: int, d: int, e: int, f: int, g: int, h: int, i: int,
)
    ensures
        a * (e * i - f * h) - b * (d * i - f * g) + c * (d * h - e * g)
            == c * (d * h - g * e) + f * (g * b - a * h) + i * (a * e - d * b),
{
    lemma_times_difference(a, e * i, f * h);
    lemma_times_difference(b, d * i, f * g);
    lemma_times_difference(c, d * h, e * g);
    lemma_times_difference(c, d * h, g * e);
    lemma_times_difference(f, g * b, a * h);
    lemma_times_difference(i, a * e, d * b);
    assert(a * (e * i) == i * (a * e)) by (nonlinear_arith);
    assert(a * (f * h) == f * (a * h)) by (nonlinear_arith);
    assert(b * (d * i) == i * (d * b)) by (nonlinear_arith);
    assert(b * (f * g) == f * (g * b)) by (nonlinear_arith);
    assert(c * (e * g) == c * (g * e)) by (nonlinear_arith);
}

/// The ten products of two components of a quaternion `(w, x, y, z)`, as far as the
/// proofs need to know them: `a, b, c, d` stand for the squares of `w, x, y, z`, and
/// `p, q, r, s, t, u` for `xy, zw, xz, yw, yz, xw`.
spec fn products_agree(
    a: int, b: int, c: int, d: int, p: int, q: int, r: int, s: int, t: int, u: int,
) -> bool {
    &&& p * p == b * c
    &&& q * q == a * d
    &&& r * r == b * d
    &&& s * s == a * c
    &&& t * t == c * d
    &&& u * u == a * b
    &&& p * q == r * s
    &&& q * p == r * s
    &&& s * r == r * s
    &&& t * u == r * s
    &&& u * t == r * s
    &&& r * t == d * p
    &&& r * u == b * q
    &&& s * t == c * q
    &&& s * u == a * p
    &&& p * t == c * r
    &&& p * u == b * s
    &&& q * t == d * s
    &&& q * u == a * r
    &&& p * r == b * t
    &&& p * s == c * u
    &&& q * r == d * u
    &&& q * s == a * t
}

/// The products of the components of any quaternion agree.
proof fn lemma_products_agree(w: int, x: int, y: int, z: int)
    ensures
        products_agree(w * w, x * x, y * y, z * z, x * y, z * w, x * z, y * w, y * z, x * w),
{
    assert((x * y) * (x * y) == (x * x) * (y * y)) by (nonlinear_arith);
    assert((z * w) * (z * w) == (w * w) * (z * z)) by (nonlinear_arith);
    assert((x * z) * (x * z) == (x * x) * (z * z)) by (nonlinear_arith);
    assert((y * w) * (y * w) == (w * w) * (y * y)) by (nonlinear_arith);
    assert((y * z) * (y * z) == (y * y) * (z * z)) by (nonlinear_arith);
    assert((x * w) * (x * w) == (w * w) * (x * x)) by (nonlinear_arith);
    assert((x * y) * (z * w) == (x * z) * (y * w)) by (nonlinear_arith);
    assert((z * w) * (x * y) == (x * z) * (y * w)) by (nonlinear_arith);
    assert((y * w) * (x * z) == (x * z) * (y * w)) by (nonlinear_arith);
    assert((y * z) * (x * w) == (x * z) * (y * w)) by (nonlinear_arith);
    assert((x * w) * (y * z) == (x * z) * (y * w)) by (nonlinear_arith);
    assert((x * z) * (y * z) == (z * z) * (x * y)) by (nonlinear_arith);
    assert((x * z) * (x * w) == (x * x) * (z * w)) by (nonlinear_arith);
    assert((y * w) * (y * z) == (y * y) * (z * w)) by (nonlinear_arith);
    assert((y * w) * (x * w) == (w * w) * (x * y)) by (nonlinear_arith);
    assert((x * y) * (y * z) == (y * y) * (x * z)) by (nonlinear_arith);
    assert((x * y) * (x * w) == (x * x) * (y * w)) by (nonlinear_arith);
    assert((z * w) * (y * z) == (z * z) * (y * w)) by (nonlinear_arith);
    assert((z * w) * (x * w) == (w * w) * (x * z)) by (nonlinear_arith);
    assert((x * y) * (x * z) == (x * x) * (y * z)) by (nonlinear_arith);
    assert((x * y) * (y * w) == (y * y) * (x * w)) by (nonlinear_arith);
    assert((z * w) * (x * z) == (z * z) * (x * w)) by (nonlinear_arith);
    assert((z * w) * (y * w) == (w * w) * (y * z)) by (nonlinear_arith);
}

/// The numerators of a rotation matrix, written over the ten products of
/// `products_agree`. The denominator is `a + b + c + d`.
spec fn numerators_of_products(
    a: int, b: int, c: int, d: int, p: int, q: int, r: int, s: int, t: int, u: int,
) -> Seq<Seq<int>> {
    let n = a + b + c + d;
    seq![
        seq![n - 2 * (c + d), 2 * (p - q), 2 * (r + s)],
        seq![2 * (p + q), n - 2 * (b + d), 2 * (t - u)],
        seq![2 * (r - s), 2 * (t + u), n - 2 * (b + c)],
    ]
}

/// Every column of the numerators has the squared length `n * n`.
proof fn lemma_columns_have_length(
    a: int, b: int, c: int, d: int, p: int, q: int, r: int, s: int, t: int, u: int,
)
    requires
        products_agree(a, b, c, d, p, q, r, s, t, u),
    ensures
        ({
            let n = a + b + c + d;
            let m = numerators_of_products(a, b, c, d, p, q, r, s, t, u);
            &&& column_dot(m, 0, 0) == n * n
            &&& column_dot(m, 1, 1) == n * n
            &&& column_dot(m, 2, 2) == n * n
        }),
{
    let n = a + b + c + d;
    let m = numerators_of_products(a, b, c, d, p, q, r, s, t, u);
    assert(column_dot(m, 0, 0) == n * n) by {
        lemma_square_of_difference(c + d, a + b);
        lemma_two_times_two(c, d, a, b);
        lemma_commute(c, a);
        lemma_commute(c, b);
        lemma_commute(d, a);
        lemma_commute(d, b);
        lemma_pair_times_pair(p, q, p, q);
        lemma_pair_times_pair(r, s, r, s);
        assert(m[0][0] == (a + b) - (c + d));
        assert(n == (c + d) + (a + b));
    }
    assert(column_dot(m, 1, 1) == n * n) by {
        lemma_square_of_difference(b + d, a + c);
        lemma_two_times_two(b, d, a, c);
        lemma_commute(b, a);
        lemma_commute(d, a);
        lemma_commute(d, c);
        lemma_pair_times_pair(p, q, p, q);
        lemma_pair_times_pair(t, u, t, u);
        assert(m[1][1] == (a + c) - (b + d));
        assert(n == (b + d) + (a + c));
    }
    assert(column_dot(m, 2, 2) == n * n) by {
        lemma_square_of_difference(b + c, a + d);
        lemma_two_times_two(b, c, a, d);
        lemma_commute(b, a);
        lemma_commute(c, a);
        lemma_commute(b, d);
        lemma_commute(c, d);
        lemma_pair_times_pair(r, s, r, s);
        lemma_pair_times_pair(t, u, t, u);
        assert(m[2][2] == (a + d) - (b + c));
        assert(n == (b + c) + (a + d));
    }
}

/// Any two different columns of the numerators are perpendicular.
proof fn lemma_columns_perpendicular(
    a: int, b: int, c: int, d: int, p: int, q: int, r: int, s: int, t: int, u: int,
)
    requires
        products_agree(a, b, c, d, p, q, r, s, t, u),
    ensures
        ({
            let m = numerators_of_products(a, b, c, d, p, q, r, s, t, u);
            &&& column_dot(m, 0, 1) == 0
            &&& column_dot(m, 0, 2) == 0
            &&& column_dot(m, 1, 2) == 0
        }),
{
    let m = numerators_of_products(a, b, c, d, p, q, r, s, t, u);
    assert(m[0][0] == a + b - c - d);
    assert(m[1][1] == a + c - b - d);
    assert(m[2][2] == a + d - b - c);
    assert(column_dot(m, 0, 1) == 0) by {
        lemma_four_times_pair(a, b, c, d, p, q);
        lemma_commute(2 * (p + q), a + c - b - d);
        lemma_four_times_pair(a, c, b, d, p, q);
        lemma_pair_times_pair(r, s, t, u);
    }
    assert(column_dot(m, 0, 2) == 0) by {
        lemma_four_times_pair(a, b, c, d, r, s);
        lemma_pair_times_pair(p, q, t, u);
        lemma_commute(2 * (r - s), a + d - b - c);
        lemma_four_times_pair(a, d, b, c, r, s);
    }
    assert(column_dot(m, 1, 2) == 0) by {
        lemma_pair_times_pair(p, q, r, s);
        lemma_four_times_pair(a, c, b, d, t, u);
        lemma_commute(2 * (t + u), a + d - b - c);
        lemma_four_times_pair(a, d, b, c, t, u);
    }
}

/// The cross product of the first two columns of the numerators is `n` times the third.
proof fn lemma_columns_cross(
    a: int, b: int, c: int, d: int, p: int, q: int, r: int, s: int, t: int, u: int,
)
    requires
        products_agree(a, b, c, d, p, q, r, s, t, u),
    ensures
        ({
            let n = a + b + c + d;
            let m = numerators_of_products(a, b, c, d, p, q, r, s, t, u);
            &&& m[1][0] * m[2][1] - m[2][0] * m[1][1] == n * m[0][2]
            &&& m[2][0] * m[0][1] - m[0][0] * m[2][1] == n * m[1][2]
            &&& m[0][0] * m[1][1] - m[1][0] * m[0][1] == n * m[2][2]
        }),
{
    let n = a + b + c + d;
    let m = numerators_of_products(a, b, c, d, p, q, r, s, t, u);
    assert(m[0][0] == a + b - c - d);
    assert(m[1][1] == a + c - b - d);
    assert(m[2][2] == a + d - b - c);
    assert(m[1][0] * m[2][1] - m[2][0] * m[1][1] == n * m[0][2]) by {
        lemma_pair_times_pair(p, q, t, u);
        lemma_commute(2 * (r - s), a + c - b - d);
        lemma_four_times_pair(a, c, b, d, r, s);
        lemma_four_times_pair(a, b, c, d, r, s);
    }
    assert(m[2][0] * m[0][1] - m[0][0] * m[2][1] == n * m[1][2]) by {
        lemma_commute(2 * (r - s), 2 * (p - q));
        lemma_pair_times_pair(p, q, r, s);
        lemma_four_times_pair(a, b, c, d, t, u);
    }
    assert(m[0][0] * m[1][1] - m[1][0] * m[0][1] == n * m[2][2]) by {
        lemma_pair_times_pair(p, q, p, q);
        lemma_sum_times_difference(a - d, b - c);
        lemma_sum_times_difference(a + d, b + c);
        lemma_two_times_two(a, d, a, d);
        lemma_two_times_two(b, c, b, c);
        lemma_commute(d, a);
        lemma_commute(c, b);
        assert(m[0][0] == (a - d) + (b - c));
        assert(m[1][1] == (a - d) - (b - c));
        assert(n == (a + d) + (b + c));
        assert(m[2][2] == (a + d) - (b + c));
    }
}

/// The determinant of the numerators is the cube of `n`.
proof fn lemma_determinant(
    a: int, b: int, c: int, d: int, p: int, q: int, r: int, s: int, t: int, u: int,
)
    requires
        products_agree(a, b, c, d, p, q, r, s, t, u),
    ensures
        ({
            let n = a + b + c + d;
            let m = numerators_of_products(a, b, c, d, p, q, r, s, t, u);
            det3(m) == n * n * n
        }),
{
    let n = a + b + c + d;
    let m = numerators_of_products(a, b, c, d, p, q, r, s, t, u);
    lemma_columns_cross(a, b, c, d, p, q, r, s, t, u);
    lemma_columns_have_length(a, b, c, d, p, q, r, s, t, u);
    lemma_weighted_squares(n, m[0][2], m[1][2], m[2][2]);
    lemma_det3_by_last_column(
        m[0][0], m[0][1], m[0][2], m[1][0], m[1][1], m[1][2], m[2][0], m[2][1], m[2][2],
    );
    assert(column_dot(m, 2, 2) == n * n);
    assert(det3(m) == n * (n * n));
    lemma_commute(n, n * n);
}

/// The dot product of two columns does not depend on their order.
proof fn lemma_column_dot_symmetric(m: Seq<Seq<int>>, i: int, j: int)
    ensures
        column_dot(m, i, j) == column_dot(m, j, i),
{
    lemma_commute(m[0][i], m[0][j]);
    lemma_commute(m[1][i], m[1][j]);
    lemma_commute(m[2][i], m[2][j]);
}

/// The matrix of a quaternion that is not zero is a rotation: its numerators over the sum
/// of the squares of the components.
pub proof fn lemma_numerators_form_rotation(w: int, x: int, y: int, z: int)
    requires
        w * w + x * x + y * y + z * z != 0,
    ensures
        is_rotation(
            (RationalMatrix {
                numer: rotation_numerators(w, x, y, z, w * w + x * x + y * y + z * z),
                denom: w * w + x * x + y * y + z * z,
            }),
        ),
{
    let n = w * w + x * x + y * y + z * z;
    let m = rotation_numerators(w, x, y, z, n);
    let (a, b, c, d) = (w * w, x * x, y * y, z * z);
    let (p, q, r, s, t, u) = (x * y, z * w, x * z, y * w, y * z, x * w);
    assert(m =~~= numerators_of_products(a, b, c, d, p, q, r, s, t, u));
    lemma_products_agree(w, x, y, z);
    lemma_columns_have_length(a, b, c, d, p, q, r, s, t, u);
    lemma_columns_perpendicular(a, b, c, d, p, q, r, s, t, u);
    lemma_determinant(a, b, c, d, p, q, r, s, t, u);
    lemma_column_dot_symmetric(m, 1, 0);
    lemma_column_dot_symmetric(m, 2, 0);
    lemma_column_dot_symmetric(m, 2, 1);
}

/// Every quaternion of exactly four components, not all of them zero, is turned into a
/// rotation.
pub proof fn lemma_quat_rotation_is_rotation(s: Seq<i32>)
    requires
        s.len() == 4,
        sum_of_squares(s) != 0,
    ensures
        quat_rotation(s) is Ok,
        is_rotation(quat_rotation(s)->Ok_0),
{
    lemma_sum_of_squares_four(s);
    lemma_numerators_form_rotation(s[0] as int, s[1] as int, s[2] as int, s[3] as int);
}

/// Multiplying every number by `k` multiplies the numerators by `k * k`.
proof fn lemma_numerators_scaled(w: int, x: int, y: int, z: int, n: int, k: int)
    ensures
        ({
            let m = rotation_numerators(w, x, y, z, n);
            let m2 = rotation_numerators(k * w, k * x, k * y, k * z, (k * k) * n);
            forall|i: int, j: int|
                0 <= i < 3 && 0 <= j < 3 ==> #[trigger] m2[i][j] == (k * k) * m[i][j]
        }),
{
    let kk = k * k;
    lemma_scaled_factors(k, x, x);
    lemma_scaled_factors(k, y, y);
    lemma_scaled_factors(k, z, z);
    lemma_scaled_factors(k, x, y);
    lemma_scaled_factors(k, z, w);
    lemma_scaled_factors(k, x, z);
    lemma_scaled_factors(k, y, w);
    lemma_scaled_factors(k, y, z);
    lemma_scaled_factors(k, x, w);
    lemma_scaled_entries(kk, n, y * y, z * z);
    lemma_scaled_entries(kk, n, x * x, z * z);
    lemma_scaled_entries(kk, n, x * x, y * y);
    lemma_scaled_entries(kk, n, x * y, z * w);
    lemma_scaled_entries(kk, n, x * z, y * w);
    lemma_scaled_entries(kk, n, y * z, x * w);
}

/// The rotation of a quaternion does not depend on its length: where every number is
/// multiplied by the same `k`, not zero, the same matrix comes out, or the same error.
pub proof fn lemma_scaling_keeps_rotation(s: Seq<i32>, scaled: Seq<i32>, k: int)
    requires
        k != 0,
        scaled.len() == s.len(),
        forall|i: int| 0 <= i < s.len() ==> scaled[i] == k * s[i],
    ensures
        match quat_rotation(s) {
            Ok(r) => quat_rotation(scaled) is Ok && same_matrix(r, quat_rotation(scaled)->Ok_0),
            Err(e) => quat_rotation(scaled) == Err::<RationalMatrix, QuatError>(e),
        },
{
    let n = sum_of_squares(s);
    let kk = k * k;
    lemma_sum_of_squares_scaled(s, scaled, k);
    lemma_square_positive(k);
    lemma_product_zero(kk, n);
    if s.len() >= 4 && n != 0 {
        let r = quat_rotation(s)->Ok_0;
        let r2 = quat_rotation(scaled)->Ok_0;
        lemma_numerators_scaled(s[0] as int, s[1] as int, s[2] as int, s[3] as int, n, k);
        assert forall|i: int, j: int| 0 <= i < 3 && 0 <= j < 3 implies #[trigger] r.numer[i][j]
            * r2.denom == r2.numer[i][j] * r.denom by {
            lemma_scaled_fraction(r.numer[i][j], kk, n);
        }
    }
}

/// A quaternion with nothing but a real part, of whatever size, stands for the identity.
pub proof fn lemma_real_quaternion_gives_identity(s: Seq<i32>)
    requires
        s.len() == 4,
        s[0] != 0,
        s[1] == 0,
        s[2] == 0,
        s[3] == 0,
    ensures
        quat_rotation(s) is Ok,
        is_identity_matrix(quat_rotation(s)->Ok_0),
{
    lemma_sum_of_squares_four(s);
    lemma_square_positive(s[0] as int);
}

} // verus!
