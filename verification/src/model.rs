//! The mathematics of rotation matrices with fractions as entries: what the functions of
//! this library compute, and what it means for a matrix to be a rotation.

use vstd::prelude::*;
use crate::squares::sum_of_squares;
use crate::validate::{quaternion_verdict, QuatError};

verus! {

/// A 3-by-3 matrix of fractions with one denominator: the mathematical value of a
/// `RotationMatrix`.
pub ghost struct RationalMatrix {
    /// The numerators, row by row.
    pub numer: Seq<Seq<int>>,
    /// The denominator of every entry.
    pub denom: int,
}

/// The numerators of the rotation matrix of `(w, x, y, z)` over the denominator `n`, row by
/// row. The columns are the images of the front, left and up axes.
pub open spec fn rotation_numerators(w: int, x: int, y: int, z: int, n: int) -> Seq<Seq<int>> {
    seq![
        seq![n - 2 * (y * y + z * z), 2 * (x * y - z * w), 2 * (x * z + y * w)],
        seq![2 * (x * y + z * w), n - 2 * (x * x + z * z), 2 * (y * z - x * w)],
        seq![2 * (x * z - y * w), 2 * (y * z + x * w), n - 2 * (x * x + y * y)],
    ]
}

/// `m` has three rows of three cells.
pub open spec fn is_3x3(m: Seq<Seq<int>>) -> bool {
    m.len() == 3 && m[0].len() == 3 && m[1].len() == 3 && m[2].len() == 3
}

/// The rotation that a sequence of numbers stands for, or the reason why it stands for
/// none. The components are the first four numbers; the denominator is the sum of the
/// squares of all of them.
pub open spec fn quat_rotation(s: Seq<i32>) -> Result<RationalMatrix, QuatError> {
    match quaternion_verdict(s.len() as int, sum_of_squares(s) == 0) {
        Err(e) => Err(e),
        Ok(()) => Ok(
            RationalMatrix {
                numer: rotation_numerators(
                    s[0] as int,
                    s[1] as int,
                    s[2] as int,
                    s[3] as int,
                    sum_of_squares(s),
                ),
                denom: sum_of_squares(s),
            },
        ),
    }
}

/// `r` is the identity matrix: every entry on the diagonal is one, every other is zero.
pub open spec fn is_identity_matrix(r: RationalMatrix) -> bool {
    &&& is_3x3(r.numer)
    &&& r.denom != 0
    &&& forall|i: int, j: int|
        0 <= i < 3 && 0 <= j < 3 ==> #[trigger] r.numer[i][j] == (if i == j {
            r.denom
        } else {
            0
        })
}

/// `r1` and `r2` are the same matrix: entry by entry their fractions are equal.
pub open spec fn same_matrix(r1: RationalMatrix, r2: RationalMatrix) -> bool {
    &&& is_3x3(r1.numer)
    &&& is_3x3(r2.numer)
    &&& r1.denom != 0
    &&& r2.denom != 0
    &&& forall|i: int, j: int|
        0 <= i < 3 && 0 <= j < 3 ==> #[trigger] r1.numer[i][j] * r2.denom == r2.numer[i][j]
            * r1.denom
}

/// The dot product of columns `i` and `j` of a matrix with three rows.
pub open spec fn column_dot(m: Seq<Seq<int>>, i: int, j: int) -> int {
    m[0][i] * m[0][j] + m[1][i] * m[1][j] + m[2][i] * m[2][j]
}

/// The determinant of a 3-by-3 matrix, expanded along its first row.
pub open spec fn det3(m: Seq<Seq<int>>) -> int {
    m[0][0] * (m[1][1] * m[2][2] - m[1][2] * m[2][1])
        - m[0][1] * (m[1][0] * m[2][2] - m[1][2] * m[2][0])
        + m[0][2] * (m[1][0] * m[2][1] - m[1][1] * m[2][0])
}

/// `r` is a rotation: with `R` for the matrix of its fractions, the transpose of `R` times
/// `R` is the identity, and the determinant of `R` is one. Both are stated without
/// division: the columns of the numerators are perpendicular and have the squared length
/// `denom * denom`, and the determinant of the numerators is the cube of `denom`.
pub open spec fn is_rotation(r: RationalMatrix) -> bool {
    &&& is_3x3(r.numer)
    &&& r.denom != 0
    &&& forall|i: int, j: int|
        0 <= i < 3 && 0 <= j < 3 ==> #[trigger] column_dot(r.numer, i, j) == (if i == j {
            r.denom * r.denom
        } else {
            0
        })
    &&& det3(r.numer) == r.denom * r.denom * r.denom
}

} // verus!
