//! Rotation matrices of integer quaternions, in exact arithmetic.
//!
//! A quaternion `(w, x, y, z)` with sum of squares `n` stands for the rotation whose matrix
//! has the entries `numerators / n`. The numerators and `n` are integers, so nothing is
//! rounded.

use vstd::prelude::*;
use crate::grid::{at, cells, put, zeros, Grid};
use crate::laws::lemma_quat_rotation_is_rotation;
use crate::model::{
    is_3x3, is_identity_matrix, is_rotation, quat_rotation, rotation_numerators, RationalMatrix,
};
use crate::squares::{
    lemma_product_bounds, lemma_square_bounds, max_square, squared_norm, sum_of_squares,
};
use crate::validate::{check_quaternion, QuatError};

verus! {

/// The rotation matrix of a quaternion: nine integer numerators, kept in an `ndarray`
/// array, over one positive denominator.
pub struct RotationMatrix {
    numer: Grid,
    denom: u128,
}

impl View for RotationMatrix {
    type V = RationalMatrix;

    closed spec fn view(&self) -> RationalMatrix {
        RationalMatrix { numer: cells(self.numer), denom: self.denom as int }
    }
}

impl RotationMatrix {
    /// Three rows of three numerators over a positive denominator.
    #[verifier::type_invariant]
    pub closed spec fn wf(&self) -> bool {
        is_3x3(cells(self.numer)) && self.denom > 0
    }

    /// The numerator of the entry in row `row` and column `col`, both counted from zero;
    /// nothing outside the three rows and columns.
    pub fn numer(&self, row: usize, col: usize) -> (value: Option<i128>)
        ensures
            is_3x3(self@.numer),
            value is Some <==> row < 3 && col < 3,
            value matches Some(v) ==> v == self@.numer[row as int][col as int],
    {
        proof {
            use_type_invariant(self);
        }
        if row < 3 && col < 3 {
            Some(at(&self.numer, row, col))
        } else {
            None
        }
    }

    /// The denominator that all entries share.
    pub fn denom(&self) -> (value: u128)
        ensures
            value == self@.denom,
            value > 0,
    {
        proof {
            use_type_invariant(self);
        }
        self.denom
    }

    /// Whether the matrix is the identity.
    pub fn is_identity(&self) -> (same: bool)
        ensures
            same == is_identity_matrix(self@),
    {
        proof {
            use_type_invariant(self);
        }
        let mut row: usize = 0;
        while row < 3
            invariant
                row <= 3,
                self.wf(),
                forall|i: int, j: int|
                    0 <= i < row && 0 <= j < 3 ==> #[trigger] self@.numer[i][j] == (if i == j {
                        self@.denom
                    } else {
                        0
                    }),
            decreases 3 - row,
        {
            let mut col: usize = 0;
            while col < 3
                invariant
                    row < 3,
                    col <= 3,
                    self.wf(),
                    forall|i: int, j: int|
                        0 <= i < row && 0 <= j < 3 ==> #[trigger] self@.numer[i][j] == (if i
                            == j {
                            self@.denom
                        } else {
                            0
                        }),
                    forall|j: int|
                        0 <= j < col ==> #[trigger] self@.numer[row as int][j] == (if row == j {
                            self@.denom
                        } else {
                            0
                        }),
                decreases 3 - col,
            {
                let value = at(&self.numer, row, col);
                let wanted_here = if row == col {
                    value >= 0 && value as u128 == self.denom
                } else {
                    value == 0
                };
                if !wanted_here {
                    assert(self@.numer[row as int][col as int] != (if row == col {
                        self@.denom
                    } else {
                        0
                    }));
                    return false;
                }
                col = col + 1;
            }
            row = row + 1;
        }
        true
    }
}

/// Turns a quaternion `(w, x, y, z)`, given as the first four of `nums`, into its rotation
/// matrix. Fewer than four numbers are out of range. The denominator is the sum of the
/// squares of all the numbers given; where it is zero the argument is invalid. Numbers
/// after the fourth count for the denominator only; without them the matrix is a rotation.
pub fn quat_to_rot_mtx(nums: Vec<i32>) -> (result: Result<RotationMatrix, QuatError>)
    ensures
        match result {
            Ok(m) => quat_rotation(nums@) == Ok::<RationalMatrix, QuatError>(m@),
            Err(e) => quat_rotation(nums@) == Err::<RationalMatrix, QuatError>(e),
        },
        nums.len() == 4 ==> (result matches Ok(m) ==> is_rotation(m@)),
{
    proof {
        if nums.len() == 4 && sum_of_squares(nums@) != 0 {
            lemma_quat_rotation_is_rotation(nums@);
        }
    }
    let total = squared_norm(&nums);
    match check_quaternion(nums.len(), total == 0) {
        Err(e) => Err(e),
        Ok(()) => {
            let w: i128 = nums[0] as i128;
            let x: i128 = nums[1] as i128;
            let y: i128 = nums[2] as i128;
            let z: i128 = nums[3] as i128;
            proof {
                lemma_square_bounds(nums[1]);
                lemma_square_bounds(nums[2]);
                lemma_square_bounds(nums[3]);
                lemma_product_bounds(nums[1], nums[2]);
                lemma_product_bounds(nums[1], nums[3]);
                lemma_product_bounds(nums[2], nums[3]);
                lemma_product_bounds(nums[1], nums[0]);
                lemma_product_bounds(nums[2], nums[0]);
                lemma_product_bounds(nums[3], nums[0]);
                assert(total <= usize::MAX * max_square()) by (nonlinear_arith)
                    requires
                        total <= nums.len() * max_square(),
                        nums.len() <= usize::MAX,
                        max_square() >= 0,
                ;
            }
            let n: i128 = total as i128;
            let xx: i128 = x * x;
            let yy: i128 = y * y;
            let zz: i128 = z * z;
            let xy: i128 = x * y;
            let xz: i128 = x * z;
            let yz: i128 = y * z;
            let xw: i128 = x * w;
            let yw: i128 = y * w;
            let zw: i128 = z * w;
            let mut numer = zeros(3, 3);
            put(&mut numer, 0, 0, n - 2 * (yy + zz));
            put(&mut numer, 1, 0, 2 * (xy + zw));
            put(&mut numer, 2, 0, 2 * (xz - yw));
            put(&mut numer, 0, 1, 2 * (xy - zw));
            put(&mut numer, 1, 1, n - 2 * (xx + zz));
            put(&mut numer, 2, 1, 2 * (yz + xw));
            put(&mut numer, 0, 2, 2 * (xz + yw));
            put(&mut numer, 1, 2, 2 * (yz - xw));
            put(&mut numer, 2, 2, n - 2 * (xx + yy));
            proof {
                assert(cells(numer) =~~= rotation_numerators(
                    w as int,
                    x as int,
                    y as int,
                    z as int,
                    n as int,
                ));
            }
            Ok(RotationMatrix { numer, denom: total })
        },
    }
}

} // verus!
