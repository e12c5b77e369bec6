use rlgym_math::rotation::{quat_to_rot_mtx, RotationMatrix};
use rlgym_math::validate::{check_quaternion, QuatError, QUAT_LEN};

fn numerators(m: &RotationMatrix) -> [[i128; 3]; 3] {
    let mut out = [[0i128; 3]; 3];
    for row in 0..3 {
        for col in 0..3 {
            out[row][col] = m.numer(row, col).expect("inside the matrix");
        }
    }
    out
}

fn rotation(nums: Vec<i32>) -> RotationMatrix {
    match quat_to_rot_mtx(nums) {
        Ok(m) => m,
        Err(e) => panic!("no rotation: {:?}", e),
    }
}

fn column_dot(m: &[[i128; 3]; 3], i: usize, j: usize) -> i128 {
    m[0][i] * m[0][j] + m[1][i] * m[1][j] + m[2][i] * m[2][j]
}

fn determinant(m: &[[i128; 3]; 3]) -> i128 {
    m[0][0] * (m[1][1] * m[2][2] - m[1][2] * m[2][1])
        - m[0][1] * (m[1][0] * m[2][2] - m[1][2] * m[2][0])
        + m[0][2] * (m[1][0] * m[2][1] - m[1][1] * m[2][0])
}

#[test]
fn identity_quaternion_gives_identity_matrix() {
    let m = rotation(vec![1, 0, 0, 0]);
    assert_eq!(m.denom(), 1);
    assert_eq!(numerators(&m), [[1, 0, 0], [0, 1, 0], [0, 0, 1]]);
    assert!(m.is_identity());
}

#[test]
fn non_unit_quaternion_gives_identity_matrix() {
    let m = rotation(vec![2, 0, 0, 0]);
    assert_eq!(m.denom(), 4);
    assert_eq!(numerators(&m), [[4, 0, 0], [0, 4, 0], [0, 0, 4]]);
    assert!(m.is_identity());
}

#[test]
fn negative_real_quaternion_gives_identity_matrix() {
    let m = rotation(vec![-3, 0, 0, 0]);
    assert_eq!(m.denom(), 9);
    assert!(m.is_identity());
}

#[test]
fn short_input_is_out_of_range() {
    assert_eq!(quat_to_rot_mtx(vec![1, 0]).err(), Some(QuatError::OutOfRange));
    assert_eq!(quat_to_rot_mtx(vec![]).err(), Some(QuatError::OutOfRange));
    assert_eq!(quat_to_rot_mtx(vec![1, 2, 3]).err(), Some(QuatError::OutOfRange));
}

#[test]
fn short_input_of_zeros_is_out_of_range() {
    assert_eq!(quat_to_rot_mtx(vec![0, 0]).err(), Some(QuatError::OutOfRange));
}

#[test]
fn zero_quaternion_is_invalid_argument() {
    assert_eq!(quat_to_rot_mtx(vec![0, 0, 0, 0]).err(), Some(QuatError::InvalidArgument));
    assert_eq!(quat_to_rot_mtx(vec![0, 0, 0, 0, 0, 0]).err(), Some(QuatError::InvalidArgument));
}

#[test]
fn entries_follow_the_formulas() {
    let m = rotation(vec![1, 2, 3, 4]);
    assert_eq!(m.denom(), 30);
    assert_eq!(numerators(&m), [[-20, 4, 22], [20, -10, 20], [10, 28, 4]]);
    assert!(!m.is_identity());
}

#[test]
fn quarter_turns_about_the_axes() {
    // (1, 0, 0, 1) turns by a right angle about the up axis: front goes to left.
    let m = rotation(vec![1, 0, 0, 1]);
    assert_eq!(m.denom(), 2);
    assert_eq!(numerators(&m), [[0, -2, 0], [2, 0, 0], [0, 0, 2]]);
    // (1, 1, 0, 0) turns by a right angle about the front axis: left goes to up.
    let m = rotation(vec![1, 1, 0, 0]);
    assert_eq!(m.denom(), 2);
    assert_eq!(numerators(&m), [[2, 0, 0], [0, 0, -2], [0, 2, 0]]);
    // (1, 0, 1, 0) turns by a right angle about the left axis: up goes to front.
    let m = rotation(vec![1, 0, 1, 0]);
    assert_eq!(m.denom(), 2);
    assert_eq!(numerators(&m), [[0, 0, 2], [0, 2, 0], [-2, 0, 0]]);
}

#[test]
fn half_turn_about_the_front_axis() {
    let m = rotation(vec![0, 5, 0, 0]);
    assert_eq!(m.denom(), 25);
    assert_eq!(numerators(&m), [[25, 0, 0], [0, -25, 0], [0, 0, -25]]);
}

#[test]
fn matrices_are_orthogonal_with_determinant_one() {
    let quaternions: Vec<Vec<i32>> = vec![
        vec![1, 2, 3, 4],
        vec![-7, 0, 5, 11],
        vec![0, 0, 0, 9],
        vec![1000, -2000, 3000, -4000],
        vec![i32::MAX, 1, -1, i32::MIN],
        vec![46340, 46341, -46340, 3],
    ];
    for q in quaternions {
        let m = rotation(q.clone());
        let n = m.denom() as i128;
        let num = numerators(&m);
        if n < (1i128 << 40) {
            for i in 0..3 {
                for j in 0..3 {
                    let wanted = if i == j { n * n } else { 0 };
                    assert_eq!(column_dot(&num, i, j), wanted, "columns {} and {} of {:?}", i, j, q);
                }
            }
            assert_eq!(determinant(&num), n * n * n, "determinant of {:?}", q);
        } else {
            // The products no longer fit: compare as fractions of the denominator.
            let r: Vec<Vec<f64>> = num
                .iter()
                .map(|row| row.iter().map(|v| *v as f64 / n as f64).collect())
                .collect();
            for i in 0..3 {
                for j in 0..3 {
                    let dot: f64 = (0..3).map(|k| r[k][i] * r[k][j]).sum();
                    let wanted = if i == j { 1.0 } else { 0.0 };
                    assert!((dot - wanted).abs() < 1e-12, "columns {} and {} of {:?}", i, j, q);
                }
            }
        }
    }
}

#[test]
fn matrix_agrees_with_floating_point_formulas() {
    let q = [3, -1, 4, 1];
    let m = rotation(q.to_vec());
    let (w, x, y, z) = (q[0] as f64, q[1] as f64, q[2] as f64, q[3] as f64);
    let s = 1.0 / (w * w + x * x + y * y + z * z);
    let wanted = [
        [1.0 - 2.0 * s * (y * y + z * z), 2.0 * s * (x * y - z * w), 2.0 * s * (x * z + y * w)],
        [2.0 * s * (x * y + z * w), 1.0 - 2.0 * s * (x * x + z * z), 2.0 * s * (y * z - x * w)],
        [2.0 * s * (x * z - y * w), 2.0 * s * (y * z + x * w), 1.0 - 2.0 * s * (x * x + y * y)],
    ];
    let num = numerators(&m);
    for row in 0..3 {
        for col in 0..3 {
            let got = num[row][col] as f64 / m.denom() as f64;
            assert!((got - wanted[row][col]).abs() < 1e-12, "entry {} {}", row, col);
        }
    }
}

#[test]
fn scaling_the_quaternion_keeps_the_matrix() {
    let m = rotation(vec![1, 2, 3, 4]);
    for k in [-5i32, -1, 2, 3, 1000] {
        let scaled = rotation(vec![k, 2 * k, 3 * k, 4 * k]);
        let kk = (k as i128) * (k as i128);
        assert_eq!(scaled.denom() as i128, kk * m.denom() as i128);
        let (a, b) = (numerators(&m), numerators(&scaled));
        for row in 0..3 {
            for col in 0..3 {
                assert_eq!(b[row][col], kk * a[row][col]);
                assert_eq!(a[row][col] * scaled.denom() as i128, b[row][col] * m.denom() as i128);
            }
        }
    }
}

#[test]
fn numbers_after_the_fourth_count_for_the_denominator_only() {
    let m = rotation(vec![1, 1, 0, 0, 3]);
    assert_eq!(m.denom(), 11);
    assert_eq!(numerators(&m), [[11, 0, 0], [0, 9, -2], [0, 2, 9]]);
    let m = rotation(vec![0, 0, 0, 0, 1]);
    assert_eq!(m.denom(), 1);
    assert_eq!(numerators(&m), [[1, 0, 0], [0, 1, 0], [0, 0, 1]]);
}

#[test]
fn largest_components_do_not_overflow() {
    let m = rotation(vec![i32::MIN, i32::MIN, i32::MIN, i32::MIN]);
    let sq: i128 = 1i128 << 62;
    assert_eq!(m.denom(), 1u128 << 64);
    assert_eq!(numerators(&m), [[0, 0, 4 * sq], [4 * sq, 0, 0], [0, 4 * sq, 0]]);
    let m = rotation(vec![i32::MAX, i32::MIN, i32::MAX, i32::MIN]);
    let (a, b) = (i32::MAX as i128, i32::MIN as i128);
    let n = 2 * a * a + 2 * b * b;
    assert_eq!(m.denom() as i128, n);
    assert_eq!(
        numerators(&m),
        [
            [n - 2 * (a * a + b * b), 2 * (b * a - b * a), 2 * (b * b + a * a)],
            [2 * (b * a + b * a), n - 2 * (b * b + b * b), 2 * (a * b - b * a)],
            [2 * (b * b - a * a), 2 * (a * b + b * a), n - 2 * (b * b + a * a)],
        ]
    );
}

#[test]
fn entries_outside_the_matrix_are_none() {
    let m = rotation(vec![1, 2, 3, 4]);
    assert_eq!(m.numer(3, 0), None);
    assert_eq!(m.numer(0, 3), None);
    assert_eq!(m.numer(usize::MAX, usize::MAX), None);
    assert_eq!(m.numer(2, 2), Some(4));
}

#[test]
fn check_quaternion_tells_the_errors_apart() {
    assert_eq!(QUAT_LEN, 4);
    assert_eq!(check_quaternion(0, false), Err(QuatError::OutOfRange));
    assert_eq!(check_quaternion(3, false), Err(QuatError::OutOfRange));
    assert_eq!(check_quaternion(3, true), Err(QuatError::OutOfRange));
    assert_eq!(check_quaternion(4, true), Err(QuatError::InvalidArgument));
    assert_eq!(check_quaternion(9, true), Err(QuatError::InvalidArgument));
    assert_eq!(check_quaternion(4, false), Ok(()));
    assert_eq!(check_quaternion(usize::MAX, false), Ok(()));
}
