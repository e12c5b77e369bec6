use rlgym_math::norm::{isqrt, norm_func};
use rlgym_math::squares::squared_norm;

#[test]
fn norm_of_empty_vector_is_zero() {
    assert_eq!(norm_func(vec![]), 0);
}

#[test]
fn norm_of_three_four_is_five() {
    assert_eq!(norm_func(vec![3, 4]), 5);
}

#[test]
fn norm_of_four_ones_is_two() {
    assert_eq!(norm_func(vec![1, 1, 1, 1]), 2);
}

#[test]
fn norm_is_zero_only_for_zeros() {
    assert_eq!(norm_func(vec![0]), 0);
    assert_eq!(norm_func(vec![0, 0, 0, 0, 0]), 0);
    assert_eq!(norm_func(vec![0, 0, 1]), 1);
    assert_eq!(norm_func(vec![0, -1, 0]), 1);
    assert_eq!(norm_func(vec![1]), 1);
}

#[test]
fn norm_ignores_signs() {
    assert_eq!(norm_func(vec![-3, 4]), 5);
    assert_eq!(norm_func(vec![-3, -4]), 5);
    assert_eq!(norm_func(vec![-12, 5]), 13);
}

#[test]
fn norm_is_rounded_down() {
    assert_eq!(norm_func(vec![1, 1]), 1);
    assert_eq!(norm_func(vec![2, 2]), 2);
    assert_eq!(norm_func(vec![1, 2, 3]), 3);
    assert_eq!(norm_func(vec![10, 10, 10]), 17);
}

#[test]
fn norm_agrees_with_floating_point_square_root() {
    let vectors: Vec<Vec<i32>> = vec![
        vec![7, 24],
        vec![1, 2, 3, 4, 5, 6],
        vec![-100, 250, 3],
        vec![65536, 65536],
        vec![99999, -1],
    ];
    for v in vectors {
        let sum: f64 = v.iter().map(|x| (*x as f64) * (*x as f64)).sum();
        assert_eq!(norm_func(v.clone()), sum.sqrt().floor() as u64, "norm of {:?}", v);
    }
}

#[test]
fn norm_of_largest_components() {
    assert_eq!(norm_func(vec![i32::MIN]), 1u64 << 31);
    assert_eq!(norm_func(vec![i32::MAX]), (1u64 << 31) - 1);
    assert_eq!(norm_func(vec![i32::MIN; 4]), 1u64 << 32);
    assert_eq!(norm_func(vec![i32::MIN; 16]), 1u64 << 33);
}

#[test]
fn squared_norm_adds_the_squares() {
    assert_eq!(squared_norm(&vec![]), 0);
    assert_eq!(squared_norm(&vec![3, 4]), 25);
    assert_eq!(squared_norm(&vec![-2, -2, -2]), 12);
    assert_eq!(squared_norm(&vec![i32::MIN, i32::MIN]), 1u128 << 63);
    assert_eq!(squared_norm(&vec![i32::MIN; 1000]), 1000u128 << 62);
}

#[test]
fn isqrt_is_the_integer_part_of_the_root() {
    let wanted: [(u128, u64); 12] = [
        (0, 0),
        (1, 1),
        (2, 1),
        (3, 1),
        (4, 2),
        (8, 2),
        (9, 3),
        (15, 3),
        (16, 4),
        (24, 4),
        (25, 5),
        (1_000_000, 1000),
    ];
    for (n, r) in wanted {
        assert_eq!(isqrt(n), r, "root of {}", n);
    }
}

#[test]
fn isqrt_of_large_numbers() {
    assert_eq!(isqrt(u128::MAX), u64::MAX);
    assert_eq!(isqrt(1u128 << 126), 1u64 << 63);
    assert_eq!(isqrt((1u128 << 126) - 1), (1u64 << 63) - 1);
    let r: u128 = 0xdead_beef_cafe_f00d;
    assert_eq!(isqrt(r * r), r as u64);
    assert_eq!(isqrt(r * r - 1), r as u64 - 1);
    assert_eq!(isqrt(r * r + 2 * r), r as u64);
    assert_eq!(isqrt(r * r + 2 * r + 1), r as u64 + 1);
}
