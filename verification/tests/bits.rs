use brains::fbits::{
    exec_ge, exec_gt, exec_is_finite, exec_is_nan, exec_is_zero, exec_le, exec_lt, exec_rank_key,
};

fn bits(x: f64) -> u64 {
    x.to_bits()
}

#[test]
fn classification_matches_the_doubles() {
    assert!(exec_is_nan(bits(f64::NAN)));
    assert!(!exec_is_nan(bits(1.5)));
    assert!(exec_is_finite(bits(1.5)));
    assert!(!exec_is_finite(bits(f64::INFINITY)));
    assert!(!exec_is_finite(bits(f64::NAN)));
    assert!(exec_is_zero(bits(0.0)));
    assert!(exec_is_zero(bits(-0.0)));
    assert!(!exec_is_zero(bits(1e-300)));
}

#[test]
fn comparisons_match_the_doubles() {
    let cases = [
        -f64::INFINITY,
        -3.5,
        -1.0,
        -0.0,
        0.0,
        1e-30,
        0.02,
        1.0,
        2.5,
        f64::INFINITY,
    ];
    for &a in &cases {
        for &b in &cases {
            assert_eq!(exec_lt(bits(a), bits(b)), a < b, "{} < {}", a, b);
            assert_eq!(exec_le(bits(a), bits(b)), a <= b, "{} <= {}", a, b);
            assert_eq!(exec_gt(bits(a), bits(b)), a > b, "{} > {}", a, b);
            assert_eq!(exec_ge(bits(a), bits(b)), a >= b, "{} >= {}", a, b);
        }
    }
}

#[test]
fn nan_compares_false_both_ways() {
    let n = bits(f64::NAN);
    let x = bits(1.0);
    assert!(!exec_lt(n, x) && !exec_lt(x, n));
    assert!(!exec_le(n, x) && !exec_ge(n, x));
    assert!(!exec_gt(n, x) && !exec_gt(x, n));
}

#[test]
fn rank_keys_order_fitness_with_nan_lowest() {
    let nan = exec_rank_key(bits(f64::NAN));
    let neg = exec_rank_key(bits(-2.0));
    let zero = exec_rank_key(bits(0.0));
    let neg_zero = exec_rank_key(bits(-0.0));
    let one = exec_rank_key(bits(1.0));
    let inf = exec_rank_key(bits(f64::INFINITY));
    assert!(nan < neg);
    assert!(neg < zero);
    assert_eq!(zero, neg_zero);
    assert!(zero < one);
    assert!(one < inf);
}
