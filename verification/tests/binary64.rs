use my_ray_tracer::basics::binary64::{eq, ge, gt, is_nan, lt, total_cmp, INFINITY, ONE, SIGN_BIT, ZERO};
use std::cmp::Ordering;

fn patterns() -> Vec<u64> {
    let mut all = vec![
        0.0f64.to_bits(),
        (-0.0f64).to_bits(),
        1.0f64.to_bits(),
        (-1.0f64).to_bits(),
        0.5f64.to_bits(),
        f64::INFINITY.to_bits(),
        f64::NEG_INFINITY.to_bits(),
        f64::NAN.to_bits(),
        (-f64::NAN).to_bits(),
        f64::MAX.to_bits(),
        f64::MIN.to_bits(),
        f64::MIN_POSITIVE.to_bits(),
        f64::EPSILON.to_bits(),
        1,
        SIGN_BIT + 1,
        INFINITY + 1,
        INFINITY - 1,
        u64::MAX,
        0x000F_FFFF_FFFF_FFFF,
        0x0010_0000_0000_0000,
        0x7FFF_FFFF_FFFF_FFFF,
    ];
    let mut state: u64 = 0x2545_F491_4F6C_DD1D;
    for i in 0..400 {
        state ^= state << 13;
        state ^= state >> 7;
        state ^= state << 17;
        all.push(state);
        if i % 4 == 0 {
            all.push((12.0 * (state as f64 / u64::MAX as f64) - 6.0).to_bits());
        }
    }
    all
}

#[test]
fn constants_are_the_patterns_of_their_numbers() {
    assert_eq!(ZERO, 0.0f64.to_bits());
    assert_eq!(ONE, 1.0f64.to_bits());
    assert_eq!(SIGN_BIT, (-0.0f64).to_bits());
    assert_eq!(INFINITY, f64::INFINITY.to_bits());
}

#[test]
fn not_a_number_is_told_apart() {
    for bits in patterns() {
        assert_eq!(is_nan(bits), f64::from_bits(bits).is_nan(), "{bits:#x}");
    }
    assert!(is_nan(f64::NAN.to_bits()));
    assert!(!is_nan(f64::INFINITY.to_bits()));
    assert!(!is_nan(f64::NEG_INFINITY.to_bits()));
}

#[test]
fn ordered_comparisons_agree_with_the_hardware() {
    let all = patterns();
    for &a in &all {
        for &b in &all {
            let (x, y) = (f64::from_bits(a), f64::from_bits(b));
            assert_eq!(lt(a, b), x < y, "{a:#x} < {b:#x}");
            assert_eq!(gt(a, b), x > y, "{a:#x} > {b:#x}");
            assert_eq!(ge(a, b), x >= y, "{a:#x} >= {b:#x}");
            assert_eq!(eq(a, b), x == y, "{a:#x} == {b:#x}");
        }
    }
}

#[test]
fn total_comparison_agrees_with_the_hardware() {
    let all = patterns();
    for &a in &all {
        for &b in &all {
            let (x, y) = (f64::from_bits(a), f64::from_bits(b));
            assert_eq!(total_cmp(a, b), x.total_cmp(&y), "{a:#x} against {b:#x}");
        }
    }
}

#[test]
fn zeros_are_equal_but_apart_in_the_total_order() {
    assert!(eq(ZERO, SIGN_BIT));
    assert!(!lt(SIGN_BIT, ZERO));
    assert!(ge(SIGN_BIT, ZERO));
    assert_eq!(total_cmp(SIGN_BIT, ZERO), Ordering::Less);
    assert_eq!(total_cmp(ZERO, ZERO), Ordering::Equal);
    assert_eq!(total_cmp(1, ZERO), Ordering::Greater);
}

#[test]
fn nothing_compares_with_what_is_not_a_number() {
    let nan = f64::NAN.to_bits();
    for bits in patterns() {
        assert!(!lt(nan, bits) && !lt(bits, nan));
        assert!(!gt(nan, bits) && !gt(bits, nan));
        assert!(!ge(nan, bits) && !ge(bits, nan));
        assert!(!eq(nan, bits) && !eq(bits, nan));
    }
}
