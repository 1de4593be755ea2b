//! Real numbers held as binary64 bit patterns, and their comparison.
//!
//! A pattern has a sign bit, eleven exponent bits and fifty-two fraction bits.
//! With the exponent field at its top and a fraction that is not zero, the
//! pattern is not a number. Every other pattern stands for a whole multiple of
//! two to the power of -1074: `value` is that multiple, and the infinities
//! stand beyond every finite one. Numbers compare by their values; every
//! ordered comparison with a pattern that is not a number is false.
//!
//! The module compares and classifies patterns. It does no arithmetic on the
//! numbers they stand for.

use std::cmp::Ordering;
use vstd::arithmetic::power2::{
    lemma2_to64_rest, lemma_pow2_adds, lemma_pow2_pos, lemma_pow2_strictly_increases,
    lemma_pow2_unfold, pow2,
};
use vstd::prelude::*;

verus! {

/// The pattern that has the sign bit alone; it is negative zero.
pub const SIGN_BIT: u64 = 0x8000_0000_0000_0000;

/// The pattern of positive infinity.
pub const INFINITY: u64 = 0x7FF0_0000_0000_0000;

/// The pattern of positive zero.
pub const ZERO: u64 = 0;

/// The pattern of the number one.
pub const ONE: u64 = 0x3FF0_0000_0000_0000;

/// The number of patterns that one exponent spans: two to the power of 52.
pub const FRACTION_SPAN: u64 = 0x0010_0000_0000_0000;

/// The exponent field of the infinities and of the patterns that are not
/// numbers.
pub const TOP_EXPONENT: u64 = 2047;

/// Whether the sign bit is set.
pub open spec fn negative(bits: u64) -> bool {
    bits >= SIGN_BIT
}

/// The pattern without its sign bit.
pub open spec fn magnitude(bits: u64) -> int {
    if bits >= SIGN_BIT {
        bits - SIGN_BIT
    } else {
        bits as int
    }
}

/// The exponent field.
pub open spec fn exponent(bits: u64) -> int {
    magnitude(bits) / (FRACTION_SPAN as int)
}

/// The fraction field.
pub open spec fn fraction(bits: u64) -> int {
    magnitude(bits) % (FRACTION_SPAN as int)
}

/// Whether the pattern is not a number.
pub open spec fn nan(bits: u64) -> bool {
    exponent(bits) == TOP_EXPONENT && fraction(bits) != 0
}

/// The absolute value of a number, in units of two to the power of -1074.
/// With the exponent field at zero it is the fraction; above, the fraction
/// has a leading one before it and doubles with each step of the exponent.
pub open spec fn size(bits: u64) -> int {
    if exponent(bits) == 0 {
        fraction(bits)
    } else {
        (FRACTION_SPAN + fraction(bits)) * pow2((exponent(bits) - 1) as nat)
    }
}

/// The number that a pattern stands for, in units of two to the power of
/// -1074. Both zeros have the value 0.
pub open spec fn value(bits: u64) -> int {
    if negative(bits) {
        -size(bits)
    } else {
        size(bits)
    }
}

/// `a < b` as numbers.
pub open spec fn below(a: u64, b: u64) -> bool {
    !nan(a) && !nan(b) && value(a) < value(b)
}

/// `a > b` as numbers.
pub open spec fn above(a: u64, b: u64) -> bool {
    below(b, a)
}

/// `a >= b` as numbers.
pub open spec fn at_least(a: u64, b: u64) -> bool {
    !nan(a) && !nan(b) && value(a) >= value(b)
}

/// `a == b` as numbers: the two zeros are equal, and nothing equals a pattern
/// that is not a number.
pub open spec fn equal(a: u64, b: u64) -> bool {
    !nan(a) && !nan(b) && value(a) == value(b)
}

/// The pattern read as a sign and a magnitude: the magnitude field, negated
/// where the sign bit is set.
pub open spec fn rank(bits: u64) -> int {
    if negative(bits) {
        -magnitude(bits)
    } else {
        magnitude(bits)
    }
}

/// The place of a pattern in the total order over all patterns: negative
/// patterns from the largest magnitude up to negative zero, then positive zero
/// up to the largest positive magnitude.
pub open spec fn total_rank(bits: u64) -> int {
    if bits >= SIGN_BIT {
        -1 - (bits - SIGN_BIT)
    } else {
        bits as int
    }
}

/// The three-way comparison of two integers.
pub open spec fn three_way(a: int, b: int) -> Ordering {
    if a < b {
        Ordering::Less
    } else if a == b {
        Ordering::Equal
    } else {
        Ordering::Greater
    }
}

/// A pattern is not a number exactly when its magnitude field lies beyond
/// that of infinity.
pub proof fn nan_is_beyond_infinity(bits: u64)
    ensures
        nan(bits) <==> magnitude(bits) > INFINITY,
{
}

/// Of two patterns the one with the larger magnitude field has the larger
/// size.
pub proof fn size_grows_with_magnitude(a: u64, b: u64)
    requires
        magnitude(a) < magnitude(b),
    ensures
        0 <= size(a) < size(b),
{
    let span = FRACTION_SPAN as int;
    let (ea, fa) = (exponent(a), fraction(a));
    let (eb, fb) = (exponent(b), fraction(b));
    assert(0 <= ea <= eb && 0 <= fa < span && 0 <= fb < span);
    if ea == 0 {
        if eb > 0 {
            let pb = pow2((eb - 1) as nat) as int;
            lemma_pow2_pos((eb - 1) as nat);
            assert(span * 1 <= (span + fb) * pb) by (nonlinear_arith)
                requires
                    pb >= 1,
                    fb >= 0,
                    span > 0,
            ;
        }
    } else {
        let pa = pow2((ea - 1) as nat) as int;
        lemma_pow2_pos((ea - 1) as nat);
        assert(0 <= (span + fa) * pa) by (nonlinear_arith)
            requires
                pa >= 1,
                fa >= 0,
                span > 0,
        ;
        if ea == eb {
            assert((span + fa) * pa < (span + fb) * pa) by (nonlinear_arith)
                requires
                    pa >= 1,
                    fa < fb,
            ;
        } else {
            let pb = pow2((eb - 1) as nat) as int;
            lemma_pow2_unfold(ea as nat);
            if ea < eb - 1 {
                lemma_pow2_strictly_increases(ea as nat, (eb - 1) as nat);
            }
            assert(2 * pa <= pb);
            assert((span + fa) * pa < (span + fb) * pb) by (nonlinear_arith)
                requires
                    pa >= 1,
                    2 * pa <= pb,
                    0 <= fa < span,
                    0 <= fb,
            ;
        }
    }
}

/// Patterns are ordered by their values as they are by sign and magnitude
/// field.
pub proof fn value_follows_rank(a: u64, b: u64)
    ensures
        value(a) < value(b) <==> rank(a) < rank(b),
        value(a) == value(b) <==> rank(a) == rank(b),
{
    size_is_zero_at_zero(a);
    size_is_zero_at_zero(b);
    if magnitude(a) < magnitude(b) {
        size_grows_with_magnitude(a, b);
    } else if magnitude(b) < magnitude(a) {
        size_grows_with_magnitude(b, a);
    }
}

/// The size is never negative, and it is zero for the two zeros alone.
pub proof fn size_is_zero_at_zero(bits: u64)
    ensures
        size(bits) >= 0,
        size(bits) == 0 <==> magnitude(bits) == 0,
{
    if magnitude(bits) > 0 {
        if bits == SIGN_BIT + 1 || bits == 1 {
            assert(size(bits) == 1);
        } else if bits >= SIGN_BIT {
            size_grows_with_magnitude((SIGN_BIT + 1) as u64, bits);
        } else {
            size_grows_with_magnitude(1, bits);
        }
    }
}

/// The constants stand for their numbers: both zeros for 0, and `ONE` for
/// 1074 doublings of the unit.
pub proof fn constants_stand_for_their_numbers()
    ensures
        value(ZERO) == 0,
        value(SIGN_BIT) == 0,
        value(ONE) == pow2(1074),
        !nan(ZERO) && !nan(SIGN_BIT) && !nan(ONE) && !nan(INFINITY),
{
    lemma2_to64_rest();
    lemma_pow2_adds(52, 1022);
    assert(exponent(ONE) == 1023 && fraction(ONE) == 0);
}

/// Infinity lies above every other number.
pub proof fn infinity_is_above_all(bits: u64)
    requires
        !nan(bits),
        bits != INFINITY,
    ensures
        below(bits, INFINITY),
{
    value_follows_rank(bits, INFINITY);
}

/// Of two numbers exactly one holds: the first is below the second, they are
/// equal, or the first is above the second.
pub proof fn numbers_are_totally_ordered(a: u64, b: u64)
    requires
        !nan(a),
        !nan(b),
    ensures
        below(a, b) || equal(a, b) || above(a, b),
        !(below(a, b) && equal(a, b)),
        !(below(a, b) && above(a, b)),
        !(equal(a, b) && above(a, b)),
        at_least(a, b) <==> !below(a, b),
{
}

/// Two numbers are equal exactly when their patterns are the same or both are
/// zeros.
pub proof fn equal_numbers_share_a_pattern(a: u64, b: u64)
    requires
        !nan(a),
        !nan(b),
    ensures
        equal(a, b) <==> a == b || (magnitude(a) == 0 && magnitude(b) == 0),
{
    value_follows_rank(a, b);
}

/// Tells whether a pattern is not a number.
pub fn is_nan(bits: u64) -> (r: bool)
    ensures
        r == nan(bits),
{
    if bits >= SIGN_BIT {
        bits - SIGN_BIT > INFINITY
    } else {
        bits > INFINITY
    }
}

/// Tells whether `a < b` as numbers.
pub fn lt(a: u64, b: u64) -> (r: bool)
    ensures
        r == below(a, b),
{
    proof {
        value_follows_rank(a, b);
    }
    if is_nan(a) || is_nan(b) {
        false
    } else if a >= SIGN_BIT {
        if b >= SIGN_BIT {
            a > b
        } else {
            a > SIGN_BIT || b > 0
        }
    } else {
        b < SIGN_BIT && a < b
    }
}

/// Tells whether `a > b` as numbers.
pub fn gt(a: u64, b: u64) -> (r: bool)
    ensures
        r == above(a, b),
{
    lt(b, a)
}

/// Tells whether `a >= b` as numbers.
pub fn ge(a: u64, b: u64) -> (r: bool)
    ensures
        r == at_least(a, b),
{
    if is_nan(a) || is_nan(b) {
        false
    } else {
        !lt(a, b)
    }
}

/// Tells whether `a == b` as numbers.
pub fn eq(a: u64, b: u64) -> (r: bool)
    ensures
        r == equal(a, b),
{
    proof {
        value_follows_rank(a, b);
    }
    if is_nan(a) || is_nan(b) {
        false
    } else {
        a == b || ((a == ZERO || a == SIGN_BIT) && (b == ZERO || b == SIGN_BIT))
    }
}

/// Compares two patterns in the total order over all patterns.
pub fn total_cmp(a: u64, b: u64) -> (r: Ordering)
    ensures
        r == three_way(total_rank(a), total_rank(b)),
{
    if a >= SIGN_BIT {
        if b >= SIGN_BIT {
            if a > b {
                Ordering::Less
            } else if a == b {
                Ordering::Equal
            } else {
                Ordering::Greater
            }
        } else {
            Ordering::Less
        }
    } else if b >= SIGN_BIT {
        Ordering::Greater
    } else if a < b {
        Ordering::Less
    } else if a == b {
        Ordering::Equal
    } else {
        Ordering::Greater
    }
}

} // verus!
