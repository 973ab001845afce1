//! Numbers as bit patterns of IEEE-754 doubles, and their order.
//!
//! The contracts speak of the number that the bits stand for ([`value`]); the
//! functions decide by the bits alone.

use vstd::prelude::*;
use vstd::arithmetic::div_mod::lemma_fundamental_div_mod;
use vstd::arithmetic::power2::{
    lemma2_to64,
    lemma2_to64_rest,
    lemma_pow2_adds,
    lemma_pow2_pos,
    lemma_pow2_strictly_increases,
    pow2,
};

verus! {

/// A double-precision number, held as its 64 bits: the sign in the highest
/// bit, the exponent and the fraction, which together are the magnitude, below.
pub type Scalar = u64;

/// The bit that carries the sign.
pub const SIGN_BIT: u64 = 0x8000_0000_0000_0000;

/// The magnitude of an infinity; every larger magnitude is not a number.
pub const INFINITY_MAGNITUDE: u64 = 0x7FF0_0000_0000_0000;

/// The magnitude of the machine epsilon, two to the power of minus 52.
pub const EPSILON_MAGNITUDE: u64 = 0x3CB0_0000_0000_0000;

/// Two to the power of 52: the magnitude of the lowest bit of the exponent.
pub const EXPONENT_UNIT: u64 = 0x0010_0000_0000_0000;

/// Positive zero.
pub const ZERO: Scalar = 0;

/// The bits below the sign.
pub open spec fn magnitude(x: Scalar) -> int {
    if x >= SIGN_BIT {
        x - SIGN_BIT
    } else {
        x as int
    }
}

/// The exponent as the bits hold it: the eleven bits under the sign.
pub open spec fn exponent(x: Scalar) -> int {
    magnitude(x) / (EXPONENT_UNIT as int)
}

/// The fraction: the 52 lowest bits.
pub open spec fn fraction(x: Scalar) -> int {
    magnitude(x) % (EXPONENT_UNIT as int)
}

/// Whether the bits stand for no number: the exponent is the highest there
/// is, and the fraction is not zero.
pub open spec fn is_nan(x: Scalar) -> bool {
    magnitude(x) > INFINITY_MAGNITUDE
}

/// The size of the number that the bits stand for, counted in the smallest
/// size that a double can have, two to the power of minus 1074: the fraction
/// where the exponent is zero, and else the fraction with a one before it,
/// doubled once for each step of the exponent above one.  An infinity
/// counts as the size that follows the largest number.
pub open spec fn size(x: Scalar) -> int {
    if exponent(x) == 0 {
        fraction(x)
    } else {
        (EXPONENT_UNIT + fraction(x)) * pow2((exponent(x) - 1) as nat)
    }
}

/// The number that the bits stand for, counted in the same unit: the size
/// with the sign.  Both zeros are the number 0.
pub open spec fn value(x: Scalar) -> int {
    if x >= SIGN_BIT {
        -size(x)
    } else {
        size(x)
    }
}

/// The magnitude with the sign in front: what the functions compare in place
/// of the numbers themselves.
pub open spec fn rank(x: Scalar) -> int {
    if x >= SIGN_BIT {
        -magnitude(x)
    } else {
        magnitude(x)
    }
}

/// `a < b` as doubles compare: false where either is no number.
pub open spec fn lt(a: Scalar, b: Scalar) -> bool {
    !is_nan(a) && !is_nan(b) && value(a) < value(b)
}

/// `a > b` as doubles compare.
pub open spec fn gt(a: Scalar, b: Scalar) -> bool {
    lt(b, a)
}

/// `x <= 0`.
pub open spec fn le_zero(x: Scalar) -> bool {
    !is_nan(x) && value(x) <= 0
}

/// `x > 0`.
pub open spec fn gt_zero(x: Scalar) -> bool {
    !is_nan(x) && value(x) > 0
}

/// `x < 0`.
pub open spec fn lt_zero(x: Scalar) -> bool {
    !is_nan(x) && value(x) < 0
}

/// `x >= 0`.
pub open spec fn ge_zero(x: Scalar) -> bool {
    !is_nan(x) && value(x) >= 0
}

/// `|x| > epsilon`, where epsilon is two to the power of minus 52: the number
/// is far enough from zero to divide by.
pub open spec fn exceeds_epsilon(x: Scalar) -> bool {
    !is_nan(x) && size(x) > pow2(1022)
}

/// The larger of `x` and `floor`, and the other one where one of the two is no
/// number.
pub open spec fn floored_at(x: Scalar, floor: Scalar) -> Scalar {
    if is_nan(floor) || gt(x, floor) {
        x
    } else {
        floor
    }
}

/// The number with the opposite sign.
pub open spec fn negated(x: Scalar) -> Scalar {
    if x >= SIGN_BIT {
        (x - SIGN_BIT) as u64
    } else {
        (x + SIGN_BIT) as u64
    }
}

/// Of two magnitudes the greater stands for the greater size.
pub proof fn lemma_size_grows_with_magnitude(a: Scalar, b: Scalar)
    requires
        magnitude(a) < magnitude(b),
    ensures
        0 <= size(a) < size(b),
{
    let unit = EXPONENT_UNIT as int;
    let (e, f) = (exponent(a), fraction(a));
    let (g, h) = (exponent(b), fraction(b));
    assert(0 <= f < unit && 0 <= h < unit && 0 <= e <= g);
    assert(magnitude(a) == e * unit + f && magnitude(b) == g * unit + h) by {
        lemma_fundamental_div_mod(magnitude(a), unit);
        lemma_fundamental_div_mod(magnitude(b), unit);
    }
    if e == g {
        if e > 0 {
            let p = pow2((e - 1) as nat) as int;
            lemma_pow2_pos((e - 1) as nat);
            assert((unit + f) * p < (unit + h) * p) by (nonlinear_arith)
                requires
                    f < h,
                    p > 0,
            ;
            assert(0 <= (unit + f) * p) by (nonlinear_arith)
                requires
                    0 <= f,
                    unit > 0,
                    p > 0,
            ;
        }
    } else {
        assert(e < g) by (nonlinear_arith)
            requires
                e * unit + f < g * unit + h,
                0 <= f < unit,
                0 <= h < unit,
                e <= g,
                e != g,
        ;
        let q = pow2((g - 1) as nat) as int;
        lemma_pow2_pos((g - 1) as nat);
        assert(unit * q <= (unit + h) * q) by (nonlinear_arith)
            requires
                0 <= h,
                q > 0,
        ;
        if e == 0 {
            assert(unit <= unit * q) by (nonlinear_arith)
                requires
                    q >= 1,
                    unit > 0,
            ;
        } else {
            let p = pow2((e - 1) as nat) as int;
            lemma_pow2_pos((e - 1) as nat);
            assert(pow2(e as nat) == 2 * p) by {
                lemma_pow2_adds(1, (e - 1) as nat);
                lemma2_to64();
            }
            assert(pow2(e as nat) <= q) by {
                if e < g - 1 {
                    lemma_pow2_strictly_increases(e as nat, (g - 1) as nat);
                }
            }
            assert((unit + f) * p < unit * (2 * p)) by (nonlinear_arith)
                requires
                    0 <= f < unit,
                    p > 0,
            ;
            assert(unit * (2 * p) <= unit * q) by (nonlinear_arith)
                requires
                    2 * p <= q,
                    unit > 0,
            ;
            assert(0 <= (unit + f) * p) by (nonlinear_arith)
                requires
                    0 <= f,
                    unit > 0,
                    p > 0,
            ;
        }
    }
}

/// The order of the ranks is the order of the numbers: of two numbers the one
/// with the smaller rank is the smaller number, and two numbers have one rank
/// where they are equal, as both zeros are.
pub proof fn lemma_rank_is_the_order_of_numbers(a: Scalar, b: Scalar)
    ensures
        rank(a) < rank(b) <==> value(a) < value(b),
        rank(a) == rank(b) <==> value(a) == value(b),
        rank(a) < 0 <==> value(a) < 0,
        rank(a) == 0 <==> value(a) == 0,
        magnitude(a) < magnitude(b) <==> size(a) < size(b),
        0 <= size(a),
{
    let zero: Scalar = 0;
    assert(size(zero) == 0);
    if magnitude(a) > 0 {
        lemma_size_grows_with_magnitude(zero, a);
    }
    if magnitude(b) > 0 {
        lemma_size_grows_with_magnitude(zero, b);
    }
    if magnitude(a) < magnitude(b) {
        lemma_size_grows_with_magnitude(a, b);
    }
    if magnitude(b) < magnitude(a) {
        lemma_size_grows_with_magnitude(b, a);
    }
}

/// The machine epsilon is two to the power of minus 52, which is two to the
/// power of 1022 of the smallest size.
pub proof fn lemma_epsilon_size()
    ensures
        size(EPSILON_MAGNITUDE) == pow2(1022),
{
    lemma2_to64();
    lemma2_to64_rest();
    assert(exponent(EPSILON_MAGNITUDE) == 971 && fraction(EPSILON_MAGNITUDE) == 0);
    assert(EXPONENT_UNIT == pow2(52));
    lemma_pow2_adds(52, 970);
}

/// How a number compares with zero can be read off its bits.
pub proof fn lemma_sign_by_bits(x: Scalar)
    ensures
        gt_zero(x) <==> 0 < x <= INFINITY_MAGNITUDE,
        lt_zero(x) <==> SIGN_BIT < x <= SIGN_BIT + INFINITY_MAGNITUDE,
        le_zero(x) <==> x == 0 || SIGN_BIT <= x <= SIGN_BIT + INFINITY_MAGNITUDE,
        ge_zero(x) <==> x <= INFINITY_MAGNITUDE || x == SIGN_BIT,
{
    lemma_rank_is_the_order_of_numbers(x, ZERO);
}

/// How two numbers compare can be read off their ranks.
pub proof fn lemma_order_by_bits(a: Scalar, b: Scalar)
    ensures
        lt(a, b) <==> !is_nan(a) && !is_nan(b) && rank(a) < rank(b),
        gt(a, b) <==> !is_nan(a) && !is_nan(b) && rank(a) > rank(b),
{
    lemma_rank_is_the_order_of_numbers(a, b);
    lemma_rank_is_the_order_of_numbers(b, a);
}

/// Whether a number is far enough from zero can be read off its magnitude.
pub proof fn lemma_epsilon_by_bits(x: Scalar)
    ensures
        exceeds_epsilon(x) <==> EPSILON_MAGNITUDE < magnitude(x) <= INFINITY_MAGNITUDE,
{
    lemma_epsilon_size();
    lemma_rank_is_the_order_of_numbers(EPSILON_MAGNITUDE, x);
}

/// A number is either not a number, or at most zero, or above zero, and never
/// two of these.
pub proof fn lemma_sign_cases(x: Scalar)
    ensures
        is_nan(x) || le_zero(x) || gt_zero(x),
        !(le_zero(x) && gt_zero(x)),
        is_nan(x) ==> !le_zero(x) && !gt_zero(x),
        le_zero(x) <==> lt_zero(x) || (!is_nan(x) && value(x) == 0),
        ge_zero(x) <==> gt_zero(x) || (!is_nan(x) && value(x) == 0),
{
}

/// Flooring gives a number that is not under the floor, and changes nothing
/// that was above it.
pub proof fn lemma_floored_at(x: Scalar, floor: Scalar)
    requires
        !is_nan(floor),
    ensures
        !is_nan(floored_at(x, floor)),
        !lt(floored_at(x, floor), floor),
        ge_zero(floor) ==> ge_zero(floored_at(x, floor)),
        gt(x, floor) ==> floored_at(x, floor) == x,
        !gt(x, floor) ==> floored_at(x, floor) == floor,
{
}

fn magnitude_of(x: Scalar) -> (m: u64)
    ensures
        m == magnitude(x),
{
    if x >= SIGN_BIT {
        x - SIGN_BIT
    } else {
        x
    }
}

/// Whether the bits stand for no number.
pub fn is_not_a_number(x: Scalar) -> (r: bool)
    ensures
        r == is_nan(x),
{
    magnitude_of(x) > INFINITY_MAGNITUDE
}

/// Whether `a < b`.
pub fn is_less_than(a: Scalar, b: Scalar) -> (r: bool)
    ensures
        r == lt(a, b),
{
    proof {
        lemma_order_by_bits(a, b);
    }
    if is_not_a_number(a) || is_not_a_number(b) {
        return false;
    }
    let m: u64 = magnitude_of(a);
    let n: u64 = magnitude_of(b);
    if a >= SIGN_BIT {
        if b >= SIGN_BIT {
            n < m
        } else {
            m > 0 || n > 0
        }
    } else {
        b < SIGN_BIT && m < n
    }
}

/// Whether `a > b`.
pub fn is_greater_than(a: Scalar, b: Scalar) -> (r: bool)
    ensures
        r == gt(a, b),
{
    is_less_than(b, a)
}

/// Whether `x <= 0`.
pub fn is_non_positive(x: Scalar) -> (r: bool)
    ensures
        r == le_zero(x),
{
    proof {
        lemma_sign_by_bits(x);
    }
    x == 0 || (x >= SIGN_BIT && x - SIGN_BIT <= INFINITY_MAGNITUDE)
}

/// Whether `x > 0`.
pub fn is_positive(x: Scalar) -> (r: bool)
    ensures
        r == gt_zero(x),
{
    proof {
        lemma_sign_by_bits(x);
    }
    0 < x && x <= INFINITY_MAGNITUDE
}

/// Whether `x < 0`.
pub fn is_negative(x: Scalar) -> (r: bool)
    ensures
        r == lt_zero(x),
{
    proof {
        lemma_sign_by_bits(x);
    }
    x > SIGN_BIT && x - SIGN_BIT <= INFINITY_MAGNITUDE
}

/// Whether `x >= 0`.
pub fn is_non_negative(x: Scalar) -> (r: bool)
    ensures
        r == ge_zero(x),
{
    proof {
        lemma_sign_by_bits(x);
    }
    x <= INFINITY_MAGNITUDE || x == SIGN_BIT
}

/// Whether `|x|` is greater than the machine epsilon.
pub fn is_far_from_zero(x: Scalar) -> (r: bool)
    ensures
        r == exceeds_epsilon(x),
{
    proof {
        lemma_epsilon_by_bits(x);
    }
    let m: u64 = magnitude_of(x);
    EPSILON_MAGNITUDE < m && m <= INFINITY_MAGNITUDE
}

/// The larger of `x` and `floor`.
pub fn floor_at(x: Scalar, floor: Scalar) -> (r: Scalar)
    ensures
        r == floored_at(x, floor),
{
    if is_not_a_number(floor) || is_greater_than(x, floor) {
        x
    } else {
        floor
    }
}

/// The number with the opposite sign.
pub fn negate(x: Scalar) -> (r: Scalar)
    ensures
        r == negated(x),
        value(r) == -value(x),
        is_nan(r) == is_nan(x),
{
    if x >= SIGN_BIT {
        x - SIGN_BIT
    } else {
        x + SIGN_BIT
    }
}

} // verus!
