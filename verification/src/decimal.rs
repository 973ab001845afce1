//! Numbers in text, with six digits after the point.

use vstd::prelude::*;
use vstd::arithmetic::div_mod::{
    lemma_basic_div,
    lemma_div_multiples_vanish,
    lemma_div_multiples_vanish_quotient,
    lemma_fundamental_div_mod,
    lemma_mod_multiples_basic,
    lemma_small_mod,
    lemma_truncate_middle,
};
use vstd::arithmetic::power2::{
    lemma2_to64,
    lemma_pow2_adds,
    lemma_pow2_pos,
    lemma_pow2_strictly_increases,
    lemma_pow2_unfold,
    pow2,
};
use vstd::string::StringExecFns;
use crate::scalar::{
    exponent,
    fraction,
    is_nan,
    magnitude,
    size,
    Scalar,
    EXPONENT_UNIT,
    INFINITY_MAGNITUDE,
    SIGN_BIT,
};

verus! {

/// A million: the number of the smallest parts that the text tells apart.
pub const MILLION: u64 = 1_000_000;

/// The exponent of two by which the smallest size of a double is under one:
/// the smallest size is two to the power of minus 1074.
pub const SMALLEST_EXPONENT: u64 = 1074;

/// `n / d`, rounded to the nearest whole number, and to the even one of the
/// two where both are equally near.
pub open spec fn rounded_quotient(n: int, d: int) -> int {
    let q = n / d;
    let r = n % d;
    if 2 * r < d || (2 * r == d && q % 2 == 0) {
        q
    } else {
        q + 1
    }
}

/// The size of the number `x`, in millionths, rounded to the nearest.
pub open spec fn millionths(x: Scalar) -> int {
    rounded_quotient(size(x) * MILLION, pow2(SMALLEST_EXPONENT as nat) as int)
}

/// The character of the digit `d`.
pub open spec fn digit(d: int) -> char {
    if d == 0 {
        '0'
    } else if d == 1 {
        '1'
    } else if d == 2 {
        '2'
    } else if d == 3 {
        '3'
    } else if d == 4 {
        '4'
    } else if d == 5 {
        '5'
    } else if d == 6 {
        '6'
    } else if d == 7 {
        '7'
    } else if d == 8 {
        '8'
    } else {
        '9'
    }
}

/// The decimal digits of `n`, the highest first, without a zero in front.
pub open spec fn digits(n: nat) -> Seq<char>
    decreases n,
{
    if n < 10 {
        seq![digit(n as int)]
    } else {
        digits(n / 10).push(digit((n % 10) as int))
    }
}

/// The six decimal digits of `n`, which is under a million, with zeros in
/// front where it has fewer.
pub open spec fn six_digits(n: nat) -> Seq<char> {
    seq![
        digit((n / 100000) as int),
        digit((n / 10000 % 10) as int),
        digit((n / 1000 % 10) as int),
        digit((n / 100 % 10) as int),
        digit((n / 10 % 10) as int),
        digit((n % 10) as int),
    ]
}

/// The sign in text: a minus where the sign bit is set.
pub open spec fn sign(x: Scalar) -> Seq<char> {
    if x >= SIGN_BIT {
        seq!['-']
    } else {
        Seq::empty()
    }
}

/// The number `x` in text, with six digits after the point: the sign, the
/// whole part of its size rounded to millionths, the point, and the six
/// digits of the millionths that are left.  An infinity is `inf` with its
/// sign, and what is no number is `NaN`.
pub open spec fn six_decimals(x: Scalar) -> Seq<char> {
    if is_nan(x) {
        "NaN"@
    } else if magnitude(x) == INFINITY_MAGNITUDE {
        sign(x) + "inf"@
    } else {
        sign(x) + digits((millionths(x) / (MILLION as int)) as nat).push('.') + six_digits(
            (millionths(x) % (MILLION as int)) as nat,
        )
    }
}

/// The number that the decimal digits `v` stand for, the highest first.
pub open spec fn number(v: Seq<u8>) -> nat
    decreases v.len(),
{
    if v.len() == 0 {
        0
    } else {
        10 * number(v.drop_last()) + v.last() as nat
    }
}

/// Whether every entry of `v` is a decimal digit.
pub open spec fn all_digits(v: Seq<u8>) -> bool {
    forall|i: int| 0 <= i < v.len() ==> #[trigger] v[i] < 10
}

/// Whether `v` is a number in decimal digits without a zero in front: one
/// digit at least, and the first one not zero where there are more.
pub open spec fn plain(v: Seq<u8>) -> bool {
    &&& v.len() > 0
    &&& all_digits(v)
    &&& v.len() > 1 ==> v[0] != 0
}

/// The characters of the digits `v`.
pub open spec fn characters(v: Seq<u8>) -> Seq<char> {
    Seq::new(v.len(), |i: int| digit(v[i] as int))
}

/// Rounding a quotient is the same after both parts were multiplied by one
/// positive number.
pub proof fn lemma_rounded_quotient_cancels(n: int, d: int, c: int)
    requires
        0 <= n,
        0 < d,
        0 < c,
    ensures
        rounded_quotient(n * c, d * c) == rounded_quotient(n, d),
{
    assert(n * c == c * n && d * c == c * d) by (nonlinear_arith);
    assert(0 < c * d) by (nonlinear_arith)
        requires
            0 < c,
            0 < d,
    ;
    lemma_div_multiples_vanish_quotient(c, n, d);
    lemma_truncate_middle(n, c, d);
    let r = n % d;
    assert((c * n) % (c * d) == c * r);
    assert(2 * (c * r) < c * d <==> 2 * r < d) by (nonlinear_arith)
        requires
            0 < c,
    ;
    assert(2 * (c * r) == c * d <==> 2 * r == d) by (nonlinear_arith)
        requires
            0 < c,
    ;
}

/// Whether `c` is a decimal digit.
pub open spec fn is_digit(c: char) -> bool {
    exists|d: int| 0 <= d < 10 && c == digit(d)
}

/// Every number has a digit.
proof fn lemma_digits_not_empty(n: nat)
    ensures
        digits(n).len() >= 1,
    decreases n,
{
    if n >= 10 {
        lemma_digits_not_empty(n / 10);
    }
}

/// The text of a number that is finite ends in the point and six digits, and
/// has a digit before the point.
pub proof fn lemma_six_digits_after_point(x: Scalar)
    requires
        !is_nan(x),
        magnitude(x) != INFINITY_MAGNITUDE,
    ensures
        six_decimals(x).len() >= 8,
        six_decimals(x)[six_decimals(x).len() - 7] == '.',
        forall|i: int|
            six_decimals(x).len() - 6 <= i < six_decimals(x).len() ==> is_digit(
                #[trigger] six_decimals(x)[i],
            ),
{
    let whole = (millionths(x) / (MILLION as int)) as nat;
    let rest = (millionths(x) % (MILLION as int)) as nat;
    let front = sign(x) + digits(whole).push('.');
    lemma_digits_not_empty(whole);
    let text = six_decimals(x);
    assert(text == front + six_digits(rest));
    assert(rest < MILLION);
    assert forall|i: int| text.len() - 6 <= i < text.len() implies is_digit(#[trigger] text[i]) by {
        let j = i - front.len();
        assert(text[i] == six_digits(rest)[j]);
        let d: int = if j == 0 {
            (rest / 100000) as int
        } else if j == 1 {
            (rest / 10000 % 10) as int
        } else if j == 2 {
            (rest / 1000 % 10) as int
        } else if j == 3 {
            (rest / 100 % 10) as int
        } else if j == 4 {
            (rest / 10 % 10) as int
        } else {
            (rest % 10) as int
        };
        assert(0 <= d < 10 && text[i] == digit(d));
    }
}

/// A number whose first digit is not zero is not zero.
proof fn lemma_number_positive(v: Seq<u8>)
    requires
        v.len() > 0,
        v[0] != 0,
    ensures
        number(v) >= 1,
    decreases v.len(),
{
    if v.len() > 1 {
        lemma_number_positive(v.drop_last());
    }
}

/// A zero in front changes no number.
proof fn lemma_number_with_zero_in_front(v: Seq<u8>)
    ensures
        number(seq![0u8] + v) == number(v),
    decreases v.len(),
{
    let w = seq![0u8] + v;
    if v.len() == 0 {
        assert(w.drop_last() =~= Seq::<u8>::empty());
        assert(number(w.drop_last()) == 0);
    } else {
        assert(w.drop_last() =~= seq![0u8] + v.drop_last());
        lemma_number_with_zero_in_front(v.drop_last());
    }
}

/// The digits of the number of `v` are the characters of `v`, where `v` has
/// no zero in front.
pub proof fn lemma_digits_of_number(v: Seq<u8>)
    requires
        plain(v),
    ensures
        digits(number(v)) == characters(v),
    decreases v.len(),
{
    if v.len() == 1 {
        assert(v.drop_last() =~= Seq::<u8>::empty());
        assert(number(v.drop_last()) == 0);
        assert(digits(number(v)) =~= characters(v));
    } else {
        let front = v.drop_last();
        lemma_digits_of_number(front);
        lemma_number_positive(front);
        let n = number(v);
        assert(n == 10 * number(front) + v.last());
        assert(n / 10 == number(front) && n % 10 == v.last()) by {
            lemma_fundamental_div_mod(n as int, 10);
        }
        assert(digits(n) =~= characters(v));
    }
}

fn digit_of(d: u8) -> (c: char)
    requires
        d < 10,
    ensures
        c == digit(d as int),
{
    if d == 0 {
        '0'
    } else if d == 1 {
        '1'
    } else if d == 2 {
        '2'
    } else if d == 3 {
        '3'
    } else if d == 4 {
        '4'
    } else if d == 5 {
        '5'
    } else if d == 6 {
        '6'
    } else if d == 7 {
        '7'
    } else if d == 8 {
        '8'
    } else {
        '9'
    }
}

/// The decimal digits of `n`, the highest first.
fn digits_of(n: u64) -> (v: Vec<u8>)
    ensures
        plain(v@),
        number(v@) == n,
    decreases n,
{
    if n < 10 {
        let mut v: Vec<u8> = Vec::new();
        v.push(n as u8);
        proof {
            assert(v@.drop_last() =~= Seq::<u8>::empty());
            assert(number(v@.drop_last()) == 0);
        }
        v
    } else {
        let mut v = digits_of(n / 10);
        let ghost front = v@;
        proof {
            if front.len() == 1 {
                assert(front.drop_last() =~= Seq::<u8>::empty());
                assert(number(front.drop_last()) == 0);
            }
        }
        v.push((n % 10) as u8);
        proof {
            assert(v@.drop_last() =~= front);
        }
        v
    }
}

/// Doubles the number in the first `n` digits of `v` and adds `carry`.  The
/// first digit is small enough for the result to have no digit more.
fn double_front(v: &mut Vec<u8>, n: usize, carry: u8)
    requires
        n <= old(v).len(),
        all_digits(old(v)@),
        carry <= 1,
        n > 0 ==> old(v)[0] < 5,
        n == 0 ==> carry == 0,
    ensures
        final(v).len() == old(v).len(),
        all_digits(final(v)@),
        forall|j: int| n <= j < old(v).len() ==> final(v)[j] == old(v)[j],
        number(final(v)@.subrange(0, n as int)) == 2 * number(old(v)@.subrange(0, n as int))
            + carry,
        n > 1 && old(v)[0] != 0 ==> final(v)[0] != 0,
    decreases n,
{
    if n > 0 {
        let sum: u8 = 2 * v[n - 1] + carry;
        let ghost before = v@;
        v.set(n - 1, sum % 10);
        let ghost between = v@;
        double_front(v, n - 1, sum / 10);
        proof {
            let old_front = before.subrange(0, n as int);
            let new_front = v@.subrange(0, n as int);
            assert(old_front.drop_last() =~= before.subrange(0, n - 1));
            assert(between.subrange(0, n - 1) =~= before.subrange(0, n - 1));
            assert(new_front.drop_last() =~= v@.subrange(0, n - 1));
            assert(new_front.last() == sum % 10);
            assert(old_front.last() == before[n - 1]);
            if n == 1 {
                assert(number(before.subrange(0, 0)) == 0);
                assert(number(v@.subrange(0, 0)) == 0);
            }
        }
    } else {
        proof {
            assert(number(v@.subrange(0, 0)) == 0);
        }
    }
}

/// Doubles the number that the digits `v` stand for.
fn double(v: &mut Vec<u8>)
    requires
        plain(old(v)@),
    ensures
        plain(final(v)@),
        number(final(v)@) == 2 * number(old(v)@),
{
    if v[0] >= 5 {
        v.insert(0, 0);
        proof {
            assert(v@ =~= seq![0u8] + old(v)@);
            lemma_number_with_zero_in_front(old(v)@);
        }
    }
    let ghost widened = v@;
    let n = v.len();
    double_front(v, n, 0);
    proof {
        assert(widened.subrange(0, n as int) =~= widened);
        assert(v@.subrange(0, n as int) =~= v@);
        if widened.len() != old(v)@.len() {
            // The zero in front took the carry of a digit of five or more.
            lemma_double_of_large_is_long(old(v)@, v@);
        }
    }
}

/// The double of a number whose first digit is five or more has a digit
/// more than the number: written with one digit more, it begins with no zero.
proof fn lemma_double_of_large_is_long(small: Seq<u8>, long: Seq<u8>)
    requires
        small.len() > 0,
        small[0] >= 5,
        all_digits(small),
        all_digits(long),
        long.len() == small.len() + 1,
        number(long) == 2 * number(small),
    ensures
        long[0] != 0,
{
    if long[0] == 0 {
        let rest = long.subrange(1, long.len() as int);
        assert(long =~= seq![0u8] + rest);
        lemma_number_with_zero_in_front(rest);
        lemma_first_digit_decides(small, rest);
    }
}

/// Of two numbers with equally many digits, one that begins with five or
/// more is more than half of the other.
proof fn lemma_first_digit_decides(a: Seq<u8>, b: Seq<u8>)
    requires
        a.len() == b.len(),
        a.len() > 0,
        all_digits(a),
        all_digits(b),
        a[0] >= 5,
    ensures
        2 * number(a) > number(b),
        2 * number(a) >= number(b) + 1,
    decreases a.len(),
{
    if a.len() == 1 {
        assert(a.drop_last() =~= Seq::<u8>::empty());
        assert(b.drop_last() =~= Seq::<u8>::empty());
        assert(number(a.drop_last()) == 0 && number(b.drop_last()) == 0);
    } else {
        lemma_first_digit_decides(a.drop_last(), b.drop_last());
    }
}

/// Appends the characters of the digits `v` to `s`.
fn push_digits(s: &mut String, v: &Vec<u8>)
    requires
        all_digits(v@),
    ensures
        final(s)@ == old(s)@ + characters(v@),
{
    let mut i: usize = 0;
    while i < v.len()
        invariant
            i <= v.len(),
            all_digits(v@),
            s@ == old(s)@ + characters(v@.subrange(0, i as int)),
        decreases v.len() - i,
    {
        s.push(digit_of(v[i]));
        i = i + 1;
        assert(s@ =~= old(s)@ + characters(v@.subrange(0, i as int)));
    }
    assert(v@.subrange(0, i as int) =~= v@);
}

/// Appends the six digits of `n` to `s`.
fn push_six_digits(s: &mut String, n: u64)
    requires
        n < MILLION,
    ensures
        final(s)@ == old(s)@ + six_digits(n as nat),
{
    s.push(digit_of((n / 100000) as u8));
    s.push(digit_of((n / 10000 % 10) as u8));
    s.push(digit_of((n / 1000 % 10) as u8));
    s.push(digit_of((n / 100 % 10) as u8));
    s.push(digit_of((n / 10 % 10) as u8));
    s.push(digit_of((n % 10) as u8));
    assert(s@ =~= old(s)@ + six_digits(n as nat));
}

/// The size of a number is its fraction, with a one before it where the
/// exponent is not zero, doubled once for each step of the exponent above
/// one.
proof fn lemma_size_by_parts(x: Scalar, mantissa: int, doublings: nat)
    requires
        exponent(x) == 0 ==> mantissa == fraction(x) && doublings == 0,
        exponent(x) > 0 ==> mantissa == EXPONENT_UNIT + fraction(x) && doublings == exponent(x)
            - 1,
    ensures
        size(x) == mantissa * pow2(doublings),
{
    if exponent(x) == 0 {
        lemma2_to64();
        assert(mantissa * pow2(0) == mantissa) by (nonlinear_arith)
            requires
                pow2(0) == 1,
        ;
    }
}

/// Two to the power of 74.
proof fn lemma_pow2_74()
    ensures
        pow2(74) == 0x4_0000_0000_0000_0000_00,
        pow2(73) == 0x2_0000_0000_0000_0000_00,
{
    lemma2_to64();
    lemma_pow2_adds(64, 10);
    lemma_pow2_adds(64, 9);
}

/// Two to the power of `e`, where it is at most 74.
fn power_of_two(e: u64) -> (p: u128)
    requires
        e <= 74,
    ensures
        p == pow2(e as nat),
{
    let mut p: u128 = 1;
    let mut i: u64 = 0;
    proof {
        lemma2_to64();
    }
    while i < e
        invariant
            i <= e <= 74,
            p == pow2(i as nat),
        decreases e - i,
    {
        proof {
            lemma_pow2_unfold((i + 1) as nat);
            lemma_pow2_74();
            if i + 1 < 74 {
                lemma_pow2_strictly_increases((i + 1) as nat, 74);
            }
        }
        p = p * 2;
        i = i + 1;
    }
    p
}

/// The millionths of the number with the given mantissa, halved `halvings`
/// times.
fn round_to_millionths(mantissa: u64, halvings: u64) -> (r: u128)
    requires
        mantissa < 2 * EXPONENT_UNIT,
        halvings >= 1,
    ensures
        r == rounded_quotient(mantissa * MILLION, pow2(halvings as nat) as int),
        r <= mantissa * MILLION,
{
    let scaled: u128 = mantissa as u128 * 1_000_000;
    proof {
        lemma_pow2_74();
        lemma_pow2_pos(halvings as nat);
    }
    if halvings >= 75 {
        proof {
            lemma_pow2_adds(74, 1);
            lemma2_to64();
            if halvings > 75 {
                lemma_pow2_strictly_increases(75, halvings as nat);
            }
            lemma_basic_div(scaled as int, pow2(halvings as nat) as int);
            lemma_small_mod(scaled as nat, pow2(halvings as nat));
        }
        0
    } else {
        let d: u128 = power_of_two(halvings);
        let q: u128 = scaled / d;
        let r: u128 = scaled % d;
        proof {
            lemma_fundamental_div_mod(scaled as int, d as int);
            assert(q * d <= scaled) by (nonlinear_arith)
                requires
                    scaled == d * q + r,
                    r >= 0,
            ;
            assert(q <= scaled) by (nonlinear_arith)
                requires
                    q * d <= scaled,
                    d >= 1,
                    q >= 0,
            ;
            if halvings < 74 {
                lemma_pow2_strictly_increases(halvings as nat, 74);
            }
            if r > 0 {
                assert(q < scaled) by (nonlinear_arith)
                    requires
                        scaled == d * q + r,
                        r > 0,
                        d >= 1,
                        q >= 0,
                ;
            }
        }
        if 2 * r < d || (2 * r == d && q % 2 == 0) {
            q
        } else {
            q + 1
        }
    }
}

/// The number `x` in text, with six digits after the point.
pub fn format_six_decimals(x: Scalar) -> (s: String)
    ensures
        s@ == six_decimals(x),
{
    let m: u64 = if x >= SIGN_BIT {
        x - SIGN_BIT
    } else {
        x
    };
    if m > INFINITY_MAGNITUDE {
        return String::from_str("NaN");
    }
    let mut s = String::new();
    if x >= SIGN_BIT {
        s.push('-');
    }
    assert(s@ =~= sign(x));
    if m == INFINITY_MAGNITUDE {
        s.append("inf");
        return s;
    }
    let e: u64 = m / EXPONENT_UNIT;
    let f: u64 = m % EXPONENT_UNIT;
    let mantissa: u64 = if e == 0 {
        f
    } else {
        EXPONENT_UNIT + f
    };
    let doublings: u64 = if e == 0 {
        0
    } else {
        e - 1
    };
    proof {
        lemma_size_by_parts(x, mantissa as int, doublings as nat);
        lemma_pow2_pos(doublings as nat);
        lemma_pow2_pos(SMALLEST_EXPONENT as nat);
    }
    if doublings >= SMALLEST_EXPONENT {
        let mut whole = digits_of(mantissa);
        let mut i: u64 = 0;
        proof {
            lemma2_to64();
            assert(mantissa * pow2(0) == mantissa) by (nonlinear_arith)
                requires
                    pow2(0) == 1,
            ;
        }
        while i < doublings - SMALLEST_EXPONENT
            invariant
                i <= doublings - SMALLEST_EXPONENT,
                plain(whole@),
                number(whole@) == mantissa * pow2(i as nat),
            decreases doublings - SMALLEST_EXPONENT - i,
        {
            proof {
                lemma_pow2_unfold((i + 1) as nat);
                assert(2 * (mantissa * pow2(i as nat)) == mantissa * (2 * pow2(i as nat)))
                    by (nonlinear_arith);
            }
            double(&mut whole);
            i = i + 1;
        }
        proof {
            lemma2_to64();
            let k = (doublings - SMALLEST_EXPONENT) as nat;
            let w = mantissa * pow2(k);
            let unit = pow2(SMALLEST_EXPONENT as nat) as int;
            lemma_pow2_adds(k, SMALLEST_EXPONENT as nat);
            assert(size(x) * MILLION == unit * (w * MILLION)) by (nonlinear_arith)
                requires
                    size(x) == mantissa * pow2(doublings as nat),
                    pow2(doublings as nat) == pow2(k) * unit,
                    w == mantissa * pow2(k),
            ;
            lemma_div_multiples_vanish(w * MILLION, unit);
            lemma_mod_multiples_basic(w * MILLION, unit);
            assert((w * MILLION) * unit == unit * (w * MILLION)) by (nonlinear_arith);
            assert(millionths(x) == w * MILLION);
            lemma_div_multiples_vanish(w as int, MILLION as int);
            lemma_mod_multiples_basic(w as int, MILLION as int);
            assert(w * MILLION == MILLION * w) by (nonlinear_arith);
            assert(millionths(x) / (MILLION as int) == w);
            assert(millionths(x) % (MILLION as int) == 0);
            lemma_digits_of_number(whole@);
        }
        push_digits(&mut s, &whole);
        s.push('.');
        push_six_digits(&mut s, 0);
        assert(s@ =~= six_decimals(x));
        s
    } else {
        let halvings: u64 = SMALLEST_EXPONENT - doublings;
        let r: u128 = round_to_millionths(mantissa, halvings);
        proof {
            let unit = pow2(SMALLEST_EXPONENT as nat) as int;
            lemma_pow2_adds(halvings as nat, doublings as nat);
            lemma_pow2_pos(halvings as nat);
            lemma_rounded_quotient_cancels(
                mantissa * MILLION,
                pow2(halvings as nat) as int,
                pow2(doublings as nat) as int,
            );
            assert(size(x) * MILLION == (mantissa * MILLION) * pow2(doublings as nat))
                by (nonlinear_arith)
                requires
                    size(x) == mantissa * pow2(doublings as nat),
            ;
            assert(millionths(x) == r);
        }
        let whole_part: u64 = (r / 1_000_000) as u64;
        let rest: u64 = (r % 1_000_000) as u64;
        let whole = digits_of(whole_part);
        proof {
            lemma_digits_of_number(whole@);
        }
        push_digits(&mut s, &whole);
        s.push('.');
        push_six_digits(&mut s, rest);
        assert(s@ =~= six_decimals(x));
        s
    }
}

} // verus!
