//! Fixed-point conversion and angle normalization.
//!
//! Both operations are pure integer arithmetic: a fraction is rounded to the
//! nearest thousandth, and an angle in thousandths of a radian is reduced to
//! the canonical window `[0, 2*pi)` using a high-precision integer modulus.

use vstd::prelude::*;
use vstd::arithmetic::div_mod::{
    lemma_fundamental_div_mod,
    lemma_fundamental_div_mod_converse,
    lemma_mod_bound,
    lemma_div_nonincreasing,
};

verus! {

/// `2 * pi` scaled by `10^12`, the high-precision modulus for angle
/// reduction.
pub const TWO_PI_E12: i128 = 6283185307180;

/// Width of the direct trig tables: one slot per thousandth of a radian
/// over `[0, 2*pi)`.
pub const FULL_CIRCLE_SLOTS: i64 = 6283;

/// The magnitude of an integer.
pub open spec fn abs_val(a: int) -> int {
    if a >= 0 {
        a
    } else {
        -a
    }
}

/// Division truncated toward zero, for a positive divisor: the rounding
/// Rust's `/` performs on signed operands.
pub open spec fn trunc_div(a: int, b: int) -> int {
    if a >= 0 {
        a / b
    } else {
        -((-a) / b)
    }
}

/// The remainder of division truncated toward zero, for a positive
/// divisor: it carries the sign of the dividend, as Rust's `%` does.
pub open spec fn trunc_rem(a: int, b: int) -> int {
    if a >= 0 {
        a % b
    } else {
        -((-a) % b)
    }
}

/// The midpoint rule for rounding a remainder of magnitude `r` against a
/// denominator of magnitude `d`: even denominators round up from the exact
/// midpoint, odd denominators only strictly past it.
pub open spec fn rounds_to_next(r: int, d: int) -> bool {
    if d % 2 == 0 {
        r >= d / 2
    } else {
        r > d / 2
    }
}

/// The integer nearest to `(n / d) * 1000`, rounding half away from zero
/// (with the midpoint rule of `rounds_to_next`); `n` over `d == 1000` is
/// already in thousandths and is returned unchanged.
pub open spec fn frac_to_thousandths(n: int, d: int) -> int {
    if d == 1000 {
        n
    } else {
        let q = (abs_val(n) * 1000) / abs_val(d);
        let r = (abs_val(n) * 1000) % abs_val(d);
        let m = if rounds_to_next(r, abs_val(d)) {
            q + 1
        } else {
            q
        };
        if (n >= 0) == (d > 0) {
            m
        } else {
            -m
        }
    }
}

/// Converts a fraction to the nearest integer number of thousandths.
///
/// The computation widens to 64 bits, so no intermediate product can
/// overflow for any 32-bit input.
pub fn denominator_to_1000(argument_fraction: (i32, i32)) -> (result: i64)
    requires
        argument_fraction.1 != 0,
    ensures
        result == frac_to_thousandths(argument_fraction.0 as int, argument_fraction.1 as int),
{
    let n: i64 = argument_fraction.0 as i64;
    let d: i64 = argument_fraction.1 as i64;
    if d == 1000 {
        return n;
    }
    let n_mag: i64 = if n < 0 {
        -n
    } else {
        n
    };
    let d_mag: i64 = if d < 0 {
        -d
    } else {
        d
    };
    let scaled: i64 = n_mag * 1000;
    let quotient: i64 = scaled / d_mag;
    let remainder: i64 = scaled % d_mag;
    let round_up: bool = if d_mag % 2 == 0 {
        remainder >= d_mag / 2
    } else {
        remainder > d_mag / 2
    };
    let magnitude: i64 = if round_up {
        quotient + 1
    } else {
        quotient
    };
    if (n >= 0) == (d > 0) {
        magnitude
    } else {
        -magnitude
    }
}

/// The canonical reduction of a thousandths-scaled angle into `[0, 6283)`:
/// scale by `10^9`, take the Euclidean remainder against `2 * pi * 10^12`,
/// scale back down rounding to the nearest slot (an exact tie rounds to
/// the upper slot), and close the circle by wrapping slot `6283` to `0`.
pub open spec fn normalized_angle(a: int) -> int {
    let m = (a * 1000000000) % (TWO_PI_E12 as int);
    let r = if m % 1000000000 > 499999999 {
        m / 1000000000 + 1
    } else {
        m / 1000000000
    };
    if r == FULL_CIRCLE_SLOTS {
        0
    } else {
        r
    }
}

/// Reduces an angle in thousandths of a radian to the equivalent angle in
/// `[0, 2*pi)`, also in thousandths.
///
/// The reduction happens against `2 * pi` scaled by `10^12` rather than
/// against the table width `6283`, so repeated wrapping does not drift away
/// from the true remainder.
pub fn normalize_angle(thousandth_angle: i64) -> (result: i64)
    ensures
        result == normalized_angle(thousandth_angle as int),
        0 <= result < FULL_CIRCLE_SLOTS,
{
    let ghost a: int = thousandth_angle as int;
    if thousandth_angle >= 0 && thousandth_angle <= 6282 {
        proof {
            let m = a * 1000000000;
            lemma_small_reduction(a);
            assert(m % 1000000000 == 0 && m / 1000000000 == a) by {
                lemma_fundamental_div_mod_converse(m, 1000000000, a, 0);
            }
        }
        return thousandth_angle;
    }
    let scaled: i128 = (thousandth_angle as i128) * 1_000_000_000;
    let reduced: i128 = if scaled >= 0 {
        scaled % TWO_PI_E12
    } else {
        let positive_remainder: i128 = (-scaled) % TWO_PI_E12;
        proof {
            lemma_negative_reduction(scaled as int, positive_remainder as int);
        }
        if positive_remainder == 0 {
            0
        } else {
            TWO_PI_E12 - positive_remainder
        }
    };
    assert(reduced == (a * 1000000000) % (TWO_PI_E12 as int));
    assert(0 <= reduced < TWO_PI_E12) by {
        lemma_mod_bound(a * 1000000000, TWO_PI_E12 as int);
    }
    let slots: i128 = reduced / 1_000_000_000;
    let fractional: i128 = reduced % 1_000_000_000;
    let rounded: i128 = if fractional > 499_999_999 {
        slots + 1
    } else {
        slots
    };
    if rounded == 6283 {
        0
    } else {
        rounded as i64
    }
}

/// A nonnegative angle of fewer than `6283` thousandths is already reduced:
/// its `10^9` scaling lies below the modulus.
proof fn lemma_small_reduction(a: int)
    requires
        0 <= a <= 6282,
    ensures
        (a * 1000000000) % (TWO_PI_E12 as int) == a * 1000000000,
{
    assert(0 <= a * 1000000000 < TWO_PI_E12 as int);
    lemma_fundamental_div_mod_converse(a * 1000000000, TWO_PI_E12 as int, 0, a * 1000000000);
}

/// Euclidean remainder of a negative value, computed from the remainder of
/// its magnitude: either both are zero, or they are reflections across the
/// modulus.
proof fn lemma_negative_reduction(x: int, p: int)
    requires
        x < 0,
        p == (-x) % (TWO_PI_E12 as int),
    ensures
        p == 0 ==> x % (TWO_PI_E12 as int) == 0,
        p != 0 ==> x % (TWO_PI_E12 as int) == TWO_PI_E12 - p,
{
    let t = TWO_PI_E12 as int;
    let k = (-x) / t;
    lemma_fundamental_div_mod(-x, t);
    lemma_mod_bound(-x, t);
    assert(-x == t * k + p);
    if p == 0 {
        assert(x == (-k) * t + 0) by (nonlinear_arith)
            requires
                -x == t * k + p,
                p == 0;
        lemma_fundamental_div_mod_converse(x, t, -k, 0);
    } else {
        assert(x == (-k - 1) * t + (t - p)) by (nonlinear_arith)
            requires
                -x == t * k + p;
        lemma_fundamental_div_mod_converse(x, t, -k - 1, t - p);
    }
}

/// A fraction whose denominator is already `1000` converts to its own
/// numerator, for every integer numerator.
pub proof fn lemma_thousandths_denominator_identity(n: int)
    ensures
        frac_to_thousandths(n, 1000) == n,
{
}

/// Fraction conversion is odd in the numerator: negating the numerator
/// negates the converted value, for every nonzero denominator.
pub proof fn lemma_frac_to_thousandths_odd(n: int, d: int)
    requires
        d != 0,
    ensures
        frac_to_thousandths(-n, d) == -frac_to_thousandths(n, d),
{
    if d != 1000 && n == 0 {
        let dd = abs_val(d);
        assert(0int / dd == 0 && 0int % dd == 0) by {
            lemma_fundamental_div_mod_converse(0, dd, 0, 0);
        }
    }
}

/// The thousandths conversion of a 32-bit fraction is bounded just past
/// the scaled numerator magnitude, so it always fits comfortably in 64
/// bits.
pub proof fn lemma_frac_to_thousandths_bound(n: int, d: int)
    requires
        d != 0,
        -2147483648 <= n <= 2147483647,
    ensures
        abs_val(frac_to_thousandths(n, d)) <= 2147483649000,
{
    if d != 1000 {
        lemma_div_nonincreasing(abs_val(n) * 1000, abs_val(d));
    }
}

/// Every normalized angle lies in the table window `[0, 6283)`.
pub proof fn lemma_normalized_angle_range(a: int)
    ensures
        0 <= normalized_angle(a) < FULL_CIRCLE_SLOTS,
{
    let t = TWO_PI_E12 as int;
    let m = (a * 1000000000) % t;
    lemma_mod_bound(a * 1000000000, t);
    lemma_fundamental_div_mod(m, 1000000000);
    lemma_mod_bound(m, 1000000000);
}

/// An angle already inside the table window normalizes to itself.
pub proof fn lemma_normalized_angle_fixed(a: int)
    requires
        0 <= a < FULL_CIRCLE_SLOTS,
    ensures
        normalized_angle(a) == a,
{
    let m = a * 1000000000;
    lemma_small_reduction(a);
    assert(m % 1000000000 == 0 && m / 1000000000 == a) by {
        lemma_fundamental_div_mod_converse(m, 1000000000, a, 0);
    }
}

/// Angle normalization is idempotent: a normalized angle normalizes to
/// itself unchanged.
pub proof fn lemma_normalized_angle_idempotent(a: int)
    ensures
        normalized_angle(normalized_angle(a)) == normalized_angle(a),
{
    lemma_normalized_angle_range(a);
    lemma_normalized_angle_fixed(normalized_angle(a));
}

} // verus!
