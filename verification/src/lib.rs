//! Deterministic trigonometry without floating-point arithmetic.
//!
//! Angles and ratios are fixed-point integers scaled to thousandths: a
//! fraction of two machine integers is first rounded to the nearest
//! thousandth, and every trigonometric result is an integer lookup into
//! precomputed tables of scaled samples. All rounding is integer rounding
//! with fixed tie-breaks, so results are bit-identical on every compiler
//! and architecture; this matters for consumers that must stay in lockstep,
//! such as networked simulations.
//!
//! Inputs and outputs are `(numerator, denominator)` pairs of `i32`; every
//! output uses the fixed denominator `1000`. A zero input denominator is
//! reported as an error, never papered over with a default value, and
//! arcsine and arccosine reject ratios outside `[-1, 1]` instead of
//! silently clamping them.

use vstd::prelude::*;

mod tables;
pub mod utility;

use crate::tables::odd_symmetric;
use crate::utility::{
    frac_to_thousandths,
    normalized_angle,
    trunc_div,
    trunc_rem,
    abs_val,
    lemma_frac_to_thousandths_odd,
};

verus! {

/// Why a trigonometric operation rejected its input.
#[derive(Clone, Copy, Debug, PartialEq, Eq, Structural)]
pub enum TrigError {
    /// The input fraction has a zero denominator and names no number.
    InvalidFraction,
    /// The input ratio lies outside the domain of the inverse function.
    OutOfDomain,
}

/// The deterministic trigonometry engine.
///
/// It owns the immutable tables of precomputed samples, built once by
/// `initialize`; every operation is a pure function of its input and of
/// those tables. Each table slot holds the sampled function's result times
/// `1000`, rounded to the nearest integer.
pub struct DTrig {
    sine_array: Vec<i16>,
    cosine_array: Vec<i16>,
    tangent_array: Vec<i32>,
    arcsine_array: Vec<i16>,
    arccosine_array: Vec<i32>,
    arctangent_thousandths: Vec<i32>,
    arctangent_hundredths: Vec<i32>,
    arctangent_tenths: Vec<i32>,
    arctangent_ones: Vec<i32>,
}

impl DTrig {
    /// The sine samples over angles `[0, 6283)` thousandths of a radian.
    pub closed spec fn sine_samples(&self) -> Seq<i16> {
        self.sine_array@
    }

    /// The cosine samples over angles `[0, 6283)` thousandths of a radian.
    pub closed spec fn cosine_samples(&self) -> Seq<i16> {
        self.cosine_array@
    }

    /// The tangent samples over angles `[0, 6283)` thousandths of a radian.
    pub closed spec fn tangent_samples(&self) -> Seq<i32> {
        self.tangent_array@
    }

    /// The arcsine samples; slot `i` belongs to the ratio `i - 1000`.
    pub closed spec fn arcsine_samples(&self) -> Seq<i16> {
        self.arcsine_array@
    }

    /// The arccosine samples; slot `i` belongs to the ratio `i - 1000`.
    pub closed spec fn arccosine_samples(&self) -> Seq<i32> {
        self.arccosine_array@
    }

    /// The arctangent samples at ratio step `1`; slot `i` belongs to the
    /// ratio `i - 4000` thousandths.
    pub closed spec fn arctangent_thousandths_samples(&self) -> Seq<i32> {
        self.arctangent_thousandths@
    }

    /// The arctangent samples at ratio step `10`; slot `i` belongs to the
    /// ratio `(i - 2000) * 10` thousandths.
    pub closed spec fn arctangent_hundredths_samples(&self) -> Seq<i32> {
        self.arctangent_hundredths@
    }

    /// The arctangent samples at ratio step `100`; slot `i` belongs to the
    /// ratio `(i - 1000) * 100` thousandths.
    pub closed spec fn arctangent_tenths_samples(&self) -> Seq<i32> {
        self.arctangent_tenths@
    }

    /// The arctangent samples at ratio step `1000`; slot `i` belongs to
    /// the ratio `(i - 1000) * 1000` thousandths.
    pub closed spec fn arctangent_ones_samples(&self) -> Seq<i32> {
        self.arctangent_ones@
    }

    /// Shape of a well-formed engine: each table has exactly one slot per
    /// tabulated input, and each arctangent table is odd-symmetric, since
    /// the arctangent of a negated ratio is the negated arctangent.
    #[verifier::type_invariant]
    pub closed spec fn well_formed(&self) -> bool {
        &&& self.sine_array@.len() == 6283
        &&& self.cosine_array@.len() == 6283
        &&& self.tangent_array@.len() == 6283
        &&& self.arcsine_array@.len() == 2001
        &&& self.arccosine_array@.len() == 2001
        &&& self.arctangent_thousandths@.len() == 8001
        &&& self.arctangent_hundredths@.len() == 4001
        &&& self.arctangent_tenths@.len() == 2001
        &&& self.arctangent_ones@.len() == 2001
        &&& odd_symmetric(self.arctangent_thousandths@)
        &&& odd_symmetric(self.arctangent_hundredths@)
        &&& odd_symmetric(self.arctangent_tenths@)
        &&& odd_symmetric(self.arctangent_ones@)
        &&& self.sine_array@[1047] == 866
        &&& self.cosine_array@[0] == 1000
        &&& self.arcsine_array@[1500] == 524
        &&& self.arctangent_thousandths@[5000] == 785
        &&& forall|i: int|
            0 <= i < 2001 ==> 1570 <= #[trigger] self.arccosine_array@[i]
                + self.arcsine_array@[i] <= 1571
    }

    /// Builds the engine by assembling the precomputed tables. This is the
    /// one-time construction cost; the tables are immutable afterwards.
    pub fn initialize() -> (engine: DTrig)
        ensures
            engine.well_formed(),
    {
        let arcsine_array = tables::arcsine_table();
        let arccosine_array = tables::arccosine_table(&arcsine_array);
        let engine = DTrig {
            sine_array: tables::sine_table(),
            cosine_array: tables::cosine_table(),
            tangent_array: tables::tangent_table(),
            arcsine_array,
            arccosine_array,
            arctangent_thousandths: tables::arctangent_table_thousandths(),
            arctangent_hundredths: tables::arctangent_table_hundredths(),
            arctangent_tenths: tables::arctangent_table_tenths(),
            arctangent_ones: tables::arctangent_table_ones(),
        };
        engine
    }

    /// The sine of the angle named by the fraction, as a fraction over
    /// `1000`: the table slot of the normalized thousandths angle.
    pub fn sine(&self, argument_fraction: (i32, i32)) -> (result: Result<(i32, i32), TrigError>)
        ensures
            match result {
                Ok(value) => {
                    &&& argument_fraction.1 != 0
                    &&& value.1 == 1000
                    &&& value.0 as int == self.sine_samples()[normalized_angle(
                        frac_to_thousandths(
                            argument_fraction.0 as int,
                            argument_fraction.1 as int,
                        ),
                    )] as int
                },
                Err(error) => argument_fraction.1 == 0 && error == TrigError::InvalidFraction,
            },
    {
        if argument_fraction.1 == 0 {
            return Err(TrigError::InvalidFraction);
        }
        proof {
            use_type_invariant(self);
        }
        let angle = utility::normalize_angle(utility::denominator_to_1000(argument_fraction));
        Ok((self.sine_array[angle as usize] as i32, 1000))
    }

    /// The cosine of the angle named by the fraction, as a fraction over
    /// `1000`: the table slot of the normalized thousandths angle.
    pub fn cosine(&self, argument_fraction: (i32, i32)) -> (result: Result<(i32, i32), TrigError>)
        ensures
            match result {
                Ok(value) => {
                    &&& argument_fraction.1 != 0
                    &&& value.1 == 1000
                    &&& value.0 as int == self.cosine_samples()[normalized_angle(
                        frac_to_thousandths(
                            argument_fraction.0 as int,
                            argument_fraction.1 as int,
                        ),
                    )] as int
                },
                Err(error) => argument_fraction.1 == 0 && error == TrigError::InvalidFraction,
            },
    {
        if argument_fraction.1 == 0 {
            return Err(TrigError::InvalidFraction);
        }
        proof {
            use_type_invariant(self);
        }
        let angle = utility::normalize_angle(utility::denominator_to_1000(argument_fraction));
        Ok((self.cosine_array[angle as usize] as i32, 1000))
    }

    /// The tangent of the angle named by the fraction, as a fraction over
    /// `1000`: the table slot of the normalized thousandths angle.
    pub fn tangent(&self, argument_fraction: (i32, i32)) -> (result: Result<(i32, i32), TrigError>)
        ensures
            match result {
                Ok(value) => {
                    &&& argument_fraction.1 != 0
                    &&& value.1 == 1000
                    &&& value.0 as int == self.tangent_samples()[normalized_angle(
                        frac_to_thousandths(
                            argument_fraction.0 as int,
                            argument_fraction.1 as int,
                        ),
                    )] as int
                },
                Err(error) => argument_fraction.1 == 0 && error == TrigError::InvalidFraction,
            },
    {
        if argument_fraction.1 == 0 {
            return Err(TrigError::InvalidFraction);
        }
        proof {
            use_type_invariant(self);
        }
        let angle = utility::normalize_angle(utility::denominator_to_1000(argument_fraction));
        Ok((self.tangent_array[angle as usize], 1000))
    }

    /// The arcsine of the ratio named by the fraction, as a fraction over
    /// `1000`. Ratios outside `[-1, 1]` are outside the domain of the
    /// arcsine and are rejected rather than clamped.
    pub fn arcsine(&self, argument_fraction: (i32, i32)) -> (result: Result<(i32, i32), TrigError>)
        ensures
            match result {
                Ok(value) => {
                    let ratio = frac_to_thousandths(
                        argument_fraction.0 as int,
                        argument_fraction.1 as int,
                    );
                    &&& argument_fraction.1 != 0
                    &&& -1000 <= ratio <= 1000
                    &&& value.1 == 1000
                    &&& value.0 as int == self.arcsine_samples()[ratio + 1000] as int
                },
                Err(error) => {
                    let ratio = frac_to_thousandths(
                        argument_fraction.0 as int,
                        argument_fraction.1 as int,
                    );
                    ||| (error == TrigError::InvalidFraction && argument_fraction.1 == 0)
                    ||| (error == TrigError::OutOfDomain && argument_fraction.1 != 0
                        && !(-1000 <= ratio <= 1000))
                },
            },
    {
        if argument_fraction.1 == 0 {
            return Err(TrigError::InvalidFraction);
        }
        proof {
            use_type_invariant(self);
        }
        let ratio = utility::denominator_to_1000(argument_fraction);
        if ratio < -1000 || ratio > 1000 {
            return Err(TrigError::OutOfDomain);
        }
        Ok((self.arcsine_array[(ratio + 1000) as usize] as i32, 1000))
    }

    /// The arccosine of the ratio named by the fraction, as a fraction
    /// over `1000`. Ratios outside `[-1, 1]` are outside the domain of the
    /// arccosine and are rejected rather than clamped.
    pub fn arccosine(&self, argument_fraction: (i32, i32)) -> (result: Result<
        (i32, i32),
        TrigError,
    >)
        ensures
            match result {
                Ok(value) => {
                    let ratio = frac_to_thousandths(
                        argument_fraction.0 as int,
                        argument_fraction.1 as int,
                    );
                    &&& argument_fraction.1 != 0
                    &&& -1000 <= ratio <= 1000
                    &&& value.1 == 1000
                    &&& value.0 as int == self.arccosine_samples()[ratio + 1000] as int
                },
                Err(error) => {
                    let ratio = frac_to_thousandths(
                        argument_fraction.0 as int,
                        argument_fraction.1 as int,
                    );
                    ||| (error == TrigError::InvalidFraction && argument_fraction.1 == 0)
                    ||| (error == TrigError::OutOfDomain && argument_fraction.1 != 0
                        && !(-1000 <= ratio <= 1000))
                },
            },
    {
        if argument_fraction.1 == 0 {
            return Err(TrigError::InvalidFraction);
        }
        proof {
            use_type_invariant(self);
        }
        let ratio = utility::denominator_to_1000(argument_fraction);
        if ratio < -1000 || ratio > 1000 {
            return Err(TrigError::OutOfDomain);
        }
        Ok((self.arccosine_array[(ratio + 1000) as usize], 1000))
    }

    /// The slot a tiered arctangent table is read at for the thousandths
    /// ratio `x`: the ratio is rounded to the nearest tabulated step, ties
    /// away from zero, and shifted by the table's center offset.
    pub open spec fn arctangent_tier_slot(x: int, step: int, offset: int) -> int {
        let q = trunc_div(x, step);
        let r = trunc_rem(x, step);
        if abs_val(r) < step / 2 {
            q + offset
        } else if x > 0 {
            q + offset + 1
        } else {
            q + offset - 1
        }
    }

    /// The arctangent of the thousandths ratio `x`, in thousandths of a
    /// radian: a slot of the finest table that covers `x`, or, beyond all
    /// tables, the asymptote `pi / 2` rounded down to `1.570` up to the
    /// magnitude where the true arctangent rounds to `1.571`.
    pub open spec fn arctangent_value(&self, x: int) -> int {
        if -4000 <= x <= 4000 {
            self.arctangent_thousandths_samples()[x + 4000] as int
        } else if -20000 <= x <= 20000 {
            self.arctangent_hundredths_samples()[Self::arctangent_tier_slot(x, 10, 2000)] as int
        } else if -100000 <= x <= 100000 {
            self.arctangent_tenths_samples()[Self::arctangent_tier_slot(x, 100, 1000)] as int
        } else if -1000000 <= x <= 1000000 {
            self.arctangent_ones_samples()[Self::arctangent_tier_slot(x, 1000, 1000)] as int
        } else if x < 0 {
            if x > -3374653 {
                -1570
            } else {
                -1571
            }
        } else {
            if x < 3374653 {
                1570
            } else {
                1571
            }
        }
    }

    /// The arctangent of the ratio named by the fraction, as a fraction
    /// over `1000`. Defined for every ratio; only a zero denominator is an
    /// error.
    pub fn arctangent(&self, argument_fraction: (i32, i32)) -> (result: Result<
        (i32, i32),
        TrigError,
    >)
        ensures
            match result {
                Ok(value) => {
                    &&& argument_fraction.1 != 0
                    &&& value.1 == 1000
                    &&& value.0 as int == self.arctangent_value(
                        frac_to_thousandths(
                            argument_fraction.0 as int,
                            argument_fraction.1 as int,
                        ),
                    )
                },
                Err(error) => argument_fraction.1 == 0 && error == TrigError::InvalidFraction,
            },
    {
        if argument_fraction.1 == 0 {
            return Err(TrigError::InvalidFraction);
        }
        let ratio = utility::denominator_to_1000(argument_fraction);
        proof {
            utility::lemma_frac_to_thousandths_bound(
                argument_fraction.0 as int,
                argument_fraction.1 as int,
            );
        }
        Ok((self.arctangent_lookup(ratio), 1000))
    }

    /// Arcsine and arccosine of the same tabulated ratio are
    /// complementary: their exact values sum to `pi / 2` (`1570.796...`
    /// thousandths), and each sample is rounded separately, so the two
    /// samples sum to `1570` or `1571`.
    pub proof fn lemma_arcsine_arccosine_complementary(&self, ratio: int)
        requires
            self.well_formed(),
            -1000 <= ratio <= 1000,
        ensures
            1570 <= self.arcsine_samples()[ratio + 1000] + self.arccosine_samples()[ratio + 1000]
                <= 1571,
    {
    }

    /// The tiered slot selection is odd: the slot for a negated ratio is
    /// the mirror, across the table's center, of the slot for the ratio.
    proof fn lemma_tier_slot_mirror(x: int, step: int, offset: int)
        requires
            x != 0,
            step == 10 || step == 100 || step == 1000,
            offset == 2000 || offset == 1000,
        ensures
            Self::arctangent_tier_slot(-x, step, offset) == 2 * offset - Self::arctangent_tier_slot(
                x,
                step,
                offset,
            ),
    {
        if x > 0 {
            assert(trunc_div(-x, step) == -trunc_div(x, step));
            assert(trunc_rem(-x, step) == -trunc_rem(x, step));
        } else {
            assert(trunc_div(x, step) == -trunc_div(-x, step));
            assert(trunc_rem(x, step) == -trunc_rem(-x, step));
        }
    }

    /// The arctangent spec is odd: negating the ratio negates the value.
    /// This holds in the tabulated tiers because every arctangent table is
    /// odd-symmetric, and in the asymptotic range because the saturating
    /// constants carry the ratio's sign.
    pub proof fn lemma_arctangent_value_odd(&self, x: int)
        requires
            self.well_formed(),
        ensures
            self.arctangent_value(-x) == -self.arctangent_value(x),
    {
        let mag = abs_val(x);
        if mag <= 4000 {
            let t = self.arctangent_thousandths_samples();
            assert(t[-x + 4000] == -t[8000 - (-x + 4000)]);
        } else if mag <= 20000 {
            Self::lemma_tier_slot_mirror(x, 10, 2000);
            let t = self.arctangent_hundredths_samples();
            let slot = Self::arctangent_tier_slot(x, 10, 2000);
            let mirror = Self::arctangent_tier_slot(-x, 10, 2000);
            assert(0 <= slot <= 4000);
            assert(t[mirror] == -t[4000 - mirror]);
        } else if mag <= 100000 {
            Self::lemma_tier_slot_mirror(x, 100, 1000);
            let t = self.arctangent_tenths_samples();
            let slot = Self::arctangent_tier_slot(x, 100, 1000);
            let mirror = Self::arctangent_tier_slot(-x, 100, 1000);
            assert(0 <= slot <= 2000);
            assert(t[mirror] == -t[2000 - mirror]);
        } else if mag <= 1000000 {
            Self::lemma_tier_slot_mirror(x, 1000, 1000);
            let t = self.arctangent_ones_samples();
            let slot = Self::arctangent_tier_slot(x, 1000, 1000);
            let mirror = Self::arctangent_tier_slot(-x, 1000, 1000);
            assert(0 <= slot <= 2000);
            assert(t[mirror] == -t[2000 - mirror]);
        }
    }

    /// Arctangent is odd in the numerator: for every nonzero denominator,
    /// negating the numerator negates the looked-up arctangent.
    pub proof fn lemma_arctangent_odd(&self, numerator: int, denominator: int)
        requires
            self.well_formed(),
            denominator != 0,
        ensures
            self.arctangent_value(frac_to_thousandths(-numerator, denominator))
                == -self.arctangent_value(frac_to_thousandths(numerator, denominator)),
    {
        lemma_frac_to_thousandths_odd(numerator, denominator);
        self.lemma_arctangent_value_odd(frac_to_thousandths(numerator, denominator));
    }

    /// Reads the arctangent of the thousandths ratio out of the finest
    /// table that covers it, per `arctangent_value`. The computation works
    /// on the ratio's magnitude, so every division below operates on
    /// nonnegative values.
    fn arctangent_lookup(&self, ratio: i64) -> (value: i32)
        requires
            -2200000000000 <= ratio <= 2200000000000,
        ensures
            value as int == self.arctangent_value(ratio as int),
    {
        proof {
            use_type_invariant(self);
        }
        let magnitude: i64 = if ratio < 0 {
            -ratio
        } else {
            ratio
        };
        if magnitude <= 4000 {
            self.arctangent_thousandths[(ratio + 4000) as usize]
        } else if magnitude <= 20000 {
            let quotient: i64 = magnitude / 10;
            let stepped: i64 = if magnitude % 10 < 5 {
                quotient
            } else {
                quotient + 1
            };
            let slot: i64 = if ratio > 0 {
                2000 + stepped
            } else {
                2000 - stepped
            };
            self.arctangent_hundredths[slot as usize]
        } else if magnitude <= 100000 {
            let quotient: i64 = magnitude / 100;
            let stepped: i64 = if magnitude % 100 < 50 {
                quotient
            } else {
                quotient + 1
            };
            let slot: i64 = if ratio > 0 {
                1000 + stepped
            } else {
                1000 - stepped
            };
            self.arctangent_tenths[slot as usize]
        } else if magnitude <= 1000000 {
            let quotient: i64 = magnitude / 1000;
            let stepped: i64 = if magnitude % 1000 < 500 {
                quotient
            } else {
                quotient + 1
            };
            let slot: i64 = if ratio > 0 {
                1000 + stepped
            } else {
                1000 - stepped
            };
            self.arctangent_ones[slot as usize]
        } else if magnitude < 3374653 {
            if ratio > 0 {
                1570
            } else {
                -1570
            }
        } else {
            if ratio > 0 {
                1571
            } else {
                -1571
            }
        }
    }
}

} // verus!
