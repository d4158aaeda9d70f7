use deterministic_trigonometry::utility::{denominator_to_1000, normalize_angle};
use deterministic_trigonometry::{DTrig, TrigError};

// Known values of the direct and inverse functions, as fractions over 1000.
#[test]
fn known_values() {
    let dtrig = DTrig::initialize();

    assert_eq!(dtrig.sine((1047, 1000)), Ok((866, 1000)));
    assert_eq!(dtrig.sine((785, 1000)), Ok((707, 1000)));
    assert_eq!(dtrig.sine((0, 1000)), Ok((0, 1000)));
    assert_eq!(dtrig.cosine((785, 1000)), Ok((707, 1000)));
    assert_eq!(dtrig.cosine((0, 1000)), Ok((1000, 1000)));
    assert_eq!(dtrig.tangent((785, 1000)), Ok((999, 1000)));
    assert_eq!(dtrig.arcsine((500, 1000)), Ok((524, 1000)));
    assert_eq!(dtrig.arccosine((500, 1000)), Ok((1047, 1000)));
    assert_eq!(dtrig.arctangent((1000, 1000)), Ok((785, 1000)));
    assert_eq!(dtrig.arctangent((1, 1)), Ok((785, 1000)));
}

// A zero denominator names no number: every operation reports it as an
// invalid fraction rather than substituting a default.
#[test]
fn zero_denominator_is_an_error() {
    let dtrig = DTrig::initialize();

    assert_eq!(dtrig.sine((1, 0)), Err(TrigError::InvalidFraction));
    assert_eq!(dtrig.cosine((-7, 0)), Err(TrigError::InvalidFraction));
    assert_eq!(dtrig.tangent((0, 0)), Err(TrigError::InvalidFraction));
    assert_eq!(dtrig.arcsine((1, 0)), Err(TrigError::InvalidFraction));
    assert_eq!(dtrig.arccosine((1, 0)), Err(TrigError::InvalidFraction));
    assert_eq!(dtrig.arctangent((1, 0)), Err(TrigError::InvalidFraction));
}

// Ratios outside [-1, 1] are outside the domain of arcsine and arccosine
// and are rejected, not clamped.
#[test]
fn out_of_domain_ratio_is_an_error() {
    let dtrig = DTrig::initialize();

    assert_eq!(dtrig.arcsine((1001, 1000)), Err(TrigError::OutOfDomain));
    assert_eq!(dtrig.arcsine((-1001, 1000)), Err(TrigError::OutOfDomain));
    assert_eq!(dtrig.arcsine((3, 2)), Err(TrigError::OutOfDomain));
    assert_eq!(dtrig.arccosine((1001, 1000)), Err(TrigError::OutOfDomain));
    assert_eq!(dtrig.arccosine((-2000, 1000)), Err(TrigError::OutOfDomain));
    // The domain boundary itself is accepted.
    assert_eq!(dtrig.arcsine((1000, 1000)), Ok((1571, 1000)));
    assert_eq!(dtrig.arcsine((-1000, 1000)), Ok((-1571, 1000)));
    assert_eq!(dtrig.arccosine((-1000, 1000)), Ok((3142, 1000)));
}

// Far beyond the last table the arctangent saturates toward pi / 2 with
// the sign of the ratio.
#[test]
fn arctangent_saturates_toward_half_pi() {
    let dtrig = DTrig::initialize();

    let value = dtrig.arctangent((10000000, 1000)).unwrap().0;
    assert!((value - 1570).abs() <= 1);
    assert_eq!(dtrig.arctangent((2000000, 1000)), Ok((1570, 1000)));
    assert_eq!(dtrig.arctangent((-2000000, 1000)), Ok((-1570, 1000)));
    assert_eq!(dtrig.arctangent((4000000, 1000)), Ok((1571, 1000)));
    assert_eq!(dtrig.arctangent((-4000000, 1000)), Ok((-1571, 1000)));
    assert_eq!(dtrig.arctangent((i32::MAX, 1)), Ok((1571, 1000)));
    assert_eq!(dtrig.arctangent((i32::MIN, 1)), Ok((-1571, 1000)));
}

// Arctangent is odd: negating the numerator negates the result.
#[test]
fn arctangent_is_odd() {
    let dtrig = DTrig::initialize();

    for n in (-2000000..2000001).step_by(1009) {
        for d in [1, 2, 3, 7, 1000, -1000, 999] {
            let positive = dtrig.arctangent((n, d)).unwrap().0;
            let negative = dtrig.arctangent((-n, d)).unwrap().0;
            assert_eq!(negative, -positive);
        }
    }
}

// Every slot of every arctangent tier agrees with the floating-point
// reference: on-step ratios hit their slot exactly, and every integer
// ratio up to the last table exercises every slot and every rounding
// branch within one thousandth.
#[test]
fn arctangent_every_tier_slot() {
    let dtrig = DTrig::initialize();

    // Every slot of the thousandths table, exactly.
    for a in -4000..4001 {
        let expected = (((a as f64) / 1000.0).atan() * 1000.0).round() as i32;
        assert_eq!(dtrig.arctangent((a, 1000)).unwrap().0, expected);
    }

    // Every tabulated step of the hundredths, tenths, and ones tables,
    // exactly.
    for (step, limit) in [(10, 20000), (100, 100000), (1000, 1000000)] {
        let mut a: i32 = -limit;
        while a <= limit {
            let expected = (((a as f64) / 1000.0).atan() * 1000.0).round() as i32;
            assert_eq!(dtrig.arctangent((a, 1000)).unwrap().0, expected);
            a += step;
        }
    }

    // Every integer ratio covered by any table, within one thousandth.
    for a in -1000000..1000001 {
        let expected = (((a as f64) / 1000.0).atan() * 1000.0).round() as i32;
        let value = dtrig.arctangent((a, 1000)).unwrap().0;
        assert!((value - expected).abs() <= 1);
    }

    // The saturation crossover beyond the last table.
    assert_eq!(dtrig.arctangent((3374652, 1000)), Ok((1570, 1000)));
    assert_eq!(dtrig.arctangent((3374653, 1000)), Ok((1571, 1000)));
    assert_eq!(dtrig.arctangent((-3374652, 1000)), Ok((-1570, 1000)));
    assert_eq!(dtrig.arctangent((-3374653, 1000)), Ok((-1571, 1000)));
}

// The arcsine and arccosine of one ratio are complementary: their exact
// values sum to pi / 2 (1570.796... thousandths), so the two tabulated
// results sum to 1570 or 1571 at every ratio in the domain.
#[test]
fn arcsine_arccosine_sum_to_half_pi() {
    let dtrig = DTrig::initialize();

    for a in -1000..1001 {
        let asin = dtrig.arcsine((a, 1000)).unwrap().0;
        let acos = dtrig.arccosine((a, 1000)).unwrap().0;
        let sum = asin + acos;
        assert!(sum == 1570 || sum == 1571);
    }
}

// A fraction already over 1000 converts to its own numerator, exactly.
#[test]
fn thousandths_denominator_is_identity() {
    assert_eq!(denominator_to_1000((i32::MAX, 1000)), i32::MAX as i64);
    assert_eq!(denominator_to_1000((i32::MIN, 1000)), i32::MIN as i64);
    for n in (-2000000..2000001).step_by(1009) {
        assert_eq!(denominator_to_1000((n, 1000)), n as i64);
    }
}

// Fraction conversion rounds half away from zero at midpoints.
#[test]
fn fraction_rounding_values() {
    assert_eq!(denominator_to_1000((3, 7)), 429);
    assert_eq!(denominator_to_1000((17, -11)), -1545);
    assert_eq!(denominator_to_1000((1, 16)), 63);
    assert_eq!(denominator_to_1000((-1, 16)), -63);
    assert_eq!(denominator_to_1000((1, 3)), 333);
    assert_eq!(denominator_to_1000((2, 3)), 667);
    assert_eq!(denominator_to_1000((-2, 3)), -667);
}

// Normalizing an already-normalized angle returns it unchanged, and the
// window boundary wraps to zero.
#[test]
fn normalize_angle_is_idempotent() {
    assert_eq!(normalize_angle(6283), 0);
    assert_eq!(normalize_angle(12566), 0);
    assert_eq!(normalize_angle(0), 0);
    assert_eq!(normalize_angle(6282), 6282);
    for a in (-2000000000..2000000001i64).step_by(999983) {
        let once = normalize_angle(a);
        assert_eq!(normalize_angle(once), once);
        assert!(0 <= once && once < 6283);
    }
}
