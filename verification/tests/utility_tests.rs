use deterministic_trigonometry::utility::{denominator_to_1000, normalize_angle};

// This tests to make sure the denominator to 1000 works in a range of cases.
#[test]
fn test_denominator_to_1000() {
    test_equal_fraction((8.0, 1000.0), (8, 1000));
    test_equal_fraction((17.0, 1000.0), (17, 1000));
    test_equal_fraction((3.0, 7.0), (3, 7));
    test_equal_fraction((i32::MAX as f64, 1.0), (i32::MAX, 1));
    test_equal_fraction((i32::MIN as f64, 1.0), (i32::MIN, 1));
    test_equal_fraction((-4.0, 1000.0), (-4, 1000));
    test_equal_fraction((-19.0, 1000.0), (-19, 1000));
    test_equal_fraction((-3.0, 11.0), (-3, 11));
    test_equal_fraction((17.0, -11.0), (17, -11));

    for a in (-10000..10001).step_by(7) {
        for b in (-10000..0).step_by(5) {
            test_equal_fraction((a as f64, b as f64), (a, b));
        }
    }

    for a in (-10000..10001).step_by(7) {
        for b in (1..10001).step_by(5) {
            test_equal_fraction((a as f64, b as f64), (a, b));
        }
    }
}

fn test_equal_fraction(float_fraction: (f64, f64), integer_fraction: (i32, i32)) {
    let test: bool;

    if (((float_fraction.0 / float_fraction.1) * 1000.0).round() as i64)
        == denominator_to_1000(integer_fraction)
        // This excludes various exceptions due to rounding errors.
        || ((((float_fraction.0 / float_fraction.1) * 1000.0
            - (denominator_to_1000(integer_fraction) as f64))
            .abs())
            - 0.5)
            .abs()
            < 0.00001
    {
        test = true;
    } else {
        test = false;
    }
    assert_eq!(test, true);
}

#[test]
fn test_normalize_angle() {
    test_equal_angle(normalize_angle(7000), angle_normalizer(7000.0), 7000);
    test_equal_angle(normalize_angle(-12568), angle_normalizer(-12568.0), -12568);

    for a in -6284..6284 {
        test_equal_angle(
            normalize_angle(a * 1000000),
            angle_normalizer((a * 1000000) as f64),
            a,
        );
    }
}

fn angle_normalizer(thousandth_angle: f64) -> f64 {
    let mut angle = thousandth_angle / 1000.0;
    angle = angle % (2.0 * std::f64::consts::PI);
    if angle < 0.0 {
        angle = angle + 2.0 * std::f64::consts::PI;
    }

    return angle * 1000.0;
}

fn test_equal_angle(thousandth_integer_angle: i64, thousandth_float_angle: f64, number: i64) {
    let test: bool;

    if (thousandth_float_angle.round() as i64) == thousandth_integer_angle
        // This excludes various exceptions due to rounding errors.
        || ((thousandth_float_angle - (thousandth_integer_angle as f64)).abs() - 0.5).abs() < 0.001
        || (thousandth_float_angle.round() as i64 == 6283 && thousandth_integer_angle == 0)
    {
        test = true;
    } else {
        test = false;
        println!(" {} {} {} ", number, thousandth_integer_angle, thousandth_float_angle);
        println!("");
    }
    assert_eq!(test, true);
}
