use deterministic_trigonometry::DTrig;

#[test]
fn test_sine() {
    let dtrig = DTrig::initialize();
    let mut result: bool;

    for a in 0..6283 {
        if ((((a as f64) / 1000.0).sin() * 1000.0).round() as i32)
            == dtrig.sine((a, 1000)).unwrap().0
        {
            result = true;
        } else {
            result = false;
        }

        assert_eq!(result, true);
    }

    for a in (-1000000000..1000000001).step_by(199) {
        if (((((a as f64) / 1000.0).sin() * 1000.0).round() as i32)
            - dtrig.sine((a, 1000)).unwrap().0)
            .abs()
            <= 1
        {
            result = true;
        } else {
            result = false;
        }

        assert_eq!(result, true);
    }
}

#[test]
fn test_cosine() {
    let dtrig = DTrig::initialize();
    let mut result: bool;

    for a in 0..6283 {
        if ((((a as f64) / 1000.0).cos() * 1000.0).round() as i32)
            == dtrig.cosine((a, 1000)).unwrap().0
        {
            result = true;
        } else {
            result = false;
        }

        assert_eq!(result, true);
    }

    for a in (-1000000000..1000000001).step_by(199) {
        if (((((a as f64) / 1000.0).cos() * 1000.0).round() as i32)
            - dtrig.cosine((a, 1000)).unwrap().0)
            .abs()
            <= 1
        {
            result = true;
        } else {
            result = false;
        }

        assert_eq!(result, true);
    }
}

#[test]
fn test_tangent() {
    let dtrig = DTrig::initialize();
    let mut result: bool;

    for a in 0..6283 {
        if ((((a as f64) / 1000.0).tan() * 1000.0).round() as i32)
            == dtrig.tangent((a, 1000)).unwrap().0
        {
            result = true;
        } else {
            result = false;
        }

        assert_eq!(result, true);
    }

    for a in (-1000000000..1000000001).step_by(199) {
        if
        // Off by no more than .01.
        ((((a as f64) / 1000.0).tan() * 1000.0).round() as i64)
            - (dtrig.tangent((a, 1000)).unwrap().0 as i64)
            <= 1 ||
            // Or off by no more than 2%.
            ((((a as f64) / 1000.0).tan() * 1000.0
                - (dtrig.tangent((a, 1000)).unwrap().0 as f64))
                / (((a as f64) / 1000.0).tan() * 1000.0))
                .abs()
                <= 0.02 ||
            // Or if greater than 10000 off by no more than 10%.
            (((a as f64) / 1000.0).tan().abs() * 1000.0 > 10000.0
                && ((((a as f64) / 1000.0).tan() * 1000.0
                    - (dtrig.tangent((a, 1000)).unwrap().0 as f64))
                    / (((a as f64) / 1000.0).tan() * 1000.0))
                    .abs()
                    <= 0.1) ||
            // Or if greater than 100000 just ignore it.
            (((a as f64) / 1000.0).tan() * 1000.0).abs() > 100000.0
        {
            result = true;
        } else {
            result = false;
        }

        assert_eq!(result, true);
    }
}

#[test]
fn test_arcsine() {
    let dtrig = DTrig::initialize();
    let mut result: bool;

    for a in -1000..1001 {
        if ((((a as f64) / 1000.0).asin() * 1000.0).round() as i32)
            == dtrig.arcsine((a, 1000)).unwrap().0
        {
            result = true;
        } else {
            result = false;
        }

        assert_eq!(result, true);
    }
}

#[test]
fn test_arccosine() {
    let dtrig = DTrig::initialize();
    let mut result: bool;

    for a in -1000..1001 {
        if ((((a as f64) / 1000.0).acos() * 1000.0).round() as i32)
            == dtrig.arccosine((a, 1000)).unwrap().0
        {
            result = true;
        } else {
            result = false;
        }

        assert_eq!(result, true);
    }
}

#[test]
fn test_arctangent() {
    let dtrig = DTrig::initialize();
    let mut result: bool;

    for a in -2000..2001 {
        if ((((a as f64) / 1000.0).atan() * 1000.0).round() as i32)
            == dtrig.arctangent((a, 1000)).unwrap().0
        {
            result = true;
        } else {
            result = false;
        }

        assert_eq!(result, true);
    }

    for a in (-10000000..10000001).step_by(7) {
        if ((((a as f64) / 1000.0).atan() * 1000.0).round() as i32)
            - dtrig.arctangent((a, 1000)).unwrap().0
            <= 1
        {
            result = true;
        } else {
            result = false;
        }

        assert_eq!(result, true);
    }

    for a in (-10000..10001).step_by(7) {
        for b in (1..10001).step_by(5) {
            if ((((a as f64) / (b as f64)).atan() * 1000.0).round() as i32)
                - dtrig.arctangent((a, b)).unwrap().0
                <= 1
            {
                result = true;
            } else {
                result = false;
            }

            assert_eq!(result, true);
        }
    }
}
