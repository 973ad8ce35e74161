use avpipe::rational::{rescale, rescale_rnd, Rational, Rounding, TimeError, NO_TIMESTAMP};

fn q(num: i32, den: i32) -> Rational {
    Rational { num, den }
}

#[test]
fn new_rejects_zero_denominator() {
    assert_eq!(Rational::new(1, 0), Err(TimeError::ZeroDenominator));
    assert_eq!(Rational::new(3, 7), Ok(q(3, 7)));
}

#[test]
fn inverse_swaps_terms() {
    assert_eq!(q(30000, 1001).inverse(), Ok(q(1001, 30000)));
    assert_eq!(q(0, 1).inverse(), Err(TimeError::ZeroDenominator));
}

#[test]
fn inverse_twice_is_identity() {
    for r in [q(1, 30), q(-5, 3), q(60, 1), q(i32::MAX, i32::MIN)] {
        assert_eq!(r.inverse().unwrap().inverse().unwrap(), r);
    }
}

#[test]
fn rescale_same_time_base_is_identity() {
    let modes = [Rounding::Zero, Rounding::Inf, Rounding::Down, Rounding::Up, Rounding::NearInf];
    for tb in [q(1, 90000), q(1001, 30000), q(1, 1)] {
        for v in [0i64, 1, -1, 12345, -987654321, i64::MAX, i64::MIN] {
            for m in modes {
                assert_eq!(rescale_rnd(v, tb, tb, m, true), v);
                assert_eq!(rescale_rnd(v, tb, tb, m, false), v);
            }
        }
    }
}

#[test]
fn rescale_between_clocks() {
    assert_eq!(rescale(1, q(1, 1000), q(1, 90000)), 90);
    assert_eq!(rescale(90000, q(1, 90000), q(1, 1000)), 1000);
    assert_eq!(rescale(3, q(1, 30), q(1, 60)), 6);
}

#[test]
fn rescale_rounding_modes() {
    let half = q(1, 2);
    let one = q(1, 1);
    assert_eq!(rescale_rnd(1, half, one, Rounding::NearInf, false), 1);
    assert_eq!(rescale_rnd(-1, half, one, Rounding::NearInf, false), -1);
    assert_eq!(rescale_rnd(1, half, one, Rounding::Down, false), 0);
    assert_eq!(rescale_rnd(-1, half, one, Rounding::Down, false), -1);
    assert_eq!(rescale_rnd(1, half, one, Rounding::Up, false), 1);
    assert_eq!(rescale_rnd(-1, half, one, Rounding::Up, false), 0);
    assert_eq!(rescale_rnd(-1, half, one, Rounding::Zero, false), 0);
    assert_eq!(rescale_rnd(-1, half, one, Rounding::Inf, false), -1);
    assert_eq!(rescale_rnd(1, q(1, 3), one, Rounding::NearInf, false), 0);
    assert_eq!(rescale_rnd(2, q(1, 3), one, Rounding::NearInf, false), 1);
}

#[test]
fn rescale_extremes_and_degenerate_bases() {
    let one = q(1, 1);
    assert_eq!(rescale_rnd(i64::MIN, one, q(1, 2), Rounding::NearInf, true), i64::MIN);
    assert_eq!(rescale_rnd(i64::MAX, one, q(1, 2), Rounding::NearInf, true), i64::MAX);
    assert_eq!(rescale_rnd(i64::MAX, one, q(1, 2), Rounding::NearInf, false), NO_TIMESTAMP);
    assert_eq!(rescale(5, q(-1, 1), one), NO_TIMESTAMP);
    assert_eq!(rescale(5, one, q(0, 1)), NO_TIMESTAMP);
}
