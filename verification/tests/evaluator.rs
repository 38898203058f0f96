//! Tests of the complex value and the escape-time evaluator against native
//! double-precision arithmetic.

use julia_set::complex::Complex;
use julia_set::escape::{evaluate, ITER_CAP};

fn cx(re: f64, im: f64) -> Complex {
    Complex::new(re.to_bits(), im.to_bits())
}

/// The same recurrence on native doubles, as a cross-check of the
/// bit-pattern arithmetic.
fn native_evaluate(mut zr: f64, mut zi: f64, cr: f64, ci: f64) -> u32 {
    let mut count: u32 = 0;
    while count < 900 {
        if zr * zr + zi * zi > 2.0 {
            break;
        }
        let nr = (zr * zr) - (zi * zi) + cr;
        let ni = 2.0 * zr * zi + ci;
        zr = nr;
        zi = ni;
        count += 1;
    }
    count
}

#[test]
fn origin_never_escapes() {
    assert_eq!(evaluate(cx(0.0, 0.0), cx(0.0, 0.0)), 900);
}

#[test]
fn immediate_escape_at_three() {
    assert_eq!(evaluate(cx(3.0, 0.0), cx(0.0, 0.0)), 0);
}

#[test]
fn count_is_bounded() {
    let nan = f64::from_bits(0x7FF8_0000_0000_0001);
    let inf = f64::INFINITY;
    let cases = [
        (cx(0.0, 0.0), cx(0.0, 0.0)),
        (cx(0.2, 0.3), cx(0.3, 0.1)),
        (cx(-1.5, -1.5), cx(1.5, 1.5)),
        (cx(nan, 0.0), cx(0.5, 0.5)),
        (cx(inf, inf), cx(0.0, 0.0)),
        (cx(1.0e300, -1.0e300), cx(0.25, -0.25)),
    ];
    for (z, c) in cases {
        assert!(evaluate(z, c) <= ITER_CAP);
    }
}

#[test]
fn deterministic() {
    let z = cx(0.31, -0.47);
    let c = cx(-0.4, 0.6);
    let first = evaluate(z, c);
    assert_eq!(evaluate(z, c), first);
    assert_eq!(evaluate(z, c), first);
}

#[test]
fn known_escape_counts() {
    assert_eq!(evaluate(cx(0.3, 0.2), cx(-0.4, 0.6)), 7);
    assert_eq!(evaluate(cx(0.5, 0.5), cx(-0.4, 0.6)), 2);
    assert_eq!(evaluate(cx(0.1, 0.1), cx(0.355, 0.355)), 25);
    assert_eq!(evaluate(cx(1.0, 1.0), cx(0.0, 0.0)), 1);
    assert_eq!(evaluate(cx(0.2, 0.3), cx(0.3, 0.1)), 900);
}

#[test]
fn matches_native_arithmetic() {
    let params = [(0.0, 0.0), (-0.4, 0.6), (0.355, 0.355), (1.5, 1.5)];
    for (cr, ci) in params {
        let mut zr = -1.3;
        while zr <= 1.3 {
            let mut zi = -1.3;
            while zi <= 1.3 {
                assert_eq!(
                    evaluate(cx(zr, zi), cx(cr, ci)),
                    native_evaluate(zr, zi, cr, ci),
                );
                zi += 0.37;
            }
            zr += 0.41;
        }
    }
}

#[test]
fn nan_never_escapes() {
    // A NaN magnitude compares greater than nothing, so the point is
    // treated as bounded and the count reaches the cap.
    let nan = f64::from_bits(0x7FF8_0000_0000_0000);
    assert_eq!(evaluate(cx(nan, nan), cx(0.0, 0.0)), 900);
}

#[test]
fn square_matches_native() {
    let values = [(0.3, 0.2), (-1.5, 2.25), (1.0e300, -3.5), (0.0, -0.0)];
    for (re, im) in values {
        let sq = cx(re, im).square();
        assert_eq!(sq.re, ((re * re) - (im * im)).to_bits());
        assert_eq!(sq.im, (2.0 * re * im).to_bits());
    }
}

#[test]
fn add_matches_native() {
    let a = cx(0.1, -2.75);
    let b = cx(0.2, 1.0e-300);
    let sum = a.add(b);
    assert_eq!(sum.re, (0.1f64 + 0.2f64).to_bits());
    assert_eq!(sum.im, (-2.75f64 + 1.0e-300f64).to_bits());
}

#[test]
fn norm_squared_matches_native() {
    let values = [(0.3, 0.2), (-1.5, -1.5), (3.0, 4.0)];
    for (re, im) in values {
        assert_eq!(cx(re, im).norm_squared(), (re * re + im * im).to_bits());
    }
}

#[test]
fn escape_test_threshold() {
    // The squared magnitude is compared against 2.0 itself, not 4.0:
    // (1.1, 1.0) has squared magnitude 2.21, which escapes at once even
    // though its magnitude is below 2.
    assert!(cx(1.1, 1.0).escaped());
    assert_eq!(evaluate(cx(1.1, 1.0), cx(0.0, 0.0)), 0);
    assert!(!cx(1.0, 1.0).escaped());
    let nan = f64::from_bits(0x7FF8_0000_0000_0000);
    assert!(!cx(nan, 0.0).escaped());
}
