use noodles_grid::ieee::Binary32;
use noodles_grid::ieee::Binary64;

fn b(x: f32) -> Binary32 {
    Binary32::from_bits(x.to_bits())
}

fn samples() -> Vec<f32> {
    vec![
        0.0,
        -0.0,
        1.0,
        -1.0,
        0.95,
        1.05,
        0.94,
        1.051,
        1e-6,
        -1e-6,
        1.5,
        1700.0,
        -1700.0,
        f32::MIN_POSITIVE,
        -f32::MIN_POSITIVE,
        f32::from_bits(1),
        f32::from_bits(0x8000_0001),
        f32::MAX,
        f32::MIN,
        f32::INFINITY,
        f32::NEG_INFINITY,
        f32::NAN,
        f32::from_bits(0xffc0_0000),
        f32::from_bits(0x7f80_0001),
        f32::EPSILON,
        3.25,
        -3.25,
    ]
}

#[test]
fn less_than_agrees_with_the_machine() {
    for &x in &samples() {
        for &y in &samples() {
            assert_eq!(b(x).lt(b(y)), x < y, "{x} < {y}");
        }
    }
}

#[test]
fn at_most_agrees_with_the_machine() {
    for &x in &samples() {
        for &y in &samples() {
            assert_eq!(b(x).le(b(y)), x <= y, "{x} <= {y}");
        }
    }
}

#[test]
fn greater_than_agrees_with_the_machine() {
    for &x in &samples() {
        for &y in &samples() {
            assert_eq!(b(x).gt(b(y)), x > y, "{x} > {y}");
        }
    }
}

#[test]
fn same_value_agrees_with_the_machine() {
    for &x in &samples() {
        for &y in &samples() {
            assert_eq!(b(x).same_value(b(y)), x == y, "{x} == {y}");
        }
    }
}

#[test]
fn is_nan_agrees_with_the_machine() {
    for &x in &samples() {
        assert_eq!(b(x).is_nan(), x.is_nan());
    }
}

#[test]
fn abs_agrees_with_the_machine() {
    for &x in &samples() {
        assert_eq!(b(x).abs().to_bits(), x.abs().to_bits());
    }
}

#[test]
fn neg_agrees_with_the_machine() {
    for &x in &samples() {
        assert_eq!(b(x).neg().to_bits(), (-x).to_bits());
    }
}

#[test]
fn the_two_zeros_differ_as_encodings_and_agree_as_values() {
    assert_ne!(b(0.0), b(-0.0));
    assert!(b(0.0).same_value(b(-0.0)));
    assert!(!b(-0.0).lt(b(0.0)));
}

#[test]
fn named_values_have_their_encodings() {
    assert_eq!(Binary32::zero().to_bits(), 0.0f32.to_bits());
    assert_eq!(Binary32::one().to_bits(), 1.0f32.to_bits());
    assert_eq!(Binary32::infinity().to_bits(), f32::INFINITY.to_bits());
    assert_eq!(noodles_grid::ieee::SIGN_BIT, (-0.0f32).to_bits());
}

#[test]
fn doubles_keep_their_encoding() {
    let x = 123.456f64;
    assert_eq!(f64::from_bits(Binary64::from_bits(x.to_bits()).to_bits()), x);
}

#[test]
fn to_index_agrees_with_the_cast_of_the_machine() {
    let mut values = samples();
    values.extend([0.5, 0.999, 1.0, 1.5, 2.0, 2.999, 7.5, 255.0, 1e6, 8388607.5, 8388608.0, 16777216.0, 1e10, 1e19, 2e19, 1e30]);
    for &x in &values {
        assert_eq!(b(x).to_index(usize::MAX), x as usize, "{x}");
        assert_eq!(b(x).to_index(9), (x as usize).min(9), "{x}");
        assert_eq!(b(x).to_index(0), 0, "{x}");
    }
}
