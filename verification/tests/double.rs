use koe_core::double::{Double, HALF_BITS, INFINITY_BITS, ONE_BITS, SIGN_BIT, ZERO_BITS};

#[test]
fn bit_patterns_are_those_of_the_numbers() {
    assert_eq!(ZERO_BITS, 0.0f64.to_bits());
    assert_eq!(HALF_BITS, 0.5f64.to_bits());
    assert_eq!(ONE_BITS, 1.0f64.to_bits());
    assert_eq!(INFINITY_BITS, f64::INFINITY.to_bits());
    assert_eq!(SIGN_BIT, (-0.0f64).to_bits());
}

#[test]
fn clamping_agrees_with_the_standard_library() {
    let samples = [
        0.0,
        -0.0,
        0.5,
        0.9999999999999999,
        1.0,
        1.0000000000000002,
        -0.1,
        -7.5,
        42.0,
        1e308,
        -1e308,
        5e-324,
        -5e-324,
        f64::INFINITY,
        f64::NEG_INFINITY,
        f64::NAN,
        -f64::NAN,
    ];
    for x in samples {
        let clamped = Double { bits: x.to_bits() }.clamp_to_unit();
        assert_eq!(clamped.bits, x.clamp(0.0, 1.0).to_bits(), "{x}");
        assert_eq!(clamped.clamp_to_unit(), clamped);
    }
}

#[test]
fn order_survives_clamping() {
    let samples = [-2.0f64, -0.5, 0.0, 0.25, 0.75, 1.0, 3.0];
    for pair in samples.windows(2) {
        let low = Double { bits: pair[0].to_bits() }.clamp_to_unit();
        let high = Double { bits: pair[1].to_bits() }.clamp_to_unit();
        assert!(f64::from_bits(low.bits) <= f64::from_bits(high.bits));
    }
}
