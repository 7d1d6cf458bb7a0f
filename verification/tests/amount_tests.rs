use pool_reader::amount::amount_exceeds;

fn samples() -> Vec<f64> {
    vec![
        0.0,
        -0.0,
        1.0,
        -1.0,
        0.5,
        -0.5,
        100.0,
        250.0,
        50.0,
        12345.67,
        -12345.67,
        f64::MIN_POSITIVE,
        -f64::MIN_POSITIVE,
        5e-324,
        -5e-324,
        f64::MAX,
        f64::MIN,
        f64::INFINITY,
        f64::NEG_INFINITY,
        f64::NAN,
        -f64::NAN,
        f64::from_bits(0x7ff0_0000_0000_0001),
        f64::from_bits(0xffff_ffff_ffff_ffff),
    ]
}

#[test]
fn order_agrees_with_double_comparison() {
    let all = samples();
    for a in &all {
        for b in &all {
            assert_eq!(amount_exceeds(a.to_bits(), b.to_bits()), a > b, "{} > {}", a, b);
        }
    }
}

#[test]
fn zeros_are_equal() {
    assert!(!amount_exceeds(0.0f64.to_bits(), (-0.0f64).to_bits()));
    assert!(!amount_exceeds((-0.0f64).to_bits(), 0.0f64.to_bits()));
}

#[test]
fn not_a_number_exceeds_nothing() {
    let nan = f64::NAN.to_bits();
    assert!(!amount_exceeds(nan, 1.0f64.to_bits()));
    assert!(!amount_exceeds(1.0f64.to_bits(), nan));
    assert!(!amount_exceeds(nan, nan));
    assert!(!amount_exceeds(nan, f64::NEG_INFINITY.to_bits()));
}

#[test]
fn exact_comparisons() {
    assert!(amount_exceeds(250.0f64.to_bits(), 100.0f64.to_bits()));
    assert!(!amount_exceeds(100.0f64.to_bits(), 250.0f64.to_bits()));
    assert!(amount_exceeds((-1.0f64).to_bits(), (-2.0f64).to_bits()));
    assert!(amount_exceeds(0.0f64.to_bits(), (-1.0f64).to_bits()));
    assert!(!amount_exceeds(7.5f64.to_bits(), 7.5f64.to_bits()));
}
