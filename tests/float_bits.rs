use raytracer::float_bits::{is_nan, is_positive, total_order_key};

#[test]
fn order_key_follows_total_cmp() {
    let values: Vec<f32> = vec![
        f32::NEG_INFINITY,
        -2.5,
        -1.0,
        -f32::MIN_POSITIVE,
        -0.0,
        0.0,
        f32::MIN_POSITIVE,
        0.01,
        1.0,
        100.0,
        f32::INFINITY,
    ];
    for a in &values {
        for b in &values {
            let expected = a.total_cmp(b);
            let got = total_order_key(a.to_bits()).cmp(&total_order_key(b.to_bits()));
            assert_eq!(got, expected, "{} vs {}", a, b);
        }
    }
}

#[test]
fn order_key_exact_values() {
    assert_eq!(total_order_key(0), 0);
    assert_eq!(total_order_key(1.0f32.to_bits()), 0x3f80_0000);
    assert_eq!(total_order_key((-0.0f32).to_bits()), -1);
    assert_eq!(total_order_key((-1.0f32).to_bits()), -1 - 0x3f80_0000);
}

#[test]
fn nan_is_recognised() {
    assert!(is_nan(f32::NAN.to_bits()));
    assert!(is_nan((-f32::NAN).to_bits()));
    assert!(!is_nan(f32::INFINITY.to_bits()));
    assert!(!is_nan(f32::NEG_INFINITY.to_bits()));
    assert!(!is_nan(1.5f32.to_bits()));
    assert!(!is_nan(0));
}

#[test]
fn positive_floats() {
    assert!(is_positive(90.0f32.to_bits()));
    assert!(is_positive(f32::MIN_POSITIVE.to_bits()));
    assert!(is_positive(f32::INFINITY.to_bits()));
    assert!(!is_positive(0.0f32.to_bits()));
    assert!(!is_positive((-0.0f32).to_bits()));
    assert!(!is_positive((-45.0f32).to_bits()));
    assert!(!is_positive(f32::NAN.to_bits()));
}
