use grb_param::double::{Double, NAN_BITS};

#[test]
fn bits_are_kept() {
    for x in [0.0f64, -0.0, 1.5, -2.25e-3, 1e100, f64::MAX, f64::MIN_POSITIVE, f64::INFINITY] {
        let d = Double::from_bits(x.to_bits());
        assert_eq!(d.to_bits(), x.to_bits());
        assert_eq!(f64::from_bits(d.to_bits()), x);
    }
}

#[test]
fn nan_is_a_nan() {
    let d = Double::nan();
    assert_eq!(d.to_bits(), NAN_BITS);
    assert_eq!(d.to_bits(), 0x7FF8_0000_0000_0000);
    assert!(f64::from_bits(d.to_bits()).is_nan());
}
