use gremlin::scalar::{Scalar, SCALE};

#[test]
fn scalar_construction_and_order() {
    let two = Scalar::from_int(2);
    assert_eq!(2 * SCALE, two.bits);
    assert_eq!(Scalar::from_ratio(4, 2), two);
    assert!(Scalar::zero().lt(two));
    assert!(two.le(two));
    assert_eq!(two, Scalar::one().add(Scalar::one()));
}

#[test]
fn scalar_ratio_truncates_toward_zero() {
    // One third rounds down; negative one third rounds up, toward zero.
    let third = Scalar::from_ratio(1, 3);
    let neg_third = Scalar::from_ratio(-1, 3);
    assert_eq!(third.bits, 1431655765);
    assert_eq!(neg_third.bits, -1431655765);
    assert_eq!(neg_third, third.neg());
}

#[test]
fn scalar_sqrt_truncates() {
    let four = Scalar::from_int(4);
    assert_eq!(Scalar::from_int(2), four.sqrt());

    // The square root of two to the nearest unit below.
    let two = Scalar::from_int(2);
    let root = two.sqrt();
    let value = root.bits as f64 / SCALE as f64;
    assert!(value <= 2.0f64.sqrt());
    assert!(2.0f64.sqrt() - value < 1e-9);
}

#[test]
fn scalar_checked_ops_detect_overflow() {
    let huge = Scalar::from_bits(i64::MAX);
    assert_eq!(None, huge.checked_add(Scalar::one()));
    assert_eq!(None, huge.checked_mul(huge));
    assert_eq!(None, Scalar::one().checked_div(Scalar::zero()));
    assert!(huge.checked_sub(Scalar::one()).is_some());
}

#[test]
fn scalar_division_truncates_toward_zero() {
    let neg_seven_units = Scalar::from_bits(-7);
    assert_eq!(-3, neg_seven_units.div_int(2).bits);
    let seven_units = Scalar::from_bits(7);
    assert_eq!(3, seven_units.div_int(2).bits);
}
