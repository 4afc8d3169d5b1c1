use platformer::fixed::Fixed;

#[test]
fn products_round_toward_zero() {
    let a = Fixed::from_milli(1_001);
    assert_eq!(a.mul(Fixed::from_milli(500)), Fixed::from_milli(500));
    assert_eq!(Fixed::from_milli(-1_001).mul(Fixed::from_milli(500)), Fixed::from_milli(-500));
    assert_eq!(Fixed::from_units(10).mul(Fixed::from_milli(800)), Fixed::from_units(8));
}

#[test]
fn quotients_round_toward_zero() {
    assert_eq!(Fixed::from_units(1).div(Fixed::from_units(3)), Fixed::from_milli(333));
    assert_eq!(Fixed::from_units(-1).div(Fixed::from_units(3)), Fixed::from_milli(-333));
}

#[test]
fn arithmetic_saturates() {
    let big = Fixed::from_milli(i64::MAX);
    assert_eq!(big.add(Fixed::from_milli(1)), big);
    assert_eq!(Fixed::from_milli(i64::MIN).sub(Fixed::from_milli(1)), Fixed::from_milli(i64::MIN));
    assert_eq!(Fixed::from_milli(i64::MIN).neg(), big);
    assert_eq!(big.mul(Fixed::from_units(2)), big);
}

#[test]
fn whole_units_cut_toward_zero() {
    assert_eq!(Fixed::from_milli(2_999).whole(), 2);
    assert_eq!(Fixed::from_milli(-2_999).whole(), -2);
    assert_eq!(Fixed::from_units(7).max(Fixed::from_milli(7_001)), Fixed::from_milli(7_001));
}
