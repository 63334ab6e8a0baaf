use procdir::decimal::u32_to_dec;

#[test]
fn dec_zero() {
    assert_eq!(u32_to_dec(0), "0");
}

#[test]
fn dec_single_digit() {
    assert_eq!(u32_to_dec(7), "7");
}

#[test]
fn dec_two_digits() {
    assert_eq!(u32_to_dec(42), "42");
}

#[test]
fn dec_inner_zeros() {
    assert_eq!(u32_to_dec(1009), "1009");
}

#[test]
fn dec_largest() {
    assert_eq!(u32_to_dec(u32::MAX), "4294967295");
}
