use payment_initiation::amount::{
    Amount, MAX_AMOUNT, MAX_AMOUNT_BITS, MIN_AMOUNT, MIN_AMOUNT_BITS,
};

fn accepted(value: f64) -> bool {
    Amount::from_bits(value.to_bits()).is_in_range()
}

#[test]
fn limits_are_one_and_one_million() {
    assert_eq!(MIN_AMOUNT, 1);
    assert_eq!(MAX_AMOUNT, 1_000_000);
    assert_eq!(MIN_AMOUNT_BITS, 1.0f64.to_bits());
    assert_eq!(MAX_AMOUNT_BITS, 1_000_000.0f64.to_bits());
    assert_eq!(f64::from_bits(MIN_AMOUNT_BITS), 1.0);
    assert_eq!(f64::from_bits(MAX_AMOUNT_BITS), 1_000_000.0);
}

#[test]
fn bits_go_in_and_out_unchanged() {
    let bits = 123.45f64.to_bits();
    let amount = Amount::from_bits(bits);
    assert_eq!(amount.to_bits(), bits);
    assert_eq!(amount.bits, bits);
    assert_eq!(f64::from_bits(amount.to_bits()), 123.45);
}

#[test]
fn both_limits_are_accepted() {
    assert!(accepted(1.0));
    assert!(accepted(1_000_000.0));
}

#[test]
fn amounts_inside_the_range_are_accepted() {
    assert!(accepted(1.5));
    assert!(accepted(2.0));
    assert!(accepted(99.99));
    assert!(accepted(250_000.0));
    assert!(accepted(524_288.0));
    assert!(accepted(999_999.999));
}

#[test]
fn amounts_below_the_range_are_refused() {
    assert!(!accepted(0.5));
    assert!(!accepted(0.0));
    assert!(!accepted(0.999));
    assert!(!accepted(f64::MIN_POSITIVE));
    assert!(!accepted(5e-324));
}

#[test]
fn amounts_above_the_range_are_refused() {
    assert!(!accepted(1_000_001.0));
    assert!(!accepted(1_000_000.5));
    assert!(!accepted(1_048_576.0));
    assert!(!accepted(1e300));
    assert!(!accepted(f64::MAX));
}

#[test]
fn neighbours_of_the_limits() {
    assert!(!accepted(f64::from_bits(MIN_AMOUNT_BITS - 1)));
    assert!(accepted(f64::from_bits(MIN_AMOUNT_BITS + 1)));
    assert!(accepted(f64::from_bits(MAX_AMOUNT_BITS - 1)));
    assert!(!accepted(f64::from_bits(MAX_AMOUNT_BITS + 1)));
}

#[test]
fn negative_amounts_are_refused() {
    assert!(!accepted(-1.0));
    assert!(!accepted(-0.0));
    assert!(!accepted(-500.0));
    assert!(!accepted(-1_000_000.0));
    assert!(!accepted(f64::MIN));
}

#[test]
fn what_is_no_number_is_refused() {
    assert!(!accepted(f64::NAN));
    assert!(!accepted(-f64::NAN));
    assert!(!accepted(f64::INFINITY));
    assert!(!accepted(f64::NEG_INFINITY));
    assert!(!accepted(f64::from_bits(0x7ff0_0000_0000_0001)));
    assert!(!accepted(f64::from_bits(0xffff_ffff_ffff_ffff)));
}

#[test]
fn the_test_on_bits_agrees_with_the_comparison_of_numbers() {
    let mut bits: u64 = 0;
    let mut seen: u32 = 0;
    loop {
        let value = f64::from_bits(bits);
        let expected = 1.0 <= value && value <= 1_000_000.0;
        assert_eq!(accepted(value), expected, "bits {:#018x}", bits);
        seen += 1;
        match bits.checked_add(0x0000_7fff_ffff_ffff) {
            Some(next) => bits = next,
            None => break,
        }
    }
    assert!(seen > 100_000);
}

#[test]
fn the_test_on_bits_agrees_near_the_range() {
    let mut step: u64 = 0;
    while step < 200_000 {
        let bits = MIN_AMOUNT_BITS - 1000 + step * 0x0000_0098_9680_0000;
        let value = f64::from_bits(bits);
        let expected = 1.0 <= value && value <= 1_000_000.0;
        assert_eq!(accepted(value), expected, "bits {:#018x}", bits);
        step += 1;
    }
}
