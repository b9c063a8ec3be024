use digit_sequence::integers::from_ints::{
    from_u128, from_u16, from_u32, from_u64, from_u8, from_usize, try_from_i128, try_from_i16,
    try_from_i32, try_from_i64, try_from_i8, try_from_isize,
};
use digit_sequence::{CrateError, DigitSequence};

#[test]
fn decomposing_zero_yields_single_zero_digit() {
    let sequence = from_u8(0);
    assert_eq!(sequence.len(), 1);
    assert!(sequence.eq_bytes(&[0]));
    assert!(!sequence.is_empty());
}

#[test]
fn decomposing_negative_fails_with_negative_number() {
    let result = try_from_i32(-4);
    assert_eq!(result, Err(CrateError::NegativeNumber(-4)));
}

#[test]
fn decomposing_negative_widens_payload_per_width() {
    assert_eq!(try_from_i8(-8), Err(CrateError::NegativeNumber(-8)));
    assert_eq!(try_from_i16(-16), Err(CrateError::NegativeNumber(-16)));
    assert_eq!(try_from_i64(-64), Err(CrateError::NegativeNumber(-64)));
    assert_eq!(try_from_i128(-128), Err(CrateError::NegativeNumber(-128)));
    assert_eq!(try_from_isize(-1), Err(CrateError::NegativeNumber(-1)));
    assert_eq!(
        try_from_i128(i128::MIN),
        Err(CrateError::NegativeNumber(i128::MIN))
    );
}

#[test]
fn decomposing_unsigned_of_every_width() {
    assert!(from_u8(107).eq_bytes(&[1, 0, 7]));
    assert!(from_u16(107).eq_bytes(&[1, 0, 7]));
    assert!(from_u32(107).eq_bytes(&[1, 0, 7]));
    assert!(from_u64(107).eq_bytes(&[1, 0, 7]));
    assert!(from_u128(107).eq_bytes(&[1, 0, 7]));
    assert!(from_usize(107).eq_bytes(&[1, 0, 7]));
}

#[test]
fn decomposing_signed_of_every_width() {
    assert!(try_from_i8(107).unwrap().eq_bytes(&[1, 0, 7]));
    assert!(try_from_i16(107).unwrap().eq_bytes(&[1, 0, 7]));
    assert!(try_from_i32(107).unwrap().eq_bytes(&[1, 0, 7]));
    assert!(try_from_i64(107).unwrap().eq_bytes(&[1, 0, 7]));
    assert!(try_from_i128(107).unwrap().eq_bytes(&[1, 0, 7]));
    assert!(try_from_isize(107).unwrap().eq_bytes(&[1, 0, 7]));
}

#[test]
fn decomposing_larger_values() {
    assert!(from_u16(9081).eq_bytes(&[9, 0, 8, 1]));
    assert!(from_u128(1234567890).eq_bytes(&[1, 2, 3, 4, 5, 6, 7, 8, 9, 0]));
}

#[test]
fn roundtrip_of_every_width() {
    assert_eq!(from_u8(90).to_u8(), Ok(90));
    assert_eq!(from_u16(90).to_u16(), Ok(90));
    assert_eq!(from_u32(90).to_u32(), Ok(90));
    assert_eq!(from_u64(90).to_u64(), Ok(90));
    assert_eq!(from_u128(90).to_u128(), Ok(90));
    assert_eq!(from_usize(90).to_usize(), Ok(90));
}

#[test]
fn roundtrip_of_boundary_values() {
    assert_eq!(from_u8(0).to_u8(), Ok(0));
    assert_eq!(from_u8(u8::MAX).to_u8(), Ok(u8::MAX));
    assert_eq!(from_u16(u16::MAX).to_u16(), Ok(u16::MAX));
    assert_eq!(from_u32(u32::MAX).to_u32(), Ok(u32::MAX));
    assert_eq!(from_u64(u64::MAX).to_u64(), Ok(u64::MAX));
    assert_eq!(from_u128(u128::MAX).to_u128(), Ok(u128::MAX));
    assert_eq!(from_usize(usize::MAX).to_usize(), Ok(usize::MAX));
}

#[test]
fn reconstructing_beyond_u128_fails_with_overflow() {
    // 2^128, one past the largest representable value.
    let sequence =
        DigitSequence::from_text("340282366920938463463374607431768211456").unwrap();
    assert_eq!(sequence.to_u128(), Err(CrateError::Overflow));
}

#[test]
fn reconstructing_exact_u128_max_succeeds() {
    let sequence =
        DigitSequence::from_text("340282366920938463463374607431768211455").unwrap();
    assert_eq!(sequence.to_u128(), Ok(u128::MAX));
}

#[test]
fn reconstructing_huge_sequences_fails_with_overflow() {
    let ones = DigitSequence::from_text(&"1".repeat(100)).unwrap();
    assert_eq!(ones.to_u128(), Err(CrateError::Overflow));

    let magnitude = DigitSequence::from_text(&format!("1{}", "0".repeat(100))).unwrap();
    assert_eq!(magnitude.to_u128(), Err(CrateError::Overflow));
}

#[test]
fn reconstructing_narrow_widths_overflows() {
    let sequence = DigitSequence::from_text("256").unwrap();
    assert_eq!(sequence.to_u8(), Err(CrateError::Overflow));
    assert_eq!(sequence.to_u16(), Ok(256));

    let sequence = DigitSequence::from_text("65536").unwrap();
    assert_eq!(sequence.to_u16(), Err(CrateError::Overflow));
    assert_eq!(sequence.to_u32(), Ok(65536));
}

#[test]
fn leading_zeros_do_not_change_the_value() {
    let sequence = DigitSequence::from_text("0302").unwrap();
    assert_eq!(sequence.to_u32(), Ok(302));

    let sequence = DigitSequence::from_bytes(&[0, 3, 0]).unwrap();
    assert_eq!(sequence.to_u8(), Ok(30));
}

#[test]
fn leading_zeros_widen_the_place_value() {
    // The numeric value 5 fits in a u8, but the leading place value
    // 10^3 does not, so the narrow reconstruction overflows.
    let sequence = DigitSequence::from_bytes(&[0, 0, 0, 5]).unwrap();
    assert_eq!(sequence.to_u8(), Err(CrateError::Overflow));
    assert_eq!(sequence.to_u16(), Ok(5));
}

#[test]
fn empty_sequence_reconstructs_to_zero() {
    let sequence = DigitSequence::new();
    assert_eq!(sequence.to_u128(), Ok(0));
    assert_eq!(sequence.to_u8(), Ok(0));
}
