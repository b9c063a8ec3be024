use digit_sequence::{internal_create_digit_sequence, CrateError, DigitSequence};

#[test]
fn validating_empty_source_yields_empty_sequence() {
    let sequence = DigitSequence::from_bytes(&[]).unwrap();
    assert!(sequence.is_empty());
    assert_eq!(sequence.len(), 0);
}

#[test]
fn validating_digits_preserves_order_and_length() {
    let source = [0, 1, 0, 7];
    let sequence = DigitSequence::from_bytes(&source).unwrap();
    assert_eq!(sequence.to_vec(), vec![0, 1, 0, 7]);
    assert_eq!(sequence.len(), 4);
}

#[test]
fn validating_a_vector_view() {
    let source = vec![0, 1, 0, 3];
    let sequence = DigitSequence::from_bytes(&source).unwrap();
    assert_eq!(sequence.to_vec(), source);
}

#[test]
fn validated_bytes_roundtrip_exactly() {
    let source = [1, 3, 5, 7, 9, 0, 2, 4, 6, 8];
    let sequence = DigitSequence::from_bytes(&source).unwrap();
    assert_eq!(sequence.to_vec(), source.to_vec());
}

#[test]
fn validating_a_ten_fails_with_non_digit_number() {
    let result = DigitSequence::from_bytes(&[10]);
    assert_eq!(result, Err(CrateError::NonDigitNumber(10)));
}

#[test]
fn validating_reports_first_offending_element() {
    let result = DigitSequence::from_bytes(&[9, 3, 18]);
    assert_eq!(result, Err(CrateError::NonDigitNumber(18)));

    let result = DigitSequence::from_bytes(&[18, 20]);
    assert_eq!(result, Err(CrateError::NonDigitNumber(18)));
}

#[test]
fn creating_directly_from_valid_digits() {
    let sequence = internal_create_digit_sequence(vec![9, 2]);
    assert!(sequence.eq_bytes(&[9, 2]));
}
