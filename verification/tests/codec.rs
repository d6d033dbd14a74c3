use rollback_core::codec::{decode, encode, CodecError, Intent, INPUT_TOKEN_WIDTH_BYTES, TOKEN_LIMIT};

fn intent(up: bool, down: bool, left: bool, right: bool) -> Intent {
    Intent { up, down, left, right }
}

#[test]
fn round_trip_all_combinations() {
    for bits in 0u8..16u8 {
        let x = intent(bits & 1 != 0, bits & 2 != 0, bits & 4 != 0, bits & 8 != 0);
        let token = encode(&x);
        assert_eq!(decode(token), Ok(x));
    }
}

#[test]
fn exact_token_values() {
    assert_eq!(encode(&Intent::neutral()), 0);
    assert_eq!(encode(&intent(true, false, false, false)), 1);
    assert_eq!(encode(&intent(false, true, false, false)), 2);
    assert_eq!(encode(&intent(false, false, true, false)), 4);
    assert_eq!(encode(&intent(false, false, false, true)), 8);
    assert_eq!(encode(&intent(true, false, false, true)), 9);
    assert_eq!(encode(&intent(true, true, true, true)), 15);
}

#[test]
fn tokens_stay_in_agreed_width() {
    assert_eq!(INPUT_TOKEN_WIDTH_BYTES, 1);
    for bits in 0u8..16u8 {
        let x = intent(bits & 1 != 0, bits & 2 != 0, bits & 4 != 0, bits & 8 != 0);
        assert!(encode(&x) < TOKEN_LIMIT);
    }
}

#[test]
fn decode_rejects_foreign_tokens() {
    assert_eq!(decode(16), Err(CodecError::InvalidInputEncoding));
    assert_eq!(decode(17), Err(CodecError::InvalidInputEncoding));
    assert_eq!(decode(255), Err(CodecError::InvalidInputEncoding));
}

#[test]
fn decode_is_exact_inverse_not_a_guess() {
    let token = encode(&intent(false, false, true, true));
    let decoded = decode(token).unwrap();
    assert_eq!(decoded, intent(false, false, true, true));
}
