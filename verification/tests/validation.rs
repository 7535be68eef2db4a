use wkv::{mod7, validate, validate_windows95, Key, KeyType, WKVError};

#[test]
fn very_invalid() {
    assert_eq!(validate("8Oݼ񰤁ܢ잲Nܾ󌥀z㿒"), Err(WKVError::TooLong));
}

#[test]
fn empty() {
    assert_eq!(validate(""), Err(WKVError::TooShort));
}

#[test]
fn w95_all_zeroes() {
    assert_eq!(
        validate("000-0000000"),
        Ok(Key {
            release: KeyType::Windows95,
        })
    );
}

#[test]
fn w95_yolo() {
    assert_eq!(
        validate("YOLO1111111"),
        Ok(Key {
            release: KeyType::Windows95,
        })
    );
}

#[test]
fn w95_real() {
    assert_eq!(
        validate("757-2573155"),
        Ok(Key {
            release: KeyType::Windows95,
        })
    );
}

#[test]
fn w95_invalid() {
    assert_eq!(validate("555-5555555"), Err(WKVError::InvalidDigitPosition));
}

#[test]
fn w95_invalid_good_start() {
    // The digit sum of 5555555 is 35, which 7 divides, so the key is accepted.
    assert_eq!(
        validate("000-5555555"),
        Ok(Key {
            release: KeyType::Windows95,
        })
    );
}

#[test]
fn ten_bytes_is_too_short() {
    assert_eq!(validate("0123456789"), Err(WKVError::TooShort));
}

#[test]
fn twelve_bytes_is_too_long() {
    assert_eq!(validate("0123456789AB"), Err(WKVError::TooLong));
}

#[test]
fn every_forbidden_triple_is_rejected() {
    for triple in ["333", "444", "555", "666", "777", "888", "999"] {
        let key = format!("{}-0000000", triple);
        assert_eq!(validate(&key), Err(WKVError::InvalidDigitPosition));
    }
}

#[test]
fn forbidden_triple_wins_over_everything_behind_it() {
    assert_eq!(validate("777-ABCDEFG"), Err(WKVError::InvalidDigitPosition));
}

#[test]
fn checksum_not_divisible_by_seven() {
    // 5 + 5 + 5 + 5 + 5 + 5 + 1 = 31, and 31 mod 7 = 3.
    assert_eq!(validate("000-5555551"), Err(WKVError::BadMod7));
}

#[test]
fn non_digit_in_checksum_region() {
    assert_eq!(validate("000-00a0000"), Err(WKVError::ExpectedDigit));
    assert_eq!(validate("000-000000x"), Err(WKVError::ExpectedDigit));
}

#[test]
fn separator_position_is_never_inspected() {
    for sep in ["-", "0", "Z", "!", "~"] {
        let key = format!("000{}0000000", sep);
        assert_eq!(
            validate(&key),
            Ok(Key {
                release: KeyType::Windows95,
            })
        );
    }
}

#[test]
fn multibyte_character_across_separator_position() {
    // "ab" then "\u{df}" (two bytes) then seven digits: eleven bytes, but byte
    // 3 continues a character, so the prefix cannot be sliced off.
    assert_eq!(validate("ab\u{df}0000007"), Err(WKVError::BadAccess));
}

#[test]
fn direct_validator_guards_its_slicing() {
    assert_eq!(validate_windows95("ab"), Err(WKVError::BadAccess));
    assert_eq!(validate_windows95("abc"), Err(WKVError::BadAccess));
    // The prefix rule is checked before the checksum region is sliced.
    assert_eq!(validate_windows95("333"), Err(WKVError::InvalidDigitPosition));
}

#[test]
fn direct_validator_takes_any_checksum_length() {
    assert_eq!(
        validate_windows95("000-00"),
        Ok(Key {
            release: KeyType::Windows95,
        })
    );
    assert_eq!(validate_windows95("000-0000001"), Err(WKVError::BadMod7));
}

#[test]
fn mod7_on_plain_digit_runs() {
    assert_eq!(mod7(b""), Ok(true));
    assert_eq!(mod7(b"0000000"), Ok(true));
    assert_eq!(mod7(b"16"), Ok(true));
    assert_eq!(mod7(b"123"), Ok(false));
    assert_eq!(mod7(b"2573155"), Ok(true));
}

#[test]
fn mod7_rejects_non_digits() {
    assert_eq!(mod7(b"12a"), Err(WKVError::ExpectedDigit));
    assert_eq!(mod7(b"-123"), Err(WKVError::ExpectedDigit));
    assert_eq!(mod7(b" 7"), Err(WKVError::ExpectedDigit));
}
