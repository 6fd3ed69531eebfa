use anonvote_backend::decimal::{i64_text, parse_u32, u64_text};
use anonvote_backend::field::{
    is_in_field, read_hex, read_number, u256_to_hex, u64_bytes, FieldError, FIELD_MODULUS,
};
use anonvote_backend::hexadecimal::{be_less, HexError};

#[test]
fn numbers_are_written_in_decimal() {
    for n in [0, 1, 9, 10, 99, 100, 12_345, u64::MAX] {
        assert_eq!(u64_text(n), n.to_string());
    }
    for i in [0, -1, 7, -10, i64::MAX, i64::MIN] {
        assert_eq!(i64_text(i), i.to_string());
    }
}

#[test]
fn numbers_are_read_from_decimal() {
    for s in ["0", "12", "+7", "007", "4294967295", "4294967296", "", "+", "-1", "1a", " 1", "\u{661}"] {
        assert_eq!(parse_u32(s), s.parse::<u32>().ok(), "{:?}", s);
    }
}

#[test]
fn hex_is_read_with_and_without_a_prefix() {
    let mut expected = [0u8; 32];
    expected[30] = 0x12;
    expected[31] = 0xab;
    assert_eq!(read_hex("12ab"), Ok(expected));
    assert_eq!(read_hex("0x12AB"), Ok(expected));
    assert_eq!(read_hex("0x0x12aB"), Ok(expected));
    assert_eq!(read_hex(""), Ok([0u8; 32]));
    assert_eq!(read_hex(&"ff".repeat(32)), Ok([0xff; 32]));
}

#[test]
fn hex_is_refused_for_the_first_reason() {
    assert_eq!(read_hex("123"), Err(FieldError::NotHex(HexError::OddLength)));
    assert_eq!(read_hex("12g"), Err(FieldError::NotHex(HexError::OddLength)));
    assert_eq!(
        read_hex("12g4z5"),
        Err(FieldError::NotHex(HexError::InvalidHexCharacter { c: 'g', index: 2 }))
    );
    assert_eq!(
        read_hex("0X12"),
        Err(FieldError::NotHex(HexError::InvalidHexCharacter { c: 'X', index: 1 }))
    );
    // a character of two bytes counts as two
    assert_eq!(
        read_hex("\u{e4}"),
        Err(FieldError::NotHex(HexError::InvalidHexCharacter { c: '\u{c3}', index: 0 }))
    );
    assert_eq!(read_hex(&"00".repeat(33)), Err(FieldError::TooLong));
}

#[test]
fn hex_errors_say_what_is_wrong() {
    assert_eq!(HexError::OddLength.message(), "Odd number of digits");
    assert_eq!(HexError::InvalidStringLength.message(), "Invalid string length");
    assert_eq!(
        HexError::InvalidHexCharacter { c: '\n', index: 4 }.message(),
        "Invalid character '\\n' at position 4"
    );
    assert_eq!(
        HexError::InvalidHexCharacter { c: 'g', index: 12 }.message(),
        hex::decode("000000000000gg").unwrap_err().to_string()
    );
}

#[test]
fn hex_is_written_in_full() {
    assert_eq!(u256_to_hex(&[0u8; 32]), format!("0x{}", "0".repeat(64)));
    let mut b = [0u8; 32];
    b[0] = 0xAB;
    b[31] = 0x0F;
    assert_eq!(u256_to_hex(&b), format!("0xab{}0f", "0".repeat(60)));
}

#[test]
fn what_is_written_is_read_back() {
    let mut b = [0u8; 32];
    for i in 0..32 {
        b[i] = (i * 37 + 11) as u8;
    }
    assert_eq!(read_hex(&u256_to_hex(&b)), Ok(b));
    assert_eq!(read_number(&u256_to_hex(&b)), Ok(b));
}

#[test]
fn numbers_are_decimal_where_they_hold_digits_only() {
    assert_eq!(read_number("258"), Ok(u64_bytes(258)));
    assert_eq!(read_number("0"), Ok(u64_bytes(0)));
    assert_eq!(read_number("18446744073709551615"), Ok(u64_bytes(u64::MAX)));
    assert_eq!(read_number("0x0102"), Ok(u64_bytes(258)));
    assert_eq!(read_number("01ff"), Ok(u64_bytes(511)));
    assert_eq!(read_number(""), Ok(u64_bytes(0)));
}

#[test]
fn an_odd_digit_after_a_prefix_is_the_first_byte() {
    assert_eq!(read_number("0x5"), Ok(u64_bytes(5)));
    assert_eq!(read_number("0x102"), Ok(u64_bytes(258)));
    assert_eq!(read_number("0xAbC"), Ok(u64_bytes(0xabc)));
    assert_eq!(read_number("0x0x5"), Ok(u64_bytes(5)));
    assert_eq!(read_number("0x"), Ok(u64_bytes(0)));
    let mut b = [0xff; 32];
    b[0] = 0x0f;
    assert_eq!(read_number(&format!("0x{}", "f".repeat(63))), Ok(b));
    assert_eq!(read_number(&format!("0x{}", "f".repeat(65))), Err(FieldError::TooLong));
    // without a prefix, or where not all are digits, an odd number of them is refused
    assert_eq!(read_number("abc"), Err(FieldError::NotHex(HexError::OddLength)));
    assert_eq!(read_number("0x5gz"), Err(FieldError::NotHex(HexError::OddLength)));
    assert_eq!(read_number("0xx5a"), Err(FieldError::NotHex(HexError::OddLength)));
    // hexadecimal on its own has two digits a byte
    assert_eq!(read_hex("0x5"), Err(FieldError::NotHex(HexError::OddLength)));
}

#[test]
fn the_largest_number_and_the_first_that_is_too_long() {
    let largest = "115792089237316195423570985008687907853269984665640564039457584007913129639935";
    let next = "115792089237316195423570985008687907853269984665640564039457584007913129639936";
    assert_eq!(read_number(largest), Ok([0xff; 32]));
    assert_eq!(read_number(next), Err(FieldError::TooLong));
    assert_eq!(read_number(&"9".repeat(100)), Err(FieldError::TooLong));
}

#[test]
fn the_field_ends_below_its_order() {
    let order = "21888242871839275222246405745257275088548364400416034343698204186575808495617";
    assert_eq!(read_number(order), Ok(FIELD_MODULUS));
    assert!(!is_in_field(&FIELD_MODULUS));
    let mut below = FIELD_MODULUS;
    below[31] = 0;
    assert!(is_in_field(&below));
    assert!(is_in_field(&u64_bytes(u64::MAX)));
    assert!(!is_in_field(&[0xff; 32]));
}

#[test]
fn bytes_are_compared_as_numbers() {
    assert!(be_less(&u64_bytes(255), &u64_bytes(256)));
    assert!(!be_less(&u64_bytes(256), &u64_bytes(255)));
    assert!(!be_less(&u64_bytes(256), &u64_bytes(256)));
}
