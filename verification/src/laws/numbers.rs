//! Numbers in decimal, in hexadecimal and as bytes.
use crate::decimal::{all_digits, decimal, i64_text, is_digit, parse_u32, u64_text};
use crate::field::{
    be_bytes, be_bytes_value, decoded_value, hex_digits, hex_digits_value, hex_number, hex_text,
    is_in_field, number, paired_digits, pow256, read_hex, read_number, u256_to_hex, u64_bytes,
    zero_digit_in_front, FieldError, FIELD_MODULUS,
};
use crate::hexadecimal::{
    all_hex, be_less, be_value, hex_decoded, hex_digit, hex_encoded, hex_value, is_hex_byte,
    padded_32, padding_keeps_value, HexError,
};
use crate::laws::{decimal_is_number, digits_only, is_number, value, value_is_digits_value};
use crate::text::{has_hex_prefix, without_hex_prefix};
use vstd::prelude::*;
use vstd::string::*;
use vstd::utf8::{encode_utf8, is_ascii_chars, is_ascii_chars_encode_utf8};

verus! {

// ---------------------------------------------------------------------
// Hexadecimal digits and bytes
// ---------------------------------------------------------------------
/// Whether a text holds the digits `0` to `9`, `a` to `f` and `A` to `F` only.
pub open spec fn hex_only(s: Seq<char>) -> bool {
    forall|i: int|
        0 <= i < s.len() ==> '0' <= #[trigger] s[i] <= '9' || 'a' <= s[i] <= 'f' || 'A' <= s[i]
            <= 'F'
}

/// What a hexadecimal digit is worth.
pub open spec fn digit_worth(c: char) -> int {
    if '0' <= c <= '9' {
        c as int - 48
    } else if 'a' <= c <= 'f' {
        c as int - 87
    } else {
        c as int - 55
    }
}

/// What a row of hexadecimal digits is worth, to the base of sixteen.
pub open spec fn hex_worth(s: Seq<char>) -> nat
    decreases s.len(),
{
    if s.len() == 0 {
        0
    } else {
        16 * hex_worth(s.drop_last()) + digit_worth(s.last()) as nat
    }
}

/// What a row of bytes is worth, to the base of 256.
pub open spec fn bytes_worth(b: Seq<u8>) -> nat
    decreases b.len(),
{
    if b.len() == 0 {
        0
    } else {
        256 * bytes_worth(b.drop_last()) + b.last() as nat
    }
}

/// Whether a text is another, as it is or with `0x` before it, however often.
pub open spec fn prefixed(text: Seq<char>, rest: Seq<char>) -> bool
    decreases text.len(),
{
    ||| text == rest
    ||| text.len() >= 2 && text[0] == '0' && text[1] == 'x' && prefixed(text.skip(2), rest)
}

/// Whether a text is hexadecimal digits, as they are or with `0x` before them, however often.
pub open spec fn spells(text: Seq<char>, digits: Seq<char>) -> bool {
    hex_only(digits) && prefixed(text, digits)
}

/// Whether a text begins with `0x`.
pub open spec fn begins_0x(s: Seq<char>) -> bool {
    s.len() >= 2 && s[0] == '0' && s[1] == 'x'
}

/// Two to the power of 256.
pub open spec fn beyond_256_bits() -> nat {
    0x10000000000000000000000000000000000000000000000000000000000000000nat
}

/// Two to the power of 256 is 256 to the power of 32.
pub proof fn bytes_of_256_bits()
    ensures
        pow256(32) == beyond_256_bits(),
{
    reveal_with_fuel(pow256, 33);
}

/// Bytes are worth what the library says.
pub proof fn bytes_are_worth(b: Seq<u8>)
    ensures
        bytes_worth(b) == be_value(b),
    decreases b.len(),
{
    if b.len() > 0 {
        bytes_are_worth(b.drop_last());
    }
}

/// The `0x` before a text is taken off, however often it stands there, and nothing else.
pub proof fn rest_is_left(text: Seq<char>, rest: Seq<char>)
    requires
        prefixed(text, rest),
        !begins_0x(rest),
    ensures
        without_hex_prefix(text) == rest,
        text != rest ==> has_hex_prefix(text),
    decreases text.len(),
{
    if text != rest {
        rest_is_left(text.skip(2), rest);
    }
}

/// Hexadecimal digits do not begin with `0x`.
pub proof fn digits_do_not_begin_0x(digits: Seq<char>)
    requires
        hex_only(digits),
    ensures
        !begins_0x(digits),
{
    if digits.len() >= 2 {
        assert(digits[1] != 'x');
    }
}

/// The `0x` before hexadecimal digits is taken off, and nothing else.
pub proof fn prefix_is_taken_off(text: Seq<char>, digits: Seq<char>)
    requires
        spells(text, digits),
    ensures
        without_hex_prefix(text) == digits,
        text != digits ==> has_hex_prefix(text),
        text == digits ==> !has_hex_prefix(text),
{
    digits_do_not_begin_0x(digits);
    rest_is_left(text, digits);
}

/// A text is its hexadecimal digits with or without `0x` before them.
pub proof fn digits_are_spelled(digits: Seq<char>)
    ensures
        prefixed(digits, digits),
        prefixed(seq!['0', 'x'] + digits, digits),
{
    assert((seq!['0', 'x'] + digits).skip(2) =~= digits);
}

/// Bytes that are all hexadecimal digits are those of hexadecimal digits.
pub proof fn hex_bytes_are_of_digits(s: Seq<char>)
    ensures
        all_hex(encode_utf8(s)) <==> hex_only(s),
{
    if all_hex(encode_utf8(s)) {
        crate::hexadecimal::hex_digits_are_ascii(s);
        is_ascii_chars_encode_utf8(s);
        let b = encode_utf8(s);
        assert forall|i: int| 0 <= i < s.len() implies '0' <= #[trigger] s[i] <= '9' || 'a' <= s[i]
            <= 'f' || 'A' <= s[i] <= 'F' by {
            assert(is_hex_byte(b[i]));
            assert('\0' <= s[i] <= '\u{7f}');
        }
    }
    if hex_only(s) {
        digits_as_bytes(s);
    }
}

/// The bytes of hexadecimal digits are the digits, and worth as much.
pub proof fn digits_as_bytes(s: Seq<char>)
    requires
        hex_only(s),
    ensures
        encode_utf8(s).len() == s.len(),
        all_hex(encode_utf8(s)),
        hex_digits_value(encode_utf8(s)) == hex_worth(s),
{
    assert(is_ascii_chars(s)) by {
        assert forall|i: int| 0 <= i < s.len() implies '\0' <= #[trigger] s[i] <= '\u{7f}' by {}
    }
    is_ascii_chars_encode_utf8(s);
    let b = encode_utf8(s);
    assert forall|i: int| 0 <= i < b.len() implies is_hex_byte(#[trigger] b[i]) && hex_value(b[i])
        == digit_worth(s[i]) by {
        assert(b[i] == s[i] as u8);
    }
    same_worth(b, s);
}

proof fn same_worth(b: Seq<u8>, s: Seq<char>)
    requires
        b.len() == s.len(),
        forall|i: int| 0 <= i < b.len() ==> hex_value(#[trigger] b[i]) == digit_worth(s[i]),
    ensures
        hex_digits_value(b) == hex_worth(s),
    decreases b.len(),
{
    if b.len() > 0 {
        let (c, t) = (b.drop_last(), s.drop_last());
        assert forall|i: int| 0 <= i < c.len() implies hex_value(#[trigger] c[i]) == digit_worth(
            t[i],
        ) by {
            assert(c[i] == b[i] && t[i] == s[i]);
        }
        same_worth(c, t);
        assert(hex_value(b[b.len() - 1]) == digit_worth(s[s.len() - 1]));
    }
}

/// Zeros before hexadecimal digits are worth nothing.
pub proof fn zeros_are_worth_nothing(n: nat, s: Seq<char>)
    ensures
        hex_worth(Seq::new(n, |i: int| '0') + s) == hex_worth(s),
    decreases n, s.len(),
{
    let z = Seq::new(n, |i: int| '0');
    if s.len() == 0 {
        if n > 0 {
            zeros_are_worth_nothing((n - 1) as nat, s);
            assert((z + s).drop_last() =~= Seq::new((n - 1) as nat, |i: int| '0') + s);
            assert((z + s).last() == '0');
        } else {
            assert(z + s =~= s);
        }
    } else {
        zeros_are_worth_nothing(n, s.drop_last());
        assert((z + s).drop_last() =~= z + s.drop_last());
        assert((z + s).last() == s.last());
    }
}

/// What the bytes of hexadecimal digits are worth.
proof fn padded_bytes_are_worth(digits: Seq<u8>)
    requires
        digits.len() % 2 == 0,
        all_hex(digits),
        digits.len() <= 64,
    ensures
        padded_32(hex_decoded(digits)).len() == 32,
        bytes_worth(padded_32(hex_decoded(digits))) == hex_digits_value(digits),
{
    decoded_value(digits);
    padding_keeps_value(hex_decoded(digits));
    bytes_are_worth(padded_32(hex_decoded(digits)));
}

/// What a text in hexadecimal is read as.
pub proof fn hex_number_is_worth(text: Seq<char>, digits: Seq<char>)
    requires
        spells(text, digits),
    ensures
        hex_number(text) is Some <==> digits.len() % 2 == 0 && digits.len() <= 64,
        hex_number(text) matches Some(b) ==> b.len() == 32 && bytes_worth(b) == hex_worth(digits),
{
    prefix_is_taken_off(text, digits);
    digits_as_bytes(digits);
    if digits.len() % 2 == 0 && digits.len() <= 64 {
        padded_bytes_are_worth(hex_digits(text));
    }
}

/// An even number of at most 64 hexadecimal digits is read as what the digits are worth; an odd
/// number of them is refused, and so are more.
pub proof fn hexadecimal_is_read(
    text: &str,
    digits: Seq<char>,
    r: Result<[u8; 32], FieldError>,
)
    requires
        call_ensures(read_hex, (text,), r),
        spells(text@, digits),
    ensures
        r is Ok <==> digits.len() % 2 == 0 && digits.len() <= 64,
        r matches Ok(b) ==> bytes_worth(b@) == hex_worth(digits),
        digits.len() % 2 == 1 ==> r == Err::<[u8; 32], FieldError>(
            FieldError::NotHex(HexError::OddLength),
        ),
        digits.len() % 2 == 0 && digits.len() > 64 ==> r == Err::<[u8; 32], FieldError>(
            FieldError::TooLong,
        ),
{
    prefix_is_taken_off(text@, digits);
    digits_as_bytes(digits);
    hex_number_is_worth(text@, digits);
}

/// A text that holds anything but hexadecimal digits after its `0x` is refused, and the first that
/// is none is told with its place where there is an even number of characters, all in ASCII.
pub proof fn other_texts_are_refused(
    text: &str,
    rest: Seq<char>,
    k: int,
    r: Result<[u8; 32], FieldError>,
)
    requires
        call_ensures(read_hex, (text,), r),
        prefixed(text@, rest),
        !begins_0x(rest),
        !hex_only(rest),
    ensures
        r matches Err(FieldError::NotHex(_)),
        is_ascii_chars(rest) && rest.len() % 2 == 0 && 0 <= k < rest.len() && hex_only(rest.take(k))
            && !hex_only(seq![rest[k]]) ==> (r matches Err(
            FieldError::NotHex(HexError::InvalidHexCharacter { c, index }),
        ) && c == rest[k] && index == k),
{
    rest_is_left(text@, rest);
    hex_bytes_are_of_digits(rest);
    if is_ascii_chars(rest) && rest.len() % 2 == 0 && 0 <= k < rest.len() && hex_only(rest.take(k))
        && !hex_only(seq![rest[k]]) {
        is_ascii_chars_encode_utf8(rest);
        let b = encode_utf8(rest);
        assert forall|i: int| 0 <= i < k implies is_hex_byte(#[trigger] b[i]) by {
            assert(rest.take(k)[i] == rest[i]);
            assert('0' <= rest[i] <= '9' || 'a' <= rest[i] <= 'f' || 'A' <= rest[i] <= 'F') by {
                assert(hex_only(rest.take(k)));
                let c = rest.take(k)[i];
                assert('0' <= c <= '9' || 'a' <= c <= 'f' || 'A' <= c <= 'F');
            }
        }
        assert('\0' <= rest[k] <= '\u{7f}');
        assert(!is_hex_byte(b[k])) by {
            if is_hex_byte(b[k]) {
                let one = seq![rest[k]];
                assert forall|i: int| 0 <= i < one.len() implies '0' <= #[trigger] one[i] <= '9'
                    || 'a' <= one[i] <= 'f' || 'A' <= one[i] <= 'F' by {
                    assert(one[i] == rest[k]);
                    assert(b[k] == rest[k] as u8);
                }
                assert(hex_only(one));
            }
        }
        if let Err(FieldError::NotHex(HexError::InvalidHexCharacter { c, index })) = r {
            if index < k {
                assert(is_hex_byte(b[index as int]));
            }
            if k < index {
                assert(b.take(index as int)[k] == b[k]);
            }
        }
    }
}

/// What a text in decimal or in hexadecimal after a `0x` is read as.
pub proof fn number_is_worth(text: Seq<char>, digits: Seq<char>)
    ensures
        text.len() > 0 && digits_only(text) ==> {
            &&& number(text) is Some <==> value(text) < beyond_256_bits()
            &&& number(text) matches Some(b) ==> b.len() == 32 && bytes_worth(b) == value(text)
        },
        spells(text, digits) && text != digits ==> {
            &&& number(text) is Some <==> digits.len() <= 64
            &&& number(text) matches Some(b) ==> b.len() == 32 && bytes_worth(b) == hex_worth(
                digits,
            )
        },
        hex_only(text) && !(text.len() > 0 && digits_only(text)) ==> {
            &&& number(text) is Some <==> text.len() % 2 == 0 && text.len() <= 64
            &&& number(text) matches Some(b) ==> b.len() == 32 && bytes_worth(b) == hex_worth(text)
        },
{
    bytes_of_256_bits();
    if hex_only(text) && !(text.len() > 0 && digits_only(text)) {
        digits_are_spelled(text);
        hex_number_is_worth(text, text);
        prefix_is_taken_off(text, text);
        assert(!crate::field::is_decimal(text)) by {
            if all_digits(text) {
                assert forall|i: int| 0 <= i < text.len() implies '0' <= #[trigger] text[i]
                    <= '9' by {
                    assert(is_digit(text[i]));
                }
            }
        }
    }
    if text.len() > 0 && digits_only(text) {
        assert forall|i: int| 0 <= i < text.len() implies is_digit(#[trigger] text[i]) by {}
        value_is_digits_value(text);
        if value(text) < beyond_256_bits() {
            be_bytes_value(value(text), 32);
            bytes_are_worth(be_bytes(value(text), 32));
        }
    }
    if spells(text, digits) && text != digits {
        assert(text[1] == 'x');
        assert(!is_digit(text[1]));
        prefix_is_taken_off(text, digits);
        digits_as_bytes(digits);
        zero_digit_in_front(hex_digits(text));
        let paired = paired_digits(text);
        assert(all_hex(paired));
        if digits.len() <= 64 {
            padded_bytes_are_worth(paired);
        }
    }
}

/// A secret in decimal is read as what its digits are worth, and one in hexadecimal after a `0x`
/// too, be they odd or even in number; one beyond 256 bits is refused. Hexadecimal digits that are
/// no decimal number need no `0x`, but have to be even in number.
pub proof fn secret_is_read(
    text: &str,
    digits: Seq<char>,
    r: Result<[u8; 32], FieldError>,
)
    requires
        call_ensures(read_number, (text,), r),
    ensures
        text@.len() > 0 && digits_only(text@) ==> {
            &&& r is Ok <==> value(text@) < beyond_256_bits()
            &&& r matches Ok(b) ==> bytes_worth(b@) == value(text@)
            &&& r matches Err(e) ==> e == FieldError::TooLong
        },
        spells(text@, digits) && text@ != digits ==> {
            &&& r is Ok <==> digits.len() <= 64
            &&& r matches Ok(b) ==> bytes_worth(b@) == hex_worth(digits)
            &&& r matches Err(e) ==> e == FieldError::TooLong
        },
        hex_only(text@) && !(text@.len() > 0 && digits_only(text@)) ==> {
            &&& r is Ok <==> text@.len() % 2 == 0 && text@.len() <= 64
            &&& r matches Ok(b) ==> bytes_worth(b@) == hex_worth(text@)
        },
{
    number_is_worth(text@, digits);
    if hex_only(text@) && !(text@.len() > 0 && digits_only(text@)) {
        assert(!crate::field::is_decimal(text@)) by {
            if all_digits(text@) {
                assert forall|i: int| 0 <= i < text@.len() implies '0' <= #[trigger] text@[i]
                    <= '9' by {
                    assert(is_digit(text@[i]));
                }
            }
        }
    }
    if text@.len() > 0 && digits_only(text@) {
        assert forall|i: int| 0 <= i < text@.len() implies is_digit(#[trigger] text@[i]) by {}
        assert(all_digits(text@));
    }
    if spells(text@, digits) && text@ != digits {
        prefix_is_taken_off(text@, digits);
        assert(text@[1] == 'x');
        assert(!is_digit(text@[1]));
        digits_as_bytes(digits);
        assert(all_hex(paired_digits(text@)));
    }
}

/// A text that is neither decimal nor hexadecimal is no number.
pub proof fn other_texts_are_no_number(text: Seq<char>, rest: Seq<char>)
    requires
        prefixed(text, rest),
        !begins_0x(rest),
        !hex_only(rest),
    ensures
        number(text) is None,
        !crate::field::is_decimal(text),
{
    rest_is_left(text, rest);
    hex_bytes_are_of_digits(rest);
    if all_digits(text) {
        if text != rest {
            assert(!is_digit(text[1]));
        } else {
            assert forall|i: int| 0 <= i < rest.len() implies '0' <= #[trigger] rest[i] <= '9' || 'a'
                <= rest[i] <= 'f' || 'A' <= rest[i] <= 'F' by {
                assert(is_digit(text[i]));
            }
            assert(hex_only(rest));
        }
    }
}

/// A secret that is neither decimal nor hexadecimal is refused.
pub proof fn other_secrets_are_not_read(
    text: &str,
    rest: Seq<char>,
    r: Result<[u8; 32], FieldError>,
)
    requires
        call_ensures(read_number, (text,), r),
        prefixed(text@, rest),
        !begins_0x(rest),
        !hex_only(rest),
    ensures
        r matches Err(FieldError::NotHex(_)),
{
    other_texts_are_no_number(text@, rest);
    rest_is_left(text@, rest);
    hex_bytes_are_of_digits(rest);
}

/// Whether a text is `0x` and 64 lowercase hexadecimal digits that are worth as much as bytes are.
pub open spec fn writes(text: Seq<char>, bytes: Seq<u8>) -> bool {
    &&& text.len() == 66
    &&& text[0] == '0' && text[1] == 'x'
    &&& forall|i: int|
        2 <= i < 66 ==> '0' <= #[trigger] text[i] <= '9' || 'a' <= text[i] <= 'f'
    &&& hex_worth(text.skip(2)) == bytes_worth(bytes)
}

/// What bytes in hexadecimal are worth.
proof fn encoded_is_worth(bytes: Seq<u8>)
    ensures
        hex_worth(hex_encoded(bytes)) == bytes_worth(bytes),
    decreases bytes.len(),
{
    let s = hex_encoded(bytes);
    if bytes.len() > 0 {
        let n = bytes.len() as int;
        let init = bytes.drop_last();
        encoded_is_worth(init);
        assert(s.drop_last().drop_last() =~= hex_encoded(init));
        let b = bytes[n - 1] as int;
        assert((2 * n - 1) / 2 == n - 1 && (2 * n - 2) / 2 == n - 1);
        assert(s[2 * n - 1] == hex_digit(b % 16));
        assert(s[2 * n - 2] == hex_digit(b / 16));
        assert(digit_worth(hex_digit(b % 16)) == b % 16);
        assert(digit_worth(hex_digit(b / 16)) == b / 16);
        assert(hex_worth(s.drop_last()) == 16 * hex_worth(s.drop_last().drop_last()) + b / 16);
        assert(hex_worth(s) == 16 * hex_worth(s.drop_last()) + b % 16);
        assert(bytes_worth(bytes) == 256 * bytes_worth(init) + b);
    }
}

/// What a number of 256 bits is written as.
pub proof fn hex_text_writes(bytes: Seq<u8>)
    requires
        bytes.len() == 32,
    ensures
        writes(hex_text(bytes), bytes),
{
    reveal_strlit("0x");
    encoded_is_worth(bytes);
    let text = hex_text(bytes);
    assert(text.skip(2) =~= hex_encoded(bytes));
    assert forall|i: int| 2 <= i < 66 implies '0' <= #[trigger] text[i] <= '9' || 'a' <= text[i]
        <= 'f' by {
        let b = bytes[(i - 2) / 2] as int;
        assert(text[i] == hex_encoded(bytes)[i - 2]);
        assert(0 <= b / 16 < 16 && 0 <= b % 16 < 16);
    }
}

/// A number of 256 bits is written as `0x` and 64 lowercase hexadecimal digits that are worth the
/// number.
pub proof fn hexadecimal_is_written(v: &[u8; 32], r: String)
    requires
        call_ensures(u256_to_hex, (v,), r),
    ensures
        writes(r@, v@),
{
    hex_text_writes(v@);
}

/// What is written in hexadecimal is read as the same number.
pub proof fn hexadecimal_comes_back(
    v: &[u8; 32],
    s: &str,
    written: String,
    r: Result<[u8; 32], FieldError>,
)
    requires
        call_ensures(u256_to_hex, (v,), written),
        s@ == written@,
        call_ensures(read_hex, (s,), r),
    ensures
        r matches Ok(b) && b@ == v@,
{
    crate::field::hex_text_reads_back(v@);
}

/// A number of 64 bits is worth the same as 32 bytes.
pub proof fn small_number_is_worth_its_bytes(n: u64, r: [u8; 32])
    requires
        call_ensures(u64_bytes, (n,), r),
    ensures
        bytes_worth(r@) == n,
{
    small_bytes_are_worth(n);
}

/// A number of 64 bits as 32 bytes.
pub proof fn small_bytes_are_worth(n: u64)
    ensures
        be_bytes(n as nat, 32).len() == 32,
        bytes_worth(be_bytes(n as nat, 32)) == n,
{
    bytes_of_256_bits();
    be_bytes_value(n as nat, 32);
    bytes_are_worth(be_bytes(n as nat, 32));
}

/// Bytes are compared by what they are worth.
pub proof fn bytes_compare_by_worth(a: &[u8; 32], b: &[u8; 32], r: bool)
    requires
        call_ensures(be_less, (a, b), r),
    ensures
        r <==> bytes_worth(a@) < bytes_worth(b@),
{
    bytes_are_worth(a@);
    bytes_are_worth(b@);
}

// ---------------------------------------------------------------------
// Decimal numbers
// ---------------------------------------------------------------------
/// A number is written in decimal, with a minus sign where it is negative.
pub proof fn decimal_is_written(n: u64, i: i64, r: String, t: String)
    requires
        call_ensures(u64_text, (n,), r),
        call_ensures(i64_text, (i,), t),
    ensures
        is_number(r@, n as int),
        i >= 0 ==> is_number(t@, i as int),
        i < 0 ==> t@.len() > 1 && t@[0] == '-' && is_number(t@.skip(1), -i),
{
    decimal_is_number(n as nat);
    if i >= 0 {
        decimal_is_number(i as nat);
    } else {
        decimal_is_number((-i) as nat);
        assert(t@.skip(1) =~= decimal((-i) as nat));
    }
}

/// A number of 32 bits is read from its digits, with or without a plus sign; a larger one is not,
/// and nothing is read from anything else.
pub proof fn decimal_is_read(s: &str, word: Seq<char>, r: Option<u32>)
    requires
        call_ensures(parse_u32, (s,), r),
        s@ == word || s@ == seq!['+'] + word,
    ensures
        word.len() > 0 && digits_only(word) && value(word) <= u32::MAX ==> r == Some(
            value(word) as u32,
        ),
        word.len() > 0 && digits_only(word) && value(word) > u32::MAX ==> r is None,
        s@ == seq!['+'] + word && !digits_only(word) ==> r is None,
        s@ == word && !digits_only(word) && word[0] != '+' ==> r is None,
        word.len() == 0 ==> r is None,
{
    value_is_digits_value(word);
    if s@ == seq!['+'] + word {
        assert(s@.drop_first() =~= word);
    }
    assert(all_digits(word) == digits_only(word)) by {
        if all_digits(word) {
            assert forall|i: int| 0 <= i < word.len() implies '0' <= #[trigger] word[i] <= '9' by {
                assert(is_digit(word[i]));
            }
        }
        if digits_only(word) {
            assert forall|i: int| 0 <= i < word.len() implies is_digit(#[trigger] word[i]) by {}
        }
    }
    if word.len() > 0 && digits_only(word) {
        assert('0' <= word[0] <= '9');
    }
    if word.len() == 0 {
        assert(s@ == word ==> s@.len() == 0);
    }
}

// ---------------------------------------------------------------------
// The field
// ---------------------------------------------------------------------
/// The order of the field of the curve BN254.
pub open spec fn order() -> nat {
    21888242871839275222246405745257275088548364400416034343698204186575808495617nat
}

/// Bytes are an element of the field just where they are worth less than its order.
pub proof fn field_is_below_its_order(bytes: &[u8; 32], r: bool)
    requires
        call_ensures(is_in_field, (bytes,), r),
    ensures
        r <==> bytes_worth(bytes@) < order(),
{
    bytes_are_worth(bytes@);
    modulus_is_the_order();
}

/// What the order of the field is worth.
pub proof fn modulus_is_the_order()
    ensures
        be_value(FIELD_MODULUS@) == order(),
{
    let m = FIELD_MODULUS@;
    let t = Seq::new(33, |n: int| be_value(m.take(n)));
    assert(m.len() == 32);
    assert forall|n: int| 0 < n <= 32 implies #[trigger] t[n] == 256 * t[n - 1] + m[n - 1] by {
        assert(m.take(n).drop_last() =~= m.take(n - 1));
        assert(m.take(n).last() == m[n - 1]);
    }
    assert(m.take(0).len() == 0);
    assert(t[0] == 0);
    assert(m.take(32) =~= m);
    assert(t[1] == 0x30int);
    assert(t[2] == 0x3064int);
    assert(t[3] == 0x30644eint);
    assert(t[4] == 0x30644e72int);
    assert(t[8] == 0x30644e72e131a029int) by {
        assert(t[5] == 0x30644e72e1int);
        assert(t[6] == 0x30644e72e131int);
        assert(t[7] == 0x30644e72e131a0int);
    }
    assert(t[12] == 0x30644e72e131a029b85045b6int) by {
        assert(t[9] == 0x30644e72e131a029b8int);
        assert(t[10] == 0x30644e72e131a029b850int);
        assert(t[11] == 0x30644e72e131a029b85045int);
    }
    assert(t[16] == 0x30644e72e131a029b85045b68181585dint) by {
        assert(t[13] == 0x30644e72e131a029b85045b681int);
        assert(t[14] == 0x30644e72e131a029b85045b68181int);
        assert(t[15] == 0x30644e72e131a029b85045b6818158int);
    }
    assert(t[20] == 0x30644e72e131a029b85045b68181585d2833e848int) by {
        assert(t[17] == 0x30644e72e131a029b85045b68181585d28int);
        assert(t[18] == 0x30644e72e131a029b85045b68181585d2833int);
        assert(t[19] == 0x30644e72e131a029b85045b68181585d2833e8int);
    }
    assert(t[24] == 0x30644e72e131a029b85045b68181585d2833e84879b97091int) by {
        assert(t[21] == 0x30644e72e131a029b85045b68181585d2833e84879int);
        assert(t[22] == 0x30644e72e131a029b85045b68181585d2833e84879b9int);
        assert(t[23] == 0x30644e72e131a029b85045b68181585d2833e84879b970int);
    }
    assert(t[28] == 0x30644e72e131a029b85045b68181585d2833e84879b9709143e1f593int) by {
        assert(t[25] == 0x30644e72e131a029b85045b68181585d2833e84879b9709143int);
        assert(t[26] == 0x30644e72e131a029b85045b68181585d2833e84879b9709143e1int);
        assert(t[27] == 0x30644e72e131a029b85045b68181585d2833e84879b9709143e1f5int);
    }
    assert(t[32] == 0x30644e72e131a029b85045b68181585d2833e84879b9709143e1f593f0000001int) by {
        assert(t[29] == 0x30644e72e131a029b85045b68181585d2833e84879b9709143e1f593f0int);
        assert(t[30] == 0x30644e72e131a029b85045b68181585d2833e84879b9709143e1f593f000int);
        assert(t[31] == 0x30644e72e131a029b85045b68181585d2833e84879b9709143e1f593f00000int);
    }
}

} // verus!
