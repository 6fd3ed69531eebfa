//! Bytes in hexadecimal, and numbers of 256 bits as bytes.
use crate::decimal::{integer_text, u64_text};
use crate::text::{char_debug, debug_char};
use vstd::prelude::*;
use vstd::string::*;
use vstd::utf8::{
    char_is_scalar, char_u32_cast, encode_scalar, encode_utf8, is_ascii_chars,
    leading_byte_width_2, leading_byte_width_3, leading_byte_width_4,
};

verus! {

// ---------------------------------------------------------------------
// Digits
// ---------------------------------------------------------------------
/// Whether a byte is one of the characters `0` to `9`, `a` to `f` and `A` to `F`.
pub open spec fn is_hex_byte(b: u8) -> bool {
    48 <= b <= 57 || 97 <= b <= 102 || 65 <= b <= 70
}

/// Whether a character is one of `0` to `9`, `a` to `f` and `A` to `F`.
pub open spec fn is_hex_char(c: char) -> bool {
    '0' <= c <= '9' || 'a' <= c <= 'f' || 'A' <= c <= 'F'
}

/// Whether all characters are hexadecimal digits.
pub open spec fn all_hex_chars(s: Seq<char>) -> bool {
    forall|i: int| 0 <= i < s.len() ==> is_hex_char(#[trigger] s[i])
}

/// What a hexadecimal digit stands for.
pub open spec fn hex_value(b: u8) -> int {
    if 48 <= b <= 57 {
        b - 48
    } else if 97 <= b <= 102 {
        b - 87
    } else {
        b - 55
    }
}

/// The lowercase hexadecimal digit that stands for `d`.
pub open spec fn hex_digit(d: int) -> char {
    if d < 10 {
        (48 + d) as char
    } else {
        (87 + d) as char
    }
}

/// Whether all bytes are hexadecimal digits.
pub open spec fn all_hex(data: Seq<u8>) -> bool {
    forall|i: int| 0 <= i < data.len() ==> is_hex_byte(#[trigger] data[i])
}

/// The bytes that pairs of hexadecimal digits stand for.
pub open spec fn hex_decoded(data: Seq<u8>) -> Seq<u8> {
    Seq::new(
        data.len() / 2,
        |i: int| (16 * hex_value(data[2 * i]) + hex_value(data[2 * i + 1])) as u8,
    )
}

/// Bytes in lowercase hexadecimal, two digits each.
pub open spec fn hex_encoded(data: Seq<u8>) -> Seq<char> {
    Seq::new(
        2 * data.len(),
        |i: int|
            if i % 2 == 0 {
                hex_digit(data[i / 2] as int / 16)
            } else {
                hex_digit(data[i / 2] as int % 16)
            },
    )
}

// ---------------------------------------------------------------------
// The `hex` crate
// ---------------------------------------------------------------------
/// Why some bytes are no hexadecimal.
#[derive(Clone, Copy, Debug, PartialEq, Eq)]
pub enum HexError {
    /// The first byte that is no hexadecimal digit, and where it stands.
    InvalidHexCharacter { c: char, index: usize },
    OddLength,
    InvalidStringLength,
}

impl HexError {
    /// What the error says.
    pub open spec fn text(self) -> Seq<char> {
        match self {
            HexError::InvalidHexCharacter { c, index } => "Invalid character "@ + char_debug(c)
                + " at position "@ + integer_text(index as int),
            HexError::OddLength => "Odd number of digits"@,
            HexError::InvalidStringLength => "Invalid string length"@,
        }
    }

    /// What the error says.
    pub fn message(&self) -> (r: String)
        ensures
            r@ == self.text(),
    {
        match self {
            HexError::InvalidHexCharacter { c, index } => {
                let mut out = "Invalid character ".to_owned();
                out.append(debug_char(*c).as_str());
                out.append(" at position ");
                out.append(u64_text(*index as u64).as_str());
                out
            },
            HexError::OddLength => "Odd number of digits".to_owned(),
            HexError::InvalidStringLength => "Invalid string length".to_owned(),
        }
    }
}

/// How the bytes `data` decode from hexadecimal: an odd number of them is refused, then the first
/// that is no digit is.
pub open spec fn hex_decoding(data: Seq<u8>, r: Result<Seq<u8>, HexError>) -> bool {
    match r {
        Ok(bytes) => data.len() % 2 == 0 && all_hex(data) && bytes == hex_decoded(data),
        Err(HexError::OddLength) => data.len() % 2 == 1,
        Err(HexError::InvalidHexCharacter { c, index }) => {
            &&& data.len() % 2 == 0
            &&& index < data.len()
            &&& !is_hex_byte(data[index as int])
            &&& all_hex(data.take(index as int))
            &&& c == data[index as int] as char
        },
        Err(HexError::InvalidStringLength) => false,
    }
}

/// `hex::decode`. An odd number of bytes is refused as such; otherwise the first byte that is no
/// hexadecimal digit is, with its position; otherwise each two digits become one byte. The error
/// for a string of the wrong length never comes from this function.
#[verifier::external_body]
pub(crate) fn hex_decode(data: &[u8]) -> (r: Result<Vec<u8>, HexError>)
    ensures
        hex_decoding(
            data@,
            match r {
                Ok(v) => Ok(v@),
                Err(e) => Err(e),
            },
        ),
{
    hex::decode(data).map_err(|e| match e {
        hex::FromHexError::InvalidHexCharacter { c, index } =>
            HexError::InvalidHexCharacter { c, index },
        hex::FromHexError::OddLength => HexError::OddLength,
        hex::FromHexError::InvalidStringLength => HexError::InvalidStringLength,
    })
}

/// `hex::encode`: every byte as two lowercase hexadecimal digits, the higher one first.
#[verifier::external_body]
pub(crate) fn hex_encode(data: &[u8; 32]) -> (r: String)
    ensures
        r@ == hex_encoded(data@),
{
    hex::encode(data)
}

// ---------------------------------------------------------------------
// Numbers of 256 bits
// ---------------------------------------------------------------------
/// The number that bytes stand for, the most significant first.
pub open spec fn be_value(bytes: Seq<u8>) -> nat
    decreases bytes.len(),
{
    if bytes.len() == 0 {
        0
    } else {
        256 * be_value(bytes.drop_last()) + bytes.last() as nat
    }
}

/// At most 32 bytes, with zeros before them to make it 32.
pub open spec fn padded_32(bytes: Seq<u8>) -> Seq<u8> {
    Seq::new((32 - bytes.len()) as nat, |i: int| 0u8) + bytes
}

/// Bytes in hexadecimal decode to the same bytes.
pub proof fn hex_round_trip(bytes: Seq<u8>, digits: Seq<u8>)
    requires
        digits.len() == 2 * bytes.len(),
        forall|i: int|
            0 <= i < digits.len() ==> (#[trigger] digits[i]) as char == hex_encoded(bytes)[i],
    ensures
        digits.len() % 2 == 0,
        all_hex(digits),
        hex_decoded(digits) == bytes,
{
    assert forall|i: int| 0 <= i < digits.len() implies {
        &&& is_hex_byte(#[trigger] digits[i])
        &&& hex_value(digits[i]) == (if i % 2 == 0 {
            bytes[i / 2] as int / 16
        } else {
            bytes[i / 2] as int % 16
        })
    } by {
        assert(digits[i] as char == hex_encoded(bytes)[i]);
    }
    assert forall|i: int| 0 <= i < bytes.len() implies hex_decoded(digits)[i] == bytes[i] by {
        assert(is_hex_byte(digits[2 * i]) && is_hex_byte(digits[2 * i + 1]));
        assert((2 * i) / 2 == i && (2 * i + 1) / 2 == i);
    }
    assert(hex_decoded(digits) =~= bytes);
}

/// Zeros in front of bytes do not change the number that they stand for.
pub proof fn padding_keeps_value(bytes: Seq<u8>)
    requires
        bytes.len() <= 32,
    ensures
        padded_32(bytes).len() == 32,
        be_value(padded_32(bytes)) == be_value(bytes),
{
    zeros_in_front((32 - bytes.len()) as nat, bytes);
}

proof fn zeros_in_front(n: nat, bytes: Seq<u8>)
    ensures
        be_value(Seq::new(n, |i: int| 0u8) + bytes) == be_value(bytes),
    decreases n, bytes.len(),
{
    let z = Seq::new(n, |i: int| 0u8);
    if bytes.len() == 0 {
        if n > 0 {
            zeros_in_front((n - 1) as nat, bytes);
            assert((z + bytes).drop_last() =~= Seq::new((n - 1) as nat, |i: int| 0u8) + bytes);
            assert((z + bytes).last() == 0);
        } else {
            assert(z + bytes =~= bytes);
        }
    } else {
        zeros_in_front(n, bytes.drop_last());
        assert((z + bytes).drop_last() =~= z + bytes.drop_last());
    }
}

/// Whether bytes stand for a smaller number than other bytes, as many of them.
pub fn be_less(a: &[u8; 32], b: &[u8; 32]) -> (r: bool)
    ensures
        r == (be_value(a@) < be_value(b@)),
{
    let mut less: bool = false;
    let mut equal: bool = true;
    let mut i: usize = 0;
    assert(a@.take(0) =~= Seq::empty());
    assert(b@.take(0) =~= Seq::empty());
    while i < 32
        invariant
            i <= 32,
            less == (be_value(a@.take(i as int)) < be_value(b@.take(i as int))),
            equal == (be_value(a@.take(i as int)) == be_value(b@.take(i as int))),
        decreases 32 - i,
    {
        proof {
            assert(a@.take(i + 1).drop_last() =~= a@.take(i as int));
            assert(b@.take(i + 1).drop_last() =~= b@.take(i as int));
            assert(a@.take(i + 1).last() == a@[i as int]);
            assert(b@.take(i + 1).last() == b@[i as int]);
        }
        less = less || (equal && a[i] < b[i]);
        equal = equal && a[i] == b[i];
        i = i + 1;
    }
    assert(a@.take(32) =~= a@);
    assert(b@.take(32) =~= b@);
    less
}

/// Characters whose bytes are all hexadecimal digits are ASCII.
pub proof fn hex_digits_are_ascii(s: Seq<char>)
    requires
        all_hex(encode_utf8(s)),
    ensures
        is_ascii_chars(s),
    decreases s.len(),
{
    if s.len() > 0 {
        let head = s[0];
        let c = head as u32;
        char_is_scalar(head);
        char_u32_cast(head, c);
        let first = encode_scalar(c);
        let rest = encode_utf8(s.drop_first());
        assert(encode_utf8(s) == first + rest);
        assert forall|i: int| 0 <= i < rest.len() implies is_hex_byte(#[trigger] rest[i]) by {
            assert((first + rest)[first.len() + i] == rest[i]);
        }
        hex_digits_are_ascii(s.drop_first());
        assert(first.len() > 0);
        assert((first + rest)[0] == first[0]);
        assert(is_hex_byte(first[0]));
        assert(leading_byte_width_2(c) >= 128 && leading_byte_width_3(c) >= 128
            && leading_byte_width_4(c) >= 128) by (bit_vector);
        assert(c < 128);
        assert forall|i: int| 0 <= i < s.len() implies '\0' <= #[trigger] s[i] <= '\u{7f}' by {
            if i > 0 {
                assert(s[i] == s.drop_first()[i - 1]);
            }
        }
    }
}

} // verus!
