//! Elements of the scalar field of BN254, as 32 bytes with the most significant first, and their
//! Poseidon2 hash.
use crate::decimal::{all_digits, decimal, decimal_reads_back, digits_value};
use crate::hexadecimal::{
    all_hex, be_less, be_value, hex_decode, hex_decoded, hex_decoding, hex_encode, hex_encoded,
    hex_digits_are_ascii, hex_round_trip, hex_value, is_hex_byte, padded_32,
    padding_keeps_value, HexError,
};
use crate::text::{
    ascii_lowercase, chars_of, has_hex_prefix, trim_hex_prefix, without_hex_prefix,
};
use soroban_poseidon::Poseidon2Sponge;
use soroban_sdk::crypto::bn254::Bn254Fr;
use soroban_sdk::{Bytes, Env, Vec as SdkVec, U256};
use vstd::prelude::*;
use vstd::string::*;
use vstd::utf8::{encode_utf8, is_ascii_chars, is_ascii_chars_encode_utf8};

verus! {

/// How many field elements the state of the hash's sponge holds.
pub const POSEIDON2_T: u32 = 4;

/// The order of the field.
pub const FIELD_MODULUS: [u8; 32] = [
    0x30,
    0x64,
    0x4e,
    0x72,
    0xe1,
    0x31,
    0xa0,
    0x29,
    0xb8,
    0x50,
    0x45,
    0xb6,
    0x81,
    0x81,
    0x58,
    0x5d,
    0x28,
    0x33,
    0xe8,
    0x48,
    0x79,
    0xb9,
    0x70,
    0x91,
    0x43,
    0xe1,
    0xf5,
    0x93,
    0xf0,
    0x00,
    0x00,
    0x01,
];

/// Whether bytes stand for an element of the field: a number below its order.
pub open spec fn in_field(bytes: Seq<u8>) -> bool {
    be_value(bytes) < be_value(FIELD_MODULUS@)
}

/// Whether bytes stand for an element of the field.
pub fn is_in_field(bytes: &[u8; 32]) -> (r: bool)
    ensures
        r == in_field(bytes@),
{
    be_less(bytes, &FIELD_MODULUS)
}

// ---------------------------------------------------------------------
// The hash
// ---------------------------------------------------------------------
/// The views of field elements.
pub open spec fn elements(v: Seq<[u8; 32]>) -> Seq<Seq<u8>> {
    v.map_values(|b: [u8; 32]| b@)
}

/// The Poseidon2 hash of field elements.
pub uninterp spec fn poseidon2_hash(inputs: Seq<Seq<u8>>) -> Seq<u8>;

/// `soroban_poseidon::Poseidon2Sponge::compute_hash` over BN254 with a state of `POSEIDON2_T`
/// elements, in a fresh `soroban_sdk::Env`. With the feature `testutils` of `soroban_sdk` that
/// environment has the ledger that the host's permutation asks for. The hash depends on the inputs
/// alone. The sponge panics where an input is not below the order of the field; one or two inputs
/// are one block of the sponge.
#[verifier::external_body]
pub(crate) fn poseidon2(inputs: &Vec<[u8; 32]>) -> (r: [u8; 32])
    requires
        1 <= inputs@.len() <= 2,
        forall|i: int| 0 <= i < inputs@.len() ==> in_field((#[trigger] inputs@[i])@),
    ensures
        r@ == poseidon2_hash(elements(inputs@)),
{
    let env = Env::default();
    let elements = inputs.iter().map(|b| U256::from_be_bytes(&env, &Bytes::from_array(&env, b)));
    let mut sponge = Poseidon2Sponge::<POSEIDON2_T, Bn254Fr>::new(&env);
    let hash = sponge.compute_hash(&SdkVec::from_iter(&env, elements));
    let mut out = [0u8; 32];
    hash.to_be_bytes().copy_into_slice(&mut out);
    out
}

// ---------------------------------------------------------------------
// Numbers as bytes
// ---------------------------------------------------------------------
/// `n` as `len` bytes, the most significant first.
pub open spec fn be_bytes(n: nat, len: nat) -> Seq<u8>
    decreases len,
{
    if len == 0 {
        Seq::empty()
    } else {
        be_bytes(n / 256, (len - 1) as nat).push((n % 256) as u8)
    }
}

/// 256 to the power of `n`.
pub open spec fn pow256(n: nat) -> nat
    decreases n,
{
    if n == 0 {
        1
    } else {
        256 * pow256((n - 1) as nat)
    }
}

/// The bytes of a number that fits stand for the number.
pub proof fn be_bytes_value(n: nat, len: nat)
    requires
        n < pow256(len),
    ensures
        be_bytes(n, len).len() == len,
        be_value(be_bytes(n, len)) == n,
    decreases len,
{
    if len > 0 {
        be_bytes_value(n / 256, (len - 1) as nat);
        let s = be_bytes(n, len);
        assert(s.drop_last() =~= be_bytes(n / 256, (len - 1) as nat));
    }
}

/// Bytes stand for a number that they have room for.
pub proof fn be_value_bound(s: Seq<u8>)
    ensures
        be_value(s) < pow256(s.len()),
    decreases s.len(),
{
    if s.len() > 0 {
        be_value_bound(s.drop_last());
    }
}

/// Bytes are the bytes of the number that they stand for.
pub proof fn be_bytes_unique(s: Seq<u8>)
    ensures
        be_bytes(be_value(s), s.len()) == s,
    decreases s.len(),
{
    if s.len() > 0 {
        be_bytes_unique(s.drop_last());
        assert(s =~= s.drop_last().push(s.last()));
    }
}

/// A `u64` is an element of the field.
proof fn u64_in_field(n: u64)
    ensures
        be_bytes(n as nat, 32).len() == 32,
        be_value(be_bytes(n as nat, 32)) == n,
        in_field(be_bytes(n as nat, 32)),
{
    let m = FIELD_MODULUS@;
    assert(pow256(8) == 0x1_0000_0000_0000_0000) by {
        reveal_with_fuel(pow256, 9);
    }
    pow256_grows(8, 31);
    pow256_grows(31, 32);
    be_bytes_value(n as nat, 32);
    be_value_of_longer(m);
}

proof fn pow256_grows(a: nat, b: nat)
    requires
        a <= b,
    ensures
        pow256(a) <= pow256(b),
    decreases b,
{
    if a < b {
        pow256_grows(a, (b - 1) as nat);
    }
}

/// Bytes that begin with one that is not zero stand for a large number.
proof fn be_value_of_longer(s: Seq<u8>)
    requires
        s.len() > 0,
        s[0] > 0,
    ensures
        be_value(s) >= pow256((s.len() - 1) as nat),
    decreases s.len(),
{
    if s.len() == 1 {
        assert(s.drop_last() =~= Seq::empty());
        assert(be_value(s.drop_last()) == 0);
    } else {
        be_value_of_longer(s.drop_last());
    }
}

/// The array of 32 bytes.
fn to_array(v: &Vec<u8>) -> (r: [u8; 32])
    requires
        v@.len() == 32,
    ensures
        r@ == v@,
{
    let mut out: [u8; 32] = [0u8; 32];
    let mut i: usize = 0;
    while i < 32
        invariant
            i <= 32,
            v@.len() == 32,
            forall|j: int| 0 <= j < i ==> out@[j] == v@[j],
        decreases 32 - i,
    {
        out[i] = v[i];
        i = i + 1;
    }
    assert(out@ =~= v@);
    out
}

/// `n` as 32 bytes.
pub fn u64_bytes(n: u64) -> (r: [u8; 32])
    ensures
        r@ == be_bytes(n as nat, 32),
        in_field(r@),
{
    let mut out: Vec<u8> = Vec::new();
    push_be(&mut out, n, 32);
    assert(Seq::<u8>::empty() + be_bytes(n as nat, 32) =~= be_bytes(n as nat, 32));
    proof {
        u64_in_field(n);
    }
    to_array(&out)
}

/// Appends `n` as `len` bytes.
fn push_be(out: &mut Vec<u8>, n: u64, len: usize)
    ensures
        final(out)@ == old(out)@ + be_bytes(n as nat, len as nat),
    decreases len,
{
    if len > 0 {
        push_be(out, n / 256, len - 1);
        out.push((n % 256) as u8);
        assert(out@ =~= old(out)@ + be_bytes(n as nat, len as nat));
    } else {
        assert(out@ =~= old(out)@ + be_bytes(n as nat, 0));
    }
}

// ---------------------------------------------------------------------
// Texts that stand for numbers of 256 bits
// ---------------------------------------------------------------------
/// Why a text is no number of 256 bits.
#[derive(Clone, Copy, Debug, PartialEq, Eq)]
pub enum FieldError {
    NotHex(HexError),
    TooLong,
}

/// The digits of a number in hexadecimal, as bytes.
pub open spec fn hex_digits(text: Seq<char>) -> Seq<u8> {
    encode_utf8(without_hex_prefix(text))
}

/// The 32 bytes that hexadecimal digits stand for, two digits a byte, where they stand for no more.
pub open spec fn digits_number(digits: Seq<u8>) -> Option<Seq<u8>> {
    if digits.len() % 2 == 0 && all_hex(digits) && digits.len() <= 64 {
        Some(padded_32(hex_decoded(digits)))
    } else {
        None
    }
}

/// How hexadecimal digits are read: what the decoder refuses is refused for that reason, and more
/// than 32 bytes are too many.
pub open spec fn digits_reading(digits: Seq<u8>, r: Result<Seq<u8>, FieldError>) -> bool {
    match r {
        Ok(bytes) => digits_number(digits) == Some(bytes),
        Err(FieldError::NotHex(e)) => hex_decoding(digits, Err(e)),
        Err(FieldError::TooLong) => digits.len() % 2 == 0 && all_hex(digits) && digits.len() > 64,
    }
}

/// The 32 bytes that a text in hexadecimal stands for, with or without a `0x` at its start, where
/// it stands for no more.
pub open spec fn hex_number(text: Seq<char>) -> Option<Seq<u8>> {
    digits_number(hex_digits(text))
}

/// How a text in hexadecimal is read.
pub open spec fn hex_reading(text: Seq<char>, r: Result<Seq<u8>, FieldError>) -> bool {
    digits_reading(hex_digits(text), r)
}

/// The view of a number that was read or of why it was not.
pub open spec fn number_view(r: Result<[u8; 32], FieldError>) -> Result<Seq<u8>, FieldError> {
    match r {
        Ok(b) => Ok(b@),
        Err(e) => Err(e),
    }
}

/// Reads a number of 256 bits from its hexadecimal digits.
fn read_digits(digits: &[u8]) -> (r: Result<[u8; 32], FieldError>)
    ensures
        digits_reading(digits@, number_view(r)),
{
    let mut bytes = match hex_decode(digits) {
        Ok(b) => b,
        Err(e) => return Err(FieldError::NotHex(e)),
    };
    if bytes.len() > 32 {
        return Err(FieldError::TooLong);
    }
    let ghost decoded = bytes@;
    let mut padded: Vec<u8> = Vec::new();
    let zeros: usize = 32 - bytes.len();
    while padded.len() < zeros
        invariant
            padded@.len() <= zeros,
            padded@ == Seq::new(padded@.len(), |i: int| 0u8),
        decreases zeros - padded@.len(),
    {
        padded.push(0);
        assert(padded@ =~= Seq::new(padded@.len(), |i: int| 0u8));
    }
    padded.append(&mut bytes);
    assert(padded@ =~= padded_32(decoded));
    Ok(to_array(&padded))
}

/// Reads a number of 256 bits in hexadecimal.
pub fn read_hex(text: &str) -> (r: Result<[u8; 32], FieldError>)
    ensures
        hex_reading(text@, number_view(r)),
{
    let clean = trim_hex_prefix(text);
    read_digits(clean.as_str().as_bytes())
}

/// A number of 256 bits in hexadecimal, with `0x` before its 64 digits.
pub open spec fn hex_text(bytes: Seq<u8>) -> Seq<char> {
    "0x"@ + hex_encoded(bytes)
}

/// A number of 256 bits in hexadecimal.
pub fn u256_to_hex(v: &[u8; 32]) -> (r: String)
    ensures
        r@ == hex_text(v@),
{
    let mut out = "0x".to_owned();
    out.append(hex_encode(v).as_str());
    out
}

/// Whether a text is a number in decimal.
pub open spec fn is_decimal(text: Seq<char>) -> bool {
    text.len() > 0 && all_digits(text)
}

/// Whether a text is an odd number of hexadecimal digits after a `0x`.
pub open spec fn is_odd_hex(text: Seq<char>) -> bool {
    has_hex_prefix(text) && hex_digits(text).len() % 2 == 1 && all_hex(hex_digits(text))
}

/// The hexadecimal digits of a number, two for each byte: an odd number of them after a `0x` is
/// taken with a `0` before the first.
pub open spec fn paired_digits(text: Seq<char>) -> Seq<u8> {
    if is_odd_hex(text) {
        seq![48u8] + hex_digits(text)
    } else {
        hex_digits(text)
    }
}

/// The 32 bytes that a text stands for, in decimal where it holds digits only, else in
/// hexadecimal.
pub open spec fn number(text: Seq<char>) -> Option<Seq<u8>> {
    if is_decimal(text) {
        if digits_value(text) < pow256(32) {
            Some(be_bytes(digits_value(text), 32))
        } else {
            None
        }
    } else {
        digits_number(paired_digits(text))
    }
}

/// How a text is read as a number: in decimal where it holds digits only, else in hexadecimal.
pub open spec fn number_reading(text: Seq<char>, r: Result<Seq<u8>, FieldError>) -> bool {
    if is_decimal(text) {
        match r {
            Ok(bytes) => number(text) == Some(bytes),
            Err(e) => number(text) is None && e == FieldError::TooLong,
        }
    } else {
        digits_reading(paired_digits(text), r)
    }
}

/// Multiplies the number of the first `n` bytes by ten and adds `carry`. Returns what did not
/// fit.
fn times_ten_plus(b: &mut Vec<u8>, n: usize, carry: u16) -> (r: u16)
    requires
        n <= old(b)@.len(),
        carry < 10,
    ensures
        r < 10,
        final(b)@.len() == old(b)@.len(),
        final(b)@.skip(n as int) == old(b)@.skip(n as int),
        r == 0 ==> be_value(final(b)@.take(n as int)) == 10 * be_value(old(b)@.take(n as int))
            + carry,
        r > 0 ==> 10 * be_value(old(b)@.take(n as int)) + carry >= pow256(n as nat),
    decreases n,
{
    if n == 0 {
        assert(b@.take(0) =~= Seq::empty());
        return carry;
    }
    let ghost start = b@;
    let x: u16 = (b[n - 1] as u16) * 10 + carry;
    let low: u8 = (x % 256) as u8;
    b[n - 1] = low;
    let ghost set = b@;
    let out = times_ten_plus(b, n - 1, x / 256);
    proof {
        let m = n - 1;
        assert(set.take(m) =~= start.take(m));
        assert(start.take(n as int).drop_last() =~= start.take(m));
        assert(start.take(n as int).last() == start[m]);
        assert(b@[m] == b@.skip(m)[0]);
        assert(set.skip(m)[0] == low);
        assert(b@.take(n as int).drop_last() =~= b@.take(m));
        assert(b@.take(n as int).last() == low);
        assert forall|i: int| n <= i < start.len() implies b@[i] == start[i] by {
            assert(b@[i] == b@.skip(m)[i - m]);
            assert(set[i] == set.skip(m)[i - m]);
        }
        assert(b@.skip(n as int) =~= start.skip(n as int));
    }
    out
}

/// Reads a number of 256 bits, in decimal where the text holds digits only, else in hexadecimal.
pub fn read_number(text: &str) -> (r: Result<[u8; 32], FieldError>)
    ensures
        number_reading(text@, number_view(r)),
{
    let cs = chars_of(text);
    if cs.len() == 0 || !holds_digits_only(&cs) {
        return read_prefixed(text, &cs);
    }
    let mut bytes: Vec<u8> = Vec::new();
    while bytes.len() < 32
        invariant
            bytes@.len() <= 32,
            be_value(bytes@) == 0,
        decreases 32 - bytes@.len(),
    {
        let ghost before = bytes@;
        bytes.push(0);
        assert(bytes@.drop_last() =~= before);
    }
    let mut i: usize = 0;
    assert(cs@.take(0) =~= Seq::empty());
    while i < cs.len()
        invariant
            i <= cs@.len(),
            cs@ == text@,
            is_decimal(text@),
            bytes@.len() == 32,
            be_value(bytes@) == digits_value(cs@.take(i as int)),
        decreases cs@.len() - i,
    {
        assert(crate::decimal::is_digit(cs@[i as int]));
        let d: u16 = (cs[i] as u32 - 48) as u16;
        assert(bytes@.take(32) =~= bytes@);
        let out = times_ten_plus(&mut bytes, 32, d);
        proof {
            assert(bytes@.take(32) =~= bytes@);
            assert(cs@.take(i + 1).drop_last() =~= cs@.take(i as int));
            assert(cs@.take(i + 1).last() == cs@[i as int]);
        }
        if out > 0 {
            proof {
                crate::decimal::prefix_value(cs@, i + 1);
            }
            return Err(FieldError::TooLong);
        }
        i = i + 1;
    }
    proof {
        assert(cs@.take(cs@.len() as int) =~= cs@);
        be_value_bound(bytes@);
        be_bytes_unique(bytes@);
    }
    Ok(to_array(&bytes))
}

/// Reads a number of 256 bits in hexadecimal. Of an odd number of digits after a `0x` the first is
/// a byte of its own.
fn read_prefixed(text: &str, cs: &Vec<char>) -> (r: Result<[u8; 32], FieldError>)
    requires
        cs@ == text@,
    ensures
        digits_reading(paired_digits(text@), number_view(r)),
{
    let clean = trim_hex_prefix(text);
    let digits = clean.as_str().as_bytes();
    let prefixed = cs.len() >= 2 && cs[0] == '0' && cs[1] == 'x';
    if prefixed && digits.len() % 2 == 1 && holds_hex_only(digits) {
        let mut paired: Vec<u8> = Vec::new();
        paired.push(48);
        let mut i: usize = 0;
        while i < digits.len()
            invariant
                i <= digits@.len(),
                paired@ == seq![48u8] + digits@.take(i as int),
            decreases digits@.len() - i,
        {
            paired.push(digits[i]);
            assert(paired@ =~= seq![48u8] + digits@.take(i + 1));
            i = i + 1;
        }
        assert(paired@ =~= paired_digits(text@));
        return read_digits(paired.as_slice());
    }
    read_digits(digits)
}

/// Whether all bytes are hexadecimal digits.
fn holds_hex_only(digits: &[u8]) -> (r: bool)
    ensures
        r == all_hex(digits@),
{
    let mut i: usize = 0;
    while i < digits.len()
        invariant
            i <= digits@.len(),
            forall|j: int| 0 <= j < i ==> is_hex_byte(#[trigger] digits@[j]),
        decreases digits@.len() - i,
    {
        let b = digits[i];
        if !((48 <= b && b <= 57) || (97 <= b && b <= 102) || (65 <= b && b <= 70)) {
            assert(!is_hex_byte(digits@[i as int]));
            return false;
        }
        i = i + 1;
    }
    true
}

/// Whether all characters are digits.
fn holds_digits_only(cs: &Vec<char>) -> (r: bool)
    ensures
        r == all_digits(cs@),
{
    let mut i: usize = 0;
    while i < cs.len()
        invariant
            i <= cs@.len(),
            forall|j: int| 0 <= j < i ==> crate::decimal::is_digit(#[trigger] cs@[j]),
        decreases cs@.len() - i,
    {
        if cs[i] < '0' || '9' < cs[i] {
            assert(!crate::decimal::is_digit(cs@[i as int]));
            return false;
        }
        i = i + 1;
    }
    true
}

// ---------------------------------------------------------------------
// Laws of reading and writing
// ---------------------------------------------------------------------
/// Bytes as hexadecimal digits are ASCII, and have no `0x` at their start.
pub proof fn hex_encoded_is_plain(bytes: Seq<u8>)
    ensures
        is_ascii_chars(hex_encoded(bytes)),
        without_hex_prefix(hex_encoded(bytes)) == hex_encoded(bytes),
        forall|i: int|
            0 <= i < hex_encoded(bytes).len() ==> is_hex_byte(
                (#[trigger] hex_encoded(bytes)[i]) as u8,
            ),
{
    let digits = hex_encoded(bytes);
    assert forall|i: int| 0 <= i < digits.len() implies ((#[trigger] digits[i]) as u32) < 128
        && digits[i] != 'x' && is_hex_byte(digits[i] as u8) by {
        let b = bytes[i / 2] as int;
        assert(0 <= b / 16 < 16 && 0 <= b % 16 < 16);
    }
}

/// A number of 256 bits that is written in hexadecimal is read as the same number.
pub proof fn hex_text_reads_back(bytes: Seq<u8>)
    requires
        bytes.len() == 32,
    ensures
        hex_number(hex_text(bytes)) == Some(bytes),
{
    let digits = hex_encoded(bytes);
    hex_encoded_is_plain(bytes);
    reveal_strlit("0x");
    assert(has_hex_prefix(hex_text(bytes)));
    assert(hex_text(bytes).skip(2) =~= digits);
    is_ascii_chars_encode_utf8(digits);
    let encoded = encode_utf8(digits);
    assert forall|i: int| 0 <= i < encoded.len() implies (#[trigger] encoded[i]) as char
        == hex_encoded(bytes)[i] by {}
    hex_round_trip(bytes, encoded);
    assert(padded_32(bytes) =~= bytes);
}

/// The 64 digits of a number are its bytes in hexadecimal, up to their case.
pub proof fn digits_of_number(given: Seq<char>, bytes: Seq<u8>)
    requires
        bytes.len() == 32,
        without_hex_prefix(given).len() == 64,
        hex_number(given) == Some(bytes),
    ensures
        ascii_lowercase(without_hex_prefix(given)) == hex_encoded(bytes),
{
    let have = without_hex_prefix(given);
    let x = encode_utf8(have);
    assert(x == hex_digits(given));
    assert(all_hex(x));
    assert(x.len() <= 64);
    hex_digits_are_ascii(have);
    is_ascii_chars_encode_utf8(have);
    let d = hex_decoded(x);
    assert(d.len() == 32);
    assert(padded_32(d) =~= d);
    assert forall|i: int| 0 <= i < 64 implies ascii_lowercase(have)[i] == hex_encoded(bytes)[i] by {
        assert(x[i] == have[i] as u8);
        assert(is_hex_byte(x[i]));
        let k = i / 2;
        assert(is_hex_byte(x[2 * k]));
        assert(is_hex_byte(x[2 * k + 1]));
        assert(bytes[k] == (16 * hex_value(x[2 * k]) + hex_value(x[2 * k + 1])) as u8);
        assert(i == 2 * k || i == 2 * k + 1);
    }
    assert(ascii_lowercase(have) =~= hex_encoded(bytes));
}

/// A number of at most 31 bytes is an element of the field.
pub proof fn short_number_is_in_field(bytes: Seq<u8>)
    requires
        bytes.len() <= 31,
    ensures
        in_field(padded_32(bytes)),
{
    padding_keeps_value(bytes);
    be_value_bound(bytes);
    pow256_grows(bytes.len(), 31);
    be_value_of_longer(FIELD_MODULUS@);
}

/// Hexadecimal digits are read in one way only.
proof fn digits_have_one_outcome(
    digits: Seq<u8>,
    a: Result<Seq<u8>, FieldError>,
    b: Result<Seq<u8>, FieldError>,
)
    requires
        digits_reading(digits, a),
        digits_reading(digits, b),
    ensures
        a == b,
{
    if let (
        Err(FieldError::NotHex(HexError::InvalidHexCharacter { c: c1, index: i })),
        Err(FieldError::NotHex(HexError::InvalidHexCharacter { c: c2, index: j })),
    ) = (a, b) {
        if i < j {
            assert(digits.take(j as int)[i as int] == digits[i as int]);
        }
        if j < i {
            assert(digits.take(i as int)[j as int] == digits[j as int]);
        }
    }
}

/// A text is read in one way only.
pub proof fn reading_has_one_outcome(
    text: Seq<char>,
    a: Result<Seq<u8>, FieldError>,
    b: Result<Seq<u8>, FieldError>,
)
    ensures
        hex_reading(text, a) && hex_reading(text, b) ==> a == b,
        number_reading(text, a) && number_reading(text, b) ==> a == b,
{
    if hex_reading(text, a) && hex_reading(text, b) {
        digits_have_one_outcome(hex_digits(text), a, b);
    }
    if !is_decimal(text) && number_reading(text, a) && number_reading(text, b) {
        digits_have_one_outcome(paired_digits(text), a, b);
    }
}

/// The number that hexadecimal digits stand for.
pub open spec fn hex_digits_value(digits: Seq<u8>) -> nat
    decreases digits.len(),
{
    if digits.len() == 0 {
        0
    } else {
        16 * hex_digits_value(digits.drop_last()) + hex_value(digits.last()) as nat
    }
}

/// The bytes of an even number of hexadecimal digits stand for the number that the digits stand
/// for.
pub proof fn decoded_value(digits: Seq<u8>)
    requires
        digits.len() % 2 == 0,
        all_hex(digits),
    ensures
        be_value(hex_decoded(digits)) == hex_digits_value(digits),
    decreases digits.len(),
{
    if digits.len() > 0 {
        let n = digits.len() as int;
        let init = digits.drop_last().drop_last();
        assert forall|i: int| 0 <= i < init.len() implies is_hex_byte(#[trigger] init[i]) by {
            assert(init[i] == digits[i]);
        }
        decoded_value(init);
        assert(hex_decoded(digits).drop_last() =~= hex_decoded(init));
        assert(is_hex_byte(digits[n - 1]) && is_hex_byte(digits[n - 2]));
        assert(hex_decoded(digits).last() == (16 * hex_value(digits[n - 2]) + hex_value(
            digits[n - 1],
        )) as u8);
        assert(hex_digits_value(digits.drop_last()) == 16 * hex_digits_value(init) + hex_value(
            digits[n - 2],
        ));
    }
}

/// A `0` before hexadecimal digits does not change the number that they stand for.
pub proof fn zero_digit_in_front(digits: Seq<u8>)
    ensures
        hex_digits_value(seq![48u8] + digits) == hex_digits_value(digits),
    decreases digits.len(),
{
    let longer = seq![48u8] + digits;
    if digits.len() == 0 {
        assert(longer.drop_last() =~= digits);
    } else {
        zero_digit_in_front(digits.drop_last());
        assert(longer.drop_last() =~= seq![48u8] + digits.drop_last());
    }
}

/// A text of at most 64 hexadecimal digits after a `0x` is read as the number that the digits stand
/// for, be they odd or even in number.
pub proof fn prefixed_text_is_its_value(text: Seq<char>)
    requires
        has_hex_prefix(text),
        all_hex(hex_digits(text)),
        hex_digits(text).len() <= 64,
    ensures
        number(text) == Some(be_bytes(hex_digits_value(hex_digits(text)), 32)),
{
    assert(!crate::decimal::is_digit(text[1]));
    let digits = paired_digits(text);
    assert(all_hex(digits));
    decoded_value(digits);
    zero_digit_in_front(hex_digits(text));
    let decoded = hex_decoded(digits);
    padding_keeps_value(decoded);
    be_bytes_unique(padded_32(decoded));
}

/// A text of an even number of digits after a `0x` is read in hexadecimal as it is.
pub proof fn prefixed_text_is_hex(text: Seq<char>)
    requires
        has_hex_prefix(text),
        hex_digits(text).len() % 2 == 0,
    ensures
        number(text) == hex_number(text),
{
    assert(!crate::decimal::is_digit(text[1]));
}

/// A number of at most 256 bits that is written in decimal is read as the same number.
pub proof fn decimal_reads_as_number(n: nat)
    requires
        n < pow256(32),
    ensures
        number(decimal(n)) == Some(be_bytes(n, 32)),
        be_value(be_bytes(n, 32)) == n,
{
    decimal_reads_back(n);
    be_bytes_value(n, 32);
}

} // verus!
