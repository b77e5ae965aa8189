//! Validation of contract addresses for the log preset query: an optional
//! `0x` prefix, then exactly 64 hex digits, decoded into 32 bytes.

use vstd::prelude::*;
use vstd::utf8::{encode_utf8, is_ascii_chars, is_ascii_chars_encode_utf8};

verus! {

#[verifier::external_type_specification]
#[verifier::external_body]
pub struct ExHexError(faster_hex::Error);

/// Whether the byte is an ASCII hex digit of either case.
pub open spec fn is_hex_byte(b: u8) -> bool {
    (48 <= b && b <= 57) || (97 <= b && b <= 102) || (65 <= b && b <= 70)
}

/// The value of an ASCII hex digit.
pub open spec fn hex_byte_value(b: u8) -> int {
    if 48 <= b && b <= 57 {
        b - 48
    } else if 97 <= b && b <= 102 {
        b - 87
    } else {
        b - 55
    }
}

/// Whether every byte of `s` is a hex digit.
pub open spec fn all_hex_bytes(s: Seq<u8>) -> bool {
    forall|i: int| 0 <= i < s.len() ==> is_hex_byte(#[trigger] s[i])
}

/// The bytes written by a string of hex digits, two digits per byte, high
/// nibble first.
pub open spec fn hex_decoded(s: Seq<u8>) -> Seq<u8> {
    Seq::new(
        s.len() / 2,
        |i: int| (16 * hex_byte_value(s[2 * i]) + hex_byte_value(s[2 * i + 1])) as u8,
    )
}

/// Relies on faster_hex::hex_decode_array: it decodes exactly 32 bytes from
/// 64 hex digits of either case, and fails on any other length or on a byte
/// that is not a hex digit.
#[verifier::external_body]
pub(crate) fn decode_hex_32(src: &[u8]) -> (r: Result<[u8; 32], faster_hex::Error>)
    ensures
        r is Ok <==> (src@.len() == 64 && all_hex_bytes(src@)),
        r is Ok ==> r->Ok_0@ == hex_decoded(src@),
{
    faster_hex::hex_decode_array::<32>(src)
}

/// Why an address was refused.
#[derive(Clone, Copy, Debug, PartialEq, Eq)]
pub enum AddressFault {
    /// Not exactly 64 characters after the optional prefix.
    WrongLength,
    /// 64 characters, not all of them hex digits.
    NotHex,
}

/// The address digits: the bytes with a leading `0x` dropped, if there is one.
pub open spec fn address_digits(b: Seq<u8>) -> Seq<u8> {
    if b.len() >= 2 && b[0] == 48 && b[1] == 120 {
        b.subrange(2, b.len() as int)
    } else {
        b
    }
}

/// Whether the address digits decode: exactly 64 hex digits.
pub open spec fn digits_decode(d: Seq<u8>) -> bool {
    d.len() == 64 && all_hex_bytes(d)
}

/// The outcome of checking 64 expected hex digits.
pub open spec fn digits_outcome(d: Seq<u8>) -> Result<Seq<u8>, AddressFault> {
    if d.len() != 64 {
        Err(AddressFault::WrongLength)
    } else if !all_hex_bytes(d) {
        Err(AddressFault::NotHex)
    } else {
        Ok(hex_decoded(d))
    }
}

/// The outcome of validating an address written with the characters `s`.
pub open spec fn address_outcome(s: Seq<char>) -> Result<Seq<u8>, AddressFault> {
    digits_outcome(address_digits(encode_utf8(s)))
}

/// Whether a result with a 32-byte array agrees with an outcome over byte
/// sequences.
pub open spec fn agrees(r: Result<[u8; 32], AddressFault>, o: Result<Seq<u8>, AddressFault>) -> bool {
    match (r, o) {
        (Ok(a), Ok(b)) => a@ == b,
        (Err(x), Err(y)) => x == y,
        _ => false,
    }
}

/// Decodes 64 hex digits (no prefix) into the 32 bytes of an address.
pub fn hex_str_address_to_byte_array(hex: &[u8]) -> (r: Result<[u8; 32], AddressFault>)
    ensures
        agrees(r, digits_outcome(hex@)),
{
    if hex.len() != 64 {
        return Err(AddressFault::WrongLength);
    }
    match decode_hex_32(hex) {
        Ok(a) => Ok(a),
        Err(_) => Err(AddressFault::NotHex),
    }
}

/// Validates a contract address: an optional `0x` prefix is dropped, and the
/// rest must be exactly 64 hex digits of either case, which give the 32 bytes.
pub fn validate_address(s: &str) -> (r: Result<[u8; 32], AddressFault>)
    ensures
        agrees(r, address_outcome(s@)),
{
    let b = s.as_bytes();
    if b.len() >= 2 && b[0] == 48u8 && b[1] == 120u8 {
        let (_, rest) = b.split_at(2);
        proof {
            assert(rest@ =~= address_digits(encode_utf8(s@)));
        }
        hex_str_address_to_byte_array(rest)
    } else {
        proof {
            assert(b@ =~= address_digits(encode_utf8(s@)));
        }
        hex_str_address_to_byte_array(b)
    }
}

/// Whether `c` is a hex digit of either case.
pub open spec fn is_hex_char(c: char) -> bool {
    ('0' <= c && c <= '9') || ('a' <= c && c <= 'f') || ('A' <= c && c <= 'F')
}

/// The value of a hex digit character.
pub open spec fn hex_char_value(c: char) -> int {
    if '0' <= c && c <= '9' {
        c as int - '0' as int
    } else if 'a' <= c && c <= 'f' {
        c as int - 'a' as int + 10
    } else {
        c as int - 'A' as int + 10
    }
}

/// The characters of an address after an optional leading `0x`.
pub open spec fn address_char_digits(s: Seq<char>) -> Seq<char> {
    if s.len() >= 2 && s[0] == '0' && s[1] == 'x' {
        s.subrange(2, s.len() as int)
    } else {
        s
    }
}

/// Whether `d` is exactly 64 hex digit characters.
pub open spec fn is_hex_address_body(d: Seq<char>) -> bool {
    d.len() == 64 && forall|i: int| 0 <= i < d.len() ==> is_hex_char(#[trigger] d[i])
}

/// An ASCII address validates exactly when, after an optional `0x`, it is 64
/// hex digits of either case, and then it gives the 32 bytes those digits
/// write, high nibble first.
pub proof fn lemma_address_validation(s: Seq<char>)
    requires
        is_ascii_chars(s),
    ensures
        address_outcome(s) is Ok <==> is_hex_address_body(address_char_digits(s)),
        address_outcome(s) is Ok ==> {
            let d = address_char_digits(s);
            address_outcome(s)->Ok_0 == Seq::new(
                32,
                |i: int| (16 * hex_char_value(d[2 * i]) + hex_char_value(d[2 * i + 1])) as u8,
            )
        },
{
    is_ascii_chars_encode_utf8(s);
    let b = encode_utf8(s);
    let bd = address_digits(b);
    let d = address_char_digits(s);
    assert(bd.len() == d.len());
    assert forall|i: int| 0 <= i < d.len() implies #[trigger] bd[i] == d[i] as u8 && d[i] as int
        == bd[i] as int by {
        if s.len() >= 2 && s[0] == '0' && s[1] == 'x' {
            assert(bd[i] == b[i + 2]);
            assert(d[i] == s[i + 2]);
        }
    }
    assert forall|i: int| 0 <= i < d.len() implies is_hex_char(#[trigger] d[i]) == is_hex_byte(
        bd[i],
    ) && hex_char_value(d[i]) == hex_byte_value(bd[i]) by {
        assert(bd[i] == d[i] as u8);
    }
    if is_hex_address_body(d) {
        assert(all_hex_bytes(bd));
        let expect = Seq::new(
            32,
            |i: int| (16 * hex_char_value(d[2 * i]) + hex_char_value(d[2 * i + 1])) as u8,
        );
        assert(hex_decoded(bd) =~= expect);
    } else if d.len() == 64 {
        let k = choose|k: int| 0 <= k < d.len() && !is_hex_char(#[trigger] d[k]);
        assert(!is_hex_byte(bd[k]));
    }
}

} // verus!
