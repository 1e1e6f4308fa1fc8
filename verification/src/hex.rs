//! Conversion between 20-byte entity identifiers and their 40-character
//! hexadecimal textual form, with validation of length and alphabet.

use vstd::prelude::*;
use vstd::string::StrSliceExecFns;

verus! {

/// True of the hexadecimal digit characters, lowercase or uppercase.
pub open spec fn is_hex_digit(c: char) -> bool {
    (('0' as u32) <= c as u32 && c as u32 <= ('9' as u32)) || (('a' as u32) <= c as u32
        && c as u32 <= ('f' as u32)) || (('A' as u32) <= c as u32 && c as u32 <= ('F' as u32))
}

/// Numeric value of a hexadecimal digit character.
pub open spec fn hex_digit_val(c: char) -> u8 {
    if ('a' as u32) <= c as u32 {
        (c as u32 - ('a' as u32) + 10) as u8
    } else if ('A' as u32) <= c as u32 {
        (c as u32 - ('A' as u32) + 10) as u8
    } else {
        (c as u32 - ('0' as u32)) as u8
    }
}

/// The lowercase hexadecimal digit character for a value below sixteen.
pub open spec fn hex_char_of(n: u8) -> char {
    if n == 0 {
        '0'
    } else if n == 1 {
        '1'
    } else if n == 2 {
        '2'
    } else if n == 3 {
        '3'
    } else if n == 4 {
        '4'
    } else if n == 5 {
        '5'
    } else if n == 6 {
        '6'
    } else if n == 7 {
        '7'
    } else if n == 8 {
        '8'
    } else if n == 9 {
        '9'
    } else if n == 10 {
        'a'
    } else if n == 11 {
        'b'
    } else if n == 12 {
        'c'
    } else if n == 13 {
        'd'
    } else if n == 14 {
        'e'
    } else {
        'f'
    }
}

/// Lowercase hexadecimal rendering of a byte sequence: two digit characters
/// per byte, high nibble first.
pub open spec fn hex_of(bytes: Seq<u8>) -> Seq<char> {
    Seq::new(
        2 * bytes.len(),
        |i: int|
            if i % 2 == 0 {
                hex_char_of(bytes[i / 2] / 16)
            } else {
                hex_char_of(bytes[i / 2] % 16)
            },
    )
}

/// The byte sequence denoted by a sequence of hexadecimal digit characters.
pub open spec fn unhex(s: Seq<char>) -> Seq<u8> {
    Seq::new(
        s.len() / 2,
        |i: int| (16 * hex_digit_val(s[2 * i]) + hex_digit_val(s[2 * i + 1])) as u8,
    )
}

/// A textual identifier is valid when it holds exactly forty hexadecimal
/// digit characters.
pub open spec fn valid_info_hash(s: Seq<char>) -> bool {
    s.len() == 40 && forall|i: int| 0 <= i < s.len() ==> is_hex_digit(#[trigger] s[i])
}

/// Decides whether a character is a hexadecimal digit.
pub fn is_hex_digit_char(c: char) -> (r: bool)
    ensures
        r == is_hex_digit(c),
{
    let v = c as u32;
    (48 <= v && v <= 57) || (97 <= v && v <= 102) || (65 <= v && v <= 70)
}

/// Relies on binascii::bin2hex: renders each input byte as two lowercase
/// hexadecimal digits, high nibble first; a 40-byte output buffer always
/// suffices for a 20-byte input.
#[verifier::external_body]
fn bin_to_hex(id: &[u8; 20]) -> (r: String)
    ensures
        r@ == hex_of(id@),
{
    let mut out = [0u8; 40];
    let _ = binascii::bin2hex(id, &mut out);
    String::from_utf8_lossy(&out).into_owned()
}

/// Relies on binascii::hex2bin: on a 40-character string it succeeds exactly
/// when every character is a hexadecimal digit (the UTF-8 bytes of any other
/// 40-character string are refused as malformed or oversized), and on success
/// each output byte combines two digits, high nibble first.
#[verifier::external_body]
fn hex_to_bin(s: &str) -> (r: Result<[u8; 20], ()>)
    requires
        s@.len() == 40,
    ensures
        r is Ok <==> (forall|i: int| 0 <= i < s@.len() ==> is_hex_digit(#[trigger] s@[i])),
        r matches Ok(b) ==> b@ == unhex(s@),
{
    let mut buf = [0u8; 20];
    match binascii::hex2bin(s.as_bytes(), &mut buf) {
        Ok(_) => Ok(buf),
        Err(_) => Err(()),
    }
}

/// Lowercase hexadecimal form of a binary identifier.
pub fn encode_info_hash(id: &[u8; 20]) -> (r: String)
    ensures
        r@ == hex_of(id@),
        r@.len() == 40,
{
    let r = bin_to_hex(id);
    proof {
        assert(r@.len() == 40);
    }
    r
}

/// Decodes a textual identifier, accepting exactly forty hexadecimal digit
/// characters and rejecting any other input.
pub fn decode_info_hash(s: &str) -> (r: Option<[u8; 20]>)
    ensures
        r is Some <==> valid_info_hash(s@),
        r matches Some(b) ==> b@ == unhex(s@),
{
    if s.unicode_len() != 40 {
        return None;
    }
    match hex_to_bin(s) {
        Ok(b) => Some(b),
        Err(_) => None,
    }
}

/// Law: hexadecimal encoding is injective and decoding undoes it — for every
/// byte sequence, the rendered digits are valid hexadecimal, twice as many as
/// the bytes, and decoding them yields the original bytes.
pub proof fn lemma_hex_round_trip(bytes: Seq<u8>)
    ensures
        hex_of(bytes).len() == 2 * bytes.len(),
        forall|i: int| 0 <= i < hex_of(bytes).len() ==> is_hex_digit(#[trigger] hex_of(bytes)[i]),
        unhex(hex_of(bytes)) == bytes,
{
    assert forall|i: int| 0 <= i < hex_of(bytes).len() implies is_hex_digit(
        #[trigger] hex_of(bytes)[i],
    ) by {
        let b = bytes[i / 2];
        assert(b / 16 < 16 && b % 16 < 16);
    }
    assert forall|i: int| 0 <= i < bytes.len() implies unhex(hex_of(bytes))[i] == bytes[i] by {
        let b = bytes[i];
        assert(hex_of(bytes)[2 * i] == hex_char_of(b / 16));
        assert(hex_of(bytes)[2 * i + 1] == hex_char_of(b % 16));
        assert(hex_digit_val(hex_char_of(b / 16)) == b / 16);
        assert(hex_digit_val(hex_char_of(b % 16)) == b % 16);
        assert(16 * (b / 16) + b % 16 == b) by {
            vstd::arithmetic::div_mod::lemma_fundamental_div_mod(b as int, 16);
        }
    }
    assert(unhex(hex_of(bytes)) =~= bytes);
}

} // verus!
