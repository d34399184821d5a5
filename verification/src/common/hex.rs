//! Decoding of hexadecimal text.

use vstd::prelude::*;

verus! {

/// Why hexadecimal text cannot be decoded.
#[derive(Clone, Copy, Debug, PartialEq, Eq)]
pub enum HexError {
    /// The byte at `index` is no hexadecimal digit; `c` is that byte as a
    /// character.
    InvalidHexCharacter { c: char, index: usize },
    /// The number of digits is odd.
    OddLength,
    /// The text does not have the length that the target asks for.
    InvalidStringLength,
}

/// The value of a hexadecimal digit, in either case.
pub open spec fn hex_value(b: u8) -> Option<u8> {
    if 48 <= b <= 57 {
        Some((b - 48) as u8)
    } else if 65 <= b <= 70 {
        Some((b - 65 + 10) as u8)
    } else if 97 <= b <= 102 {
        Some((b - 97 + 10) as u8)
    } else {
        None
    }
}

/// The first position, at `from` or later, that holds no hexadecimal digit.
pub open spec fn first_bad_digit(data: Seq<u8>, from: int) -> Option<int>
    decreases data.len() - from,
{
    if from < 0 || from >= data.len() {
        None
    } else if hex_value(data[from]) is None {
        Some(from)
    } else {
        first_bad_digit(data, from + 1)
    }
}

/// The bytes that pairs of hexadecimal digits spell, the high digit first.
pub open spec fn hex_bytes(data: Seq<u8>) -> Seq<u8> {
    Seq::new(
        (data.len() / 2) as nat,
        |i: int| (hex_value(data[2 * i]).unwrap() * 16 + hex_value(data[2 * i + 1]).unwrap()) as u8,
    )
}

/// What decoding `data` comes to: an odd length is refused first, then the
/// first byte that is no digit; otherwise each pair of digits gives a byte.
pub open spec fn hex_outcome(data: Seq<u8>) -> Result<Seq<u8>, HexError> {
    if data.len() % 2 != 0 {
        Err(HexError::OddLength)
    } else {
        match first_bad_digit(data, 0) {
            Some(i) => Err(HexError::InvalidHexCharacter { c: data[i] as char, index: i as usize }),
            None => Ok(hex_bytes(data)),
        }
    }
}

/// Decodes hexadecimal text into bytes.
///
/// Trusted: this calls `hex::decode`. The contract restates what that
/// function does: it refuses text of odd length, then goes through the pairs
/// of digits in order and refuses the first byte that is none of `0-9`,
/// `a-f`, `A-F`, naming the byte and its position; otherwise it returns one
/// byte for each pair, sixteen times the first digit plus the second.
#[verifier::external_body]
pub(crate) fn decode(data: &[u8]) -> (r: Result<Vec<u8>, HexError>)
    ensures
        match r {
            Ok(bytes) => hex_outcome(data@) == Ok::<Seq<u8>, HexError>(bytes@),
            Err(e) => hex_outcome(data@) == Err::<Seq<u8>, HexError>(e),
        },
{
    match hex::decode(data) {
        Ok(bytes) => Ok(bytes),
        Err(hex::FromHexError::InvalidHexCharacter { c, index }) => Err(
            HexError::InvalidHexCharacter { c, index },
        ),
        Err(hex::FromHexError::OddLength) => Err(HexError::OddLength),
        Err(hex::FromHexError::InvalidStringLength) => Err(HexError::InvalidStringLength),
    }
}

} // verus!
