use vstd::prelude::*;

verus! {

/// Why a hex string could not be decoded.
#[derive(Clone, Copy, Debug, PartialEq, Eq, Structural)]
pub enum HexError {
    /// The byte at `index` is not a hex digit.
    InvalidHexCharacter { c: char, index: usize },
    /// The string has an odd number of bytes.
    OddLength,
    /// The decoded length does not fit the target.
    InvalidStringLength,
}

/// The value of the hex digit `b`, if it is one.
pub open spec fn hex_digit_value(b: u8) -> Option<u8> {
    if 48 <= b <= 57 {
        Some((b - 48) as u8)
    } else if 65 <= b <= 70 {
        Some((b - 55) as u8)
    } else if 97 <= b <= 102 {
        Some((b - 87) as u8)
    } else {
        None
    }
}

/// The index of the first byte of `data` that is not a hex digit, or -1.
pub open spec fn first_non_hex(data: Seq<u8>) -> int
    decreases data.len(),
{
    if data.len() == 0 {
        -1
    } else {
        let r = first_non_hex(data.drop_last());
        if r >= 0 {
            r
        } else if hex_digit_value(data.last()) is None {
            data.len() - 1
        } else {
            -1
        }
    }
}

/// What decoding `data` as hex gives: an odd length is refused first, then the
/// first byte that is not a hex digit; otherwise each pair of digits, high digit
/// first, gives one byte.
pub open spec fn hex_decode_spec(data: Seq<u8>) -> Result<Seq<u8>, HexError> {
    if data.len() % 2 != 0 {
        Err(HexError::OddLength)
    } else if first_non_hex(data) >= 0 {
        let k = first_non_hex(data);
        Err(HexError::InvalidHexCharacter { c: data[k] as char, index: k as usize })
    } else {
        Ok(
            Seq::new(
                data.len() / 2,
                |i: int|
                    (hex_digit_value(data[2 * i]).unwrap() * 16 + hex_digit_value(
                        data[2 * i + 1],
                    ).unwrap()) as u8,
            ),
        )
    }
}

/// `hex::decode`: decodes a string of hex digit pairs, upper or lower case, into bytes.
#[verifier::external_body]
pub(crate) fn hex_decode(data: &[u8]) -> (r: Result<Vec<u8>, HexError>)
    ensures
        match (r, hex_decode_spec(data@)) {
            (Ok(v), Ok(s)) => v@ == s,
            (Err(e), Err(f)) => e == f,
            _ => false,
        },
{
    match hex::decode(data) {
        Ok(v) => Ok(v),
        Err(hex::FromHexError::InvalidHexCharacter { c, index }) => Err(
            HexError::InvalidHexCharacter { c, index },
        ),
        Err(hex::FromHexError::OddLength) => Err(HexError::OddLength),
        Err(hex::FromHexError::InvalidStringLength) => Err(HexError::InvalidStringLength),
    }
}

} // verus!
