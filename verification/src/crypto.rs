//! SHA-256 digests and lowercase hexadecimal text, as provided by the `sha2`
//! and `hex` crates.

use sha2::{Digest, Sha256};
use vstd::prelude::*;

verus! {

/// The SHA-256 digest of a byte string, as computed by `sha2::Sha256`.
pub uninterp spec fn sha256_spec(data: Seq<u8>) -> [u8; 32];

/// Trusted: `sha2::Sha256::digest` over `data`. The contract claims only that
/// the 32-byte digest is the named SHA-256 function of exactly these bytes.
#[verifier::external_body]
pub(crate) fn sha256_digest(data: &[u8]) -> (digest: [u8; 32])
    ensures
        digest == sha256_spec(data@),
{
    let output = Sha256::digest(data);
    let mut digest = [0u8; 32];
    digest.copy_from_slice(&output);
    digest
}

/// The lowercase hexadecimal digit for a value below 16.
pub open spec fn hex_digit(n: u8) -> char {
    if n < 10 {
        ((48 + n) as u32) as char
    } else {
        ((87 + n) as u32) as char
    }
}

/// Lowercase hexadecimal text of a byte string: two digits per byte, high
/// nibble first.
pub open spec fn hex_chars(bytes: Seq<u8>) -> Seq<char>
    decreases bytes.len(),
{
    if bytes.len() == 0 {
        Seq::empty()
    } else {
        seq![hex_digit(bytes[0] / 16), hex_digit(bytes[0] % 16)] + hex_chars(bytes.drop_first())
    }
}

/// Trusted: `hex::encode`. Its source maps every byte to two characters of the
/// table `0123456789abcdef` (high nibble, then low nibble), which is what the
/// contract states.
#[verifier::external_body]
pub(crate) fn hex_encode(bytes: &[u8]) -> (text: String)
    ensures
        text@ == hex_chars(bytes@),
{
    hex::encode(bytes)
}

/// The value of an ASCII hexadecimal digit (either case), if the byte is one.
pub open spec fn hex_value(b: u8) -> Option<u8> {
    if 48 <= b <= 57 {
        Some((b - 48) as u8)
    } else if 97 <= b <= 102 {
        Some((b - 87) as u8)
    } else if 65 <= b <= 70 {
        Some((b - 55) as u8)
    } else {
        None
    }
}

/// The bytes that hexadecimal text denotes: two digits per byte, high
/// nibble first; `None` for an odd length or a byte that is not a digit.
pub open spec fn hex_decoded(text: Seq<u8>) -> Option<Seq<u8>> {
    if text.len() % 2 == 0 && forall|i: int| 0 <= i < text.len() ==> #[trigger] hex_value(text[i]) is Some {
        Some(
            Seq::new(
                text.len() / 2,
                |i: int| (hex_value(text[2 * i]).unwrap() * 16 + hex_value(text[2 * i + 1]).unwrap()) as u8,
            ),
        )
    } else {
        None
    }
}

/// Trusted: `hex::decode`. Its source rejects text of odd length and any
/// byte outside `0-9`, `a-f`, `A-F`, and otherwise turns each pair of digits
/// into one byte, high nibble first, which is what the contract states.
#[verifier::external_body]
pub(crate) fn hex_decode(text: &[u8]) -> (bytes: Option<Vec<u8>>)
    ensures
        match bytes {
            Some(b) => hex_decoded(text@) == Some(b@),
            None => hex_decoded(text@) is None,
        },
{
    match hex::decode(text) {
        Ok(bytes) => Some(bytes),
        Err(_) => None,
    }
}

} // verus!
