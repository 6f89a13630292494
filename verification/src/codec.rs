//! Encodings that other crates compute: percent-encoding, base64, SHA-256,
//! and the check that bytes are UTF-8.

use base64::Engine;
use sha2::Digest;
use vstd::prelude::*;
use vstd::utf8::{decode_utf8, encode_utf8, valid_utf8};

verus! {

/// The bytes that percent-encoding leaves as they are: ASCII letters and
/// digits, and `-`, `.`, `_`, `~`.
pub open spec fn is_unreserved(b: u8) -> bool {
    ||| 0x30 <= b <= 0x39
    ||| 0x41 <= b <= 0x5A
    ||| 0x61 <= b <= 0x7A
    ||| b == 0x2D
    ||| b == 0x2E
    ||| b == 0x5F
    ||| b == 0x7E
}

/// The uppercase hexadecimal digit for a value from 0 to 15.
pub open spec fn hex_upper(d: int) -> char {
    if d < 10 {
        (0x30 + d) as char
    } else {
        (0x37 + d) as char
    }
}

/// One byte, percent-encoded.
pub open spec fn percent_encoded_byte(b: u8) -> Seq<char> {
    if is_unreserved(b) {
        seq![b as char]
    } else {
        seq!['%', hex_upper(b as int / 16), hex_upper(b as int % 16)]
    }
}

/// A run of bytes, percent-encoded byte by byte.
pub open spec fn percent_encoded(bytes: Seq<u8>) -> Seq<char>
    decreases bytes.len(),
{
    if bytes.len() == 0 {
        Seq::empty()
    } else {
        percent_encoded(bytes.drop_last()) + percent_encoded_byte(bytes.last())
    }
}

/// The bytes that a text in the standard base64 alphabet, with canonical
/// padding, stands for. `None` for a text that is no such encoding.
pub uninterp spec fn base64_standard(text: Seq<u8>) -> Option<Seq<u8>>;

/// The SHA-256 digest of `data` as 64 lowercase hexadecimal digits.
pub uninterp spec fn sha256_hex_of(data: Seq<u8>) -> Seq<char>;

/// The error of base64's decoder, `base64::DecodeError`, carried through as
/// an opaque value.
#[verifier::external_type_specification]
#[verifier::external_body]
pub struct ExDecodeError(base64::DecodeError);

/// Percent-encodes the UTF-8 bytes of `data` with `urlencoding::encode`:
/// every byte but the unreserved ones becomes `%` and two uppercase
/// hexadecimal digits.
#[verifier::external_body]
pub(crate) fn percent_encode(data: &str) -> (r: String)
    ensures
        r@ == percent_encoded(encode_utf8(data@)),
{
    urlencoding::encode(data).into_owned()
}

/// Decodes `text` with `Engine::decode` of base64's `STANDARD` engine. The
/// contract only names the result; the call fails exactly where the name
/// gives `None`.
#[verifier::external_body]
pub(crate) fn standard_decode(text: &Vec<u8>) -> (r: Result<Vec<u8>, base64::DecodeError>)
    ensures
        match r {
            Ok(bytes) => base64_standard(text@) == Some(bytes@),
            Err(_) => base64_standard(text@) is None,
        },
{
    base64::engine::general_purpose::STANDARD.decode(text)
}

/// Hashes `data` with `Sha256` of `sha2` and writes the digest in lowercase
/// hexadecimal. The contract only names the result.
#[verifier::external_body]
pub(crate) fn sha256_hex(data: &[u8]) -> (r: String)
    ensures
        r@ == sha256_hex_of(data@),
{
    let mut hasher = sha2::Sha256::new();
    hasher.update(data);
    format!("{:x}", hasher.finalize())
}

/// Turns bytes into a string with `String::from_utf8`: the text they encode
/// when they are valid UTF-8, `None` when they are not.
#[verifier::external_body]
pub(crate) fn utf8_text(bytes: Vec<u8>) -> (r: Option<String>)
    ensures
        match r {
            Some(text) => valid_utf8(bytes@) && text@ == decode_utf8(bytes@),
            None => !valid_utf8(bytes@),
        },
{
    match String::from_utf8(bytes) {
        Ok(text) => Some(text),
        Err(_) => None,
    }
}

} // verus!
