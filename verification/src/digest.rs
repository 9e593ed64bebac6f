//! Digests and encodings of bytes.
use vstd::prelude::*;
use vstd::string::*;
use vstd::utf8::{decode_utf8, valid_utf8};

verus! {

/// The SHA-256 digest in lower case hexadecimal.
pub uninterp spec fn sha256_of(data: Seq<u8>) -> Seq<char>;

/// The standard base64 form, padded.
pub uninterp spec fn base64_of(data: Seq<u8>) -> Seq<char>;

/// The text that bytes state, with what is not UTF-8 replaced.
pub uninterp spec fn lossy_text_of(data: Seq<u8>) -> Seq<char>;

/// A digit of lower case hexadecimal.
pub open spec fn is_hex_digit(c: char) -> bool {
    '0' <= c <= '9' || 'a' <= c <= 'f'
}

/// A character of standard base64, padding included.
pub open spec fn is_base64_char(c: char) -> bool {
    'A' <= c <= 'Z' || 'a' <= c <= 'z' || '0' <= c <= '9' || c == '+' || c == '/' || c == '='
}

/// Calls `sha2::Sha256::digest` and prints the digest with the `LowerHex` format. The
/// digest is named [`sha256_of`]; that it has 64 digits of lower case hexadecimal is
/// claimed of it.
#[verifier::external_body]
pub(crate) fn sha256_hex(data: &[u8]) -> (r: String)
    ensures
        r@ == sha256_of(data@),
        r@.len() == 64,
        forall|i: int| 0 <= i < r@.len() ==> is_hex_digit(#[trigger] r@[i]),
{
    format!("{:x}", <sha2::Sha256 as sha2::Digest>::digest(data))
}

/// Calls `encode` of `base64::engine::general_purpose::STANDARD`. The encoded text is named
/// [`base64_of`]; that four characters of the alphabet stand for each three bytes, the
/// last group filled up, is claimed of it. The function panics only where the length
/// of the text does not fit the machine word.
#[verifier::external_body]
pub(crate) fn base64_encode(data: &[u8]) -> (r: String)
    requires
        (data@.len() + 2) / 3 * 4 <= usize::MAX,
    ensures
        r@ == base64_of(data@),
        r@.len() == (data@.len() + 2) / 3 * 4,
        forall|i: int| 0 <= i < r@.len() ==> is_base64_char(#[trigger] r@[i]),
{
    base64::Engine::encode(&base64::engine::general_purpose::STANDARD, data)
}

/// Calls `String::from_utf8_lossy`. The text is named [`lossy_text_of`]; of bytes that are
/// UTF-8 it is what they encode.
#[verifier::external_body]
pub(crate) fn lossy_text(data: &[u8]) -> (r: String)
    ensures
        r@ == lossy_text_of(data@),
        valid_utf8(data@) ==> r@ == decode_utf8(data@),
{
    String::from_utf8_lossy(data).into_owned()
}

}
