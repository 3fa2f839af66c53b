//! Encodings and digests that connectors ask for.

use vstd::prelude::*;

verus! {

/// The standard Base64 encoding, with padding, of the UTF-8 bytes of `text`.
pub uninterp spec fn base64_encoding_of(text: Seq<char>) -> Seq<char>;

/// The bytes that `encoded` is the standard Base64 encoding of, when there
/// are any.
pub uninterp spec fn base64_decoded_bytes(encoded: Seq<char>) -> Option<Seq<u8>>;

/// The text whose UTF-8 bytes `encoded` is the standard Base64 encoding of,
/// when there is one.
pub open spec fn base64_decoding_of(encoded: Seq<char>) -> Option<Seq<char>> {
    match base64_decoded_bytes(encoded) {
        Some(bytes) => if vstd::utf8::valid_utf8(bytes) {
            Some(vstd::utf8::decode_utf8(bytes))
        } else {
            None
        },
        None => None,
    }
}

/// The SHA-512 digest of `data`.
pub uninterp spec fn sha512_digest_of(data: Seq<u8>) -> Seq<u8>;

/// Calls `encode` of `base64::engine::general_purpose::STANDARD` on the bytes
/// of the text. The contract names the result `base64_encoding_of`.
#[verifier::external_body]
pub(crate) fn base64_encode(text: &str) -> (r: String)
    ensures
        r@ == base64_encoding_of(text@),
{
    base64::Engine::encode(&base64::engine::general_purpose::STANDARD, text)
}

/// Calls `decode` of `base64::engine::general_purpose::STANDARD`. The
/// contract names the result `base64_decoded_bytes`.
#[verifier::external_body]
pub(crate) fn base64_decode_bytes(encoded: &str) -> (r: Option<Vec<u8>>)
    ensures
        r is Some <==> base64_decoded_bytes(encoded@) is Some,
        r matches Some(bytes) ==> base64_decoded_bytes(encoded@) == Some(bytes@),
{
    base64::Engine::decode(&base64::engine::general_purpose::STANDARD, encoded).ok()
}

/// Calls `String::from_utf8` of the standard library: the text that the
/// bytes encode, when they are valid UTF-8.
#[verifier::external_body]
pub(crate) fn text_from_utf8(bytes: Vec<u8>) -> (r: Option<String>)
    ensures
        r is Some <==> vstd::utf8::valid_utf8(bytes@),
        r matches Some(text) ==> text@ == vstd::utf8::decode_utf8(bytes@),
{
    String::from_utf8(bytes).ok()
}

/// The text whose UTF-8 bytes `encoded` is the standard Base64 encoding of.
pub fn base64_decode(encoded: &str) -> (r: Option<String>)
    ensures
        crate::json::option_view(r) == base64_decoding_of(encoded@),
{
    let bytes = base64_decode_bytes(encoded)?;
    text_from_utf8(bytes)
}

/// The lower-case hexadecimal digit of `d`, for `0 <= d < 16`.
pub open spec fn hex_digit(d: int) -> char {
    "0123456789abcdef"@[d]
}

/// The hexadecimal notation of `data`: two lower-case digits for each byte,
/// the high digit first.
pub open spec fn hex_text(data: Seq<u8>) -> Seq<char> {
    Seq::new(
        2 * data.len(),
        |i: int|
            if i % 2 == 0 {
                hex_digit(data[i / 2] as int / 16)
            } else {
                hex_digit(data[i / 2] as int % 16)
            },
    )
}

/// Calls `hex::encode`: each byte is written as two lower-case hexadecimal digits.
#[verifier::external_body]
pub(crate) fn hex_encode(data: &Vec<u8>) -> (r: String)
    ensures
        r@ == hex_text(data@),
{
    hex::encode(data)
}

/// Calls `Sha512::digest` of `sha2`. The contract names the result
/// `sha512_digest_of`, and says that it has 64 bytes.
#[verifier::external_body]
pub(crate) fn sha512_digest(data: &Vec<u8>) -> (r: Vec<u8>)
    ensures
        r@ == sha512_digest_of(data@),
        r@.len() == 64,
{
    <sha2::Sha512 as sha2::Digest>::digest(data).to_vec()
}

/// Whether `c` is an ASCII letter or digit.
pub open spec fn is_alphanumeric(c: char) -> bool {
    ('a' <= c && c <= 'z') || ('A' <= c && c <= 'Z') || ('0' <= c && c <= '9')
}

/// Calls `sample_string` of `rand::distributions::Alphanumeric` with the
/// generator of the thread: `len` characters, each an ASCII letter or digit.
/// Which ones is left to chance.
#[verifier::external_body]
pub(crate) fn random_alphanumeric(len: usize) -> (r: String)
    ensures
        r@.len() == len,
        forall|i: int| 0 <= i < r@.len() ==> is_alphanumeric(#[trigger] r@[i]),
{
    rand::distributions::DistString::sample_string(
        &rand::distributions::Alphanumeric,
        &mut rand::thread_rng(),
        len,
    )
}

/// The hexadecimal notation of `data`.
pub fn to_hex(data: &Vec<u8>) -> (r: String)
    ensures
        r@ == hex_text(data@),
{
    hex_encode(data)
}

} // verus!
