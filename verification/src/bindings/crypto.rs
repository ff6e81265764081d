use base64::Engine;
use vstd::prelude::*;

verus! {

/// The SHA-1 digest of a byte sequence.
pub uninterp spec fn sha1_of(data: Seq<u8>) -> Seq<u8>;

/// The standard, padded base64 encoding of a byte sequence.
pub uninterp spec fn base64_of(data: Seq<u8>) -> Seq<char>;

/// A character of the standard base64 alphabet, or the padding `=`.
pub open spec fn base64_char(c: char) -> bool {
    ('A' <= c && c <= 'Z') || ('a' <= c && c <= 'z') || ('0' <= c && c <= '9') || c == '+'
        || c == '/' || c == '='
}

/// Calls `ring::digest::Context::new(&SHA1_FOR_LEGACY_USE_ONLY)`, `update`
/// with the data, and `finish`, whose output is 20 bytes long. `finish`
/// panics for inputs of 2^61 bytes or more, which `requires` rules out.
#[verifier::external_body]
pub fn sha1(data: &[u8]) -> (r: Vec<u8>)
    requires
        data@.len() < 0x2000_0000_0000_0000,
    ensures
        r@ == sha1_of(data@),
        r@.len() == 20,
{
    let mut hasher = ring::digest::Context::new(&ring::digest::SHA1_FOR_LEGACY_USE_ONLY);
    hasher.update(data);
    hasher.finish().as_ref().to_vec()
}

/// Calls `base64::engine::general_purpose::STANDARD.encode`: the output has
/// four characters of the standard alphabet or padding for every three
/// bytes of input, the last group padded. `encode` panics when the output
/// length overflows `usize`, which `requires` rules out.
#[verifier::external_body]
pub fn base64_encode(data: &[u8]) -> (r: String)
    requires
        data@.len() <= 0x1000_0000,
    ensures
        r@ == base64_of(data@),
        r@.len() == 4 * ((data@.len() + 2) / 3),
        forall|i: int| 0 <= i < r@.len() ==> base64_char(#[trigger] r@[i]),
{
    base64::engine::general_purpose::STANDARD.encode(data)
}

} // verus!
