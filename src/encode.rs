//! Transport encoding of raw file bytes.
use vstd::prelude::*;

verus! {

/// The standard, padded base64 text of a byte sequence.
pub uninterp spec fn base64_of(b: Seq<u8>) -> Seq<char>;

/// The length of padded base64 text for `n` bytes: four characters for each
/// started group of three bytes.
pub open spec fn base64_len(n: nat) -> nat {
    (n + 2) / 3 * 4
}

/// Relies on base64's `engine::general_purpose::STANDARD.encode`: padded
/// output whose length `encoded_len` gives; it panics only where that length
/// overflows `usize`.
#[verifier::external_body]
fn standard_encode(b: &[u8]) -> (r: String)
    requires
        base64_len(b@.len()) <= usize::MAX,
    ensures
        r@ == base64_of(b@),
        r@.len() == base64_len(b@.len()),
{
    base64::Engine::encode(&base64::engine::general_purpose::STANDARD, b)
}

/// Encodes a file's whole contents as standard padded base64 text. No
/// transformation or validation is applied to the bytes.
pub fn encode_base64(bytes: &[u8]) -> (r: String)
    requires
        base64_len(bytes@.len()) <= usize::MAX,
    ensures
        r@ == base64_of(bytes@),
        r@.len() == base64_len(bytes@.len()),
{
    standard_encode(bytes)
}

} // verus!
