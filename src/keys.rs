//! Random keys, drawn and encoded by `genrs`.
use vstd::prelude::*;

verus! {

/// The standard, padded Base64 text of a byte string.
pub uninterp spec fn base64_of(b: Seq<u8>) -> Seq<char>;

/// The text is the Base64 encoding of some `n` bytes.
pub open spec fn is_key_text(t: Seq<char>, n: nat) -> bool {
    exists|b: Seq<u8>| b.len() == n && t == #[trigger] base64_of(b)
}

/// Relies on `genrs_lib::generate_key`: a vector of `length` bytes from the
/// operating system's secure random source. It panics when that source is
/// unavailable.
#[verifier::external_body]
fn random_bytes(length: usize) -> (r: Vec<u8>)
    ensures
        r@.len() == length,
{
    genrs_lib::generate_key(length)
}

/// Relies on `genrs_lib::encode_key` with `EncodingFormat::Base64`, which is
/// always `Ok`, holding the standard engine's padded encoding: four
/// characters for each started group of three bytes.
#[verifier::external_body]
fn encode_base64(key: Vec<u8>) -> (r: Result<String, String>)
    ensures
        r is Ok,
        r->Ok_0@ == base64_of(key@),
        r->Ok_0@.len() == 4 * ((key@.len() + 2) / 3),
{
    genrs_lib::encode_key(key, genrs_lib::EncodingFormat::Base64)
}

/// A fresh random key of `length` bytes, as Base64 text.
pub fn generate_key(length: usize) -> (r: String)
    ensures
        is_key_text(r@, length as nat),
        r@.len() == 4 * ((length + 2) / 3),
{
    let bytes = random_bytes(length);
    let ghost b = bytes@;
    match encode_base64(bytes) {
        Ok(t) => t,
        Err(_) => {
            proof {
                assert(false);
            }
            String::new()
        }
    }
}

} // verus!
