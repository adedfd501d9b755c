//! Trusted bindings to the base64 crate (standard alphabet, with padding).
//!
//! The encoding itself is not restated here: its result is only named, and
//! everything the rest of the crate needs — the alphabet of the output and
//! that decoding inverts encoding — is stated on the wrappers.

use vstd::prelude::*;

verus! {

/// Standard-alphabet base64 encoding of a byte sequence, as produced by
/// `base64::encode`.
pub uninterp spec fn base64_encode_of(b: Seq<u8>) -> Seq<u8>;

/// Result of standard-alphabet base64 decoding, as produced by
/// `base64::decode`; `None` where the input is rejected.
pub uninterp spec fn base64_decode_of(s: Seq<u8>) -> Option<Seq<u8>>;

/// A byte of the standard base64 alphabet or its `=` padding.  Note it is
/// never a `"`, so an encoded frame can stand inside a JSON string.
pub open spec fn is_base64_byte(b: u8) -> bool {
    (65 <= b <= 90) || (97 <= b <= 122) || (48 <= b <= 57) || b == 43 || b == 47 || b == 61
}

/// Relies on `base64::encode`: the result depends on the input bytes alone,
/// consists of standard-alphabet and padding characters only, and
/// `base64::decode` gives the input back.
#[verifier::external_body]
pub fn base64_encode(data: &Vec<u8>) -> (r: Vec<u8>)
    ensures
        r@ == base64_encode_of(data@),
        forall|i: int| 0 <= i < r@.len() ==> is_base64_byte(#[trigger] r@[i]),
        base64_decode_of(r@) == Some(data@),
{
    base64::encode(data).into_bytes()
}

/// Relies on `base64::decode`: the result depends on the input bytes alone;
/// invalid input is reported as `None`, never panicked on.
#[verifier::external_body]
pub fn base64_decode(data: &Vec<u8>) -> (r: Option<Vec<u8>>)
    ensures
        r matches Some(v) ==> base64_decode_of(data@) == Some(v@),
        r is None ==> base64_decode_of(data@) is None,
{
    match base64::decode(data) {
        Ok(v) => Some(v),
        Err(_) => None,
    }
}

} // verus!
