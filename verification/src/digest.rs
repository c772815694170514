//! The one-way digest under which passwords are kept, computed by the
//! `crypto` crate.

use crypto::digest::Digest;
use vstd::prelude::*;
use crate::identifiers::is_lower_hex_digit;

verus! {

/// The SHA3-256 digest of a text's bytes, as sixty-four hexadecimal digits.
pub uninterp spec fn sha3_256_hex(text: Seq<char>) -> Seq<char>;

/// Whether a text has the shape of a digest: sixty-four hexadecimal digits in
/// lower case.
pub open spec fn is_digest_text(s: Seq<char>) -> bool {
    s.len() == 64 && forall|i: int| 0 <= i < 64 ==> is_lower_hex_digit(#[trigger] s[i])
}

/// Computes the digest with `crypto::sha3::Sha3::sha3_256`, feeding the text
/// with `Digest::input_str` and taking the digits with `Digest::result_str`.
///
/// Believed of the crate: the digest has thirty-two bytes, and each is written
/// as two hexadecimal digits in lower case.
#[verifier::external_body]
pub(crate) fn sha3_256(text: &str) -> (digest: String)
    ensures
        digest@ == sha3_256_hex(text@),
        digest@.len() == 64,
        forall|i: int| 0 <= i < 64 ==> is_lower_hex_digit(#[trigger] digest@[i]),
{
    let mut hasher = crypto::sha3::Sha3::sha3_256();
    hasher.input_str(text);
    hasher.result_str()
}

} // verus!
