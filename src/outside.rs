use crate::json::quoted;
use vstd::prelude::*;

verus! {

/// What `crypto_hash::hex_digest` returns for SHA-256 over the UTF-8 bytes of a text.
pub uninterp spec fn sha256_hex_of(data: Seq<char>) -> Seq<char>;

/// Relies on `crypto_hash::hex_digest` with `Algorithm::SHA256`: the digest
/// depends on the bytes alone, and `hex::encode` writes two digits for each of
/// its 32 bytes.
#[verifier::external_body]
pub(crate) fn sha256_hex(data: &str) -> (r: String)
    ensures
        r@ == sha256_hex_of(data@),
        r@.len() == 64,
{
    crypto_hash::hex_digest(crypto_hash::Algorithm::SHA256, data.as_bytes())
}

/// Relies on `serde_json::to_string` on a `str`: a quote, the text with `"`,
/// `\` and control characters escaped, and a quote. Writing into a `Vec`
/// cannot fail, so the `unwrap` never panics.
#[verifier::external_body]
pub(crate) fn json_string(s: &str) -> (r: String)
    ensures
        r@ == quoted(s@),
{
    serde_json::to_string(s).unwrap()
}

/// Relies on `chrono::Utc::now` and `DateTime::timestamp`: the seconds since the
/// Unix epoch, which `now` never gives below zero (it panics on a clock before
/// the epoch).
#[verifier::external_body]
pub(crate) fn unix_now() -> (r: i64)
    ensures
        r >= 0,
{
    chrono::Utc::now().timestamp()
}

} // verus!
