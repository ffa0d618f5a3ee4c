//! HMAC-SHA256, as the `hmac` and `sha2` crates compute it.

use hmac::Mac;
use vstd::prelude::*;

verus! {

/// The error of `Mac::new_from_slice` for a key of a length that a MAC does
/// not take. Nothing is read from it.
#[verifier::external_type_specification]
#[verifier::external_body]
pub struct ExInvalidLength(hmac::digest::InvalidLength);

/// The HMAC-SHA256 authentication code of `message` under `key`: the bytes
/// that `Mac::finalize` of `Hmac<Sha256>` gives for them.
pub uninterp spec fn hmac_sha256(key: Seq<u8>, message: Seq<u8>) -> Seq<u8>;

/// Calls `Mac::new_from_slice`, `Mac::update` and `Mac::finalize` of
/// `Hmac<Sha256>`. Trusted: a key of any length is taken, and the bytes that
/// come back are the code `hmac_sha256` of the message under the key.
#[verifier::external_body]
pub(crate) fn code(key: &[u8], message: &[u8]) -> (result: Result<
    Vec<u8>,
    hmac::digest::InvalidLength,
>)
    ensures
        result is Ok,
        result->Ok_0@ == hmac_sha256(key@, message@),
{
    let mut mac = hmac::Hmac::<sha2::Sha256>::new_from_slice(key)?;
    mac.update(message);
    Ok(mac.finalize().into_bytes().to_vec())
}

/// Calls `Mac::new_from_slice`, `Mac::update` and `Mac::verify_slice` of
/// `Hmac<Sha256>`, which compares in constant time. Trusted: a key of any
/// length is taken, and the answer is whether `candidate` is, byte for byte
/// and in length, the code `hmac_sha256` of the message under the key.
#[verifier::external_body]
pub(crate) fn code_matches(key: &[u8], message: &[u8], candidate: &[u8]) -> (result: Result<
    bool,
    hmac::digest::InvalidLength,
>)
    ensures
        result is Ok,
        result->Ok_0 == (candidate@ == hmac_sha256(key@, message@)),
{
    let mut mac = hmac::Hmac::<sha2::Sha256>::new_from_slice(key)?;
    mac.update(message);
    Ok(mac.verify_slice(candidate).is_ok())
}

} // verus!
