//! The signature header of a delivery: `sha256=` and the hexadecimal writing
//! of the body's HMAC-SHA256 code under the shared secret.

use crate::encoding::{
    decode, decoded, encode, encoded, lemma_decode_encode, lemma_encoded_text, HexError,
};
use crate::mac::{code, code_matches, hmac_sha256};
use vstd::prelude::*;
use vstd::slice::slice_subrange;
use vstd::string::StringSliceAdditionalSpecFns;
use vstd::utf8::{encode_utf8, is_ascii_chars_encode_utf8};

verus! {

/// Why a signature header does not authenticate a body.
#[derive(Clone, Copy, Debug, PartialEq, Eq, Structural)]
pub enum SignatureError {
    /// The header does not begin with `sha256=`.
    MissingPrefix,
    /// What follows the prefix is no hexadecimal text.
    Malformed(HexError),
    /// The secret cannot key the code.
    InvalidKey,
    /// The header carries another code than the body's.
    Mismatch,
}

/// The bytes of `sha256=`.
pub open spec fn prefix() -> Seq<u8> {
    seq!['s' as u8, 'h' as u8, 'a' as u8, '2' as u8, '5' as u8, '6' as u8, '=' as u8]
}

/// The header that signs `body` under `secret`.
pub open spec fn signature(secret: Seq<u8>, body: Seq<u8>) -> Seq<u8> {
    prefix() + encoded(hmac_sha256(secret, body))
}

/// Whether `header` authenticates `body` under `secret`, and if not, the first
/// reason: the prefix, then the hexadecimal text, then the code itself.
pub open spec fn verification(secret: Seq<u8>, body: Seq<u8>, header: Seq<u8>) -> Result<
    (),
    SignatureError,
> {
    if !prefix().is_prefix_of(header) {
        Err(SignatureError::MissingPrefix)
    } else {
        match decoded(header.skip(prefix().len() as int)) {
            Err(e) => Err(SignatureError::Malformed(e)),
            Ok(candidate) => if candidate == hmac_sha256(secret, body) {
                Ok(())
            } else {
                Err(SignatureError::Mismatch)
            },
        }
    }
}

fn has_prefix(header: &[u8]) -> (yes: bool)
    ensures
        yes == prefix().is_prefix_of(header@),
{
    let yes = header.len() >= 7 && header[0] == 's' as u8 && header[1] == 'h' as u8 && header[2]
        == 'a' as u8 && header[3] == '2' as u8 && header[4] == '5' as u8 && header[5] == '6' as u8
        && header[6] == '=' as u8;
    proof {
        if yes {
            assert(header@.subrange(0, 7) =~= prefix());
        } else if header@.len() >= 7 {
            let head = header@.subrange(0, 7);
            assert(head[0] == header@[0] && head[1] == header@[1] && head[2] == header@[2]
                && head[3] == header@[3] && head[4] == header@[4] && head[5] == header@[5]
                && head[6] == header@[6]);
        }
    }
    yes
}

/// Checks that `signature_header` authenticates `body` under `secret`.
pub fn verify_signature(secret: &str, body: &[u8], signature_header: &str) -> (result: Result<
    (),
    SignatureError,
>)
    ensures
        result == verification(secret.spec_bytes(), body@, signature_header.spec_bytes()),
{
    let header = signature_header.as_bytes();
    if !has_prefix(header) {
        return Err(SignatureError::MissingPrefix);
    }
    let text = slice_subrange(header, 7, header.len());
    assert(text@ == header@.skip(7));
    let candidate = match decode(text) {
        Ok(bytes) => bytes,
        Err(e) => {
            return Err(SignatureError::Malformed(e));
        },
    };
    match code_matches(secret.as_bytes(), body, candidate.as_slice()) {
        Ok(true) => Ok(()),
        Ok(false) => Err(SignatureError::Mismatch),
        Err(_) => Err(SignatureError::InvalidKey),
    }
}

/// Writes the header that signs `body` under `secret`. No secret is refused:
/// the result is always `Ok`.
pub fn sign(secret: &str, body: &[u8]) -> (result: Result<String, SignatureError>)
    ensures
        result is Ok,
        encode_utf8(result->Ok_0@) == signature(secret.spec_bytes(), body@),
{
    let bytes = match code(secret.as_bytes(), body) {
        Ok(bytes) => bytes,
        Err(_) => {
            return Err(SignatureError::InvalidKey);
        },
    };
    let text = encode(bytes.as_slice());
    let header = String::from_str("sha256=").concat(text.as_str());
    proof {
        reveal_strlit("sha256=");
        lemma_encoded_text(bytes@);
        is_ascii_chars_encode_utf8("sha256="@);
        is_ascii_chars_encode_utf8(header@);
        assert(encode_utf8(header@) =~= signature(secret.spec_bytes(), body@));
    }
    Ok(header)
}

/// A signature authenticates the body it was made for: under any secret, the
/// header that signs a body verifies against that body.
pub proof fn lemma_own_signature_verifies(secret: Seq<u8>, body: Seq<u8>)
    ensures
        verification(secret, body, signature(secret, body)) is Ok,
{
    lemma_signature_binds(secret, body, body);
}

/// A signature binds to the body's code: the header that signs `other`
/// verifies against `body` exactly when the two bodies have the same code
/// under the secret, and is otherwise refused as a mismatch.
pub proof fn lemma_signature_binds(secret: Seq<u8>, body: Seq<u8>, other: Seq<u8>)
    ensures
        verification(secret, body, signature(secret, other)) == if hmac_sha256(secret, other)
            == hmac_sha256(secret, body) {
            Ok::<(), SignatureError>(())
        } else {
            Err::<(), SignatureError>(SignatureError::Mismatch)
        },
{
    let header = signature(secret, other);
    let text = encoded(hmac_sha256(secret, other));
    assert(header.subrange(0, prefix().len() as int) =~= prefix());
    assert(header.skip(prefix().len() as int) =~= text);
    lemma_decode_encode(hmac_sha256(secret, other));
}

} // verus!
