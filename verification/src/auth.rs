//! The challenge-response authentication step.
//!
//! The client answers the broker's nonce with `SHA1(nonce || secret)` and
//! sends an AUTH frame (opcode 2) whose payload is the one-byte identity
//! length, the identity bytes, then the raw 20-byte digest (no length
//! prefix: the digest size is fixed).

use vstd::prelude::*;

use sha1::Digest;

use crate::codec;
use crate::errors::HpfeedsError;

verus! {

/// The SHA-1 digest of a byte sequence.
pub uninterp spec fn sha1_of(data: Seq<u8>) -> Seq<u8>;

/// Relies on sha1::Sha1 through the Digest trait: the 20-byte SHA-1 digest
/// of the input, a function of the input bytes alone.
#[verifier::external_body]
fn sha1_digest(data: &[u8]) -> (r: Vec<u8>)
    ensures
        r@ == sha1_of(data@),
        r@.len() == 20,
{
    sha1::Sha1::digest(data).to_vec()
}

/// The authentication digest: SHA-1 of the nonce followed by the secret.
pub fn auth_digest(nonce: &[u8], secret: &[u8]) -> (r: Vec<u8>)
    requires
        nonce@.len() + secret@.len() <= usize::MAX,
    ensures
        r@ == sha1_of(nonce@ + secret@),
        r@.len() == 20,
{
    let mut input: Vec<u8> = Vec::new();
    input.extend_from_slice(nonce);
    input.extend_from_slice(secret);
    assert(input@ =~= nonce@ + secret@);
    sha1_digest(input.as_slice())
}

/// The AUTH payload for an identity and its digest.
pub open spec fn spec_auth_payload(ident: Seq<u8>, digest: Seq<u8>) -> Seq<u8>
    recommends
        ident.len() <= 255,
{
    seq![(ident.len() as u8)] + ident + digest
}

/// Build the complete AUTH frame answering a nonce.
///
/// Fails with a `Validation` error, before any bytes are built, exactly
/// when the identity is longer than the 255 bytes its one-byte length
/// prefix can declare.
pub fn build_auth_frame(ident: &[u8], nonce: &[u8], secret: &[u8]) -> (r: Result<
    Vec<u8>,
    HpfeedsError,
>)
    requires
        nonce@.len() + secret@.len() <= usize::MAX,
    ensures
        r is Ok <==> ident@.len() <= 255,
        r is Ok ==> r->Ok_0@ == codec::spec_encode(
            2,
            spec_auth_payload(ident@, sha1_of(nonce@ + secret@)),
        ),
        r is Err ==> r->Err_0 is Validation,
{
    if ident.len() > 255 {
        return Err(HpfeedsError::Validation("identity longer than 255 bytes".to_owned()));
    }
    let digest = auth_digest(nonce, secret);
    let mut payload: Vec<u8> = Vec::new();
    payload.push(ident.len() as u8);
    payload.extend_from_slice(ident);
    payload.extend_from_slice(digest.as_slice());
    assert(payload@ =~= spec_auth_payload(ident@, sha1_of(nonce@ + secret@)));
    Ok(codec::encode(2, payload.as_slice()))
}

} // verus!
