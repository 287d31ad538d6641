//! Building PUBLISH frames (opcode 3).
//!
//! The payload is the one-byte identity length, the identity bytes, the
//! one-byte channel length, the channel bytes, then the published data as
//! everything remaining (its length is implicit, bounded only by the
//! frame's total length field).

use vstd::prelude::*;

use crate::codec;
use crate::errors::HpfeedsError;

verus! {

/// The PUBLISH payload for an identity, a channel and the published data.
pub open spec fn spec_publish_payload(ident: Seq<u8>, channel: Seq<u8>, data: Seq<u8>) -> Seq<u8>
    recommends
        ident.len() <= 255,
        channel.len() <= 255,
{
    seq![(ident.len() as u8)] + ident + seq![(channel.len() as u8)] + channel + data
}

/// Build the complete PUBLISH frame for a channel and a payload.
///
/// Fails with a `Validation` error, before any bytes are built, exactly
/// when the identity or the channel is longer than the 255 bytes a
/// one-byte length prefix can declare.
pub fn build_publish_frame(ident: &[u8], channel: &[u8], data: &[u8]) -> (r: Result<
    Vec<u8>,
    HpfeedsError,
>)
    requires
        ident@.len() + channel@.len() + data@.len() + 7 <= u32::MAX,
    ensures
        r is Ok <==> ident@.len() <= 255 && channel@.len() <= 255,
        r is Ok ==> r->Ok_0@ == codec::spec_encode(
            3,
            spec_publish_payload(ident@, channel@, data@),
        ),
        r is Err ==> r->Err_0 is Validation,
{
    if ident.len() > 255 {
        return Err(HpfeedsError::Validation("identity longer than 255 bytes".to_owned()));
    }
    if channel.len() > 255 {
        return Err(HpfeedsError::Validation("channel name longer than 255 bytes".to_owned()));
    }
    let mut payload: Vec<u8> = Vec::new();
    payload.push(ident.len() as u8);
    payload.extend_from_slice(ident);
    payload.push(channel.len() as u8);
    payload.extend_from_slice(channel);
    payload.extend_from_slice(data);
    assert(payload@ =~= spec_publish_payload(ident@, channel@, data@));
    Ok(codec::encode(3, payload.as_slice()))
}

} // verus!
