//! Typed messages decoded from inbound frames, by opcode.
//!
//! Only two message kinds arrive on this side of the protocol: ERROR
//! (opcode 0), whose payload is the broker's reason text, and INFO
//! (opcode 1), whose payload is a one-byte broker-name length `n`, then
//! `n` name bytes, then the nonce as everything remaining.

use vstd::prelude::*;

use crate::codec;
use crate::errors::HpfeedsError;

verus! {

/// The text that lossy UTF-8 decoding gives for a byte sequence.
pub uninterp spec fn lossy_utf8(bytes: Seq<u8>) -> Seq<char>;

/// Relies on String::from_utf8_lossy: the decoded text is a function of the
/// input bytes alone (invalid sequences become replacement characters).
#[verifier::external_body]
fn utf8_lossy(bytes: &[u8]) -> (r: String)
    ensures
        r@ == lossy_utf8(bytes@),
{
    String::from_utf8_lossy(bytes).into_owned()
}

/// The header of a decoded frame: its declared length and its opcode.
#[derive(Clone, Copy, Debug, PartialEq, Eq, Structural)]
pub struct HpfeedsHdr {
    pub len: u32,
    pub opcode: u8,
}

/// A decoded inbound message.
#[derive(Debug)]
pub enum HpfeedsMsg {
    /// The broker's reason text, from an ERROR frame (opcode 0).
    ErrorMsg(HpfeedsHdr, String),
    /// Broker name and nonce, from an INFO frame (opcode 1).
    InfoMsg(HpfeedsHdr, String, Vec<u8>),
}

/// An INFO payload is well formed when it has the length byte and the
/// declared broker-name length fits in what remains after it.
pub open spec fn info_well_formed(payload: Seq<u8>) -> bool {
    &&& payload.len() >= 1
    &&& payload[0] + 1 <= payload.len()
}

/// The broker-name bytes of a well-formed INFO payload.
pub open spec fn info_name_bytes(payload: Seq<u8>) -> Seq<u8>
    recommends
        info_well_formed(payload),
{
    payload.subrange(1, payload[0] + 1)
}

/// The nonce of a well-formed INFO payload: every byte after the name.
pub open spec fn info_nonce(payload: Seq<u8>) -> Seq<u8>
    recommends
        info_well_formed(payload),
{
    payload.subrange(payload[0] + 1, payload.len() as int)
}

/// Interpret an ERROR payload: the whole payload is the reason text.
pub fn parse_error(hdr: HpfeedsHdr, payload: &[u8]) -> (r: Result<HpfeedsMsg, HpfeedsError>)
    ensures
        r is Ok,
        r->Ok_0 is ErrorMsg,
        r->Ok_0->ErrorMsg_0 == hdr,
        r->Ok_0->ErrorMsg_1@ == lossy_utf8(payload@),
{
    let reason = utf8_lossy(payload);
    Ok(HpfeedsMsg::ErrorMsg(hdr, reason))
}

/// Interpret an INFO payload: one length byte, the broker name, the nonce.
///
/// Fails with a `Protocol` error when the payload is empty or the declared
/// broker-name length exceeds the bytes remaining after the length byte.
pub fn parse_info(hdr: HpfeedsHdr, payload: &[u8]) -> (r: Result<HpfeedsMsg, HpfeedsError>)
    ensures
        r is Ok <==> info_well_formed(payload@),
        r is Ok ==> r->Ok_0 is InfoMsg,
        r is Ok ==> r->Ok_0->InfoMsg_0 == hdr,
        r is Ok ==> r->Ok_0->InfoMsg_1@ == lossy_utf8(info_name_bytes(payload@)),
        r is Ok ==> r->Ok_0->InfoMsg_2@ == info_nonce(payload@),
        r is Err ==> r->Err_0 is Protocol,
{
    if payload.len() == 0 {
        return Err(HpfeedsError::Protocol("INFO payload lacks the broker-name length byte".to_owned()));
    }
    let n = payload[0] as usize;
    if n > payload.len() - 1 {
        return Err(HpfeedsError::Protocol("declared broker-name length exceeds the INFO payload".to_owned()));
    }
    let name = utf8_lossy(vstd::slice::slice_subrange(payload, 1, n + 1));
    let nonce = vstd::slice::slice_to_vec(vstd::slice::slice_subrange(payload, n + 1, payload.len()));
    Ok(HpfeedsMsg::InfoMsg(hdr, name, nonce))
}

/// Decode the frame at the head of a received buffer and interpret its
/// payload according to its opcode.
///
/// Succeeds exactly when the buffer starts with one complete, well-formed
/// frame whose opcode is 0 (ERROR) or 1 (INFO, with a well-formed payload);
/// any other opcode, or a malformed frame, is a `Protocol` error.
pub fn handle_recv(data: &[u8]) -> (r: Result<HpfeedsMsg, HpfeedsError>)
    ensures
        r is Ok <==> codec::holds_frame(data@) && (codec::frame_opcode(data@) == 0 || (
        codec::frame_opcode(data@) == 1 && info_well_formed(codec::frame_payload(data@)))),
        r is Ok ==> (r->Ok_0 is ErrorMsg <==> codec::frame_opcode(data@) == 0),
        r is Ok && codec::frame_opcode(data@) == 0 ==> r->Ok_0->ErrorMsg_0 == (HpfeedsHdr {
            len: codec::declared_len(data@),
            opcode: 0,
        }) && r->Ok_0->ErrorMsg_1@ == lossy_utf8(codec::frame_payload(data@)),
        r is Ok && codec::frame_opcode(data@) == 1 ==> r->Ok_0->InfoMsg_0 == (HpfeedsHdr {
            len: codec::declared_len(data@),
            opcode: 1,
        }) && r->Ok_0->InfoMsg_1@ == lossy_utf8(info_name_bytes(codec::frame_payload(data@)))
            && r->Ok_0->InfoMsg_2@ == info_nonce(codec::frame_payload(data@)),
        r is Err ==> r->Err_0 is Protocol,
{
    match codec::decode(data) {
        Ok(frame) => {
            let hdr = HpfeedsHdr { len: frame.len, opcode: frame.opcode };
            if frame.opcode == 0 {
                parse_error(hdr, frame.payload.as_slice())
            } else if frame.opcode == 1 {
                parse_info(hdr, frame.payload.as_slice())
            } else {
                Err(HpfeedsError::Protocol("unrecognized opcode".to_owned()))
            }
        },
        Err(e) => Err(e),
    }
}

} // verus!
