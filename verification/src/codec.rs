//! The frame codec: the length-prefixed wire wrapper around every message.
//!
//! A frame on the wire is `BE32(5 + payload.len()) || opcode || payload`:
//! four big-endian length bytes counting the whole frame (themselves and the
//! opcode byte included), one opcode byte, then the payload. The smallest
//! valid frame is five bytes long (empty payload).

use vstd::prelude::*;

use crate::errors::HpfeedsError;

verus! {

/// The four big-endian bytes of a 32-bit value.
pub open spec fn be32_bytes(n: u32) -> Seq<u8> {
    seq![
        ((n >> 24) & 0xff) as u8,
        ((n >> 16) & 0xff) as u8,
        ((n >> 8) & 0xff) as u8,
        (n & 0xff) as u8,
    ]
}

/// The 32-bit value read from four big-endian bytes.
pub open spec fn be32_value(b0: u8, b1: u8, b2: u8, b3: u8) -> u32 {
    ((b0 as u32) << 24) | ((b1 as u32) << 16) | ((b2 as u32) << 8) | (b3 as u32)
}

/// Reading back the four big-endian bytes of a value gives the value.
pub proof fn lemma_be32_round_trip(n: u32)
    ensures
        be32_value(
            ((n >> 24) & 0xff) as u8,
            ((n >> 16) & 0xff) as u8,
            ((n >> 8) & 0xff) as u8,
            (n & 0xff) as u8,
        ) == n,
{
    assert(be32_value(
        ((n >> 24) & 0xff) as u8,
        ((n >> 16) & 0xff) as u8,
        ((n >> 8) & 0xff) as u8,
        (n & 0xff) as u8,
    ) == n) by (bit_vector);
}

/// The byte sequence that `encode` produces for an opcode and a payload.
pub open spec fn spec_encode(opcode: u8, payload: Seq<u8>) -> Seq<u8>
    recommends
        payload.len() + 5 <= u32::MAX,
{
    be32_bytes((payload.len() + 5) as u32) + seq![opcode] + payload
}

/// The length that a buffer's four leading bytes declare.
pub open spec fn declared_len(buf: Seq<u8>) -> u32
    recommends
        buf.len() >= 4,
{
    be32_value(buf[0], buf[1], buf[2], buf[3])
}

/// The buffer starts with one complete, well-formed frame: it has the five
/// mandatory bytes, the declared length is itself at least five, and the
/// buffer holds at least that many bytes. Bytes beyond the declared length
/// are not part of this frame.
pub open spec fn holds_frame(buf: Seq<u8>) -> bool {
    &&& buf.len() >= 5
    &&& declared_len(buf) >= 5
    &&& declared_len(buf) <= buf.len()
}

/// The opcode byte of the frame at the head of the buffer.
pub open spec fn frame_opcode(buf: Seq<u8>) -> u8
    recommends
        buf.len() >= 5,
{
    buf[4]
}

/// The payload of the frame at the head of the buffer: everything between
/// the opcode byte and the declared end of the frame.
pub open spec fn frame_payload(buf: Seq<u8>) -> Seq<u8>
    recommends
        holds_frame(buf),
{
    buf.subrange(5, declared_len(buf) as int)
}

/// One decoded frame.
#[derive(Debug)]
pub struct Frame {
    /// The declared total frame length, payload plus five.
    pub len: u32,
    /// The message kind: 0 ERROR, 1 INFO, 2 AUTH, 3 PUBLISH.
    pub opcode: u8,
    /// The opcode-dependent payload bytes.
    pub payload: Vec<u8>,
}

/// Law: a frame built by `encode` decodes back to the same opcode and
/// payload — it is well formed, declares its exact length, and carries the
/// opcode and payload bytes where `decode` reads them.
pub proof fn lemma_encode_decode_round_trip(opcode: u8, payload: Seq<u8>)
    requires
        payload.len() + 5 <= u32::MAX,
    ensures
        holds_frame(spec_encode(opcode, payload)),
        declared_len(spec_encode(opcode, payload)) == payload.len() + 5,
        frame_opcode(spec_encode(opcode, payload)) == opcode,
        frame_payload(spec_encode(opcode, payload)) == payload,
{
    let n = (payload.len() + 5) as u32;
    let buf = spec_encode(opcode, payload);
    assert(buf[0] == be32_bytes(n)[0]);
    assert(buf[1] == be32_bytes(n)[1]);
    assert(buf[2] == be32_bytes(n)[2]);
    assert(buf[3] == be32_bytes(n)[3]);
    lemma_be32_round_trip(n);
    assert(declared_len(buf) == n);
    assert(buf[4] == opcode);
    assert(frame_payload(buf) =~= payload);
}

/// Encode an opcode and a payload as one wire frame.
pub fn encode(opcode: u8, payload: &[u8]) -> (r: Vec<u8>)
    requires
        payload@.len() + 5 <= u32::MAX,
    ensures
        r@ == spec_encode(opcode, payload@),
{
    let len: u32 = (payload.len() as u32) + 5;
    assert((len >> 24) & 0xff < 256 && (len >> 16) & 0xff < 256 && (len >> 8) & 0xff < 256
        && len & 0xff < 256) by (bit_vector);
    let mut r: Vec<u8> = Vec::new();
    r.push(((len >> 24) & 0xff) as u8);
    r.push(((len >> 16) & 0xff) as u8);
    r.push(((len >> 8) & 0xff) as u8);
    r.push((len & 0xff) as u8);
    r.push(opcode);
    assert(r@ =~= be32_bytes(len) + seq![opcode]);
    let mut i: usize = 0;
    while i < payload.len()
        invariant
            i <= payload@.len(),
            r@ == be32_bytes(len) + seq![opcode] + payload@.subrange(0, i as int),
        decreases payload@.len() - i,
    {
        r.push(payload[i]);
        assert(payload@.subrange(0, i + 1) =~= payload@.subrange(0, i as int) + seq![payload@[i as int]]);
        i = i + 1;
    }
    assert(payload@.subrange(0, payload@.len() as int) =~= payload@);
    r
}

/// Decode the frame at the head of a buffer.
///
/// Fails with a `Protocol` error when the buffer is shorter than the five
/// mandatory bytes, when the declared length is below five, or when the
/// buffer holds fewer bytes than the frame declares. Succeeds exactly on a
/// buffer that starts with one complete, well-formed frame; bytes past the
/// declared length are ignored.
pub fn decode(buffer: &[u8]) -> (r: Result<Frame, HpfeedsError>)
    ensures
        r is Ok <==> holds_frame(buffer@),
        r is Ok ==> r->Ok_0.len == declared_len(buffer@),
        r is Ok ==> r->Ok_0.opcode == frame_opcode(buffer@),
        r is Ok ==> r->Ok_0.payload@ == frame_payload(buffer@),
        r is Err ==> r->Err_0 is Protocol,
{
    if buffer.len() < 5 {
        return Err(HpfeedsError::Protocol("frame shorter than the five mandatory bytes".to_owned()));
    }
    let len: u32 = ((buffer[0] as u32) << 24) | ((buffer[1] as u32) << 16)
        | ((buffer[2] as u32) << 8) | (buffer[3] as u32);
    if len < 5 {
        return Err(HpfeedsError::Protocol("declared frame length below the minimum of five".to_owned()));
    }
    if buffer.len() < len as usize {
        return Err(HpfeedsError::Protocol("buffer holds fewer bytes than the frame declares".to_owned()));
    }
    let payload = vstd::slice::slice_to_vec(vstd::slice::slice_subrange(buffer, 5, len as usize));
    Ok(Frame { len, opcode: buffer[4], payload })
}

/// Whether decoding can already be attempted on an accumulating buffer:
/// the declared length has arrived in full, or the four length bytes
/// already show a malformed frame. While this is false, decoding would
/// only fail for want of bytes, and more must be read first.
pub fn frame_available(buffer: &[u8]) -> (r: bool)
    ensures
        r <==> buffer@.len() >= 4 && (declared_len(buffer@) < 5 || buffer@.len() >= declared_len(
            buffer@,
        )),
{
    if buffer.len() < 4 {
        return false;
    }
    let len: u32 = ((buffer[0] as u32) << 24) | ((buffer[1] as u32) << 16)
        | ((buffer[2] as u32) << 8) | (buffer[3] as u32);
    len < 5 || buffer.len() >= len as usize
}

/// Accumulates bytes read from a stream-oriented transport and hands out
/// complete frames. One read may deliver part of a frame, or several
/// frames back to back; bytes past the last complete frame stay buffered
/// for the next read.
pub struct FrameBuffer {
    buf: Vec<u8>,
}

impl View for FrameBuffer {
    type V = Seq<u8>;

    closed spec fn view(&self) -> Seq<u8> {
        self.buf@
    }
}

impl FrameBuffer {
    /// An empty buffer.
    pub fn new() -> (r: FrameBuffer)
        ensures
            r@ == Seq::<u8>::empty(),
    {
        FrameBuffer { buf: Vec::new() }
    }

    /// How many bytes are waiting in the buffer.
    pub fn len(&self) -> (r: usize)
        ensures
            r == self@.len(),
    {
        self.buf.len()
    }

    /// Append the bytes one read delivered.
    pub fn feed(&mut self, data: &[u8])
        requires
            old(self)@.len() + data@.len() <= usize::MAX,
        ensures
            final(self)@ == old(self)@ + data@,
    {
        self.buf.extend_from_slice(data);
        assert(self.buf@ =~= old(self)@ + data@);
    }

    /// Take the frame at the head of the buffer, if it is complete.
    ///
    /// Returns `Ok(None)`, leaving the buffer as it is, while too few
    /// bytes have arrived: fewer than the four length bytes, or fewer
    /// than the length they declare. Returns the frame, and keeps only
    /// the bytes after it, once the declared length is buffered. Fails
    /// with a `Protocol` error, leaving the buffer as it is, when the
    /// declared length is below the minimum of five.
    pub fn next_frame(&mut self) -> (r: Result<Option<Frame>, HpfeedsError>)
        ensures
            old(self)@.len() < 4 ==> (r matches Ok(None) && final(self)@ == old(self)@),
            old(self)@.len() >= 4 && declared_len(old(self)@) < 5 ==> (r matches Err(e)
                && e is Protocol && final(self)@ == old(self)@),
            old(self)@.len() >= 4 && declared_len(old(self)@) >= 5 && old(self)@.len() < declared_len(
                old(self)@,
            ) ==> (r matches Ok(None) && final(self)@ == old(self)@),
            old(self)@.len() >= 4 && holds_frame(old(self)@) ==> (r matches Ok(Some(f))
                && f.len == declared_len(old(self)@) && f.opcode == frame_opcode(old(self)@)
                && f.payload@ == frame_payload(old(self)@) && final(self)@ == old(self)@.skip(
                declared_len(old(self)@) as int,
            )),
    {
        if self.buf.len() < 4 {
            return Ok(None);
        }
        let len: u32 = ((self.buf[0] as u32) << 24) | ((self.buf[1] as u32) << 16) | ((self.buf[2]
            as u32) << 8) | (self.buf[3] as u32);
        if len < 5 {
            return Err(HpfeedsError::Protocol("declared frame length below the minimum of five".to_owned()));
        }
        if self.buf.len() < len as usize {
            return Ok(None);
        }
        let opcode = self.buf[4];
        let payload = vstd::slice::slice_to_vec(
            vstd::slice::slice_subrange(self.buf.as_slice(), 5, len as usize),
        );
        let rest = vstd::slice::slice_to_vec(
            vstd::slice::slice_subrange(self.buf.as_slice(), len as usize, self.buf.len()),
        );
        self.buf = rest;
        assert(self.buf@ =~= old(self)@.skip(len as int));
        Ok(Some(Frame { len, opcode, payload }))
    }
}

} // verus!
