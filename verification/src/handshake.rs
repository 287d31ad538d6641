//! The connect-then-authenticate state machine.
//!
//! The machine moves `Connecting -> AwaitingInfo -> Authenticating ->
//! Ready`, with `Failed` as the terminal failure state. The surrounding
//! I/O code opens the transport, hands the first received buffer to
//! `on_first_frame`, writes the AUTH frame that comes back, and reports
//! each completed step; every decision in between is made here.
//!
//! The protocol defines no acknowledgment for AUTH: after the AUTH frame
//! is written the connection counts as ready, and a rejection only shows
//! up as a later failed write or a closed socket.

use vstd::prelude::*;

use crate::auth;
use crate::codec;
use crate::errors::HpfeedsError;
use crate::messages;
use crate::messages::HpfeedsMsg;

verus! {

/// Where the handshake stands.
#[derive(Clone, Copy, Debug, PartialEq, Eq, Structural)]
pub enum HandshakeState {
    /// The transport is being opened.
    Connecting,
    /// Waiting for the broker's first frame, which must be INFO.
    AwaitingInfo,
    /// The INFO frame was accepted and the AUTH answer was built.
    Authenticating,
    /// The AUTH frame was written; the connection is usable.
    Ready,
    /// The handshake aborted; the connection is not usable.
    Failed,
}

/// The first frame carries a complete, well-formed INFO message.
pub open spec fn first_frame_is_info(data: Seq<u8>) -> bool {
    &&& codec::holds_frame(data)
    &&& codec::frame_opcode(data) == 1
    &&& messages::info_well_formed(codec::frame_payload(data))
}

/// The handshake driver: identity, secret, and what the broker said so far.
pub struct Handshake {
    /// The client's claimed identity.
    pub ident: Vec<u8>,
    /// The shared secret combined with the broker's nonce.
    pub secret: Vec<u8>,
    /// The broker's name, populated once INFO is accepted.
    pub broker_name: String,
    /// Where the handshake stands.
    pub state: HandshakeState,
}

impl Handshake {
    /// Start a handshake for an identity and a secret.
    pub fn new(ident: Vec<u8>, secret: Vec<u8>) -> (r: Handshake)
        ensures
            r.state is Connecting,
            r.ident@ == ident@,
            r.secret@ == secret@,
            r.broker_name@ == Seq::<char>::empty(),
    {
        Handshake { ident, secret, broker_name: String::new(), state: HandshakeState::Connecting }
    }

    /// The transport was opened: wait for the broker's first frame.
    pub fn on_connected(&mut self)
        requires
            old(self).state is Connecting,
        ensures
            final(self).state is AwaitingInfo,
            final(self).ident == old(self).ident,
            final(self).secret == old(self).secret,
            final(self).broker_name == old(self).broker_name,
    {
        self.state = HandshakeState::AwaitingInfo;
    }

    /// Judge the first received frame and build the AUTH answer.
    ///
    /// Succeeds exactly when the buffer starts with a well-formed INFO
    /// frame and the identity fits its one-byte length prefix; the result
    /// is then the complete AUTH frame to write, the broker's name is
    /// stored, and the machine moves to `Authenticating`. On a well-formed
    /// ERROR frame the broker's reason is surfaced as a `Broker` error; on
    /// any other frame the error is `Protocol`; an oversized identity is a
    /// `Validation` error. Every failure moves the machine to `Failed`,
    /// and no AUTH frame is handed out.
    pub fn on_first_frame(&mut self, data: &[u8]) -> (r: Result<Vec<u8>, HpfeedsError>)
        requires
            old(self).state is AwaitingInfo,
            old(self).secret@.len() + data@.len() <= usize::MAX,
        ensures
            final(self).ident == old(self).ident,
            final(self).secret == old(self).secret,
            r is Ok <==> first_frame_is_info(data@) && old(self).ident@.len() <= 255,
            r is Ok ==> final(self).state is Authenticating,
            r is Ok ==> final(self).broker_name@ == messages::lossy_utf8(
                messages::info_name_bytes(codec::frame_payload(data@)),
            ),
            r is Ok ==> r->Ok_0@ == codec::spec_encode(
                2,
                auth::spec_auth_payload(
                    old(self).ident@,
                    auth::sha1_of(
                        messages::info_nonce(codec::frame_payload(data@)) + old(self).secret@,
                    ),
                ),
            ),
            r is Err ==> final(self).state is Failed,
            codec::holds_frame(data@) && codec::frame_opcode(data@) == 0 ==> r is Err
                && r->Err_0 is Broker && r->Err_0->Broker_0@ == messages::lossy_utf8(
                codec::frame_payload(data@),
            ),
            !first_frame_is_info(data@) && !(codec::holds_frame(data@) && codec::frame_opcode(
                data@,
            ) == 0) ==> r is Err && r->Err_0 is Protocol,
            first_frame_is_info(data@) && old(self).ident@.len() > 255 ==> r is Err
                && r->Err_0 is Validation,
    {
        match messages::handle_recv(data) {
            Ok(HpfeedsMsg::InfoMsg(_hdr, name, nonce)) => {
                match auth::build_auth_frame(
                    self.ident.as_slice(),
                    nonce.as_slice(),
                    self.secret.as_slice(),
                ) {
                    Ok(frame) => {
                        self.broker_name = name;
                        self.state = HandshakeState::Authenticating;
                        Ok(frame)
                    },
                    Err(e) => {
                        self.state = HandshakeState::Failed;
                        Err(e)
                    },
                }
            },
            Ok(HpfeedsMsg::ErrorMsg(_hdr, reason)) => {
                self.state = HandshakeState::Failed;
                Err(HpfeedsError::Broker(reason))
            },
            Err(e) => {
                self.state = HandshakeState::Failed;
                Err(e)
            },
        }
    }

    /// The AUTH frame was written: the connection is ready for publishing.
    pub fn on_auth_sent(&mut self)
        requires
            old(self).state is Authenticating,
        ensures
            final(self).state is Ready,
            final(self).ident == old(self).ident,
            final(self).secret == old(self).secret,
            final(self).broker_name == old(self).broker_name,
    {
        self.state = HandshakeState::Ready;
    }
}

} // verus!
