//! The connection's state machine and the one request/response primitive's
//! decisions.
//!
//! A client lives through `Connected` and then, after the close handshake,
//! `Closed`; there is no way back.  Sending a message means framing it and
//! writing the frame, then — except for the terminal `CLOSE` command, which
//! is fire-and-forget here — reading one response frame.  This module
//! decides all of that; the unverified edge only performs the writes and
//! reads it is told to.

use vstd::prelude::*;
use crate::bytes::bytes_eq;
use crate::command::close_command;
use crate::command::spec_close_command;
use crate::errors::KeyzError;
use crate::wire::encode_frame;
use crate::wire::spec_encode_frame;

verus! {

/// Where the connection stands in its life.  A client is built already
/// connected — construction fails outright when the transport cannot be
/// established — so these are the only two reachable states.
#[derive(Clone, Copy, Debug, PartialEq, Eq, Structural)]
pub enum LinkState {
    Connected,
    Closed,
}

/// The protocol-relevant state of one client: nothing but where its single
/// connection stands.
#[derive(Clone, Copy, Debug, PartialEq, Eq, Structural)]
pub struct Session {
    pub state: LinkState,
}

/// Everything the transport must do for one `send_message` call: write
/// `frame`, then read one response frame — unless the message was `CLOSE`,
/// which gets no read.
pub struct SendPlan {
    pub frame: Vec<u8>,
    pub expects_response: bool,
}

/// What a send decides, given where the connection stands: a closed
/// connection rejects every message with `ConnectionClosed`; a connected
/// one frames the message, and expects a response exactly when the message
/// is not the literal `CLOSE`.
pub open spec fn spec_prepare_send(state: LinkState, message: Seq<u8>) -> Result<
    (Seq<u8>, bool),
    KeyzError,
>
    recommends
        message.len() <= u32::MAX,
{
    if state == LinkState::Closed {
        Err(KeyzError::ConnectionClosed)
    } else {
        Ok((spec_encode_frame(message), message != spec_close_command()))
    }
}

impl Session {
    /// A session begins connected: it exists only once the transport is
    /// established.
    pub fn new() -> (s: Session)
        ensures
            s.state == LinkState::Connected,
    {
        Session { state: LinkState::Connected }
    }

    /// Whether the close handshake has completed.
    pub open spec fn is_closed(self) -> bool {
        self.state == LinkState::Closed
    }

    /// Decides one send: the frame to write and whether to read a
    /// response, or `ConnectionClosed` once the session is closed.
    pub fn prepare_send(&self, message: &Vec<u8>) -> (r: Result<SendPlan, KeyzError>)
        requires
            message@.len() <= u32::MAX,
        ensures
            match r {
                Ok(plan) => spec_prepare_send(self.state, message@) == Ok::<
                    (Seq<u8>, bool),
                    KeyzError,
                >((plan.frame@, plan.expects_response)),
                Err(e) => spec_prepare_send(self.state, message@) == Err::<
                    (Seq<u8>, bool),
                    KeyzError,
                >(e),
            },
    {
        match self.state {
            LinkState::Closed => Err(KeyzError::ConnectionClosed),
            LinkState::Connected => {
                let frame = encode_frame(message);
                let close = close_command();
                let expects_response = !bytes_eq(message, &close);
                Ok(SendPlan { frame, expects_response })
            },
        }
    }

    /// Records that the close handshake has completed; the session is not
    /// reusable afterwards.
    pub fn close(&mut self)
        ensures
            final(self).state == LinkState::Closed,
    {
        self.state = LinkState::Closed;
    }
}

/// Once the close handshake has completed, every further send — whatever
/// its message — is rejected with `ConnectionClosed`; no bytes are framed
/// for a shut-down stream.
pub proof fn lemma_closed_rejects_every_send(state: LinkState, message: Seq<u8>)
    requires
        state == LinkState::Closed,
    ensures
        spec_prepare_send(state, message) == Err::<(Seq<u8>, bool), KeyzError>(
            KeyzError::ConnectionClosed,
        ),
{
}

} // verus!
