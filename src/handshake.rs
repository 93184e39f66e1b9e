use vstd::prelude::*;

verus! {

/// Length in bytes of the secret key that a handshake yields.
pub const SECRET_KEY_LEN: usize = 32;

/// A secret key of `SECRET_KEY_LEN` bytes.
#[derive(Debug)]
pub struct SecretKey {
    bytes: Vec<u8>,
}

impl View for SecretKey {
    type V = Seq<u8>;

    closed spec fn view(&self) -> Seq<u8> {
        self.bytes@
    }
}

impl SecretKey {
    #[verifier::type_invariant]
    spec fn well_sized(&self) -> bool {
        self.bytes@.len() == SECRET_KEY_LEN
    }

    /// Takes the export key of a finished exchange as a secret key; any other
    /// length than `SECRET_KEY_LEN` means the two sides are misconfigured.
    pub fn from_export_key(export_key: Vec<u8>) -> (r: Result<SecretKey, HandshakeError>)
        ensures
            export_key@.len() == SECRET_KEY_LEN ==> (r matches Ok(k) && k@ == export_key@),
            export_key@.len() != SECRET_KEY_LEN ==> r == Err::<SecretKey, HandshakeError>(
                HandshakeError::KeySizeMismatch,
            ),
    {
        if export_key.len() == SECRET_KEY_LEN {
            Ok(SecretKey { bytes: export_key })
        } else {
            Err(HandshakeError::KeySizeMismatch)
        }
    }

    /// The key's bytes.
    pub fn as_bytes(&self) -> (r: &[u8])
        ensures
            r@ == self@,
            r@.len() == SECRET_KEY_LEN,
    {
        proof { use_type_invariant(self); }
        self.bytes.as_slice()
    }
}

/// What the server's stream produced at one step of a handshake.
#[derive(Debug, Clone, PartialEq, Eq)]
pub enum ServerReply<M> {
    /// The stream ended without a message.
    Closed,
    /// The transport failed while reading.
    CommunicationFailed,
    /// The server answered with an error.
    ServerError,
    /// The server's key-exchange message.
    KeyExchange(M),
    /// The server's terminal confirmation.
    End,
}

/// Why a handshake attempt failed. Every failure ends the attempt; a new
/// attempt starts over with fresh randomness and fresh local state.
#[derive(Debug, Clone, Copy, PartialEq, Eq, Structural)]
pub enum HandshakeError {
    /// The local start operation failed.
    StartFailed,
    /// The local finish operation failed.
    FinishFailed,
    /// The stream closed or failed before the expected message arrived.
    CommunicationError,
    /// The server reported an error.
    ServerError,
    /// A message of the wrong kind for this step: client and server disagree
    /// about the protocol's state.
    ProtocolDesync,
    /// The export key does not have the secret key's length.
    KeySizeMismatch,
}

/// Where a handshake attempt stands.
#[derive(Debug, Clone, Copy, PartialEq, Eq, Structural)]
pub enum HandshakePhase {
    /// The opening request was sent; the key-exchange message is awaited.
    AwaitingResponse,
    /// The completion message was sent; the terminal confirmation is awaited.
    AwaitingConfirmation,
    /// A key was produced.
    Completed,
    /// The attempt failed.
    Aborted,
}

/// The answer to the first reply of a handshake.
pub open spec fn first_reply_outcome<M>(reply: ServerReply<M>) -> Result<M, HandshakeError> {
    match reply {
        ServerReply::KeyExchange(m) => Ok(m),
        ServerReply::End => Err(HandshakeError::ProtocolDesync),
        ServerReply::ServerError => Err(HandshakeError::ServerError),
        ServerReply::Closed => Err(HandshakeError::CommunicationError),
        ServerReply::CommunicationFailed => Err(HandshakeError::CommunicationError),
    }
}

/// The error, if any, that the final reply of a handshake brings.
pub open spec fn final_reply_error<M>(reply: ServerReply<M>) -> Option<HandshakeError> {
    match reply {
        ServerReply::End => None,
        ServerReply::KeyExchange(_) => Some(HandshakeError::ProtocolDesync),
        ServerReply::ServerError => Some(HandshakeError::ServerError),
        ServerReply::Closed => Some(HandshakeError::CommunicationError),
        ServerReply::CommunicationFailed => Some(HandshakeError::CommunicationError),
    }
}

/// The client side of a two-round key exchange, the same for device login
/// and device registration.
#[derive(Debug)]
pub struct Handshake {
    phase: HandshakePhase,
}

impl Handshake {
    /// An attempt whose opening request has just been sent.
    pub fn new() -> (r: Self)
        ensures
            r.phase() == HandshakePhase::AwaitingResponse,
    {
        Handshake { phase: HandshakePhase::AwaitingResponse }
    }

    pub closed spec fn phase(&self) -> HandshakePhase {
        self.phase
    }

    /// Where the attempt stands.
    pub fn current_phase(&self) -> (r: HandshakePhase)
        ensures
            r == self.phase(),
    {
        self.phase
    }

    /// Takes the server's first reply, which must be its key-exchange message.
    /// A terminal message here is a protocol desync. A call out of turn
    /// aborts the attempt as a protocol desync too.
    pub fn on_response<M>(&mut self, reply: ServerReply<M>) -> (r: Result<M, HandshakeError>)
        ensures
            old(self).phase() == HandshakePhase::AwaitingResponse ==> r == first_reply_outcome(
                reply,
            ),
            old(self).phase() != HandshakePhase::AwaitingResponse ==> r == Err::<M, HandshakeError>(
                HandshakeError::ProtocolDesync,
            ),
            final(self).phase() == (if r is Ok {
                HandshakePhase::AwaitingConfirmation
            } else {
                HandshakePhase::Aborted
            }),
    {
        if self.phase != HandshakePhase::AwaitingResponse {
            self.phase = HandshakePhase::Aborted;
            return Err(HandshakeError::ProtocolDesync);
        }
        let r = match reply {
            ServerReply::KeyExchange(m) => Ok(m),
            ServerReply::End => Err(HandshakeError::ProtocolDesync),
            ServerReply::ServerError => Err(HandshakeError::ServerError),
            ServerReply::Closed => Err(HandshakeError::CommunicationError),
            ServerReply::CommunicationFailed => Err(HandshakeError::CommunicationError),
        };
        self.phase = if r.is_ok() {
            HandshakePhase::AwaitingConfirmation
        } else {
            HandshakePhase::Aborted
        };
        r
    }

    /// Records that the local finish operation failed.
    pub fn on_finish_failed(&mut self) -> (r: HandshakeError)
        ensures
            r == HandshakeError::FinishFailed,
            final(self).phase() == HandshakePhase::Aborted,
    {
        self.phase = HandshakePhase::Aborted;
        HandshakeError::FinishFailed
    }

    /// Records that the completion message could not be sent.
    pub fn on_send_failed(&mut self) -> (r: HandshakeError)
        ensures
            r == HandshakeError::CommunicationError,
            final(self).phase() == HandshakePhase::Aborted,
    {
        self.phase = HandshakePhase::Aborted;
        HandshakeError::CommunicationError
    }

    /// Takes the server's final reply, which must be its terminal
    /// confirmation; the export key of the local finish then becomes the
    /// secret key. Another key-exchange message here is a protocol desync,
    /// and so is a call out of turn.
    pub fn on_confirmation<M>(&mut self, reply: ServerReply<M>, export_key: Vec<u8>) -> (r:
        Result<SecretKey, HandshakeError>)
        ensures
            old(self).phase() != HandshakePhase::AwaitingConfirmation ==> r == Err::<
                SecretKey,
                HandshakeError,
            >(HandshakeError::ProtocolDesync),
            old(self).phase() == HandshakePhase::AwaitingConfirmation ==> match final_reply_error(
                reply,
            ) {
                Some(e) => r == Err::<SecretKey, HandshakeError>(e),
                None => if export_key@.len() == SECRET_KEY_LEN {
                    r matches Ok(k) && k@ == export_key@
                } else {
                    r == Err::<SecretKey, HandshakeError>(HandshakeError::KeySizeMismatch)
                },
            },
            final(self).phase() == (if r is Ok {
                HandshakePhase::Completed
            } else {
                HandshakePhase::Aborted
            }),
    {
        if self.phase != HandshakePhase::AwaitingConfirmation {
            self.phase = HandshakePhase::Aborted;
            return Err(HandshakeError::ProtocolDesync);
        }
        let r = match reply {
            ServerReply::End => SecretKey::from_export_key(export_key),
            ServerReply::KeyExchange(_) => Err(HandshakeError::ProtocolDesync),
            ServerReply::ServerError => Err(HandshakeError::ServerError),
            ServerReply::Closed => Err(HandshakeError::CommunicationError),
            ServerReply::CommunicationFailed => Err(HandshakeError::CommunicationError),
        };
        self.phase = if r.is_ok() {
            HandshakePhase::Completed
        } else {
            HandshakePhase::Aborted
        };
        r
    }
}


/// A terminal message where the key-exchange message was expected is a
/// protocol desync, and the attempt ends without a key.
pub proof fn lemma_early_end_is_desync<M>()
    ensures
        first_reply_outcome(ServerReply::<M>::End) == Err::<M, HandshakeError>(
            HandshakeError::ProtocolDesync,
        ),
        final_reply_error(ServerReply::<M>::End) is None,
{
}

/// A key-exchange message where the terminal confirmation was expected is a
/// protocol desync as well.
pub proof fn lemma_late_key_exchange_is_desync<M>(m: M)
    ensures
        final_reply_error(ServerReply::KeyExchange(m)) == Some(HandshakeError::ProtocolDesync),
{
}

} // verus!
