use vstd::prelude::*;

verus! {

/// Faults of a session's framing and routing; each ends the session.
#[derive(PartialEq, Eq, Structural, Debug, Clone, Copy)]
pub enum SessionError {
    /// The peer closed its side of the stream.
    ConnectionClosedByPeer,
    /// A header declared an oversized payload, or an unknown kind arrived.
    InvalidPacket,
    /// The receive buffer grew past its bound.
    BufferOverflow,
    /// No handler is registered for the kind that arrived.
    HandlerNotFound,
}

/// Errors of the relay server.
#[derive(PartialEq, Eq, Structural, Debug, Clone, Copy)]
pub enum ServerError {
    JoinError,
    FailedToProcessPacket,
    ConnectionClosedByPeer,
    HandlerNotFound,
    InvalidPacket,
    InvalidHandlerPacketId,
    IoError,
    FailedToDecodePacketType,
    ClientSendError,
}

/// Errors of the voice client.
#[derive(PartialEq, Eq, Structural, Debug, Clone, Copy)]
pub enum ClientError {
    HostUnavailable,
    AudioHandlerAlreadyStarted,
    DefaultStreamConfigError,
    DevicesError,
    NoHost,
    NoDevice,
    BuildStreamError,
    PlayStreamError,
    InvalidChannelCount,
    OpusError,
    EncodeError,
    DecodeError,
    BufferOverflow,
    ConnectionClosedByPeer,
    HandlerNotFound,
    IoError,
    BincodeError,
    SendError,
    InvalidPacket,
    CodecNotInitialized,
    ResampleError,
    ResamplerConstructionError,
    InvalidFrameSize,
    PoisonedLock,
}

/// The server error that reports a session fault.
pub open spec fn server_error_of(e: SessionError) -> ServerError {
    match e {
        SessionError::ConnectionClosedByPeer => ServerError::ConnectionClosedByPeer,
        SessionError::InvalidPacket => ServerError::InvalidPacket,
        SessionError::BufferOverflow => ServerError::FailedToProcessPacket,
        SessionError::HandlerNotFound => ServerError::HandlerNotFound,
    }
}

/// The client error that reports a session fault.
pub open spec fn client_error_of(e: SessionError) -> ClientError {
    match e {
        SessionError::ConnectionClosedByPeer => ClientError::ConnectionClosedByPeer,
        SessionError::InvalidPacket => ClientError::InvalidPacket,
        SessionError::BufferOverflow => ClientError::BufferOverflow,
        SessionError::HandlerNotFound => ClientError::HandlerNotFound,
    }
}

impl ServerError {
    pub fn from_session(e: SessionError) -> (r: ServerError)
        ensures
            r == server_error_of(e),
    {
        match e {
            SessionError::ConnectionClosedByPeer => ServerError::ConnectionClosedByPeer,
            SessionError::InvalidPacket => ServerError::InvalidPacket,
            SessionError::BufferOverflow => ServerError::FailedToProcessPacket,
            SessionError::HandlerNotFound => ServerError::HandlerNotFound,
        }
    }
}

impl ClientError {
    pub fn from_session(e: SessionError) -> (r: ClientError)
        ensures
            r == client_error_of(e),
    {
        match e {
            SessionError::ConnectionClosedByPeer => ClientError::ConnectionClosedByPeer,
            SessionError::InvalidPacket => ClientError::InvalidPacket,
            SessionError::BufferOverflow => ClientError::BufferOverflow,
            SessionError::HandlerNotFound => ClientError::HandlerNotFound,
        }
    }
}

} // verus!
