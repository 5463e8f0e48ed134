//! One error taxonomy for the whole socket layer, and the total maps into it
//! from the transport's and the secured session's own error types.
use vstd::prelude::*;

verus! {

/// The kinds of failure that the socket layer reports to its callers.
#[derive(Debug, Clone, Copy, PartialEq, Eq, Structural)]
pub enum ErrorKind {
    /// No progress could be made right now; no data moved, the call may be retried.
    WouldBlock,
    /// The peer or the pipe is gone; terminal for this socket.
    ConnectionClosed,
    /// The request cannot be served at all (an address family the transport cannot use).
    Unsupported,
    /// Every socket of the pool is in use.
    Exhausted,
    /// Data was asked for on a socket that has no secured session.
    NotConnected,
    /// Any other fatal failure.
    Other,
}

/// The network stack's failure reasons, as plain values.
#[derive(Debug, Clone, Copy, PartialEq, Eq, Structural)]
pub enum WifiStackError {
    Unknown(i32),
    InitializationError,
    DeviceError,
    MissingIp,
}

/// A network stack error, as reported by the pool.
#[derive(Debug, Clone, Copy, PartialEq, Eq, Structural)]
pub struct WifiStackErrorWrapper(pub WifiStackError);

/// Why the transport refused to start a connection.
#[derive(Debug, Clone, Copy, PartialEq, Eq, Structural)]
pub enum ConnectError {
    /// The socket was not in a state that allows connecting.
    InvalidState,
    /// The remote endpoint cannot be addressed.
    Unaddressable,
}

/// The raw transport socket's failure reasons, as plain values.
#[derive(Debug, Clone, Copy, PartialEq, Eq, Structural)]
pub enum IoError {
    SocketClosed,
    MultiCastError,
    TcpRecvError,
    UdpRecvError,
    TcpSendError,
    UdpSendError,
    ConnectError(ConnectError),
    BindError,
    ListenError,
}

/// The secured-session engine's failure reasons, as the socket layer tells them apart.
#[derive(Debug, Clone, Copy, PartialEq, Eq, Structural)]
pub enum SessionError {
    /// The engine needs more bytes from the transport before it can go on.
    WantRead,
    /// The engine needs the transport to take more bytes before it can go on.
    WantWrite,
    /// The peer ended the session.
    PeerClosed,
    /// The transport under the session failed.
    Transport,
    /// Any other engine failure (a rejected certificate or peer name among them), with its code.
    Engine(i32),
}

pub open spec fn stack_error_kind(e: WifiStackError) -> ErrorKind {
    match e {
        WifiStackError::DeviceError => ErrorKind::ConnectionClosed,
        _ => ErrorKind::Other,
    }
}

pub open spec fn io_error_kind(e: IoError) -> ErrorKind {
    match e {
        IoError::SocketClosed | IoError::TcpRecvError | IoError::TcpSendError => ErrorKind::ConnectionClosed,
        IoError::ConnectError(ConnectError::Unaddressable) => ErrorKind::Unsupported,
        _ => ErrorKind::Other,
    }
}

/// On an established session the only distinction kept besides a retry is
/// "the stream is gone": a peer's close and a network failure look alike.
pub open spec fn stream_error_kind(e: SessionError) -> ErrorKind {
    match e {
        SessionError::WantRead | SessionError::WantWrite => ErrorKind::WouldBlock,
        _ => ErrorKind::ConnectionClosed,
    }
}

/// A failed handshake is always terminal: the transport socket is already spent.
pub open spec fn handshake_error_kind(e: SessionError) -> ErrorKind {
    match e {
        SessionError::PeerClosed | SessionError::Transport => ErrorKind::ConnectionClosed,
        _ => ErrorKind::Other,
    }
}

impl WifiStackErrorWrapper {
    /// The kind of a network stack error: a device failure means the pipe is gone.
    pub fn kind(&self) -> (k: ErrorKind)
        ensures
            k == stack_error_kind(self.0),
    {
        match self.0 {
            WifiStackError::DeviceError => ErrorKind::ConnectionClosed,
            WifiStackError::InitializationError => ErrorKind::Other,
            WifiStackError::Unknown(_) => ErrorKind::Other,
            WifiStackError::MissingIp => ErrorKind::Other,
        }
    }
}

/// The kind of a transport failure.
pub fn classify_io(e: &IoError) -> (k: ErrorKind)
    ensures
        k == io_error_kind(*e),
{
    match e {
        IoError::SocketClosed => ErrorKind::ConnectionClosed,
        IoError::TcpRecvError => ErrorKind::ConnectionClosed,
        IoError::TcpSendError => ErrorKind::ConnectionClosed,
        IoError::ConnectError(ConnectError::Unaddressable) => ErrorKind::Unsupported,
        IoError::ConnectError(ConnectError::InvalidState) => ErrorKind::Other,
        IoError::MultiCastError => ErrorKind::Other,
        IoError::UdpRecvError => ErrorKind::Other,
        IoError::UdpSendError => ErrorKind::Other,
        IoError::BindError => ErrorKind::Other,
        IoError::ListenError => ErrorKind::Other,
    }
}

/// The kind of a failure reading or writing an established session.
pub fn classify_stream(e: &SessionError) -> (k: ErrorKind)
    ensures
        k == stream_error_kind(*e),
{
    match e {
        SessionError::WantRead => ErrorKind::WouldBlock,
        SessionError::WantWrite => ErrorKind::WouldBlock,
        _ => ErrorKind::ConnectionClosed,
    }
}

/// The kind of a failed handshake; never `WouldBlock`.
pub fn classify_handshake(e: &SessionError) -> (k: ErrorKind)
    ensures
        k == handshake_error_kind(*e),
        k != ErrorKind::WouldBlock,
{
    match e {
        SessionError::PeerClosed => ErrorKind::ConnectionClosed,
        SessionError::Transport => ErrorKind::ConnectionClosed,
        _ => ErrorKind::Other,
    }
}

/// What a read or write on an established session amounts to: the byte count
/// on success, else the kind of the failure.
pub fn transfer_result(outcome: Result<usize, SessionError>) -> (r: Result<usize, ErrorKind>)
    ensures
        match outcome {
            Ok(n) => r == Ok::<usize, ErrorKind>(n),
            Err(e) => r == Err::<usize, ErrorKind>(stream_error_kind(e)),
        },
{
    match outcome {
        Ok(n) => Ok(n),
        Err(e) => Err(classify_stream(&e)),
    }
}

} // verus!
