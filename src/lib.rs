//! A fixed pool of TLS-secured client sockets behind opaque handles, and the
//! decisions of the device that uses it.
//!
//! The pool hands out handles first-fit, routes every handle-scoped operation
//! to its socket, and drives each socket through its connection states:
//! idle, transport connect, handshake, secured. The network I/O itself (the
//! transport connect, the handshake, reads and writes) is done by the caller
//! between the steps that the pool and its sockets decide.
//!
//! Beside it stand the device's other decisions: when to retry the Wi-Fi
//! association, and what a touch on the screen does.
pub mod address;
pub mod error;
pub mod kiosk;
pub mod laws;
pub mod pool;
pub mod socket;
pub mod wifi;

pub use address::{IpAddr, SocketAddr};
pub use error::{
    classify_handshake, classify_io, classify_stream, transfer_result, ConnectError, ErrorKind,
    IoError, SessionError, WifiStackError, WifiStackErrorWrapper,
};
pub use kiosk::{Kiosk, KioskAction, Product, Stock, TouchEvent, TouchPoint};
pub use pool::{SocketHandle, WifiTcpClientStack};
pub use socket::{HandshakeRequest, Link, OpenRequest, Released, SocketState, TlsVersion, WrappedSocket};
pub use wifi::{next_wifi_action, WifiAction, WifiOutcome};
