//! One secured client socket: a transport socket that a TLS session takes
//! over once the transport connection stands.
//!
//! Ownership moves with the state: the transport socket lives in `Idle`, is
//! handed out for the transport connect, then handed to the session engine,
//! and only the session comes back. A socket is therefore never holding both
//! a transport socket and a session. Closing brings it back to idle, which
//! always means owning a transport socket: the caller hands one back when
//! the socket no longer holds its own.
use vstd::prelude::*;
use crate::error::{classify_handshake, classify_io, handshake_error_kind, io_error_kind, ErrorKind, IoError, SessionError};

verus! {

/// The protocol version asked of the session engine.
#[derive(Debug, Clone, Copy, PartialEq, Eq, Structural)]
pub enum TlsVersion {
    Tls1_2,
    Tls1_3,
}

/// Where a socket stands in its connection cycle, and what it owns there.
pub enum Link<R, S> {
    /// Not connected; owns its transport socket.
    Idle(R),
    /// The transport socket is out with the caller for the transport connect.
    Opening,
    /// The connected transport socket is out with the session engine for the handshake.
    Handshaking,
    /// The handshake completed: all traffic goes through this session.
    Secured(S),
    /// The handshake failed and consumed the transport socket; only `close` helps.
    Failed,
}

/// The state of a link, without what it owns.
#[derive(Debug, Clone, Copy, PartialEq, Eq, Structural)]
pub enum SocketState {
    Idle,
    Opening,
    Handshaking,
    Secured,
    Failed,
}

pub open spec fn state_of<R, S>(l: Link<R, S>) -> SocketState {
    match l {
        Link::Idle(_) => SocketState::Idle,
        Link::Opening => SocketState::Opening,
        Link::Handshaking => SocketState::Handshaking,
        Link::Secured(_) => SocketState::Secured,
        Link::Failed => SocketState::Failed,
    }
}

/// The transport connect that the caller is to perform.
pub struct OpenRequest<R> {
    /// The socket to connect.
    pub socket: R,
    pub address: [u8; 4],
    pub port: u16,
}

/// The handshake that the caller is to perform, with the socket's server name
/// and certificates, over the connected transport socket.
pub struct HandshakeRequest<R> {
    pub socket: R,
    pub version: TlsVersion,
}

/// What closing hands back to the caller: the session it ended, if any, and
/// the transport socket the caller offered if the socket did not need it.
pub struct Released<R, S> {
    pub session: Option<S>,
    pub transport: Option<R>,
}

/// Closing a link needs a transport socket from the caller unless the link
/// still owns its own.
pub open spec fn close_needs_transport<R, S>(l: Link<R, S>) -> bool {
    !(l is Idle)
}

/// The link after closing `l` with `transport` offered: idle, over its own
/// transport socket if it still has it, else over the offered one.
pub open spec fn closed_link<R, S>(l: Link<R, S>, transport: Option<R>) -> Link<R, S> {
    match l {
        Link::Idle(r) => Link::Idle(r),
        _ => Link::Idle(transport->Some_0),
    }
}

/// The transport socket that closing `l` hands back unused.
pub open spec fn unused_transport<R, S>(l: Link<R, S>, transport: Option<R>) -> Option<R> {
    match l {
        Link::Idle(_) => transport,
        _ => None,
    }
}

/// The session that closing a link releases.
pub open spec fn released_session<R, S>(l: Link<R, S>) -> Option<S> {
    match l {
        Link::Secured(s) => Some(s),
        _ => None,
    }
}

/// A secured client socket, with the peer name and the trust material that
/// its handshakes use; both are fixed when it is made.
pub struct WrappedSocket<R, S, C> {
    link: Link<R, S>,
    certificates: C,
    server_name: &'static str,
}

impl<R, S, C> WrappedSocket<R, S, C> {
    pub closed spec fn link(&self) -> Link<R, S> {
        self.link
    }

    pub closed spec fn server_name_spec(&self) -> Seq<char> {
        self.server_name@
    }

    pub closed spec fn certificates_spec(&self) -> C {
        self.certificates
    }

    /// The two sockets differ at most in their link.
    pub open spec fn same_identity(&self, other: &Self) -> bool {
        &&& self.server_name_spec() == other.server_name_spec()
        &&& self.certificates_spec() == other.certificates_spec()
    }

    /// An idle socket over `socket`.
    pub fn new(socket: R, server_name: &'static str, certificates: C) -> (s: Self)
        ensures
            s.link() == Link::<R, S>::Idle(socket),
            s.server_name_spec() == server_name@,
            s.certificates_spec() == certificates,
    {
        WrappedSocket { link: Link::Idle(socket), certificates, server_name }
    }

    pub fn server_name(&self) -> (r: &'static str)
        ensures
            r@ == self.server_name_spec(),
    {
        self.server_name
    }

    pub fn certificates(&self) -> (r: &C)
        ensures
            *r == self.certificates_spec(),
    {
        &self.certificates
    }

    /// Starts a connect to `address:port`: hands the transport socket out
    /// for the transport connect.
    pub fn open(&mut self, address: [u8; 4], port: u16) -> (req: OpenRequest<R>)
        requires
            old(self).link() is Idle,
        ensures
            req.socket == old(self).link()->Idle_0,
            req.address == address,
            req.port == port,
            final(self).link() is Opening,
            final(self).same_identity(old(self)),
    {
        let mut link = Link::Opening;
        std::mem::swap(&mut link, &mut self.link);
        match link {
            Link::Idle(socket) => OpenRequest { socket, address, port },
            _ => vstd::pervasive::unreached(),
        }
    }

    /// Takes the transport socket back with the outcome of its connect. On
    /// failure the socket is idle again; on success it goes on to the handshake.
    pub fn opened(&mut self, socket: R, result: Result<(), IoError>) -> (r: Result<HandshakeRequest<R>, ErrorKind>)
        requires
            old(self).link() is Opening,
        ensures
            final(self).same_identity(old(self)),
            match result {
                Ok(()) => {
                    &&& r matches Ok(req)
                    &&& req.socket == socket
                    &&& req.version == TlsVersion::Tls1_2
                    &&& final(self).link() is Handshaking
                },
                Err(e) => {
                    &&& r == Err::<HandshakeRequest<R>, ErrorKind>(io_error_kind(e))
                    &&& final(self).link() == Link::<R, S>::Idle(socket)
                },
            },
    {
        match result {
            Ok(()) => {
                self.link = Link::Handshaking;
                Ok(HandshakeRequest { socket, version: TlsVersion::Tls1_2 })
            },
            Err(e) => {
                self.link = Link::Idle(socket);
                Err(classify_io(&e))
            },
        }
    }

    /// Takes the outcome of the handshake: the session, or why there is none.
    /// A failed handshake leaves the socket failed, never idle.
    pub fn handshake_done(&mut self, result: Result<S, SessionError>) -> (r: Result<(), ErrorKind>)
        requires
            old(self).link() is Handshaking,
        ensures
            final(self).same_identity(old(self)),
            match result {
                Ok(s) => r is Ok && final(self).link() == Link::<R, S>::Secured(s),
                Err(e) => {
                    &&& r == Err::<(), ErrorKind>(handshake_error_kind(e))
                    &&& final(self).link() is Failed
                },
            },
    {
        match result {
            Ok(s) => {
                self.link = Link::Secured(s);
                Ok(())
            },
            Err(e) => {
                self.link = Link::Failed;
                Err(classify_handshake(&e))
            },
        }
    }

    pub fn state(&self) -> (st: SocketState)
        ensures
            st == state_of(self.link()),
    {
        match &self.link {
            Link::Idle(_) => SocketState::Idle,
            Link::Opening => SocketState::Opening,
            Link::Handshaking => SocketState::Handshaking,
            Link::Secured(_) => SocketState::Secured,
            Link::Failed => SocketState::Failed,
        }
    }

    pub fn is_connected(&self) -> (b: bool)
        ensures
            b == (self.link() is Secured),
    {
        match &self.link {
            Link::Secured(_) => true,
            _ => false,
        }
    }

    /// The session that reads and writes go through; `NotConnected` unless secured.
    pub fn session_mut(&mut self) -> (r: Result<&mut S, ErrorKind>)
        ensures
            (old(self).link() is Secured) <==> r is Ok,
            r matches Ok(s) ==> {
                &&& *s == old(self).link()->Secured_0
                &&& final(self).link() == Link::<R, S>::Secured(*final(s))
                &&& final(self).same_identity(old(self))
            },
            r is Err ==> r == Err::<&mut S, ErrorKind>(ErrorKind::NotConnected) && *final(self) == *old(self),
    {
        match &mut self.link {
            Link::Secured(s) => Ok(s),
            _ => Err(ErrorKind::NotConnected),
        }
    }

    /// Closes the socket, whatever its state: it becomes idle over its own
    /// transport socket if it still has it, else over `transport`, which the
    /// caller must then give (recovered from the ended session, or a fresh
    /// one). Ends the session if there is one, without a shutdown exchange,
    /// and hands it back with an unneeded `transport`. Closing an idle socket
    /// changes nothing.
    pub fn close(&mut self, transport: Option<R>) -> (released: Released<R, S>)
        requires
            close_needs_transport(old(self).link()) ==> transport is Some,
        ensures
            released.session == released_session(old(self).link()),
            released.transport == unused_transport(old(self).link(), transport),
            final(self).link() == closed_link(old(self).link(), transport),
            final(self).same_identity(old(self)),
    {
        let mut link = Link::Failed;
        std::mem::swap(&mut link, &mut self.link);
        match link {
            Link::Idle(own) => {
                self.link = Link::Idle(own);
                Released { session: None, transport }
            },
            other => {
                let session = match other {
                    Link::Secured(s) => Some(s),
                    _ => None,
                };
                match transport {
                    Some(t) => {
                        self.link = Link::Idle(t);
                    },
                    None => {},
                }
                Released { session, transport: None }
            },
        }
    }
}

} // verus!
