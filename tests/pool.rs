use tls_socket_pool::{
    transfer_result, ErrorKind, IoError, IpAddr, SessionError, SocketAddr, SocketHandle, SocketState,
    TlsVersion, WifiTcpClientStack, WrappedSocket,
};

#[derive(Debug, PartialEq)]
struct RawSocket(u8);

#[derive(Debug, PartialEq)]
struct Session {
    over: u8,
    sent: Vec<u8>,
    inbox: Vec<u8>,
}

impl Session {
    fn write(&mut self, buf: &[u8]) -> Result<usize, SessionError> {
        self.sent.extend_from_slice(buf);
        Ok(buf.len())
    }

    fn read(&mut self, buf: &mut [u8]) -> Result<usize, SessionError> {
        if self.inbox.is_empty() {
            return Err(SessionError::WantRead);
        }
        let n = buf.len().min(self.inbox.len());
        buf[..n].copy_from_slice(&self.inbox[..n]);
        self.inbox.drain(..n);
        Ok(n)
    }
}

type Pool = WifiTcpClientStack<RawSocket, Session, &'static str>;

fn pool_of(n: u8) -> Pool {
    let sockets = (0..n)
        .map(|i| WrappedSocket::new(RawSocket(i), "broker.example", "ca-bundle"))
        .collect();
    WifiTcpClientStack::new(sockets)
}

fn v4(a: u8, b: u8, c: u8, d: u8, port: u16) -> SocketAddr {
    SocketAddr::new(IpAddr::V4([a, b, c, d]), port)
}

/// Plays the caller's part of a connect whose transport connect and handshake succeed.
fn connect_ok(pool: &mut Pool, h: &SocketHandle, remote: SocketAddr) -> Result<(), ErrorKind> {
    let req = pool.connect(h, remote)?;
    let hs = pool.opened(h, req.socket, Ok(()))?;
    assert_eq!(hs.version, TlsVersion::Tls1_2);
    let session = Session { over: hs.socket.0, sent: Vec::new(), inbox: Vec::new() };
    pool.handshake_done(h, Ok(session))
}

fn send(pool: &mut Pool, h: &SocketHandle, bytes: &[u8]) -> Result<usize, ErrorKind> {
    let session = pool.session_mut(h)?;
    transfer_result(session.write(bytes))
}

fn receive(pool: &mut Pool, h: &SocketHandle, buf: &mut [u8]) -> Result<usize, ErrorKind> {
    let session = pool.session_mut(h)?;
    transfer_result(session.read(buf))
}

#[test]
fn connect_send_close_reacquire() {
    let mut pool = pool_of(1);
    let h0 = pool.socket().unwrap();
    assert_eq!(h0.index(), 0);
    assert_eq!(connect_ok(&mut pool, &h0, v4(203, 0, 113, 5, 8883)), Ok(()));
    assert_eq!(pool.state(&h0), SocketState::Secured);
    assert_eq!(send(&mut pool, &h0, b"PING"), Ok(4));
    // the session took the transport socket: a replacement goes back with the close
    assert!(pool.close_needs_transport(&h0));
    let released = pool.close(h0, Some(RawSocket(10)));
    let session = released.session.unwrap();
    assert_eq!(session.sent, b"PING".to_vec());
    assert_eq!(session.over, 0);
    assert!(released.transport.is_none());
    let again = pool.socket().unwrap();
    assert_eq!(again, h0);
    assert_eq!(pool.state(&again), SocketState::Idle);
    assert!(!pool.is_connected(&again));
    assert!(!pool.close_needs_transport(&again));
    // connecting again works as on a fresh slot, over the replacement socket
    let req = pool.connect(&again, v4(203, 0, 113, 5, 8883)).unwrap();
    assert_eq!(req.socket, RawSocket(10));
    let hs = pool.opened(&again, req.socket, Ok(())).unwrap();
    let session = Session { over: hs.socket.0, sent: Vec::new(), inbox: Vec::new() };
    assert_eq!(pool.handshake_done(&again, Ok(session)), Ok(()));
    assert_eq!(send(&mut pool, &again, b"PING"), Ok(4));
    assert_eq!(pool.session_mut(&again).unwrap().over, 10);
}

#[test]
fn second_acquire_is_exhausted() {
    let mut pool = pool_of(1);
    let h0 = pool.socket().unwrap();
    assert_eq!(h0.index(), 0);
    assert_eq!(pool.socket(), Err(ErrorKind::Exhausted));
    assert!(pool.in_use(&h0));
}

#[test]
fn failed_handshake_is_terminal() {
    let mut pool = pool_of(1);
    let h = pool.socket().unwrap();
    let req = pool.connect(&h, v4(198, 51, 100, 7, 8883)).unwrap();
    let hs = pool.opened(&h, req.socket, Ok(())).unwrap();
    drop(hs.socket);
    // the engine rejected the peer's certificate name
    let r = pool.handshake_done(&h, Err(SessionError::Engine(-0x2700)));
    assert_eq!(r, Err(ErrorKind::Other));
    assert_ne!(r, Err(ErrorKind::WouldBlock));
    assert_eq!(pool.state(&h), SocketState::Failed);
    assert_eq!(send(&mut pool, &h, b"PING"), Err(ErrorKind::NotConnected));
}

#[test]
fn handshake_failures_never_would_block() {
    let errors = [
        SessionError::WantRead,
        SessionError::WantWrite,
        SessionError::PeerClosed,
        SessionError::Transport,
        SessionError::Engine(-1),
    ];
    for e in errors {
        let mut pool = pool_of(1);
        let h = pool.socket().unwrap();
        let req = pool.connect(&h, v4(10, 0, 0, 1, 443)).unwrap();
        pool.opened(&h, req.socket, Ok(())).unwrap();
        let r = pool.handshake_done(&h, Err(e));
        assert!(r.is_err());
        assert_ne!(r, Err(ErrorKind::WouldBlock));
        assert_eq!(receive(&mut pool, &h, &mut [0u8; 4]), Err(ErrorKind::NotConnected));
    }
}

#[test]
fn first_n_acquires_then_exhausted() {
    let mut pool = pool_of(3);
    let handles: Vec<SocketHandle> = (0..3).map(|_| pool.socket().unwrap()).collect();
    let indices: Vec<usize> = handles.iter().map(|h| h.index()).collect();
    assert_eq!(indices, vec![0, 1, 2]);
    assert_eq!(pool.socket(), Err(ErrorKind::Exhausted));
    assert_eq!(pool.socket(), Err(ErrorKind::Exhausted));
    assert_eq!(pool.max_sockets(), 3);
}

#[test]
fn empty_pool_is_exhausted() {
    let mut pool = pool_of(0);
    assert_eq!(pool.max_sockets(), 0);
    assert_eq!(pool.socket(), Err(ErrorKind::Exhausted));
}

#[test]
fn release_then_acquire_reuses_slot_fresh() {
    let mut pool = pool_of(3);
    let a = pool.socket().unwrap();
    let b = pool.socket().unwrap();
    let c = pool.socket().unwrap();
    assert_eq!(connect_ok(&mut pool, &b, v4(192, 0, 2, 1, 8883)), Ok(()));
    assert_eq!(send(&mut pool, &b, b"hello"), Ok(5));
    assert!(pool.close(b, Some(RawSocket(7))).session.is_some());
    let b2 = pool.socket().unwrap();
    assert_eq!(b2, b);
    assert_eq!(pool.state(&b2), SocketState::Idle);
    assert_eq!(send(&mut pool, &b2, b"x"), Err(ErrorKind::NotConnected));
    // the slot owns the transport socket handed back at the close
    let req = pool.connect(&b2, v4(192, 0, 2, 1, 8883)).unwrap();
    assert_eq!(req.socket, RawSocket(7));
    assert!(pool.in_use(&a) && pool.in_use(&c));
}

#[test]
fn close_before_connect_keeps_transport_socket() {
    let mut pool = pool_of(1);
    let h = pool.socket().unwrap();
    assert!(!pool.close_needs_transport(&h));
    let released = pool.close(h, None);
    assert!(released.session.is_none() && released.transport.is_none());
    // an offered socket that the slot does not need comes back
    let released = pool.close(h, Some(RawSocket(5)));
    assert_eq!(released.transport, Some(RawSocket(5)));
    let h = pool.socket().unwrap();
    let req = pool.connect(&h, v4(192, 0, 2, 9, 1883)).unwrap();
    assert_eq!(req.socket, RawSocket(0));
    assert_eq!(req.address, [192, 0, 2, 9]);
    assert_eq!(req.port, 1883);
    assert_eq!(pool.state(&h), SocketState::Opening);
}

#[test]
fn ipv6_connect_is_unsupported_and_untouched() {
    let mut pool = pool_of(1);
    let h = pool.socket().unwrap();
    let remote = SocketAddr::new(IpAddr::V6([0x2001, 0xdb8, 0, 0, 0, 0, 0, 1]), 8883);
    assert!(matches!(pool.connect(&h, remote), Err(ErrorKind::Unsupported)));
    assert_eq!(pool.state(&h), SocketState::Idle);
    // the transport socket is still there for an IPv4 connect
    let req = pool.connect(&h, v4(203, 0, 113, 5, 8883)).unwrap();
    assert_eq!(req.socket, RawSocket(0));
}

#[test]
fn failed_transport_connect_stays_idle() {
    let mut pool = pool_of(1);
    let h = pool.socket().unwrap();
    let req = pool.connect(&h, v4(203, 0, 113, 5, 8883)).unwrap();
    let r = pool.opened(&h, req.socket, Err(IoError::SocketClosed));
    assert!(matches!(r, Err(ErrorKind::ConnectionClosed)));
    assert_eq!(pool.state(&h), SocketState::Idle);
    let req = pool.connect(&h, v4(203, 0, 113, 5, 8883)).unwrap();
    assert_eq!(req.socket, RawSocket(0));
}

#[test]
fn no_transfer_before_connect() {
    let mut pool = pool_of(2);
    let h = pool.socket().unwrap();
    assert_eq!(send(&mut pool, &h, b"PING"), Err(ErrorKind::NotConnected));
    assert_eq!(receive(&mut pool, &h, &mut [0u8; 8]), Err(ErrorKind::NotConnected));
    let req = pool.connect(&h, v4(203, 0, 113, 5, 8883)).unwrap();
    assert_eq!(send(&mut pool, &h, b"PING"), Err(ErrorKind::NotConnected));
    pool.opened(&h, req.socket, Ok(())).unwrap();
    assert_eq!(send(&mut pool, &h, b"PING"), Err(ErrorKind::NotConnected));
}

#[test]
fn transfer_after_connect_goes_through_session() {
    let mut pool = pool_of(2);
    let _first = pool.socket().unwrap();
    let h = pool.socket().unwrap();
    assert_eq!(connect_ok(&mut pool, &h, v4(203, 0, 113, 5, 8883)), Ok(()));
    assert!(pool.is_connected(&h));
    assert_eq!(receive(&mut pool, &h, &mut [0u8; 8]), Err(ErrorKind::WouldBlock));
    pool.session_mut(&h).unwrap().inbox.extend_from_slice(b"PONG!");
    let mut buf = [0u8; 4];
    assert_eq!(receive(&mut pool, &h, &mut buf), Ok(4));
    assert_eq!(&buf, b"PONG");
    assert_eq!(send(&mut pool, &h, b"ab"), Ok(2));
    assert_eq!(pool.session_mut(&h).unwrap().sent, b"ab".to_vec());
    assert_eq!(pool.session_mut(&h).unwrap().over, 1);
}

#[test]
fn close_twice_is_harmless() {
    let mut pool = pool_of(1);
    let h = pool.socket().unwrap();
    assert_eq!(connect_ok(&mut pool, &h, v4(203, 0, 113, 5, 8883)), Ok(()));
    assert!(pool.close(h, Some(RawSocket(8))).session.is_some());
    assert!(!pool.in_use(&h));
    let second = pool.close(h, None);
    assert!(second.session.is_none() && second.transport.is_none());
    assert!(!pool.in_use(&h));
    assert_eq!(pool.state(&h), SocketState::Idle);
    assert_eq!(pool.socket(), Ok(h));
    assert_eq!(pool.connect(&h, v4(203, 0, 113, 5, 8883)).unwrap().socket, RawSocket(8));
}

#[test]
fn identity_is_kept() {
    let mut pool = pool_of(1);
    let h = pool.socket().unwrap();
    assert_eq!(pool.server_name(&h), "broker.example");
    assert_eq!(*pool.certificates(&h), "ca-bundle");
    assert_eq!(connect_ok(&mut pool, &h, v4(203, 0, 113, 5, 8883)), Ok(()));
    pool.close(h, Some(RawSocket(3)));
    assert_eq!(pool.server_name(&h), "broker.example");
}

#[test]
fn wrapped_socket_cycle() {
    let mut s: WrappedSocket<RawSocket, Session, ()> = WrappedSocket::new(RawSocket(5), "peer", ());
    assert_eq!(s.state(), SocketState::Idle);
    assert!(s.session_mut().is_err());
    let req = s.open([1, 2, 3, 4], 80);
    assert_eq!(req.socket, RawSocket(5));
    let hs = s.opened(req.socket, Ok(())).unwrap();
    assert_eq!(hs.socket, RawSocket(5));
    assert_eq!(s.handshake_done(Ok(Session { over: 5, sent: vec![], inbox: vec![] })), Ok(()));
    assert!(s.is_connected());
    assert_eq!(s.close(Some(RawSocket(6))).session.map(|x| x.over), Some(5));
    assert_eq!(s.state(), SocketState::Idle);
    assert!(s.close(None).session.is_none());
    assert_eq!(s.open([1, 2, 3, 4], 80).socket, RawSocket(6));
    assert_eq!(s.server_name(), "peer");
}

#[test]
fn ipv6_connect_on_secured_socket_is_unsupported() {
    let mut pool = pool_of(1);
    let h = pool.socket().unwrap();
    assert_eq!(connect_ok(&mut pool, &h, v4(203, 0, 113, 5, 8883)), Ok(()));
    let remote = SocketAddr::new(IpAddr::V6([0xfe80, 0, 0, 0, 0, 0, 0, 1]), 8883);
    assert!(matches!(pool.connect(&h, remote), Err(ErrorKind::Unsupported)));
    assert_eq!(pool.state(&h), SocketState::Secured);
    assert_eq!(send(&mut pool, &h, b"ok"), Ok(2));
}
