//! A fixed pool of secured sockets behind opaque handles.
use vstd::prelude::*;
use crate::address::{IpAddr, SocketAddr};
use crate::error::{handshake_error_kind, io_error_kind, ErrorKind, IoError, SessionError};
use crate::socket::{
    close_needs_transport, closed_link, released_session, state_of, unused_transport, HandshakeRequest, Link, OpenRequest,
    Released, SocketState, WrappedSocket,
};

verus! {

/// Names one socket of a pool: its index there.
#[derive(Debug, Clone, Copy, PartialEq, Eq, Structural)]
pub struct SocketHandle {
    handle: usize,
}

impl View for SocketHandle {
    type V = usize;

    closed spec fn view(&self) -> usize {
        self.handle
    }
}

impl SocketHandle {
    pub fn index(&self) -> (i: usize)
        ensures
            i == self@,
    {
        self.handle
    }
}

/// The index that an acquire result carries, if any.
pub open spec fn handle_index(r: Result<SocketHandle, ErrorKind>) -> Result<usize, ErrorKind> {
    match r {
        Ok(h) => Ok(h@),
        Err(e) => Err(e),
    }
}

/// An acquire on the in-use marks `before`: the first free slot becomes used
/// and its index is the result; with no free slot, `Exhausted` and no change.
pub open spec fn acquire_step(before: Seq<bool>, after: Seq<bool>, r: Result<usize, ErrorKind>) -> bool {
    match r {
        Ok(i) => {
            &&& i < before.len()
            &&& !before[i as int]
            &&& forall|j: int| 0 <= j < i ==> #[trigger] before[j]
            &&& after == before.update(i as int, true)
        },
        Err(e) => {
            &&& e == ErrorKind::Exhausted
            &&& forall|j: int| 0 <= j < before.len() ==> #[trigger] before[j]
            &&& after == before
        },
    }
}

/// A release of slot `i` on the in-use marks `before`: it is free afterwards,
/// whether it was in use or not.
pub open spec fn release_step(before: Seq<bool>, after: Seq<bool>, i: usize) -> bool {
    &&& i < before.len()
    &&& after == before.update(i as int, false)
}

/// A pool of `N` secured sockets, `N` fixed when it is made, with an in-use
/// mark for each.
pub struct WifiTcpClientStack<R, S, C> {
    sockets: Vec<WrappedSocket<R, S, C>>,
    in_use: Vec<bool>,
}

impl<R, S, C> WifiTcpClientStack<R, S, C> {
    /// The sockets, by index.
    pub closed spec fn slots(&self) -> Seq<WrappedSocket<R, S, C>> {
        self.sockets@
    }

    /// The in-use marks, by index.
    pub closed spec fn used(&self) -> Seq<bool> {
        self.in_use@
    }

    /// One mark per socket, and every free socket is idle.
    pub closed spec fn wf(&self) -> bool {
        &&& self.sockets@.len() == self.in_use@.len()
        &&& forall|i: int| 0 <= i < self.in_use@.len() && !#[trigger] self.in_use@[i] ==> self.sockets@[i].link() is Idle
    }

    /// The number of sockets.
    pub open spec fn capacity(&self) -> nat {
        self.used().len()
    }

    /// `h` names a socket of this pool that is in use.
    pub open spec fn valid(&self, h: SocketHandle) -> bool {
        h@ < self.capacity() && self.used()[h@ as int]
    }

    /// What well-formedness tells a caller: one socket per mark, and every
    /// free socket idle.
    pub proof fn lemma_wf(&self)
        requires
            self.wf(),
        ensures
            self.slots().len() == self.capacity(),
            forall|i: int| 0 <= i < self.capacity() && !#[trigger] self.used()[i] ==> self.slots()[i].link() is Idle,
    {
    }

    /// Slot `i` of `self` is `s`, and every other slot and every mark is as in `old`.
    pub open spec fn replaced(&self, old: &Self, i: int, s: WrappedSocket<R, S, C>) -> bool {
        &&& self.used() == old.used()
        &&& self.slots() == old.slots().update(i, s)
        &&& s.same_identity(&old.slots()[i])
    }

    /// Sends and receives on `h` go through its secured session.
    pub open spec fn may_transfer(&self, h: SocketHandle) -> bool {
        self.slots()[h@ as int].link() is Secured
    }

    /// `self` is what an acquire on `old` that returned `r` leaves.
    pub open spec fn after_acquire(&self, old: &Self, r: Result<SocketHandle, ErrorKind>) -> bool {
        &&& self.wf()
        &&& self.slots() == old.slots()
        &&& acquire_step(old.used(), self.used(), handle_index(r))
        &&& r matches Ok(h) ==> self.valid(h) && (self.slots()[h@ as int].link() is Idle)
    }

    /// `self` is what the end of the handshake of `h` on `old`, with `result`
    /// from the engine, leaves, and `r` is what it returned.
    pub open spec fn after_handshake(
        &self,
        old: &Self,
        h: SocketHandle,
        result: Result<S, SessionError>,
        r: Result<(), ErrorKind>,
    ) -> bool {
        &&& self.wf()
        &&& self.replaced(old, h@ as int, self.slots()[h@ as int])
        &&& match result {
            Ok(s) => r is Ok && self.slots()[h@ as int].link() == Link::<R, S>::Secured(s),
            Err(e) => {
                &&& r == Err::<(), ErrorKind>(handshake_error_kind(e))
                &&& self.slots()[h@ as int].link() is Failed
            },
        }
    }

    /// `self` is what closing `h` on `old`, with `transport` offered, leaves,
    /// and `released` is what it returned.
    pub open spec fn after_close(&self, old: &Self, h: SocketHandle, transport: Option<R>, released: Released<R, S>) -> bool {
        &&& self.wf()
        &&& release_step(old.used(), self.used(), h@)
        &&& released.session == released_session(old.slots()[h@ as int].link())
        &&& released.transport == unused_transport(old.slots()[h@ as int].link(), transport)
        &&& self.slots() == old.slots().update(h@ as int, self.slots()[h@ as int])
        &&& self.slots()[h@ as int].same_identity(&old.slots()[h@ as int])
        &&& self.slots()[h@ as int].link() == closed_link(old.slots()[h@ as int].link(), transport)
    }

    /// A pool of the given sockets, all idle and none in use.
    pub fn new(sockets: Vec<WrappedSocket<R, S, C>>) -> (p: Self)
        requires
            forall|i: int| 0 <= i < sockets@.len() ==> (#[trigger] sockets@[i]).link() is Idle,
        ensures
            p.wf(),
            p.slots() == sockets@,
            p.capacity() == sockets@.len(),
            forall|i: int| 0 <= i < p.capacity() ==> !#[trigger] p.used()[i],
    {
        let n = sockets.len();
        let mut in_use: Vec<bool> = Vec::new();
        let mut i: usize = 0;
        while i < n
            invariant
                n == sockets@.len(),
                i <= n,
                in_use@.len() == i,
                forall|j: int| 0 <= j < i ==> !#[trigger] in_use@[j],
            decreases n - i,
        {
            in_use.push(false);
            i += 1;
        }
        WifiTcpClientStack { sockets, in_use }
    }

    /// Acquires the first free socket, which is idle. Fails with `Exhausted`,
    /// changing nothing, when every socket is in use.
    pub fn socket(&mut self) -> (r: Result<SocketHandle, ErrorKind>)
        requires
            old(self).wf(),
        ensures
            final(self).after_acquire(old(self), r),
    {
        let n = self.in_use.len();
        let mut i: usize = 0;
        while i < n
            invariant
                old(self).wf(),
                self.sockets@ == old(self).sockets@,
                self.in_use@ == old(self).in_use@,
                n == self.in_use@.len(),
                i <= n,
                forall|j: int| 0 <= j < i ==> #[trigger] self.in_use@[j],
            decreases n - i,
        {
            if !self.in_use[i] {
                self.in_use.set(i, true);
                return Ok(SocketHandle { handle: i });
            }
            i += 1;
        }
        Err(ErrorKind::Exhausted)
    }

    /// Starts a connect of `h` to `remote`. An IPv6 address fails with
    /// `Unsupported` and touches nothing, whatever state `h` is in; an IPv4
    /// one, on an idle socket, hands out its transport socket for the
    /// transport connect.
    pub fn connect(&mut self, h: &SocketHandle, remote: SocketAddr) -> (r: Result<OpenRequest<R>, ErrorKind>)
        requires
            old(self).wf(),
            old(self).valid(*h),
            remote.ip is V4 ==> old(self).slots()[h@ as int].link() is Idle,
        ensures
            final(self).wf(),
            match remote.ip {
                IpAddr::V6(_) => r == Err::<OpenRequest<R>, ErrorKind>(ErrorKind::Unsupported) && *final(self) == *old(self),
                IpAddr::V4(octets) => {
                    &&& r matches Ok(req)
                    &&& req.socket == old(self).slots()[h@ as int].link()->Idle_0
                    &&& req.address == octets
                    &&& req.port == remote.port
                    &&& final(self).replaced(old(self), h@ as int, final(self).slots()[h@ as int])
                    &&& final(self).slots()[h@ as int].link() is Opening
                },
            },
    {
        match remote.ip {
            IpAddr::V6(_) => Err(ErrorKind::Unsupported),
            IpAddr::V4(octets) => {
                let socket = &mut self.sockets[h.handle];
                let req = socket.open(octets, remote.port);
                Ok(req)
            },
        }
    }

    /// Takes back the transport socket of `h` with the outcome of its connect;
    /// see [`WrappedSocket::opened`].
    pub fn opened(&mut self, h: &SocketHandle, socket: R, result: Result<(), IoError>) -> (r: Result<HandshakeRequest<R>, ErrorKind>)
        requires
            old(self).wf(),
            old(self).valid(*h),
            old(self).slots()[h@ as int].link() is Opening,
        ensures
            final(self).wf(),
            final(self).replaced(old(self), h@ as int, final(self).slots()[h@ as int]),
            match result {
                Ok(()) => {
                    &&& r matches Ok(req)
                    &&& req.socket == socket
                    &&& req.version == crate::socket::TlsVersion::Tls1_2
                    &&& final(self).slots()[h@ as int].link() is Handshaking
                },
                Err(e) => {
                    &&& r == Err::<HandshakeRequest<R>, ErrorKind>(io_error_kind(e))
                    &&& final(self).slots()[h@ as int].link() == Link::<R, S>::Idle(socket)
                },
            },
    {
        let slot = &mut self.sockets[h.handle];
        slot.opened(socket, result)
    }

    /// Takes the outcome of the handshake of `h`; see [`WrappedSocket::handshake_done`].
    pub fn handshake_done(&mut self, h: &SocketHandle, result: Result<S, SessionError>) -> (r: Result<(), ErrorKind>)
        requires
            old(self).wf(),
            old(self).valid(*h),
            old(self).slots()[h@ as int].link() is Handshaking,
        ensures
            final(self).after_handshake(old(self), *h, result, r),
    {
        let slot = &mut self.sockets[h.handle];
        slot.handshake_done(result)
    }

    /// The number of sockets, fixed when the pool was made.
    pub fn max_sockets(&self) -> (n: usize)
        requires
            self.wf(),
        ensures
            n == self.capacity(),
    {
        self.in_use.len()
    }

    pub fn in_use(&self, h: &SocketHandle) -> (b: bool)
        requires
            self.wf(),
            h@ < self.capacity(),
        ensures
            b == self.used()[h@ as int],
    {
        self.in_use[h.handle]
    }

    pub fn state(&self, h: &SocketHandle) -> (st: SocketState)
        requires
            self.wf(),
            h@ < self.capacity(),
        ensures
            st == state_of(self.slots()[h@ as int].link()),
    {
        self.sockets[h.handle].state()
    }

    pub fn is_connected(&self, h: &SocketHandle) -> (b: bool)
        requires
            self.wf(),
            self.valid(*h),
        ensures
            b == self.may_transfer(*h),
    {
        self.sockets[h.handle].is_connected()
    }

    /// The session that sends and receives on `h` go through; `NotConnected`,
    /// changing nothing, unless `h` is secured.
    pub fn session_mut(&mut self, h: &SocketHandle) -> (r: Result<&mut S, ErrorKind>)
        requires
            old(self).wf(),
            old(self).valid(*h),
        ensures
            old(self).may_transfer(*h) <==> r is Ok,
            r matches Ok(s) ==> {
                &&& *s == old(self).slots()[h@ as int].link()->Secured_0
                &&& final(self).wf()
                &&& final(self).replaced(old(self), h@ as int, final(self).slots()[h@ as int])
                &&& final(self).slots()[h@ as int].link() == Link::<R, S>::Secured(*final(s))
            },
            r is Err ==> {
                &&& r == Err::<&mut S, ErrorKind>(ErrorKind::NotConnected)
                &&& final(self).wf()
                &&& final(self).slots() == old(self).slots()
                &&& final(self).used() == old(self).used()
            },
    {
        let slot = &mut self.sockets[h.handle];
        slot.session_mut()
    }

    /// Closes the socket of `h` and frees it for the next acquire, whether it
    /// was in use or not: see [`WrappedSocket::close`]. The socket is idle
    /// afterwards, owning a transport socket; `transport` must be given when
    /// the socket no longer owns its own.
    pub fn close(&mut self, h: SocketHandle, transport: Option<R>) -> (released: Released<R, S>)
        requires
            old(self).wf(),
            h@ < old(self).capacity(),
            close_needs_transport(old(self).slots()[h@ as int].link()) ==> transport is Some,
        ensures
            final(self).after_close(old(self), h, transport, released),
    {
        let slot = &mut self.sockets[h.handle];
        let released = slot.close(transport);
        self.in_use.set(h.handle, false);
        released
    }

    /// Whether closing `h` needs a transport socket from the caller.
    pub fn close_needs_transport(&self, h: &SocketHandle) -> (b: bool)
        requires
            self.wf(),
            h@ < self.capacity(),
        ensures
            b == close_needs_transport(self.slots()[h@ as int].link()),
    {
        self.sockets[h.handle].state() != SocketState::Idle
    }

    pub fn server_name(&self, h: &SocketHandle) -> (r: &'static str)
        requires
            self.wf(),
            h@ < self.capacity(),
        ensures
            r@ == self.slots()[h@ as int].server_name_spec(),
    {
        self.sockets[h.handle].server_name()
    }

    pub fn certificates(&self, h: &SocketHandle) -> (r: &C)
        requires
            self.wf(),
            h@ < self.capacity(),
        ensures
            *r == self.slots()[h@ as int].certificates_spec(),
    {
        self.sockets[h.handle].certificates()
    }
}

} // verus!
