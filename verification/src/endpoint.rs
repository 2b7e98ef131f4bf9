//! The CAN endpoint: the open → bind → send → close protocol around the raw
//! socket, as a verified state machine. The caller performs the blocking OS
//! calls and feeds their raw results in; the endpoint decides what each
//! result means, which error a failing step surfaces, and which descriptor
//! the caller must still close — so that no descriptor leaks on any path.

use vstd::prelude::*;

use crate::addr::{AF_CAN, CanAddr};
use crate::error::CanError;
use crate::frame::CAN_FRAME_WIRE_SIZE;

verus! {

/// The lifecycle of the raw CAN socket.
#[derive(Clone, Copy, Debug, PartialEq, Eq, Structural)]
pub enum EndpointState {
    /// No socket has been opened yet.
    Unopened,
    /// The socket is open but not yet bound to an interface.
    Open,
    /// The socket is bound and ready to transmit.
    Bound,
    /// The socket has been released; terminal.
    Closed,
}

/// A failing step: the error to surface and, where a socket was already
/// open, the descriptor the caller must close before surfacing it.
#[derive(Clone, Copy, Debug, PartialEq, Eq)]
pub struct Failure {
    /// Which step failed.
    pub error: CanError,
    /// The descriptor still owed a close, if one was open.
    pub close_fd: Option<i32>,
}

/// Relies on nix::net::if_::if_nametoindex: resolves an interface name to
/// its kernel index. nix returns Ok only for a nonzero index and Err for
/// every failure, a name with an interior NUL byte included.
#[verifier::external_body]
fn if_index_of(name: &str) -> (r: Option<u32>)
    ensures
        r matches Some(i) ==> i >= 1,
{
    match nix::net::if_::if_nametoindex(name) {
        Ok(i) => Some(i),
        Err(_) => None,
    }
}

/// A one-shot transmitter over a raw CAN socket, owner of the descriptor's
/// lifecycle. State moves Unopened → Open → Bound → Closed and never back.
#[derive(Clone, Copy, Debug)]
pub struct Endpoint {
    /// Where in the protocol the endpoint stands.
    pub state: EndpointState,
    /// The socket descriptor; meaningful only while open or bound.
    pub fd: i32,
}

impl Endpoint {
    /// The descriptor is a real one exactly while the socket is open.
    pub open spec fn wf(self) -> bool {
        self.state is Open || self.state is Bound ==> self.fd >= 0
    }

    /// A failing step out of an open socket: the endpoint ends closed and
    /// the failure carries the error and the descriptor owed a close.
    pub open spec fn spec_fail_closing(pre: Endpoint, post: Endpoint, f: Failure, e: CanError) -> bool {
        &&& post.state is Closed
        &&& post.fd == pre.fd
        &&& f.error == e
        &&& f.close_fd == Some(pre.fd)
    }

    /// A fresh endpoint; nothing is open yet.
    pub fn new() -> (r: Endpoint)
        ensures
            r.state is Unopened,
            r.wf(),
    {
        Endpoint { state: EndpointState::Unopened, fd: -1 }
    }

    /// Record the result of the socket-open OS call. A negative descriptor
    /// is `SocketOpenFailed`; nothing was opened, so nothing is owed a
    /// close. Otherwise the endpoint owns the descriptor and is open.
    pub fn handle_open(&mut self, raw_fd: i32) -> (r: Result<(), CanError>)
        requires
            old(self).state is Unopened,
        ensures
            final(self).wf(),
            raw_fd < 0 ==> {
                &&& r == Err::<(), CanError>(CanError::SocketOpenFailed)
                &&& final(self).state is Closed
            },
            raw_fd >= 0 ==> {
                &&& r == Ok::<(), CanError>(())
                &&& final(self).state is Open
                &&& final(self).fd == raw_fd
            },
    {
        if raw_fd < 0 {
            self.state = EndpointState::Closed;
            Err(CanError::SocketOpenFailed)
        } else {
            self.state = EndpointState::Open;
            self.fd = raw_fd;
            Ok(())
        }
    }

    /// Resolve the interface name and build the address to bind to. A
    /// failed lookup is `InterfaceNotFound`: the endpoint closes and the
    /// failure carries the descriptor the caller must release. On success
    /// the endpoint is unchanged and the address carries AF_CAN and the
    /// nonzero index the kernel returned.
    pub fn resolve(&mut self, ifname: &str) -> (r: Result<CanAddr, Failure>)
        requires
            old(self).state is Open,
            old(self).wf(),
        ensures
            final(self).wf(),
            r matches Ok(addr) ==> {
                &&& *final(self) == *old(self)
                &&& addr.family == AF_CAN
                &&& addr.ifindex >= 1
            },
            r matches Err(f) ==> Self::spec_fail_closing(
                *old(self),
                *final(self),
                f,
                CanError::InterfaceNotFound,
            ),
    {
        match if_index_of(ifname) {
            Some(idx) => Ok(CanAddr::new(idx)),
            None => {
                self.state = EndpointState::Closed;
                Err(Failure { error: CanError::InterfaceNotFound, close_fd: Some(self.fd) })
            },
        }
    }

    /// Record the result of the bind OS call on the open socket. Any
    /// negative return is `BindFailed`: the endpoint closes and the failure
    /// carries the descriptor owed a close. Otherwise the socket is bound.
    pub fn handle_bind(&mut self, rval: i32) -> (r: Result<(), Failure>)
        requires
            old(self).state is Open,
            old(self).wf(),
        ensures
            final(self).wf(),
            rval >= 0 ==> {
                &&& r == Ok::<(), Failure>(())
                &&& final(self).state is Bound
                &&& final(self).fd == old(self).fd
            },
            rval < 0 ==> (r matches Err(f) && Self::spec_fail_closing(
                *old(self),
                *final(self),
                f,
                CanError::BindFailed,
            )),
    {
        if rval < 0 {
            self.state = EndpointState::Closed;
            Err(Failure { error: CanError::BindFailed, close_fd: Some(self.fd) })
        } else {
            self.state = EndpointState::Bound;
            Ok(())
        }
    }

    /// Record the result of the write OS call on the bound socket. Only a
    /// full 16-byte frame counts: a negative return or a partial write is
    /// `WriteFailed`, the endpoint closes, and the failure carries the
    /// descriptor owed a close. On success the socket stays bound.
    pub fn handle_write(&mut self, rval: i64) -> (r: Result<(), Failure>)
        requires
            old(self).state is Bound,
            old(self).wf(),
        ensures
            final(self).wf(),
            rval == CAN_FRAME_WIRE_SIZE ==> {
                &&& r == Ok::<(), Failure>(())
                &&& *final(self) == *old(self)
            },
            rval != CAN_FRAME_WIRE_SIZE ==> (r matches Err(f) && Self::spec_fail_closing(
                *old(self),
                *final(self),
                f,
                CanError::WriteFailed,
            )),
    {
        if rval == CAN_FRAME_WIRE_SIZE as i64 {
            Ok(())
        } else {
            self.state = EndpointState::Closed;
            Err(Failure { error: CanError::WriteFailed, close_fd: Some(self.fd) })
        }
    }

    /// Release the endpoint. From an open or bound state the returned
    /// descriptor must be closed by the caller; from any other state there
    /// is nothing to close. Idempotent once closed.
    pub fn close(&mut self) -> (r: Option<i32>)
        ensures
            final(self).state is Closed,
            final(self).fd == old(self).fd,
            old(self).state is Open || old(self).state is Bound ==> r == Some(old(self).fd),
            !(old(self).state is Open || old(self).state is Bound) ==> r is None,
    {
        let owed = match self.state {
            EndpointState::Open | EndpointState::Bound => Some(self.fd),
            _ => None,
        };
        self.state = EndpointState::Closed;
        owed
    }
}

/// No descriptor leaks: once a socket is open or bound, every failing step
/// leaves the endpoint closed and surfaces exactly the open descriptor for
/// the caller to release, whatever the error was.
pub proof fn lemma_no_descriptor_leak(pre: Endpoint, post: Endpoint, f: Failure, e: CanError)
    requires
        pre.state is Open || pre.state is Bound,
        Endpoint::spec_fail_closing(pre, post, f, e),
    ensures
        post.state is Closed,
        f.close_fd == Some(pre.fd),
{
}

} // verus!
