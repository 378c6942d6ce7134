//! Ownership of the two descriptors the daemon lives on.
//!
//! Each descriptor number is wrapped in a type that is built only by
//! consuming the raw value and gives it back only by consuming the wrapper,
//! so that exactly one owner holds a live descriptor at any time: no copy,
//! no clone, one construction, one extraction.

use vstd::prelude::*;

verus! {

/// How a listening socket was obtained: the two ways exclude each other
/// for one socket.
#[derive(Debug)]
pub enum SocketOrigin {
    /// Received from a supervisor that gave up its own record of it.
    Inherited,
    /// Bound and set listening by this process.
    Bound,
}

/// A bound, listening Unix-domain socket descriptor.
///
/// Holds the raw descriptor number; the wrapper is neither `Copy` nor
/// `Clone`, so the number cannot end up with two owners through this type.
pub struct ListenSocket {
    fd: i32,
    origin: Ghost<SocketOrigin>,
}

impl ListenSocket {
    /// The descriptor number held.
    pub closed spec fn fd_spec(self) -> int {
        self.fd as int
    }

    /// How the socket was obtained.
    pub closed spec fn origin_spec(self) -> SocketOrigin {
        self.origin@
    }

    /// A descriptor number is non-negative.
    pub closed spec fn wf(self) -> bool {
        self.fd >= 0
    }

    /// Take ownership of a descriptor inherited from the supervisor. The
    /// supervisor must already have unset its own record of it.
    pub fn from_activation(fd: i32) -> (s: Self)
        requires
            fd >= 0,
        ensures
            s.wf(),
            s.fd_spec() == fd,
            s.origin_spec() is Inherited,
    {
        ListenSocket { fd, origin: Ghost(SocketOrigin::Inherited) }
    }

    /// Take ownership of a descriptor this process bound itself.
    pub fn from_bind(fd: i32) -> (s: Self)
        requires
            fd >= 0,
        ensures
            s.wf(),
            s.fd_spec() == fd,
            s.origin_spec() is Bound,
    {
        ListenSocket { fd, origin: Ghost(SocketOrigin::Bound) }
    }

    /// Read the descriptor number without giving up ownership.
    pub fn raw_fd(&self) -> (r: i32)
        ensures
            r == self.fd_spec(),
    {
        self.fd
    }

    /// Give the descriptor back, consuming the wrapper: after this call the
    /// number has exactly one owner again, the caller.
    pub fn into_raw_fd(self) -> (r: i32)
        ensures
            r == self.fd_spec(),
    {
        self.fd
    }
}

/// The write end of the pipe created for one handshake.
///
/// The display server watches the read end and treats its end-of-stream as
/// the request to drop the security-context tag, so this descriptor must be
/// held open for as long as the tag is to stay valid; releasing it is the
/// sole voluntary teardown. As with [`ListenSocket`], the wrapper is neither
/// `Copy` nor `Clone`: the descriptor is closed at most once, by whoever
/// consumed the wrapper.
#[derive(Debug)]
pub struct CloseDescriptor {
    fd: i32,
}

impl CloseDescriptor {
    /// The descriptor number held.
    pub closed spec fn fd_spec(self) -> int {
        self.fd as int
    }

    /// A descriptor number is non-negative.
    pub closed spec fn wf(self) -> bool {
        self.fd >= 0
    }

    /// Wrap the write end of a freshly created pipe. Only the handshake
    /// builds one, so every value of this type came out of a handshake.
    pub(crate) fn from_pipe(fd: i32) -> (c: Self)
        requires
            fd >= 0,
        ensures
            c.wf(),
            c.fd_spec() == fd,
    {
        CloseDescriptor { fd }
    }

    /// Read the descriptor number without giving up ownership.
    pub fn raw_fd(&self) -> (r: i32)
        ensures
            r == self.fd_spec(),
    {
        self.fd
    }

    /// Give the descriptor back for closing, consuming the wrapper.
    pub fn into_raw_fd(self) -> (r: i32)
        ensures
            r == self.fd_spec(),
    {
        self.fd
    }
}

} // verus!
