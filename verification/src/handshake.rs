//! The security-context handshake, as an ordered run of requests.
//!
//! The handshake maps the listening socket to its identity in the display
//! server. Its requests have a fixed order with hard dependencies: the
//! context is created over the socket and the pipe's read end, the manager
//! is released once no further context will be created, the three identity
//! fields are set strictly before the commit, the per-call object is
//! destroyed after it, and one final round-trip makes sure the server has
//! processed everything before the caller treats setup as complete. A
//! [`Handshake`] value walks that order one request at a time and cannot
//! skip, repeat or reorder a step; it is consumed when the run is complete,
//! so a second run needs a second handshake.

use vstd::prelude::*;
use crate::descriptor::CloseDescriptor;
use crate::errors::StartupError;

verus! {

/// One request of the handshake, in the sense of the protocol extension.
#[derive(Debug, PartialEq, Eq, Structural, Clone, Copy)]
pub enum HandshakeRequest {
    /// Create the security-context object for the listening socket and the
    /// read end of the teardown pipe.
    CreateListener,
    /// Release the manager capability: no further context is created in
    /// this run.
    DestroyManager,
    /// Set the sandbox engine id on the context.
    SetSandboxEngine,
    /// Set the application id on the context.
    SetAppId,
    /// Set the instance id on the context.
    SetInstanceId,
    /// Commit the configured context; no request may follow on the object
    /// but its destruction.
    Commit,
    /// Destroy the per-call context object.
    DestroyContext,
    /// One synchronous round-trip, so the server has observed all of the
    /// above before setup counts as done.
    Roundtrip,
}

/// The number of requests in one handshake.
pub const REQUEST_COUNT: usize = 8;

/// The request issued at position `i` of the run.
pub open spec fn request_at(i: int) -> HandshakeRequest {
    if i == 0 {
        HandshakeRequest::CreateListener
    } else if i == 1 {
        HandshakeRequest::DestroyManager
    } else if i == 2 {
        HandshakeRequest::SetSandboxEngine
    } else if i == 3 {
        HandshakeRequest::SetAppId
    } else if i == 4 {
        HandshakeRequest::SetInstanceId
    } else if i == 5 {
        HandshakeRequest::Commit
    } else if i == 6 {
        HandshakeRequest::DestroyContext
    } else {
        HandshakeRequest::Roundtrip
    }
}

/// The full ordered run of requests of one handshake.
pub open spec fn request_order() -> Seq<HandshakeRequest> {
    Seq::new(REQUEST_COUNT as nat, |i: int| request_at(i))
}

/// One handshake in progress: a cursor over [`request_order`] that can only
/// move forward, one request at a time.
pub struct Handshake {
    issued: usize,
}

impl Handshake {
    /// How many requests have been issued so far.
    pub closed spec fn issued_spec(self) -> int {
        self.issued as int
    }

    /// The cursor never passes the end of the run.
    pub open spec fn wf(self) -> bool {
        0 <= self.issued_spec() <= REQUEST_COUNT
    }

    /// The requests issued so far: always a prefix of the fixed order.
    pub open spec fn issued_requests(self) -> Seq<HandshakeRequest> {
        request_order().take(self.issued_spec())
    }

    /// Whether every request of the run has been issued.
    pub open spec fn complete(self) -> bool {
        self.issued_spec() == REQUEST_COUNT
    }

    /// Start a handshake: nothing issued yet.
    pub fn begin() -> (h: Self)
        ensures
            h.wf(),
            h.issued_spec() == 0,
            h.issued_requests().len() == 0,
    {
        Handshake { issued: 0 }
    }

    /// The request to issue next, or `None` once the run is complete.
    pub fn next_request(&self) -> (r: Option<HandshakeRequest>)
        requires
            self.wf(),
        ensures
            !self.complete() ==> r == Some(request_at(self.issued_spec())),
            self.complete() ==> r is None,
    {
        match self.issued {
            0 => Some(HandshakeRequest::CreateListener),
            1 => Some(HandshakeRequest::DestroyManager),
            2 => Some(HandshakeRequest::SetSandboxEngine),
            3 => Some(HandshakeRequest::SetAppId),
            4 => Some(HandshakeRequest::SetInstanceId),
            5 => Some(HandshakeRequest::Commit),
            6 => Some(HandshakeRequest::DestroyContext),
            7 => Some(HandshakeRequest::Roundtrip),
            _ => None,
        }
    }

    /// Record that the next request has been issued: the cursor moves
    /// forward by exactly one.
    pub fn advance(&mut self)
        requires
            old(self).wf(),
            !old(self).complete(),
        ensures
            final(self).wf(),
            final(self).issued_spec() == old(self).issued_spec() + 1,
            final(self).issued_requests() == old(self).issued_requests().push(
                request_at(old(self).issued_spec()),
            ),
    {
        proof {
            assert(request_order().take(self.issued_spec() + 1) =~= request_order().take(
                self.issued_spec(),
            ).push(request_at(self.issued_spec())));
        }
        self.issued = self.issued + 1;
    }

    /// Whether the run is complete.
    pub fn is_complete(&self) -> (r: bool)
        requires
            self.wf(),
        ensures
            r == self.complete(),
    {
        self.issued == REQUEST_COUNT
    }
}

/// Seal a completed handshake: consume the run and take ownership of the
/// write end of its teardown pipe. The returned descriptor stays valid
/// until its owner releases it, and releasing it is the one voluntary way
/// to drop the tag.
pub fn finish_handshake(h: Handshake, pipe_write_fd: i32) -> (c: CloseDescriptor)
    requires
        h.wf(),
        h.complete(),
        pipe_write_fd >= 0,
    ensures
        c.wf(),
        c.fd_spec() == pipe_write_fd,
{
    CloseDescriptor::from_pipe(pipe_write_fd)
}

/// Where a handshake run broke off.
#[derive(Debug, PartialEq, Eq, Structural, Clone, Copy)]
pub enum HandshakeFailure {
    /// No connection to the display server could be established.
    ConnectionFailed,
    /// The server never advertised the security-context manager capability
    /// within one protocol round-trip.
    ManagerNotAdvertised,
    /// The private teardown pipe could not be created.
    PipeUnavailable,
    /// A request was rejected, or the final round-trip failed.
    Rejected,
}

/// Map where the handshake broke off to the error that ends the run.
pub fn handshake_error(failure: HandshakeFailure) -> (e: StartupError)
    ensures
        failure is ConnectionFailed <==> e is Connection,
        failure is ManagerNotAdvertised <==> e is CapabilityMissing,
        failure is PipeUnavailable || failure is Rejected <==> e is Protocol,
{
    match failure {
        HandshakeFailure::ConnectionFailed => StartupError::Connection,
        HandshakeFailure::ManagerNotAdvertised => StartupError::CapabilityMissing,
        HandshakeFailure::PipeUnavailable => StartupError::Protocol,
        HandshakeFailure::Rejected => StartupError::Protocol,
    }
}

/// The three configuration requests stand at fixed places of the run: in
/// the order engine, app id, instance id, each exactly once, all strictly
/// before the commit, and nothing but the object's destruction and the
/// final round-trip follows the commit.
pub proof fn lemma_configuration_precedes_commit()
    ensures
        request_order()[2] is SetSandboxEngine,
        request_order()[3] is SetAppId,
        request_order()[4] is SetInstanceId,
        request_order()[5] is Commit,
        forall|i: int| 0 <= i < request_order().len() && #[trigger] request_order()[i] is SetSandboxEngine ==> i == 2,
        forall|i: int| 0 <= i < request_order().len() && #[trigger] request_order()[i] is SetAppId ==> i == 3,
        forall|i: int| 0 <= i < request_order().len() && #[trigger] request_order()[i] is SetInstanceId ==> i == 4,
        forall|i: int| 0 <= i < request_order().len() && #[trigger] request_order()[i] is Commit ==> i == 5,
        forall|i: int| 5 < i < request_order().len() ==> (#[trigger] request_order()[i] is DestroyContext
            || request_order()[i] is Roundtrip),
{
}

/// Every handshake that has issued its commit had already issued the three
/// configuration requests, in order, before it.
pub proof fn lemma_commit_implies_configured(h: Handshake)
    requires
        h.wf(),
        exists|i: int| 0 <= i < h.issued_requests().len() && #[trigger] h.issued_requests()[i] is Commit,
    ensures
        h.issued_requests()[2] is SetSandboxEngine,
        h.issued_requests()[3] is SetAppId,
        h.issued_requests()[4] is SetInstanceId,
        h.issued_requests()[5] is Commit,
{
    let i = choose|i: int| 0 <= i < h.issued_requests().len() && #[trigger] h.issued_requests()[i] is Commit;
    assert(h.issued_requests()[i] == request_at(i));
    assert(i == 5);
}

} // verus!
