//! The descriptor source: how a run comes by its listening socket.
//!
//! The activation path consumes what the supervisor handed over and fills
//! missing identity fields from the descriptor's name. The path-bind route
//! decides, from what already sits at the target path, whether a stale
//! socket file must be removed first — a pre-existing entry that is not a
//! socket is never removed, so the later bind fails instead of destroying
//! user data.

use vstd::prelude::*;
use crate::descriptor::ListenSocket;
use crate::errors::{ActivationFailure, StartupError};
use crate::identity::{Identity, derived_ids, opt_chars};

verus! {

/// What a filesystem lookup found at the bind path.
#[derive(Debug, PartialEq, Eq, Structural, Clone, Copy)]
pub enum EntryKind {
    /// Nothing exists at the path.
    Missing,
    /// A socket file exists at the path.
    SocketFile,
    /// Something exists at the path and it is not a socket.
    OtherFile,
}

/// Decide whether the entry at the bind path is removed before binding.
///
/// Only a stale socket file is removed; anything else at the path is left
/// untouched, and the bind is attempted anyway so that it fails loudly
/// rather than silently deleting data that is not ours.
pub fn plan_bind(entry: EntryKind) -> (remove_first: bool)
    ensures
        remove_first <==> entry is SocketFile,
{
    match entry {
        EntryKind::SocketFile => true,
        EntryKind::Missing => false,
        EntryKind::OtherFile => false,
    }
}

/// Whether a path string is absolute. A relative path is placed under the
/// runtime directory by an external collaborator before binding.
pub fn is_absolute_path(path: &str) -> (r: bool)
    ensures
        r <==> path@.len() > 0 && path@[0] == '/',
{
    if path.unicode_len() == 0 {
        return false;
    }
    path.get_char(0) == '/'
}

/// The path the bind targets.
///
/// An absolute path is bound exactly as given. A relative one is replaced
/// by the location that the runtime-directory collaborator placed for it,
/// handed in as `runtime_placed`; where that collaborator produced nothing,
/// there is no target and the bind fails.
pub fn bind_target(path: String, runtime_placed: Option<String>) -> (r: Option<String>)
    ensures
        path@.len() > 0 && path@[0] == '/' ==> (r matches Some(t) && t@ == path@),
        !(path@.len() > 0 && path@[0] == '/') ==> r == runtime_placed,
{
    if is_absolute_path(path.as_str()) {
        Some(path)
    } else {
        runtime_placed
    }
}

/// Turn the outcome of the bind-and-listen attempt into the owned socket.
///
/// `bound_fd` is the descriptor the attempt produced, or `None` where any
/// filesystem or socket-creation step failed; exactly that case is the
/// bind error.
pub fn bound_socket(bound_fd: Option<i32>) -> (r: Result<ListenSocket, StartupError>)
    requires
        bound_fd matches Some(fd) ==> fd >= 0,
    ensures
        r is Ok <==> bound_fd is Some,
        r matches Ok(s) ==> {
            &&& s.wf()
            &&& s.fd_spec() == bound_fd->0
            &&& s.origin_spec() is Bound
        },
        r matches Err(e) ==> e is Bind,
{
    match bound_fd {
        Some(fd) => Ok(ListenSocket::from_bind(fd)),
        None => Err(StartupError::Bind),
    }
}

/// Consume what the activation environment offered and produce the socket
/// with its identity.
///
/// `received` is the at-most-one `(descriptor, name)` pair taken from the
/// supervisor, which must already have unset its own record of the
/// descriptor. Fails when no descriptor was offered, or when an identity
/// field is absent and the name gives no default — and in no other case.
pub fn activated_source(
    received: Option<(i32, String)>,
    sandbox_engine: String,
    app_id: Option<String>,
    instance_id: Option<String>,
) -> (r: Result<(ListenSocket, Identity), StartupError>)
    requires
        received matches Some(p) ==> p.0 >= 0,
    ensures
        received is None ==> r == Err::<(ListenSocket, Identity), StartupError>(
            StartupError::Activation(ActivationFailure::NoDescriptor),
        ),
        received matches Some(p) ==> {
            &&& r is Ok <==> derived_ids(opt_chars(app_id), opt_chars(instance_id), p.1@) is Some
            &&& (r matches Ok(out) ==> {
                &&& out.0.wf()
                &&& out.0.fd_spec() == p.0
                &&& out.0.origin_spec() is Inherited
                &&& out.1.sandbox_engine@ == sandbox_engine@
                &&& Some((out.1.app_id@, out.1.instance_id@)) == derived_ids(
                    opt_chars(app_id),
                    opt_chars(instance_id),
                    p.1@,
                )
            })
            &&& (r matches Err(e) ==> e == StartupError::Activation(
                ActivationFailure::IdentityUnderivable,
            ))
        },
{
    match received {
        None => Err(StartupError::Activation(ActivationFailure::NoDescriptor)),
        Some((fd, unit_name)) => {
            match crate::identity::derive_identity(
                sandbox_engine,
                app_id,
                instance_id,
                unit_name.as_str(),
            ) {
                Some(identity) => Ok((ListenSocket::from_activation(fd), identity)),
                None => Err(StartupError::Activation(ActivationFailure::IdentityUnderivable)),
            }
        },
    }
}

} // verus!
