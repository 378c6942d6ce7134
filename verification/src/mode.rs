//! Selection of the descriptor source for a run.
//!
//! A run obtains its listening socket either from the supervisor's activation
//! environment or by binding a filesystem path; exactly one of the two must be
//! requested, and a conflicting or empty configuration is rejected before any
//! I/O is attempted.

use vstd::prelude::*;

verus! {

/// Where the listening socket of this run comes from.
#[derive(Debug)]
pub enum Mode {
    /// Receive one pre-opened descriptor from the supervising process.
    Activated,
    /// Bind a Unix-domain socket at the given filesystem path.
    PathBind(String),
}

/// Rejection of a configuration that names both sources or neither.
#[derive(Debug, PartialEq, Eq)]
pub enum ModeError {
    /// Socket activation was requested and a listen path was also given.
    BothSources,
    /// Neither socket activation nor a listen path was given.
    NoSource,
}

/// Decide the descriptor source from the two configuration inputs.
///
/// A run is accepted exactly when one source, and only one, was supplied;
/// both or neither is rejected here, before any I/O occurs.
pub fn select_mode(socket_activation: bool, listen: Option<String>) -> (r: Result<Mode, ModeError>)
    ensures
        r is Ok <==> (socket_activation != (listen is Some)),
        socket_activation && listen is None ==> (r matches Ok(m) && m is Activated),
        !socket_activation && listen is Some ==> (r matches Ok(m) && m matches Mode::PathBind(q)
            && q@ == listen->0@),
        socket_activation && listen is Some ==> r == Err::<Mode, ModeError>(ModeError::BothSources),
        !socket_activation && listen is None ==> r == Err::<Mode, ModeError>(ModeError::NoSource),
{
    match (socket_activation, listen) {
        (true, None) => Ok(Mode::Activated),
        (false, Some(path)) => Ok(Mode::PathBind(path)),
        (true, Some(_)) => Err(ModeError::BothSources),
        (false, None) => Err(ModeError::NoSource),
    }
}

} // verus!
