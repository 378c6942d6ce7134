//! The failure kinds of a run.
//!
//! Every failure here is unrecoverable at the point of detection: there is
//! no retry anywhere in this daemon, by design. A misconfigured socket or a
//! display server without the needed extension cannot be waited out, so each
//! of these ends the process with one descriptive message.

use vstd::prelude::*;

verus! {

/// Why the activation path produced no socket.
#[derive(Debug, PartialEq, Eq, Structural, Clone, Copy)]
pub enum ActivationFailure {
    /// The supervisor's activation environment offered no descriptor.
    NoDescriptor,
    /// An identity field was absent and the unit name gave no default.
    IdentityUnderivable,
}

/// An unrecoverable startup failure.
#[derive(Debug, PartialEq, Eq, Structural, Clone, Copy)]
pub enum StartupError {
    /// No usable inherited descriptor, or the identity cannot be derived.
    Activation(ActivationFailure),
    /// Filesystem or socket creation failure while binding the path.
    Bind,
    /// The display server cannot be reached.
    Connection,
    /// The display server lacks the security-context extension.
    CapabilityMissing,
    /// A request of the handshake was rejected or could not be made.
    Protocol,
    /// The signal mask or the signal-reading descriptor cannot be set up.
    SignalSetup,
}

impl StartupError {
    /// The one descriptive message printed before the process exits.
    pub fn describe(&self) -> (r: &'static str)
        ensures
            self is Activation && self->0 is NoDescriptor ==> r@ == "no socket descriptor in the activation environment"@,
            self is Activation && self->0 is IdentityUnderivable ==> r@ == "missing app id or instance id, and the socket name gives no default"@,
            self is Bind ==> r@ == "failed to bind the listening socket"@,
            self is Connection ==> r@ == "failed to connect to the display server"@,
            self is CapabilityMissing ==> r@ == "display server does not offer the security context extension"@,
            self is Protocol ==> r@ == "display server rejected the security context handshake"@,
            self is SignalSetup ==> r@ == "failed to set up synchronous signal handling"@,
    {
        match self {
            StartupError::Activation(ActivationFailure::NoDescriptor) => "no socket descriptor in the activation environment",
            StartupError::Activation(ActivationFailure::IdentityUnderivable) => "missing app id or instance id, and the socket name gives no default",
            StartupError::Bind => "failed to bind the listening socket",
            StartupError::Connection => "failed to connect to the display server",
            StartupError::CapabilityMissing => "display server does not offer the security context extension",
            StartupError::Protocol => "display server rejected the security context handshake",
            StartupError::SignalSetup => "failed to set up synchronous signal handling",
        }
    }
}

} // verus!
