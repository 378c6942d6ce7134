//! The lifecycle guard: synchronous, signal-driven shutdown and reaping.
//!
//! The process blocks every asynchronously generated signal except the
//! seven synchronous fault signals, reads the pending ones from a
//! descriptor, and dispatches each through a small state machine: a
//! termination or interrupt request drains the loop, the reload request is
//! an unimplemented restart that currently drains too, a child-exit
//! notification reaps every already-terminated child without blocking, the
//! job-control stop signals are suppressed outright, and anything else is
//! logged and ignored. Signal numbers follow the Linux convention that the
//! binary around this library hands in.

use vstd::prelude::*;

verus! {

/// Hang-up: a reload request.
pub const SIGHUP: i32 = 1;

/// Keyboard interrupt: a termination request.
pub const SIGINT: i32 = 2;

/// Illegal instruction: a synchronous fault.
pub const SIGILL: i32 = 4;

/// Trace trap: a synchronous fault.
pub const SIGTRAP: i32 = 5;

/// Abort: a synchronous fault.
pub const SIGABRT: i32 = 6;

/// Bus error: a synchronous fault.
pub const SIGBUS: i32 = 7;

/// Floating-point exception: a synchronous fault.
pub const SIGFPE: i32 = 8;

/// Segmentation fault: a synchronous fault.
pub const SIGSEGV: i32 = 11;

/// Termination request.
pub const SIGTERM: i32 = 15;

/// A child process changed state.
pub const SIGCHLD: i32 = 17;

/// Terminal-generated stop.
pub const SIGTSTP: i32 = 20;

/// Background read from the controlling terminal.
pub const SIGTTIN: i32 = 21;

/// Background write to the controlling terminal.
pub const SIGTTOU: i32 = 22;

/// Bad system call: a synchronous fault.
pub const SIGSYS: i32 = 31;

/// The seven synchronous fault signals that stay deliverable, so that a
/// genuine fault still ends the process at once instead of queueing.
pub open spec fn fault_signal(signo: i32) -> bool {
    ||| signo == SIGFPE
    ||| signo == SIGILL
    ||| signo == SIGSEGV
    ||| signo == SIGBUS
    ||| signo == SIGABRT
    ||| signo == SIGTRAP
    ||| signo == SIGSYS
}

/// Whether a signal belongs in the process-wide mask: every signal is
/// blocked from asynchronous delivery except the seven fault signals.
pub fn signal_is_blocked(signo: i32) -> (r: bool)
    ensures
        r <==> !fault_signal(signo),
{
    !(signo == SIGFPE || signo == SIGILL || signo == SIGSEGV || signo == SIGBUS
        || signo == SIGABRT || signo == SIGTRAP || signo == SIGSYS)
}

/// What one delivered signal means to the guard.
#[derive(Debug, PartialEq, Eq, Structural, Clone, Copy)]
pub enum SignalEvent {
    /// Orderly shutdown was requested (terminate).
    Terminate,
    /// Orderly shutdown was requested (interrupt).
    Interrupt,
    /// A restart was requested (hang-up); not implemented, treated as
    /// shutdown for now.
    Reload,
    /// At least one child process terminated.
    ChildExited,
    /// Job control tried to stop the process; the field holds the signal
    /// number.
    StopRequested(i32),
    /// Any other deliverable signal; the field holds the signal number.
    Other(i32),
}

/// The meaning of a signal number to the guard.
pub open spec fn classify_spec(signo: i32) -> SignalEvent {
    if signo == SIGTERM {
        SignalEvent::Terminate
    } else if signo == SIGINT {
        SignalEvent::Interrupt
    } else if signo == SIGHUP {
        SignalEvent::Reload
    } else if signo == SIGCHLD {
        SignalEvent::ChildExited
    } else if signo == SIGTSTP || signo == SIGTTIN || signo == SIGTTOU {
        SignalEvent::StopRequested(signo)
    } else {
        SignalEvent::Other(signo)
    }
}

/// Read the meaning of a delivered signal number.
pub fn classify_signal(signo: i32) -> (e: SignalEvent)
    ensures
        e == classify_spec(signo),
{
    if signo == SIGTERM {
        SignalEvent::Terminate
    } else if signo == SIGINT {
        SignalEvent::Interrupt
    } else if signo == SIGHUP {
        SignalEvent::Reload
    } else if signo == SIGCHLD {
        SignalEvent::ChildExited
    } else if signo == SIGTSTP || signo == SIGTTIN || signo == SIGTTOU {
        SignalEvent::StopRequested(signo)
    } else {
        SignalEvent::Other(signo)
    }
}

/// The guard's state.
#[derive(Debug, PartialEq, Eq, Structural, Clone, Copy)]
pub enum GuardState {
    /// Waiting for the next pending signal: the daemon's idle state.
    Armed,
    /// A shutdown was accepted; the loop is left.
    Draining,
    /// Final logging done; the process unwinds and the close descriptor
    /// is released with it.
    Stopped,
}

/// What the loop does with one event.
#[derive(Debug, PartialEq, Eq, Structural, Clone, Copy)]
pub enum GuardAction {
    /// Leave the loop and shut down.
    Shutdown,
    /// Log the unimplemented restart intent, then leave the loop.
    ReloadShutdown,
    /// Reap every already-terminated child without blocking, then keep
    /// waiting.
    Reap,
    /// Refuse the stop: the process holds a resource another process
    /// depends on and must not be parked by terminal job control.
    SuppressStop,
    /// Log the unexpected signal and keep waiting.
    IgnoreUnexpected,
}

/// The dispatch of one event from the armed state: what is done, and the
/// state the guard is in afterwards. Only the three shutdown-like events
/// leave the armed state.
pub open spec fn dispatch_spec(e: SignalEvent) -> (GuardAction, GuardState) {
    match e {
        SignalEvent::Terminate => (GuardAction::Shutdown, GuardState::Draining),
        SignalEvent::Interrupt => (GuardAction::Shutdown, GuardState::Draining),
        SignalEvent::Reload => (GuardAction::ReloadShutdown, GuardState::Draining),
        SignalEvent::ChildExited => (GuardAction::Reap, GuardState::Armed),
        SignalEvent::StopRequested(_) => (GuardAction::SuppressStop, GuardState::Armed),
        SignalEvent::Other(_) => (GuardAction::IgnoreUnexpected, GuardState::Armed),
    }
}

/// The guard itself: the state machine the signal loop runs.
pub struct Guard {
    state: GuardState,
}

impl Guard {
    /// The guard's current state.
    pub closed spec fn state_spec(self) -> GuardState {
        self.state
    }

    /// Arm the guard; the mask and the signal-reading descriptor are in
    /// place when this is called.
    pub fn arm() -> (g: Self)
        ensures
            g.state_spec() is Armed,
    {
        Guard { state: GuardState::Armed }
    }

    /// Whether the loop keeps waiting for signals.
    pub fn armed(&self) -> (r: bool)
        ensures
            r <==> self.state_spec() is Armed,
    {
        match self.state {
            GuardState::Armed => true,
            GuardState::Draining => false,
            GuardState::Stopped => false,
        }
    }

    /// Dispatch one delivered signal.
    pub fn on_signal(&mut self, signo: i32) -> (a: GuardAction)
        requires
            old(self).state_spec() is Armed,
        ensures
            (a, final(self).state_spec()) == dispatch_spec(classify_spec(signo)),
    {
        match classify_signal(signo) {
            SignalEvent::Terminate => {
                self.state = GuardState::Draining;
                GuardAction::Shutdown
            },
            SignalEvent::Interrupt => {
                self.state = GuardState::Draining;
                GuardAction::Shutdown
            },
            SignalEvent::Reload => {
                self.state = GuardState::Draining;
                GuardAction::ReloadShutdown
            },
            SignalEvent::ChildExited => GuardAction::Reap,
            SignalEvent::StopRequested(_) => GuardAction::SuppressStop,
            SignalEvent::Other(_) => GuardAction::IgnoreUnexpected,
        }
    }

    /// End-of-stream on the signal-reading descriptor: treated as an
    /// implicit shutdown request.
    pub fn on_stream_end(&mut self)
        requires
            old(self).state_spec() is Armed,
        ensures
            final(self).state_spec() is Draining,
    {
        self.state = GuardState::Draining;
    }

    /// Final logging is done; the process unwinds, and dropping the close
    /// descriptor on the way out is what releases the tag.
    pub fn finish(&mut self)
        requires
            old(self).state_spec() is Draining,
        ensures
            final(self).state_spec() is Stopped,
    {
        self.state = GuardState::Stopped;
    }
}

/// One non-blocking wait for a terminated child, as the reap loop sees it.
#[derive(Debug, PartialEq, Eq, Structural, Clone, Copy)]
pub enum ReapOutcome {
    /// A terminated child was reaped; more may be pending.
    ChildReaped,
    /// Children remain but none has terminated; waiting would block.
    NoneReady,
    /// No child processes are left.
    NoChildren,
}

/// Whether the non-blocking reap loop makes another wait call: it repeats
/// exactly as long as each call reaped a child, so every already-terminated
/// child is collected and the loop never blocks on a running one.
pub fn continue_reaping(outcome: ReapOutcome) -> (r: bool)
    ensures
        r <==> outcome is ChildReaped,
{
    match outcome {
        ReapOutcome::ChildReaped => true,
        ReapOutcome::NoneReady => false,
        ReapOutcome::NoChildren => false,
    }
}

/// A termination or interrupt request, and only a shutdown-like request,
/// leaves the loop: the sole paths to orderly shutdown.
pub proof fn lemma_termination_exits(signo: i32)
    requires
        signo == SIGTERM || signo == SIGINT,
    ensures
        dispatch_spec(classify_spec(signo)) == (GuardAction::Shutdown, GuardState::Draining),
{
}

/// A child-exit notification reaps without leaving the armed state, so the
/// loop keeps waiting however many such notifications arrive.
pub proof fn lemma_child_exit_keeps_armed()
    ensures
        dispatch_spec(SignalEvent::ChildExited) == (GuardAction::Reap, GuardState::Armed),
{
}

/// A job-control stop signal leaves the process running and armed: a
/// termination request sent afterwards still shuts it down normally.
pub proof fn lemma_stop_then_terminate(stop_signo: i32, term_signo: i32)
    requires
        stop_signo == SIGTSTP || stop_signo == SIGTTIN || stop_signo == SIGTTOU,
        term_signo == SIGTERM || term_signo == SIGINT,
    ensures
        dispatch_spec(classify_spec(stop_signo)) == (
            GuardAction::SuppressStop,
            GuardState::Armed,
        ),
        dispatch_spec(classify_spec(term_signo)) == (GuardAction::Shutdown, GuardState::Draining),
{
}

} // verus!
