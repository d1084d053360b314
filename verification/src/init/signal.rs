//! Signals received by PID 1, by meaning.
//!
//! The signal source itself (signalfd via `signal-hook-mio`) belongs to the
//! event loop; it reports raw signal numbers, which are classified here
//! against the numbers of the platform.
use vstd::prelude::*;

verus! {

/// Which signal was received.
#[derive(Debug, Clone, Copy, PartialEq, Eq, Structural)]
pub enum InitSignal {
    /// A child process exited; reap zombies not tracked by pidfd.
    ChildExited,
    /// Graceful shutdown requested (SIGTERM or SIGINT).
    Shutdown,
    /// Reload configuration (SIGHUP).
    Reload,
    /// Some other signal.
    Other(i32),
}

/// The platform's numbers of the signals PID 1 handles.
#[derive(Debug, Clone, Copy)]
pub struct SignalNumbers {
    /// SIGCHLD.
    pub chld: i32,
    /// SIGTERM.
    pub term: i32,
    /// SIGINT.
    pub int: i32,
    /// SIGHUP.
    pub hup: i32,
}

/// The meaning of signal `sig`.
pub open spec fn classify_spec(sig: i32, n: SignalNumbers) -> InitSignal {
    if sig == n.chld {
        InitSignal::ChildExited
    } else if sig == n.term || sig == n.int {
        InitSignal::Shutdown
    } else if sig == n.hup {
        InitSignal::Reload
    } else {
        InitSignal::Other(sig)
    }
}

/// SIGCHLD means a child exited, SIGTERM and SIGINT ask for shutdown, SIGHUP
/// for a reload, and any other number is passed on unchanged as `Other`
/// (when the platform's numbers are distinct).
pub proof fn law_signal_meanings(sig: i32, n: SignalNumbers)
    requires
        n.chld != n.term && n.chld != n.int && n.chld != n.hup && n.term != n.hup && n.int
            != n.hup,
    ensures
        sig == n.chld ==> classify_spec(sig, n) == InitSignal::ChildExited,
        sig == n.term || sig == n.int ==> classify_spec(sig, n) == InitSignal::Shutdown,
        sig == n.hup ==> classify_spec(sig, n) == InitSignal::Reload,
        sig != n.chld && sig != n.term && sig != n.int && sig != n.hup ==> classify_spec(sig, n)
            == InitSignal::Other(sig),
{
}

impl InitSignal {
    /// Classifies a raw signal number.
    pub fn classify(sig: i32, numbers: &SignalNumbers) -> (r: InitSignal)
        ensures
            r == classify_spec(sig, *numbers),
    {
        if sig == numbers.chld {
            InitSignal::ChildExited
        } else if sig == numbers.term || sig == numbers.int {
            InitSignal::Shutdown
        } else if sig == numbers.hup {
            InitSignal::Reload
        } else {
            InitSignal::Other(sig)
        }
    }
}

} // verus!
