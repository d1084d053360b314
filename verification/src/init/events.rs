//! Dispatch of the PID 1 event loop.
//!
//! The loop polls its sources (signal fd, notify socket, one pidfd per
//! service) and performs what is decided here: which source an event came
//! from, what a signal asks for, and what a notify message asks for.
use crate::init::manager::TOKEN_PIDFD_BASE;
use crate::init::notify::{flag_set, main_pid_field, NotifyMessage};
use crate::init::signal::InitSignal;
use vstd::prelude::*;

verus! {

/// Event token of the signal source.
pub const TOKEN_SIGNAL: usize = 0;

/// Event token of the sd_notify socket.
pub const TOKEN_NOTIFY: usize = 1;

/// Event token reserved for the control socket.
pub const TOKEN_CONTROL: usize = 2;

/// Where a readiness event came from.
#[derive(Debug, Clone, Copy, PartialEq, Eq, Structural)]
pub enum EventSource {
    /// Signals are pending.
    Signal,
    /// Notify messages are pending.
    Notify,
    /// A pidfd became readable: a supervised process exited.
    Pidfd(usize),
}

/// The source of an event token: the signal and notify tokens are fixed,
/// every other token belongs to a pidfd.
pub open spec fn source_of(token: usize) -> EventSource {
    if token == TOKEN_SIGNAL {
        EventSource::Signal
    } else if token == TOKEN_NOTIFY {
        EventSource::Notify
    } else {
        EventSource::Pidfd(token)
    }
}

/// Classifies an event token.
pub fn event_source(token: usize) -> (r: EventSource)
    ensures
        r == source_of(token),
{
    if token == TOKEN_SIGNAL {
        EventSource::Signal
    } else if token == TOKEN_NOTIFY {
        EventSource::Notify
    } else {
        EventSource::Pidfd(token)
    }
}

/// What PID 1 does about a signal.
#[derive(Debug, Clone, Copy, PartialEq, Eq, Structural)]
pub enum SignalAction {
    /// Reap exited children not tracked by a pidfd.
    ReapZombies,
    /// Stop every service.
    StopAll,
    /// Read the service configuration again.
    ReloadConfig,
    /// Nothing.
    Ignore,
}

/// The action a signal asks for.
pub open spec fn action_for(sig: InitSignal) -> SignalAction {
    match sig {
        InitSignal::ChildExited => SignalAction::ReapZombies,
        InitSignal::Shutdown => SignalAction::StopAll,
        InitSignal::Reload => SignalAction::ReloadConfig,
        InitSignal::Other(_) => SignalAction::Ignore,
    }
}

/// A child's exit reaps zombies, a shutdown request stops every service, a
/// reload request reads the configuration again, and other signals are
/// ignored.
pub proof fn law_signal_actions(sig: InitSignal)
    ensures
        sig == InitSignal::ChildExited ==> action_for(sig) == SignalAction::ReapZombies,
        sig == InitSignal::Shutdown ==> action_for(sig) == SignalAction::StopAll,
        sig == InitSignal::Reload ==> action_for(sig) == SignalAction::ReloadConfig,
        sig is Other ==> action_for(sig) == SignalAction::Ignore,
        source_of(TOKEN_SIGNAL) == EventSource::Signal,
        source_of(TOKEN_NOTIFY) == EventSource::Notify,
{
}

/// Decides what to do about a signal.
pub fn signal_action(sig: InitSignal) -> (r: SignalAction)
    ensures
        r == action_for(sig),
{
    match sig {
        InitSignal::ChildExited => SignalAction::ReapZombies,
        InitSignal::Shutdown => SignalAction::StopAll,
        InitSignal::Reload => SignalAction::ReloadConfig,
        InitSignal::Other(_) => SignalAction::Ignore,
    }
}

/// What a notify message asks of the manager: the PID that reported
/// readiness and the PID that pinged its watchdog, each taken from the
/// `MAINPID` field.
pub struct NotifyActions {
    /// `READY=1` with a `MAINPID`: mark that process's service active.
    pub ready_pid: Option<i32>,
    /// `WATCHDOG=1` with a `MAINPID`: reset that process's watchdog.
    pub watchdog_pid: Option<i32>,
}

/// Decides what a notify message asks for.
pub fn notify_actions(msg: &NotifyMessage) -> (r: NotifyActions)
    ensures
        r.ready_pid == (if flag_set(msg.field_map(), "READY"@) {
            main_pid_field(msg.field_map())
        } else {
            None
        }),
        r.watchdog_pid == (if flag_set(msg.field_map(), "WATCHDOG"@) {
            main_pid_field(msg.field_map())
        } else {
            None
        }),
{
    let pid = msg.main_pid();
    let ready_pid = if msg.is_ready() {
        pid
    } else {
        None
    };
    let watchdog_pid = if msg.is_watchdog() {
        pid
    } else {
        None
    };
    NotifyActions { ready_pid, watchdog_pid }
}

/// Pidfd tokens never collide with the fixed tokens.
pub proof fn law_pidfd_tokens_are_pidfds(token: usize)
    requires
        token >= TOKEN_PIDFD_BASE,
    ensures
        source_of(token) == EventSource::Pidfd(token),
{
}

} // verus!
