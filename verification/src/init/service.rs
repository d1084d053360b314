//! Service lifecycle states and the runtime record of a supervised service.
//!
//! ```text
//! Inactive → Activating → Active → Deactivating → Inactive | Failed
//!                                                       ↓
//!                                                  Restarting → Activating
//! ```
//!
//! Times are whole seconds on a monotonic clock that the caller reads.
use crate::init::config::ServiceConfig;
use crate::text::{push_str, signed_decimal, str_eq, i32_to_string, owned};
use vstd::prelude::*;

verus! {

/// Service lifecycle states.
#[derive(Debug, Clone, Copy, PartialEq, Eq, Structural)]
pub enum ServiceState {
    /// Not running, not scheduled.
    Inactive,
    /// Process spawned but readiness not yet confirmed.
    Activating,
    /// Process is running and confirmed ready.
    Active,
    /// Stop requested, waiting for the main process to exit.
    Deactivating,
    /// Process exited, waiting for `restart_sec` before restarting.
    Restarting,
    /// Exited with error and the restart policy says stop.
    Failed { exit_code: i32 },
}

/// How a state is shown in status output.
pub open spec fn state_text(s: ServiceState) -> Seq<char> {
    match s {
        ServiceState::Inactive => "inactive"@,
        ServiceState::Activating => "activating"@,
        ServiceState::Active => "active"@,
        ServiceState::Deactivating => "deactivating"@,
        ServiceState::Restarting => "restarting"@,
        ServiceState::Failed { exit_code } => "failed (exit "@ + signed_decimal(exit_code as int)
            + ")"@,
    }
}

impl ServiceState {
    /// The status text of a state (what `Display` prints).
    pub fn to_text(&self) -> (r: String)
        ensures
            r@ == state_text(*self),
    {
        match self {
            ServiceState::Inactive => owned("inactive"),
            ServiceState::Activating => owned("activating"),
            ServiceState::Active => owned("active"),
            ServiceState::Deactivating => owned("deactivating"),
            ServiceState::Restarting => owned("restarting"),
            ServiceState::Failed { exit_code } => {
                let mut s = owned("failed (exit ");
                let n = i32_to_string(*exit_code);
                push_str(&mut s, n.as_str());
                push_str(&mut s, ")");
                s
            },
        }
    }
}

/// Whether a restart policy asks for a restart after an exit with `exit_code`.
pub open spec fn restart_wanted(policy: Seq<char>, exit_code: i32) -> bool {
    if policy == "always"@ {
        true
    } else if policy == "on-failure"@ {
        exit_code != 0
    } else if policy == "on-abnormal"@ {
        exit_code > 128
    } else {
        false
    }
}

/// The documented restart policies: `always` restarts after every exit,
/// `on-failure` after a nonzero exit code, `on-abnormal` after an exit code
/// above 128 (death by signal), and `no` never.
pub proof fn law_restart_policies(exit_code: i32)
    ensures
        restart_wanted("always"@, exit_code),
        restart_wanted("on-failure"@, exit_code) <==> exit_code != 0,
        restart_wanted("on-abnormal"@, exit_code) <==> exit_code > 128,
        !restart_wanted("no"@, exit_code),
{
    reveal_strlit("always");
    reveal_strlit("on-failure");
    reveal_strlit("on-abnormal");
    reveal_strlit("no");
    assert("on-failure"@.len() != "always"@.len());
    assert("on-abnormal"@.len() != "always"@.len());
    assert("on-abnormal"@.len() != "on-failure"@.len());
    assert("no"@.len() != "always"@.len());
    assert("no"@.len() != "on-failure"@.len());
    assert("no"@.len() != "on-abnormal"@.len());
}

/// A supervised service: configuration plus runtime state.
pub struct ManagedService {
    /// Service name (key in services.toml).
    pub name: String,
    /// Parsed configuration.
    pub config: ServiceConfig,
    /// Current lifecycle state.
    pub state: ServiceState,
    /// PID of the main process, if running.
    pub pid: Option<i32>,
    /// Event token under which the process's pidfd is registered, if running.
    pub token: Option<usize>,
    /// When the service entered its current state.
    pub state_changed_at: u64,
    /// Consecutive restart count since last manual start or clean exit.
    pub restart_count: u32,
}

impl ManagedService {
    /// A service that has not run yet.
    pub fn new(name: String, config: ServiceConfig, now: u64) -> (r: Self)
        ensures
            r.name == name,
            r.config == config,
            r.state == ServiceState::Inactive,
            r.pid is None,
            r.token is None,
            r.state_changed_at == now,
            r.restart_count == 0,
    {
        ManagedService {
            name,
            config,
            state: ServiceState::Inactive,
            pid: None,
            token: None,
            state_changed_at: now,
            restart_count: 0,
        }
    }

    /// Moves to a new state, restarting the state clock.
    pub fn set_state(&mut self, new_state: ServiceState, now: u64)
        ensures
            *final(self) == (ManagedService {
                state: new_state,
                state_changed_at: now,
                ..*old(self)
            }),
    {
        self.state = new_state;
        self.state_changed_at = now;
    }

    /// Should this service restart given how it exited?
    pub fn should_restart(&self, exit_code: i32) -> (r: bool)
        ensures
            r == restart_wanted(self.config.restart@, exit_code),
    {
        let policy = self.config.restart.as_str();
        if str_eq(policy, "always") {
            true
        } else if str_eq(policy, "on-failure") {
            exit_code != 0
        } else if str_eq(policy, "on-abnormal") {
            exit_code > 128
        } else {
            false
        }
    }

    /// True if this service uses the sd_notify readiness protocol.
    pub fn is_notify_type(&self) -> (r: bool)
        ensures
            r == (self.config.service_type@ == "notify"@),
    {
        str_eq(self.config.service_type.as_str(), "notify")
    }

    /// True if this service runs once and exits.
    pub fn is_oneshot(&self) -> (r: bool)
        ensures
            r == (self.config.service_type@ == "oneshot"@),
    {
        str_eq(self.config.service_type.as_str(), "oneshot")
    }

    /// Seconds elapsed since entering the current state (zero if the clock
    /// reads earlier than the state change).
    pub fn state_age_secs(&self, now: u64) -> (r: u64)
        ensures
            r == (if now >= self.state_changed_at {
                now - self.state_changed_at
            } else {
                0
            }),
    {
        now.saturating_sub(self.state_changed_at)
    }

    /// Forgets the process after it exited: no PID, no token.
    pub fn clear_runtime(&mut self)
        ensures
            *final(self) == (ManagedService { pid: None, token: None, ..*old(self) }),
    {
        self.pid = None;
        self.token = None;
    }
}

} // verus!
