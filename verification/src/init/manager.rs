//! Service manager: the decisions of PID 1 about its supervised services.
//!
//! The event loop performs the process work (fork/exec, pidfd registration,
//! `waitpid`, signals) and reports back here; every state transition,
//! restart decision and token assignment is made and proved in this module.
use crate::init::config::{CgroupConfig, ServiceConfig, ServicesConfig};
use crate::init::service::{ManagedService, ServiceState, restart_wanted};
use crate::keyed::{
    find_entry,
    lemma_table_at,
    lemma_table_dom,
    lemma_table_index,
    lemma_table_update,
    names_unique,
    table_map,
    upsert,
};
use crate::text::{chars_of, owned};
use std::collections::HashMap;
use vstd::prelude::*;

verus! {

broadcast use vstd::std_specs::hash::group_hash_axioms;

/// Event tokens for pidfds start here; lower tokens are reserved for the
/// signal source, the notify socket and the control socket.
pub const TOKEN_PIDFD_BASE: usize = 1000;

// ---------------------------------------------------------------------------
// Types
// ---------------------------------------------------------------------------

/// Why the manager refused a request.
#[derive(Debug, Clone, Copy, PartialEq, Eq, Structural)]
pub enum ManagerError {
    /// No service of that name is declared.
    UnknownService,
    /// The executable or an argument holds a NUL character.
    InvalidCommand,
}

/// What the event loop must do to launch a service.
pub struct SpawnPlan {
    /// Program to execute.
    pub program: String,
    /// Argument vector: the program followed by the configured arguments.
    pub argv: Vec<String>,
    /// Environment variables to set in the child (pairs holding a NUL are dropped).
    pub env: Vec<(String, String)>,
    /// Working directory for the child.
    pub workdir: Option<String>,
    /// cgroup limits for the service's scope.
    pub cgroup: CgroupConfig,
}

/// The outcome of asking to start a service.
pub enum StartStep {
    /// The service is already running or starting; nothing to do.
    AlreadyRunning,
    /// The service is now activating; spawn it as planned.
    Spawn(SpawnPlan),
}

/// Status snapshot of a service for `nexisctl`.
#[derive(Debug)]
pub struct ServiceStatus {
    /// Service name.
    pub name: String,
    /// State text.
    pub state: String,
    /// Main PID, if running.
    pub pid: Option<i32>,
    /// Consecutive restarts.
    pub restart_count: u32,
    /// Description from the configuration.
    pub description: Option<String>,
}

/// The service manager.
pub struct ServiceManager {
    services: Vec<(String, ManagedService)>,
    token_map: HashMap<usize, String>,
    next_token: usize,
}

// ---------------------------------------------------------------------------
// Specifications
// ---------------------------------------------------------------------------

/// `s` holds a NUL character (such a string cannot be passed to `exec`).
pub open spec fn has_nul(s: Seq<char>) -> bool {
    exists|i: int| 0 <= i < s.len() && s[i] == '\0'
}

/// The command line of a configuration cannot be passed to `exec`.
pub open spec fn command_has_nul(c: ServiceConfig) -> bool {
    has_nul(c.executable@) || exists|i: int| 0 <= i < c.args@.len() && has_nul(#[trigger] c.args@[i]@)
}

/// The environment pairs that can be passed to a child, in order.
pub open spec fn env_kept(s: Seq<(String, String)>) -> Seq<(Seq<char>, Seq<char>)>
    decreases s.len(),
{
    if s.len() == 0 {
        seq![]
    } else if !has_nul(s.last().0@) && !has_nul(s.last().1@) {
        env_kept(s.drop_last()).push((s.last().0@, s.last().1@))
    } else {
        env_kept(s.drop_last())
    }
}

/// A spawn plan carries out a configuration.
pub open spec fn plan_for(p: SpawnPlan, c: ServiceConfig) -> bool {
    &&& p.program@ == c.executable@
    &&& p.argv@.len() == c.args@.len() + 1
    &&& p.argv@[0]@ == c.executable@
    &&& forall|i: int| 0 <= i < c.args@.len() ==> #[trigger] p.argv@[i + 1]@ == c.args@[i]@
    &&& p.env@.len() == env_kept(c.env@).len()
    &&& forall|i: int|
        0 <= i < p.env@.len() ==> (#[trigger] p.env@[i]).0@ == env_kept(c.env@)[i].0
            && p.env@[i].1@ == env_kept(c.env@)[i].1
    &&& p.workdir == c.workdir
    &&& p.cgroup == c.cgroup
}

/// A service with its state replaced at time `now`.
pub open spec fn with_state(s: ManagedService, st: ServiceState, now: u64) -> ManagedService {
    ManagedService { state: st, state_changed_at: now, ..s }
}

/// A service record after its process exited with `exit_code` at `now`.
pub open spec fn after_exit(s: ManagedService, exit_code: i32, now: u64) -> ManagedService {
    let cleared = ManagedService { pid: None, token: None, ..s };
    if restart_wanted(s.config.restart@, exit_code) {
        ManagedService {
            restart_count: if s.restart_count < u32::MAX {
                (s.restart_count + 1) as u32
            } else {
                u32::MAX
            },
            ..with_state(cleared, ServiceState::Restarting, now)
        }
    } else if exit_code != 0 {
        with_state(cleared, ServiceState::Failed { exit_code }, now)
    } else {
        ManagedService { restart_count: 0, ..with_state(cleared, ServiceState::Inactive, now) }
    }
}

/// What an exit leads to: the process is forgotten; with a restart the
/// service waits in `Restarting` and counts one more restart (the count
/// stays at `u32::MAX` once it gets there); without one it
/// is `Failed` with the exit code when that is nonzero, else `Inactive` with
/// its restart count reset.
pub proof fn law_exit_outcome(s: ManagedService, exit_code: i32, now: u64)
    ensures
        ({
            let t = after_exit(s, exit_code, now);
            &&& t.pid is None
            &&& t.token is None
            &&& t.state_changed_at == now
            &&& t.name == s.name
            &&& t.config == s.config
            &&& restart_wanted(s.config.restart@, exit_code) ==> t.state == ServiceState::Restarting
                && t.restart_count == (if s.restart_count < u32::MAX {
                s.restart_count + 1
            } else {
                u32::MAX as int
            })
            &&& !restart_wanted(s.config.restart@, exit_code) && exit_code != 0 ==> t.state
                == ServiceState::Failed { exit_code } && t.restart_count == s.restart_count
            &&& !restart_wanted(s.config.restart@, exit_code) && exit_code == 0 ==> t.state
                == ServiceState::Inactive && t.restart_count == 0
        }),
{
}

/// A service record once its process `pid` runs under `token`: a notify
/// service stays `Activating` until it reports readiness, any other becomes
/// `Active` at `now`.
pub open spec fn started_record(s: ManagedService, pid: i32, token: usize, now: u64) -> ManagedService {
    let running = ManagedService { pid: Some(pid), token: Some(token), ..s };
    if s.config.service_type@ == "notify"@ {
        running
    } else {
        with_state(running, ServiceState::Active, now)
    }
}

/// What an exit event on `token` reports: the service registered under it
/// and its main PID (-1 when it has none); nothing for a token that is not
/// registered or whose service is gone.
pub open spec fn exit_report(
    services: Map<Seq<char>, ManagedService>,
    tokens: Map<usize, Seq<char>>,
    token: usize,
) -> Option<(Seq<char>, i32)> {
    if tokens.contains_key(token) && services.contains_key(tokens[token]) {
        Some(
            (
                tokens[token],
                match services[tokens[token]].pid {
                    Some(p) => p,
                    None => -1i32,
                },
            ),
        )
    } else {
        None
    }
}

/// After a service is recorded as started under a fresh token, an exit
/// event on that token reports that service and its PID.
pub proof fn law_started_service_reports_exit(
    services: Map<Seq<char>, ManagedService>,
    tokens: Map<usize, Seq<char>>,
    name: Seq<char>,
    pid: i32,
    token: usize,
    now: u64,
)
    requires
        services.contains_key(name),
    ensures
        exit_report(
            services.insert(name, started_record(services[name], pid, token, now)),
            tokens.insert(token, name),
            token,
        ) == Some((name, pid)),
{
}

/// The age of a service's state at `now`, in seconds.
pub open spec fn age(s: ManagedService, now: u64) -> nat {
    if now >= s.state_changed_at {
        (now - s.state_changed_at) as nat
    } else {
        0
    }
}

/// The restart delay of a service has elapsed.
pub open spec fn ready_to_restart(s: ManagedService, now: u64) -> bool {
    s.state == ServiceState::Restarting && age(s, now) >= s.config.restart_sec
}

/// Only a service waiting in `Restarting` is ever due for a restart, and it
/// is due exactly once `restart_sec` seconds have passed since it entered
/// that state (a clock that reads earlier counts as no time passed). A
/// service that is inactive, failed, starting, running or stopping is never
/// due, whatever its restart policy.
pub proof fn law_only_restarting_services_are_due(s: ManagedService, now: u64)
    ensures
        s.state != ServiceState::Restarting ==> !ready_to_restart(s, now),
        s.state == ServiceState::Restarting ==> (ready_to_restart(s, now) <==> (if now
            >= s.state_changed_at {
            now - s.state_changed_at
        } else {
            0
        }) >= s.config.restart_sec),
{
}

/// A failed service is never restarted by the timer: after an exit that its
/// policy does not restart, the record is `Failed` or `Inactive` and is not
/// due at any later time.
pub proof fn law_exit_without_restart_is_never_due(s: ManagedService, exit_code: i32, now: u64, later: u64)
    requires
        !restart_wanted(s.config.restart@, exit_code),
    ensures
        !ready_to_restart(after_exit(s, exit_code, now), later),
{
}

/// A service that waits for readiness from process `pid`.
pub open spec fn awaits_ready(s: ManagedService, pid: i32) -> bool {
    s.pid == Some(pid) && s.state == ServiceState::Activating
}

/// A fresh record for a declared service.
pub open spec fn fresh_record(s: ManagedService, name: Seq<char>, c: ServiceConfig, now: u64) -> bool {
    &&& s.name@ == name
    &&& s.config == c
    &&& s.state == ServiceState::Inactive
    &&& s.pid is None
    &&& s.token is None
    &&& s.state_changed_at == now
    &&& s.restart_count == 0
}

/// Some service has `p` as its main process.
pub open spec fn runs_pid(m: Map<Seq<char>, ManagedService>, p: i32) -> bool {
    exists|k: Seq<char>| m.contains_key(k) && (#[trigger] m[k]).pid == Some(p)
}

/// A status snapshot describes a service record.
pub open spec fn describes(st: ServiceStatus, s: ManagedService) -> bool {
    &&& st.name@ == s.name@
    &&& st.state@ == crate::init::service::state_text(s.state)
    &&& st.pid == s.pid
    &&& st.restart_count == s.restart_count
    &&& st.description == s.config.description
}

/// Edits applied to one service record.
enum Edit {
    State(ServiceState),
    Runtime(Option<i32>, Option<usize>),
    StateCount(ServiceState, u32),
    Clock,
}

spec fn apply(s: ManagedService, e: Edit, now: u64) -> ManagedService {
    match e {
        Edit::State(st) => with_state(s, st, now),
        Edit::Runtime(p, t) => ManagedService { pid: p, token: t, ..s },
        Edit::StateCount(st, n) => ManagedService { restart_count: n, ..with_state(s, st, now) },
        Edit::Clock => ManagedService { state_changed_at: now, ..s },
    }
}

fn has_nul_exec(s: &String) -> (r: bool)
    ensures
        r == has_nul(s@),
{
    let v = chars_of(s.as_str());
    let mut i: usize = 0;
    while i < v.len()
        invariant
            i <= v.len(),
            v@ == s@,
            forall|j: int| 0 <= j < i ==> v@[j] != '\0',
        decreases v.len() - i,
    {
        if v[i] == '\0' {
            return true;
        }
        i = i + 1;
    }
    false
}

fn clone_opt(o: &Option<String>) -> (r: Option<String>)
    ensures
        r == *o,
{
    match o {
        Some(s) => Some(s.clone()),
        None => None,
    }
}

fn clone_cgroup(c: &CgroupConfig) -> (r: CgroupConfig)
    ensures
        r == *c,
{
    CgroupConfig {
        memory_max: clone_opt(&c.memory_max),
        cpu_weight: c.cpu_weight,
        cpu_quota: clone_opt(&c.cpu_quota),
        io_weight: c.io_weight,
        pids_max: c.pids_max,
    }
}

fn command_has_nul_exec(c: &ServiceConfig) -> (r: bool)
    ensures
        r == command_has_nul(*c),
{
    if has_nul_exec(&c.executable) {
        return true;
    }
    let mut i: usize = 0;
    while i < c.args.len()
        invariant
            i <= c.args@.len(),
            forall|j: int| 0 <= j < i ==> !has_nul(#[trigger] c.args@[j]@),
        decreases c.args@.len() - i,
    {
        if has_nul_exec(&c.args[i]) {
            return true;
        }
        i = i + 1;
    }
    false
}

fn plan_of(c: &ServiceConfig) -> (p: SpawnPlan)
    ensures
        plan_for(p, *c),
{
    let mut argv: Vec<String> = Vec::new();
    argv.push(c.executable.clone());
    let mut i: usize = 0;
    while i < c.args.len()
        invariant
            i <= c.args@.len(),
            argv@.len() == i + 1,
            argv@[0]@ == c.executable@,
            forall|j: int| 0 <= j < i ==> #[trigger] argv@[j + 1]@ == c.args@[j]@,
        decreases c.args@.len() - i,
    {
        argv.push(c.args[i].clone());
        i = i + 1;
    }
    let mut env: Vec<(String, String)> = Vec::new();
    let mut k: usize = 0;
    while k < c.env.len()
        invariant
            k <= c.env@.len(),
            env@.len() == env_kept(c.env@.take(k as int)).len(),
            forall|j: int|
                0 <= j < env@.len() ==> (#[trigger] env@[j]).0@ == env_kept(c.env@.take(k as int))[j].0
                    && env@[j].1@ == env_kept(c.env@.take(k as int))[j].1,
        decreases c.env@.len() - k,
    {
        proof {
            assert(c.env@.take(k + 1).drop_last() =~= c.env@.take(k as int));
        }
        let bad = has_nul_exec(&c.env[k].0) || has_nul_exec(&c.env[k].1);
        if !bad {
            env.push((c.env[k].0.clone(), c.env[k].1.clone()));
        }
        k = k + 1;
    }
    proof {
        assert(c.env@.take(c.env@.len() as int) =~= c.env@);
    }
    SpawnPlan {
        program: c.executable.clone(),
        argv,
        env,
        workdir: clone_opt(&c.workdir),
        cgroup: clone_cgroup(&c.cgroup),
    }
}

impl ServiceManager {
    /// The services by name.
    pub closed spec fn services(&self) -> Map<Seq<char>, ManagedService> {
        table_map(self.services@)
    }

    /// Registered pidfd tokens and the service each belongs to.
    pub closed spec fn tokens(&self) -> Map<usize, Seq<char>> {
        self.token_map@.map_values(|n: String| n@)
    }

    /// The token the next started service will get.
    pub closed spec fn next_token_value(&self) -> usize {
        self.next_token
    }

    /// The manager's bookkeeping is consistent: each name once, each token
    /// from the pidfd base up to (not including) the next token.
    pub closed spec fn wf(&self) -> bool {
        &&& names_unique(self.services@)
        &&& forall|i: int|
            0 <= i < self.services@.len() ==> #[trigger] self.services@[i].0@
                == self.services@[i].1.name@
        &&& forall|t: usize|
            #[trigger] self.token_map@.contains_key(t) ==> TOKEN_PIDFD_BASE <= t < self.next_token
        &&& self.next_token >= TOKEN_PIDFD_BASE
    }

    /// Each service record carries the name it is filed under.
    pub proof fn law_record_names(&self, k: Seq<char>)
        requires
            self.wf(),
            self.services().contains_key(k),
        ensures
            self.services()[k].name@ == k,
    {
        let i = lemma_table_index(self.services@, k);
        lemma_table_at(self.services@, i);
    }

    /// Every registered token lies from the pidfd base up to the next token:
    /// it never collides with the reserved tokens, and the tokens
    /// `allocate_token` hands out are never registered already.
    pub proof fn law_tokens_below_next(&self, t: usize)
        requires
            self.wf(),
            self.tokens().contains_key(t),
        ensures
            TOKEN_PIDFD_BASE <= t < self.next_token_value(),
    {
    }

    /// A manager with no services.
    pub fn new() -> (r: Self)
        ensures
            r.wf(),
            r.services() == Map::<Seq<char>, ManagedService>::empty(),
            r.tokens() == Map::<usize, Seq<char>>::empty(),
            r.next_token_value() == TOKEN_PIDFD_BASE,
    {
        let r = ServiceManager {
            services: Vec::new(),
            token_map: HashMap::new(),
            next_token: TOKEN_PIDFD_BASE,
        };
        assert(r.tokens() =~= Map::<usize, Seq<char>>::empty());
        r
    }

    fn edit_at(&mut self, i: usize, e: Edit, now: u64)
        requires
            old(self).wf(),
            i < old(self).services@.len(),
        ensures
            final(self).wf(),
            final(self).services() == old(self).services().insert(
                old(self).services@[i as int].0@,
                apply(old(self).services@[i as int].1, e, now),
            ),
            final(self).services@.len() == old(self).services@.len(),
            forall|j: int|
                0 <= j < final(self).services@.len() ==> #[trigger] final(self).services@[j].0@
                    == old(self).services@[j].0@,
            final(self).services@[i as int].1 == apply(old(self).services@[i as int].1, e, now),
            forall|j: int|
                0 <= j < final(self).services@.len() && j != i ==> #[trigger] final(self).services@[j] == old(self).services@[j],
            final(self).token_map == old(self).token_map,
            final(self).next_token == old(self).next_token,
    {
        let ghost s0 = self.services@;
        let (k, mut svc) = self.services.remove(i);
        match e {
            Edit::State(st) => {
                svc.state = st;
                svc.state_changed_at = now;
            },
            Edit::Runtime(p, t) => {
                svc.pid = p;
                svc.token = t;
            },
            Edit::StateCount(st, n) => {
                svc.state = st;
                svc.state_changed_at = now;
                svc.restart_count = n;
            },
            Edit::Clock => {
                svc.state_changed_at = now;
            },
        }
        self.services.insert(i, (k, svc));
        proof {
            assert(self.services@ =~= s0.update(i as int, (s0[i as int].0, svc)));
            lemma_table_update(s0, i as int, svc);
            assert forall|j: int| 0 <= j < self.services@.len() implies #[trigger] self.services@[j].0@
                == self.services@[j].1.name@ by {
                if j != i {
                    assert(self.services@[j] == s0[j]);
                }
            }
        }
    }

    fn index_of(&self, name: &str) -> (r: Option<usize>)
        requires
            self.wf(),
        ensures
            r matches Some(i) ==> i < self.services@.len() && self.services@[i as int].0@ == name@
                && self.services().contains_key(name@) && self.services()[name@]
                == self.services@[i as int].1,
            r is None ==> !self.services().contains_key(name@),
    {
        let key = owned(name);
        let r = find_entry(&self.services, &key);
        proof {
            match r {
                Some(i) => {
                    lemma_table_at(self.services@, i as int);
                },
                None => {
                    lemma_table_dom(self.services@, name@);
                },
            }
        }
        r
    }

    /// Registers a service programmatically, replacing any service of the
    /// same name.
    pub fn register(&mut self, name: &str, config: ServiceConfig, now: u64)
        requires
            old(self).wf(),
        ensures
            final(self).wf(),
            final(self).services().dom() == old(self).services().dom().insert(name@),
            fresh_record(final(self).services()[name@], name@, config, now),
            forall|k: Seq<char>|
                k != name@ && old(self).services().contains_key(k) ==> final(self).services()[k]
                    == old(self).services()[k],
            final(self).tokens() == old(self).tokens(),
            final(self).next_token_value() == old(self).next_token_value(),
    {
        let svc = ManagedService::new(owned(name), config, now);
        let ghost s0 = self.services@;
        upsert(&mut self.services, owned(name), svc);
        proof {
            assert forall|i: int| 0 <= i < self.services@.len() implies #[trigger] self.services@[i].0@
                == self.services@[i].1.name@ by {
                let e = self.services@[i];
                lemma_table_at(self.services@, i);
                if e.0@ != name@ {
                    let j = lemma_table_index(s0, e.0@);
                    lemma_table_at(s0, j);
                    lemma_table_dom(s0, e.0@);
                }
            }
            assert(self.services().dom() =~= old(self).services().dom().insert(name@));
        }
    }

    /// Adds the declarations of a configuration file, replacing services of
    /// the same names. Returns how many services the file declares.
    pub fn load_config(&mut self, config: ServicesConfig, now: u64) -> (r: usize)
        requires
            old(self).wf(),
            config.wf(),
        ensures
            final(self).wf(),
            r == config.services@.len(),
            final(self).services().dom() == old(self).services().dom().union(
                config.decls().dom(),
            ),
            forall|k: Seq<char>|
                config.decls().contains_key(k) ==> fresh_record(
                    #[trigger] final(self).services()[k],
                    k,
                    config.decls()[k],
                    now,
                ),
            forall|k: Seq<char>|
                !config.decls().contains_key(k) && old(self).services().contains_key(k)
                    ==> final(self).services()[k] == old(self).services()[k],
            final(self).tokens() == old(self).tokens(),
            final(self).next_token_value() == old(self).next_token_value(),
    {
        let count = config.services.len();
        let ghost entries = config.services@;
        let ghost s0 = self.services();
        for e in it: config.services
            invariant
                it.seq() == entries,
                names_unique(entries),
                self.wf(),
                self.services().dom() == s0.dom().union(
                    table_map(entries.take(it.index() as int)).dom(),
                ),
                forall|k: Seq<char>|
                    table_map(entries.take(it.index() as int)).contains_key(k) ==> fresh_record(
                        #[trigger] self.services()[k],
                        k,
                        table_map(entries.take(it.index() as int))[k],
                        now,
                    ),
                forall|k: Seq<char>|
                    !table_map(entries.take(it.index() as int)).contains_key(k)
                        && s0.contains_key(k) ==> self.services()[k] == s0[k],
                self.tokens() == old(self).tokens(),
                self.next_token_value() == old(self).next_token_value(),
        {
            let ghost n = it.index() as int;
            proof {
                assert(e == entries[n]);
                assert(entries.take(n + 1).drop_last() =~= entries.take(n));
            }
            let (name, cfg) = e;
            self.register(name.as_str(), cfg, now);
            proof {
                assert(self.services().dom() =~= s0.dom().union(
                    table_map(entries.take(n + 1)).dom(),
                ));
            }
        }
        proof {
            assert(entries.take(entries.len() as int) =~= entries);
        }
        count
    }

    /// Asks to start a service. An unknown name is refused; a service that
    /// is running or starting is left alone; otherwise the service becomes
    /// `Activating` and, if its command line can be executed, the plan to
    /// spawn it is returned, else it is marked `Failed { exit_code: -1 }`.
    pub fn begin_start(&mut self, name: &str, now: u64) -> (r: Result<StartStep, ManagerError>)
        requires
            old(self).wf(),
        ensures
            final(self).wf(),
            final(self).tokens() == old(self).tokens(),
            final(self).next_token_value() == old(self).next_token_value(),
            !old(self).services().contains_key(name@) ==> (r matches Err(
                ManagerError::UnknownService,
            )) && final(self).services() == old(self).services(),
            old(self).services().contains_key(name@) ==> ({
                let s = old(self).services()[name@];
                if s.state == ServiceState::Active || s.state == ServiceState::Activating {
                    &&& r matches Ok(StartStep::AlreadyRunning)
                    &&& final(self).services() == old(self).services()
                } else if command_has_nul(s.config) {
                    &&& r matches Err(ManagerError::InvalidCommand)
                    &&& final(self).services() == old(self).services().insert(
                        name@,
                        with_state(s, ServiceState::Failed { exit_code: -1i32 }, now),
                    )
                } else {
                    &&& r matches Ok(StartStep::Spawn(p)) && plan_for(p, s.config)
                    &&& final(self).services() == old(self).services().insert(
                        name@,
                        with_state(s, ServiceState::Activating, now),
                    )
                }
            }),
    {
        let i = match self.index_of(name) {
            Some(i) => i,
            None => {
                return Err(ManagerError::UnknownService);
            },
        };
        let st = self.services[i].1.state;
        match st {
            ServiceState::Active | ServiceState::Activating => {
                return Ok(StartStep::AlreadyRunning);
            },
            _ => {},
        }
        if command_has_nul_exec(&self.services[i].1.config) {
            self.edit_at(i, Edit::State(ServiceState::Failed { exit_code: -1 }), now);
            return Err(ManagerError::InvalidCommand);
        }
        let plan = plan_of(&self.services[i].1.config);
        self.edit_at(i, Edit::State(ServiceState::Activating), now);
        Ok(StartStep::Spawn(plan))
    }

    /// The token the next started service will get.
    pub fn next_token(&self) -> (r: usize)
        ensures
            r == self.next_token_value(),
    {
        self.next_token
    }

    /// Hands out the token under which the next spawned process is
    /// registered. Tokens are never handed out twice.
    pub fn allocate_token(&mut self) -> (r: usize)
        requires
            old(self).wf(),
            old(self).next_token_value() < usize::MAX,
        ensures
            final(self).wf(),
            r == old(self).next_token_value(),
            r >= TOKEN_PIDFD_BASE,
            !old(self).tokens().contains_key(r),
            final(self).next_token_value() == r + 1,
            final(self).services() == old(self).services(),
            final(self).tokens() == old(self).tokens(),
    {
        let t = self.next_token;
        self.next_token = self.next_token + 1;
        t
    }

    /// Records that a service's process was spawned as `pid` and registered
    /// under `token`. A service that does not use readiness notification is
    /// active at once; a notify service stays `Activating`.
    pub fn record_started(&mut self, name: &str, pid: i32, token: usize, now: u64)
        requires
            old(self).wf(),
            old(self).services().contains_key(name@),
            TOKEN_PIDFD_BASE <= token < old(self).next_token_value(),
            !old(self).tokens().contains_key(token),
        ensures
            final(self).wf(),
            final(self).next_token_value() == old(self).next_token_value(),
            final(self).tokens() == old(self).tokens().insert(token, name@),
            final(self).services() == old(self).services().insert(
                name@,
                started_record(old(self).services()[name@], pid, token, now),
            ),
    {
        let i = self.index_of(name).unwrap();
        self.edit_at(i, Edit::Runtime(Some(pid), Some(token)), now);
        let ghost t0 = self.tokens();
        self.token_map.insert(token, owned(name));
        proof {
            assert(self.tokens() =~= t0.insert(token, name@));
        }
        if !self.services[i].1.is_notify_type() {
            self.edit_at(i, Edit::State(ServiceState::Active), now);
        }
    }

    /// Asks to stop a service. If it has a main process, the service becomes
    /// `Deactivating` and the PID to send SIGTERM to is returned.
    pub fn stop_service(&mut self, name: &str, now: u64) -> (r: Result<Option<i32>, ManagerError>)
        requires
            old(self).wf(),
        ensures
            final(self).wf(),
            final(self).tokens() == old(self).tokens(),
            final(self).next_token_value() == old(self).next_token_value(),
            !old(self).services().contains_key(name@) ==> (r matches Err(
                ManagerError::UnknownService,
            )) && final(self).services() == old(self).services(),
            old(self).services().contains_key(name@) ==> ({
                let s = old(self).services()[name@];
                match s.pid {
                    Some(p) => r == Ok::<Option<i32>, ManagerError>(Some(p)) && final(self).services() == old(self).services().insert(
                        name@,
                        with_state(s, ServiceState::Deactivating, now),
                    ),
                    None => r == Ok::<Option<i32>, ManagerError>(None) && final(self).services()
                        == old(self).services(),
                }
            }),
    {
        let i = match self.index_of(name) {
            Some(i) => i,
            None => {
                return Err(ManagerError::UnknownService);
            },
        };
        match self.services[i].1.pid {
            Some(p) => {
                self.edit_at(i, Edit::State(ServiceState::Deactivating), now);
                Ok(Some(p))
            },
            None => Ok(None),
        }
    }

    /// A pidfd became readable: forgets its token and returns the service it
    /// belonged to with the PID to reap (-1 if the service has none).
    pub fn take_exited(&mut self, token: usize) -> (r: Option<(String, i32)>)
        requires
            old(self).wf(),
        ensures
            final(self).wf(),
            final(self).tokens() == old(self).tokens().remove(token),
            final(self).services() == old(self).services(),
            final(self).next_token_value() == old(self).next_token_value(),
            match r {
                Some((n, p)) => exit_report(old(self).services(), old(self).tokens(), token) == Some(
                    (n@, p),
                ),
                None => exit_report(old(self).services(), old(self).tokens(), token) is None,
            },
    {
        let ghost t0 = self.tokens();
        let name = match self.token_map.remove(&token) {
            Some(n) => n,
            None => {
                proof {
                    assert(self.tokens() =~= t0.remove(token));
                }
                return None;
            },
        };
        proof {
            assert(self.tokens() =~= t0.remove(token));
        }
        match self.index_of(name.as_str()) {
            Some(k) => {
                let pid = match self.services[k].1.pid {
                    Some(p) => p,
                    None => -1,
                };
                Some((name, pid))
            },
            None => None,
        }
    }

    /// Records the exit of a service's process with `exit_code`: the PID and
    /// token are forgotten; the service restarts if its policy says so
    /// (counting the restart, up to `u32::MAX`), fails on a non-zero code, and otherwise
    /// becomes inactive with its restart count reset.
    pub fn record_exit(&mut self, name: &str, exit_code: i32, now: u64)
        requires
            old(self).wf(),
            old(self).services().contains_key(name@),
        ensures
            final(self).wf(),
            final(self).tokens() == old(self).tokens(),
            final(self).next_token_value() == old(self).next_token_value(),
            final(self).services() == old(self).services().insert(
                name@,
                after_exit(old(self).services()[name@], exit_code, now),
            ),
    {
        let i = self.index_of(name).unwrap();
        self.edit_at(i, Edit::Runtime(None, None), now);
        let restart = self.services[i].1.should_restart(exit_code);
        if restart {
            let n = self.services[i].1.restart_count.saturating_add(1);
            self.edit_at(i, Edit::StateCount(ServiceState::Restarting, n), now);
        } else if exit_code != 0 {
            self.edit_at(i, Edit::State(ServiceState::Failed { exit_code }), now);
        } else {
            self.edit_at(i, Edit::StateCount(ServiceState::Inactive, 0), now);
        }
        proof {
            assert(self.services() =~= old(self).services().insert(
                name@,
                after_exit(old(self).services()[name@], exit_code, now),
            ));
        }
    }

    /// A process sent READY=1: one service waiting for readiness from that
    /// PID becomes `Active`; if none waits, nothing changes.
    pub fn handle_notify_ready(&mut self, notify_pid: i32, now: u64)
        requires
            old(self).wf(),
        ensures
            final(self).wf(),
            final(self).tokens() == old(self).tokens(),
            final(self).next_token_value() == old(self).next_token_value(),
            (forall|k: Seq<char>|
                old(self).services().contains_key(k) ==> !awaits_ready(
                    #[trigger] old(self).services()[k],
                    notify_pid,
                )) ==> final(self).services() == old(self).services(),
            (exists|k: Seq<char>|
                old(self).services().contains_key(k) && awaits_ready(
                    #[trigger] old(self).services()[k],
                    notify_pid,
                )) ==> exists|k: Seq<char>|
                old(self).services().contains_key(k) && awaits_ready(
                    #[trigger] old(self).services()[k],
                    notify_pid,
                ) && final(self).services() == old(self).services().insert(
                    k,
                    with_state(old(self).services()[k], ServiceState::Active, now),
                ),
    {
        let mut i: usize = 0;
        while i < self.services.len()
            invariant
                self.wf(),
                self.services@ == old(self).services@,
                self.token_map == old(self).token_map,
                self.next_token == old(self).next_token,
                i <= self.services@.len(),
                forall|j: int| 0 <= j < i ==> !awaits_ready(#[trigger] self.services@[j].1, notify_pid),
            decreases self.services@.len() - i,
        {
            if self.services[i].1.pid == Some(notify_pid) && self.services[i].1.state
                == ServiceState::Activating {
                let ghost k = self.services@[i as int].0@;
                proof {
                    lemma_table_at(self.services@, i as int);
                }
                self.edit_at(i, Edit::State(ServiceState::Active), now);
                return;
            }
            i = i + 1;
        }
        proof {
            assert forall|k: Seq<char>| old(self).services().contains_key(k) implies !awaits_ready(
                #[trigger] old(self).services()[k],
                notify_pid,
            ) by {
                let j = lemma_table_index(self.services@, k);
                lemma_table_at(self.services@, j);
            }
        }
    }

    /// A process sent WATCHDOG=1: the state clock of one service with that
    /// PID restarts; if none has it, nothing changes.
    pub fn handle_watchdog_ping(&mut self, pid: i32, now: u64)
        requires
            old(self).wf(),
        ensures
            final(self).wf(),
            final(self).tokens() == old(self).tokens(),
            final(self).next_token_value() == old(self).next_token_value(),
            (forall|k: Seq<char>|
                old(self).services().contains_key(k) ==> (#[trigger] old(self).services()[k]).pid
                    != Some(pid)) ==> final(self).services() == old(self).services(),
            (exists|k: Seq<char>|
                old(self).services().contains_key(k) && (#[trigger] old(self).services()[k]).pid
                    == Some(pid)) ==> exists|k: Seq<char>|
                old(self).services().contains_key(k) && (#[trigger] old(self).services()[k]).pid
                    == Some(pid) && final(self).services() == old(self).services().insert(
                    k,
                    ManagedService { state_changed_at: now, ..old(self).services()[k] },
                ),
    {
        let mut i: usize = 0;
        while i < self.services.len()
            invariant
                self.wf(),
                self.services@ == old(self).services@,
                self.token_map == old(self).token_map,
                self.next_token == old(self).next_token,
                i <= self.services@.len(),
                forall|j: int| 0 <= j < i ==> (#[trigger] self.services@[j].1).pid != Some(pid),
            decreases self.services@.len() - i,
        {
            if self.services[i].1.pid == Some(pid) {
                proof {
                    lemma_table_at(self.services@, i as int);
                }
                self.edit_at(i, Edit::Clock, now);
                return;
            }
            i = i + 1;
        }
        proof {
            assert forall|k: Seq<char>| old(self).services().contains_key(k) implies (#[trigger] old(self).services()[k]).pid != Some(pid) by {
                let j = lemma_table_index(self.services@, k);
                lemma_table_at(self.services@, j);
            }
        }
    }

    /// The services whose restart delay has elapsed at `now`, each once.
    pub fn services_ready_to_restart(&self, now: u64) -> (r: Vec<String>)
        requires
            self.wf(),
        ensures
            forall|j: int|
                0 <= j < r@.len() ==> self.services().contains_key(#[trigger] r@[j]@)
                    && ready_to_restart(self.services()[r@[j]@], now),
            forall|j: int|
                0 <= j < r@.len() ==> (#[trigger] self.services()[r@[j]@]).state
                    == ServiceState::Restarting,
            forall|k: Seq<char>|
                self.services().contains_key(k) && ready_to_restart(#[trigger] self.services()[k], now)
                    ==> exists|j: int| 0 <= j < r@.len() && r@[j]@ == k,
            forall|a: int, b: int| 0 <= a < b < r@.len() ==> r@[a]@ != r@[b]@,
    {
        let mut r: Vec<String> = Vec::new();
        let ghost mut idx: Seq<int> = seq![];
        let mut i: usize = 0;
        while i < self.services.len()
            invariant
                self.wf(),
                i <= self.services@.len(),
                idx.len() == r@.len(),
                forall|j: int|
                    0 <= j < idx.len() ==> 0 <= #[trigger] idx[j] < i && r@[j]@
                        == self.services@[idx[j]].0@ && ready_to_restart(
                        self.services@[idx[j]].1,
                        now,
                    ),
                forall|a: int, b: int| 0 <= a < b < idx.len() ==> idx[a] < idx[b],
                forall|m: int|
                    0 <= m < i && ready_to_restart(#[trigger] self.services@[m].1, now)
                        ==> exists|j: int| 0 <= j < idx.len() && idx[j] == m,
            decreases self.services@.len() - i,
        {
            let svc = &self.services[i].1;
            let is_ready = svc.state == ServiceState::Restarting && svc.state_age_secs(now)
                >= svc.config.restart_sec;
            let ghost old_idx = idx;
            if is_ready {
                r.push(self.services[i].0.clone());
                proof {
                    idx = idx.push(i as int);
                }
            }
            proof {
                assert forall|m: int|
                    0 <= m < i + 1 && ready_to_restart(#[trigger] self.services@[m].1, now) implies exists|
                    j: int,
                | 0 <= j < idx.len() && idx[j] == m by {
                    if m < i {
                        let j = choose|j: int| 0 <= j < old_idx.len() && old_idx[j] == m;
                        assert(idx[j] == m);
                    } else {
                        assert(idx[idx.len() - 1] == m);
                    }
                }
            }
            i = i + 1;
        }
        proof {
            assert forall|j: int| 0 <= j < r@.len() implies self.services().contains_key(
                #[trigger] r@[j]@,
            ) && ready_to_restart(self.services()[r@[j]@], now) by {
                lemma_table_at(self.services@, idx[j]);
            }
            assert forall|k: Seq<char>|
                self.services().contains_key(k) && ready_to_restart(
                    #[trigger] self.services()[k],
                    now,
                ) implies exists|j: int| 0 <= j < r@.len() && r@[j]@ == k by {
                let m = lemma_table_index(self.services@, k);
                lemma_table_at(self.services@, m);
                let j = choose|j: int| 0 <= j < idx.len() && idx[j] == m;
                assert(r@[j]@ == k);
            }
            assert forall|a: int, b: int| 0 <= a < b < r@.len() implies r@[a]@ != r@[b]@ by {
                assert(idx[a] < idx[b]);
            }
        }
        r
    }

    /// The names of all services, each once.
    pub fn service_names(&self) -> (r: Vec<String>)
        requires
            self.wf(),
        ensures
            forall|j: int| 0 <= j < r@.len() ==> self.services().contains_key(#[trigger] r@[j]@),
            forall|k: Seq<char>|
                #[trigger] self.services().contains_key(k) ==> exists|j: int|
                    0 <= j < r@.len() && r@[j]@ == k,
            forall|a: int, b: int| 0 <= a < b < r@.len() ==> r@[a]@ != r@[b]@,
    {
        let mut r: Vec<String> = Vec::new();
        let mut i: usize = 0;
        while i < self.services.len()
            invariant
                self.wf(),
                i <= self.services@.len(),
                r@.len() == i,
                forall|j: int| 0 <= j < i ==> #[trigger] r@[j]@ == self.services@[j].0@,
            decreases self.services@.len() - i,
        {
            r.push(self.services[i].0.clone());
            i = i + 1;
        }
        proof {
            assert forall|j: int| 0 <= j < r@.len() implies self.services().contains_key(
                #[trigger] r@[j]@,
            ) by {
                lemma_table_at(self.services@, j);
            }
            assert forall|k: Seq<char>| #[trigger] self.services().contains_key(k) implies exists|
                j: int,
            | 0 <= j < r@.len() && r@[j]@ == k by {
                let m = lemma_table_index(self.services@, k);
                assert(r@[m]@ == k);
            }
        }
        r
    }

    /// Stops every service (for shutdown): each service with a main process
    /// becomes `Deactivating`; the PIDs to send SIGTERM to are returned.
    pub fn stop_all(&mut self, now: u64) -> (r: Vec<i32>)
        requires
            old(self).wf(),
        ensures
            final(self).wf(),
            final(self).tokens() == old(self).tokens(),
            final(self).next_token_value() == old(self).next_token_value(),
            final(self).services().dom() == old(self).services().dom(),
            forall|k: Seq<char>|
                #[trigger] old(self).services().contains_key(k) ==> final(self).services()[k] == (
                match old(self).services()[k].pid {
                    Some(_) => with_state(old(self).services()[k], ServiceState::Deactivating, now),
                    None => old(self).services()[k],
                }),
            forall|k: Seq<char>|
                #[trigger] old(self).services().contains_key(k) && old(self).services()[k].pid
                    is Some ==> exists|j: int|
                    0 <= j < r@.len() && Some(r@[j]) == old(self).services()[k].pid,
            forall|j: int| 0 <= j < r@.len() ==> runs_pid(old(self).services(), #[trigger] r@[j]),
    {
        let ghost s0 = self.services@;
        let mut r: Vec<i32> = Vec::new();
        let ghost mut idx: Seq<int> = seq![];
        let mut i: usize = 0;
        while i < self.services.len()
            invariant
                self.wf(),
                i <= self.services@.len() == s0.len(),
                forall|j: int| 0 <= j < s0.len() ==> #[trigger] self.services@[j].0@ == s0[j].0@,
                forall|j: int|
                    0 <= j < i ==> #[trigger] self.services@[j].1 == match s0[j].1.pid {
                        Some(_) => with_state(s0[j].1, ServiceState::Deactivating, now),
                        None => s0[j].1,
                    },
                forall|j: int| i <= j < s0.len() ==> #[trigger] self.services@[j] == s0[j],
                idx.len() == r@.len(),
                forall|j: int|
                    0 <= j < idx.len() ==> 0 <= #[trigger] idx[j] < i && s0[idx[j]].1.pid == Some(
                        r@[j],
                    ),
                forall|m: int|
                    0 <= m < i && (#[trigger] s0[m]).1.pid is Some ==> exists|j: int|
                        0 <= j < idx.len() && idx[j] == m,
                self.token_map == old(self).token_map,
                self.next_token == old(self).next_token,
            decreases s0.len() - i,
        {
            let ghost old_idx = idx;
            match self.services[i].1.pid {
                Some(p) => {
                    self.edit_at(i, Edit::State(ServiceState::Deactivating), now);
                    r.push(p);
                    proof {
                        idx = idx.push(i as int);
                    }
                },
                None => {},
            }
            proof {
                assert forall|m: int|
                    0 <= m < i + 1 && (#[trigger] s0[m]).1.pid is Some implies exists|j: int|
                    0 <= j < idx.len() && idx[j] == m by {
                    if m < i {
                        let j = choose|j: int| 0 <= j < old_idx.len() && old_idx[j] == m;
                        assert(idx[j] == m);
                    } else {
                        assert(idx[idx.len() - 1] == m);
                    }
                }
            }
            i = i + 1;
        }
        proof {
            lemma_table_same_dom(s0, self.services@);
            assert(self.services().dom() =~= old(self).services().dom());
            assert forall|k: Seq<char>| #[trigger] old(self).services().contains_key(k) implies final(self).services()[k] == (match old(self).services()[k].pid {
                Some(_) => with_state(old(self).services()[k], ServiceState::Deactivating, now),
                None => old(self).services()[k],
            }) by {
                let m = lemma_table_index(s0, k);
                lemma_table_at(s0, m);
                lemma_table_at(self.services@, m);
            }
            assert forall|k: Seq<char>|
                #[trigger] old(self).services().contains_key(k) && old(self).services()[k].pid
                    is Some implies exists|j: int|
                0 <= j < r@.len() && Some(r@[j]) == old(self).services()[k].pid by {
                let m = lemma_table_index(s0, k);
                lemma_table_at(s0, m);
                assert(s0[m].1.pid is Some);
                let j = choose|j: int| 0 <= j < idx.len() && idx[j] == m;
                assert(Some(r@[j]) == s0[m].1.pid);
            }
            assert forall|j: int| 0 <= j < r@.len() implies runs_pid(
                old(self).services(),
                #[trigger] r@[j],
            ) by {
                lemma_table_at(s0, idx[j]);
                let k = s0[idx[j]].0@;
                assert(old(self).services@ == s0);
                assert(old(self).services().contains_key(k) && old(self).services()[k].pid == Some(
                    r@[j],
                ));
            }
        }
        r
    }

    /// Status snapshots of all services, one per service.
    pub fn list_services(&self) -> (r: Vec<ServiceStatus>)
        requires
            self.wf(),
        ensures
            forall|j: int|
                0 <= j < r@.len() ==> self.services().contains_key(#[trigger] r@[j].name@)
                    && describes(r@[j], self.services()[r@[j].name@]),
            forall|k: Seq<char>|
                #[trigger] self.services().contains_key(k) ==> exists|j: int|
                    0 <= j < r@.len() && r@[j].name@ == k,
            forall|a: int, b: int| 0 <= a < b < r@.len() ==> r@[a].name@ != r@[b].name@,
    {
        let mut r: Vec<ServiceStatus> = Vec::new();
        let mut i: usize = 0;
        while i < self.services.len()
            invariant
                self.wf(),
                i <= self.services@.len(),
                r@.len() == i,
                forall|j: int|
                    0 <= j < i ==> (#[trigger] r@[j]).name@ == self.services@[j].0@ && describes(
                        r@[j],
                        self.services@[j].1,
                    ),
            decreases self.services@.len() - i,
        {
            let svc = &self.services[i].1;
            let st = ServiceStatus {
                name: svc.name.clone(),
                state: svc.state.to_text(),
                pid: svc.pid,
                restart_count: svc.restart_count,
                description: clone_opt(&svc.config.description),
            };
            r.push(st);
            i = i + 1;
        }
        proof {
            assert forall|j: int| 0 <= j < r@.len() implies self.services().contains_key(
                #[trigger] r@[j].name@,
            ) && describes(r@[j], self.services()[r@[j].name@]) by {
                lemma_table_at(self.services@, j);
            }
            assert forall|k: Seq<char>| #[trigger] self.services().contains_key(k) implies exists|
                j: int,
            | 0 <= j < r@.len() && r@[j].name@ == k by {
                let m = lemma_table_index(self.services@, k);
                assert(r@[m].name@ == k);
            }
        }
        r
    }

    /// Looks up a single service.
    pub fn get_service(&self, name: &str) -> (r: Option<&ManagedService>)
        requires
            self.wf(),
        ensures
            r matches Some(s) ==> self.services().contains_key(name@) && self.services()[name@]
                == *s,
            r is None ==> !self.services().contains_key(name@),
    {
        match self.index_of(name) {
            Some(i) => Some(&self.services[i].1),
            None => None,
        }
    }
}

/// Two tables with the same names in the same places have the same domain.
proof fn lemma_table_same_dom(a: Seq<(String, ManagedService)>, b: Seq<(String, ManagedService)>)
    requires
        a.len() == b.len(),
        forall|i: int| 0 <= i < a.len() ==> a[i].0@ == b[i].0@,
    ensures
        table_map(a).dom() == table_map(b).dom(),
{
    assert forall|k: Seq<char>| table_map(a).contains_key(k) <==> table_map(b).contains_key(k) by {
        lemma_table_dom(a, k);
        lemma_table_dom(b, k);
        if exists|i: int| 0 <= i < a.len() && a[i].0@ == k {
            let i = choose|i: int| 0 <= i < a.len() && a[i].0@ == k;
            assert(b[i].0@ == k);
        }
        if exists|i: int| 0 <= i < b.len() && b[i].0@ == k {
            let i = choose|i: int| 0 <= i < b.len() && b[i].0@ == k;
            assert(a[i].0@ == k);
        }
    }
    assert(table_map(a).dom() =~= table_map(b).dom());
}

} // verus!
