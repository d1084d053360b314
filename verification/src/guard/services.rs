//! Backend processes of the security stack: which to run and how.
//!
//! Spawning, polling and killing the processes is the caller's work.
use crate::guard::alerts::{alert_log, AlertSource};
use crate::guard::config::GuardConfig;
use crate::text::{join, owned, path_join};
use vstd::prelude::*;

verus! {

/// Why a backend could not be managed.
#[derive(Debug)]
pub enum ServiceError {
    /// Spawning the backend failed.
    Start { name: String, source: std::io::Error },
    /// Killing the backend failed.
    Stop { name: String, source: std::io::Error },
    /// The backend is not running.
    NotRunning { name: String },
}

/// A backend of the security stack.
#[derive(Debug, Clone, Copy, PartialEq, Eq, Structural)]
pub enum Backend {
    Clamd,
    Clamonacc,
    Suricata,
    Tetragon,
}

/// The process name of a backend.
pub open spec fn backend_name_spec(b: Backend) -> Seq<char> {
    match b {
        Backend::Clamd => "clamd"@,
        Backend::Clamonacc => "clamonacc"@,
        Backend::Suricata => "suricata"@,
        Backend::Tetragon => "tetragon"@,
    }
}

impl Backend {
    /// The process name of a backend.
    pub fn name(&self) -> (r: &'static str)
        ensures
            r@ == backend_name_spec(*self),
    {
        match self {
            Backend::Clamd => "clamd",
            Backend::Clamonacc => "clamonacc",
            Backend::Suricata => "suricata",
            Backend::Tetragon => "tetragon",
        }
    }
}

/// The backends a configuration enables, in start order.
pub open spec fn enabled_backends(c: GuardConfig) -> Seq<Backend> {
    (if c.antivirus.enabled {
        seq![Backend::Clamd]
    } else {
        seq![]
    }) + (if c.antivirus.enabled && c.antivirus.on_access {
        seq![Backend::Clamonacc]
    } else {
        seq![]
    }) + (if c.network.enabled {
        seq![Backend::Suricata]
    } else {
        seq![]
    }) + (if c.processes.enabled {
        seq![Backend::Tetragon]
    } else {
        seq![]
    })
}

/// clamd runs exactly when antivirus is enabled, clamonacc when on-access
/// scanning is enabled too, Suricata when the network section is enabled
/// and Tetragon when the processes section is; each at most once.
pub proof fn law_backends_follow_sections(c: GuardConfig)
    ensures
        enabled_backends(c).contains(Backend::Clamd) <==> c.antivirus.enabled,
        enabled_backends(c).contains(Backend::Clamonacc) <==> c.antivirus.enabled
            && c.antivirus.on_access,
        enabled_backends(c).contains(Backend::Suricata) <==> c.network.enabled,
        enabled_backends(c).contains(Backend::Tetragon) <==> c.processes.enabled,
        enabled_backends(c).no_duplicates(),
{
    let e = enabled_backends(c);
    if c.antivirus.enabled {
        assert(e[0] == Backend::Clamd);
    }
    if c.antivirus.enabled && c.antivirus.on_access {
        assert(e[1] == Backend::Clamonacc);
    }
    let n = (if c.antivirus.enabled { 1int } else { 0 }) + (if c.antivirus.enabled
        && c.antivirus.on_access {
        1int
    } else {
        0
    });
    if c.network.enabled {
        assert(e[n] == Backend::Suricata);
    }
    if c.processes.enabled {
        assert(e[e.len() - 1] == Backend::Tetragon);
    }
}

/// The backends to start: clamd when antivirus is on (and clamonacc when
/// on-access scanning is on too), suricata when the network IDS is on,
/// tetragon when process monitoring is on.
pub fn backends_to_start(config: &GuardConfig) -> (r: Vec<Backend>)
    ensures
        r@ == enabled_backends(*config),
{
    let mut r: Vec<Backend> = Vec::new();
    if config.antivirus.enabled {
        r.push(Backend::Clamd);
        if config.antivirus.on_access {
            r.push(Backend::Clamonacc);
        }
    }
    if config.network.enabled {
        r.push(Backend::Suricata);
    }
    if config.processes.enabled {
        r.push(Backend::Tetragon);
    }
    proof {
        assert(r@ =~= enabled_backends(*config));
    }
    r
}

/// The backends whose status is reported, in report order.
pub fn status_backends() -> (r: Vec<Backend>)
    ensures
        r@ == seq![Backend::Clamd, Backend::Clamonacc, Backend::Suricata, Backend::Tetragon],
{
    let mut r: Vec<Backend> = Vec::new();
    r.push(Backend::Clamd);
    r.push(Backend::Clamonacc);
    r.push(Backend::Suricata);
    r.push(Backend::Tetragon);
    r
}

/// How to launch a backend.
pub struct Launch {
    /// Program to run.
    pub program: String,
    /// Its arguments.
    pub args: Vec<String>,
    /// Log directory to create before launching, if any.
    pub log_dir: Option<String>,
}

/// A path below the run directory.
pub open spec fn under(run_dir: Seq<char>, a: Seq<char>, b: Seq<char>) -> Seq<char> {
    path_join(path_join(run_dir, a), b)
}

/// The command line of a backend.
pub open spec fn launch_spec(b: Backend, run_dir: Seq<char>) -> (Seq<char>, Seq<Seq<char>>, Option<Seq<char>>) {
    match b {
        Backend::Clamd => (
            "clamd"@,
            seq!["--config-file"@, under(run_dir, "clamav"@, "clamd.conf"@), "--foreground"@],
            Some(under(run_dir, "clamav"@, "log"@)),
        ),
        Backend::Clamonacc => (
            "clamonacc"@,
            seq!["--fdpass"@, "--config-file"@, under(run_dir, "clamav"@, "clamd.conf"@)],
            None,
        ),
        Backend::Suricata => (
            "suricata"@,
            seq![
                "-c"@,
                under(run_dir, "suricata"@, "suricata.yaml"@),
                "-l"@,
                under(run_dir, "suricata"@, "log"@),
                "--af-packet"@,
            ],
            Some(under(run_dir, "suricata"@, "log"@)),
        ),
        Backend::Tetragon => (
            "tetragon"@,
            seq![
                "--tracing-policy-dir"@,
                path_join(run_dir, "tetragon"@),
                "--export-filename"@,
                under(run_dir, "tetragon"@, "events.json"@),
            ],
            None,
        ),
    }
}

/// The backends write their events where the alert stream reads them:
/// Tetragon exports to the Tetragon event log, Suricata logs `eve.json`
/// into its log directory, and clamd logs `clamd.log` into its own.
pub proof fn law_backends_log_where_alerts_are_read(run_dir: Seq<char>)
    ensures
        launch_spec(Backend::Tetragon, run_dir).1[3] == alert_log(run_dir, AlertSource::Tetragon),
        launch_spec(Backend::Suricata, run_dir).1[3] == launch_spec(Backend::Suricata, run_dir).2->0,
        path_join(launch_spec(Backend::Suricata, run_dir).2->0, "eve.json"@) == alert_log(
            run_dir,
            AlertSource::Suricata,
        ),
        path_join(launch_spec(Backend::Clamd, run_dir).2->0, "clamd.log"@) == alert_log(
            run_dir,
            AlertSource::Clamav,
        ),
{
}

/// clamd runs in the foreground on the configuration generated under the
/// run directory, logging next to it: its arguments are exactly
/// `--config-file <run_dir>/clamav/clamd.conf --foreground`. Every backend
/// runs the program of its own name.
pub proof fn law_clamd_runs_in_foreground(run_dir: Seq<char>, b: Backend)
    ensures
        launch_spec(Backend::Clamd, run_dir).1 == seq![
            "--config-file"@,
            path_join(path_join(run_dir, "clamav"@), "clamd.conf"@),
            "--foreground"@,
        ],
        launch_spec(Backend::Clamd, run_dir).2 == Some(path_join(path_join(run_dir, "clamav"@), "log"@)),
        launch_spec(b, run_dir).0 == backend_name_spec(b),
{
}

/// A launch carries out a command line.
pub open spec fn launch_is(l: Launch, s: (Seq<char>, Seq<Seq<char>>, Option<Seq<char>>)) -> bool {
    &&& l.program@ == s.0
    &&& l.args@.len() == s.1.len()
    &&& forall|i: int| 0 <= i < l.args@.len() ==> #[trigger] l.args@[i]@ == s.1[i]
    &&& match l.log_dir {
        Some(d) => s.2 == Some(d@),
        None => s.2 is None,
    }
}

fn under_exec(run_dir: &str, a: &str, b: &str) -> (r: String)
    ensures
        r@ == under(run_dir@, a@, b@),
{
    let d = join(run_dir, a);
    join(d.as_str(), b)
}

/// How to launch a backend with its configuration under the run directory.
pub fn launch_plan(backend: Backend, run_dir: &str) -> (r: Launch)
    ensures
        launch_is(r, launch_spec(backend, run_dir@)),
{
    let mut args: Vec<String> = Vec::new();
    match backend {
        Backend::Clamd => {
            args.push(owned("--config-file"));
            args.push(under_exec(run_dir, "clamav", "clamd.conf"));
            args.push(owned("--foreground"));
            Launch {
                program: owned("clamd"),
                args,
                log_dir: Some(under_exec(run_dir, "clamav", "log")),
            }
        },
        Backend::Clamonacc => {
            args.push(owned("--fdpass"));
            args.push(owned("--config-file"));
            args.push(under_exec(run_dir, "clamav", "clamd.conf"));
            Launch { program: owned("clamonacc"), args, log_dir: None }
        },
        Backend::Suricata => {
            args.push(owned("-c"));
            args.push(under_exec(run_dir, "suricata", "suricata.yaml"));
            args.push(owned("-l"));
            args.push(under_exec(run_dir, "suricata", "log"));
            args.push(owned("--af-packet"));
            Launch {
                program: owned("suricata"),
                args,
                log_dir: Some(under_exec(run_dir, "suricata", "log")),
            }
        },
        Backend::Tetragon => {
            args.push(owned("--tracing-policy-dir"));
            args.push(join(run_dir, "tetragon"));
            args.push(owned("--export-filename"));
            args.push(under_exec(run_dir, "tetragon", "events.json"));
            Launch { program: owned("tetragon"), args, log_dir: None }
        },
    }
}

} // verus!
