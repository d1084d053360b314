//! Service configuration, as declared in `services.toml`.
//!
//! Reading and TOML decoding happen at the edge of the program; this module
//! holds the decoded declarations, their defaults, and the layering of
//! several configuration files.
use crate::keyed::{names_unique, table_map, upsert};
use vstd::prelude::*;

verus! {

/// Top-level structure of `services.toml`: service declarations by name.
pub struct ServicesConfig {
    /// `(name, config)` entries; each name occurs once.
    pub services: Vec<(String, ServiceConfig)>,
}

impl ServicesConfig {
    /// Each service name is declared once.
    pub open spec fn wf(&self) -> bool {
        names_unique(self.services@)
    }

    /// The declarations by name.
    pub open spec fn decls(&self) -> Map<Seq<char>, ServiceConfig> {
        table_map(self.services@)
    }

    /// No declarations.
    pub fn empty() -> (r: ServicesConfig)
        ensures
            r.wf(),
            r.decls() == Map::<Seq<char>, ServiceConfig>::empty(),
            r.services@.len() == 0,
    {
        ServicesConfig { services: Vec::new() }
    }
}

/// Configuration for a single service.
pub struct ServiceConfig {
    /// Executable path (required).
    pub executable: String,
    /// Service type: "simple" | "forking" | "notify" | "oneshot".
    pub service_type: String,
    /// Restart policy: "no" | "always" | "on-failure" | "on-abnormal".
    pub restart: String,
    /// Seconds to wait before restarting.
    pub restart_sec: u64,
    /// Timeout for startup in seconds (0 = no timeout).
    pub timeout_start_sec: u64,
    /// Timeout for shutdown in seconds.
    pub timeout_stop_sec: u64,
    /// Watchdog interval in seconds (0 = disabled).
    pub watchdog_sec: u64,
    /// Hard dependencies.
    pub required: Vec<String>,
    /// Soft dependencies.
    pub wants: Vec<String>,
    /// Ordering: start this service after these.
    pub after: Vec<String>,
    /// Ordering: start this service before these.
    pub before: Vec<String>,
    /// Conflicting services.
    pub conflicts: Vec<String>,
    /// Command-line arguments appended to `exec`.
    pub args: Vec<String>,
    /// Environment variables for the service process.
    pub env: Vec<(String, String)>,
    /// Working directory.
    pub workdir: Option<String>,
    /// Run as this user.
    pub user: Option<String>,
    /// Run as this group.
    pub group: Option<String>,
    /// Cgroup v2 resource limits.
    pub cgroup: CgroupConfig,
    /// SELinux domain transition settings.
    pub selinux: SelinuxConfig,
    /// Namespace isolation.
    pub namespaces: NamespaceConfig,
    /// Seccomp profile: "default", "strict", or a path.
    pub seccomp: Option<String>,
    /// Capabilities to retain.
    pub capabilities: CapabilityConfig,
    /// Description for status output.
    pub description: Option<String>,
}

/// cgroup v2 resource limits.
pub struct CgroupConfig {
    /// Memory limit, e.g. "512M", "2G".
    pub memory_max: Option<String>,
    /// CPU weight (1-10000).
    pub cpu_weight: Option<u32>,
    /// CPU quota, e.g. "50000 100000".
    pub cpu_quota: Option<String>,
    /// IO weight (1-10000).
    pub io_weight: Option<u32>,
    /// Max number of PIDs.
    pub pids_max: Option<u64>,
}

/// SELinux settings for a service.
pub struct SelinuxConfig {
    /// Domain type for transition at exec, e.g. "httpd_t".
    pub domain_type: Option<String>,
    /// File context rules.
    pub file_contexts: Vec<FileContext>,
}

/// A single SELinux file context rule.
pub struct FileContext {
    /// Path regex.
    pub path: String,
    /// SELinux context.
    pub context: String,
}

/// Linux namespace isolation options.
pub struct NamespaceConfig {
    /// Mount namespace.
    pub mnt: bool,
    /// IPC namespace.
    pub ipc: bool,
    /// PID namespace.
    pub pid: bool,
    /// Network namespace.
    pub net: bool,
    /// UTS namespace.
    pub uts: bool,
}

/// Capabilities to retain after exec.
pub struct CapabilityConfig {
    /// Ambient capabilities.
    pub ambient: Vec<String>,
    /// Bounding set.
    pub bounding: Vec<String>,
}

impl Default for CgroupConfig {
    fn default() -> (r: Self)
        ensures
            r.memory_max is None && r.cpu_weight is None && r.cpu_quota is None
                && r.io_weight is None && r.pids_max is None,
    {
        CgroupConfig {
            memory_max: None,
            cpu_weight: None,
            cpu_quota: None,
            io_weight: None,
            pids_max: None,
        }
    }
}

impl Default for SelinuxConfig {
    fn default() -> (r: Self)
        ensures
            r.domain_type is None && r.file_contexts@.len() == 0,
    {
        SelinuxConfig { domain_type: None, file_contexts: Vec::new() }
    }
}

impl Default for NamespaceConfig {
    /// Mount and IPC namespaces isolated, the others shared.
    fn default() -> (r: Self)
        ensures
            r.mnt && r.ipc && !r.pid && !r.net && !r.uts,
    {
        NamespaceConfig { mnt: true, ipc: true, pid: false, net: false, uts: false }
    }
}

impl Default for CapabilityConfig {
    fn default() -> (r: Self)
        ensures
            r.ambient@.len() == 0 && r.bounding@.len() == 0,
    {
        CapabilityConfig { ambient: Vec::new(), bounding: Vec::new() }
    }
}

// ---------------------------------------------------------------------------
// Defaults
// ---------------------------------------------------------------------------

/// Default service type.
pub fn service_type() -> (r: String)
    ensures
        r@ == "simple"@,
{
    "simple".to_owned()
}

/// Default restart policy.
pub fn restart() -> (r: String)
    ensures
        r@ == "no"@,
{
    "no".to_owned()
}

/// Default delay before a restart, in seconds.
pub fn restart_sec() -> (r: u64)
    ensures
        r == 5,
{
    5
}

/// Default start and stop timeout, in seconds.
pub fn timeout() -> (r: u64)
    ensures
        r == 30,
{
    30
}

/// Default for the namespace switches that are on unless declared off.
pub fn yes() -> (r: bool)
    ensures
        r,
{
    true
}

impl ServiceConfig {
    /// The declaration of a service that gives only its executable: every
    /// other key takes its default.
    pub fn with_exec(executable: String) -> (r: ServiceConfig)
        ensures
            r.executable == executable,
            r.service_type@ == "simple"@,
            r.restart@ == "no"@,
            r.restart_sec == 5,
            r.timeout_start_sec == 30,
            r.timeout_stop_sec == 30,
            r.watchdog_sec == 0,
            r.required@.len() == 0,
            r.wants@.len() == 0,
            r.after@.len() == 0,
            r.before@.len() == 0,
            r.conflicts@.len() == 0,
            r.args@.len() == 0,
            r.env@.len() == 0,
            r.workdir is None,
            r.user is None,
            r.group is None,
            r.seccomp is None,
            r.description is None,
            r.selinux.domain_type is None && r.selinux.file_contexts@.len() == 0,
            r.capabilities.ambient@.len() == 0 && r.capabilities.bounding@.len() == 0,
            r.namespaces.mnt && r.namespaces.ipc && !r.namespaces.pid && !r.namespaces.net
                && !r.namespaces.uts,
            r.cgroup.memory_max is None && r.cgroup.cpu_weight is None && r.cgroup.cpu_quota
                is None && r.cgroup.io_weight is None && r.cgroup.pids_max is None,
    {
        ServiceConfig {
            executable,
            service_type: service_type(),
            restart: restart(),
            restart_sec: restart_sec(),
            timeout_start_sec: timeout(),
            timeout_stop_sec: timeout(),
            watchdog_sec: 0,
            required: Vec::new(),
            wants: Vec::new(),
            after: Vec::new(),
            before: Vec::new(),
            conflicts: Vec::new(),
            args: Vec::new(),
            env: Vec::new(),
            workdir: None,
            user: None,
            group: None,
            cgroup: CgroupConfig::default(),
            selinux: SelinuxConfig::default(),
            namespaces: NamespaceConfig::default(),
            seccomp: None,
            capabilities: CapabilityConfig::default(),
            description: None,
        }
    }
}

// ---------------------------------------------------------------------------
// Layering
// ---------------------------------------------------------------------------

/// The declarations of several files layered in order: a later file's
/// declaration of a name replaces an earlier one.
pub open spec fn layered(files: Seq<ServicesConfig>) -> Map<Seq<char>, ServiceConfig>
    decreases files.len(),
{
    if files.len() == 0 {
        Map::empty()
    } else {
        layered(files.drop_last()).union_prefer_right(files.last().decls())
    }
}

/// A name is declared by the layered files exactly when some file declares
/// it, and the declaration that counts is the one in the last such file.
pub proof fn law_later_file_overrides(files: Seq<ServicesConfig>, i: int, k: Seq<char>)
    requires
        0 <= i < files.len(),
        files[i].decls().contains_key(k),
        forall|j: int| i < j < files.len() ==> !(#[trigger] files[j].decls()).contains_key(k),
    ensures
        layered(files).contains_key(k),
        layered(files)[k] == files[i].decls()[k],
    decreases files.len(),
{
    if i < files.len() - 1 {
        let rest = files.drop_last();
        assert forall|j: int| i < j < rest.len() implies !(#[trigger] rest[j].decls()).contains_key(
            k,
        ) by {
            assert(rest[j] == files[j]);
        }
        law_later_file_overrides(rest, i, k);
        assert(!files[files.len() - 1].decls().contains_key(k));
    }
}

/// A name no file declares is not declared by the layered files.
pub proof fn law_undeclared_stays_undeclared(files: Seq<ServicesConfig>, k: Seq<char>)
    requires
        forall|j: int| 0 <= j < files.len() ==> !(#[trigger] files[j].decls()).contains_key(k),
    ensures
        !layered(files).contains_key(k),
    decreases files.len(),
{
    if files.len() > 0 {
        let rest = files.drop_last();
        assert forall|j: int| 0 <= j < rest.len() implies !(#[trigger] rest[j].decls()).contains_key(
            k,
        ) by {
            assert(rest[j] == files[j]);
        }
        law_undeclared_stays_undeclared(rest, k);
        assert(!files[files.len() - 1].decls().contains_key(k));
    }
}

/// Merges the service files of a base configuration and its profiles, in
/// the order given (files that do not exist are left out by the caller).
/// Later files override earlier ones for the same service name.
pub fn load_merged(files: Vec<ServicesConfig>) -> (r: ServicesConfig)
    ensures
        r.wf(),
        r.decls() == layered(files@),
{
    let ghost all = files@;
    let mut merged = ServicesConfig::empty();
    for f in it: files
        invariant
            it.seq() == all,
            merged.wf(),
            merged.decls() == layered(all.take(it.index() as int)),
    {
        let ghost done = it.index() as int;
        let ghost before = merged.decls();
        let ghost fent = f.services@;
        proof {
            assert(f == all[done]);
        }
        for e in jt: f.services
            invariant
                jt.seq() == fent,
                merged.wf(),
                merged.decls() == before.union_prefer_right(table_map(fent.take(jt.index() as int))),
        {
            let ghost k = jt.index() as int;
            proof {
                assert(e == fent[k]);
                assert(fent.take(k + 1).drop_last() =~= fent.take(k));
            }
            let (name, cfg) = e;
            upsert(&mut merged.services, name, cfg);
            proof {
                assert(merged.decls() =~= before.union_prefer_right(table_map(fent.take(k + 1))));
            }
        }
        proof {
            assert(fent.take(fent.len() as int) =~= fent);
            assert(all.take(done + 1).drop_last() =~= all.take(done));
            assert(merged.decls() =~= layered(all.take(done + 1)));
        }
    }
    proof {
        assert(all.take(all.len() as int) =~= all);
    }
    merged
}

} // verus!
