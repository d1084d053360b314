//! `guard.toml`: the security front end's configuration and its defaults.
//!
//! Reading and TOML decoding happen at the edge of the program; a key that
//! the file leaves out takes the default given here.
use crate::text::owned;
use vstd::prelude::*;

verus! {

/// Top-level `guard.toml` structure.
pub struct GuardConfig {
    pub guard: GuardSection,
    pub antivirus: AntivirusSection,
    pub network: NetworkSection,
    pub processes: ProcessesSection,
}

/// `[guard]`.
pub struct GuardSection {
    /// "desktop", "server", or "router".
    pub mode: String,
    /// Where to send alerts: "journal", "notify", "webhook".
    pub alert: Vec<String>,
    /// Webhook URL if "webhook" is in alert targets.
    pub webhook_url: Option<String>,
    /// Directory for generated backend configs.
    pub run_dir: String,
}

/// `[antivirus]`.
pub struct AntivirusSection {
    pub enabled: bool,
    /// Real-time on-access scanning via clamonacc.
    pub on_access: bool,
    /// Freshclam update interval (e.g. "6h").
    pub update_interval: String,
    /// Additional YARA rule directory.
    pub extra_yara_rules: Option<String>,
    /// Paths to exclude from scanning.
    pub exclude: Vec<String>,
}

/// `[network]`.
pub struct NetworkSection {
    pub enabled: bool,
    /// "ids" (alert only) or "ips" (inline block).
    pub mode: String,
    /// Network interfaces to monitor.
    pub interfaces: Vec<String>,
    /// Rulesets: "emerging-threats", "abuse-ch", etc.
    pub rulesets: Vec<String>,
    /// Home network CIDR for Suricata HOME_NET.
    pub home_net: String,
}

/// `[processes]`.
pub struct ProcessesSection {
    pub enabled: bool,
    /// Files to watch for unauthorized reads.
    pub monitor_sensitive_files: Vec<String>,
    /// Alert when a service spawns an interactive shell.
    pub alert_on_shell_from_service: bool,
    /// Alert on setuid/setgid calls.
    pub alert_on_privilege_escalation: bool,
    /// Alert on kernel module loading.
    pub alert_on_kernel_module_load: bool,
    /// Binaries considered shells for detection.
    pub shell_binaries: Vec<String>,
}

/// Default of the switches that are on unless turned off.
pub fn default_true() -> (r: bool)
    ensures
        r,
{
    true
}

/// Default mode.
pub fn default_mode() -> (r: String)
    ensures
        r@ == "desktop"@,
{
    owned("desktop")
}

/// Default alert targets.
pub fn default_alert_targets() -> (r: Vec<String>)
    ensures
        r@.len() == 1 && r@[0]@ == "journal"@,
{
    let mut v = Vec::new();
    v.push(owned("journal"));
    v
}

/// Default run directory.
pub fn default_run_dir() -> (r: String)
    ensures
        r@ == "/run/nexis-guard"@,
{
    owned("/run/nexis-guard")
}

/// Default freshclam update interval.
pub fn default_update_interval() -> (r: String)
    ensures
        r@ == "6h"@,
{
    owned("6h")
}

/// Default network mode.
pub fn default_ids_mode() -> (r: String)
    ensures
        r@ == "ids"@,
{
    owned("ids")
}

/// Default rulesets.
pub fn default_rulesets() -> (r: Vec<String>)
    ensures
        r@.len() == 1 && r@[0]@ == "emerging-threats"@,
{
    let mut v = Vec::new();
    v.push(owned("emerging-threats"));
    v
}

/// Default home network.
pub fn default_home_net() -> (r: String)
    ensures
        r@ == "192.168.0.0/16"@,
{
    owned("192.168.0.0/16")
}

/// Default sensitive files.
pub fn default_sensitive_files() -> (r: Vec<String>)
    ensures
        r@.len() == 3,
        r@[0]@ == "/etc/shadow"@,
        r@[1]@ == "/etc/passwd"@,
        r@[2]@ == "/etc/sudoers"@,
{
    let mut v = Vec::new();
    v.push(owned("/etc/shadow"));
    v.push(owned("/etc/passwd"));
    v.push(owned("/etc/sudoers"));
    v
}

/// Default shell binaries.
pub fn default_shells() -> (r: Vec<String>)
    ensures
        r@.len() == 4,
        r@[0]@ == "/bin/bash"@,
        r@[1]@ == "/bin/sh"@,
        r@[2]@ == "/bin/zsh"@,
        r@[3]@ == "/bin/dash"@,
{
    let mut v = Vec::new();
    v.push(owned("/bin/bash"));
    v.push(owned("/bin/sh"));
    v.push(owned("/bin/zsh"));
    v.push(owned("/bin/dash"));
    v
}

/// Default config file location.
pub fn default_config_path() -> (r: String)
    ensures
        r@ == "/etc/nexis/guard.toml"@,
{
    owned("/etc/nexis/guard.toml")
}

impl Default for GuardSection {
    fn default() -> (r: Self)
        ensures
            r.mode@ == "desktop"@,
            r.alert@.len() == 1 && r.alert@[0]@ == "journal"@,
            r.webhook_url is None,
            r.run_dir@ == "/run/nexis-guard"@,
    {
        GuardSection {
            mode: default_mode(),
            alert: default_alert_targets(),
            webhook_url: None,
            run_dir: default_run_dir(),
        }
    }
}

impl Default for AntivirusSection {
    fn default() -> (r: Self)
        ensures
            r.enabled,
            !r.on_access,
            r.update_interval@ == "6h"@,
            r.extra_yara_rules is None,
            r.exclude@.len() == 0,
    {
        AntivirusSection {
            enabled: true,
            on_access: false,
            update_interval: default_update_interval(),
            extra_yara_rules: None,
            exclude: Vec::new(),
        }
    }
}

impl Default for NetworkSection {
    fn default() -> (r: Self)
        ensures
            !r.enabled,
            r.mode@ == "ids"@,
            r.interfaces@.len() == 0,
            r.rulesets@.len() == 1 && r.rulesets@[0]@ == "emerging-threats"@,
            r.home_net@ == "192.168.0.0/16"@,
    {
        NetworkSection {
            enabled: false,
            mode: default_ids_mode(),
            interfaces: Vec::new(),
            rulesets: default_rulesets(),
            home_net: default_home_net(),
        }
    }
}

impl Default for ProcessesSection {
    fn default() -> (r: Self)
        ensures
            r.enabled,
            r.monitor_sensitive_files@.len() == 3,
            r.monitor_sensitive_files@[0]@ == "/etc/shadow"@,
            r.monitor_sensitive_files@[1]@ == "/etc/passwd"@,
            r.monitor_sensitive_files@[2]@ == "/etc/sudoers"@,
            r.alert_on_shell_from_service,
            r.alert_on_privilege_escalation,
            r.alert_on_kernel_module_load,
            r.shell_binaries@.len() == 4,
            r.shell_binaries@[0]@ == "/bin/bash"@,
            r.shell_binaries@[1]@ == "/bin/sh"@,
            r.shell_binaries@[2]@ == "/bin/zsh"@,
            r.shell_binaries@[3]@ == "/bin/dash"@,
    {
        ProcessesSection {
            enabled: true,
            monitor_sensitive_files: default_sensitive_files(),
            alert_on_shell_from_service: true,
            alert_on_privilege_escalation: true,
            alert_on_kernel_module_load: true,
            shell_binaries: default_shells(),
        }
    }
}

impl GuardConfig {
    /// The configuration of an empty `guard.toml`: every section default.
    pub fn defaults() -> (r: GuardConfig)
        ensures
            r.guard.mode@ == "desktop"@,
            r.guard.alert@.len() == 1 && r.guard.alert@[0]@ == "journal"@,
            r.guard.webhook_url is None,
            r.guard.run_dir@ == "/run/nexis-guard"@,
            r.antivirus.enabled,
            !r.antivirus.on_access,
            r.antivirus.update_interval@ == "6h"@,
            r.antivirus.extra_yara_rules is None,
            r.antivirus.exclude@.len() == 0,
            !r.network.enabled,
            r.network.mode@ == "ids"@,
            r.network.interfaces@.len() == 0,
            r.network.rulesets@.len() == 1 && r.network.rulesets@[0]@ == "emerging-threats"@,
            r.network.home_net@ == "192.168.0.0/16"@,
            r.processes.enabled,
            r.processes.monitor_sensitive_files@.len() == 3,
            r.processes.monitor_sensitive_files@[0]@ == "/etc/shadow"@,
            r.processes.monitor_sensitive_files@[1]@ == "/etc/passwd"@,
            r.processes.monitor_sensitive_files@[2]@ == "/etc/sudoers"@,
            r.processes.alert_on_shell_from_service,
            r.processes.alert_on_privilege_escalation,
            r.processes.alert_on_kernel_module_load,
            r.processes.shell_binaries@.len() == 4,
            r.processes.shell_binaries@[0]@ == "/bin/bash"@,
            r.processes.shell_binaries@[1]@ == "/bin/sh"@,
            r.processes.shell_binaries@[2]@ == "/bin/zsh"@,
            r.processes.shell_binaries@[3]@ == "/bin/dash"@,
    {
        GuardConfig {
            guard: GuardSection::default(),
            antivirus: AntivirusSection::default(),
            network: NetworkSection::default(),
            processes: ProcessesSection::default(),
        }
    }
}

} // verus!
