//! The `nexis-guard` command line, as parsed values, and the decisions the
//! front end makes from it.
use crate::text::owned;
use vstd::prelude::*;

verus! {

/// Parsed command line.
pub struct Cli {
    /// Path to guard.toml.
    pub config: String,
    /// Verbosity (-v, -vv, -vvv).
    pub verbose: u8,
    /// What to do.
    pub command: Command,
}

/// Subcommands.
pub enum Command {
    /// Start all enabled security services.
    Start,
    /// Stop all running security services.
    Stop,
    /// Show status of all backends.
    Status,
    /// On-demand file or directory scan.
    Scan { path: String },
    /// Generate backend configs without starting services.
    Init,
    /// Stream unified alerts at or above a severity.
    Logs { severity: String, follow: bool },
    /// Network IDS/IPS controls.
    Network { action: NetworkAction },
    /// Update signature databases.
    Update,
    /// Show or validate the configuration.
    Config { check: bool },
}

/// Network subcommands.
pub enum NetworkAction {
    /// Show active network flows.
    Flows,
    /// Block an IP or CIDR range.
    Block { target: String },
    /// Remove a manual block.
    Unblock { target: String },
    /// Show the block list.
    Blocklist,
}

/// Log level of the front end's diagnostics.
#[derive(Debug, Clone, Copy, PartialEq, Eq, Structural)]
pub enum LogLevel {
    Warn,
    Info,
    Debug,
    Trace,
}

/// The log level a verbosity count selects: none is warnings only, then
/// info, debug, and trace from three on.
pub open spec fn level_for(verbose: u8) -> LogLevel {
    if verbose == 0 {
        LogLevel::Warn
    } else if verbose == 1 {
        LogLevel::Info
    } else if verbose == 2 {
        LogLevel::Debug
    } else {
        LogLevel::Trace
    }
}

/// No `-v` shows warnings, `-v` info, `-vv` debug and three or more trace;
/// more verbosity never shows less.
pub proof fn law_verbosity(a: u8, b: u8)
    ensures
        a == 0 ==> level_for(a) == LogLevel::Warn,
        a == 1 ==> level_for(a) == LogLevel::Info,
        a == 2 ==> level_for(a) == LogLevel::Debug,
        a >= 3 ==> level_for(a) == LogLevel::Trace,
        a <= b ==> level_rank(level_for(a)) <= level_rank(level_for(b)),
{
}

/// Position of a log level from least to most verbose.
pub open spec fn level_rank(l: LogLevel) -> nat {
    match l {
        LogLevel::Warn => 0,
        LogLevel::Info => 1,
        LogLevel::Debug => 2,
        LogLevel::Trace => 3,
    }
}

/// Selects the log level from the verbosity count.
pub fn log_level(verbose: u8) -> (r: LogLevel)
    ensures
        r == level_for(verbose),
{
    match verbose {
        0 => LogLevel::Warn,
        1 => LogLevel::Info,
        2 => LogLevel::Debug,
        _ => LogLevel::Trace,
    }
}

/// Arguments of `nft` that add a drop rule for a source address.
pub fn block_args(target: &str) -> (r: Vec<String>)
    ensures
        r@.len() == 9,
        r@[0]@ == "add"@,
        r@[1]@ == "rule"@,
        r@[2]@ == "inet"@,
        r@[3]@ == "nexis-guard"@,
        r@[4]@ == "input"@,
        r@[5]@ == "ip"@,
        r@[6]@ == "saddr"@,
        r@[7]@ == target@,
        r@[8]@ == "drop"@,
{
    let mut r: Vec<String> = Vec::new();
    r.push(owned("add"));
    r.push(owned("rule"));
    r.push(owned("inet"));
    r.push(owned("nexis-guard"));
    r.push(owned("input"));
    r.push(owned("ip"));
    r.push(owned("saddr"));
    r.push(owned(target));
    r.push(owned("drop"));
    r
}

/// Arguments of `nft` that list the guard's input chain.
pub fn blocklist_args() -> (r: Vec<String>)
    ensures
        r@.len() == 5,
        r@[0]@ == "list"@,
        r@[1]@ == "chain"@,
        r@[2]@ == "inet"@,
        r@[3]@ == "nexis-guard"@,
        r@[4]@ == "input"@,
{
    let mut r: Vec<String> = Vec::new();
    r.push(owned("list"));
    r.push(owned("chain"));
    r.push(owned("inet"));
    r.push(owned("nexis-guard"));
    r.push(owned("input"));
    r
}

} // verus!
