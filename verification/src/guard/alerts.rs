//! Unified alerts: every backend's events normalize into a severity, a
//! source and a one-line summary.
//!
//! Tailing the backends' log files and decoding each JSON line into a
//! `JsonValue` is the caller's work; the functions here read the events'
//! fields and normalize them.
use crate::text::{join, owned, push_str, str_contains, str_eq, contains_seq, occurs_at, path_join, chars_of};
use crate::guard::json::{as_text, as_u64, get_member, jobj1, jstr, member, text_of, u64_of, JsonValue, JsonView};
use vstd::prelude::*;

verus! {

/// Alert severity, ordered Info < Warning < Critical.
#[derive(Debug, Clone, Copy, PartialEq, Eq, Structural)]
pub enum Severity {
    Info,
    Warning,
    Critical,
}

/// Which backend raised an alert.
#[derive(Debug, Clone, Copy, PartialEq, Eq, Structural)]
pub enum AlertSource {
    Tetragon,
    Suricata,
    Clamav,
}

/// Which backends stream alerts.
#[derive(Debug, Clone, Copy)]
pub struct EnabledBackends {
    pub tetragon: bool,
    pub suricata: bool,
    pub clamav: bool,
}

/// An alert reduced to what the front end shows, with the event it came
/// from.
pub struct NormalizedAlert {
    pub severity: Severity,
    pub source: AlertSource,
    pub summary: String,
    /// The decoded event; for a log line, `{"raw": <line>}`.
    pub details: JsonValue,
}

/// Position of a severity in the order Info < Warning < Critical.
pub open spec fn rank(s: Severity) -> nat {
    match s {
        Severity::Info => 0,
        Severity::Warning => 1,
        Severity::Critical => 2,
    }
}

/// `c` is `t` or, when `t` is a lowercase ASCII letter, its uppercase form.
pub open spec fn ci_char_eq(c: char, t: char) -> bool {
    c == t || ('a' <= t && t <= 'z' && c as u32 == t as u32 - 32)
}

/// `s` equals the lowercase word `w` ignoring ASCII case. For the words
/// used here this is exactly `s.to_lowercase() == w`: apart from `A`-`Z`,
/// no character lowercases to one of their letters.
pub open spec fn ci_eq(s: Seq<char>, w: Seq<char>) -> bool {
    s.len() == w.len() && forall|i: int| 0 <= i < s.len() ==> ci_char_eq(#[trigger] s[i], w[i])
}

fn ci_eq_exec(s: &[char], w: &[char]) -> (r: bool)
    ensures
        r == ci_eq(s@, w@),
{
    if s.len() != w.len() {
        return false;
    }
    let mut i: usize = 0;
    while i < s.len()
        invariant
            i <= s.len() == w.len(),
            forall|j: int| 0 <= j < i ==> ci_char_eq(#[trigger] s@[j], w@[j]),
        decreases s.len() - i,
    {
        let c = s[i];
        let t = w[i];
        if !(c == t || ('a' <= t && t <= 'z' && c as u32 == t as u32 - 32)) {
            return false;
        }
        i = i + 1;
    }
    true
}

/// The severity a word names, loosely.
pub open spec fn loose_severity(s: Seq<char>) -> Severity {
    if ci_eq(s, "critical"@) {
        Severity::Critical
    } else if ci_eq(s, "warning"@) || ci_eq(s, "warn"@) {
        Severity::Warning
    } else {
        Severity::Info
    }
}

impl Severity {
    /// Reads a severity name case-insensitively: "critical", "warning" or
    /// "warn"; anything else is Info.
    pub fn from_str_loose(s: &str) -> (r: Severity)
        ensures
            r == loose_severity(s@),
    {
        let v = chars_of(s);
        let crit = chars_of("critical");
        let warning = chars_of("warning");
        let warn = chars_of("warn");
        if ci_eq_exec(v.as_slice(), crit.as_slice()) {
            Severity::Critical
        } else if ci_eq_exec(v.as_slice(), warning.as_slice()) || ci_eq_exec(
            v.as_slice(),
            warn.as_slice(),
        ) {
            Severity::Warning
        } else {
            Severity::Info
        }
    }

    /// This severity is at or above `min`.
    pub fn at_least(&self, min: Severity) -> (r: bool)
        ensures
            r == (rank(*self) >= rank(min)),
    {
        let a: u8 = match self {
            Severity::Info => 0,
            Severity::Warning => 1,
            Severity::Critical => 2,
        };
        let b: u8 = match min {
            Severity::Info => 0,
            Severity::Warning => 1,
            Severity::Critical => 2,
        };
        a >= b
    }

    /// Lowercase name of a severity.
    pub fn name(&self) -> (r: &'static str)
        ensures
            r@ == severity_name(*self),
    {
        match self {
            Severity::Info => "info",
            Severity::Warning => "warning",
            Severity::Critical => "critical",
        }
    }
}

/// Lowercase name of a severity.
pub open spec fn severity_name(s: Severity) -> Seq<char> {
    match s {
        Severity::Info => "info"@,
        Severity::Warning => "warning"@,
        Severity::Critical => "critical"@,
    }
}

/// A severity's name reads back as that severity.
pub proof fn law_severity_name_roundtrip(s: Severity)
    ensures
        loose_severity(severity_name(s)) == s,
{
    reveal_strlit("info");
    reveal_strlit("warning");
    reveal_strlit("warn");
    reveal_strlit("critical");
    let w = severity_name(s);
    assert(ci_eq(w, w));
    match s {
        Severity::Info => {
            assert(w[0] == 'i');
            assert("warn"@[0] == 'w');
            assert(!ci_char_eq(w[0], "warn"@[0]));
            assert(!ci_eq(w, "warn"@));
        },
        _ => {},
    }
}

/// Severities are totally ordered by `at_least`.
pub proof fn law_severity_order(a: Severity, b: Severity, c: Severity)
    ensures
        rank(a) >= rank(a),
        rank(a) >= rank(b) || rank(b) >= rank(a),
        rank(a) >= rank(b) && rank(b) >= rank(a) ==> a == b,
        rank(a) >= rank(b) && rank(b) >= rank(c) ==> rank(a) >= rank(c),
{
}

/// Severity of a Tetragon event by its policy name.
pub open spec fn tetragon_severity(policy: Seq<char>) -> Severity {
    if contains_seq(policy, "privilege"@) || contains_seq(policy, "kernel-module"@)
        || contains_seq(policy, "shell-from-service"@) {
        Severity::Critical
    } else {
        Severity::Warning
    }
}

/// A Tetragon event is critical when its policy name mentions privilege,
/// kernel modules or shells spawned from services; an event of any other
/// policy is a warning.
pub proof fn law_tetragon_severity(policy: Seq<char>)
    ensures
        contains_seq(policy, "privilege"@) ==> tetragon_severity(policy) == Severity::Critical,
        contains_seq(policy, "kernel-module"@) ==> tetragon_severity(policy) == Severity::Critical,
        contains_seq(policy, "shell-from-service"@) ==> tetragon_severity(policy)
            == Severity::Critical,
        !contains_seq(policy, "privilege"@) && !contains_seq(policy, "kernel-module"@)
            && !contains_seq(policy, "shell-from-service"@) ==> tetragon_severity(policy)
            == Severity::Warning,
{
}

/// The events of the generated privilege-escalation, kernel-module-load and
/// shell-from-service policies are critical.
pub proof fn law_generated_policies_are_critical()
    ensures
        tetragon_severity("nexis-guard-privilege-escalation"@) == Severity::Critical,
        tetragon_severity("nexis-guard-kernel-module-load"@) == Severity::Critical,
        tetragon_severity("nexis-guard-shell-from-service"@) == Severity::Critical,
{
    reveal_strlit("nexis-guard-privilege-escalation");
    reveal_strlit("nexis-guard-kernel-module-load");
    reveal_strlit("nexis-guard-shell-from-service");
    reveal_strlit("privilege");
    reveal_strlit("kernel-module");
    reveal_strlit("shell-from-service");
    let a = "nexis-guard-privilege-escalation"@;
    let b = "nexis-guard-kernel-module-load"@;
    let c = "nexis-guard-shell-from-service"@;
    assert(a.subrange(12, 21) =~= "privilege"@);
    assert(occurs_at(a, "privilege"@, 12));
    assert(b.subrange(12, 25) =~= "kernel-module"@);
    assert(occurs_at(b, "kernel-module"@, 12));
    assert(c.subrange(12, 30) =~= "shell-from-service"@);
    assert(occurs_at(c, "shell-from-service"@, 12));
    law_tetragon_severity(a);
    law_tetragon_severity(b);
    law_tetragon_severity(c);
}

/// A missing text field reads as `default`.
pub open spec fn or_default(f: Option<Seq<char>>, default: Seq<char>) -> Seq<char> {
    match f {
        Some(s) => s,
        None => default,
    }
}

fn text_or(f: Option<&str>, default: &str) -> (r: String)
    ensures
        r@ == or_default(
            match f {
                Some(s) => Some(s@),
                None => None,
            },
            default@,
        ),
{
    match f {
        Some(s) => owned(s),
        None => owned(default),
    }
}

/// Severity of a Suricata alert by its numeric severity (3 when absent).
pub open spec fn suricata_severity(level: Option<u64>) -> Severity {
    match level {
        Some(1) => Severity::Critical,
        Some(2) => Severity::Warning,
        _ => Severity::Info,
    }
}

/// Suricata's severity 1 is critical and 2 a warning; every other level,
/// and a missing one, is informational.
pub proof fn law_suricata_levels(level: Option<u64>)
    ensures
        level == Some(1u64) ==> suricata_severity(level) == Severity::Critical,
        level == Some(2u64) ==> suricata_severity(level) == Severity::Warning,
        level != Some(1u64) && level != Some(2u64) ==> suricata_severity(level) == Severity::Info,
{
}

/// The text at `/k1/k2` of an event, if it is a string.
pub open spec fn text_at2(e: JsonView, k1: Seq<char>, k2: Seq<char>) -> Option<Seq<char>> {
    text_of(member(member(Some(e), k1), k2))
}

/// The text at the top-level member `k` of an event, if it is a string.
pub open spec fn text_at(e: JsonView, k: Seq<char>) -> Option<Seq<char>> {
    text_of(member(Some(e), k))
}

/// The Tetragon policy name of an event ("unknown" when absent).
pub open spec fn tetragon_policy(e: JsonView) -> Seq<char> {
    or_default(text_at(e, "policy_name"@), "unknown"@)
}

/// Normalizes a decoded Tetragon event: the summary is
/// "<policy_name>: <process/binary>" (either "unknown" when absent or not a
/// string), critical for privilege, kernel-module and shell-from-service
/// policies, a warning otherwise; the event itself is kept as the details.
pub fn tetragon_alert(event: JsonValue) -> (r: NormalizedAlert)
    ensures
        r.source == AlertSource::Tetragon,
        r.summary@ == tetragon_policy(event.view_json()) + ": "@ + or_default(
            text_at2(event.view_json(), "process"@, "binary"@),
            "unknown"@,
        ),
        r.severity == tetragon_severity(tetragon_policy(event.view_json())),
        r.details == event,
{
    let policy = text_or(as_text(get_member(Some(&event), "policy_name")), "unknown");
    let process = text_or(
        as_text(get_member(get_member(Some(&event), "process"), "binary")),
        "unknown",
    );
    let severity = if str_contains(policy.as_str(), "privilege") {
        Severity::Critical
    } else if str_contains(policy.as_str(), "kernel-module") {
        Severity::Critical
    } else if str_contains(policy.as_str(), "shell-from-service") {
        Severity::Critical
    } else {
        Severity::Warning
    };
    let mut summary = policy;
    push_str(&mut summary, ": ");
    push_str(&mut summary, process.as_str());
    NormalizedAlert { severity, source: AlertSource::Tetragon, summary, details: event }
}

/// Normalizes a decoded Suricata EVE event: only events whose `event_type`
/// is "alert" are alerts; the severity comes from `/alert/severity`, the
/// summary is "<alert/signature> (<src_ip> -> <dest_ip>)" with "unknown
/// alert" and "?" for absent fields; the event itself is kept as the
/// details.
pub fn suricata_alert(event: JsonValue) -> (r: Option<NormalizedAlert>)
    ensures
        ({
            let e = event.view_json();
            &&& or_default(text_at(e, "event_type"@), ""@) != "alert"@ ==> r is None
            &&& or_default(text_at(e, "event_type"@), ""@) == "alert"@ ==> (r matches Some(a)
                && a.source == AlertSource::Suricata && a.severity == suricata_severity(
                u64_of(member(member(Some(e), "alert"@), "severity"@)),
            ) && a.summary@ == or_default(text_at2(e, "alert"@, "signature"@), "unknown alert"@)
                + " ("@ + or_default(text_at(e, "src_ip"@), "?"@) + " -> "@ + or_default(
                text_at(e, "dest_ip"@),
                "?"@,
            ) + ")"@ && a.details == event)
        }),
{
    let et = text_or(as_text(get_member(Some(&event), "event_type")), "");
    if !str_eq(et.as_str(), "alert") {
        return None;
    }
    let alert = get_member(Some(&event), "alert");
    let severity = match as_u64(get_member(alert, "severity")) {
        Some(1) => Severity::Critical,
        Some(2) => Severity::Warning,
        _ => Severity::Info,
    };
    let mut summary = text_or(as_text(get_member(alert, "signature")), "unknown alert");
    push_str(&mut summary, " (");
    let src = text_or(as_text(get_member(Some(&event), "src_ip")), "?");
    push_str(&mut summary, src.as_str());
    push_str(&mut summary, " -> ");
    let dst = text_or(as_text(get_member(Some(&event), "dest_ip")), "?");
    push_str(&mut summary, dst.as_str());
    push_str(&mut summary, ")");
    Some(NormalizedAlert { severity, source: AlertSource::Suricata, summary, details: event })
}

/// Normalizes a line of the ClamAV log: lines holding "FOUND" are critical
/// alerts whose summary is the line itself and whose details are
/// `{"raw": <line>}`.
pub fn clamav_alert(line: &str) -> (r: Option<NormalizedAlert>)
    ensures
        !contains_seq(line@, "FOUND"@) ==> r is None,
        contains_seq(line@, "FOUND"@) ==> (r matches Some(a) && a.source == AlertSource::Clamav
            && a.severity == Severity::Critical && a.summary@ == line@ && a.details.view_json()
            == JsonView::Object(seq![("raw"@, JsonView::Str(line@))])),
{
    if str_contains(line, "FOUND") {
        let details = jobj1("raw", jstr(line));
        Some(
            NormalizedAlert {
                severity: Severity::Critical,
                source: AlertSource::Clamav,
                summary: owned(line),
                details,
            },
        )
    } else {
        None
    }
}

/// The log file each backend writes its events to, under the run directory.
pub open spec fn alert_log(run_dir: Seq<char>, s: AlertSource) -> Seq<char> {
    match s {
        AlertSource::Tetragon => path_join(path_join(run_dir, "tetragon"@), "events.json"@),
        AlertSource::Suricata => path_join(
            path_join(path_join(run_dir, "suricata"@), "log"@),
            "eve.json"@,
        ),
        AlertSource::Clamav => path_join(path_join(path_join(run_dir, "clamav"@), "log"@), "clamd.log"@),
    }
}

/// The log files to tail for the enabled backends, in the order Tetragon,
/// Suricata, ClamAV.
pub fn alert_streams(run_dir: &str, enabled: EnabledBackends) -> (r: Vec<(AlertSource, String)>)
    ensures
        ({
            let want = (if enabled.tetragon {
                seq![AlertSource::Tetragon]
            } else {
                seq![]
            }) + (if enabled.suricata {
                seq![AlertSource::Suricata]
            } else {
                seq![]
            }) + (if enabled.clamav {
                seq![AlertSource::Clamav]
            } else {
                seq![]
            });
            &&& r@.len() == want.len()
            &&& forall|i: int|
                0 <= i < r@.len() ==> (#[trigger] r@[i]).0 == want[i] && r@[i].1@ == alert_log(
                    run_dir@,
                    want[i],
                )
        }),
{
    let mut r: Vec<(AlertSource, String)> = Vec::new();
    let ghost mut want: Seq<AlertSource> = seq![];
    if enabled.tetragon {
        let d = join(run_dir, "tetragon");
        r.push((AlertSource::Tetragon, join(d.as_str(), "events.json")));
        proof {
            want = want.push(AlertSource::Tetragon);
        }
    }
    if enabled.suricata {
        let d = join(run_dir, "suricata");
        let l = join(d.as_str(), "log");
        r.push((AlertSource::Suricata, join(l.as_str(), "eve.json")));
        proof {
            want = want.push(AlertSource::Suricata);
        }
    }
    if enabled.clamav {
        let d = join(run_dir, "clamav");
        let l = join(d.as_str(), "log");
        r.push((AlertSource::Clamav, join(l.as_str(), "clamd.log")));
        proof {
            want = want.push(AlertSource::Clamav);
        }
    }
    proof {
        let w = (if enabled.tetragon {
            seq![AlertSource::Tetragon]
        } else {
            seq![]
        }) + (if enabled.suricata {
            seq![AlertSource::Suricata]
        } else {
            seq![]
        }) + (if enabled.clamav {
            seq![AlertSource::Clamav]
        } else {
            seq![]
        });
        assert(want =~= w);
    }
    r
}

} // verus!
