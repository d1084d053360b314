//! Tetragon TracingPolicy documents generated from the `[processes]` section.
use crate::guard::config::{GuardConfig, ProcessesSection};
use crate::guard::json::{jarr1, jarr2, jarr3, jobj1, jobj2, jobj3, jobj4, jstr, jstr_array, JsonValue, JsonView};
use crate::text::{join, path_join};
use vstd::prelude::*;

verus! {

/// `{"apiVersion": "cilium.io/v1alpha1", "kind": "TracingPolicy",
/// "metadata": {"name": <name>}, "spec": <body>}`.
pub open spec fn policy_doc(name: Seq<char>, body: JsonView) -> JsonView {
    JsonView::Object(
        seq![
            ("apiVersion"@, JsonView::Str("cilium.io/v1alpha1"@)),
            ("kind"@, JsonView::Str("TracingPolicy"@)),
            ("metadata"@, JsonView::Object(seq![("name"@, JsonView::Str(name))])),
            ("spec"@, body),
        ],
    )
}

/// `{"index": <index>, "type": <ty>}`.
pub open spec fn arg_doc(index: int, ty: Seq<char>) -> JsonView {
    JsonView::Object(seq![("index"@, JsonView::Int(index)), ("type"@, JsonView::Str(ty))])
}

/// `[{"action": "Post"}]`.
pub open spec fn post_doc() -> JsonView {
    JsonView::Array(seq![JsonView::Object(seq![("action"@, JsonView::Str("Post"@))])])
}

/// `{"index": <index>, "operator": <op>, "values": <values>}`.
pub open spec fn match_arg_doc(index: int, op: Seq<char>, values: JsonView) -> JsonView {
    JsonView::Object(
        seq![
            ("index"@, JsonView::Int(index)),
            ("operator"@, JsonView::Str(op)),
            ("values"@, values),
        ],
    )
}

/// A selector list with one selector: its argument matches and a Post action.
pub open spec fn selectors_doc(matches: JsonView) -> JsonView {
    JsonView::Array(
        seq![JsonView::Object(seq![("matchArgs"@, matches), ("matchActions"@, post_doc())])],
    )
}

/// `{"<hooks>": [{"call": <call>, "syscall": false, "args": <args>, "selectors": <sel>}]}`.
pub open spec fn kprobe_body(call: Seq<char>, args: JsonView, selectors: JsonView) -> JsonView {
    JsonView::Object(
        seq![
            (
                "kprobes"@,
                JsonView::Array(
                    seq![
                        JsonView::Object(
                            seq![
                                ("call"@, JsonView::Str(call)),
                                ("syscall"@, JsonView::Bool(false)),
                                ("args"@, args),
                                ("selectors"@, selectors),
                            ],
                        ),
                    ],
                ),
            ),
        ],
    )
}

/// Strings as a JSON array.
pub open spec fn str_list(items: Seq<String>) -> JsonView {
    JsonView::Array(Seq::new(items.len(), |i: int| JsonView::Str(items[i]@)))
}

/// The policy that fires on opening one of the sensitive files.
pub open spec fn sensitive_file_doc(paths: Seq<String>) -> JsonView {
    policy_doc(
        "nexis-guard-sensitive-files"@,
        kprobe_body(
            "fd_install"@,
            JsonView::Array(seq![arg_doc(0, "int"@), arg_doc(1, "file"@)]),
            selectors_doc(JsonView::Array(seq![match_arg_doc(1, "Prefix"@, str_list(paths))])),
        ),
    )
}

/// The policy that detects a shell executed by a service.
pub open spec fn shell_from_service_doc(shells: Seq<String>) -> JsonView {
    policy_doc(
        "nexis-guard-shell-from-service"@,
        JsonView::Object(
            seq![
                (
                    "tracepoints"@,
                    JsonView::Array(
                        seq![
                            JsonView::Object(
                                seq![
                                    ("subsystem"@, JsonView::Str("syscalls"@)),
                                    ("event"@, JsonView::Str("sys_enter_execve"@)),
                                    ("args"@, JsonView::Array(seq![arg_doc(4, "string"@)])),
                                    (
                                        "selectors"@,
                                        selectors_doc(
                                            JsonView::Array(
                                                seq![match_arg_doc(4, "In"@, str_list(shells))],
                                            ),
                                        ),
                                    ),
                                ],
                            ),
                        ],
                    ),
                ),
            ],
        ),
    )
}

/// The policy that watches for a switch to user 0.
pub open spec fn privilege_escalation_doc() -> JsonView {
    policy_doc(
        "nexis-guard-privilege-escalation"@,
        kprobe_body(
            "__sys_setuid"@,
            JsonView::Array(seq![arg_doc(0, "int"@)]),
            selectors_doc(
                JsonView::Array(
                    seq![match_arg_doc(0, "Equal"@, JsonView::Array(seq![JsonView::Str("0"@)]))],
                ),
            ),
        ),
    )
}

/// The policy that watches for kernel module loading.
pub open spec fn kernel_module_doc() -> JsonView {
    policy_doc(
        "nexis-guard-kernel-module-load"@,
        kprobe_body(
            "finit_module"@,
            JsonView::Array(seq![arg_doc(0, "int"@), arg_doc(1, "string"@), arg_doc(2, "int"@)]),
            JsonView::Array(seq![JsonView::Object(seq![("matchActions"@, post_doc())])]),
        ),
    )
}

fn policy(name: &str, body: JsonValue) -> (r: JsonValue)
    ensures
        r.view_json() == policy_doc(name@, body.view_json()),
{
    jobj4(
        "apiVersion",
        jstr("cilium.io/v1alpha1"),
        "kind",
        jstr("TracingPolicy"),
        "metadata",
        jobj1("name", jstr(name)),
        "spec",
        body,
    )
}

fn arg(index: i64, ty: &str) -> (r: JsonValue)
    ensures
        r.view_json() == arg_doc(index as int, ty@),
{
    jobj2("index", JsonValue::Int(index), "type", jstr(ty))
}

fn post() -> (r: JsonValue)
    ensures
        r.view_json() == post_doc(),
{
    jarr1(jobj1("action", jstr("Post")))
}

fn match_arg(index: i64, op: &str, values: JsonValue) -> (r: JsonValue)
    ensures
        r.view_json() == match_arg_doc(index as int, op@, values.view_json()),
{
    jobj3("index", JsonValue::Int(index), "operator", jstr(op), "values", values)
}

fn selectors(matches: JsonValue) -> (r: JsonValue)
    ensures
        r.view_json() == selectors_doc(matches.view_json()),
{
    jarr1(jobj2("matchArgs", matches, "matchActions", post()))
}

fn kprobe(call: &str, args: JsonValue, sel: JsonValue) -> (r: JsonValue)
    ensures
        r.view_json() == kprobe_body(call@, args.view_json(), sel.view_json()),
{
    jobj1(
        "kprobes",
        jarr1(
            jobj4("call", jstr(call), "syscall", JsonValue::Bool(false), "args", args, "selectors", sel),
        ),
    )
}

/// TracingPolicy that fires on opening any of the sensitive files.
pub fn sensitive_file_policy(proc: &ProcessesSection) -> (r: JsonValue)
    ensures
        r.view_json() == sensitive_file_doc(proc.monitor_sensitive_files@),
{
    let paths = jstr_array(&proc.monitor_sensitive_files);
    policy(
        "nexis-guard-sensitive-files",
        kprobe(
            "fd_install",
            jarr2(arg(0, "int"), arg(1, "file")),
            selectors(jarr1(match_arg(1, "Prefix", paths))),
        ),
    )
}

/// TracingPolicy that detects interactive shells spawned by service processes.
pub fn shell_from_service_policy(proc: &ProcessesSection) -> (r: JsonValue)
    ensures
        r.view_json() == shell_from_service_doc(proc.shell_binaries@),
{
    let shells = jstr_array(&proc.shell_binaries);
    policy(
        "nexis-guard-shell-from-service",
        jobj1(
            "tracepoints",
            jarr1(
                jobj4(
                    "subsystem",
                    jstr("syscalls"),
                    "event",
                    jstr("sys_enter_execve"),
                    "args",
                    jarr1(arg(4, "string")),
                    "selectors",
                    selectors(jarr1(match_arg(4, "In", shells))),
                ),
            ),
        ),
    )
}

/// TracingPolicy that watches for setuid transitions to user 0.
pub fn privilege_escalation_policy() -> (r: JsonValue)
    ensures
        r.view_json() == privilege_escalation_doc(),
{
    policy(
        "nexis-guard-privilege-escalation",
        kprobe(
            "__sys_setuid",
            jarr1(arg(0, "int")),
            selectors(jarr1(match_arg(0, "Equal", jarr1(jstr("0"))))),
        ),
    )
}

/// TracingPolicy that watches for kernel module loading.
pub fn kernel_module_policy() -> (r: JsonValue)
    ensures
        r.view_json() == kernel_module_doc(),
{
    policy(
        "nexis-guard-kernel-module-load",
        kprobe(
            "finit_module",
            jarr3(arg(0, "int"), arg(1, "string"), arg(2, "int")),
            jarr1(jobj1("matchActions", post())),
        ),
    )
}

/// A policy document to write.
pub struct PolicyFile {
    /// Where to write it.
    pub path: String,
    /// The policy.
    pub policy: JsonValue,
}

/// The policy files the `[processes]` section asks for, in the order:
/// sensitive files (when any are listed), shell from service, privilege
/// escalation, kernel module load (each when its alert is on).
pub open spec fn policy_files(p: ProcessesSection, dir: Seq<char>) -> Seq<(Seq<char>, JsonView)> {
    (if p.monitor_sensitive_files@.len() > 0 {
        seq![(path_join(dir, "sensitive-files.json"@), sensitive_file_doc(p.monitor_sensitive_files@))]
    } else {
        seq![]
    }) + (if p.alert_on_shell_from_service {
        seq![(path_join(dir, "shell-from-service.json"@), shell_from_service_doc(p.shell_binaries@))]
    } else {
        seq![]
    }) + (if p.alert_on_privilege_escalation {
        seq![(path_join(dir, "privilege-escalation.json"@), privilege_escalation_doc())]
    } else {
        seq![]
    }) + (if p.alert_on_kernel_module_load {
        seq![(path_join(dir, "kernel-module-load.json"@), kernel_module_doc())]
    } else {
        seq![]
    })
}

/// The Tetragon policy files to write under `<run_dir>/tetragon`; the
/// directory is returned first so it can be created.
pub fn generate(config: &GuardConfig, run_dir: &str) -> (r: (String, Vec<PolicyFile>))
    ensures
        r.0@ == path_join(run_dir@, "tetragon"@),
        r.1@.len() == policy_files(config.processes, r.0@).len(),
        forall|i: int|
            0 <= i < r.1@.len() ==> (#[trigger] r.1@[i]).path@ == policy_files(
                config.processes,
                r.0@,
            )[i].0 && r.1@[i].policy.view_json() == policy_files(config.processes, r.0@)[i].1,
{
    let proc = &config.processes;
    let dir = join(run_dir, "tetragon");
    let ghost mut want: Seq<(Seq<char>, JsonView)> = seq![];
    let mut files: Vec<PolicyFile> = Vec::new();
    if proc.monitor_sensitive_files.len() > 0 {
        let f = PolicyFile {
            path: join(dir.as_str(), "sensitive-files.json"),
            policy: sensitive_file_policy(proc),
        };
        proof {
            want = want.push((f.path@, f.policy.view_json()));
        }
        files.push(f);
    }
    if proc.alert_on_shell_from_service {
        let f = PolicyFile {
            path: join(dir.as_str(), "shell-from-service.json"),
            policy: shell_from_service_policy(proc),
        };
        proof {
            want = want.push((f.path@, f.policy.view_json()));
        }
        files.push(f);
    }
    if proc.alert_on_privilege_escalation {
        let f = PolicyFile {
            path: join(dir.as_str(), "privilege-escalation.json"),
            policy: privilege_escalation_policy(),
        };
        proof {
            want = want.push((f.path@, f.policy.view_json()));
        }
        files.push(f);
    }
    if proc.alert_on_kernel_module_load {
        let f = PolicyFile {
            path: join(dir.as_str(), "kernel-module-load.json"),
            policy: kernel_module_policy(),
        };
        proof {
            want = want.push((f.path@, f.policy.view_json()));
        }
        files.push(f);
    }
    proof {
        assert(want =~= policy_files(config.processes, dir@));
        assert forall|i: int| 0 <= i < files@.len() implies (#[trigger] files@[i]).path@ == want[i].0
            && files@[i].policy.view_json() == want[i].1 by {
        }
    }
    (dir, files)
}

} // verus!
