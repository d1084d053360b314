use nexis::guard::config::{
    default_alert_targets, default_config_path, default_home_net, default_ids_mode, default_mode,
    default_rulesets, default_run_dir, default_sensitive_files, default_shells, default_true,
    default_update_interval, GuardConfig,
};
use nexis::guard::json::JsonValue;
use nexis::guard::services::{backends_to_start, launch_plan, status_backends, Backend};
use nexis::guard::suricata::{build_suricata_yaml, build_update_yaml, generate as suricata_generate};
use nexis::guard::tetragon::{
    generate as tetragon_generate, kernel_module_policy, privilege_escalation_policy,
    sensitive_file_policy, shell_from_service_policy,
};
use nexis::guard::translate::{translators, Translator};
use serde_json::Value;

fn to_value(v: &JsonValue) -> Value {
    match v {
        JsonValue::Null => Value::Null,
        JsonValue::Bool(b) => Value::Bool(*b),
        JsonValue::Int(i) => Value::from(*i),
        JsonValue::UInt(u) => Value::from(*u),
        JsonValue::Number(t) => serde_json::from_str(t).unwrap(),
        JsonValue::Str(s) => Value::String(s.clone()),
        JsonValue::Array(a) => Value::Array(a.iter().map(to_value).collect()),
        JsonValue::Object(m) => {
            let mut o = serde_json::Map::new();
            for (k, x) in m {
                o.insert(k.clone(), to_value(x));
            }
            Value::Object(o)
        }
    }
}

fn parse(text: &str) -> Value {
    serde_json::from_str(text).unwrap()
}

#[test]
fn default_values() {
    assert!(default_true());
    assert_eq!(default_mode(), "desktop");
    assert_eq!(default_alert_targets(), vec!["journal"]);
    assert_eq!(default_run_dir(), "/run/nexis-guard");
    assert_eq!(default_update_interval(), "6h");
    assert_eq!(default_ids_mode(), "ids");
    assert_eq!(default_rulesets(), vec!["emerging-threats"]);
    assert_eq!(default_home_net(), "192.168.0.0/16");
    assert_eq!(default_sensitive_files(), vec!["/etc/shadow", "/etc/passwd", "/etc/sudoers"]);
    assert_eq!(default_shells(), vec!["/bin/bash", "/bin/sh", "/bin/zsh", "/bin/dash"]);
    assert_eq!(default_config_path(), "/etc/nexis/guard.toml");
    let c = GuardConfig::defaults();
    assert!(c.antivirus.enabled && !c.network.enabled && c.processes.enabled);
    assert!(!c.antivirus.on_access);
}

fn expected_yaml(home_net: &str, log_dir: &str, af_packet: &str) -> String {
    format!(
        "%YAML 1.1\n---\n\nvars:\n  address-groups:\n    HOME_NET: \"[{home_net}]\"\n    EXTERNAL_NET: \"!$HOME_NET\"\n  port-groups:\n    HTTP_PORTS: \"80\"\n    SHELLCODE_PORTS: \"!80\"\n    SSH_PORTS: \"22\"\n\ndefault-log-dir: {log_dir}\n\noutputs:\n  - eve-log:\n      enabled: yes\n      filetype: regular\n      filename: eve.json\n      types:\n        - alert:\n            tagged-packets: yes\n        - dns\n        - tls\n        - http\n        - flow\n        - stats:\n            totals: yes\n            threads: no\n\n{af_packet}\n\napp-layer:\n  protocols:\n    dns:\n      tcp:\n        enabled: yes\n      udp:\n        enabled: yes\n    tls:\n      enabled: yes\n    http:\n      enabled: yes\n\ndefault-rule-path: /var/lib/suricata/rules\nrule-files:\n  - suricata.rules\n"
    )
}

#[test]
fn suricata_yaml_default_interface() {
    let c = GuardConfig::defaults();
    let yaml = build_suricata_yaml(&c);
    assert_eq!(
        yaml,
        expected_yaml(
            "192.168.0.0/16",
            "/run/nexis-guard/suricata/log",
            "af-packet:\n    - interface: default\n      cluster-id: 99"
        )
    );
}

#[test]
fn suricata_yaml_ips_interfaces() {
    let mut c = GuardConfig::defaults();
    c.network.mode = "ips".to_string();
    c.network.interfaces = vec!["eth0".to_string(), "eth1".to_string()];
    c.network.home_net = "10.0.0.0/8".to_string();
    let iface = |n: &str| {
        format!("    - interface: {n}\n      cluster-id: 99\n      cluster-type: cluster_flow\n      defrag: yes\n      copy-mode: ips\n      copy-iface: default")
    };
    let af = format!("af-packet:\n{}\n{}", iface("eth0"), iface("eth1"));
    assert_eq!(build_suricata_yaml(&c), expected_yaml("10.0.0.0/8", "/run/nexis-guard/suricata/log", &af));
}

#[test]
fn update_yaml_sources() {
    let mut c = GuardConfig::defaults();
    c.network.rulesets = vec!["emerging-threats".to_string(), "abuse-ch".to_string(), "custom/x".to_string()];
    assert_eq!(
        build_update_yaml(&c.network),
        "# suricata-update configuration\nenable-sources:\n  - et/open\n  - abuse-ch/urlhaus\n  - custom/x\n\n# Reload suricata after update\nreload-command: suricatasc -c reload-rules\n"
    );
    let (dir, files) = suricata_generate(&c, "/run/g");
    assert_eq!(dir, "/run/g/suricata");
    assert_eq!(files[0].path, "/run/g/suricata/suricata.yaml");
    assert_eq!(files[1].path, "/run/g/suricata/update.yaml");
    assert_eq!(files[1].contents, build_update_yaml(&c.network));
}

#[test]
fn tetragon_sensitive_files() {
    let c = GuardConfig::defaults();
    let got = to_value(&sensitive_file_policy(&c.processes));
    let want = parse(r#"{"apiVersion":"cilium.io/v1alpha1","kind":"TracingPolicy","metadata":{"name":"nexis-guard-sensitive-files"},"spec":{"kprobes":[{"call":"fd_install","syscall":false,"args":[{"index":0,"type":"int"},{"index":1,"type":"file"}],"selectors":[{"matchArgs":[{"index":1,"operator":"Prefix","values":["/etc/shadow","/etc/passwd","/etc/sudoers"]}],"matchActions":[{"action":"Post"}]}]}]}}"#);
    assert_eq!(got, want);
}

#[test]
fn tetragon_policy_names() {
    let c = GuardConfig::defaults();
    let name = |v: Value| v["metadata"]["name"].as_str().unwrap().to_string();
    assert_eq!(name(to_value(&shell_from_service_policy(&c.processes))), "nexis-guard-shell-from-service");
    assert_eq!(name(to_value(&privilege_escalation_policy())), "nexis-guard-privilege-escalation");
    assert_eq!(name(to_value(&kernel_module_policy())), "nexis-guard-kernel-module-load");
    let shells = to_value(&shell_from_service_policy(&c.processes));
    assert_eq!(shells["kind"], Value::String("TracingPolicy".to_string()));
    let (dir, files) = tetragon_generate(&c, "/run/g");
    assert_eq!(dir, "/run/g/tetragon");
    let paths: Vec<&str> = files.iter().map(|f| f.path.as_str()).collect();
    assert_eq!(
        paths,
        vec![
            "/run/g/tetragon/sensitive-files.json",
            "/run/g/tetragon/shell-from-service.json",
            "/run/g/tetragon/privilege-escalation.json",
            "/run/g/tetragon/kernel-module-load.json"
        ]
    );
}

#[test]
fn backends_and_launches() {
    let mut c = GuardConfig::defaults();
    assert_eq!(backends_to_start(&c), vec![Backend::Clamd, Backend::Tetragon]);
    c.antivirus.on_access = true;
    c.network.enabled = true;
    assert_eq!(
        backends_to_start(&c),
        vec![Backend::Clamd, Backend::Clamonacc, Backend::Suricata, Backend::Tetragon]
    );
    assert_eq!(status_backends().len(), 4);
    assert_eq!(Backend::Clamonacc.name(), "clamonacc");
    let l = launch_plan(Backend::Suricata, "/run/g");
    assert_eq!(l.program, "suricata");
    assert_eq!(
        l.args,
        vec!["-c", "/run/g/suricata/suricata.yaml", "-l", "/run/g/suricata/log", "--af-packet"]
    );
    assert_eq!(l.log_dir.as_deref(), Some("/run/g/suricata/log"));
    let t = launch_plan(Backend::Tetragon, "/run/g");
    assert_eq!(
        t.args,
        vec!["--tracing-policy-dir", "/run/g/tetragon", "--export-filename", "/run/g/tetragon/events.json"]
    );
    assert_eq!(t.log_dir, None);
    assert_eq!(translators(&c), vec![Translator::Clamav, Translator::Suricata, Translator::Tetragon]);
    c.processes.enabled = false;
    c.antivirus.enabled = false;
    assert_eq!(translators(&c), vec![Translator::Suricata]);
}
