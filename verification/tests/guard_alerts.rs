use nexis::guard::alerts::{
    alert_streams, clamav_alert, suricata_alert, tetragon_alert, AlertSource, EnabledBackends,
    Severity,
};
use nexis::guard::json::JsonValue;
use serde_json::Value;

fn decode(v: Value) -> JsonValue {
    match v {
        Value::Null => JsonValue::Null,
        Value::Bool(b) => JsonValue::Bool(b),
        Value::Number(n) => match (n.as_i64(), n.as_u64()) {
            (Some(i), _) => JsonValue::Int(i),
            (None, Some(u)) => JsonValue::UInt(u),
            _ => JsonValue::Number(n.to_string()),
        },
        Value::String(s) => JsonValue::Str(s),
        Value::Array(a) => JsonValue::Array(a.into_iter().map(decode).collect()),
        Value::Object(m) => JsonValue::Object(m.into_iter().map(|(k, x)| (k, decode(x))).collect()),
    }
}

fn event(text: &str) -> JsonValue {
    decode(serde_json::from_str(text).unwrap())
}

fn encode(v: &JsonValue) -> Value {
    match v {
        JsonValue::Null => Value::Null,
        JsonValue::Bool(b) => Value::Bool(*b),
        JsonValue::Int(i) => Value::from(*i),
        JsonValue::UInt(u) => Value::from(*u),
        JsonValue::Number(t) => serde_json::from_str(t).unwrap(),
        JsonValue::Str(s) => Value::String(s.clone()),
        JsonValue::Array(a) => Value::Array(a.iter().map(encode).collect()),
        JsonValue::Object(m) => Value::Object(m.iter().map(|(k, x)| (k.clone(), encode(x))).collect()),
    }
}
use nexis::guard::cli::{block_args, blocklist_args, log_level, LogLevel};
use nexis::guard::scan::{ping_args, scan_args, scan_findings, scanned_files, summary_args, ScanError, ScanResult};

#[test]
fn severity_names_loosely() {
    assert_eq!(Severity::from_str_loose("critical"), Severity::Critical);
    assert_eq!(Severity::from_str_loose("CRITICAL"), Severity::Critical);
    assert_eq!(Severity::from_str_loose("Warning"), Severity::Warning);
    assert_eq!(Severity::from_str_loose("WARN"), Severity::Warning);
    assert_eq!(Severity::from_str_loose("info"), Severity::Info);
    assert_eq!(Severity::from_str_loose("anything"), Severity::Info);
    assert_eq!(Severity::from_str_loose(""), Severity::Info);
    for s in [Severity::Info, Severity::Warning, Severity::Critical] {
        assert_eq!(Severity::from_str_loose(s.name()), s);
    }
}

#[test]
fn severity_order() {
    assert!(Severity::Critical.at_least(Severity::Warning));
    assert!(Severity::Warning.at_least(Severity::Warning));
    assert!(!Severity::Info.at_least(Severity::Warning));
    assert!(Severity::Info.at_least(Severity::Info));
    assert_eq!(Severity::Critical.name(), "critical");
}

#[test]
fn tetragon_events() {
    let text = r#"{"policy_name":"nexis-guard-privilege-escalation","process":{"binary":"/usr/bin/sudo","pid":41}}"#;
    let a = tetragon_alert(event(text));
    assert_eq!(a.severity, Severity::Critical);
    assert_eq!(a.source, AlertSource::Tetragon);
    assert_eq!(a.summary, "nexis-guard-privilege-escalation: /usr/bin/sudo");
    assert_eq!(encode(&a.details), serde_json::from_str::<Value>(text).unwrap());
    let b = tetragon_alert(event(r#"{"policy_name":"nexis-guard-sensitive-files"}"#));
    assert_eq!(b.severity, Severity::Warning);
    assert_eq!(b.summary, "nexis-guard-sensitive-files: unknown");
    let c = tetragon_alert(event(r#"{"policy_name":7,"process":{"binary":null}}"#));
    assert_eq!(c.summary, "unknown: unknown");
    assert_eq!(c.severity, Severity::Warning);
    let d = tetragon_alert(event(r#"[1, 2.5]"#));
    assert_eq!(d.summary, "unknown: unknown");
}

#[test]
fn suricata_events() {
    let text = r#"{"event_type":"alert","src_ip":"10.0.0.1","dest_ip":"10.0.0.2","alert":{"signature":"ET SCAN nmap","severity":1},"flow_id":18446744073709551615,"score":0.5}"#;
    let a = suricata_alert(event(text)).unwrap();
    assert_eq!(a.severity, Severity::Critical);
    assert_eq!(a.source, AlertSource::Suricata);
    assert_eq!(a.summary, "ET SCAN nmap (10.0.0.1 -> 10.0.0.2)");
    assert_eq!(encode(&a.details), serde_json::from_str::<Value>(text).unwrap());
    let b = suricata_alert(event(r#"{"event_type":"alert"}"#)).unwrap();
    assert_eq!(b.severity, Severity::Info);
    assert_eq!(b.summary, "unknown alert (? -> ?)");
    let w = suricata_alert(event(r#"{"event_type":"alert","alert":{"severity":2}}"#)).unwrap();
    assert_eq!(w.severity, Severity::Warning);
    let neg = suricata_alert(event(r#"{"event_type":"alert","alert":{"severity":-1}}"#)).unwrap();
    assert_eq!(neg.severity, Severity::Info);
    let frac = suricata_alert(event(r#"{"event_type":"alert","alert":{"severity":1.0}}"#)).unwrap();
    assert_eq!(frac.severity, Severity::Info);
    assert!(suricata_alert(event(r#"{"event_type":"dns","alert":{"severity":1}}"#)).is_none());
    assert!(suricata_alert(event(r#"{}"#)).is_none());
}

#[test]
fn clamav_lines() {
    let a = clamav_alert("/home/u/eicar.com: Eicar-Signature FOUND").unwrap();
    assert_eq!(a.severity, Severity::Critical);
    assert_eq!(a.source, AlertSource::Clamav);
    assert_eq!(a.summary, "/home/u/eicar.com: Eicar-Signature FOUND");
    assert_eq!(
        encode(&a.details),
        serde_json::from_str::<Value>(r#"{"raw":"/home/u/eicar.com: Eicar-Signature FOUND"}"#).unwrap()
    );
    assert!(clamav_alert("/home/u/ok.txt: OK").is_none());
}

#[test]
fn alert_log_files() {
    let all = alert_streams("/run/g", EnabledBackends { tetragon: true, suricata: true, clamav: true });
    assert_eq!(
        all,
        vec![
            (AlertSource::Tetragon, "/run/g/tetragon/events.json".to_string()),
            (AlertSource::Suricata, "/run/g/suricata/log/eve.json".to_string()),
            (AlertSource::Clamav, "/run/g/clamav/log/clamd.log".to_string()),
        ]
    );
    let some = alert_streams("/run/g", EnabledBackends { tetragon: false, suricata: true, clamav: false });
    assert_eq!(some, vec![(AlertSource::Suricata, "/run/g/suricata/log/eve.json".to_string())]);
}

#[test]
fn cli_helpers() {
    assert_eq!(log_level(0), LogLevel::Warn);
    assert_eq!(log_level(1), LogLevel::Info);
    assert_eq!(log_level(2), LogLevel::Debug);
    assert_eq!(log_level(9), LogLevel::Trace);
    assert_eq!(
        block_args("1.2.3.4"),
        vec!["add", "rule", "inet", "nexis-guard", "input", "ip", "saddr", "1.2.3.4", "drop"]
    );
    assert_eq!(blocklist_args(), vec!["list", "chain", "inet", "nexis-guard", "input"]);
}

#[test]
fn scan_arguments() {
    assert_eq!(
        scan_args("/home", "/run/g/clamav/clamd.sock"),
        vec![
            "--fdpass",
            "--stream",
            "--config-file=/dev/null",
            "--socket=/run/g/clamav/clamd.sock",
            "--infected",
            "--no-summary",
            "/home"
        ]
    );
    assert_eq!(summary_args("/home", "/s"), vec!["--fdpass", "--socket=/s", "/home"]);
    assert_eq!(ping_args("/s"), vec!["--ping", "--socket=/s"]);
}

#[test]
fn scan_reports() {
    let out = b"/a/x: Eicar FOUND\n/a/y: OK\n/a/z: Trojan FOUND\n";
    let found = scan_findings(Some(1), out, b"").unwrap();
    assert_eq!(found, vec!["/a/x: Eicar FOUND", "/a/z: Trojan FOUND"]);
    assert!(scan_findings(Some(0), b"", b"").unwrap().is_empty());
    match scan_findings(Some(2), b"", b"cannot connect") {
        Err(ScanError::Failed(e)) => assert_eq!(e, "cannot connect"),
        other => panic!("unexpected {:?}", other.map(|v| v.len())),
    }
    let summary = b"----------- SCAN SUMMARY -----------\nInfected files: 0\nScanned files: 42\n";
    assert_eq!(scanned_files(Some(&summary[..])), 42);
    assert_eq!(scanned_files(Some(&b"nothing here"[..])), 0);
    assert_eq!(scanned_files(None), 0);
    let r = ScanResult::from_findings(42, found);
    assert_eq!(r.scanned, 42);
    assert_eq!(r.infected, 2);
    assert_eq!(r.findings.len(), 2);
}

#[test]
fn scan_output_decoded_lossily() {
    match scan_findings(Some(2), b"", &[b'e', 0xff, b'!']) {
        Err(ScanError::Failed(e)) => assert_eq!(e, "e\u{FFFD}!"),
        other => panic!("unexpected {:?}", other.map(|v| v.len())),
    }
    let found = scan_findings(Some(1), &[0xfe, b' ', b'F', b'O', b'U', b'N', b'D', b'\n'], b"").unwrap();
    assert_eq!(found, vec!["\u{FFFD} FOUND"]);
}
