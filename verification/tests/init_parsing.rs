use nexis::init::cgroup::{
    parse_size, place_pid, scope_knobs, scope_path, size_in_range, slice_path, SizeError,
};
use nexis::init::config::{load_merged, CgroupConfig, ServiceConfig, ServicesConfig};
use nexis::init::events::{
    event_source, notify_actions, signal_action, EventSource, SignalAction,
};
use nexis::init::notify::{parse_fields, NotifyMessage};
use nexis::init::signal::{InitSignal, SignalNumbers};

#[test]
fn sizes_with_units() {
    assert_eq!(parse_size("512M"), Ok(512 * 1024 * 1024));
    assert_eq!(parse_size("2G"), Ok(2 * 1024 * 1024 * 1024));
    assert_eq!(parse_size("1024K"), Ok(1024 * 1024));
    assert_eq!(parse_size("4096"), Ok(4096));
    assert_eq!(parse_size("  64M  "), Ok(64 * 1024 * 1024));
    assert_eq!(parse_size("+5K"), Ok(5 * 1024));
}

#[test]
fn invalid_sizes() {
    assert_eq!(parse_size("lots"), Err(SizeError::InvalidNumber));
    assert_eq!(parse_size(""), Err(SizeError::InvalidNumber));
    assert_eq!(parse_size("M"), Err(SizeError::InvalidNumber));
    assert_eq!(parse_size("-1"), Err(SizeError::InvalidNumber));
    assert_eq!(parse_size("12T"), Err(SizeError::InvalidNumber));
}

#[test]
fn sizes_out_of_range() {
    assert!(size_in_range("512M"));
    assert!(size_in_range("junk"));
    assert!(!size_in_range("18446744073709551615K"));
    assert!(size_in_range("18446744073709551615"));
    assert_eq!(parse_size("17179869184G"), Err(SizeError::TooLarge));
    assert_eq!(parse_size("18446744073709551615K"), Err(SizeError::TooLarge));
    assert_eq!(parse_size("18446744073709551615"), Ok(u64::MAX));
}

#[test]
fn scope_paths_and_knobs() {
    assert_eq!(slice_path(), "/sys/fs/cgroup/nexis.slice");
    let scope = scope_path("nginx");
    assert_eq!(scope, "/sys/fs/cgroup/nexis.slice/nginx.scope");
    let cfg = CgroupConfig {
        memory_max: Some("512M".to_string()),
        cpu_weight: Some(100),
        cpu_quota: Some("50000 100000".to_string()),
        io_weight: None,
        pids_max: None,
    };
    let writes = scope_knobs(&scope, &cfg).unwrap();
    let got: Vec<(String, String)> = writes.into_iter().map(|w| (w.path, w.value)).collect();
    let s = |k: &str| format!("{scope}/{k}");
    assert_eq!(
        got,
        vec![
            (s("memory.max"), "536870912".to_string()),
            (s("cpu.weight"), "100".to_string()),
            (s("cpu.max"), "50000 100000".to_string()),
            (s("pids.max"), "4096".to_string()),
        ]
    );
    let bad = CgroupConfig { memory_max: Some("big".to_string()), ..CgroupConfig::default() };
    assert_eq!(scope_knobs(&scope, &bad).err(), Some(SizeError::InvalidNumber));
    let huge = CgroupConfig { memory_max: Some("17179869184G".to_string()), ..CgroupConfig::default() };
    assert_eq!(scope_knobs(&scope, &huge).err(), Some(SizeError::TooLarge));
    let p = place_pid(&scope, 1234);
    assert_eq!(p.path, s("cgroup.procs"));
    assert_eq!(p.value, "1234");
}

#[test]
fn notify_fields_parsed() {
    let fields = parse_fields("READY=1\nSTATUS=Serving requests\nMAINPID=4242\n");
    assert_eq!(fields.len(), 3);
    let msg = NotifyMessage::parse("READY=1\nSTATUS=Serving requests\nMAINPID=4242\n");
    assert!(msg.is_ready());
    assert_eq!(msg.status(), Some("Serving requests"));
    assert_eq!(msg.main_pid(), Some(4242));
    assert!(!msg.is_watchdog());
    assert!(!msg.is_stopping());
    assert!(!msg.is_reloading());
}

#[test]
fn notify_edge_cases() {
    let msg = NotifyMessage::parse("WATCHDOG=1\r\n =x\nnoequals\n STOPPING =1\nREADY=0\nMAINPID=abc");
    assert!(msg.is_watchdog());
    assert!(msg.is_stopping());
    assert!(!msg.is_ready());
    assert_eq!(msg.main_pid(), None);
    let later = NotifyMessage::parse("STATUS=a\nSTATUS=b\nRELOADING=1");
    assert_eq!(later.status(), Some("b"));
    assert!(later.is_reloading());
    let raw = NotifyMessage::from_datagram(b"READY=1\nMAINPID=7");
    assert!(raw.is_ready());
    assert_eq!(raw.main_pid(), Some(7));
    let bad = NotifyMessage::from_datagram(&[0xff, 0xfe, b'=']);
    assert!(bad.fields.is_empty());
}

#[test]
fn notify_actions_use_main_pid() {
    let a = notify_actions(&NotifyMessage::parse("READY=1\nWATCHDOG=1\nMAINPID=9\n"));
    assert_eq!(a.ready_pid, Some(9));
    assert_eq!(a.watchdog_pid, Some(9));
    let b = notify_actions(&NotifyMessage::parse("READY=1\n"));
    assert_eq!(b.ready_pid, None);
    let c = notify_actions(&NotifyMessage::parse("MAINPID=9\n"));
    assert_eq!(c.ready_pid, None);
    assert_eq!(c.watchdog_pid, None);
}

#[test]
fn signals_and_events() {
    let n = SignalNumbers { chld: 17, term: 15, int: 2, hup: 1 };
    assert_eq!(InitSignal::classify(17, &n), InitSignal::ChildExited);
    assert_eq!(InitSignal::classify(15, &n), InitSignal::Shutdown);
    assert_eq!(InitSignal::classify(2, &n), InitSignal::Shutdown);
    assert_eq!(InitSignal::classify(1, &n), InitSignal::Reload);
    assert_eq!(InitSignal::classify(10, &n), InitSignal::Other(10));
    assert_eq!(signal_action(InitSignal::ChildExited), SignalAction::ReapZombies);
    assert_eq!(signal_action(InitSignal::Shutdown), SignalAction::StopAll);
    assert_eq!(signal_action(InitSignal::Reload), SignalAction::ReloadConfig);
    assert_eq!(signal_action(InitSignal::Other(10)), SignalAction::Ignore);
    assert_eq!(event_source(0), EventSource::Signal);
    assert_eq!(event_source(1), EventSource::Notify);
    assert_eq!(event_source(1000), EventSource::Pidfd(1000));
}

fn file(entries: &[(&str, &str)]) -> ServicesConfig {
    ServicesConfig {
        services: entries
            .iter()
            .map(|(n, e)| (n.to_string(), ServiceConfig::with_exec(e.to_string())))
            .collect(),
    }
}

#[test]
fn later_files_override() {
    let merged = load_merged(vec![
        file(&[("nginx", "/usr/sbin/nginx"), ("sshd", "/usr/sbin/sshd")]),
        file(&[("nginx", "/opt/nginx")]),
        ServicesConfig::empty(),
    ]);
    assert_eq!(merged.services.len(), 2);
    let nginx = merged.services.iter().find(|(n, _)| n == "nginx").unwrap();
    assert_eq!(nginx.1.executable, "/opt/nginx");
    let sshd = merged.services.iter().find(|(n, _)| n == "sshd").unwrap();
    assert_eq!(sshd.1.executable, "/usr/sbin/sshd");
    assert!(load_merged(Vec::new()).services.is_empty());
}

#[test]
fn declaration_defaults() {
    let c = ServiceConfig::with_exec("/bin/true".to_string());
    assert_eq!(c.service_type, "simple");
    assert_eq!(c.restart, "no");
    assert_eq!(c.restart_sec, 5);
    assert_eq!(c.timeout_start_sec, 30);
    assert_eq!(c.timeout_stop_sec, 30);
    assert!(c.namespaces.mnt && c.namespaces.ipc);
    assert!(!c.namespaces.pid && !c.namespaces.net && !c.namespaces.uts);
}
