use nexis::init::config::{ServiceConfig, ServicesConfig};
use nexis::init::manager::{ManagerError, ServiceManager, StartStep, TOKEN_PIDFD_BASE};
use nexis::init::service::{ManagedService, ServiceState};

fn config(exec: &str, kind: &str, restart: &str) -> ServiceConfig {
    let mut c = ServiceConfig::with_exec(exec.to_string());
    c.service_type = kind.to_string();
    c.restart = restart.to_string();
    c
}

fn state(m: &ServiceManager, name: &str) -> ServiceState {
    m.get_service(name).unwrap().state
}

#[test]
fn start_spawn_and_exit_cycle() {
    let mut m = ServiceManager::new();
    let mut c = config("/usr/sbin/sshd", "simple", "on-failure");
    c.args = vec!["-D".to_string()];
    c.env = vec![("LANG".to_string(), "C".to_string()), ("BAD".to_string(), "a\0b".to_string())];
    m.register("sshd", c, 100);
    assert_eq!(state(&m, "sshd"), ServiceState::Inactive);

    let plan = match m.begin_start("sshd", 101).unwrap() {
        StartStep::Spawn(p) => p,
        StartStep::AlreadyRunning => panic!("expected a spawn plan"),
    };
    assert_eq!(plan.program, "/usr/sbin/sshd");
    assert_eq!(plan.argv, vec!["/usr/sbin/sshd".to_string(), "-D".to_string()]);
    assert_eq!(plan.env, vec![("LANG".to_string(), "C".to_string())]);
    assert_eq!(state(&m, "sshd"), ServiceState::Activating);
    assert!(matches!(m.begin_start("sshd", 102), Ok(StartStep::AlreadyRunning)));

    let token = m.allocate_token();
    assert_eq!(token, TOKEN_PIDFD_BASE);
    assert_eq!(m.allocate_token(), TOKEN_PIDFD_BASE + 1);
    m.record_started("sshd", 4321, token, 103);
    assert_eq!(state(&m, "sshd"), ServiceState::Active);
    assert_eq!(m.get_service("sshd").unwrap().pid, Some(4321));

    assert_eq!(m.take_exited(token), Some(("sshd".to_string(), 4321)));
    assert_eq!(m.take_exited(token), None);
    m.record_exit("sshd", 1, 110);
    let s = m.get_service("sshd").unwrap();
    assert_eq!(s.state, ServiceState::Restarting);
    assert_eq!(s.restart_count, 1);
    assert_eq!(s.pid, None);

    assert!(m.services_ready_to_restart(112).is_empty());
    assert_eq!(m.services_ready_to_restart(115), vec!["sshd".to_string()]);
}

#[test]
fn exits_by_policy() {
    let mut m = ServiceManager::new();
    m.register("once", config("/bin/true", "oneshot", "no"), 0);
    m.register("bad", config("/bin/false", "simple", "no"), 0);
    m.register("abn", config("/bin/x", "simple", "on-abnormal"), 0);
    m.record_exit("once", 0, 5);
    assert_eq!(state(&m, "once"), ServiceState::Inactive);
    m.record_exit("bad", 3, 5);
    assert_eq!(state(&m, "bad"), ServiceState::Failed { exit_code: 3 });
    assert_eq!(state(&m, "bad").to_text(), "failed (exit 3)");
    m.record_exit("abn", 1, 5);
    assert_eq!(state(&m, "abn"), ServiceState::Failed { exit_code: 1 });
    m.record_exit("abn", 137, 6);
    assert_eq!(state(&m, "abn"), ServiceState::Restarting);
}

#[test]
fn notify_services_wait_for_ready() {
    let mut m = ServiceManager::new();
    m.register("nginx", config("/usr/sbin/nginx", "notify", "always"), 0);
    assert!(matches!(m.begin_start("nginx", 1), Ok(StartStep::Spawn(_))));
    let t = m.allocate_token();
    m.record_started("nginx", 77, t, 2);
    assert_eq!(state(&m, "nginx"), ServiceState::Activating);
    m.handle_notify_ready(78, 3);
    assert_eq!(state(&m, "nginx"), ServiceState::Activating);
    m.handle_notify_ready(77, 4);
    assert_eq!(state(&m, "nginx"), ServiceState::Active);
    assert_eq!(m.get_service("nginx").unwrap().state_changed_at, 4);
    m.handle_watchdog_ping(77, 9);
    assert_eq!(m.get_service("nginx").unwrap().state_changed_at, 9);
    assert_eq!(state(&m, "nginx"), ServiceState::Active);
}

#[test]
fn refused_requests() {
    let mut m = ServiceManager::new();
    assert!(matches!(m.begin_start("ghost", 0), Err(ManagerError::UnknownService)));
    assert!(matches!(m.stop_service("ghost", 0), Err(ManagerError::UnknownService)));
    m.register("broken", config("/bin/a\0b", "simple", "no"), 0);
    assert!(matches!(m.begin_start("broken", 1), Err(ManagerError::InvalidCommand)));
    assert_eq!(state(&m, "broken"), ServiceState::Failed { exit_code: -1 });
}

#[test]
fn stopping_and_status() {
    let mut m = ServiceManager::new();
    let mut file = ServicesConfig::empty();
    file.services.push(("a".to_string(), config("/bin/a", "simple", "no")));
    file.services.push(("b".to_string(), config("/bin/b", "simple", "no")));
    assert_eq!(m.load_config(file, 0), 2);
    assert!(matches!(m.begin_start("a", 1), Ok(StartStep::Spawn(_))));
    let t = m.allocate_token();
    m.record_started("a", 500, t, 2);
    assert_eq!(m.stop_service("b", 3), Ok(None));
    assert_eq!(m.stop_service("a", 3), Ok(Some(500)));
    assert_eq!(state(&m, "a"), ServiceState::Deactivating);
    assert_eq!(m.stop_all(4), vec![500]);
    let mut names = m.service_names();
    names.sort();
    assert_eq!(names, vec!["a".to_string(), "b".to_string()]);
    let list = m.list_services();
    assert_eq!(list.len(), 2);
    let a = list.iter().find(|s| s.name == "a").unwrap();
    assert_eq!(a.state, "deactivating");
    assert_eq!(a.pid, Some(500));
    assert!(m.get_service("c").is_none());
}

#[test]
fn managed_service_basics() {
    let mut s = ManagedService::new("x".to_string(), config("/bin/x", "notify", "always"), 10);
    assert!(s.is_notify_type());
    assert!(!s.is_oneshot());
    assert!(s.should_restart(0));
    assert_eq!(s.state_age_secs(15), 5);
    assert_eq!(s.state_age_secs(5), 0);
    s.set_state(ServiceState::Active, 20);
    assert_eq!(s.state, ServiceState::Active);
    assert_eq!(s.state_changed_at, 20);
    s.pid = Some(1);
    s.token = Some(1000);
    s.clear_runtime();
    assert_eq!(s.pid, None);
    assert_eq!(s.token, None);
}
