use nexis::pm::config::{Config, ConfigComposer, FileDeclaration, Package, SystemConfig, User};
use nexis::pm::fleet::FleetComposer;
use nexis::pm::resolver::{DependencyResolver, ResolveError};

fn package(name: &str) -> Package {
    Package { name: name.to_string(), version: "latest".to_string(), source: None, prebuilt: None }
}

fn config(host: &str, version: Option<&str>, packages: &[&str]) -> Config {
    Config {
        system: SystemConfig {
            hostname: host.to_string(),
            timezone: format!("{host}/tz"),
            version: version.map(|v| v.to_string()),
        },
        packages: packages.iter().map(|p| package(p)).collect(),
        files: Vec::new(),
        users: Vec::new(),
    }
}

fn names(c: &Config) -> Vec<String> {
    c.packages.iter().map(|p| p.name.clone()).collect()
}

#[test]
fn compose_without_layers_is_base() {
    let c = ConfigComposer::compose(config("base", Some("1"), &["a"]), Vec::new(), None);
    assert_eq!(c.system.hostname, "base");
    assert_eq!(c.system.version.as_deref(), Some("1"));
    assert_eq!(names(&c), vec!["a"]);
}

#[test]
fn compose_layers_in_order() {
    let profiles = vec![config("p1", None, &["b"]), config("p2", Some("2"), &["c"])];
    let machine = config("m", None, &["d"]);
    let c = ConfigComposer::compose(config("base", Some("1"), &["a"]), profiles, Some(machine));
    assert_eq!(c.system.hostname, "m");
    assert_eq!(c.system.timezone, "m/tz");
    assert_eq!(c.system.version.as_deref(), Some("2"));
    assert_eq!(names(&c), vec!["a", "b", "c", "d"]);
}

#[test]
fn merge_appends_files_and_users() {
    let mut base = config("base", None, &[]);
    let mut layer = config("layer", None, &[]);
    layer.files.push(FileDeclaration {
        path: "/etc/motd".to_string(),
        content: Some("hi".to_string()),
        source: None,
        mode: "0644".to_string(),
        owner: "root".to_string(),
        group: "root".to_string(),
    });
    layer.users.push(User {
        name: "alice".to_string(),
        shell: "/bin/sh".to_string(),
        groups: vec!["wheel".to_string()],
        profiles: None,
        files: Vec::new(),
    });
    base.merge(layer);
    assert_eq!(base.files.len(), 1);
    assert_eq!(base.files[0].path, "/etc/motd");
    assert_eq!(base.users[0].name, "alice");
    assert_eq!(base.system.version, None);
}

#[test]
fn fleet_paths_and_composition() {
    assert_eq!(FleetComposer::profile_path("desktop"), "/etc/nexis/profiles/desktop.toml");
    assert_eq!(FleetComposer::machine_config_path("web-01"), "/etc/nexis/machines/web-01.toml");
    let c = FleetComposer::compose_for_machine(
        config("base", None, &["a"]),
        vec![config("p", None, &["b"])],
        config("web-01", None, &["c"]),
    );
    assert_eq!(c.system.hostname, "web-01");
    assert_eq!(names(&c), vec!["a", "b", "c"]);
}

fn position(order: &[String], name: &str) -> usize {
    order.iter().position(|n| n == name).unwrap()
}

#[test]
fn resolve_respects_dependencies() {
    let mut r = DependencyResolver::new();
    let a = r.add_package(&package("app"));
    let b = r.add_package(&package("libfoo"));
    let c = r.add_package(&package("libc"));
    assert_eq!((a, b, c), (0, 1, 2));
    r.add_dependency(a, b);
    r.add_dependency(b, c);
    r.add_dependency(a, c);
    let order = r.resolve().unwrap();
    assert_eq!(order.len(), 3);
    assert!(position(&order, "app") < position(&order, "libfoo"));
    assert!(position(&order, "libfoo") < position(&order, "libc"));
}

#[test]
fn resolve_empty_and_independent() {
    assert!(DependencyResolver::new().resolve().unwrap().is_empty());
    let mut r = DependencyResolver::new();
    r.add_package(&package("x"));
    r.add_package(&package("y"));
    let mut order = r.resolve().unwrap();
    order.sort();
    assert_eq!(order, vec!["x", "y"]);
}

#[test]
fn resolve_detects_cycles() {
    let mut r = DependencyResolver::new();
    let a = r.add_package(&package("a"));
    let b = r.add_package(&package("b"));
    r.add_dependency(a, b);
    r.add_dependency(b, a);
    let err = r.resolve().unwrap_err();
    assert_eq!(err, ResolveError::CircularDependency);
    assert_eq!(err.message(), "Circular dependency detected");

    let mut s = DependencyResolver::new();
    let x = s.add_package(&package("x"));
    s.add_dependency(x, x);
    assert!(s.resolve().is_err());
}
