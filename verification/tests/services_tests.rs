use rls_desktop::config::AppConfig;
use rls_desktop::paths::{resolve_paths, Paths};
use rls_desktop::services::{spawn_error, start_step, ServiceSpec, ServiceTable, StartStep};

fn spec() -> ServiceSpec {
    ServiceSpec {
        name: "news2reader".into(),
        node: "/opt/node/bin/node".into(),
        entry: "/srv/n2r/dist/server.js".into(),
        cwd: "/srv/n2r".into(),
        env: vec![],
        log: "/var/log/n2r.log".into(),
        port: 8080,
    }
}

#[test]
fn starting_a_running_service_does_nothing() {
    assert!(matches!(start_step(true, false, false, &spec()), StartStep::AlreadyRunning));
}

#[test]
fn missing_runtime_is_reported_before_missing_entry() {
    match start_step(false, false, false, &spec()) {
        StartStep::Missing(m) => assert_eq!(m, "node runtime not found at /opt/node/bin/node"),
        _ => panic!("expected an error"),
    }
    match start_step(false, true, false, &spec()) {
        StartStep::Missing(m) => assert_eq!(m, "service entry not found at /srv/n2r/dist/server.js"),
        _ => panic!("expected an error"),
    }
    assert!(matches!(start_step(false, true, true, &spec()), StartStep::Launch));
}

#[test]
fn spawn_error_names_the_service() {
    assert_eq!(spawn_error("crosspoint-sync", "No such file"), "failed to spawn crosspoint-sync: No such file");
}

#[test]
fn table_keeps_one_handle_per_name() {
    let mut t: ServiceTable<u32> = ServiceTable::new();
    assert!(!t.contains("a"));
    t.insert("a".into(), 1);
    t.insert("b".into(), 2);
    t.insert("a".into(), 3);
    assert!(t.contains("a"));
    assert_eq!(t.remove("a"), Some(3));
    assert_eq!(t.remove("a"), None);
    assert!(t.contains("b"));
    let drained = t.drain();
    assert_eq!(drained.len(), 1);
    assert_eq!(drained[0].0, "b");
    assert_eq!(drained[0].1, 2);
    assert!(!t.contains("b"));
    assert!(t.drain().is_empty());
}

#[test]
fn join_extends_a_directory() {
    assert_eq!(AppConfig::path("/a/b"), "/a/b/config.json");
    assert_eq!(AppConfig::path("/a/b/"), "/a/b/config.json");
    assert_eq!(AppConfig::path(""), "config.json");
}

#[test]
fn paths_default_to_bundled_services() {
    let p: Paths = resolve_paths(Some("/app/res".into()), Some("/data".into()), None, None, None, None);
    assert_eq!(p.node, "/app/res/services/node/bin/node");
    assert_eq!(p.opds_dir, "/app/res/services/news2reader");
    assert_eq!(p.kosync_dir, "/app/res/services/crosspoint-sync");
    assert_eq!(p.data_dir, "/data");
    assert_eq!(p.log_dir, "/data/logs");
}

#[test]
fn paths_follow_overrides_and_fallbacks() {
    let p = resolve_paths(None, None, Some("/logs".into()), Some("/usr/bin/node".into()), Some("/src/n2r".into()), Some("/src/cps".into()));
    assert_eq!(p.node, "/usr/bin/node");
    assert_eq!(p.opds_dir, "/src/n2r");
    assert_eq!(p.kosync_dir, "/src/cps");
    assert_eq!(p.data_dir, ".");
    assert_eq!(p.log_dir, "/logs");
    let q = resolve_paths(None, None, None, None, None, None);
    assert_eq!(q.node, "./services/node/bin/node");
    assert_eq!(q.log_dir, "./logs");
}

#[test]
fn settling_a_running_service_keeps_its_handle() {
    let mut t: ServiceTable<u32> = ServiceTable::new();
    t.insert("other".into(), 9);
    t.insert("news2reader".into(), 5);
    let child = t.remove("news2reader");
    assert!(matches!(t.settle_start(&spec(), child, true, false, false), StartStep::AlreadyRunning));
    assert_eq!(t.remove("news2reader"), Some(5));
    assert_eq!(t.remove("other"), Some(9));
}

#[test]
fn settling_an_exited_service_lets_it_go() {
    let mut t: ServiceTable<u32> = ServiceTable::new();
    t.insert("news2reader".into(), 5);
    let child = t.remove("news2reader");
    assert!(matches!(t.settle_start(&spec(), child, false, true, true), StartStep::Launch));
    assert!(!t.contains("news2reader"));
    match t.settle_start(&spec(), None, false, false, true) {
        StartStep::Missing(m) => assert_eq!(m, "node runtime not found at /opt/node/bin/node"),
        _ => panic!("expected an error"),
    }
}
