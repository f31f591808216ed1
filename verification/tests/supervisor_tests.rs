use rls_desktop::config::AppConfig;
use rls_desktop::paths::Paths;
use rls_desktop::popover::{get_view, menu_command, should_autostart, MenuCommand};
use rls_desktop::supervisor::{after_launch, first_action, kosync_spec, opds_spec, pnp_env, pnp_files, start_all, StartAction, SVC_KOSYNC, SVC_OPDS};
use rls_desktop::tailscale::TsInfo;

fn cfg() -> AppConfig {
    AppConfig {
        readwise_token: "tok".into(),
        opds_port: 8080,
        kosync_port: 7200,
        opds_user: "readloop".into(),
        opds_pass: "OPASS".into(),
        kosync_user: "kuser".into(),
        kosync_pass: "KPASS".into(),
        token_enc_key: "abcd".into(),
        seed_secret: "SEED".into(),
        x3_host: "192.168.1.9".into(),
        autostart_services: true,
    }
}

fn paths() -> Paths {
    Paths {
        node: "/n/node".into(),
        opds_dir: "/s/news2reader".into(),
        kosync_dir: "/s/crosspoint-sync".into(),
        data_dir: "/d".into(),
        log_dir: "/l".into(),
    }
}

fn pairs(v: &[(String, String)]) -> Vec<(&str, &str)> {
    v.iter().map(|(k, v)| (k.as_str(), v.as_str())).collect()
}

#[test]
fn pnp_install_gets_node_options() {
    let (p, l) = pnp_files("/s/n2r");
    assert_eq!(p, "/s/n2r/.pnp.cjs");
    assert_eq!(l, "/s/n2r/.pnp.loader.mjs");
    assert!(pnp_env(&p, &l, false, true).is_empty());
    assert_eq!(pairs(&pnp_env(&p, &l, true, false)), vec![("NODE_OPTIONS", "--require /s/n2r/.pnp.cjs")]);
    assert_eq!(
        pairs(&pnp_env(&p, &l, true, true)),
        vec![("NODE_OPTIONS", "--require /s/n2r/.pnp.cjs --loader file:///s/n2r/.pnp.loader.mjs")]
    );
}

#[test]
fn delivery_spec_carries_its_environment() {
    let pnp = vec![("NODE_OPTIONS".to_string(), "--require x".to_string())];
    let s = opds_spec(&paths(), &cfg(), pnp);
    assert_eq!(s.name, SVC_OPDS);
    assert_eq!(s.name, "news2reader");
    assert_eq!(s.node, "/n/node");
    assert_eq!(s.entry, "/s/news2reader/dist/server.js");
    assert_eq!(s.cwd, "/s/news2reader");
    assert_eq!(s.log, "/l/news2reader.log");
    assert_eq!(s.port, 8080);
    assert_eq!(
        pairs(&s.env),
        vec![
            ("NODE_OPTIONS", "--require x"),
            ("PORT", "8080"),
            ("READWISE_TOKEN", "tok"),
            ("OPDS_PROVIDERS", "readwise"),
            ("OPDS_AUTH_USER", "readloop"),
            ("OPDS_AUTH_PASS", "OPASS"),
            ("READWISE_IMAGES", "transcode"),
            ("READWISE_FEED_LIMIT", "40"),
            ("READLOOP_SEED_URL", "http://127.0.0.1:7200/readloop/seed-progress"),
            ("READLOOP_SEED_SECRET", "SEED"),
            ("READLOOP_SEED_USER", "kuser"),
        ]
    );
}

#[test]
fn archive_spec_carries_its_environment() {
    let s = kosync_spec(&paths(), &cfg(), vec![]);
    assert_eq!(s.name, SVC_KOSYNC);
    assert_eq!(s.entry, "/s/crosspoint-sync/dist/index.js");
    assert_eq!(s.cwd, "/s/crosspoint-sync");
    assert_eq!(s.log, "/l/crosspoint-sync.log");
    assert_eq!(s.port, 7200);
    assert_eq!(
        pairs(&s.env),
        vec![
            ("PORT", "7200"),
            ("DATABASE_PATH", "/d/crosspoint.db"),
            ("TOKEN_ENC_KEY", "abcd"),
            ("REGISTRATION_DISABLED", "1"),
            ("FINISHED_THRESHOLD", "0.95"),
            ("READLOOP_SEED_SECRET", "SEED"),
        ]
    );
}

#[test]
fn both_services_share_the_seed_secret() {
    let o = opds_spec(&paths(), &cfg(), vec![]);
    let k = kosync_spec(&paths(), &cfg(), vec![]);
    let secret = |s: &rls_desktop::services::ServiceSpec| {
        s.env.iter().find(|(k, _)| k == "READLOOP_SEED_SECRET").map(|(_, v)| v.clone())
    };
    assert_eq!(secret(&o), secret(&k));
    assert!(o.env.iter().any(|(k2, v)| k2 == "READLOOP_SEED_URL" && v.contains(&format!(":{}/", k.port))));
}

#[test]
fn start_needs_a_token() {
    let mut c = cfg();
    c.readwise_token = "  ".into();
    match start_all(&c, &paths(), vec![], vec![]) {
        Err(e) => assert_eq!(e, "Add your Readwise token first."),
        Ok(_) => panic!("started without a token"),
    }
}

#[test]
fn start_launches_archive_before_delivery_then_links() {
    let plan = start_all(&cfg(), &paths(), vec![], vec![]).ok().unwrap();
    assert_eq!(plan.services.len(), 2);
    assert_eq!(plan.services[0].name, "crosspoint-sync");
    assert_eq!(plan.services[1].name, "news2reader");
    assert_eq!(plan.link_port, 7200);
    assert_eq!(plan.link_user, "kuser");
    assert_eq!(plan.link_pass, "KPASS");
    assert_eq!(plan.link_token, "tok");
}

#[test]
fn view_shows_lan_urls_and_credentials() {
    let v = get_view(&cfg(), "192.168.1.42".into(), true, false, true, TsInfo::default());
    assert!(v.configured && v.has_token);
    assert_eq!(v.lan_ip, "192.168.1.42");
    assert_eq!(v.opds_url, "http://192.168.1.42:8080/opds");
    assert_eq!(v.kosync_url, "http://192.168.1.42:7200");
    assert_eq!(v.opds_user, "readloop");
    assert_eq!(v.opds_pass, "OPASS");
    assert_eq!(v.kosync_user, "kuser");
    assert_eq!(v.kosync_pass, "KPASS");
    assert!(v.opds_running && !v.kosync_running);
    assert_eq!(v.x3_host, "192.168.1.9");
    assert!(v.autostart_services && v.launch_at_login);
    assert!(!v.tailscale.installed);
}

#[test]
fn autostart_needs_the_setting_and_a_token() {
    let mut c = cfg();
    assert!(should_autostart(&c));
    c.autostart_services = false;
    assert!(!should_autostart(&c));
    c.autostart_services = true;
    c.readwise_token = String::new();
    assert!(!should_autostart(&c));
    assert!(!should_autostart(&AppConfig::default()));
}

#[test]
fn tray_menu_ids() {
    assert!(matches!(menu_command("open"), MenuCommand::Open));
    assert!(matches!(menu_command("start"), MenuCommand::Start));
    assert!(matches!(menu_command("stop"), MenuCommand::Stop));
    assert!(matches!(menu_command("quit"), MenuCommand::Quit));
    assert!(matches!(menu_command("Quit"), MenuCommand::Ignore));
}

#[test]
fn start_run_stops_at_first_failure_and_links_after_both() {
    let plan = start_all(&cfg(), &paths(), vec![], vec![]).ok().unwrap();
    assert!(matches!(first_action(&plan), StartAction::Launch(0)));
    assert!(matches!(after_launch(&plan, 0, Ok(())), StartAction::Launch(1)));
    assert!(matches!(after_launch(&plan, 1, Ok(())), StartAction::LinkAndSucceed));
    match after_launch(&plan, 0, Err("node runtime not found at /n/node".into())) {
        StartAction::Fail(e) => assert_eq!(e, "node runtime not found at /n/node"),
        _ => panic!("expected the first failure"),
    }
    assert!(matches!(after_launch(&plan, 1, Err("x".into())), StartAction::Fail(_)));
}
