use rls_desktop::tailscale::{
    base, binary, binary_candidates, disable, enable, info, info_from, run_result, EnableAction,
    EnableEvent, EnableStage, TsInfo, FUNNEL_PORT,
};

fn run_args(a: &EnableAction) -> Vec<String> {
    match a {
        EnableAction::Run(v) => v.clone(),
        _ => panic!("expected a command"),
    }
}

#[test]
fn funnel_port_is_443_and_public_base_has_no_port() {
    assert_eq!(FUNNEL_PORT, 443);
    assert_eq!(base("box.tail1.ts.net"), "https://box.tail1.ts.net");
}

#[test]
fn binary_prefers_known_locations_then_path() {
    let cands = binary_candidates();
    assert_eq!(cands.len(), 5);
    assert_eq!(binary(&vec![false, false, false, true, true], None), Some("/usr/bin/tailscale".to_string()));
    assert_eq!(binary(&vec![true, true, false, false, false], None), Some("/opt/homebrew/bin/tailscale".to_string()));
    assert_eq!(binary(&vec![false; 5], Some("/home/u/bin/tailscale\n".into())), Some("/home/u/bin/tailscale".to_string()));
    assert_eq!(binary(&vec![false; 5], Some("  \n".into())), None);
    assert_eq!(binary(&vec![false; 5], None), None);
}

#[test]
fn not_installed_means_nothing_known() {
    let i = info_from(false, Some("Running".into()), Some("x.ts.net.".into()), Some("127.0.0.1:7200".into()), 7200);
    assert!(!i.installed && !i.running && !i.funnel_on);
    assert_eq!(i.dns_name, "");
    assert_eq!(i.public_opds_url, "");
}

#[test]
fn funnel_on_gives_public_urls() {
    let i = info_from(
        true,
        Some("Running".into()),
        Some("box.tail1.ts.net.".into()),
        Some("https://box.tail1.ts.net (Funnel on)\n|-- / proxy http://127.0.0.1:7200\n".into()),
        7200,
    );
    assert!(i.installed && i.running && i.funnel_on);
    assert_eq!(i.dns_name, "box.tail1.ts.net");
    assert_eq!(i.public_opds_url, "https://box.tail1.ts.net/opds");
    assert_eq!(i.public_kosync_url, "https://box.tail1.ts.net/sync");
}

#[test]
fn other_funnels_are_not_ours() {
    let i = info_from(true, Some("Stopped".into()), Some("box.ts.net".into()), Some("proxy http://127.0.0.1:10000".into()), 7200);
    assert!(!i.running && !i.funnel_on);
    assert_eq!(i.public_opds_url, "");
    assert_eq!(i.public_kosync_url, "");
}

#[test]
fn status_json_is_read_for_state_and_name() {
    let json = br#"{"BackendState":"Running","Self":{"DNSName":"box.tail1.ts.net.","Online":true}}"#;
    let i = info(true, Some(&json[..]), Some("127.0.0.1:7200".into()), 7200);
    assert!(i.running);
    assert_eq!(i.dns_name, "box.tail1.ts.net");
    assert_eq!(i.public_opds_url, "https://box.tail1.ts.net/opds");
    let bad = b"not json";
    let j = info(true, Some(&bad[..]), None, 7200);
    assert!(j.installed && !j.running && !j.funnel_on);
    assert_eq!(j.dns_name, "");
    let odd = br#"{"BackendState":5,"Self":{"DNSName":"n.ts.net"}}"#;
    let k = info(true, Some(&odd[..]), None, 7200);
    assert!(!k.running);
    assert_eq!(k.dns_name, "n.ts.net");
}

#[test]
fn enable_mounts_delivery_then_sync_then_reads_name() {
    let (f, a) = enable(true, 8080, 7200);
    assert_eq!(run_args(&a), vec!["funnel", "--bg", "--https=443", "http://127.0.0.1:8080"]);
    let (f, a) = f.step(EnableEvent::Ran(Ok(())));
    assert_eq!(run_args(&a), vec!["funnel", "--bg", "--https=443", "--set-path=/sync", "http://127.0.0.1:7200"]);
    let (f, a) = f.step(EnableEvent::Ran(Ok(())));
    assert!(matches!(a, EnableAction::ReadInfo));
    let (f, a) = f.step(EnableEvent::Info("box.tail1.ts.net".into()));
    match a {
        EnableAction::Finish(Ok(u)) => assert_eq!(u, "https://box.tail1.ts.net/opds"),
        _ => panic!("expected the public URL"),
    }
    assert!(matches!(f.stage, EnableStage::Finished(Ok(_))));
}

#[test]
fn enable_reports_missing_binary_failed_command_and_logged_out() {
    let (_, a) = enable(false, 8080, 7200);
    assert!(matches!(a, EnableAction::Finish(Err(ref e)) if e == "Tailscale is not installed"));
    let (f, _) = enable(true, 8080, 7200);
    let (_, a) = f.step(EnableEvent::Ran(Err("funnel not enabled".into())));
    assert!(matches!(a, EnableAction::Finish(Err(ref e)) if e == "funnel not enabled"));
    let (f, _) = enable(true, 8080, 7200);
    let (f, _) = f.step(EnableEvent::Ran(Ok(())));
    let (f, _) = f.step(EnableEvent::Ran(Ok(())));
    let (f, a) = f.step(EnableEvent::Info(String::new()));
    assert!(matches!(a, EnableAction::Finish(Err(ref e)) if e == "Tailscale is not logged in"));
    let (_, a) = f.step(EnableEvent::Ran(Ok(())));
    assert!(matches!(a, EnableAction::Finish(Err(ref e)) if e == "Tailscale is not logged in"));
}

#[test]
fn disable_turns_off_only_our_port() {
    assert!(matches!(disable(false), Err(ref e) if e == "Tailscale is not installed"));
    let cmds = disable(true).ok().unwrap();
    assert_eq!(cmds, vec![vec!["funnel", "--https=443", "off"], vec!["serve", "--https=443", "off"]]);
}

#[test]
fn command_outcome_keeps_trimmed_stderr() {
    assert!(run_result(true, "warning").is_ok());
    assert_eq!(run_result(false, "  error: not logged in\n").err().unwrap(), "error: not logged in");
}

#[test]
fn default_state_is_empty() {
    let d = TsInfo::default();
    assert!(!d.installed && !d.running && !d.funnel_on);
    assert!(d.dns_name.is_empty() && d.public_opds_url.is_empty() && d.public_kosync_url.is_empty());
}
