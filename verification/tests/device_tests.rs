use rls_desktop::autolink::{
    ensure_user_result, health_done, link_done, link_plan, link_result, md5_key, user_done,
    HealthAction, HealthWait, LinkAction, HEALTH_ATTEMPTS,
};
use rls_desktop::http::{loopback_url, HttpReply};
use rls_desktop::net::lan_ip_text;
use rls_desktop::webdav::{answered_status, base, check, probe_url, read_error, upload, upload_result, Probe};

#[test]
fn device_base_accepts_bare_host_or_url() {
    assert_eq!(base(" 192.168.1.9 "), "http://192.168.1.9");
    assert_eq!(base("x3.local/"), "http://x3.local");
    assert_eq!(base("https://x3.local//"), "https://x3.local");
    assert_eq!(base("http://10.0.0.2:8080/"), "http://10.0.0.2:8080");
}

#[test]
fn probe_needs_an_address() {
    assert_eq!(probe_url("   "), None);
    assert_eq!(probe_url("10.0.0.2"), Some("http://10.0.0.2/".to_string()));
    let s = check("  ", Probe::NoResponse);
    assert!(!s.reachable && !s.writable);
    assert_eq!(s.error, "Enter the device's address");
}

#[test]
fn probe_answers_are_read() {
    let s = check("10.0.0.2", Probe::Answered { allow: "options, get, put".into(), dav: String::new() });
    assert!(s.reachable && s.writable);
    assert_eq!(s.error, "");
    let s = check("10.0.0.2", Probe::Answered { allow: "GET".into(), dav: "1,2".into() });
    assert!(s.writable);
    let s = check("10.0.0.2", Probe::Answered { allow: "GET, HEAD".into(), dav: String::new() });
    assert!(s.reachable && !s.writable);
    assert_eq!(s.error, "Reachable, but not a WebDAV server");
    let s = check("10.0.0.2", Probe::Status(404));
    assert!(s.reachable && !s.writable);
    assert_eq!(s.error, "HTTP 404");
    let s = check("10.0.0.2", Probe::NoResponse);
    assert!(!s.reachable && !s.writable);
    assert_eq!(s.error, "No response \u{2014} is File Transfer on and on the same Wi-Fi?");
}

#[test]
fn answer_headers_decide_writability() {
    let s = answered_status("GET, PUT", "");
    assert!(s.reachable && s.writable && s.error.is_empty());
    let s = answered_status("get, put", "");
    assert!(!s.writable);
    assert_eq!(s.error, "Reachable, but not a WebDAV server");
    assert!(answered_status("", "1").writable);
}

#[test]
fn upload_goes_to_the_encoded_file_name() {
    let t = upload("192.168.1.9", "/home/u/Books/My Book (1).epub").ok().unwrap();
    assert_eq!(t.name, "My Book (1).epub");
    assert_eq!(t.url, "http://192.168.1.9/My%20Book%20%281%29.epub");
    let t = upload("x3", "caf\u{e9}.txt").ok().unwrap();
    assert_eq!(t.url, "http://x3/caf%C3%A9.txt");
    assert_eq!(upload("x3", "/home/u/..").err().unwrap(), "bad filename");
    assert_eq!(upload("x3", "").err().unwrap(), "bad filename");
    assert_eq!(upload("192.168.1.50", "/").err().unwrap(), "bad filename");
    assert_eq!(upload("x3", ".").err().unwrap(), "bad filename");
    assert_eq!(upload("x3", "a/b/.").ok().unwrap().name, "b");
    assert_eq!(upload("x3", "./notes/").ok().unwrap().name, "notes");
    assert_eq!(upload("x3", "books//x.epub").ok().unwrap().url, "http://x3/x.epub");
    let t = upload("x3", "/books/Sapiens: A Brief History.epub").ok().unwrap();
    assert_eq!(t.name, "Sapiens: A Brief History.epub");
    assert_eq!(t.url, "http://x3/Sapiens%3A%20A%20Brief%20History.epub");
}

#[test]
fn upload_outcomes() {
    assert!(upload_result(HttpReply::Done).is_ok());
    assert_eq!(upload_result(HttpReply::Status(507, "full".into())).err().unwrap(), "device rejected upload (HTTP 507)");
    assert_eq!(upload_result(HttpReply::Failed("timed out".into())).err().unwrap(), "timed out");
    assert_eq!(read_error("a.epub", "denied"), "read a.epub: denied");
}

#[test]
fn kosync_key_is_md5_hex() {
    assert_eq!(md5_key("password"), "5f4dcc3b5aa765d61d8327deb882cf99");
    assert_eq!(md5_key(""), "d41d8cd98f00b204e9800998ecf8427e");
}

#[test]
fn link_plan_targets_the_loopback_archive() {
    let p = link_plan(7200, "readloop", "password");
    assert_eq!(loopback_url(7200), "http://127.0.0.1:7200");
    assert_eq!(p.health_url, "http://127.0.0.1:7200/healthz");
    assert_eq!(p.create_user_url, "http://127.0.0.1:7200/users/create");
    assert_eq!(p.connector_url, "http://127.0.0.1:7200/api/v1/connectors/readwise-reader");
    assert_eq!(p.auth_user, "readloop");
    assert_eq!(p.auth_key, "5f4dcc3b5aa765d61d8327deb882cf99");
}

#[test]
fn existing_user_is_fine() {
    assert!(ensure_user_result(HttpReply::Done).is_ok());
    assert!(ensure_user_result(HttpReply::Status(402, "taken".into())).is_ok());
    assert_eq!(ensure_user_result(HttpReply::Status(500, "boom".into())).err().unwrap(), "create 500: boom");
    assert_eq!(ensure_user_result(HttpReply::Failed("refused".into())).err().unwrap(), "refused");
}

#[test]
fn link_outcomes() {
    assert!(link_result(HttpReply::Done).is_ok());
    assert_eq!(link_result(HttpReply::Status(402, "x".into())).err().unwrap(), "link 402: x");
    assert_eq!(link_result(HttpReply::Failed("reset".into())).err().unwrap(), "reset");
}

#[test]
fn health_wait_gives_up_after_thirty_probes() {
    let (mut w, mut a) = HealthWait::new();
    let mut probes = 0;
    loop {
        match a {
            HealthAction::Probe => {
                probes += 1;
                let (w2, a2) = w.probed(false);
                w = w2;
                a = a2;
            }
            HealthAction::Pause => {
                let (w2, a2) = w.paused();
                w = w2;
                a = a2;
            }
            HealthAction::GiveUp => break,
            HealthAction::Healthy => panic!("never answered"),
        }
    }
    assert_eq!(probes, 30);
    assert_eq!(w.tries(), HEALTH_ATTEMPTS);
}

#[test]
fn health_wait_stops_at_first_answer() {
    let (w, a) = HealthWait::new();
    assert!(matches!(a, HealthAction::Probe));
    let (w, a) = w.probed(false);
    assert!(matches!(a, HealthAction::Pause));
    let (w, a) = w.paused();
    assert!(matches!(a, HealthAction::Probe));
    let (w, a) = w.probed(true);
    assert!(matches!(a, HealthAction::Healthy));
    assert_eq!(w.tries(), 2);
}

#[test]
fn lan_address_text() {
    assert_eq!(lan_ip_text(Some([192, 168, 1, 42])), "192.168.1.42");
    assert_eq!(lan_ip_text(Some([10, 0, 0, 255])), "10.0.0.255");
    assert_eq!(lan_ip_text(None), "127.0.0.1");
}

#[test]
fn linking_round_goes_health_user_then_credential() {
    let (a, note) = health_done(false);
    assert!(matches!(a, LinkAction::Stop));
    assert_eq!(note.unwrap(), "autolink: crosspoint-sync did not come up; skipping");
    let (a, note) = health_done(true);
    assert!(matches!(a, LinkAction::CreateUser) && note.is_none());
    let (a, note) = user_done(HttpReply::Status(500, "boom".into()));
    assert!(matches!(a, LinkAction::StoreCredential));
    assert_eq!(note.unwrap(), "autolink: ensure_user failed: create 500: boom");
    let (a, note) = user_done(HttpReply::Status(402, String::new()));
    assert!(matches!(a, LinkAction::StoreCredential) && note.is_none());
    let (a, note) = link_done(HttpReply::Done);
    assert!(matches!(a, LinkAction::Stop));
    assert_eq!(note, "autolink: readwise-reader connector linked");
    let (_, note) = link_done(HttpReply::Status(401, "bad token".into()));
    assert_eq!(note, "autolink: link failed: link 401: bad token");
}

#[test]
fn device_base_is_idempotent() {
    for h in ["192.168.1.9/", "http://x3.local//", "https://a", "x3"] {
        let r = base(h);
        assert!(!r.ends_with('/'));
        assert_eq!(base(&r), r);
    }
}
