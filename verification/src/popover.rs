//! What the popover shows in one shot, and how the tray decides what to do.

use crate::config::has_token;
use crate::config::AppConfig;
use crate::tailscale::TsInfo;
use crate::text::decimal;
use crate::text::push_decimal;
use crate::text::same_text;
use vstd::prelude::*;
use vstd::string::*;

verus! {

/// Everything the popover UI renders in one shot.
pub struct AppView {
    pub configured: bool,
    pub has_token: bool,
    pub lan_ip: String,
    pub opds_url: String,
    pub kosync_url: String,
    pub opds_user: String,
    pub opds_pass: String,
    pub kosync_user: String,
    pub kosync_pass: String,
    pub opds_running: bool,
    pub kosync_running: bool,
    pub x3_host: String,
    pub autostart_services: bool,
    /// OS launch-at-login for the app itself.
    pub launch_at_login: bool,
    pub tailscale: TsInfo,
}

/// The reader-facing OPDS address: `http://<ip>:<opds port>/opds`.
pub open spec fn opds_address(ip: Seq<char>, port: u16) -> Seq<char> {
    "http://"@ + ip + ":"@ + decimal(port as nat) + "/opds"@
}

/// The reader-facing KOSync address: `http://<ip>:<kosync port>`.
pub open spec fn kosync_address(ip: Seq<char>, port: u16) -> Seq<char> {
    "http://"@ + ip + ":"@ + decimal(port as nat)
}

fn address(ip: &str, port: u16) -> (r: String)
    ensures
        r@ == kosync_address(ip@, port),
{
    let mut r = String::from_str("http://");
    r.append(ip);
    r.append(":");
    push_decimal(&mut r, port as u64);
    r
}

/// What the popover shows for the configuration, the machine's LAN address,
/// whether each service runs, whether the app launches at login, and the
/// Tailscale state.
pub fn get_view(
    cfg: &AppConfig,
    lan_ip: String,
    opds_running: bool,
    kosync_running: bool,
    launch_at_login: bool,
    tailscale: TsInfo,
) -> (v: AppView)
    ensures
        v.configured == has_token(cfg.readwise_token@),
        v.has_token == has_token(cfg.readwise_token@),
        v.lan_ip@ == lan_ip@,
        v.opds_url@ == opds_address(lan_ip@, cfg.opds_port),
        v.kosync_url@ == kosync_address(lan_ip@, cfg.kosync_port),
        v.opds_user@ == cfg.opds_user@,
        v.opds_pass@ == cfg.opds_pass@,
        v.kosync_user@ == cfg.kosync_user@,
        v.kosync_pass@ == cfg.kosync_pass@,
        v.opds_running == opds_running,
        v.kosync_running == kosync_running,
        v.x3_host@ == cfg.x3_host@,
        v.autostart_services == cfg.autostart_services,
        v.launch_at_login == launch_at_login,
        v.tailscale == tailscale,
{
    let mut opds_url = address(lan_ip.as_str(), cfg.opds_port);
    opds_url.append("/opds");
    let kosync_url = address(lan_ip.as_str(), cfg.kosync_port);
    let configured = cfg.is_configured();
    AppView {
        configured,
        has_token: configured,
        lan_ip,
        opds_url,
        kosync_url,
        opds_user: cfg.opds_user.clone(),
        opds_pass: cfg.opds_pass.clone(),
        kosync_user: cfg.kosync_user.clone(),
        kosync_pass: cfg.kosync_pass.clone(),
        opds_running,
        kosync_running,
        x3_host: cfg.x3_host.clone(),
        autostart_services: cfg.autostart_services,
        launch_at_login,
        tailscale,
    }
}

/// Start the services at launch only when asked to and a token is there.
pub fn should_autostart(cfg: &AppConfig) -> (r: bool)
    ensures
        r == (cfg.autostart_services && has_token(cfg.readwise_token@)),
{
    cfg.autostart_services && cfg.is_configured()
}

/// The tray menu's entries.
pub enum MenuCommand {
    /// Show the popover.
    Open,
    /// Start the services.
    Start,
    /// Stop the services.
    Stop,
    /// Stop the services and exit.
    Quit,
    /// Not one of ours.
    Ignore,
}

/// The command of a tray menu entry, by its id.
pub fn menu_command(id: &str) -> (r: MenuCommand)
    ensures
        id@ == "open"@ ==> r is Open,
        id@ == "start"@ ==> r is Start,
        id@ == "stop"@ ==> r is Stop,
        id@ == "quit"@ ==> r is Quit,
        id@ != "open"@ && id@ != "start"@ && id@ != "stop"@ && id@ != "quit"@ ==> r is Ignore,
{
    proof {
        reveal_strlit("open");
        reveal_strlit("start");
        reveal_strlit("stop");
        reveal_strlit("quit");
        assert("open"@ != "start"@ && "open"@ != "stop"@ && "open"@ != "quit"@) by {
            assert("open"@[0] != "start"@[0]);
            assert("open"@[0] != "stop"@[0]);
            assert("open"@[0] != "quit"@[0]);
        }
        assert("start"@ != "stop"@ && "start"@ != "quit"@ && "stop"@ != "quit"@) by {
            assert("start"@[2] != "stop"@[2]);
            assert("start"@[0] != "quit"@[0]);
            assert("stop"@[0] != "quit"@[0]);
        }
    }
    if same_text(id, "open") {
        MenuCommand::Open
    } else if same_text(id, "start") {
        MenuCommand::Start
    } else if same_text(id, "stop") {
        MenuCommand::Stop
    } else if same_text(id, "quit") {
        MenuCommand::Quit
    } else {
        MenuCommand::Ignore
    }
}

} // verus!
