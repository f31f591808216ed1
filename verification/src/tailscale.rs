//! Optional remote access via Tailscale Funnel: recognising the installed
//! binary, reading its state, and the commands that turn our funnel on and
//! off. We use a dedicated funnel port so that any funnel the user already
//! runs on another port is never disturbed. Running the `tailscale` binary
//! happens outside the library.

use crate::http::loopback;
use crate::http::loopback_url;
use crate::text::contains;
use crate::text::contains_seq;
use crate::text::decimal;
use crate::text::push_decimal;
use crate::text::same_text;
use crate::text::strip_trailing;
use crate::text::strip_trailing_char;
use crate::text::trim;
use crate::text::trimmed;
use vstd::prelude::*;
use vstd::string::*;

verus! {

/// Funnel is only allowed on 443, 8443 or 10000. We take 443, so the public
/// URLs need no port suffix; a user's other funnels typically live on 10000.
pub const FUNNEL_PORT: u16 = 443;

/// Current Tailscale state as the popover shows it.
#[derive(Clone)]
pub struct TsInfo {
    /// The `tailscale` binary is present.
    pub installed: bool,
    /// Backend is Running (logged in + connected).
    pub running: bool,
    /// This node's MagicDNS name, without the trailing dot.
    pub dns_name: String,
    /// Our funnel paths are currently live.
    pub funnel_on: bool,
    /// Public delivery URL when funnel is on (empty otherwise).
    pub public_opds_url: String,
    /// Public sync URL when funnel is on (empty otherwise).
    pub public_kosync_url: String,
}

/// Nothing known: not installed, not running, no name, no funnel, no URLs.
pub open spec fn ts_unknown(i: TsInfo) -> bool {
    &&& !i.installed
    &&& !i.running
    &&& i.dns_name@.len() == 0
    &&& !i.funnel_on
    &&& i.public_opds_url@.len() == 0
    &&& i.public_kosync_url@.len() == 0
}

impl Default for TsInfo {
    fn default() -> (r: TsInfo)
        ensures
            ts_unknown(r),
    {
        TsInfo {
            installed: false,
            running: false,
            dns_name: String::new(),
            funnel_on: false,
            public_opds_url: String::new(),
            public_kosync_url: String::new(),
        }
    }
}

/// Where the `tailscale` binary is looked for, in order, before `PATH`.
pub open spec fn candidate_paths() -> Seq<Seq<char>> {
    seq![
        "/opt/homebrew/bin/tailscale"@,
        "/usr/local/bin/tailscale"@,
        "/Applications/Tailscale.app/Contents/MacOS/Tailscale"@,
        "/usr/bin/tailscale"@,
        "C:\\Program Files\\Tailscale\\tailscale.exe"@,
    ]
}

/// Where the `tailscale` binary is looked for, in order, before `PATH`.
pub fn binary_candidates() -> (r: Vec<String>)
    ensures
        r@.map_values(|s: String| s@) == candidate_paths(),
{
    let mut r: Vec<String> = Vec::new();
    r.push(String::from_str("/opt/homebrew/bin/tailscale"));
    r.push(String::from_str("/usr/local/bin/tailscale"));
    r.push(String::from_str("/Applications/Tailscale.app/Contents/MacOS/Tailscale"));
    r.push(String::from_str("/usr/bin/tailscale"));
    r.push(String::from_str("C:\\Program Files\\Tailscale\\tailscale.exe"));
    assert(r@.map_values(|s: String| s@) =~= candidate_paths());
    r
}

/// The first candidate index from `i` on that exists.
pub open spec fn first_found(exists: Seq<bool>, i: int) -> Option<int>
    decreases 5 - i,
{
    if i < 0 || i >= 5 || i >= exists.len() {
        None
    } else if exists[i] {
        Some(i)
    } else {
        first_found(exists, i + 1)
    }
}

/// The binary found: the first candidate that exists (`exists[i]` tells for
/// the `i`-th candidate), else what `which tailscale` printed, trimmed, when
/// it succeeded with a non-empty answer.
pub open spec fn found_binary(exists: Seq<bool>, which: Option<Seq<char>>) -> Option<Seq<char>> {
    match first_found(exists, 0) {
        Some(i) => Some(candidate_paths()[i]),
        None => match which {
            Some(out) => if trimmed(out).len() > 0 {
                Some(trimmed(out))
            } else {
                None
            },
            None => None,
        },
    }
}

/// The view of an optional string.
pub open spec fn opt_view(o: Option<String>) -> Option<Seq<char>> {
    match o {
        Some(s) => Some(s@),
        None => None,
    }
}

/// Picks the `tailscale` binary: the first existing candidate, else the
/// answer of a successful `which tailscale` (`which` is its output, `None`
/// when it failed).
pub fn binary(exists: &Vec<bool>, which: Option<String>) -> (r: Option<String>)
    ensures
        opt_view(r) == found_binary(exists@, opt_view(which)),
{
    let cands = binary_candidates();
    assert(cands@.len() == 5) by {
        assert(cands@.map_values(|s: String| s@).len() == 5);
    }
    let mut i: usize = 0;
    while i < 5 && i < exists.len()
        invariant
            cands@.map_values(|s: String| s@) == candidate_paths(),
            cands@.len() == 5,
            i <= 5,
            first_found(exists@, 0) == first_found(exists@, i as int),
        decreases 5 - i,
    {
        if exists[i] {
            assert(cands@.map_values(|s: String| s@)[i as int] == cands@[i as int]@);
            return Some(cands[i].clone());
        }
        i = i + 1;
    }
    match which {
        Some(out) => {
            let t = trim(out.as_str());
            if t.as_str().is_empty() {
                None
            } else {
                Some(t)
            }
        },
        None => None,
    }
}

/// Public base URL: 443 omits the port, other ports include it.
pub open spec fn public_base(dns: Seq<char>) -> Seq<char> {
    if FUNNEL_PORT == 443 {
        "https://"@ + dns
    } else {
        "https://"@ + dns + ":"@ + decimal(FUNNEL_PORT as nat)
    }
}

/// Public base URL: 443 omits the port, other ports include it.
pub fn base(dns: &str) -> (r: String)
    ensures
        r@ == public_base(dns@),
{
    let mut r = String::from_str("https://");
    r.append(dns);
    if FUNNEL_PORT != 443 {
        r.append(":");
        push_decimal(&mut r, FUNNEL_PORT as u64);
    }
    r
}

/// `127.0.0.1:<port>`, how funnel status shows a proxy target.
pub open spec fn funnel_target(port: u16) -> Seq<char> {
    "127.0.0.1:"@ + decimal(port as nat)
}

/// The state shown for what Tailscale reported: `backend_state` and `dns`
/// are the `BackendState` and `Self.DNSName` strings of `tailscale status
/// --json` (`None` where absent or the command failed), `funnel_status` the
/// output of `tailscale funnel status` (`None` if it could not run). Our
/// funnel is recognised by the kosync target, so the user's other funnels
/// are not mistaken for it.
pub open spec fn ts_state(
    installed: bool,
    backend_state: Option<Seq<char>>,
    dns: Option<Seq<char>>,
    funnel_status: Option<Seq<char>>,
    kosync_port: u16,
    i: TsInfo,
) -> bool {
    if !installed {
        ts_unknown(i)
    } else {
        let name = match dns {
            Some(d) => strip_trailing(d, '.'),
            None => Seq::<char>::empty(),
        };
        let on = match funnel_status {
            Some(t) => contains_seq(t, funnel_target(kosync_port)),
            None => false,
        };
        &&& i.installed
        &&& i.running == (backend_state == Some("Running"@))
        &&& i.dns_name@ == name
        &&& i.funnel_on == on
        &&& if on && name.len() > 0 {
            &&& i.public_opds_url@ == public_base(name) + "/opds"@
            &&& i.public_kosync_url@ == public_base(name) + "/sync"@
        } else {
            &&& i.public_opds_url@.len() == 0
            &&& i.public_kosync_url@.len() == 0
        }
    }
}

/// The state shown for what Tailscale reported (see [`ts_state`]).
pub fn info_from(
    installed: bool,
    backend_state: Option<String>,
    dns: Option<String>,
    funnel_status: Option<String>,
    kosync_port: u16,
) -> (r: TsInfo)
    ensures
        ts_state(
            installed,
            opt_view(backend_state),
            opt_view(dns),
            opt_view(funnel_status),
            kosync_port,
            r,
        ),
{
    let mut i = TsInfo::default();
    if !installed {
        return i;
    }
    i.installed = true;
    i.running = match &backend_state {
        Some(s) => same_text(s.as_str(), "Running"),
        None => false,
    };
    match &dns {
        Some(d) => {
            i.dns_name = strip_trailing_char(d.as_str(), '.');
        },
        None => {
            assert(i.dns_name@ =~= Seq::<char>::empty());
        },
    }
    match &funnel_status {
        Some(t) => {
            let mut target = String::from_str("127.0.0.1:");
            push_decimal(&mut target, kosync_port as u64);
            i.funnel_on = contains(t.as_str(), target.as_str());
        },
        None => {},
    }
    if i.funnel_on && !i.dns_name.as_str().is_empty() {
        let mut opds = base(i.dns_name.as_str());
        opds.append("/opds");
        let mut sync = base(i.dns_name.as_str());
        sync.append("/sync");
        i.public_opds_url = opds;
        i.public_kosync_url = sync;
    }
    i
}

/// What `serde_json` finds as a string at a JSON pointer in a document:
/// `None` if the bytes are not JSON, nothing is at the pointer, or what is
/// there is not a string.
pub uninterp spec fn json_string_at(doc: Seq<u8>, pointer: Seq<char>) -> Option<Seq<char>>;

/// Parses `doc` with `serde_json::from_slice` into a `Value`, looks up
/// `pointer` with `Value::pointer` and reads it with `Value::as_str`. The
/// result is named, not stated: it is a function of the two arguments.
#[verifier::external_body]
fn json_str(doc: &[u8], pointer: &str) -> (r: Option<String>)
    ensures
        opt_view(r) == json_string_at(doc@, pointer@),
{
    match serde_json::from_slice::<serde_json::Value>(doc) {
        Ok(v) => match v.pointer(pointer) {
            Some(x) => match x.as_str() {
                Some(s) => Some(s.to_string()),
                None => None,
            },
            None => None,
        },
        Err(_) => None,
    }
}

/// Current Tailscale state: `status_json` is the output of a successful
/// `tailscale status --json` (`None` if it failed), `funnel_status` that of
/// `tailscale funnel status`.
pub fn info(installed: bool, status_json: Option<&[u8]>, funnel_status: Option<String>, kosync_port: u16) -> (r: TsInfo)
    ensures
        ts_state(
            installed,
            match status_json {
                Some(d) => json_string_at(d@, "/BackendState"@),
                None => None,
            },
            match status_json {
                Some(d) => json_string_at(d@, "/Self/DNSName"@),
                None => None,
            },
            opt_view(funnel_status),
            kosync_port,
            r,
        ),
{
    let (backend, dns) = match status_json {
        Some(d) => (json_str(d, "/BackendState"), json_str(d, "/Self/DNSName")),
        None => (None, None),
    };
    info_from(installed, backend, dns, funnel_status, kosync_port)
}


/// The outcome of one `tailscale` command: success, else its error output
/// without surrounding white space.
pub fn run_result(success: bool, stderr: &str) -> (r: Result<(), String>)
    ensures
        success ==> r is Ok,
        !success ==> (r matches Err(e) && e@ == trimmed(stderr@)),
{
    if success {
        Ok(())
    } else {
        Err(trim(stderr))
    }
}

/// The arguments of a command as text.
pub open spec fn args_view(a: Seq<String>) -> Seq<Seq<char>> {
    a.map_values(|s: String| s@)
}

/// `--https=443`: the flag that pins a funnel command to our port.
pub open spec fn https_flag() -> Seq<char> {
    "--https="@ + decimal(FUNNEL_PORT as nat)
}

/// Mount the delivery service at the root of our funnel port.
pub open spec fn root_mount_args(opds_port: u16) -> Seq<Seq<char>> {
    seq!["funnel"@, "--bg"@, https_flag(), loopback(opds_port)]
}

/// Mount the sync service at `/sync` on our funnel port.
pub open spec fn sync_mount_args(kosync_port: u16) -> Seq<Seq<char>> {
    seq!["funnel"@, "--bg"@, https_flag(), "--set-path=/sync"@, loopback(kosync_port)]
}

/// Turn `funnel` or `serve` off on our funnel port.
pub open spec fn off_args(what: Seq<char>) -> Seq<Seq<char>> {
    seq![what, https_flag(), "off"@]
}

/// A command names our funnel port and no other.
pub open spec fn pinned_to_funnel_port(args: Seq<Seq<char>>) -> bool {
    &&& args.contains(https_flag())
    &&& forall|i: int|
        0 <= i < args.len() && "--https="@.is_prefix_of(#[trigger] args[i]) ==> args[i]
            == https_flag()
}

fn https_flag_text() -> (r: String)
    ensures
        r@ == https_flag(),
{
    let mut r = String::from_str("--https=");
    push_decimal(&mut r, FUNNEL_PORT as u64);
    r
}

/// Where turning remote access on stands.
pub enum EnableStage {
    /// Waiting for the command that mounts delivery at the root.
    MountingRoot,
    /// Waiting for the command that mounts sync at `/sync`.
    MountingSync,
    /// Waiting for the node's state, to learn its DNS name.
    ReadingInfo,
    /// Done, with this outcome: the public OPDS URL or an error.
    Finished(Result<String, String>),
}

/// Turning remote access on: the stage, and the local ports to publish.
pub struct EnableFlow {
    pub stage: EnableStage,
    pub opds_port: u16,
    pub kosync_port: u16,
}

/// What the caller reports back.
pub enum EnableEvent {
    /// The outcome of the command it was asked to run.
    Ran(Result<(), String>),
    /// The node's DNS name as `info` reports it (empty when not logged in).
    Info(String),
}

/// What the caller is to do next.
pub enum EnableAction {
    /// Run `tailscale` with these arguments and report [`EnableEvent::Ran`].
    Run(Vec<String>),
    /// Read the current state and report [`EnableEvent::Info`].
    ReadInfo,
    /// Stop: this is the outcome.
    Finish(Result<String, String>),
}

/// The view of an outcome.
pub open spec fn result_view(r: Result<String, String>) -> Result<Seq<char>, Seq<char>> {
    match r {
        Ok(s) => Ok(s@),
        Err(e) => Err(e@),
    }
}

/// `a` runs the command with arguments `args`.
pub open spec fn runs(a: EnableAction, args: Seq<Seq<char>>) -> bool {
    a matches EnableAction::Run(v) && args_view(v@) == args
}

/// `a` finishes with outcome `o`.
pub open spec fn finishes(a: EnableAction, o: Result<Seq<char>, Seq<char>>) -> bool {
    a matches EnableAction::Finish(r) && result_view(r) == o
}

/// The outcome once the DNS name is known: the public OPDS URL, or an error
/// when the node is not logged in.
pub open spec fn enable_outcome(dns: Seq<char>) -> Result<Seq<char>, Seq<char>> {
    if dns.len() == 0 {
        Err("Tailscale is not logged in"@)
    } else {
        Ok(public_base(dns) + "/opds"@)
    }
}

/// One step of turning remote access on: from flow `f` and event `ev` to
/// flow `g` and action `a`. Delivery is mounted first, then sync; a failed
/// command ends the flow with its error; the outcome is read off the DNS
/// name. An event that does not answer the pending action repeats it.
pub open spec fn enable_next(f: EnableFlow, ev: EnableEvent, g: EnableFlow, a: EnableAction) -> bool {
    &&& g.opds_port == f.opds_port
    &&& g.kosync_port == f.kosync_port
    &&& match f.stage {
        EnableStage::MountingRoot => match ev {
            EnableEvent::Ran(Ok(_)) => g.stage is MountingSync && runs(
                a,
                sync_mount_args(f.kosync_port),
            ),
            EnableEvent::Ran(Err(e)) => (g.stage matches EnableStage::Finished(o) && result_view(o)
                == Err::<Seq<char>, Seq<char>>(e@)) && finishes(a, Err(e@)),
            EnableEvent::Info(_) => g.stage is MountingRoot && runs(a, root_mount_args(f.opds_port)),
        },
        EnableStage::MountingSync => match ev {
            EnableEvent::Ran(Ok(_)) => g.stage is ReadingInfo && a is ReadInfo,
            EnableEvent::Ran(Err(e)) => (g.stage matches EnableStage::Finished(o) && result_view(o)
                == Err::<Seq<char>, Seq<char>>(e@)) && finishes(a, Err(e@)),
            EnableEvent::Info(_) => g.stage is MountingSync && runs(
                a,
                sync_mount_args(f.kosync_port),
            ),
        },
        EnableStage::ReadingInfo => match ev {
            EnableEvent::Info(dns) => (g.stage matches EnableStage::Finished(o) && result_view(o)
                == enable_outcome(dns@)) && finishes(a, enable_outcome(dns@)),
            EnableEvent::Ran(_) => g.stage is ReadingInfo && a is ReadInfo,
        },
        EnableStage::Finished(o) => (g.stage matches EnableStage::Finished(o2) && result_view(o2)
            == result_view(o)) && finishes(a, result_view(o)),
    }
}

fn copy_result(r: &Result<String, String>) -> (c: Result<String, String>)
    ensures
        result_view(c) == result_view(*r),
{
    match r {
        Ok(s) => Ok(s.clone()),
        Err(e) => Err(e.clone()),
    }
}

impl EnableFlow {
    fn root_args(&self) -> (r: Vec<String>)
        ensures
            args_view(r@) == root_mount_args(self.opds_port),
    {
        let mut r: Vec<String> = Vec::new();
        r.push(String::from_str("funnel"));
        r.push(String::from_str("--bg"));
        r.push(https_flag_text());
        r.push(loopback_url(self.opds_port));
        assert(args_view(r@) =~= root_mount_args(self.opds_port));
        r
    }

    fn sync_args(&self) -> (r: Vec<String>)
        ensures
            args_view(r@) == sync_mount_args(self.kosync_port),
    {
        let mut r: Vec<String> = Vec::new();
        r.push(String::from_str("funnel"));
        r.push(String::from_str("--bg"));
        r.push(https_flag_text());
        r.push(String::from_str("--set-path=/sync"));
        r.push(loopback_url(self.kosync_port));
        assert(args_view(r@) =~= sync_mount_args(self.kosync_port));
        r
    }

    /// Advances the flow by one event (see [`enable_next`]).
    pub fn step(self, ev: EnableEvent) -> (r: (EnableFlow, EnableAction))
        ensures
            enable_next(self, ev, r.0, r.1),
    {
        let opds_port: u16 = self.opds_port;
        let kosync_port: u16 = self.kosync_port;
        match self.stage {
            EnableStage::MountingRoot => match ev {
                EnableEvent::Ran(Ok(_)) => {
                    let a = self.sync_args();
                    (EnableFlow { stage: EnableStage::MountingSync, opds_port, kosync_port }, EnableAction::Run(a))
                },
                EnableEvent::Ran(Err(e)) => {
                    let e2 = e.clone();
                    (
                        EnableFlow { stage: EnableStage::Finished(Err(e)), opds_port, kosync_port },
                        EnableAction::Finish(Err(e2)),
                    )
                },
                EnableEvent::Info(_) => {
                    let a = self.root_args();
                    (EnableFlow { stage: EnableStage::MountingRoot, opds_port, kosync_port }, EnableAction::Run(a))
                },
            },
            EnableStage::MountingSync => match ev {
                EnableEvent::Ran(Ok(_)) => (
                    EnableFlow { stage: EnableStage::ReadingInfo, opds_port, kosync_port },
                    EnableAction::ReadInfo,
                ),
                EnableEvent::Ran(Err(e)) => {
                    let e2 = e.clone();
                    (
                        EnableFlow { stage: EnableStage::Finished(Err(e)), opds_port, kosync_port },
                        EnableAction::Finish(Err(e2)),
                    )
                },
                EnableEvent::Info(_) => {
                    let a = self.sync_args();
                    (EnableFlow { stage: EnableStage::MountingSync, opds_port, kosync_port }, EnableAction::Run(a))
                },
            },
            EnableStage::ReadingInfo => match ev {
                EnableEvent::Info(dns) => {
                    let o: Result<String, String> = if dns.as_str().is_empty() {
                        Err(String::from_str("Tailscale is not logged in"))
                    } else {
                        let mut u = base(dns.as_str());
                        u.append("/opds");
                        Ok(u)
                    };
                    let o2 = copy_result(&o);
                    (
                        EnableFlow { stage: EnableStage::Finished(o), opds_port, kosync_port },
                        EnableAction::Finish(o2),
                    )
                },
                EnableEvent::Ran(_) => (
                    EnableFlow { stage: EnableStage::ReadingInfo, opds_port, kosync_port },
                    EnableAction::ReadInfo,
                ),
            },
            EnableStage::Finished(o) => {
                let o2 = copy_result(&o);
                (
                    EnableFlow { stage: EnableStage::Finished(o), opds_port, kosync_port },
                    EnableAction::Finish(o2),
                )
            },
        }
    }
}

/// Turn on Funnel: without the binary, finish at once with an error;
/// otherwise start by mounting delivery at the root of our port.
pub fn enable(installed: bool, opds_port: u16, kosync_port: u16) -> (r: (EnableFlow, EnableAction))
    ensures
        r.0.opds_port == opds_port,
        r.0.kosync_port == kosync_port,
        !installed ==> (r.0.stage matches EnableStage::Finished(o) && result_view(o) == Err::<
            Seq<char>,
            Seq<char>,
        >("Tailscale is not installed"@)) && finishes(r.1, Err("Tailscale is not installed"@)),
        installed ==> r.0.stage is MountingRoot && runs(r.1, root_mount_args(opds_port)),
{
    if !installed {
        let e = String::from_str("Tailscale is not installed");
        let e2 = String::from_str("Tailscale is not installed");
        return (
            EnableFlow { stage: EnableStage::Finished(Err(e)), opds_port, kosync_port },
            EnableAction::Finish(Err(e2)),
        );
    }
    let f = EnableFlow { stage: EnableStage::MountingRoot, opds_port, kosync_port };
    let a = f.root_args();
    (f, EnableAction::Run(a))
}

/// Turn off our funnel port only, leaving any other serve or funnel
/// configuration untouched: the two commands to run (their outcomes are
/// ignored), or an error without the binary.
pub fn disable(installed: bool) -> (r: Result<Vec<Vec<String>>, String>)
    ensures
        !installed ==> (r matches Err(e) && e@ == "Tailscale is not installed"@),
        installed ==> (r matches Ok(cmds) && cmds@.len() == 2 && args_view(cmds@[0]@) == off_args(
            "funnel"@,
        ) && args_view(cmds@[1]@) == off_args("serve"@)),
{
    if !installed {
        return Err(String::from_str("Tailscale is not installed"));
    }
    let mut funnel_off: Vec<String> = Vec::new();
    funnel_off.push(String::from_str("funnel"));
    funnel_off.push(https_flag_text());
    funnel_off.push(String::from_str("off"));
    let mut serve_off: Vec<String> = Vec::new();
    serve_off.push(String::from_str("serve"));
    serve_off.push(https_flag_text());
    serve_off.push(String::from_str("off"));
    assert(args_view(funnel_off@) =~= off_args("funnel"@));
    assert(args_view(serve_off@) =~= off_args("serve"@));
    let mut cmds: Vec<Vec<String>> = Vec::new();
    cmds.push(funnel_off);
    cmds.push(serve_off);
    Ok(cmds)
}

} // verus!
