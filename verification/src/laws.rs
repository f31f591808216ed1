//! Properties of the library as a whole, stated over the contracts of its
//! functions and proved.

use crate::config::has_token;
use crate::config::is_fresh;
use crate::config::AppConfig;
use crate::config::PASSWORD_CHARS;
use crate::paths::Paths;
use crate::services::env_view;
use crate::services::ServiceSpec;
use crate::supervisor::is_kosync_spec;
use crate::supervisor::is_opds_spec;
use crate::supervisor::seed_url;
use crate::tailscale::off_args;
use crate::tailscale::pinned_to_funnel_port;
use crate::tailscale::root_mount_args;
use crate::tailscale::sync_mount_args;
use crate::tailscale::https_flag;
use crate::tailscale::FUNNEL_PORT;
use crate::text::is_white_space;
use crate::text::trim_end;
use crate::text::trim_start;
use crate::text::trimmed;
use crate::webdav::device_base;
use vstd::prelude::*;
use vstd::string::*;

verus! {

proof fn lemma_trim_start_first(s: Seq<char>)
    ensures
        trim_start(s).len() > 0 ==> !is_white_space(trim_start(s)[0]),
        trim_start(s).len() <= s.len(),
    decreases s.len(),
{
    if s.len() > 0 && is_white_space(s[0]) {
        lemma_trim_start_first(s.drop_first());
    }
}

proof fn lemma_trim_end_keeps_first(s: Seq<char>)
    ensures
        trim_end(s).len() > 0 ==> trim_end(s)[0] == s[0] && !is_white_space(trim_end(s).last()),
        trim_end(s).len() <= s.len(),
    decreases s.len(),
{
    if s.len() > 0 && is_white_space(s.last()) {
        lemma_trim_end_keeps_first(s.drop_last());
    }
}

/// Trimming twice is trimming once.
pub proof fn lemma_trimmed_idempotent(s: Seq<char>)
    ensures
        trimmed(trimmed(s)) == trimmed(s),
{
    let u = trimmed(s);
    lemma_trim_start_first(s);
    lemma_trim_end_keeps_first(trim_start(s));
    if u.len() > 0 {
        assert(trim_start(u) == u);
        assert(trim_end(u) == u);
    } else {
        assert(trim_start(u) == u);
        assert(trim_end(u) == u);
    }
}

/// Once a token is stored (it is stored trimmed), the configuration counts
/// as configured exactly when what was entered holds anything but white
/// space; storing the stored token again changes nothing.
pub proof fn law_stored_token_gate(entered: Seq<char>)
    ensures
        has_token(trimmed(entered)) == has_token(entered),
        trimmed(trimmed(entered)) == trimmed(entered),
{
    lemma_trimmed_idempotent(entered);
}

/// A first-run configuration has no token, so the services do not start by
/// themselves and starting them is refused until a token is entered.
pub proof fn law_fresh_config_waits_for_token(c: AppConfig)
    requires
        is_fresh(c),
    ensures
        !has_token(c.readwise_token@),
        !(c.autostart_services && has_token(c.readwise_token@)),
{
    assert(trim_start(c.readwise_token@) == c.readwise_token@);
    assert(trim_end(c.readwise_token@) == c.readwise_token@);
}

/// The environment `env` holds the entry `(k, v)`.
pub open spec fn env_has(env: Seq<(Seq<char>, Seq<char>)>, k: Seq<char>, v: Seq<char>) -> bool {
    exists|i: int| 0 <= i < env.len() && #[trigger] env[i] == (k, v)
}

/// The two services are wired together: both hold the configured seed
/// secret, delivery seeds positions into the archive's own port as the
/// archive's account, and delivery guards its feed with the credentials the
/// popover shows for it.
pub proof fn law_services_share_seed(
    paths: Paths,
    cfg: AppConfig,
    opds_pnp: Seq<(Seq<char>, Seq<char>)>,
    kosync_pnp: Seq<(Seq<char>, Seq<char>)>,
    o: ServiceSpec,
    k: ServiceSpec,
)
    requires
        is_opds_spec(paths, cfg, opds_pnp, o),
        is_kosync_spec(paths, cfg, kosync_pnp, k),
    ensures
        env_has(env_view(o.env@), "READLOOP_SEED_SECRET"@, cfg.seed_secret@),
        env_has(env_view(k.env@), "READLOOP_SEED_SECRET"@, cfg.seed_secret@),
        env_has(env_view(o.env@), "READLOOP_SEED_URL"@, seed_url(k.port)),
        env_has(env_view(o.env@), "READLOOP_SEED_USER"@, cfg.kosync_user@),
        env_has(env_view(o.env@), "OPDS_AUTH_USER"@, cfg.opds_user@),
        env_has(env_view(o.env@), "OPDS_AUTH_PASS"@, cfg.opds_pass@),
{
    let oe = env_view(o.env@);
    let n: int = opds_pnp.len() as int;
    assert(oe[n + 8] == ("READLOOP_SEED_SECRET"@, cfg.seed_secret@));
    assert(oe[n + 7] == ("READLOOP_SEED_URL"@, seed_url(k.port)));
    assert(oe[n + 9] == ("READLOOP_SEED_USER"@, cfg.kosync_user@));
    assert(oe[n + 3] == ("OPDS_AUTH_USER"@, cfg.opds_user@));
    assert(oe[n + 4] == ("OPDS_AUTH_PASS"@, cfg.opds_pass@));
    let db = choose|db: Seq<char>|
        {
            &&& (!crate::paths::verbatim(paths.data_dir@) ==> crate::paths::joined(
                paths.data_dir@,
                "crosspoint.db"@,
                db,
            ))
            &&& env_view(k.env@) == kosync_pnp + crate::supervisor::kosync_env(cfg, db)
        };
    let ke = env_view(k.env@);
    let m: int = kosync_pnp.len() as int;
    assert(ke[m + 5] == ("READLOOP_SEED_SECRET"@, cfg.seed_secret@));
}

/// Every command that turning remote access on or off runs names our funnel
/// port, 443 (one of the ports Funnel allows), and no other, so a funnel the
/// user runs on another port is never touched.
pub proof fn law_funnel_commands_pinned(opds_port: u16, kosync_port: u16)
    ensures
        FUNNEL_PORT == 443 || FUNNEL_PORT == 8443 || FUNNEL_PORT == 10000,
        pinned_to_funnel_port(root_mount_args(opds_port)),
        pinned_to_funnel_port(sync_mount_args(kosync_port)),
        pinned_to_funnel_port(off_args("funnel"@)),
        pinned_to_funnel_port(off_args("serve"@)),
{
    reveal_strlit("--https=");
    reveal_strlit("funnel");
    reveal_strlit("serve");
    reveal_strlit("--bg");
    reveal_strlit("off");
    reveal_strlit("--set-path=/sync");
    reveal_strlit("http://127.0.0.1:");
    let p = "--https="@;
    assert(!p.is_prefix_of("funnel"@)) by {
        assert("funnel"@[0] != p[0]);
    }
    assert(!p.is_prefix_of("serve"@)) by {
        assert("serve"@[0] != p[0]);
    }
    assert(!p.is_prefix_of("off"@)) by {
        assert("off"@[0] != p[0]);
    }
    assert(!p.is_prefix_of("--bg"@)) by {
        assert("--bg"@[2] != p[2]);
    }
    assert(!p.is_prefix_of("--set-path=/sync"@)) by {
        assert("--set-path=/sync"@.subrange(0, 8)[2] != p[2]);
    }
    assert forall|port: u16| !p.is_prefix_of(#[trigger] crate::http::loopback(port)) by {
        let l = crate::http::loopback(port);
        assert(l[0] == 'h');
        if p.is_prefix_of(l) {
            assert(l.subrange(0, 8)[0] == l[0]);
        }
    }
    let r = root_mount_args(opds_port);
    assert(r[2] == https_flag());
    let s = sync_mount_args(kosync_port);
    assert(s[2] == https_flag());
    let f = off_args("funnel"@);
    assert(f[1] == https_flag());
    let v = off_args("serve"@);
    assert(v[1] == https_flag());
}

/// Turning remote access on succeeds only by reading a non-empty DNS name
/// once both mounts are done, and then answers the node's public OPDS URL;
/// a finished flow keeps its outcome.
pub proof fn law_enable_succeeds_only_when_logged_in(
    f: crate::tailscale::EnableFlow,
    ev: crate::tailscale::EnableEvent,
    g: crate::tailscale::EnableFlow,
    a: crate::tailscale::EnableAction,
    url: Seq<char>,
)
    requires
        crate::tailscale::enable_next(f, ev, g, a),
        crate::tailscale::finishes(a, Ok(url)),
    ensures
        ({
            ||| f.stage is ReadingInfo && (ev matches crate::tailscale::EnableEvent::Info(dns) && dns@.len() > 0
                && url == crate::tailscale::public_base(dns@) + "/opds"@)
            ||| (f.stage matches crate::tailscale::EnableStage::Finished(o) && crate::tailscale::result_view(o)
                == Ok::<Seq<char>, Seq<char>>(url))
        }),
{
}

/// Starting a service that is still running is idempotent: taking its
/// handle out of the table and settling the start with it running (see
/// `ServiceTable::settle_start`, which then launches nothing) leaves the
/// table exactly as it was.
pub proof fn law_restart_of_running_service_keeps_table<C>(before: Map<Seq<char>, C>, name: Seq<char>)
    requires
        before.contains_key(name),
    ensures
        before.remove(name).insert(name, before[name]) == before,
{
    assert(before.remove(name).insert(name, before[name]) =~= before);
}

/// Generated passwords are URL-safe and free of look-alike characters: every
/// character of the alphabet is an ASCII letter or digit other than `0`,
/// `O`, `1`, `I` and `l`.
pub proof fn law_password_alphabet_unambiguous()
    ensures
        forall|i: int|
            0 <= i < PASSWORD_CHARS@.len() ==> {
                let c = #[trigger] PASSWORD_CHARS@[i];
                &&& ('A' <= c <= 'Z' || 'a' <= c <= 'z' || '0' <= c <= '9')
                &&& c != '0' && c != 'O' && c != '1' && c != 'I' && c != 'l'
            },
{
    reveal_strlit("ABCDEFGHJKLMNPQRSTUVWXYZabcdefghijkmnopqrstuvwxyz23456789");
}

/// Whatever address is entered, bare host or full URL, the device's base
/// URL is an `http://` or `https://` URL.
pub proof fn law_device_base_is_url(host: Seq<char>)
    ensures
        "http://"@.is_prefix_of(device_base(host)) || "https://"@.is_prefix_of(device_base(host)),
{
    let h = crate::text::strip_trailing(trimmed(host), '/');
    if !("http://"@.is_prefix_of(h) || "https://"@.is_prefix_of(h)) {
        assert(("http://"@ + h).subrange(0, "http://"@.len() as int) == "http://"@);
    }
}

proof fn lemma_strip_trailing_prefix(s: Seq<char>, c: char)
    ensures
        crate::text::strip_trailing(s, c).len() <= s.len(),
        crate::text::strip_trailing(s, c) == s.subrange(
            0,
            crate::text::strip_trailing(s, c).len() as int,
        ),
        crate::text::strip_trailing(s, c).len() > 0 ==> crate::text::strip_trailing(s, c).last() != c,
    decreases s.len(),
{
    if s.len() > 0 && s.last() == c {
        lemma_strip_trailing_prefix(s.drop_last(), c);
        let t = crate::text::strip_trailing(s.drop_last(), c);
        assert(s.drop_last().subrange(0, t.len() as int) =~= s.subrange(0, t.len() as int));
    } else {
        assert(s.subrange(0, s.len() as int) =~= s);
    }
}

proof fn lemma_trimmed_keeps(s: Seq<char>)
    requires
        s.len() > 0,
        !is_white_space(s[0]),
        !is_white_space(s.last()),
    ensures
        trimmed(s) == s,
{
    assert(trim_start(s) == s);
    assert(trim_end(s) == s);
}

/// For an address without white space that names a host (something is left
/// once trailing slashes go), the device's base URL ends in no `/`, and
/// taking the base URL of it again changes nothing.
pub proof fn law_device_base_idempotent(host: Seq<char>)
    requires
        forall|i: int| 0 <= i < host.len() ==> !is_white_space(#[trigger] host[i]),
        crate::text::strip_trailing(host, '/').len() > 0,
    ensures
        device_base(host).last() != '/',
        device_base(device_base(host)) == device_base(host),
{
    reveal_strlit("http://");
    reveal_strlit("https://");
    lemma_trimmed_keeps(host);
    let h = crate::text::strip_trailing(host, '/');
    lemma_strip_trailing_prefix(host, '/');
    assert(h[0] == host[0]);
    assert(h.last() == host[h.len() - 1]);
    let r = device_base(host);
    if "http://"@.is_prefix_of(h) || "https://"@.is_prefix_of(h) {
        assert(r == h);
    } else {
        assert(r == "http://"@ + h);
        assert(r.subrange(0, 7) =~= "http://"@);
        assert(r.last() == h.last());
    }
    assert(r.len() > 0);
    assert(!is_white_space(r[0]));
    assert(!is_white_space(r.last()));
    lemma_trimmed_keeps(r);
    assert(crate::text::strip_trailing(r, '/') == r);
    assert("http://"@.is_prefix_of(r) || "https://"@.is_prefix_of(r));
}

/// An absolute directory in the `/`-separated form of Linux and macOS,
/// given without a trailing separator.
pub open spec fn unix_dir(d: Seq<char>) -> bool {
    &&& d.len() > 0
    &&& d[0] == '/'
    &&& d.last() != '/'
    &&& d.last() != '\\'
}

proof fn lemma_unix_dir_ordinary(d: Seq<char>)
    requires
        unix_dir(d),
    ensures
        !crate::paths::platform_dependent_base(d),
{
    if d.len() >= 4 {
        assert(d.subrange(0, 4)[0] == d[0]);
    }
}

proof fn lemma_unix_join(d: Seq<char>, tail: Seq<char>)
    requires
        unix_dir(d),
    ensures
        crate::paths::slash_joined(d, tail) == d + "/"@ + tail,
{
    reveal_strlit("/");
    assert(d + seq!['/'] + tail =~= d + "/"@ + tail);
}

/// The archive keeps its database inside the data directory: for a data
/// directory in `/`-separated form (Linux, macOS) the archive is started
/// with `DATABASE_PATH` set to `<data dir>/crosspoint.db`, right after the
/// PnP part of its environment and its port.
pub proof fn law_database_in_data_dir(
    paths: Paths,
    cfg: AppConfig,
    pnp: Seq<(Seq<char>, Seq<char>)>,
    k: ServiceSpec,
)
    requires
        is_kosync_spec(paths, cfg, pnp, k),
        unix_dir(paths.data_dir@),
    ensures
        env_view(k.env@)[pnp.len() + 1int] == ("DATABASE_PATH"@, paths.data_dir@ + "/crosspoint.db"@),
        env_has(env_view(k.env@), "DATABASE_PATH"@, paths.data_dir@ + "/crosspoint.db"@),
{
    lemma_unix_dir_ordinary(paths.data_dir@);
    lemma_unix_join(paths.data_dir@, "crosspoint.db"@);
    reveal_strlit("crosspoint.db");
    reveal_strlit("/crosspoint.db");
    assert(paths.data_dir@ + "/"@ + "crosspoint.db"@ =~= paths.data_dir@ + "/crosspoint.db"@);
    let ke = env_view(k.env@);
    assert(ke[pnp.len() + 1int] == ("DATABASE_PATH"@, paths.data_dir@ + "/crosspoint.db"@));
}

/// Each service runs its built entry point from its package directory and
/// logs into the log directory under its own name: for directories in
/// `/`-separated form, `<opds dir>/dist/server.js` with
/// `<log dir>/news2reader.log`, and `<kosync dir>/dist/index.js` with
/// `<log dir>/crosspoint-sync.log`.
pub proof fn law_service_files_in_their_dirs(
    paths: Paths,
    cfg: AppConfig,
    opds_pnp: Seq<(Seq<char>, Seq<char>)>,
    kosync_pnp: Seq<(Seq<char>, Seq<char>)>,
    o: ServiceSpec,
    k: ServiceSpec,
)
    requires
        is_opds_spec(paths, cfg, opds_pnp, o),
        is_kosync_spec(paths, cfg, kosync_pnp, k),
        unix_dir(paths.opds_dir@),
        unix_dir(paths.kosync_dir@),
        unix_dir(paths.log_dir@),
    ensures
        o.entry@ == paths.opds_dir@ + "/dist/server.js"@,
        o.log@ == paths.log_dir@ + "/news2reader.log"@,
        k.entry@ == paths.kosync_dir@ + "/dist/index.js"@,
        k.log@ == paths.log_dir@ + "/crosspoint-sync.log"@,
{
    reveal_strlit("dist/server.js");
    reveal_strlit("/dist/server.js");
    reveal_strlit("news2reader.log");
    reveal_strlit("/news2reader.log");
    reveal_strlit("dist/index.js");
    reveal_strlit("/dist/index.js");
    reveal_strlit("crosspoint-sync.log");
    reveal_strlit("/crosspoint-sync.log");
    reveal_strlit("/");
    lemma_unix_dir_ordinary(paths.opds_dir@);
    lemma_unix_dir_ordinary(paths.kosync_dir@);
    lemma_unix_dir_ordinary(paths.log_dir@);
    lemma_unix_join(paths.opds_dir@, "dist/server.js"@);
    lemma_unix_join(paths.log_dir@, "news2reader.log"@);
    lemma_unix_join(paths.kosync_dir@, "dist/index.js"@);
    lemma_unix_join(paths.log_dir@, "crosspoint-sync.log"@);
    assert(paths.opds_dir@ + "/"@ + "dist/server.js"@ =~= paths.opds_dir@ + "/dist/server.js"@);
    assert(paths.log_dir@ + "/"@ + "news2reader.log"@ =~= paths.log_dir@ + "/news2reader.log"@);
    assert(paths.kosync_dir@ + "/"@ + "dist/index.js"@ =~= paths.kosync_dir@ + "/dist/index.js"@);
    assert(paths.log_dir@ + "/"@ + "crosspoint-sync.log"@ =~= paths.log_dir@
        + "/crosspoint-sync.log"@);
}

/// Without overrides the bundled runtime and both services are found under
/// `<resource dir>/services`, and the logs under `<data dir>/logs`: for
/// directories in `/`-separated form (Linux, macOS), the runtime is
/// `<resource dir>/services/node/bin/node` and the two services
/// `<resource dir>/services/news2reader` and
/// `<resource dir>/services/crosspoint-sync`. An override is taken as given.
pub proof fn law_bundled_services_under_resource_dir(
    resource: String,
    data: String,
    node_override: Option<String>,
    opds_override: Option<String>,
    kosync_override: Option<String>,
    r: Paths,
)
    requires
        crate::paths::resolved_with_slash(
            Some(resource),
            Some(data),
            None,
            node_override,
            opds_override,
            kosync_override,
            r,
        ),
        unix_dir(resource@),
        unix_dir(data@),
    ensures
        r.node@ == match node_override {
            Some(n) => n@,
            None => resource@ + "/services/node/bin/node"@,
        },
        r.opds_dir@ == match opds_override {
            Some(n) => n@,
            None => resource@ + "/services/news2reader"@,
        },
        r.kosync_dir@ == match kosync_override {
            Some(n) => n@,
            None => resource@ + "/services/crosspoint-sync"@,
        },
        r.data_dir@ == data@,
        r.log_dir@ == data@ + "/logs"@,
{
    reveal_strlit("/");
    reveal_strlit("services");
    reveal_strlit("node/bin/node");
    reveal_strlit("news2reader");
    reveal_strlit("crosspoint-sync");
    reveal_strlit("logs");
    reveal_strlit("/logs");
    reveal_strlit("/services/node/bin/node");
    reveal_strlit("/services/news2reader");
    reveal_strlit("/services/crosspoint-sync");
    let res = resource@;
    lemma_unix_dir_ordinary(res);
    lemma_unix_dir_ordinary(data@);
    lemma_unix_join(res, "services"@);
    let root = res + "/"@ + "services"@;
    assert(root =~= res + "/services"@) by {
        reveal_strlit("/services");
    }
    reveal_strlit("/services");
    assert(root.last() == 's');
    assert(unix_dir(root));
    lemma_unix_join(root, "node/bin/node"@);
    lemma_unix_join(root, "news2reader"@);
    lemma_unix_join(root, "crosspoint-sync"@);
    lemma_unix_join(data@, "logs"@);
    assert(root + "/"@ + "node/bin/node"@ =~= res + "/services/node/bin/node"@);
    assert(root + "/"@ + "news2reader"@ =~= res + "/services/news2reader"@);
    assert(root + "/"@ + "crosspoint-sync"@ =~= res + "/services/crosspoint-sync"@);
    assert(data@ + "/"@ + "logs"@ =~= data@ + "/logs"@);
}

/// A failed command ends turning remote access on, whichever of the two
/// mounts it was: the flow finishes with that command's error and reports it.
pub proof fn law_failed_mount_ends_enable(
    f: crate::tailscale::EnableFlow,
    err: String,
    g: crate::tailscale::EnableFlow,
    a: crate::tailscale::EnableAction,
)
    requires
        f.stage is MountingRoot || f.stage is MountingSync,
        crate::tailscale::enable_next(f, crate::tailscale::EnableEvent::Ran(Err(err)), g, a),
    ensures
        crate::tailscale::finishes(a, Err(err@)),
        g.stage matches crate::tailscale::EnableStage::Finished(o) && crate::tailscale::result_view(o)
            == Err::<Seq<char>, Seq<char>>(err@),
{
}

/// A run of turning remote access on: flows `fs`, the events reported
/// `evs` and the actions asked for `acts`, each step taken by
/// `EnableFlow::step`.
pub open spec fn enable_run(
    fs: Seq<crate::tailscale::EnableFlow>,
    evs: Seq<crate::tailscale::EnableEvent>,
    acts: Seq<crate::tailscale::EnableAction>,
) -> bool {
    &&& fs.len() == evs.len() + 1
    &&& acts.len() == evs.len()
    &&& forall|i: int|
        #![trigger evs[i]]
        0 <= i < evs.len() ==> crate::tailscale::enable_next(fs[i], evs[i], fs[i + 1], acts[i])
}

/// Step `i` of a run reports a successful command while the flow waits for
/// the root mount (`root`) or for the sync mount (`!root`).
pub open spec fn ran_ok_at(
    fs: Seq<crate::tailscale::EnableFlow>,
    evs: Seq<crate::tailscale::EnableEvent>,
    i: int,
    root: bool,
) -> bool {
    &&& (if root { fs[i].stage is MountingRoot } else { fs[i].stage is MountingSync })
    &&& evs[i] matches crate::tailscale::EnableEvent::Ran(Ok(_))
}

proof fn lemma_enable_progress(
    fs: Seq<crate::tailscale::EnableFlow>,
    evs: Seq<crate::tailscale::EnableEvent>,
    acts: Seq<crate::tailscale::EnableAction>,
    k: int,
)
    requires
        enable_run(fs, evs, acts),
        fs[0].stage is MountingRoot,
        0 <= k <= evs.len(),
    ensures
        fs[k].stage is MountingSync ==> exists|i: int| 0 <= i < k && #[trigger] ran_ok_at(fs, evs, i, true),
        (fs[k].stage is ReadingInfo || (fs[k].stage matches crate::tailscale::EnableStage::Finished(o) && o is Ok))
            ==> exists|i: int, j: int|
            0 <= i < j < k && #[trigger] ran_ok_at(fs, evs, i, true) && #[trigger] ran_ok_at(fs, evs, j, false),
    decreases k,
{
    if k > 0 {
        lemma_enable_progress(fs, evs, acts, k - 1);
        let p = k - 1;
        assert(crate::tailscale::enable_next(fs[p], evs[p], fs[p + 1], acts[p]));
        if fs[k].stage is MountingSync {
            if fs[p].stage is MountingRoot {
                assert(ran_ok_at(fs, evs, p, true));
            } else {
                let i = choose|i: int| 0 <= i < p && #[trigger] ran_ok_at(fs, evs, i, true);
                assert(ran_ok_at(fs, evs, i, true));
            }
        }
        if fs[k].stage is ReadingInfo || (fs[k].stage matches crate::tailscale::EnableStage::Finished(o) && o is Ok) {
            if fs[p].stage is MountingSync {
                let i = choose|i: int| 0 <= i < p && #[trigger] ran_ok_at(fs, evs, i, true);
                assert(ran_ok_at(fs, evs, i, true));
                assert(ran_ok_at(fs, evs, p, false));
            } else {
                if let crate::tailscale::EnableStage::Finished(o) = fs[k].stage {
                    if let crate::tailscale::EnableStage::Finished(o1) = fs[p].stage {
                        assert(crate::tailscale::result_view(o) == crate::tailscale::result_view(o1));
                    }
                }
                let (i, j) = choose|i: int, j: int|
                    0 <= i < j < p && #[trigger] ran_ok_at(fs, evs, i, true) && #[trigger] ran_ok_at(fs, evs, j, false);
                assert(ran_ok_at(fs, evs, i, true) && ran_ok_at(fs, evs, j, false));
            }
        }
    }
}

/// Remote access is reported as on only after both mounts succeeded: in
/// any run that starts by mounting delivery at the root, a step that
/// finishes with the public URL comes after a successful root mount, itself
/// followed by a successful sync mount.
pub proof fn law_enable_ok_only_after_both_mounts(
    fs: Seq<crate::tailscale::EnableFlow>,
    evs: Seq<crate::tailscale::EnableEvent>,
    acts: Seq<crate::tailscale::EnableAction>,
    k: int,
    url: Seq<char>,
)
    requires
        enable_run(fs, evs, acts),
        fs[0].stage is MountingRoot,
        0 <= k < evs.len(),
        crate::tailscale::finishes(acts[k], Ok(url)),
    ensures
        exists|i: int, j: int|
            0 <= i < j < k && #[trigger] ran_ok_at(fs, evs, i, true) && #[trigger] ran_ok_at(fs, evs, j, false),
{
    lemma_enable_progress(fs, evs, acts, k);
    assert(crate::tailscale::enable_next(fs[k], evs[k], fs[k + 1], acts[k]));
    if let crate::tailscale::EnableStage::Finished(o) = fs[k].stage {
        assert(o is Ok);
    }
}

proof fn lemma_first_found(exists: Seq<bool>, k: int)
    requires
        0 <= k <= 5,
    ensures
        forall|i: int|
            k <= i < 5 && i < exists.len() && exists[i] && (forall|j: int| k <= j < i ==> !exists[j])
                ==> #[trigger] crate::tailscale::first_found(exists, k) == Some(i),
        crate::tailscale::first_found(exists, k) is None <==> (forall|j: int|
            k <= j < 5 && j < exists.len() ==> !exists[j]),
    decreases 5 - k,
{
    if k < 5 {
        lemma_first_found(exists, k + 1);
        if k < exists.len() && !exists[k] {
            assert forall|i: int|
                k <= i < 5 && i < exists.len() && exists[i] && (forall|j: int| k <= j < i ==> !exists[j])
                    implies #[trigger] crate::tailscale::first_found(exists, k) == Some(i) by {
                assert(i != k);
                assert forall|j: int| k + 1 <= j < i implies !exists[j] by {
                    assert(k <= j < i);
                }
            }
        }
        if k < exists.len() && exists[k] {
            assert(!(forall|j: int| k <= j < 5 && j < exists.len() ==> !exists[j])) by {
                assert(k <= k < 5 && k < exists.len());
            }
            assert forall|i: int|
                k <= i < 5 && i < exists.len() && exists[i] && (forall|j: int| k <= j < i ==> !exists[j])
                    implies #[trigger] crate::tailscale::first_found(exists, k) == Some(i) by {
                if i != k {
                    assert(k <= k < i);
                }
            }
        }
    }
}

/// Every candidate location is looked at, in order: when candidate `i` (of
/// the five) exists and none before it does, it is the binary, whatever
/// `which` says.
pub proof fn law_binary_first_existing_candidate(exists: Seq<bool>, which: Option<Seq<char>>, i: int)
    requires
        0 <= i < 5,
        i < exists.len(),
        exists[i],
        forall|j: int| 0 <= j < i ==> !exists[j],
    ensures
        crate::tailscale::found_binary(exists, which) == Some(crate::tailscale::candidate_paths()[i]),
{
    lemma_first_found(exists, 0);
    assert(crate::tailscale::first_found(exists, 0) == Some(i));
}

/// The binary is reported missing exactly when none of the five candidates
/// exists and `which tailscale` failed or printed only white space.
pub proof fn law_binary_missing_only_when_nowhere(exists: Seq<bool>, which: Option<Seq<char>>)
    ensures
        crate::tailscale::found_binary(exists, which) is None <==> {
            &&& forall|j: int| 0 <= j < 5 && j < exists.len() ==> !exists[j]
            &&& match which {
                Some(out) => trimmed(out).len() == 0,
                None => true,
            }
        },
{
    lemma_first_found(exists, 0);
}

/// Writability grows with the evidence: a device that answered the probe is
/// writable, with no error, when its upper-cased `Allow` header lists PUT,
/// whatever its `DAV` header, and when it sends a `DAV` header, whatever its
/// `Allow` header; with neither it is reachable but not writable, with the
/// not-a-WebDAV-server error.
pub proof fn law_webdav_writable_when_put_or_dav(allow: String, dav: String, s: crate::webdav::WebdavStatus)
    requires
        crate::webdav::probe_status(crate::webdav::Probe::Answered { allow, dav }, s),
    ensures
        s.reachable,
        crate::text::contains_seq(crate::webdav::upper_case(allow@), "PUT"@) ==> s.writable
            && s.error@.len() == 0,
        dav@.len() > 0 ==> s.writable && s.error@.len() == 0,
        !crate::text::contains_seq(crate::webdav::upper_case(allow@), "PUT"@) && dav@.len() == 0
            ==> !s.writable && s.error@ == "Reachable, but not a WebDAV server"@,
{
}

} // verus!
