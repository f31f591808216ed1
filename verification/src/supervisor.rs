//! The launch specifications of the two Node services (news2reader =
//! delivery, crosspoint-sync = archive), built from the configuration and
//! the resolved paths, and the plan for starting both.

use crate::config::has_token;
use crate::config::AppConfig;
use crate::http::loopback;
use crate::http::loopback_url;
use crate::paths::joined;
use crate::paths::join_dir;
use crate::paths::platform_dependent_base;
use crate::paths::slash_joined;
use crate::paths::verbatim;
use crate::paths::Paths;
use crate::services::env_view;
use crate::services::pair_view;
use crate::services::ServiceSpec;
use crate::text::decimal;
use crate::text::push_decimal;
use vstd::prelude::*;
use vstd::string::*;

verus! {

/// Logical name of the delivery service (also its sidecar directory).
pub const SVC_OPDS: &'static str = "news2reader";

/// Logical name of the archive service (also its sidecar directory).
pub const SVC_KOSYNC: &'static str = "crosspoint-sync";

/// The Yarn PnP files of a service directory: `.pnp.cjs` and
/// `.pnp.loader.mjs`. Whether they exist is for the caller to find out.
pub fn pnp_files(dir: &str) -> (r: (String, String))
    ensures
        !verbatim(dir@) ==> joined(dir@, ".pnp.cjs"@, r.0@) && joined(
            dir@,
            ".pnp.loader.mjs"@,
            r.1@,
        ),
        !platform_dependent_base(dir@) ==> r.0@ == slash_joined(dir@, ".pnp.cjs"@) && r.1@
            == slash_joined(dir@, ".pnp.loader.mjs"@),
{
    proof {
        reveal_strlit(".pnp.cjs");
        reveal_strlit(".pnp.loader.mjs");
    }
    (join_dir(dir, ".pnp.cjs"), join_dir(dir, ".pnp.loader.mjs"))
}

/// `NODE_OPTIONS` for a Yarn PnP install: require the PnP file, and load its
/// ES-module loader when there is one.
pub open spec fn pnp_options(pnp: Seq<char>, loader: Seq<char>, loader_exists: bool) -> Seq<char> {
    if loader_exists {
        "--require "@ + pnp + " --loader file://"@ + loader
    } else {
        "--require "@ + pnp
    }
}

/// The extra environment of a dev install: for a Yarn PnP install (the PnP
/// file exists), the `NODE_OPTIONS` needed to run it with plain `node`;
/// nothing for a node-modules install.
pub open spec fn pnp_env_view(pnp: Seq<char>, loader: Seq<char>, pnp_exists: bool, loader_exists: bool) -> Seq<(Seq<char>, Seq<char>)> {
    if pnp_exists {
        seq![("NODE_OPTIONS"@, pnp_options(pnp, loader, loader_exists))]
    } else {
        Seq::empty()
    }
}

/// The extra environment of a dev install (see [`pnp_env_view`]); `pnp` and
/// `loader` are the paths that [`pnp_files`] gives.
pub fn pnp_env(pnp: &str, loader: &str, pnp_exists: bool, loader_exists: bool) -> (r: Vec<(String, String)>)
    ensures
        env_view(r@) == pnp_env_view(pnp@, loader@, pnp_exists, loader_exists),
{
    let mut r: Vec<(String, String)> = Vec::new();
    if pnp_exists {
        let mut opts = String::from_str("--require ");
        opts.append(pnp);
        if loader_exists {
            opts.append(" --loader file://");
            opts.append(loader);
        }
        r.push((String::from_str("NODE_OPTIONS"), opts));
    }
    assert(env_view(r@) =~= pnp_env_view(pnp@, loader@, pnp_exists, loader_exists));
    r
}

/// Where the delivery service pre-seeds reading positions: the archive's
/// seed endpoint.
pub open spec fn seed_url(kosync_port: u16) -> Seq<char> {
    loopback(kosync_port) + "/readloop/seed-progress"@
}

/// The delivery service's own environment.
pub open spec fn opds_env(cfg: AppConfig) -> Seq<(Seq<char>, Seq<char>)> {
    seq![
        ("PORT"@, decimal(cfg.opds_port as nat)),
        ("READWISE_TOKEN"@, cfg.readwise_token@),
        ("OPDS_PROVIDERS"@, "readwise"@),
        ("OPDS_AUTH_USER"@, cfg.opds_user@),
        ("OPDS_AUTH_PASS"@, cfg.opds_pass@),
        ("READWISE_IMAGES"@, "transcode"@),
        ("READWISE_FEED_LIMIT"@, "40"@),
        ("READLOOP_SEED_URL"@, seed_url(cfg.kosync_port)),
        ("READLOOP_SEED_SECRET"@, cfg.seed_secret@),
        ("READLOOP_SEED_USER"@, cfg.kosync_user@),
    ]
}

/// The archive service's own environment, with its database at `db`.
/// Registration is disabled (`REGISTRATION_DISABLED=1`): the archive serves
/// a single local user, among the validated defaults of the service.
pub open spec fn kosync_env(cfg: AppConfig, db: Seq<char>) -> Seq<(Seq<char>, Seq<char>)> {
    seq![
        ("PORT"@, decimal(cfg.kosync_port as nat)),
        ("DATABASE_PATH"@, db),
        ("TOKEN_ENC_KEY"@, cfg.token_enc_key@),
        ("REGISTRATION_DISABLED"@, "1"@),
        ("FINISHED_THRESHOLD"@, "0.95"@),
        ("READLOOP_SEED_SECRET"@, cfg.seed_secret@),
    ]
}

/// `s` launches the delivery service for `cfg` from `paths`, its
/// environment the PnP part `pnp` followed by its own.
pub open spec fn is_opds_spec(
    paths: Paths,
    cfg: AppConfig,
    pnp: Seq<(Seq<char>, Seq<char>)>,
    s: ServiceSpec,
) -> bool {
    &&& s.name@ == SVC_OPDS@
    &&& s.node@ == paths.node@
    &&& (!verbatim(paths.opds_dir@) ==> joined(paths.opds_dir@, "dist/server.js"@, s.entry@))
    &&& s.cwd@ == paths.opds_dir@
    &&& (!verbatim(paths.log_dir@) ==> joined(paths.log_dir@, "news2reader.log"@, s.log@))
    &&& (!platform_dependent_base(paths.opds_dir@) ==> s.entry@ == slash_joined(
        paths.opds_dir@,
        "dist/server.js"@,
    ))
    &&& (!platform_dependent_base(paths.log_dir@) ==> s.log@ == slash_joined(
        paths.log_dir@,
        "news2reader.log"@,
    ))
    &&& s.port == cfg.opds_port
    &&& env_view(s.env@) == pnp + opds_env(cfg)
}

/// `s` launches the archive service for `cfg` from `paths`, its environment
/// the PnP part `pnp` followed by its own, with the database in the data
/// directory.
pub open spec fn is_kosync_spec(
    paths: Paths,
    cfg: AppConfig,
    pnp: Seq<(Seq<char>, Seq<char>)>,
    s: ServiceSpec,
) -> bool {
    &&& s.name@ == SVC_KOSYNC@
    &&& s.node@ == paths.node@
    &&& (!verbatim(paths.kosync_dir@) ==> joined(paths.kosync_dir@, "dist/index.js"@, s.entry@))
    &&& s.cwd@ == paths.kosync_dir@
    &&& (!verbatim(paths.log_dir@) ==> joined(paths.log_dir@, "crosspoint-sync.log"@, s.log@))
    &&& (!platform_dependent_base(paths.kosync_dir@) ==> s.entry@ == slash_joined(
        paths.kosync_dir@,
        "dist/index.js"@,
    ))
    &&& (!platform_dependent_base(paths.log_dir@) ==> s.log@ == slash_joined(
        paths.log_dir@,
        "crosspoint-sync.log"@,
    ))
    &&& (!platform_dependent_base(paths.data_dir@) ==> env_view(s.env@) == pnp + kosync_env(
        cfg,
        slash_joined(paths.data_dir@, "crosspoint.db"@),
    ))
    &&& s.port == cfg.kosync_port
    &&& exists|db: Seq<char>|
        #![trigger kosync_env(cfg, db)]
        {
            &&& (!verbatim(paths.data_dir@) ==> joined(paths.data_dir@, "crosspoint.db"@, db))
            &&& env_view(s.env@) == pnp + kosync_env(cfg, db)
        }
}

fn text_pair(k: &str, v: String) -> (r: (String, String))
    ensures
        pair_view(r) == (k@, v@),
{
    (String::from_str(k), v)
}

fn decimal_text(n: u16) -> (r: String)
    ensures
        r@ == decimal(n as nat),
{
    let mut r = String::new();
    push_decimal(&mut r, n as u64);
    r
}

/// The launch specification of the delivery service.
pub fn opds_spec(paths: &Paths, cfg: &AppConfig, pnp: Vec<(String, String)>) -> (r: ServiceSpec)
    ensures
        is_opds_spec(*paths, *cfg, env_view(pnp@), r),
{
    proof {
        reveal_strlit("dist/server.js");
        reveal_strlit("news2reader.log");
    }
    let mut seed = loopback_url(cfg.kosync_port);
    seed.append("/readloop/seed-progress");
    let mut env = pnp;
    let ghost start = env@;
    env.push(text_pair("PORT", decimal_text(cfg.opds_port)));
    env.push(text_pair("READWISE_TOKEN", cfg.readwise_token.clone()));
    env.push(text_pair("OPDS_PROVIDERS", String::from_str("readwise")));
    env.push(text_pair("OPDS_AUTH_USER", cfg.opds_user.clone()));
    env.push(text_pair("OPDS_AUTH_PASS", cfg.opds_pass.clone()));
    env.push(text_pair("READWISE_IMAGES", String::from_str("transcode")));
    env.push(text_pair("READWISE_FEED_LIMIT", String::from_str("40")));
    env.push(text_pair("READLOOP_SEED_URL", seed));
    env.push(text_pair("READLOOP_SEED_SECRET", cfg.seed_secret.clone()));
    env.push(text_pair("READLOOP_SEED_USER", cfg.kosync_user.clone()));
    assert(env_view(env@) =~= env_view(start) + opds_env(*cfg));
    ServiceSpec {
        name: String::from_str(SVC_OPDS),
        node: paths.node.clone(),
        entry: join_dir(paths.opds_dir.as_str(), "dist/server.js"),
        cwd: paths.opds_dir.clone(),
        env,
        log: join_dir(paths.log_dir.as_str(), "news2reader.log"),
        port: cfg.opds_port,
    }
}

/// The launch specification of the archive service.
pub fn kosync_spec(paths: &Paths, cfg: &AppConfig, pnp: Vec<(String, String)>) -> (r: ServiceSpec)
    ensures
        is_kosync_spec(*paths, *cfg, env_view(pnp@), r),
{
    proof {
        reveal_strlit("dist/index.js");
        reveal_strlit("crosspoint-sync.log");
        reveal_strlit("crosspoint.db");
    }
    let db = join_dir(paths.data_dir.as_str(), "crosspoint.db");
    assert(!verbatim(paths.data_dir@) ==> joined(paths.data_dir@, "crosspoint.db"@, db@));
    let ghost db_view = db@;
    let mut env = pnp;
    let ghost start = env@;
    env.push(text_pair("PORT", decimal_text(cfg.kosync_port)));
    env.push(text_pair("DATABASE_PATH", db));
    env.push(text_pair("TOKEN_ENC_KEY", cfg.token_enc_key.clone()));
    env.push(text_pair("REGISTRATION_DISABLED", String::from_str("1")));
    env.push(text_pair("FINISHED_THRESHOLD", String::from_str("0.95")));
    env.push(text_pair("READLOOP_SEED_SECRET", cfg.seed_secret.clone()));
    assert(env_view(env@) =~= env_view(start) + kosync_env(*cfg, db_view));
    let r = ServiceSpec {
        name: String::from_str(SVC_KOSYNC),
        node: paths.node.clone(),
        entry: join_dir(paths.kosync_dir.as_str(), "dist/index.js"),
        cwd: paths.kosync_dir.clone(),
        env,
        log: join_dir(paths.log_dir.as_str(), "crosspoint-sync.log"),
        port: cfg.kosync_port,
    };
    assert({
        &&& (!verbatim(paths.data_dir@) ==> joined(paths.data_dir@, "crosspoint.db"@, db_view))
        &&& env_view(r.env@) == env_view(pnp@) + kosync_env(*cfg, db_view)
    });
    r
}

/// What starting the services comes to: launch these in order, then link
/// the Readwise Reader connector with these settings.
pub struct StartPlan {
    /// Services to launch, in order.
    pub services: Vec<ServiceSpec>,
    /// Archive port the connector is linked through.
    pub link_port: u16,
    /// KOSync account.
    pub link_user: String,
    /// Its password.
    pub link_pass: String,
    /// Readwise token to store as the connector credential.
    pub link_token: String,
}

/// The error when no token has been entered.
pub open spec fn no_token_message() -> Seq<char> {
    "Add your Readwise token first."@
}

/// Start both services. Without a token nothing starts. The archive starts
/// first so that its seed endpoint is up before delivery seeds positions;
/// then the connector is linked (idempotently) with the configured account
/// and token. `opds_pnp` and `kosync_pnp` are the PnP environments of the
/// two service directories.
pub fn start_all(cfg: &AppConfig, paths: &Paths, opds_pnp: Vec<(String, String)>, kosync_pnp: Vec<(String, String)>) -> (r: Result<StartPlan, String>)
    ensures
        !has_token(cfg.readwise_token@) ==> (r matches Err(e) && e@ == no_token_message()),
        has_token(cfg.readwise_token@) ==> (r matches Ok(p) && {
            &&& p.services@.len() == 2
            &&& is_kosync_spec(*paths, *cfg, env_view(kosync_pnp@), p.services@[0])
            &&& is_opds_spec(*paths, *cfg, env_view(opds_pnp@), p.services@[1])
            &&& p.link_port == cfg.kosync_port
            &&& p.link_user@ == cfg.kosync_user@
            &&& p.link_pass@ == cfg.kosync_pass@
            &&& p.link_token@ == cfg.readwise_token@
        }),
{
    if !cfg.is_configured() {
        return Err(String::from_str("Add your Readwise token first."));
    }
    let ghost kp = env_view(kosync_pnp@);
    let ghost op = env_view(opds_pnp@);
    let k = kosync_spec(paths, cfg, kosync_pnp);
    let o = opds_spec(paths, cfg, opds_pnp);
    let mut services: Vec<ServiceSpec> = Vec::new();
    services.push(k);
    services.push(o);
    Ok(StartPlan {
        services,
        link_port: cfg.kosync_port,
        link_user: cfg.kosync_user.clone(),
        link_pass: cfg.kosync_pass.clone(),
        link_token: cfg.readwise_token.clone(),
    })
}

/// The next step of carrying out a start plan.
pub enum StartAction {
    /// Launch the plan's service at this index, and report how it went.
    Launch(usize),
    /// Every service started: link the connector (in the background) and
    /// report success.
    LinkAndSucceed,
    /// A launch failed: stop here with this error; services already started
    /// keep running.
    Fail(String),
}

/// The first step of a plan: launch its first service (or, with none, link
/// at once).
pub fn first_action(plan: &StartPlan) -> (a: StartAction)
    ensures
        plan.services@.len() > 0 ==> (a matches StartAction::Launch(i) && i == 0),
        plan.services@.len() == 0 ==> a is LinkAndSucceed,
{
    if plan.services.len() > 0 {
        StartAction::Launch(0)
    } else {
        StartAction::LinkAndSucceed
    }
}

/// After launching service `i` of the plan with outcome `r`: the first
/// failure ends the run with its error, before any later service and
/// without linking; success moves on to the next service, and after the
/// last one to linking.
pub fn after_launch(plan: &StartPlan, i: usize, r: Result<(), String>) -> (a: StartAction)
    requires
        i < plan.services@.len(),
    ensures
        match r {
            Err(e) => a matches StartAction::Fail(m) && m@ == e@,
            Ok(_) => if i + 1 < plan.services@.len() {
                a matches StartAction::Launch(j) && j == i + 1
            } else {
                a is LinkAndSucceed
            },
        },
{
    match r {
        Err(e) => StartAction::Fail(e),
        Ok(_) => {
            if i < plan.services.len() - 1 {
                StartAction::Launch(i + 1)
            } else {
                StartAction::LinkAndSucceed
            }
        },
    }
}

} // verus!
