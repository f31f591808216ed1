//! Auto-linking the Readwise Reader connector so archive-on-finish works
//! with no manual wiring: wait for crosspoint-sync to come up, make sure the
//! kosync user exists (the device uses the same account), then store the
//! connector credential. Every step is idempotent and best-effort. The
//! requests and the waiting happen outside the library; here are the
//! addresses, the credentials and the reading of each outcome.

use crate::http::loopback;
use crate::http::loopback_url;
use crate::http::HttpReply;
use crate::text::decimal;
use crate::text::hex_lower;
use crate::text::push_decimal;
use crate::text::push_hex_lower;
use vstd::prelude::*;
use vstd::string::*;

verus! {

/// How many times the health endpoint is probed before giving up.
pub const HEALTH_ATTEMPTS: u32 = 30;

/// How long to pause after a failed probe, in milliseconds.
pub const HEALTH_PAUSE_MS: u64 = 500;

/// How long one probe may take, in seconds.
pub const HEALTH_TIMEOUT_SECS: u64 = 2;

/// Waiting for crosspoint-sync to answer its health check: how many probes
/// were made.
pub struct HealthWait {
    tries: u32,
}

/// What to do next while waiting.
pub enum HealthAction {
    /// Probe the health endpoint and report whether it answered.
    Probe,
    /// Pause, then report back.
    Pause,
    /// It is up.
    Healthy,
    /// It did not come up in time.
    GiveUp,
}

impl HealthWait {
    /// The number of probes made so far.
    pub closed spec fn spec_tries(&self) -> nat {
        self.tries as nat
    }

    /// The number of probes made so far.
    pub fn tries(&self) -> (r: u32)
        ensures
            r == self.spec_tries(),
    {
        self.tries
    }

    /// Start waiting: probe first.
    pub fn new() -> (r: (HealthWait, HealthAction))
        ensures
            r.0.spec_tries() == 0,
            r.1 is Probe,
    {
        (HealthWait { tries: 0 }, HealthAction::Probe)
    }

    /// A probe answered (`ok`) or not: up, else pause. Counts the probe, up
    /// to the limit.
    pub fn probed(self, ok: bool) -> (r: (HealthWait, HealthAction))
        ensures
            self.spec_tries() < HEALTH_ATTEMPTS ==> r.0.spec_tries() == self.spec_tries() + 1,
            self.spec_tries() >= HEALTH_ATTEMPTS ==> r.0.spec_tries() == self.spec_tries(),
            ok ==> r.1 is Healthy,
            !ok ==> r.1 is Pause,
    {
        let tries: u32 = if self.tries < HEALTH_ATTEMPTS {
            self.tries + 1
        } else {
            self.tries
        };
        let a = if ok {
            HealthAction::Healthy
        } else {
            HealthAction::Pause
        };
        (HealthWait { tries }, a)
    }

    /// After a pause: probe again while fewer than the allowed number of
    /// probes were made, else give up.
    pub fn paused(self) -> (r: (HealthWait, HealthAction))
        ensures
            r.0.spec_tries() == self.spec_tries(),
            self.spec_tries() < HEALTH_ATTEMPTS ==> r.1 is Probe,
            self.spec_tries() >= HEALTH_ATTEMPTS ==> r.1 is GiveUp,
    {
        let t: u32 = self.tries;
        if t < HEALTH_ATTEMPTS {
            (self, HealthAction::Probe)
        } else {
            (self, HealthAction::GiveUp)
        }
    }
}

/// What the `md5` crate computes for the bytes: their MD5 digest.
pub uninterp spec fn md5_digest(data: Seq<u8>) -> Seq<u8>;

/// `md5::compute`: the digest's sixteen bytes. The result is named, being a
/// function of the input.
#[verifier::external_body]
fn md5_bytes(data: &[u8]) -> (r: [u8; 16])
    ensures
        r@ == md5_digest(data@),
{
    md5::compute(data).0
}

/// The kosync key of a password: the lower-case hex MD5 of its UTF-8 bytes.
pub open spec fn auth_key(pass: Seq<char>) -> Seq<char> {
    hex_lower(md5_digest(vstd::utf8::encode_utf8(pass)))
}

/// Stock kosync convention: `x-auth-key` is MD5(password) in lower-case hex.
pub fn md5_key(pass: &str) -> (r: String)
    ensures
        r@ == auth_key(pass@),
{
    let digest = md5_bytes(pass.as_bytes());
    let mut r = String::new();
    push_hex_lower(&mut r, &digest);
    r
}

/// The requests of one linking round against crosspoint-sync on the
/// loopback port.
pub struct LinkPlan {
    /// `GET`, until it answers.
    pub health_url: String,
    /// `POST {"username", "password"}` to make sure the user exists.
    pub create_user_url: String,
    /// `PUT {"credential": {"token"}}` to store the connector credential.
    pub connector_url: String,
    /// `x-auth-user` of the connector request.
    pub auth_user: String,
    /// `x-auth-key` of the connector request.
    pub auth_key: String,
}

/// The addresses and credentials of a linking round against crosspoint-sync
/// on `kosync_port`, for the account `user` with password `pass`.
pub fn link_plan(kosync_port: u16, user: &str, pass: &str) -> (r: LinkPlan)
    ensures
        r.health_url@ == loopback(kosync_port) + "/healthz"@,
        r.create_user_url@ == loopback(kosync_port) + "/users/create"@,
        r.connector_url@ == loopback(kosync_port) + "/api/v1/connectors/readwise-reader"@,
        r.auth_user@ == user@,
        r.auth_key@ == auth_key(pass@),
{
    let base = loopback_url(kosync_port);
    let mut health_url = base.clone();
    health_url.append("/healthz");
    let mut create_user_url = base.clone();
    create_user_url.append("/users/create");
    let mut connector_url = base.clone();
    connector_url.append("/api/v1/connectors/readwise-reader");
    LinkPlan {
        health_url,
        create_user_url,
        connector_url,
        auth_user: String::from_str(user),
        auth_key: md5_key(pass),
    }
}

/// The outcome of making sure the user exists. 402 means the user name is
/// already registered, which is the usual case on a restart.
pub fn ensure_user_result(reply: HttpReply) -> (r: Result<(), String>)
    ensures
        match reply {
            HttpReply::Done => r is Ok,
            HttpReply::Status(code, body) => if code == 402 {
                r is Ok
            } else {
                r matches Err(e) && e@ == "create "@ + decimal(code as nat) + ": "@ + body@
            },
            HttpReply::Failed(t) => r matches Err(e) && e@ == t@,
        },
{
    match reply {
        HttpReply::Done => Ok(()),
        HttpReply::Status(code, body) => {
            if code == 402 {
                Ok(())
            } else {
                let mut m = String::from_str("create ");
                push_decimal(&mut m, code as u64);
                m.append(": ");
                m.append(body.as_str());
                Err(m)
            }
        },
        HttpReply::Failed(t) => Err(t),
    }
}

/// The outcome of storing the connector credential.
pub fn link_result(reply: HttpReply) -> (r: Result<(), String>)
    ensures
        match reply {
            HttpReply::Done => r is Ok,
            HttpReply::Status(code, body) => r matches Err(e) && e@ == "link "@ + decimal(
                code as nat,
            ) + ": "@ + body@,
            HttpReply::Failed(t) => r matches Err(e) && e@ == t@,
        },
{
    match reply {
        HttpReply::Done => Ok(()),
        HttpReply::Status(code, body) => {
            let mut m = String::from_str("link ");
            push_decimal(&mut m, code as u64);
            m.append(": ");
            m.append(body.as_str());
            Err(m)
        },
        HttpReply::Failed(t) => Err(t),
    }
}

/// The next request of a linking round.
pub enum LinkAction {
    /// Make sure the user exists.
    CreateUser,
    /// Store the connector credential.
    StoreCredential,
    /// Nothing more to do.
    Stop,
}

/// After waiting for the health check: without an answer the round is
/// skipped (with a note for the log); otherwise the user comes first.
pub fn health_done(healthy: bool) -> (r: (LinkAction, Option<String>))
    ensures
        healthy ==> r.0 is CreateUser && r.1 is None,
        !healthy ==> r.0 is Stop && (r.1 matches Some(m) && m@
            == "autolink: crosspoint-sync did not come up; skipping"@),
{
    if healthy {
        (LinkAction::CreateUser, None)
    } else {
        (LinkAction::Stop, Some(String::from_str("autolink: crosspoint-sync did not come up; skipping")))
    }
}

/// After making sure the user exists: the credential is stored next
/// whatever came back; a failure is only noted for the log.
pub fn user_done(reply: HttpReply) -> (r: (LinkAction, Option<String>))
    ensures
        r.0 is StoreCredential,
        match reply {
            HttpReply::Done => r.1 is None,
            HttpReply::Status(code, body) => if code == 402 {
                r.1 is None
            } else {
                r.1 matches Some(m) && m@ == "autolink: ensure_user failed: "@ + ("create "@ + decimal(
                    code as nat,
                ) + ": "@ + body@)
            },
            HttpReply::Failed(t) => r.1 matches Some(m) && m@ == "autolink: ensure_user failed: "@
                + t@,
        },
{
    match ensure_user_result(reply) {
        Ok(()) => (LinkAction::StoreCredential, None),
        Err(e) => {
            let mut m = String::from_str("autolink: ensure_user failed: ");
            m.append(e.as_str());
            (LinkAction::StoreCredential, Some(m))
        },
    }
}

/// After storing the credential: the round ends, with a note for the log.
pub fn link_done(reply: HttpReply) -> (r: (LinkAction, String))
    ensures
        r.0 is Stop,
        match reply {
            HttpReply::Done => r.1@ == "autolink: readwise-reader connector linked"@,
            HttpReply::Status(code, body) => r.1@ == "autolink: link failed: "@ + ("link "@ + decimal(
                code as nat,
            ) + ": "@ + body@),
            HttpReply::Failed(t) => r.1@ == "autolink: link failed: "@ + t@,
        },
{
    match link_result(reply) {
        Ok(()) => (LinkAction::Stop, String::from_str("autolink: readwise-reader connector linked")),
        Err(e) => {
            let mut m = String::from_str("autolink: link failed: ");
            m.append(e.as_str());
            (LinkAction::Stop, m)
        },
    }
}

} // verus!
