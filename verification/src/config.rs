//! The persisted app configuration: the Readwise token, service ports,
//! generated credentials and secrets, and the device address. Reading and
//! writing the JSON file happens outside the library; here are the values,
//! their defaults and the in-memory edits.

use crate::paths::join_dir;
use crate::paths::joined;
use crate::text::is_lower_hex_digit;
use crate::text::lower_hex_digit;
use crate::text::push_char;
use crate::text::trim;
use crate::text::trimmed;
use rand::Rng;
use vstd::prelude::*;
use vstd::string::*;

verus! {

/// User-facing and generated settings. Secrets (Readwise token, encryption
/// key, kosync password) live here too.
#[derive(Debug, Clone)]
pub struct AppConfig {
    /// Readwise Reader API token.
    pub readwise_token: String,
    /// Port of the delivery (OPDS) service.
    pub opds_port: u16,
    /// Port of the archive (KOSync) service.
    pub kosync_port: u16,
    /// Basic-auth user guarding the OPDS feed.
    pub opds_user: String,
    /// Basic-auth password guarding the OPDS feed.
    pub opds_pass: String,
    /// KOSync account the device signs up / logs in with.
    pub kosync_user: String,
    /// Password of that KOSync account.
    pub kosync_pass: String,
    /// Encrypts crosspoint-sync's stored connector credentials at rest.
    pub token_enc_key: String,
    /// Shared secret the OPDS server uses to pre-seed reading positions into
    /// crosspoint-sync at download time.
    pub seed_secret: String,
    /// Last known LAN address of the device.
    pub x3_host: String,
    /// Start the services when the app launches.
    pub autostart_services: bool,
}

/// Characters of generated passwords: URL-safe, without the look-alikes
/// `0 O 1 I l`.
pub const PASSWORD_CHARS: &'static str = "ABCDEFGHJKLMNPQRSTUVWXYZabcdefghijkmnopqrstuvwxyz23456789";

/// Length of a generated password.
pub const PASSWORD_LEN: usize = 16;

/// Length of the generated encryption key: 64 hex digits, 32 bytes.
pub const ENC_KEY_LEN: usize = 64;

/// The default delivery port.
pub open spec fn spec_default_opds_port() -> u16 {
    8080
}

/// The default archive port.
pub open spec fn spec_default_kosync_port() -> u16 {
    7200
}

/// The default user name for both services.
pub open spec fn default_user_name() -> Seq<char> {
    "readloop"@
}

/// A generated password: sixteen characters of the password alphabet.
pub open spec fn valid_password(p: Seq<char>) -> bool {
    &&& p.len() == PASSWORD_LEN
    &&& forall|i: int| 0 <= i < p.len() ==> PASSWORD_CHARS@.contains(#[trigger] p[i])
}

/// A generated encryption key: 64 lower-case hex digits.
pub open spec fn valid_enc_key(k: Seq<char>) -> bool {
    &&& k.len() == ENC_KEY_LEN
    &&& forall|i: int| 0 <= i < k.len() ==> is_lower_hex_digit(#[trigger] k[i])
}

/// The default delivery port.
pub fn default_opds_port() -> (r: u16)
    ensures
        r == spec_default_opds_port(),
{
    8080
}

/// The default archive port.
pub fn default_kosync_port() -> (r: u16)
    ensures
        r == spec_default_kosync_port(),
{
    7200
}

/// The default user name for both services.
pub fn default_user() -> (r: String)
    ensures
        r@ == default_user_name(),
{
    String::from_str("readloop")
}

/// Services start with the app unless turned off.
pub fn default_true() -> (r: bool)
    ensures
        r,
{
    true
}

/// `rand::thread_rng().gen_range(0..n)`: rand documents a value drawn from the
/// range, which must not be empty. Which value comes is left open.
#[verifier::external_body]
fn random_below(n: usize) -> (r: usize)
    requires
        n > 0,
    ensures
        r < n,
{
    rand::thread_rng().gen_range(0..n)
}

/// The text spelled by indices into the password alphabet.
pub open spec fn password_text(idx: Seq<usize>) -> Seq<char> {
    idx.map_values(|i: usize| PASSWORD_CHARS@[i as int])
}

/// The text spelled by hex digit values, in lower-case hex.
pub open spec fn enc_key_text(digits: Seq<usize>) -> Seq<char> {
    digits.map_values(|d: usize| crate::text::lower_hex_char(d as int))
}

/// The password spelled by the drawn indices into the password alphabet.
pub fn password_from(idx: &Vec<usize>) -> (r: String)
    requires
        forall|i: int| 0 <= i < idx@.len() ==> idx@[i] < PASSWORD_CHARS@.len(),
    ensures
        r@ == password_text(idx@),
{
    let mut r = String::new();
    let mut i: usize = 0;
    while i < idx.len()
        invariant
            i <= idx.len(),
            forall|j: int| 0 <= j < idx@.len() ==> idx@[j] < PASSWORD_CHARS@.len(),
            r@ == password_text(idx@.take(i as int)),
        decreases idx.len() - i,
    {
        let c = PASSWORD_CHARS.get_char(idx[i]);
        push_char(&mut r, c);
        assert(password_text(idx@.take(i + 1)) =~= password_text(idx@.take(i as int)).push(c));
        i = i + 1;
    }
    assert(idx@.take(idx.len() as int) =~= idx@);
    r
}

/// The key spelled by the drawn hex digit values.
pub fn enc_key_from(digits: &Vec<usize>) -> (r: String)
    requires
        forall|i: int| 0 <= i < digits@.len() ==> digits@[i] < 16,
    ensures
        r@ == enc_key_text(digits@),
{
    let mut r = String::new();
    let mut i: usize = 0;
    while i < digits.len()
        invariant
            i <= digits.len(),
            forall|j: int| 0 <= j < digits@.len() ==> digits@[j] < 16,
            r@ == enc_key_text(digits@.take(i as int)),
        decreases digits.len() - i,
    {
        let d: usize = digits[i];
        let c = lower_hex_digit(d as u8);
        push_char(&mut r, c);
        assert(enc_key_text(digits@.take(i + 1)) =~= enc_key_text(digits@.take(i as int)).push(c));
        i = i + 1;
    }
    assert(digits@.take(digits.len() as int) =~= digits@);
    r
}

fn draw(count: usize, n: usize) -> (r: Vec<usize>)
    requires
        n > 0,
    ensures
        r@.len() == count,
        forall|i: int| 0 <= i < r@.len() ==> r@[i] < n,
{
    let mut r: Vec<usize> = Vec::new();
    let mut i: usize = 0;
    while i < count
        invariant
            n > 0,
            i <= count,
            r@.len() == i,
            forall|j: int| 0 <= j < r@.len() ==> r@[j] < n,
        decreases count - i,
    {
        r.push(random_below(n));
        i = i + 1;
    }
    r
}

/// A random password: sixteen characters drawn from the password alphabet.
pub fn gen_password() -> (r: String)
    ensures
        valid_password(r@),
        exists|idx: Seq<usize>|
            idx.len() == PASSWORD_LEN && (forall|i: int| 0 <= i < idx.len() ==> idx[i]
                < PASSWORD_CHARS@.len()) && r@ == #[trigger] password_text(idx),
{
    proof {
        reveal_strlit("ABCDEFGHJKLMNPQRSTUVWXYZabcdefghijkmnopqrstuvwxyz23456789");
    }
    let n: usize = PASSWORD_CHARS.unicode_len();
    let idx = draw(PASSWORD_LEN, n);
    let r = password_from(&idx);
    assert forall|j: int| 0 <= j < r@.len() implies PASSWORD_CHARS@.contains(#[trigger] r@[j]) by {
        assert(r@[j] == PASSWORD_CHARS@[idx@[j] as int]);
    }
    r
}

/// A random key of 64 lower-case hex digits (32 bytes), the form
/// crosspoint-sync's `TOKEN_ENC_KEY` expects.
pub fn gen_enc_key() -> (r: String)
    ensures
        valid_enc_key(r@),
        exists|digits: Seq<usize>|
            digits.len() == ENC_KEY_LEN && (forall|i: int| 0 <= i < digits.len() ==> digits[i]
                < 16) && r@ == #[trigger] enc_key_text(digits),
{
    let digits = draw(ENC_KEY_LEN, 16);
    let r = enc_key_from(&digits);
    assert forall|j: int| 0 <= j < r@.len() implies is_lower_hex_digit(#[trigger] r@[j]) by {
        assert(r@[j] == crate::text::lower_hex_char(digits@[j] as int));
    }
    r
}

/// What a fresh configuration holds: no token, no device address, the
/// default ports and user names, freshly generated credentials and secrets,
/// services set to start with the app.
pub open spec fn is_fresh(c: AppConfig) -> bool {
    &&& c.readwise_token@.len() == 0
    &&& c.opds_port == spec_default_opds_port()
    &&& c.kosync_port == spec_default_kosync_port()
    &&& c.opds_user@ == default_user_name()
    &&& valid_password(c.opds_pass@)
    &&& c.kosync_user@ == default_user_name()
    &&& valid_password(c.kosync_pass@)
    &&& valid_enc_key(c.token_enc_key@)
    &&& valid_password(c.seed_secret@)
    &&& c.x3_host@.len() == 0
    &&& c.autostart_services
}

/// Whether the token holds anything but white space.
pub open spec fn has_token(token: Seq<char>) -> bool {
    trimmed(token).len() > 0
}

impl Default for AppConfig {
    fn default() -> (r: AppConfig)
        ensures
            is_fresh(r),
    {
        AppConfig {
            readwise_token: String::new(),
            opds_port: default_opds_port(),
            kosync_port: default_kosync_port(),
            opds_user: default_user(),
            opds_pass: gen_password(),
            kosync_user: default_user(),
            kosync_pass: gen_password(),
            token_enc_key: gen_enc_key(),
            seed_secret: gen_password(),
            x3_host: String::new(),
            autostart_services: default_true(),
        }
    }
}

impl AppConfig {
    /// The configuration file inside `dir`.
    pub fn path(dir: &str) -> (r: String)
        ensures
            !crate::paths::verbatim(dir@) ==> joined(dir@, "config.json"@, r@),
            !crate::paths::platform_dependent_base(dir@) ==> r@ == crate::paths::slash_joined(
                dir@,
                "config.json"@,
            ),
    {
        proof {
            reveal_strlit("config.json");
        }
        join_dir(dir, "config.json")
    }

    /// The configuration to use after reading the stored file: what it held
    /// when it could be read and parsed (`stored`), else a fresh one, which
    /// is then to be written back (the second result).
    pub fn from_stored(stored: Option<AppConfig>) -> (r: (AppConfig, bool))
        ensures
            match stored {
                Some(c) => r.0 == c && !r.1,
                None => is_fresh(r.0) && r.1,
            },
    {
        match stored {
            Some(c) => (c, false),
            None => (AppConfig::default(), true),
        }
    }

    /// Whether a Readwise token is present; starting delivery requires one.
    pub fn is_configured(&self) -> (r: bool)
        ensures
            r == has_token(self.readwise_token@),
    {
        let t = trim(self.readwise_token.as_str());
        !t.as_str().is_empty()
    }

    /// Stores the token as entered, without surrounding white space.
    pub fn set_token(&mut self, token: &str)
        ensures
            final(self).readwise_token@ == trimmed(token@),
            same_except_token(*old(self), *final(self)),
    {
        self.readwise_token = trim(token);
    }

    /// Stores the device address as entered, without surrounding white space.
    pub fn set_x3_host(&mut self, host: &str)
        ensures
            final(self).x3_host@ == trimmed(host@),
            final(self).readwise_token == old(self).readwise_token,
            final(self).opds_port == old(self).opds_port,
            final(self).kosync_port == old(self).kosync_port,
            final(self).opds_user == old(self).opds_user,
            final(self).opds_pass == old(self).opds_pass,
            final(self).kosync_user == old(self).kosync_user,
            final(self).kosync_pass == old(self).kosync_pass,
            final(self).token_enc_key == old(self).token_enc_key,
            final(self).seed_secret == old(self).seed_secret,
            final(self).autostart_services == old(self).autostart_services,
    {
        self.x3_host = trim(host);
    }

    /// Turns starting the services with the app on or off.
    pub fn set_autostart(&mut self, on: bool)
        ensures
            final(self).autostart_services == on,
            final(self).readwise_token == old(self).readwise_token,
            final(self).opds_port == old(self).opds_port,
            final(self).kosync_port == old(self).kosync_port,
            final(self).opds_user == old(self).opds_user,
            final(self).opds_pass == old(self).opds_pass,
            final(self).kosync_user == old(self).kosync_user,
            final(self).kosync_pass == old(self).kosync_pass,
            final(self).token_enc_key == old(self).token_enc_key,
            final(self).seed_secret == old(self).seed_secret,
            final(self).x3_host == old(self).x3_host,
    {
        self.autostart_services = on;
    }
}

/// `a` and `b` agree on everything but the token.
pub open spec fn same_except_token(a: AppConfig, b: AppConfig) -> bool {
    &&& a.opds_port == b.opds_port
    &&& a.kosync_port == b.kosync_port
    &&& a.opds_user == b.opds_user
    &&& a.opds_pass == b.opds_pass
    &&& a.kosync_user == b.kosync_user
    &&& a.kosync_pass == b.kosync_pass
    &&& a.token_enc_key == b.token_enc_key
    &&& a.seed_secret == b.seed_secret
    &&& a.x3_host == b.x3_host
    &&& a.autostart_services == b.autostart_services
}

} // verus!
