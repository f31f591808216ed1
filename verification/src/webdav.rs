//! Sending files to the CrossPoint device over WebDAV. The device accepts
//! real writes via PUT, so files are uploaded directly. Here are the device
//! addresses, the reading of a probe's answer and of an upload's outcome;
//! the requests themselves are made outside the library.

use crate::http::HttpReply;
use crate::paths::verbatim;
use crate::text::contains;
use crate::text::contains_seq;
use crate::text::decimal;
use crate::text::push_decimal;
use crate::text::starts_with;
use crate::text::strip_trailing;
use crate::text::strip_trailing_char;
use crate::text::trim;
use crate::text::trimmed;
use std::path::Path;
use vstd::prelude::*;
use vstd::string::*;

verus! {

/// The device's base URL for a host as entered: surrounding white space and
/// trailing slashes dropped; a bare host or IP gets `http://`, a full URL is
/// kept.
pub open spec fn device_base(host: Seq<char>) -> Seq<char> {
    let h = strip_trailing(trimmed(host), '/');
    if "http://"@.is_prefix_of(h) || "https://"@.is_prefix_of(h) {
        h
    } else {
        "http://"@ + h
    }
}

/// The device's base URL for a host as entered (see [`device_base`]).
pub fn base(host: &str) -> (r: String)
    ensures
        r@ == device_base(host@),
{
    let t = trim(host);
    let h = strip_trailing_char(t.as_str(), '/');
    if starts_with(h.as_str(), "http://") || starts_with(h.as_str(), "https://") {
        h
    } else {
        let mut r = String::from_str("http://");
        r.append(h.as_str());
        r
    }
}

/// Whether the device's WebDAV server is up and accepting writes.
pub struct WebdavStatus {
    /// The device answered at all.
    pub reachable: bool,
    /// It's a WebDAV server that accepts uploads (PUT).
    pub writable: bool,
    /// What went wrong, for the user (empty when writable).
    pub error: String,
}

/// How the `OPTIONS` probe of the device ended.
pub enum Probe {
    /// It answered with a success status; its `Allow` and `DAV` headers
    /// (empty where absent).
    Answered { allow: String, dav: String },
    /// It answered with an error status.
    Status(u16),
    /// Nothing answered.
    NoResponse,
}

/// What `str::to_uppercase` gives: the full Unicode upper-case mapping.
pub uninterp spec fn upper_case(s: Seq<char>) -> Seq<char>;

/// `str::to_uppercase`: the result is named, being a function of the text.
#[verifier::external_body]
fn to_upper(s: &str) -> (r: String)
    ensures
        r@ == upper_case(s@),
{
    s.to_uppercase()
}

/// A device that answered is writable if its upper-cased `Allow` header
/// lists PUT or it sends a `DAV` header.
pub open spec fn writable_answer(allow_upper: Seq<char>, dav: Seq<char>) -> bool {
    contains_seq(allow_upper, "PUT"@) || dav.len() > 0
}

/// The status of a device that answered the probe with a success status,
/// given its upper-cased `Allow` header and its `DAV` header.
pub fn answered_status(allow_upper: &str, dav: &str) -> (s: WebdavStatus)
    ensures
        s.reachable,
        s.writable == writable_answer(allow_upper@, dav@),
        s.writable ==> s.error@.len() == 0,
        !s.writable ==> s.error@ == "Reachable, but not a WebDAV server"@,
{
    let writable = contains(allow_upper, "PUT") || !dav.is_empty();
    let error = if writable {
        String::new()
    } else {
        String::from_str("Reachable, but not a WebDAV server")
    };
    WebdavStatus { reachable: true, writable, error }
}

/// The error shown when no address was entered.
pub open spec fn no_address_message() -> Seq<char> {
    "Enter the device's address"@
}

/// The status for a probe's outcome. An error status still means something
/// answered on that port. A device is writable if its `Allow` header lists
/// PUT (in any case) or it sends a `DAV` header.
pub open spec fn probe_status(p: Probe, s: WebdavStatus) -> bool {
    match p {
        Probe::Answered { allow, dav } => {
            let w = writable_answer(upper_case(allow@), dav@);
            &&& s.reachable
            &&& s.writable == w
            &&& if w {
                s.error@.len() == 0
            } else {
                s.error@ == "Reachable, but not a WebDAV server"@
            }
        },
        Probe::Status(code) => {
            &&& s.reachable
            &&& !s.writable
            &&& s.error@ == "HTTP "@ + decimal(code as nat)
        },
        Probe::NoResponse => {
            &&& !s.reachable
            &&& !s.writable
            &&& s.error@ == "No response \u{2014} is File Transfer on and on the same Wi-Fi?"@
        },
    }
}

/// Where to probe: `<base>/`, or `None` when no address was entered (then
/// nothing is to be probed).
pub fn probe_url(host: &str) -> (r: Option<String>)
    ensures
        trimmed(host@).len() == 0 ==> r is None,
        trimmed(host@).len() > 0 ==> (r matches Some(u) && u@ == device_base(host@) + "/"@),
{
    let t = trim(host);
    if t.as_str().is_empty() {
        None
    } else {
        let mut u = base(host);
        u.append("/");
        Some(u)
    }
}

/// Probe the device: is its WebDAV server up and accepting writes? With no
/// address entered the user is asked for one, whatever `probe` holds;
/// otherwise `probe` is how the `OPTIONS` request to [`probe_url`] ended.
pub fn check(host: &str, probe: Probe) -> (s: WebdavStatus)
    ensures
        trimmed(host@).len() == 0 ==> !s.reachable && !s.writable && s.error@
            == no_address_message(),
        trimmed(host@).len() > 0 ==> probe_status(probe, s),
{
    let t = trim(host);
    if t.as_str().is_empty() {
        return WebdavStatus {
            reachable: false,
            writable: false,
            error: String::from_str("Enter the device's address"),
        };
    }
    match probe {
        Probe::Answered { allow, dav } => {
            let up = to_upper(allow.as_str());
            answered_status(up.as_str(), dav.as_str())
        },
        Probe::Status(code) => {
            let mut e = String::from_str("HTTP ");
            push_decimal(&mut e, code as u64);
            WebdavStatus { reachable: true, writable: false, error: e }
        },
        Probe::NoResponse => WebdavStatus {
            reachable: false,
            writable: false,
            error: String::from_str("No response \u{2014} is File Transfer on and on the same Wi-Fi?"),
        },
    }
}

/// A byte kept as is by percent-encoding: ASCII alphanumerics and `-_.~`.
pub open spec fn unreserved(b: u8) -> bool {
    ||| 48 <= b <= 57
    ||| 65 <= b <= 90
    ||| 97 <= b <= 122
    ||| b == 45
    ||| b == 46
    ||| b == 95
    ||| b == 126
}

/// The upper-case hex digit of `d < 16`.
pub open spec fn upper_hex_char(d: int) -> char {
    if d < 10 {
        (48 + d) as char
    } else {
        (55 + d) as char
    }
}

/// Percent-encoding of bytes: unreserved bytes kept, every other byte as
/// `%` and two upper-case hex digits.
pub open spec fn percent_encoded(bytes: Seq<u8>) -> Seq<char>
    decreases bytes.len(),
{
    if bytes.len() == 0 {
        Seq::<char>::empty()
    } else {
        let b: u8 = bytes[0];
        let head = if unreserved(b) {
            seq![b as char]
        } else {
            seq!['%', upper_hex_char((b / 16) as int), upper_hex_char((b % 16) as int)]
        };
        head + percent_encoded(bytes.drop_first())
    }
}

/// `urlencoding::encode`: percent-encodes every byte of the UTF-8 text
/// except alphanumerics and `-`, `_`, `.`, `~`, with upper-case hex digits.
#[verifier::external_body]
fn url_encode(s: &str) -> (r: String)
    ensures
        r@ == percent_encoded(s.spec_bytes()),
{
    urlencoding::encode(s).into_owned()
}

/// A path whose final component every platform reads alike: no `\`, no
/// leading drive (`X:` with an ASCII letter, a Windows prefix), and no
/// leading `//` (a network prefix on Windows). A `:` elsewhere is an
/// ordinary character everywhere.
pub open spec fn portable_path(p: Seq<char>) -> bool {
    &&& !p.contains('\\')
    &&& !(p.len() >= 2 && p[1] == ':' && (('A' <= p[0] && p[0] <= 'Z') || ('a' <= p[0] && p[0] <= 'z')))
    &&& !(p.len() >= 2 && p[0] == '/' && p[1] == '/')
}

/// The run of characters after the last `/` (all of `p` if it has none).
pub open spec fn last_segment(p: Seq<char>) -> Seq<char>
    decreases p.len(),
{
    if p.len() == 0 || p.last() == '/' {
        Seq::<char>::empty()
    } else {
        last_segment(p.drop_last()).push(p.last())
    }
}

/// The file name `Path::file_name` gives for a portable path: trailing `/`
/// and `.` components are dropped; there is none when nothing remains or
/// the last component is `..`; otherwise it is the last component.
pub open spec fn file_name_spec(p: Seq<char>) -> Option<Seq<char>>
    decreases p.len(),
{
    if p.len() == 0 {
        None
    } else if p.last() == '/' {
        file_name_spec(p.drop_last())
    } else if last_segment(p) == "."@ {
        file_name_spec(p.drop_last())
    } else if last_segment(p) == ".."@ {
        None
    } else {
        Some(last_segment(p))
    }
}

/// The view of an optional string.
pub open spec fn opt_text(o: Option<String>) -> Option<Seq<char>> {
    match o {
        Some(s) => Some(s@),
        None => None,
    }
}

/// `Path::file_name` of a text path, as text. Its documentation gives the
/// final component when it is a normal one (`None` when the path ends in
/// `..` or has only a root or prefix); `Path`'s component rules drop empty
/// and `.` components after the first. For a portable path that is
/// [`file_name_spec`]. For other paths that are not Windows verbatim paths
/// (in which `/` is no separator) only this is stated: a name is a non-empty
/// run of the path without `/` and is not `..`; which run, by Windows' rules
/// for `\` and prefixes, is left unsaid.
#[verifier::external_body]
fn file_name_of(path: &str) -> (r: Option<String>)
    ensures
        r matches Some(n) ==> (!verbatim(path@) ==> n@.len() > 0 && !n@.contains('/') && n@
            != ".."@ && contains_seq(path@, n@)),
        portable_path(path@) ==> opt_text(r) == file_name_spec(path@),
{
    match Path::new(path).file_name() {
        Some(n) => match n.to_str() {
            Some(s) => Some(s.to_string()),
            None => None,
        },
        None => None,
    }
}

/// Where one file goes: its name, and `<base>/<name percent-encoded>`.
pub struct UploadTarget {
    pub name: String,
    pub url: String,
}

/// The upload URL of a file name on a device.
pub open spec fn upload_url(host: Seq<char>, name: Seq<char>) -> Seq<char> {
    device_base(host) + "/"@ + percent_encoded(vstd::utf8::encode_utf8(name))
}

/// PUT one local file to the device's WebDAV root, keyed by its file name:
/// where it goes, or `bad filename` when the path names no file. For a
/// portable path the name is [`file_name_spec`]'s, and the error comes
/// exactly when that has none.
pub fn upload(host: &str, file_path: &str) -> (r: Result<UploadTarget, String>)
    ensures
        match r {
            Ok(t) => {
                &&& t.url@ == upload_url(host@, t.name@)
                &&& !verbatim(file_path@) ==> {
                    &&& t.name@.len() > 0
                    &&& !t.name@.contains('/')
                    &&& t.name@ != ".."@
                    &&& contains_seq(file_path@, t.name@)
                }
            },
            Err(e) => e@ == "bad filename"@,
        },
        portable_path(file_path@) ==> match r {
            Ok(t) => file_name_spec(file_path@) == Some(t.name@),
            Err(_) => file_name_spec(file_path@) is None,
        },
{
    match file_name_of(file_path) {
        None => Err(String::from_str("bad filename")),
        Some(name) => {
            let mut url = base(host);
            url.append("/");
            let enc = url_encode(name.as_str());
            url.append(enc.as_str());
            Ok(UploadTarget { name, url })
        },
    }
}

/// The error for a file that could not be read: `read <name>: <reason>`.
pub fn read_error(name: &str, reason: &str) -> (r: String)
    ensures
        r@ == "read "@ + name@ + ": "@ + reason@,
{
    let mut m = String::from_str("read ");
    m.append(name);
    m.append(": ");
    m.append(reason);
    m
}

/// The outcome of the PUT: success; a status the device answered with; or
/// the transport's error.
pub fn upload_result(reply: HttpReply) -> (r: Result<(), String>)
    ensures
        match reply {
            HttpReply::Done => r is Ok,
            HttpReply::Status(code, _) => r matches Err(e) && e@
                == "device rejected upload (HTTP "@ + decimal(code as nat) + ")"@,
            HttpReply::Failed(t) => r matches Err(e) && e@ == t@,
        },
{
    match reply {
        HttpReply::Done => Ok(()),
        HttpReply::Status(code, _) => {
            let mut m = String::from_str("device rejected upload (HTTP ");
            push_decimal(&mut m, code as u64);
            m.append(")");
            Err(m)
        },
        HttpReply::Failed(t) => Err(t),
    }
}

} // verus!
