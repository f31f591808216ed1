//! Filesystem locations as text: joining a relative path onto a directory,
//! and resolving the runtime locations of the bundled services.

use std::path::Path;
use vstd::prelude::*;

verus! {

/// A path separator on some platform: `/`, or `\` on Windows.
pub open spec fn is_sep(c: char) -> bool {
    c == '/' || c == '\\'
}

/// A bare Windows drive such as `C:`.
pub open spec fn drive_like(p: Seq<char>) -> bool {
    p.len() == 2 && p[1] == ':' && (('A' <= p[0] && p[0] <= 'Z') || ('a' <= p[0] && p[0] <= 'z'))
}

/// `r` is `base` extended by `tail` as `Path::join` extends it: after an
/// empty base or one ending in `/`, nothing is inserted; after a trailing
/// `\` or a bare drive, nothing on Windows and `/` elsewhere; otherwise one
/// separator, the platform's own (`/`, or `\` on Windows).
pub open spec fn joined(base: Seq<char>, tail: Seq<char>, r: Seq<char>) -> bool {
    if base.len() == 0 || base.last() == '/' {
        r == base + tail
    } else if base.last() == '\\' || drive_like(base) {
        r == base + tail || r == base + seq!['/'] + tail
    } else {
        r == base + seq!['/'] + tail || r == base + seq!['\\'] + tail
    }
}

/// A relative path with no root, drive or other prefix: it does not start
/// with a separator and holds no `:`.
pub open spec fn plain_relative(tail: Seq<char>) -> bool {
    &&& tail.len() > 0
    &&& tail[0] != '/'
    &&& tail[0] != '\\'
    &&& !tail.contains(':')
}

/// A Windows verbatim path (`\\?\...`), which `Path::join` normalizes.
pub open spec fn verbatim(base: Seq<char>) -> bool {
    base.len() >= 4 && base.subrange(0, 4) == seq!['\\', '\\', '?', '\\']
}

/// `Path::join` on text paths. For a plain relative `tail` and a base that is
/// not a verbatim path, std documents that joining a relative path extends the
/// base, adding a separator unless the base is empty, already ends in one, or
/// is a bare drive (see [`joined`]). Which separator the platform uses is left
/// open between `/` and `\`; verbatim bases, which Windows normalizes, are
/// left unsaid.
#[verifier::external_body]
pub(crate) fn join_path(base: &str, tail: &str) -> (r: String)
    ensures
        plain_relative(tail@) && !verbatim(base@) ==> joined(base@, tail@, r@),
{
    Path::new(base).join(tail).to_string_lossy().into_owned()
}

/// `base` extended by `tail` with `/`: nothing is inserted after an empty
/// base or one that already ends in `/`, else one `/`.
pub open spec fn slash_joined(base: Seq<char>, tail: Seq<char>) -> Seq<char> {
    if base.len() == 0 || base.last() == '/' {
        base + tail
    } else {
        base + seq!['/'] + tail
    }
}

/// A base whose joining differs between platforms: a verbatim path, one
/// ending in `\` (a separator only on Windows), or a bare drive.
pub open spec fn platform_dependent_base(base: Seq<char>) -> bool {
    ||| verbatim(base)
    ||| (base.len() > 0 && base.last() == '\\')
    ||| drive_like(base)
}

/// Joins a relative path onto a directory with `/`, which every supported
/// platform reads as a separator, so that the same path text comes out on
/// each: nothing is inserted after an empty base or a trailing `/`, else one
/// `/`. A base whose joining differs between platforms (see
/// [`platform_dependent_base`]) is joined by `Path::join`.
pub fn join_dir(base: &str, tail: &str) -> (r: String)
    ensures
        !platform_dependent_base(base@) ==> r@ == slash_joined(base@, tail@),
        plain_relative(tail@) && !verbatim(base@) ==> joined(base@, tail@, r@),
{
    let cs = crate::text::chars_of(base);
    let n: usize = cs.len();
    let is_verbatim = n >= 4 && cs[0] == '\\' && cs[1] == '\\' && cs[2] == '?' && cs[3] == '\\';
    let drive = n == 2 && cs[1] == ':' && (('A' <= cs[0] && cs[0] <= 'Z') || ('a' <= cs[0] && cs[0]
        <= 'z'));
    proof {
        if n >= 4 {
            assert(is_verbatim == (cs@.subrange(0, 4) =~= seq!['\\', '\\', '?', '\\']));
        }
    }
    if is_verbatim || drive || (n > 0 && cs[n - 1] == '\\') {
        return join_path(base, tail);
    }
    proof {
        assert(!drive_like(base@));
        assert(n > 0 ==> base@.last() == cs[n - 1]);
    }
    let mut r = String::from_str(base);
    if n > 0 && cs[n - 1] != '/' {
        crate::text::push_char(&mut r, '/');
    }
    r.append(tail);
    proof {
        if n > 0 && base@.last() != '/' {
            assert(r@ =~= base@ + seq!['/'] + tail@);
        } else {
            assert(r@ =~= base@ + tail@);
        }
    }
    r
}

/// `\\?`: the start of a verbatim path, which one joined separator would
/// complete into one.
pub open spec fn verbatim_stem(p: Seq<char>) -> bool {
    p == seq!['\\', '\\', '?']
}

/// Joining onto a base that neither is nor begins a verbatim path gives no
/// verbatim path.
proof fn lemma_join_not_verbatim(base: Seq<char>, tail: Seq<char>, r: Seq<char>)
    requires
        !verbatim(base),
        !verbatim_stem(base),
        plain_relative(tail),
        !tail.contains('?'),
        joined(base, tail, r),
    ensures
        !verbatim(r),
{
    if verbatim(r) {
        assert(r[2] == r.subrange(0, 4)[2]);
        assert(r[2] == '?');
        if base.len() >= 4 {
            assert forall|k: int| 0 <= k < 4 implies base.subrange(0, 4)[k] == r.subrange(0, 4)[k] by {
                assert(r[k] == base[k]);
            }
            assert(base.subrange(0, 4) =~= r.subrange(0, 4));
        } else if base.len() == 3 {
            assert forall|k: int| 0 <= k < 3 implies base[k] == r.subrange(0, 4)[k] by {
                assert(r[k] == base[k]);
            }
            assert(base =~= seq!['\\', '\\', '?']);
        } else if r == base + tail {
            assert(r[2] == tail[2 - base.len()]);
            assert(tail.contains(r[2]));
        } else if base.len() == 2 {
            assert(r[2] == '/' || r[2] == '\\');
        } else {
            assert(r[2] == tail[2 - base.len() - 1]);
            assert(tail.contains(r[2]));
        }
    }
}

/// Filesystem locations resolved once at startup.
pub struct Paths {
    /// The `node` runtime.
    pub node: String,
    /// The delivery service's package root.
    pub opds_dir: String,
    /// The archive service's package root.
    pub kosync_dir: String,
    /// Where the archive database lives.
    pub data_dir: String,
    /// Where the service logs go.
    pub log_dir: String,
}

/// The view of an optional string.
pub open spec fn opt_text(o: Option<String>) -> Option<Seq<char>> {
    match o {
        Some(s) => Some(s@),
        None => None,
    }
}

/// `o`, or `d` when it is absent.
pub open spec fn or_else(o: Option<Seq<char>>, d: Seq<char>) -> Seq<char> {
    match o {
        Some(s) => s,
        None => d,
    }
}

/// `r` is the override when there is one, else `base` joined with `tail`.
pub open spec fn overridden_or_joined(
    over: Option<Seq<char>>,
    base: Seq<char>,
    tail: Seq<char>,
    r: Seq<char>,
) -> bool {
    match over {
        Some(s) => r == s,
        None => joined(base, tail, r),
    }
}

/// The override when there is one, else `base` joined with `tail` by `/`.
pub open spec fn overridden_or_slash(over: Option<Seq<char>>, base: Seq<char>, tail: Seq<char>) -> Seq<char> {
    match over {
        Some(s) => s,
        None => slash_joined(base, tail),
    }
}

fn pick_or_join(over: Option<String>, base: &str, tail: &str) -> (r: String)
    ensures
        plain_relative(tail@) && !verbatim(base@) ==> overridden_or_joined(
            opt_text(over),
            base@,
            tail@,
            r@,
        ),
        !platform_dependent_base(base@) ==> r@ == overridden_or_slash(opt_text(over), base@, tail@),
{
    match over {
        Some(s) => s,
        None => join_dir(base, tail),
    }
}

/// Joining a name that starts with no separator onto a base that does not
/// depend on the platform, with `/`, gives a base that does not either.
proof fn lemma_slash_join_ordinary(base: Seq<char>, tail: Seq<char>)
    requires
        !platform_dependent_base(base),
        tail.len() >= 3,
        tail[0] != '\\',
        tail.last() != '\\',
    ensures
        !platform_dependent_base(slash_joined(base, tail)),
{
    let r = slash_joined(base, tail);
    assert(r.last() == tail.last());
    if verbatim(r) {
        assert(r[3] == r.subrange(0, 4)[3]);
        assert(r[2] == r.subrange(0, 4)[2]);
        if base.len() >= 4 {
            assert forall|k: int| 0 <= k < 4 implies base.subrange(0, 4)[k] == r.subrange(0, 4)[k] by {
                assert(r[k] == base[k]);
            }
            assert(base.subrange(0, 4) =~= r.subrange(0, 4));
        } else if base.len() == 0 {
            assert(r[0] == tail[0]);
            assert(r.subrange(0, 4)[0] == r[0]);
        } else if base.last() == '/' {
            assert(r[base.len() - 1] == '/');
            assert(r.subrange(0, 4)[base.len() - 1] == r[base.len() - 1]);
        } else {
            assert(r[base.len() as int] == '/');
            assert(r.subrange(0, 4)[base.len() as int] == r[base.len() as int]);
        }
    }
}

fn or_dot(o: Option<String>) -> (r: String)
    ensures
        r@ == or_else(opt_text(o), "."@),
{
    match o {
        Some(s) => s,
        None => String::from_str("."),
    }
}

/// What [`resolve_paths`] gives where the directories do not depend on the
/// platform: each service path is its override, else the services root
/// `<resource dir>/services` joined by `/` with `node/bin/node`,
/// `news2reader` or `crosspoint-sync`; the data directory is the one given
/// (else `.`), and the log directory the one given, else `<data dir>/logs`.
pub open spec fn resolved_with_slash(
    resource_dir: Option<String>,
    app_data_dir: Option<String>,
    app_log_dir: Option<String>,
    node_override: Option<String>,
    opds_override: Option<String>,
    kosync_override: Option<String>,
    r: Paths,
) -> bool {
    let resource = or_else(opt_text(resource_dir), "."@);
    let data = or_else(opt_text(app_data_dir), "."@);
    let root = slash_joined(resource, "services"@);
    &&& r.data_dir@ == data
    &&& !platform_dependent_base(resource) ==> {
        &&& r.node@ == overridden_or_slash(opt_text(node_override), root, "node/bin/node"@)
        &&& r.opds_dir@ == overridden_or_slash(opt_text(opds_override), root, "news2reader"@)
        &&& r.kosync_dir@ == overridden_or_slash(opt_text(kosync_override), root, "crosspoint-sync"@)
    }
    &&& !platform_dependent_base(data) ==> r.log_dir@ == overridden_or_slash(opt_text(app_log_dir), data, "logs"@)
}

/// Resolve runtime paths. The three overrides (the `RLS_NODE`,
/// `RLS_OPDS_DIR` and `RLS_KOSYNC_DIR` settings of dev builds) point at the
/// sibling repos; without them the bundled sidecars are found under
/// `<resource dir>/services`. A directory the platform did not give falls
/// back to `.`, and the log directory to `<data dir>/logs`. Joins use `/`
/// (see [`join_dir`] and [`resolved_with_slash`]); for every directory that
/// is not a Windows verbatim path (`\\?\...`, or its start `\\?`) they are
/// also what [`joined`] states.
pub fn resolve_paths(
    resource_dir: Option<String>,
    app_data_dir: Option<String>,
    app_log_dir: Option<String>,
    node_override: Option<String>,
    opds_override: Option<String>,
    kosync_override: Option<String>,
) -> (r: Paths)
    ensures
        ({
            let resource = or_else(opt_text(resource_dir), "."@);
            let data = or_else(opt_text(app_data_dir), "."@);
            !verbatim(resource) && !verbatim_stem(resource) && !verbatim(data) ==> {
                &&& exists|root: Seq<char>|
                    {
                        &&& joined(resource, "services"@, root)
                        &&& overridden_or_joined(opt_text(node_override), root, "node/bin/node"@, r.node@)
                        &&& overridden_or_joined(opt_text(opds_override), root, "news2reader"@, r.opds_dir@)
                        &&& overridden_or_joined(opt_text(kosync_override), root, "crosspoint-sync"@, r.kosync_dir@)
                    }
                &&& r.data_dir@ == data
                &&& overridden_or_joined(opt_text(app_log_dir), data, "logs"@, r.log_dir@)
            }
        }),
        resolved_with_slash(resource_dir, app_data_dir, app_log_dir, node_override, opds_override, kosync_override, r),
{
    proof {
        reveal_strlit("services");
        reveal_strlit("node/bin/node");
        reveal_strlit("news2reader");
        reveal_strlit("crosspoint-sync");
        reveal_strlit("logs");
        reveal_strlit(".");
    }
    let resource = or_dot(resource_dir);
    let root = join_dir(resource.as_str(), "services");
    proof {
        if !platform_dependent_base(resource@) {
            lemma_slash_join_ordinary(resource@, "services"@);
        }
        if !verbatim(resource@) && !verbatim_stem(resource@) {
            assert(plain_relative("services"@));
            assert(!"services"@.contains('?'));
            lemma_join_not_verbatim(resource@, "services"@, root@);
        }
    }
    let node = pick_or_join(node_override, root.as_str(), "node/bin/node");
    let opds_dir = pick_or_join(opds_override, root.as_str(), "news2reader");
    let kosync_dir = pick_or_join(kosync_override, root.as_str(), "crosspoint-sync");
    let data_dir = or_dot(app_data_dir);
    let log_dir = pick_or_join(app_log_dir, data_dir.as_str(), "logs");
    Paths { node, opds_dir, kosync_dir, data_dir, log_dir }
}

} // verus!
