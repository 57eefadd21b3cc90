use vstd::prelude::*;
use crate::config::{scheme_prefix, with_scheme};

verus! {

// ---------------------------------------------------------------------------
// Path resolution
// ---------------------------------------------------------------------------

/// `s` begins with `p` at position `start`.
pub open spec fn occurs_at(s: Seq<char>, start: int, p: Seq<char>) -> bool {
    0 <= start && start + p.len() <= s.len() && s.subrange(start, start + p.len()) == p
}

/// `s` with every leading repetition of the non-empty pattern `p` removed.
pub open spec fn strip_repeated(s: Seq<char>, p: Seq<char>) -> Seq<char>
    decreases s.len(),
{
    if p.len() > 0 && occurs_at(s, 0, p) {
        strip_repeated(s.subrange(p.len() as int, s.len() as int), p)
    } else {
        s
    }
}

/// The empty authority marker that may follow the scheme.
pub open spec fn authority_marker() -> Seq<char> {
    seq!['/', '/']
}

/// The filesystem path that a connection descriptor names: the scheme and then
/// the authority marker are stripped from its front.
pub open spec fn descriptor_path(d: Seq<char>) -> Seq<char> {
    strip_repeated(strip_repeated(d, scheme_prefix()), authority_marker())
}

/// A Unix path is absolute when it starts at the root.
pub open spec fn is_absolute(p: Seq<char>) -> bool {
    p.len() > 0 && p[0] == '/'
}

/// `rel` appended to `base`, with one separator between them when `base` is
/// non-empty and does not already end in one.
pub open spec fn join_path(base: Seq<char>, rel: Seq<char>) -> Seq<char> {
    if base.len() == 0 || base.last() == '/' {
        base + rel
    } else {
        base + seq!['/'] + rel
    }
}

/// The absolute path that descriptor `d` designates when the working
/// directory is `cwd`.
pub open spec fn resolved_path(d: Seq<char>, cwd: Seq<char>) -> Seq<char> {
    let p = descriptor_path(d);
    if is_absolute(p) {
        p
    } else {
        join_path(cwd, p)
    }
}

/// Errors of the database bootstrap.
#[derive(Clone, Debug)]
pub enum DbError {
    /// The working directory was needed and could not be determined.
    Environment,
    /// A filesystem operation on `path` failed.
    Filesystem { path: String, op: FsOp },
    /// The pool for `url` could not be opened, or did not answer the probe.
    Connection { url: String },
}

/// Filesystem operations of the provisioner that can fail.
#[derive(Clone, Copy, Debug, PartialEq, Eq, Structural)]
pub enum FsOp {
    CreateDir,
    CreateFile,
    ReadMetadata,
    SetPermissions,
}

fn occurs_at_exec(s: &str, start: usize, p: &str) -> (r: bool)
    requires
        start <= s@.len(),
    ensures
        r == occurs_at(s@, start as int, p@),
{
    let n = s.unicode_len();
    let m = p.unicode_len();
    if m > n - start {
        return false;
    }
    let mut i: usize = 0;
    while i < m
        invariant
            n == s@.len(),
            m == p@.len(),
            start + m <= n,
            i <= m,
            forall|k: int| 0 <= k < i ==> s@[start + k] == p@[k],
        decreases m - i,
    {
        if s.get_char(start + i) != p.get_char(i) {
            assert(s@.subrange(start as int, start + m)[i as int] != p@[i as int]);
            return false;
        }
        i = i + 1;
    }
    assert(s@.subrange(start as int, start + m) =~= p@);
    true
}

/// `s` with every leading repetition of the non-empty `p` removed.
fn strip_repeated_exec<'a>(s: &'a str, p: &str) -> (r: &'a str)
    requires
        p@.len() > 0,
    ensures
        r@ == strip_repeated(s@, p@),
{
    let n = s.unicode_len();
    let m = p.unicode_len();
    let mut i: usize = 0;
    assert(s@.subrange(0, n as int) =~= s@);
    while occurs_at_exec(s, i, p)
        invariant
            n == s@.len(),
            m == p@.len(),
            m > 0,
            i <= n,
            strip_repeated(s@.subrange(i as int, n as int), p@) == strip_repeated(s@, p@),
        decreases n - i,
    {
        let ghost rest = s@.subrange(i as int, n as int);
        assert(rest.subrange(0, m as int) =~= s@.subrange(i as int, i + m));
        assert(rest.subrange(m as int, rest.len() as int) =~= s@.subrange(i + m, n as int));
        i = i + m;
    }
    let ghost rest = s@.subrange(i as int, n as int);
    assert(!occurs_at(rest, 0, p@)) by {
        if occurs_at(rest, 0, p@) {
            assert(rest.subrange(0, m as int) =~= s@.subrange(i as int, i + m));
        }
    }
    s.substring_char(i, n)
}

/// The path portion of a connection descriptor (scheme and authority
/// marker stripped).
pub fn descriptor_path_of(descriptor: &str) -> (r: &str)
    ensures
        r@ == descriptor_path(descriptor@),
{
    proof {
        reveal_strlit("sqlite:");
        reveal_strlit("//");
        assert("sqlite:"@ =~= scheme_prefix());
        assert("//"@ =~= authority_marker());
    }
    let rest = strip_repeated_exec(descriptor, "sqlite:");
    strip_repeated_exec(rest, "//")
}

fn is_absolute_exec(p: &str) -> (r: bool)
    ensures
        r == is_absolute(p@),
{
    p.unicode_len() > 0 && p.get_char(0) == '/'
}

/// Whether resolving `descriptor` needs the working directory, that is,
/// whether its path is relative.
pub fn needs_working_dir(descriptor: &str) -> (r: bool)
    ensures
        r == !is_absolute(descriptor_path(descriptor@)),
{
    !is_absolute_exec(descriptor_path_of(descriptor))
}

fn join_path_exec(base: &str, rel: &str) -> (r: String)
    ensures
        r@ == join_path(base@, rel@),
{
    let n = base.unicode_len();
    let mut r = String::from_str(base);
    if n > 0 && base.get_char(n - 1) != '/' {
        proof {
            reveal_strlit("/");
        }
        r.append("/");
    }
    r.append(rel);
    r
}

/// The view of an optional working directory; absent reads as empty.
pub open spec fn dir_view(cwd: Option<String>) -> Seq<char> {
    match cwd {
        Some(c) => c@,
        None => Seq::empty(),
    }
}

/// Turns a connection descriptor into an absolute filesystem path. An absolute
/// path in the descriptor is used verbatim; a relative one is joined onto the
/// working directory `cwd`, which must then be known.
pub fn resolve_path(descriptor: &str, cwd: Option<String>) -> (r: Result<String, DbError>)
    ensures
        r is Ok <==> (is_absolute(descriptor_path(descriptor@)) || cwd is Some),
        r is Ok ==> r->Ok_0@ == resolved_path(descriptor@, dir_view(cwd)),
        r is Err ==> r->Err_0 is Environment,
{
    let p = descriptor_path_of(descriptor);
    if is_absolute_exec(p) {
        Ok(String::from_str(p))
    } else {
        match cwd {
            Some(c) => Ok(join_path_exec(c.as_str(), p)),
            None => Err(DbError::Environment),
        }
    }
}

/// The two spellings of a descriptor, `sqlite:<p>` and `sqlite://<p>`, resolve
/// to the same path under the same working directory, provided `p` does not
/// itself begin with the scheme (which the bare form would strip as well).
pub proof fn lemma_descriptor_forms_agree(p: Seq<char>, cwd: Seq<char>)
    requires
        !occurs_at(p, 0, scheme_prefix()),
    ensures
        resolved_path(scheme_prefix() + p, cwd)
            == resolved_path(scheme_prefix() + authority_marker() + p, cwd),
{
    let a = scheme_prefix() + p;
    let b = scheme_prefix() + authority_marker() + p;
    let m = authority_marker() + p;
    assert(occurs_at(a, 0, scheme_prefix())) by {
        assert(a.subrange(0, 7) =~= scheme_prefix());
    }
    assert(a.subrange(7, a.len() as int) =~= p);
    assert(strip_repeated(p, scheme_prefix()) == p);
    assert(occurs_at(b, 0, scheme_prefix())) by {
        assert(b.subrange(0, 7) =~= scheme_prefix());
    }
    assert(b.subrange(7, b.len() as int) =~= m);
    assert(!occurs_at(m, 0, scheme_prefix())) by {
        assert(m[0] == '/');
        if occurs_at(m, 0, scheme_prefix()) {
            assert(m.subrange(0, 7)[0] == scheme_prefix()[0]);
        }
    }
    assert(strip_repeated(m, scheme_prefix()) == m);
    assert(occurs_at(m, 0, authority_marker())) by {
        assert(m.subrange(0, 2) =~= authority_marker());
    }
    assert(m.subrange(2, m.len() as int) =~= p);
}

/// With an absolute working directory, every successful resolution is absolute.
pub proof fn lemma_resolved_is_absolute(d: Seq<char>, cwd: Seq<char>)
    requires
        is_absolute(cwd),
    ensures
        is_absolute(resolved_path(d, cwd)),
{
    let p = descriptor_path(d);
    if !is_absolute(p) {
        let j = join_path(cwd, p);
        if cwd.last() == '/' {
            assert(j[0] == (cwd + p)[0]);
        } else {
            assert(j[0] == (cwd + seq!['/'] + p)[0]);
        }
    }
}

/// The connection string the pool is opened against: always the plain
/// `sqlite:<path>` form.
pub fn canonical_url(path: &str) -> (r: String)
    ensures
        r@ == scheme_prefix() + path@,
{
    with_scheme(path)
}

/// The most connections the pool holds at once.
pub const MAX_CONNECTIONS: u32 = 5;

/// Seconds allowed both to acquire a pooled connection and to establish one.
pub const ACQUIRE_TIMEOUT_SECS: u64 = 3;

/// How the connection pool is to be opened.
#[derive(Clone, Debug)]
pub struct PoolSettings {
    pub url: String,
    pub max_connections: u32,
    pub acquire_timeout_secs: u64,
}

/// The pool settings for the provisioned file at `path`: the canonical URL,
/// the fixed connection bound and the acquisition timeout.
pub fn pool_settings(path: &str) -> (r: PoolSettings)
    ensures
        r.url@ == scheme_prefix() + path@,
        r.max_connections == MAX_CONNECTIONS,
        r.acquire_timeout_secs == ACQUIRE_TIMEOUT_SECS,
{
    PoolSettings {
        url: canonical_url(path),
        max_connections: MAX_CONNECTIONS,
        acquire_timeout_secs: ACQUIRE_TIMEOUT_SECS,
    }
}

/// Whether the pool for `url` may be handed out: it must have opened and
/// answered the liveness probe; otherwise the failure is a connection error
/// naming `url`.
pub fn check_pool(url: &str, opened: bool, answered: bool) -> (r: Result<(), DbError>)
    ensures
        r is Ok <==> (opened && answered),
        r is Err ==> (r->Err_0 is Connection && r->Err_0->Connection_url@ == url@),
{
    if opened && answered {
        Ok(())
    } else {
        Err(DbError::Connection { url: String::from_str(url) })
    }
}

} // verus!
