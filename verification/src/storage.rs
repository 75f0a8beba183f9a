//! Object storage and upstream imagery addressing: the object URL of a
//! bucket key, the service token claims, how a response status is read, and
//! the upstream tile URL filled in from its `{z}`/`{x}`/`{y}` template.

use vstd::prelude::*;
use crate::text::{push_str, push_char, decimal, decimal_string, trim_end_char, trim_end_matches_char};

verus! {

/// Lifetime of a storage service token in seconds (5 minutes).
pub const NOS_TOKEN_TTL_SECS: i64 = 300;

/// The base URL of the storage service without trailing slashes.
pub fn storage_base(url: &str) -> (b: String)
    ensures b@ == trim_end_char(url@, '/'),
{
    trim_end_matches_char(url, '/').to_owned()
}

/// `{base}/{bucket}/{key}`; keys may hold slashes and are appended as they are.
pub open spec fn object_url_of(base: Seq<char>, bucket: Seq<char>, key: Seq<char>) -> Seq<char> {
    base + "/"@ + bucket + "/"@ + key
}

/// The URL of an object.
pub fn object_url(base: &str, bucket: &str, key: &str) -> (u: String)
    ensures u@ == object_url_of(base@, bucket@, key@),
{
    let mut u = String::new();
    push_str(&mut u, base);
    push_str(&mut u, "/");
    push_str(&mut u, bucket);
    push_str(&mut u, "/");
    push_str(&mut u, key);
    assert(u@ =~= object_url_of(base@, bucket@, key@));
    u
}

/// Claims of a storage service token (admin role: reads and writes).
pub struct NosClaims {
    pub sub: String,
    pub email: String,
    pub role: String,
    /// Expiry (Unix seconds).
    pub exp: i64,
    /// Issued at (Unix seconds).
    pub iat: i64,
}

/// Service token claims issued at `now` (Unix seconds).
pub fn nos_claims(now: i64) -> (c: NosClaims)
    requires now + NOS_TOKEN_TTL_SECS <= i64::MAX,
    ensures
        c.sub@ == "geos-api"@,
        c.email@ == "geos-api@geos.internal"@,
        c.role@ == "admin"@,
        c.iat == now,
        c.exp == now + NOS_TOKEN_TTL_SECS,
{
    NosClaims {
        sub: "geos-api".to_owned(),
        email: "geos-api@geos.internal".to_owned(),
        role: "admin".to_owned(),
        iat: now,
        exp: now + NOS_TOKEN_TTL_SECS,
    }
}

/// How a storage or upstream answer is read.
#[derive(Debug, Clone, Copy, PartialEq, Eq, Structural)]
pub enum ResponseClass {
    /// 404: the object (or tile) does not exist.
    Missing,
    /// 2xx: the body is the object.
    Success,
    /// Any other status: a failure.
    Failure,
}

/// The class of an HTTP status code.
pub open spec fn class_of(status: u16) -> ResponseClass {
    if status == 404 {
        ResponseClass::Missing
    } else if 200 <= status <= 299 {
        ResponseClass::Success
    } else {
        ResponseClass::Failure
    }
}

/// Read a response status: 404 is absence, 2xx success, anything else failure.
pub fn classify_status(status: u16) -> (c: ResponseClass)
    ensures c == class_of(status),
{
    if status == 404 {
        ResponseClass::Missing
    } else if 200 <= status && status <= 299 {
        ResponseClass::Success
    } else {
        ResponseClass::Failure
    }
}

// ---------------------------------------------------------------------------
// Template filling
// ---------------------------------------------------------------------------

/// `with` before every character of `s` and once more at its end: what
/// replacing the empty pattern gives.
pub open spec fn interleaved(s: Seq<char>, with: Seq<char>) -> Seq<char>
    decreases s.len(),
{
    if s.len() == 0 {
        with
    } else {
        with + seq![s[0]] + interleaved(s.drop_first(), with)
    }
}

/// `s` with every occurrence of `pat` replaced by `with`, scanning left to
/// right without overlaps (`str::replace`); the empty pattern matches before
/// every character and at the end.
pub open spec fn replaced(s: Seq<char>, pat: Seq<char>, with: Seq<char>) -> Seq<char>
    decreases s.len(),
{
    if pat.len() == 0 {
        interleaved(s, with)
    } else if s.len() == 0 {
        s
    } else if pat.len() <= s.len() && s.subrange(0, pat.len() as int) == pat {
        with + replaced(s.subrange(pat.len() as int, s.len() as int), pat, with)
    } else {
        seq![s[0]] + replaced(s.drop_first(), pat, with)
    }
}

/// `with` before every character of `s` and once more at its end.
fn interleave(s: &str, with: &str) -> (r: String)
    ensures r@ == interleaved(s@, with@),
{
    let n = s.unicode_len();
    let mut out = String::new();
    let mut i: usize = 0;
    proof {
        assert(s@.subrange(0, n as int) =~= s@);
        assert(out@ + interleaved(s@, with@) =~= interleaved(s@, with@));
    }
    while i < n
        invariant
            n == s@.len(), i <= n,
            out@ + interleaved(s@.subrange(i as int, n as int), with@) == interleaved(s@, with@),
        decreases n - i,
    {
        let ghost rest = s@.subrange(i as int, n as int);
        let c = s.get_char(i);
        proof {
            assert(rest.drop_first() =~= s@.subrange(i + 1, n as int));
            assert(rest[0] == c);
            assert(out@ + with@ + seq![c] + interleaved(s@.subrange(i + 1, n as int), with@)
                =~= out@ + (with@ + seq![c] + interleaved(s@.subrange(i + 1, n as int), with@)));
        }
        push_str(&mut out, with);
        push_char(&mut out, c);
        i = i + 1;
    }
    proof {
        assert(s@.subrange(n as int, n as int) =~= Seq::<char>::empty());
    }
    push_str(&mut out, with);
    out
}

fn matches_at(s: &str, n: usize, i: usize, pat: &str, m: usize) -> (b: bool)
    requires n == s@.len(), m == pat@.len(), i <= n,
    ensures b == (m <= n - i && s@.subrange(i as int, i + m) == pat@),
{
    if m > n - i {
        return false;
    }
    let mut k: usize = 0;
    while k < m
        invariant
            m == pat@.len(), n == s@.len(), i + m <= n, k <= m,
            forall|j: int| 0 <= j < k ==> s@[i + j] == pat@[j],
        decreases m - k,
    {
        if s.get_char(i + k) != pat.get_char(k) {
            assert(s@.subrange(i as int, i + m)[k as int] != pat@[k as int]);
            return false;
        }
        k = k + 1;
    }
    assert(s@.subrange(i as int, i + m) =~= pat@);
    true
}

/// Replace every occurrence of a non-empty pattern.
pub fn replace_all(s: &str, pat: &str, with: &str) -> (r: String)
    ensures r@ == replaced(s@, pat@, with@),
{
    let n = s.unicode_len();
    let m = pat.unicode_len();
    if m == 0 {
        return interleave(s, with);
    }
    let mut out = String::new();
    let mut i: usize = 0;
    proof {
        assert(s@.subrange(0, n as int) =~= s@);
        assert(out@ + replaced(s@, pat@, with@) =~= replaced(s@, pat@, with@));
    }
    while i < n
        invariant
            n == s@.len(), m == pat@.len(), m > 0, i <= n,
            out@ + replaced(s@.subrange(i as int, n as int), pat@, with@) == replaced(s@, pat@, with@),
        decreases n - i,
    {
        let ghost rest = s@.subrange(i as int, n as int);
        if matches_at(s, n, i, pat, m) {
            proof {
                assert(rest.subrange(0, m as int) =~= s@.subrange(i as int, i + m));
                assert(rest.subrange(m as int, rest.len() as int) =~= s@.subrange(i + m, n as int));
                assert(out@ + with@ + replaced(s@.subrange(i + m, n as int), pat@, with@)
                    =~= out@ + (with@ + replaced(s@.subrange(i + m, n as int), pat@, with@)));
            }
            push_str(&mut out, with);
            i = i + m;
        } else {
            let c = s.get_char(i);
            proof {
                if m <= rest.len() {
                    assert(rest.subrange(0, m as int) =~= s@.subrange(i as int, i + m));
                }
                assert(rest.drop_first() =~= s@.subrange(i + 1, n as int));
                assert(rest[0] == c);
                assert(out@.push(c) + replaced(s@.subrange(i + 1, n as int), pat@, with@)
                    =~= out@ + (seq![c] + replaced(s@.subrange(i + 1, n as int), pat@, with@)));
            }
            push_char(&mut out, c);
            i = i + 1;
        }
    }
    proof {
        assert(s@.subrange(n as int, n as int) =~= Seq::<char>::empty());
        assert(out@ + Seq::<char>::empty() =~= out@);
    }
    out
}

/// The upstream URL of tile `z/x/y`: the template with `{z}`, then `{x}`, then
/// `{y}` replaced by the decimal coordinates.
pub open spec fn upstream_url_of(template: Seq<char>, z: u32, x: u32, y: u32) -> Seq<char> {
    replaced(replaced(replaced(template, "{z}"@, decimal(z as nat)), "{x}"@, decimal(x as nat)),
        "{y}"@, decimal(y as nat))
}

/// Fill the upstream imagery template for tile `z/x/y`.
pub fn upstream_tile_url(template: &str, z: u32, x: u32, y: u32) -> (u: String)
    ensures u@ == upstream_url_of(template@, z, x, y),
{
    proof {
        reveal_strlit("{z}");
        reveal_strlit("{x}");
        reveal_strlit("{y}");
    }
    let zs = decimal_string(z as u64);
    let xs = decimal_string(x as u64);
    let ys = decimal_string(y as u64);
    let a = replace_all(template, "{z}", zs.as_str());
    let b = replace_all(a.as_str(), "{x}", xs.as_str());
    replace_all(b.as_str(), "{y}", ys.as_str())
}

} // verus!
