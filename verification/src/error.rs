//! The shared application error and its client-facing JSON envelope.
//!
//! Every failure maps to a fixed envelope `{ "error": { code, message, fields? } }`.
//! Internal and configuration details never reach clients.

use vstd::prelude::*;
use crate::text::push_str;

verus! {

/// The single error type shared across Geos.
#[derive(Debug)]
pub enum AppError {
    /// Authentication is required or failed (HTTP 401).
    Unauthorized(String),
    /// The caller is authenticated but lacks permission (HTTP 403).
    Forbidden(String),
    /// The requested resource does not exist or is not visible (HTTP 404).
    NotFound(String),
    /// The request was malformed or semantically invalid (HTTP 400).
    BadRequest(String),
    /// Field-level validation failed (HTTP 422); `fields` lists field -> reason.
    Validation { message: String, fields: Vec<(String, String)> },
    /// The request conflicts with current state (HTTP 409).
    Conflict(String),
    /// The caller exceeded a rate limit or quota (HTTP 429).
    RateLimited(String),
    /// A required configuration value was missing or invalid (boot-time).
    Config(String),
    /// An unexpected internal failure (HTTP 500); detail is for logs only.
    Internal(String),
}

/// Stable machine-readable code of an error.
pub open spec fn error_code(e: AppError) -> Seq<char> {
    match e {
        AppError::Unauthorized(_) => "unauthorized"@,
        AppError::Forbidden(_) => "forbidden"@,
        AppError::NotFound(_) => "not_found"@,
        AppError::BadRequest(_) => "bad_request"@,
        AppError::Validation { .. } => "validation"@,
        AppError::Conflict(_) => "conflict"@,
        AppError::RateLimited(_) => "rate_limited"@,
        AppError::Config(_) => "config"@,
        AppError::Internal(_) => "internal"@,
    }
}

/// HTTP status of an error.
pub open spec fn error_status(e: AppError) -> u16 {
    match e {
        AppError::Unauthorized(_) => 401,
        AppError::Forbidden(_) => 403,
        AppError::NotFound(_) => 404,
        AppError::BadRequest(_) => 400,
        AppError::Validation { .. } => 422,
        AppError::Conflict(_) => 409,
        AppError::RateLimited(_) => 429,
        AppError::Config(_) | AppError::Internal(_) => 500,
    }
}

/// Whether an error's detail is kept out of client responses.
pub open spec fn is_server_side(e: AppError) -> bool {
    e is Config || e is Internal
}

/// The client-safe message of an error.
pub open spec fn client_message_of(e: AppError) -> Seq<char> {
    match e {
        AppError::Unauthorized(m) => m@,
        AppError::Forbidden(m) => m@,
        AppError::NotFound(m) => m@,
        AppError::BadRequest(m) => m@,
        AppError::Conflict(m) => m@,
        AppError::RateLimited(m) => m@,
        AppError::Validation { message, .. } => message@,
        AppError::Config(_) | AppError::Internal(_) => "Internal server error"@,
    }
}

/// The message an error wraps (the summary, for a validation failure).
pub open spec fn error_message(e: AppError) -> Seq<char> {
    match e {
        AppError::Unauthorized(m) => m@,
        AppError::Forbidden(m) => m@,
        AppError::NotFound(m) => m@,
        AppError::BadRequest(m) => m@,
        AppError::Validation { message, .. } => message@,
        AppError::Conflict(m) => m@,
        AppError::RateLimited(m) => m@,
        AppError::Config(m) => m@,
        AppError::Internal(m) => m@,
    }
}

/// The display text of an error: a fixed prefix per variant, then its message.
pub open spec fn display_of(e: AppError) -> Seq<char> {
    match e {
        AppError::Unauthorized(m) => "unauthorized: "@ + m@,
        AppError::Forbidden(m) => "forbidden: "@ + m@,
        AppError::NotFound(m) => "not found: "@ + m@,
        AppError::BadRequest(m) => "bad request: "@ + m@,
        AppError::Validation { message, .. } => "validation failed: "@ + message@,
        AppError::Conflict(m) => "conflict: "@ + m@,
        AppError::RateLimited(m) => "rate limited: "@ + m@,
        AppError::Config(m) => "configuration error: "@ + m@,
        AppError::Internal(m) => "internal error: "@ + m@,
    }
}

impl AppError {
    /// 401 — authentication required or failed.
    pub fn unauthorized(message: &str) -> (e: AppError)
        ensures e matches AppError::Unauthorized(m) && m@ == message@,
    {
        AppError::Unauthorized(message.to_owned())
    }

    /// 403 — authenticated but not permitted.
    pub fn forbidden(message: &str) -> (e: AppError)
        ensures e matches AppError::Forbidden(m) && m@ == message@,
    {
        AppError::Forbidden(message.to_owned())
    }

    /// 404 — resource missing or not visible to the caller.
    pub fn not_found(message: &str) -> (e: AppError)
        ensures e matches AppError::NotFound(m) && m@ == message@,
    {
        AppError::NotFound(message.to_owned())
    }

    /// 400 — malformed or semantically invalid request.
    pub fn bad_request(message: &str) -> (e: AppError)
        ensures e matches AppError::BadRequest(m) && m@ == message@,
    {
        AppError::BadRequest(message.to_owned())
    }

    /// 422 — field-level validation failure with per-field reasons. The
    /// fields become a map: sorted by name, each name once, a later reason for
    /// the same name replacing an earlier one.
    pub fn validation(message: &str, fields: Vec<(String, String)>) -> (e: AppError)
        ensures
            e matches AppError::Validation { message: m, fields: f } && {
                &&& m@ == message@
                &&& keys_sorted(pairs_view(f@))
                &&& pairs_map(pairs_view(f@)) == pairs_map(pairs_view(fields@))
            },
    {
        AppError::Validation { message: message.to_owned(), fields: field_map(fields) }
    }

    /// 409 — request conflicts with current state.
    pub fn conflict(message: &str) -> (e: AppError)
        ensures e matches AppError::Conflict(m) && m@ == message@,
    {
        AppError::Conflict(message.to_owned())
    }

    /// 429 — rate limit or quota exceeded.
    pub fn rate_limited(message: &str) -> (e: AppError)
        ensures e matches AppError::RateLimited(m) && m@ == message@,
    {
        AppError::RateLimited(message.to_owned())
    }

    /// 500 — unexpected internal failure; detail is logged, not returned.
    pub fn internal(message: &str) -> (e: AppError)
        ensures e matches AppError::Internal(m) && m@ == message@,
    {
        AppError::Internal(message.to_owned())
    }

    /// Stable machine-readable error code for the JSON envelope.
    pub fn code(&self) -> (c: &'static str)
        ensures c@ == error_code(*self),
    {
        match self {
            AppError::Unauthorized(_) => "unauthorized",
            AppError::Forbidden(_) => "forbidden",
            AppError::NotFound(_) => "not_found",
            AppError::BadRequest(_) => "bad_request",
            AppError::Validation { .. } => "validation",
            AppError::Conflict(_) => "conflict",
            AppError::RateLimited(_) => "rate_limited",
            AppError::Config(_) => "config",
            AppError::Internal(_) => "internal",
        }
    }

    /// HTTP status code to return for this error.
    pub fn status_code(&self) -> (s: u16)
        ensures s == error_status(*self),
    {
        match self {
            AppError::Unauthorized(_) => 401,
            AppError::Forbidden(_) => 403,
            AppError::NotFound(_) => 404,
            AppError::BadRequest(_) => 400,
            AppError::Validation { .. } => 422,
            AppError::Conflict(_) => 409,
            AppError::RateLimited(_) => 429,
            AppError::Config(_) | AppError::Internal(_) => 500,
        }
    }

    /// Client-safe message: the real text for client-facing variants, a generic
    /// string for server-side failures.
    pub fn client_message(&self) -> (m: String)
        ensures m@ == client_message_of(*self),
    {
        match self {
            AppError::Unauthorized(m) => m.clone(),
            AppError::Forbidden(m) => m.clone(),
            AppError::NotFound(m) => m.clone(),
            AppError::BadRequest(m) => m.clone(),
            AppError::Conflict(m) => m.clone(),
            AppError::RateLimited(m) => m.clone(),
            AppError::Validation { message, .. } => message.clone(),
            AppError::Config(_) | AppError::Internal(_) => "Internal server error".to_owned(),
        }
    }

    /// The display text of this error, for logs: the variant's prefix and its
    /// full message, internal detail included.
    pub fn to_string(&self) -> (s: String)
        ensures s@ == display_of(*self),
    {
        let (prefix, m) = match self {
            AppError::Unauthorized(m) => ("unauthorized: ", m),
            AppError::Forbidden(m) => ("forbidden: ", m),
            AppError::NotFound(m) => ("not found: ", m),
            AppError::BadRequest(m) => ("bad request: ", m),
            AppError::Validation { message, .. } => ("validation failed: ", message),
            AppError::Conflict(m) => ("conflict: ", m),
            AppError::RateLimited(m) => ("rate limited: ", m),
            AppError::Config(m) => ("configuration error: ", m),
            AppError::Internal(m) => ("internal error: ", m),
        };
        let mut out = prefix.to_owned();
        push_str(&mut out, m.as_str());
        out
    }

    /// Build the client-facing envelope for this error.
    pub fn envelope(&self) -> (env: ErrorEnvelope)
        ensures
            env.error.code@ == error_code(*self),
            env.error.message@ == client_message_of(*self),
            env.error.fields matches Some(f) <==> (self matches AppError::Validation { fields, .. } && fields@.len() > 0),
            env.error.fields matches Some(f) ==> (self matches AppError::Validation { fields, .. } && pairs_view(f@) == pairs_view(fields@)),
    {
        let fields = match self {
            AppError::Validation { fields, .. } => {
                if fields.len() > 0 {
                    Some(clone_pairs(fields))
                } else {
                    None
                }
            },
            _ => None,
        };
        ErrorEnvelope {
            error: ErrorBody { code: self.code(), message: self.client_message(), fields },
        }
    }
}

/// The character view of a list of string pairs.
pub open spec fn pairs_view(p: Seq<(String, String)>) -> Seq<(Seq<char>, Seq<char>)> {
    p.map_values(|x: (String, String)| (x.0@, x.1@))
}

fn clone_pairs(v: &Vec<(String, String)>) -> (out: Vec<(String, String)>)
    ensures pairs_view(out@) == pairs_view(v@),
{
    let mut out: Vec<(String, String)> = Vec::new();
    let mut i: usize = 0;
    while i < v.len()
        invariant
            i <= v@.len(),
            pairs_view(out@) == pairs_view(v@.subrange(0, i as int)),
        decreases v@.len() - i,
    {
        let a = v[i].0.clone();
        let b = v[i].1.clone();
        let ghost prev = out@;
        out.push((a, b));
        proof {
            assert(v@.subrange(0, i + 1) == v@.subrange(0, i as int).push(v@[i as int]));
            assert(pairs_view(out@) =~= pairs_view(prev).push((v@[i as int].0@, v@[i as int].1@)));
            assert(pairs_view(v@.subrange(0, i + 1)) =~= pairs_view(v@.subrange(0, i as int)).push((v@[i as int].0@, v@[i as int].1@)));
        }
        i = i + 1;
    }
    proof {
        assert(v@.subrange(0, v@.len() as int) == v@);
    }
    out
}

// ---------------------------------------------------------------------------
// Validation fields as a sorted map
// ---------------------------------------------------------------------------

/// The order of field names: by character code, position by position, a
/// proper prefix first (the order of `String`, since UTF-8 keeps code-point
/// order).
pub open spec fn key_lt(a: Seq<char>, b: Seq<char>) -> bool
    decreases a.len(),
{
    if a.len() == 0 {
        b.len() > 0
    } else if b.len() == 0 {
        false
    } else if a[0] != b[0] {
        (a[0] as int) < (b[0] as int)
    } else {
        key_lt(a.drop_first(), b.drop_first())
    }
}

/// Field names strictly increase: the pairs are sorted and no name repeats.
pub open spec fn keys_sorted(p: Seq<(Seq<char>, Seq<char>)>) -> bool {
    forall|i: int, j: int| 0 <= i < j < p.len() ==> key_lt(#[trigger] p[i].0, #[trigger] p[j].0)
}

/// The map that a list of pairs describes when read in order: a later pair
/// for the same name replaces an earlier one.
pub open spec fn pairs_map(p: Seq<(Seq<char>, Seq<char>)>) -> Map<Seq<char>, Seq<char>>
    decreases p.len(),
{
    if p.len() == 0 {
        Map::empty()
    } else {
        pairs_map(p.drop_last()).insert(p.last().0, p.last().1)
    }
}

proof fn key_lt_irreflexive(a: Seq<char>)
    ensures !key_lt(a, a),
    decreases a.len(),
{
    if a.len() > 0 {
        key_lt_irreflexive(a.drop_first());
    }
}

proof fn key_lt_transitive(a: Seq<char>, b: Seq<char>, c: Seq<char>)
    requires key_lt(a, b), key_lt(b, c),
    ensures key_lt(a, c),
    decreases a.len(),
{
    if a.len() > 0 && b.len() > 0 && c.len() > 0 && a[0] == b[0] && b[0] == c[0] {
        key_lt_transitive(a.drop_first(), b.drop_first(), c.drop_first());
    }
}

/// Whether some pair of `p` has the name `x`.
pub open spec fn has_key(p: Seq<(Seq<char>, Seq<char>)>, x: Seq<char>) -> bool {
    exists|i: int| 0 <= i < p.len() && p[i].0 == x
}

/// In a sorted list every name stands once; the map holds exactly the names
/// of the list, each with the reason beside it.
proof fn sorted_pairs_lookup(p: Seq<(Seq<char>, Seq<char>)>, x: Seq<char>)
    requires keys_sorted(p),
    ensures
        pairs_map(p).contains_key(x) <==> has_key(p, x),
        forall|i: int| 0 <= i < p.len() && p[i].0 == x ==> pairs_map(p)[x] == p[i].1,
    decreases p.len(),
{
    if p.len() > 0 {
        let q = p.drop_last();
        assert(keys_sorted(q)) by {
            assert forall|i: int, j: int| 0 <= i < j < q.len() implies key_lt(#[trigger] q[i].0, #[trigger] q[j].0) by {
                assert(q[i] == p[i] && q[j] == p[j]);
            }
        }
        sorted_pairs_lookup(q, x);
        let n = p.len() - 1;
        assert forall|i: int| 0 <= i < p.len() && p[i].0 == x implies pairs_map(p)[x] == p[i].1 by {
            if i < n {
                assert(key_lt(p[i].0, p[n].0));
                key_lt_irreflexive(x);
                assert(q[i] == p[i]);
            }
        }
        if pairs_map(p).contains_key(x) && x != p[n].0 {
            let i = choose|i: int| 0 <= i < q.len() && q[i].0 == x;
            assert(p[i] == q[i]);
        }
        if has_key(p, x) {
            let i = choose|i: int| 0 <= i < p.len() && p[i].0 == x;
            if i < n {
                assert(q[i] == p[i]);
            }
        }
    }
}

/// Placing a pair into a sorted list, at a new name's place or over the pair
/// of the same name, records it in the map as an insertion.
proof fn placed_pair_inserts(
    p: Seq<(Seq<char>, Seq<char>)>,
    r: Seq<(Seq<char>, Seq<char>)>,
    k: Seq<char>,
    v: Seq<char>,
)
    requires
        keys_sorted(p),
        keys_sorted(r),
        r.contains((k, v)),
        forall|x: Seq<char>| #![trigger has_key(p, x)] #![trigger has_key(r, x)]
            x != k ==> (has_key(p, x) <==> has_key(r, x)),
        forall|j: int| 0 <= j < r.len() && r[j].0 != k ==> exists|i: int| 0 <= i < p.len() && #[trigger] p[i] == r[j],
    ensures
        pairs_map(r) == pairs_map(p).insert(k, v),
{
    assert forall|x: Seq<char>| #[trigger] pairs_map(r).contains_key(x) == pairs_map(p).insert(k, v).contains_key(x) by {
        sorted_pairs_lookup(p, x);
        sorted_pairs_lookup(r, x);
        if x == k {
            let j = choose|j: int| 0 <= j < r.len() && r[j] == (k, v);
            assert(r[j].0 == x);
        }
    }
    assert forall|x: Seq<char>| #[trigger] pairs_map(r).contains_key(x) implies pairs_map(r)[x] == pairs_map(p).insert(k, v)[x] by {
        sorted_pairs_lookup(p, x);
        sorted_pairs_lookup(r, x);
        let j = choose|j: int| 0 <= j < r.len() && r[j].0 == x;
        if x == k {
            let jk = choose|jk: int| 0 <= jk < r.len() && r[jk] == (k, v);
            if j != jk {
                key_lt_irreflexive(x);
                if j < jk { assert(key_lt(r[j].0, r[jk].0)); } else { assert(key_lt(r[jk].0, r[j].0)); }
            }
        } else {
            let i = choose|i: int| 0 <= i < p.len() && p[i] == r[j];
            assert(p[i].0 == x);
        }
    }
    assert(pairs_map(r) =~= pairs_map(p).insert(k, v));
}

/// The three outcomes of comparing two field names.
enum KeyOrder {
    Less,
    Equal,
    Greater,
}

/// Compare two field names in `key_lt` order.
fn key_order(a: &str, b: &str) -> (r: KeyOrder)
    ensures
        r is Less ==> key_lt(a@, b@),
        r is Equal ==> a@ == b@,
        r is Greater ==> key_lt(b@, a@),
{
    let n = a.unicode_len();
    let m = b.unicode_len();
    let mut i: usize = 0;
    proof {
        assert(a@.skip(0) =~= a@);
        assert(b@.skip(0) =~= b@);
    }
    while i < n && i < m
        invariant
            n == a@.len(),
            m == b@.len(),
            i <= n,
            i <= m,
            a@.subrange(0, i as int) == b@.subrange(0, i as int),
            key_lt(a@, b@) == key_lt(a@.skip(i as int), b@.skip(i as int)),
            key_lt(b@, a@) == key_lt(b@.skip(i as int), a@.skip(i as int)),
        decreases n - i,
    {
        let c = a.get_char(i);
        let d = b.get_char(i);
        proof {
            assert(a@.skip(i as int)[0] == c);
            assert(b@.skip(i as int)[0] == d);
        }
        if (c as u32) < (d as u32) {
            return KeyOrder::Less;
        } else if (d as u32) < (c as u32) {
            return KeyOrder::Greater;
        }
        proof {
            assert(a@.skip(i as int).drop_first() =~= a@.skip(i + 1));
            assert(b@.skip(i as int).drop_first() =~= b@.skip(i + 1));
            assert(a@.subrange(0, i + 1) =~= a@.subrange(0, i as int).push(c));
            assert(b@.subrange(0, i + 1) =~= b@.subrange(0, i as int).push(d));
        }
        i = i + 1;
    }
    if i < m {
        proof { assert(a@.skip(i as int).len() == 0); }
        KeyOrder::Less
    } else if i < n {
        proof { assert(b@.skip(i as int).len() == 0); }
        KeyOrder::Greater
    } else {
        proof {
            assert(a@ =~= a@.subrange(0, i as int));
            assert(b@ =~= b@.subrange(0, i as int));
        }
        KeyOrder::Equal
    }
}

/// Where a field name belongs in a sorted list: the names before the slot are
/// smaller; the slot holds the same name when `found`, a greater one (or
/// nothing) otherwise.
fn find_slot(list: &Vec<(String, String)>, k: &str) -> (r: (usize, bool))
    requires keys_sorted(pairs_view(list@)),
    ensures
        r.0 <= list@.len(),
        forall|j: int| 0 <= j < r.0 ==> key_lt(#[trigger] list@[j].0@, k@),
        r.1 ==> r.0 < list@.len() && list@[r.0 as int].0@ == k@,
        !r.1 && r.0 < list@.len() ==> key_lt(k@, list@[r.0 as int].0@),
{
    let n = list.len();
    let mut pos: usize = 0;
    while pos < n
        invariant
            n == list@.len(),
            pos <= n,
            forall|j: int| 0 <= j < pos ==> key_lt(#[trigger] list@[j].0@, k@),
        decreases n - pos,
    {
        match key_order(list[pos].0.as_str(), k) {
            KeyOrder::Less => {},
            KeyOrder::Equal => {
                return (pos, true);
            },
            KeyOrder::Greater => {
                return (pos, false);
            },
        }
        pos = pos + 1;
    }
    (pos, false)
}

/// Record one field in a sorted list, replacing the reason of the same name.
fn put_field(list: &mut Vec<(String, String)>, k: String, v: String)
    requires keys_sorted(pairs_view(old(list)@)),
    ensures
        keys_sorted(pairs_view(final(list)@)),
        pairs_map(pairs_view(final(list)@)) == pairs_map(pairs_view(old(list)@)).insert(k@, v@),
{
    let (pos, found) = find_slot(list, k.as_str());
    let ghost p = pairs_view(list@);
    let ghost kv = k@;
    let ghost vv = v@;
    if found {
        list[pos] = (k, v);
        proof {
            let r = pairs_view(list@);
            assert(r =~= p.update(pos as int, (kv, vv)));
            assert(r[pos as int] == (kv, vv));
            assert forall|i: int, j: int| 0 <= i < j < r.len() implies key_lt(#[trigger] r[i].0, #[trigger] r[j].0) by {
                assert(r[i].0 == p[i].0 && r[j].0 == p[j].0);
            }
        }
    } else {
        list.insert(pos, (k, v));
        proof {
            let r = pairs_view(list@);
            assert(r =~= p.insert(pos as int, (kv, vv)));
            assert(r[pos as int] == (kv, vv));
            assert forall|i: int, j: int| 0 <= i < j < r.len() implies key_lt(#[trigger] r[i].0, #[trigger] r[j].0) by {
                if j < pos {
                } else if i < pos && j == pos {
                } else if i < pos && j > pos {
                    assert(r[j] == p[j - 1]);
                    if pos < p.len() {
                        if j - 1 > pos {
                            key_lt_transitive(kv, p[pos as int].0, p[j - 1].0);
                        }
                    }
                    key_lt_transitive(r[i].0, kv, r[j].0);
                } else if i == pos {
                    assert(r[j] == p[j - 1]);
                    if j - 1 > pos {
                        key_lt_transitive(kv, p[pos as int].0, p[j - 1].0);
                    }
                } else {
                    assert(r[i] == p[i - 1] && r[j] == p[j - 1]);
                }
            }
        }
    }
    proof {
        let r = pairs_view(list@);
        assert(r.contains((kv, vv)));
        assert forall|x: Seq<char>| x != kv implies (has_key(p, x) <==> #[trigger] has_key(r, x)) by {
            if has_key(p, x) {
                let i = choose|i: int| 0 <= i < p.len() && p[i].0 == x;
                if found || i < pos { assert(r[i] == p[i] || i == pos); if i == pos { assert(p[i].0 == kv); } assert(r[i].0 == x); }
                else { assert(r[i + 1] == p[i]); }
            }
            if has_key(r, x) {
                let j = choose|j: int| 0 <= j < r.len() && r[j].0 == x;
                if found || j < pos { assert(p[j] == r[j]); }
                else if j > pos { assert(p[j - 1] == r[j]); }
            }
        }
        assert forall|j: int| 0 <= j < r.len() && r[j].0 != kv implies exists|i: int| 0 <= i < p.len() && #[trigger] p[i] == r[j] by {
            if found || j < pos { assert(p[j] == r[j]); }
            else { assert(p[j - 1] == r[j]); }
        }
        placed_pair_inserts(p, r, kv, vv);
    }
}

/// The fields as a sorted map, later reasons replacing earlier ones.
fn field_map(fields: Vec<(String, String)>) -> (out: Vec<(String, String)>)
    ensures
        keys_sorted(pairs_view(out@)),
        pairs_map(pairs_view(out@)) == pairs_map(pairs_view(fields@)),
{
    let mut out: Vec<(String, String)> = Vec::new();
    let mut rest = fields;
    let ghost all = fields@;
    let n = rest.len();
    let mut i: usize = 0;
    while i < n
        invariant
            n == all.len(),
            i <= n,
            rest@ == all.subrange(i as int, n as int),
            keys_sorted(pairs_view(out@)),
            pairs_map(pairs_view(out@)) == pairs_map(pairs_view(all.subrange(0, i as int))),
        decreases n - i,
    {
        let (k, v) = rest.remove(0);
        proof {
            assert(all[i as int] == (k, v));
            let s = pairs_view(all.subrange(0, i + 1));
            assert(s.drop_last() =~= pairs_view(all.subrange(0, i as int)));
            assert(s.last() == (k@, v@));
        }
        put_field(&mut out, k, v);
        proof {
            assert(rest@ =~= all.subrange(i + 1, n as int));
        }
        i = i + 1;
    }
    proof {
        assert(all.subrange(0, n as int) =~= all);
    }
    out
}

/// Top-level error envelope: `{ "error": { ... } }`.
#[derive(Debug)]
pub struct ErrorEnvelope {
    /// The single error object.
    pub error: ErrorBody,
}

/// Body of the error envelope.
#[derive(Debug)]
pub struct ErrorBody {
    /// Stable machine-readable code (e.g. `"not_found"`).
    pub code: &'static str,
    /// Client-safe human-readable message.
    pub message: String,
    /// Optional per-field validation messages; absent when there are none.
    pub fields: Option<Vec<(String, String)>>,
}

/// Every HTTP status an error maps to is a 4xx or 5xx code, and only
/// server-side failures map to 500.
pub proof fn status_is_error_class(e: AppError)
    ensures
        400 <= error_status(e) < 600,
        error_status(e) == 500 <==> is_server_side(e),
{
}

/// Server-side failures never reveal their detail: every such error carries the
/// same generic client message, whatever its wrapped text.
pub proof fn server_detail_is_hidden(e1: AppError, e2: AppError)
    requires is_server_side(e1), is_server_side(e2),
    ensures client_message_of(e1) == client_message_of(e2),
{
}

} // verus!
