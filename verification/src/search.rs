//! Full-text search over the `events` index: the indexed document, tenant
//! scoped filter expressions, sort rules, and decoding hits.

use vstd::prelude::*;
use crate::error::AppError;
use crate::event_store::message_with;
use crate::events::{Category, Event, Severity, category_key, severity_key, category_named,
    severity_named, category_keys_round_trip, severity_keys_round_trip};
use crate::ids::{hyphenated, uuid_string, parse_uuid, uuid_parse};
use crate::numbers::{Float64, Instant};
use crate::tenancy::SYSTEM_TENANT_ID;
use crate::text::{str_eq, strings_view, push_str, push_decimal, push_signed_decimal, decimal,
    signed_decimal, joined, join, escaped, escape_char, escape_in, escaped_concat, push_char};
use crate::event_store::clone_strings;

verus! {

/// Meilisearch index uid for canonical events.
pub const EVENTS_INDEX: &'static str = "events";

/// The lowercase index value of a category.
pub fn category_str(value: Category) -> (s: &'static str)
    ensures s@ == category_key(value),
{
    match value {
        Category::Earthquake => "earthquake",
        Category::Incident => "incident",
        Category::Alert => "alert",
        Category::Weather => "weather",
        Category::News => "news",
        Category::Conflict => "conflict",
        Category::Wildfire => "wildfire",
        Category::Other => "other",
    }
}

/// The lowercase index value of a severity.
pub fn severity_str(value: Severity) -> (s: &'static str)
    ensures s@ == severity_key(value),
{
    match value {
        Severity::Info => "info",
        Severity::Low => "low",
        Severity::Moderate => "moderate",
        Severity::High => "high",
        Severity::Critical => "critical",
    }
}

/// Read an indexed category.
pub fn parse_category(value: &str) -> (r: Result<Category, AppError>)
    ensures
        r matches Ok(c) ==> category_named(value@) == Some(c),
        r is Err ==> category_named(value@) is None,
        r matches Err(e) ==> (e matches AppError::Internal(m) && m@ == "unknown category in index: "@ + value@),
{
    if str_eq(value, "earthquake") { Ok(Category::Earthquake) }
    else if str_eq(value, "incident") { Ok(Category::Incident) }
    else if str_eq(value, "alert") { Ok(Category::Alert) }
    else if str_eq(value, "weather") { Ok(Category::Weather) }
    else if str_eq(value, "news") { Ok(Category::News) }
    else if str_eq(value, "conflict") { Ok(Category::Conflict) }
    else if str_eq(value, "wildfire") { Ok(Category::Wildfire) }
    else if str_eq(value, "other") { Ok(Category::Other) }
    else { Err(AppError::Internal(message_with("unknown category in index: ", value))) }
}

/// Read an indexed severity.
pub fn parse_severity(value: &str) -> (r: Result<Severity, AppError>)
    ensures
        r matches Ok(c) ==> severity_named(value@) == Some(c),
        r is Err ==> severity_named(value@) is None,
        r matches Err(e) ==> (e matches AppError::Internal(m) && m@ == "unknown severity in index: "@ + value@),
{
    if str_eq(value, "info") { Ok(Severity::Info) }
    else if str_eq(value, "low") { Ok(Severity::Low) }
    else if str_eq(value, "moderate") { Ok(Severity::Moderate) }
    else if str_eq(value, "high") { Ok(Severity::High) }
    else if str_eq(value, "critical") { Ok(Severity::Critical) }
    else { Err(AppError::Internal(message_with("unknown severity in index: ", value))) }
}

// ---------------------------------------------------------------------------
// Filter expressions
// ---------------------------------------------------------------------------

/// Optional attribute filters applied on top of tenant scoping. Multi-value
/// dimensions are disjunctive within themselves; empty = no constraint.
#[derive(Debug)]
pub struct SearchFilters {
    /// Restrict to these categories; empty = all.
    pub categories: Vec<Category>,
    /// Restrict to these severities; empty = all.
    pub severities: Vec<Severity>,
    /// Restrict to these source keys; empty = all.
    pub sources: Vec<String>,
    /// Minimum impact score (0–100).
    pub impact_min: Option<u8>,
    /// Maximum impact score (0–100).
    pub impact_max: Option<u8>,
    /// Lower bound on `occurred_at` (inclusive).
    pub occurred_after: Option<Instant>,
    /// Upper bound on `occurred_at` (inclusive).
    pub occurred_before: Option<Instant>,
}

impl Default for SearchFilters {
    fn default() -> (r: Self)
        ensures
            r.categories@.len() == 0,
            r.severities@.len() == 0,
            r.sources@.len() == 0,
            r.impact_min is None,
            r.impact_max is None,
            r.occurred_after is None,
            r.occurred_before is None,
    {
        SearchFilters {
            categories: Vec::new(),
            severities: Vec::new(),
            sources: Vec::new(),
            impact_min: None,
            impact_max: None,
            occurred_after: None,
            occurred_before: None,
        }
    }
}

/// A value as a filter string literal: in double quotes, with every inner
/// `"` and `\\` escaped.
pub open spec fn quoted(v: Seq<char>) -> Seq<char> {
    seq!['"'] + escaped(v) + seq!['"']
}

/// How a filter reads the body of a string literal, after its opening quote:
/// a backslash takes the next character as it is, an unescaped `"` ends the
/// literal. The result is the value and what follows the closing quote, or
/// `None` where the literal never ends.
pub open spec fn read_literal_body(s: Seq<char>) -> Option<(Seq<char>, Seq<char>)>
    decreases s.len(),
{
    if s.len() == 0 {
        None
    } else if s[0] == '"' {
        Some((Seq::empty(), s.drop_first()))
    } else if s[0] == '\\' {
        if s.len() < 2 {
            None
        } else {
            match read_literal_body(s.subrange(2, s.len() as int)) {
                Some((v, rest)) => Some((seq![s[1]] + v, rest)),
                None => None,
            }
        }
    } else {
        match read_literal_body(s.drop_first()) {
            Some((v, rest)) => Some((seq![s[0]] + v, rest)),
            None => None,
        }
    }
}

/// How a filter reads a string literal at the start of `s`.
pub open spec fn read_literal(s: Seq<char>) -> Option<(Seq<char>, Seq<char>)> {
    if s.len() > 0 && s[0] == '"' { read_literal_body(s.drop_first()) } else { None }
}

proof fn literal_body_reads_back(v: Seq<char>, rest: Seq<char>)
    ensures read_literal_body(escaped(v) + seq!['"'] + rest) == Some((v, rest)),
    decreases v.len(),
{
    let s = escaped(v) + seq!['"'] + rest;
    if v.len() == 0 {
        assert(escaped(v) =~= Seq::<char>::empty());
        assert(s[0] == '"');
        assert(s.drop_first() =~= rest);
    } else {
        let c = v[0];
        let t = v.drop_first();
        assert(v =~= seq![c] + t);
        escaped_concat(seq![c], t);
        assert(escaped(seq![c]) =~= escape_char(c)) by {
            assert(seq![c].drop_last() =~= Seq::<char>::empty());
            assert(seq![c].last() == c);
            assert(escaped(Seq::<char>::empty()) =~= Seq::<char>::empty());
            assert(escaped(Seq::<char>::empty()) + escape_char(c) =~= escape_char(c));
        }
        literal_body_reads_back(t, rest);
        if c == '"' || c == '\\' {
            assert(s =~= seq!['\\', c] + (escaped(t) + seq!['"'] + rest));
            assert(s.subrange(2, s.len() as int) =~= escaped(t) + seq!['"'] + rest);
        } else {
            assert(s =~= seq![c] + (escaped(t) + seq!['"'] + rest));
            assert(s.drop_first() =~= escaped(t) + seq!['"'] + rest);
        }
    }
}

/// Every quoted filter value reads back as exactly that value, and the
/// literal ends where its closing quote stands: no value can close its
/// literal early or change the clauses that follow it.
pub proof fn quoted_value_reads_back(v: Seq<char>, rest: Seq<char>)
    ensures read_literal(quoted(v) + rest) == Some((v, rest)),
{
    let s = quoted(v) + rest;
    assert(s[0] == '"');
    assert(s.drop_first() =~= escaped(v) + seq!['"'] + rest);
    literal_body_reads_back(v, rest);
}

/// `attr IN ["a", "b"]` with quoted, escaped values.
pub open spec fn in_clause(attr: Seq<char>, values: Seq<Seq<char>>) -> Seq<char> {
    attr + " IN ["@ + joined(values.map_values(|v: Seq<char>| quoted(v)), ", "@) + "]"@
}

/// The tenant clause: the caller's tenant or the shared system tenant.
pub open spec fn tenant_clause(tenant: u128) -> Seq<char> {
    "(tenant_id = \""@ + hyphenated(tenant) + "\" OR tenant_id = \""@ + hyphenated(SYSTEM_TENANT_ID) + "\")"@
}

/// `clause` as a one-element list when `present`, else nothing.
pub open spec fn optional_clause(present: bool, clause: Seq<char>) -> Seq<Seq<char>> {
    if present { seq![clause] } else { Seq::empty() }
}

/// The clauses of a search filter, in order: tenant scope, categories,
/// severities, sources, impact bounds, occurred-at bounds (epoch seconds).
pub open spec fn expression_clauses(f: SearchFilters, tenant: u128) -> Seq<Seq<char>> {
    seq![tenant_clause(tenant)]
    + optional_clause(f.categories@.len() > 0,
        in_clause("category"@, f.categories@.map_values(|c: Category| category_key(c))))
    + optional_clause(f.severities@.len() > 0,
        in_clause("severity"@, f.severities@.map_values(|s: Severity| severity_key(s))))
    + optional_clause(f.sources@.len() > 0, in_clause("source"@, strings_view(f.sources@)))
    + optional_clause(f.impact_min is Some, "impact_score >= "@ + decimal(f.impact_min->0 as nat))
    + optional_clause(f.impact_max is Some, "impact_score <= "@ + decimal(f.impact_max->0 as nat))
    + optional_clause(f.occurred_after is Some,
        "occurred_at_unix >= "@ + signed_decimal(f.occurred_after->0.secs as int))
    + optional_clause(f.occurred_before is Some,
        "occurred_at_unix <= "@ + signed_decimal(f.occurred_before->0.secs as int))
}

/// Render `attr IN ["a", "b"]` with quoted, escaped values.
pub fn meili_in(attr: &str, values: &Vec<String>) -> (s: String)
    ensures s@ == in_clause(attr@, strings_view(values@)),
{
    let mut rendered: Vec<String> = Vec::new();
    let mut i: usize = 0;
    while i < values.len()
        invariant
            i <= values@.len(),
            strings_view(rendered@) == strings_view(values@.subrange(0, i as int)).map_values(|v: Seq<char>| quoted(v)),
        decreases values@.len() - i,
    {
        let mut q = String::new();
        push_char(&mut q, '"');
        let e = escape_in(values[i].as_str());
        push_str(&mut q, e.as_str());
        push_char(&mut q, '"');
        let ghost before = rendered@;
        rendered.push(q);
        proof {
            assert(q@ =~= quoted(values@[i as int]@));
            assert(values@.subrange(0, i + 1) =~= values@.subrange(0, i as int).push(values@[i as int]));
            assert(strings_view(rendered@) =~= strings_view(before).push(q@));
            assert(strings_view(values@.subrange(0, i + 1)).map_values(|v: Seq<char>| quoted(v))
                =~= strings_view(values@.subrange(0, i as int)).map_values(|v: Seq<char>| quoted(v)).push(q@));
        }
        i = i + 1;
    }
    assert(values@.subrange(0, values@.len() as int) =~= values@);
    let body = join(&rendered, ", ");
    let mut s = String::new();
    push_str(&mut s, attr);
    push_str(&mut s, " IN [");
    push_str(&mut s, body.as_str());
    push_str(&mut s, "]");
    assert(s@ =~= in_clause(attr@, strings_view(values@)));
    s
}

fn push_clause(clauses: &mut Vec<String>, c: String)
    ensures strings_view(final(clauses)@) == strings_view(old(clauses)@).push(c@),
{
    let ghost before = clauses@;
    clauses.push(c);
    assert(strings_view(clauses@) =~= strings_view(before).push(c@));
}

fn category_strings(cs: &Vec<Category>) -> (out: Vec<String>)
    ensures strings_view(out@) == cs@.map_values(|c: Category| category_key(c)),
{
    let mut out: Vec<String> = Vec::new();
    let mut i: usize = 0;
    while i < cs.len()
        invariant
            i <= cs@.len(),
            strings_view(out@) == cs@.subrange(0, i as int).map_values(|c: Category| category_key(c)),
        decreases cs@.len() - i,
    {
        let ghost before = out@;
        out.push(category_str(cs[i]).to_owned());
        proof {
            assert(strings_view(out@) =~= strings_view(before).push(category_key(cs@[i as int])));
            assert(cs@.subrange(0, i + 1).map_values(|c: Category| category_key(c))
                =~= cs@.subrange(0, i as int).map_values(|c: Category| category_key(c)).push(category_key(cs@[i as int])));
        }
        i = i + 1;
    }
    assert(cs@.subrange(0, cs@.len() as int) =~= cs@);
    out
}

fn severity_strings(ss: &Vec<Severity>) -> (out: Vec<String>)
    ensures strings_view(out@) == ss@.map_values(|s: Severity| severity_key(s)),
{
    let mut out: Vec<String> = Vec::new();
    let mut i: usize = 0;
    while i < ss.len()
        invariant
            i <= ss@.len(),
            strings_view(out@) == ss@.subrange(0, i as int).map_values(|s: Severity| severity_key(s)),
        decreases ss@.len() - i,
    {
        let ghost before = out@;
        out.push(severity_str(ss[i]).to_owned());
        proof {
            assert(strings_view(out@) =~= strings_view(before).push(severity_key(ss@[i as int])));
            assert(ss@.subrange(0, i + 1).map_values(|s: Severity| severity_key(s))
                =~= ss@.subrange(0, i as int).map_values(|s: Severity| severity_key(s)).push(severity_key(ss@[i as int])));
        }
        i = i + 1;
    }
    assert(ss@.subrange(0, ss@.len() as int) =~= ss@);
    out
}

fn prefixed_number(prefix: &str, n: u64) -> (s: String)
    ensures s@ == prefix@ + decimal(n as nat),
{
    let mut s = String::new();
    push_str(&mut s, prefix);
    push_decimal(&mut s, n);
    assert(s@ =~= prefix@ + decimal(n as nat));
    s
}

fn prefixed_signed(prefix: &str, n: i64) -> (s: String)
    ensures s@ == prefix@ + signed_decimal(n as int),
{
    let mut s = String::new();
    push_str(&mut s, prefix);
    push_signed_decimal(&mut s, n);
    assert(s@ =~= prefix@ + signed_decimal(n as int));
    s
}

fn tenant_clause_text(tenant: u128) -> (s: String)
    ensures s@ == tenant_clause(tenant),
{
    let mut s = String::new();
    push_str(&mut s, "(tenant_id = \"");
    let t = uuid_string(tenant);
    push_str(&mut s, t.as_str());
    push_str(&mut s, "\" OR tenant_id = \"");
    let sys = uuid_string(SYSTEM_TENANT_ID);
    push_str(&mut s, sys.as_str());
    push_str(&mut s, "\")");
    assert(s@ =~= tenant_clause(tenant));
    s
}

fn dimension_clauses(f: &SearchFilters, clauses: &mut Vec<String>)
    ensures strings_view(final(clauses)@) == strings_view(old(clauses)@)
        + optional_clause(f.categories@.len() > 0,
            in_clause("category"@, f.categories@.map_values(|c: Category| category_key(c))))
        + optional_clause(f.severities@.len() > 0,
            in_clause("severity"@, f.severities@.map_values(|s: Severity| severity_key(s))))
        + optional_clause(f.sources@.len() > 0, in_clause("source"@, strings_view(f.sources@))),
{
    let ghost s0 = strings_view(clauses@);
    if f.categories.len() > 0 {
        push_clause(clauses, meili_in("category", &category_strings(&f.categories)));
    }
    let ghost s1 = strings_view(clauses@);
    assert(s1 =~= s0 + optional_clause(f.categories@.len() > 0,
        in_clause("category"@, f.categories@.map_values(|c: Category| category_key(c)))));
    if f.severities.len() > 0 {
        push_clause(clauses, meili_in("severity", &severity_strings(&f.severities)));
    }
    let ghost s2 = strings_view(clauses@);
    assert(s2 =~= s1 + optional_clause(f.severities@.len() > 0,
        in_clause("severity"@, f.severities@.map_values(|s: Severity| severity_key(s)))));
    if f.sources.len() > 0 {
        push_clause(clauses, meili_in("source", &f.sources));
    }
    let ghost s3 = strings_view(clauses@);
    assert(s3 =~= s2 + optional_clause(f.sources@.len() > 0, in_clause("source"@, strings_view(f.sources@))));
}

fn range_clauses(f: &SearchFilters, clauses: &mut Vec<String>)
    ensures strings_view(final(clauses)@) == strings_view(old(clauses)@)
        + optional_clause(f.impact_min is Some, "impact_score >= "@ + decimal(f.impact_min->0 as nat))
        + optional_clause(f.impact_max is Some, "impact_score <= "@ + decimal(f.impact_max->0 as nat))
        + optional_clause(f.occurred_after is Some,
            "occurred_at_unix >= "@ + signed_decimal(f.occurred_after->0.secs as int))
        + optional_clause(f.occurred_before is Some,
            "occurred_at_unix <= "@ + signed_decimal(f.occurred_before->0.secs as int)),
{
    let ghost s0 = strings_view(clauses@);
    if let Some(v) = f.impact_min {
        push_clause(clauses, prefixed_number("impact_score >= ", v as u64));
    }
    let ghost s1 = strings_view(clauses@);
    assert(s1 =~= s0 + optional_clause(f.impact_min is Some, "impact_score >= "@ + decimal(f.impact_min->0 as nat)));
    if let Some(v) = f.impact_max {
        push_clause(clauses, prefixed_number("impact_score <= ", v as u64));
    }
    let ghost s2 = strings_view(clauses@);
    assert(s2 =~= s1 + optional_clause(f.impact_max is Some, "impact_score <= "@ + decimal(f.impact_max->0 as nat)));
    if let Some(t) = f.occurred_after {
        push_clause(clauses, prefixed_signed("occurred_at_unix >= ", t.secs));
    }
    let ghost s3 = strings_view(clauses@);
    assert(s3 =~= s2 + optional_clause(f.occurred_after is Some,
        "occurred_at_unix >= "@ + signed_decimal(f.occurred_after->0.secs as int)));
    if let Some(t) = f.occurred_before {
        push_clause(clauses, prefixed_signed("occurred_at_unix <= ", t.secs));
    }
    let ghost s4 = strings_view(clauses@);
    assert(s4 =~= s3 + optional_clause(f.occurred_before is Some,
        "occurred_at_unix <= "@ + signed_decimal(f.occurred_before->0.secs as int)));
}

impl SearchFilters {
    /// The Meilisearch filter expression: the clauses joined with ` AND `,
    /// scoped to the caller's tenant plus the shared system tenant.
    pub fn to_expression(&self, tenant_id: u128) -> (s: String)
        ensures s@ == joined(expression_clauses(*self, tenant_id), " AND "@),
    {
        let mut clauses: Vec<String> = Vec::new();
        push_clause(&mut clauses, tenant_clause_text(tenant_id));
        assert(strings_view(clauses@) =~= seq![tenant_clause(tenant_id)]);
        dimension_clauses(self, &mut clauses);
        range_clauses(self, &mut clauses);
        join(&clauses, " AND ")
    }
}

/// Sort order for search results.
#[derive(Debug, Clone, Copy, PartialEq, Eq, Structural)]
pub enum SearchSort {
    /// Default relevance ranking (keyword match quality).
    Relevance,
    /// Most recent first.
    Recent,
    /// Highest impact first.
    ImpactDesc,
}

impl Default for SearchSort {
    fn default() -> (r: Self)
        ensures r == SearchSort::Relevance,
    {
        SearchSort::Relevance
    }
}

/// The sort rules of an order.
pub open spec fn sort_rules(s: SearchSort) -> Seq<Seq<char>> {
    match s {
        SearchSort::Relevance => Seq::empty(),
        SearchSort::Recent => seq!["occurred_at:desc"@],
        SearchSort::ImpactDesc => seq!["impact_score:desc"@],
    }
}

impl SearchSort {
    /// Meilisearch sort rules for this order (none for relevance).
    pub fn rules(self) -> (r: Vec<&'static str>)
        ensures r@.map_values(|x: &'static str| x@) == sort_rules(self),
    {
        let r: Vec<&'static str> = match self {
            SearchSort::Relevance => Vec::new(),
            SearchSort::Recent => vec!["occurred_at:desc"],
            SearchSort::ImpactDesc => vec!["impact_score:desc"],
        };
        assert(r@.map_values(|x: &'static str| x@) =~= sort_rules(self));
        r
    }
}

// ---------------------------------------------------------------------------
// Documents and hits
// ---------------------------------------------------------------------------

/// Document stored in the index for keyword/fuzzy search.
pub struct EventDocument {
    /// Event id text (primary key).
    pub id: String,
    /// Owning tenant id text — filterable for isolation.
    pub tenant_id: String,
    /// Source key.
    pub source: String,
    /// Optional title.
    pub title: Option<String>,
    /// Optional summary.
    pub summary: Option<String>,
    /// Optional place name.
    pub place_name: Option<String>,
    /// Searchable tags.
    pub tags: Vec<String>,
    /// Category value.
    pub category: String,
    /// Severity value.
    pub severity: String,
    /// Impact score 0–100.
    pub impact_score: u8,
    /// Occurred-at timestamp (for display and sorting).
    pub occurred_at: Instant,
    /// Occurred-at as epoch seconds (numeric, range-filterable).
    pub occurred_at_unix: i64,
    /// Latitude.
    pub lat: Float64,
    /// Longitude.
    pub lon: Float64,
}

/// One search hit returned to clients.
pub struct EventSearchHit {
    /// Event id.
    pub id: u128,
    /// Tenant id.
    pub tenant_id: u128,
    /// Source key.
    pub source: String,
    /// Optional title.
    pub title: Option<String>,
    /// Optional summary.
    pub summary: Option<String>,
    /// Optional place name.
    pub place_name: Option<String>,
    /// Category.
    pub category: Category,
    /// Severity.
    pub severity: Severity,
    /// Impact score.
    pub impact_score: u8,
    /// When the event occurred.
    pub occurred_at: Instant,
    /// Location latitude.
    pub lat: Float64,
    /// Location longitude.
    pub lon: Float64,
}

/// Tenant-scoped search response.
pub struct SearchResults {
    /// Original query string.
    pub query: String,
    /// Matching documents.
    pub hits: Vec<EventSearchHit>,
    /// Requested page size.
    pub limit: usize,
    /// Requested offset.
    pub offset: usize,
    /// Total hits estimate from the index.
    pub estimated_total: usize,
}

/// The view of an optional string.
pub open spec fn opt_seq(o: Option<String>) -> Option<Seq<char>> {
    match o {
        Some(s) => Some(s@),
        None => None,
    }
}

fn clone_opt(o: &Option<String>) -> (r: Option<String>)
    ensures opt_seq(r) == opt_seq(*o),
{
    match o {
        Some(s) => Some(s.clone()),
        None => None,
    }
}

/// Whether `d` is the index document of `e`.
pub open spec fn document_of(d: EventDocument, e: Event) -> bool {
    &&& d.id@ == hyphenated(e.id)
    &&& d.tenant_id@ == hyphenated(e.tenant_id)
    &&& d.source@ == e.source@
    &&& opt_seq(d.title) == opt_seq(e.title)
    &&& opt_seq(d.summary) == opt_seq(e.summary)
    &&& opt_seq(d.place_name) == opt_seq(e.place_name)
    &&& strings_view(d.tags@) == strings_view(e.tags@)
    &&& d.category@ == category_key(e.category)
    &&& d.severity@ == severity_key(e.severity)
    &&& d.impact_score == e.impact_score
    &&& d.occurred_at == e.occurred_at
    &&& d.occurred_at_unix == e.occurred_at.secs
    &&& d.lat == e.location.lat
    &&& d.lon == e.location.lon
}

/// Whether a document decodes into a hit.
pub open spec fn document_decodes(d: EventDocument) -> bool {
    uuid_parse(d.id@) is Some && uuid_parse(d.tenant_id@) is Some
        && category_named(d.category@) is Some && severity_named(d.severity@) is Some
}

/// Whether `h` is the hit decoded from `d`.
pub open spec fn hit_of(h: EventSearchHit, d: EventDocument) -> bool {
    &&& Some(h.id) == uuid_parse(d.id@)
    &&& Some(h.tenant_id) == uuid_parse(d.tenant_id@)
    &&& h.source@ == d.source@
    &&& opt_seq(h.title) == opt_seq(d.title)
    &&& opt_seq(h.summary) == opt_seq(d.summary)
    &&& opt_seq(h.place_name) == opt_seq(d.place_name)
    &&& Some(h.category) == category_named(d.category@)
    &&& Some(h.severity) == severity_named(d.severity@)
    &&& h.impact_score == d.impact_score
    &&& h.occurred_at == d.occurred_at
    &&& h.lat == d.lat
    &&& h.lon == d.lon
}

impl EventDocument {
    /// The index document of an event.
    pub fn from_event(event: &Event) -> (d: EventDocument)
        ensures document_of(d, *event),
    {
        EventDocument {
            id: uuid_string(event.id),
            tenant_id: uuid_string(event.tenant_id),
            source: event.source.clone(),
            title: clone_opt(&event.title),
            summary: clone_opt(&event.summary),
            place_name: clone_opt(&event.place_name),
            tags: clone_strings(&event.tags),
            category: category_str(event.category).to_owned(),
            severity: severity_str(event.severity).to_owned(),
            impact_score: event.impact_score,
            occurred_at: event.occurred_at,
            occurred_at_unix: event.occurred_at.secs,
            lat: event.location.lat,
            lon: event.location.lon,
        }
    }
}

/// The message of the first field of an index document that does not
/// decode (id, tenant id, category, severity).
pub open spec fn document_problem(d: EventDocument) -> Option<Seq<char>> {
    if uuid_parse(d.id@) is None {
        Some("invalid event id in search index"@)
    } else if uuid_parse(d.tenant_id@) is None {
        Some("invalid tenant id in search index"@)
    } else if category_named(d.category@) is None {
        Some("unknown category in index: "@ + d.category@)
    } else if severity_named(d.severity@) is None {
        Some("unknown severity in index: "@ + d.severity@)
    } else {
        None
    }
}

/// Decode an index document into a search hit. The hit of an event's own
/// document carries that event's identity and indexed fields.
pub fn document_to_search_hit(document: EventDocument) -> (r: Result<EventSearchHit, AppError>)
    ensures
        r is Ok <==> document_decodes(document),
        r matches Ok(h) ==> hit_of(h, document),
        r matches Err(e) ==> (document_problem(document) matches Some(m)
            && e matches AppError::Internal(x) && x@ == m),
        forall|e: Event| document_of(document, e) ==> (r matches Ok(h) && h.id == e.id
            && h.tenant_id == e.tenant_id && h.category == e.category && h.severity == e.severity
            && h.source@ == e.source@ && h.impact_score == e.impact_score
            && h.occurred_at == e.occurred_at && h.lat == e.location.lat && h.lon == e.location.lon),
{
    let ghost d = document;
    proof {
        assert forall|e: Event| document_of(d, e) implies
            category_named(d.category@) == Some(e.category) && severity_named(d.severity@) == Some(e.severity) by {
            category_keys_round_trip(e.category, d.category@);
            severity_keys_round_trip(e.severity, d.severity@);
        }
    }
    let id = match parse_uuid(document.id.as_str()) {
        Some(id) => id,
        None => { return Err(AppError::internal("invalid event id in search index")); },
    };
    let tenant_id = match parse_uuid(document.tenant_id.as_str()) {
        Some(t) => t,
        None => { return Err(AppError::internal("invalid tenant id in search index")); },
    };
    let category = parse_category(document.category.as_str())?;
    let severity = parse_severity(document.severity.as_str())?;
    Ok(EventSearchHit {
        id,
        tenant_id,
        source: document.source,
        title: document.title,
        summary: document.summary,
        place_name: document.place_name,
        category,
        severity,
        impact_score: document.impact_score,
        occurred_at: document.occurred_at,
        lat: document.lat,
        lon: document.lon,
    })
}

/// The documents of a result page that decode into hits, in index order.
pub open spec fn decodable(docs: Seq<EventDocument>) -> Seq<EventDocument> {
    docs.filter(|d: EventDocument| document_decodes(d))
}

/// A search answer from the index's raw result page: hits are the documents
/// that decode, in index order (undecodable ones are dropped), and an unknown
/// total counts as zero.
pub fn collect_search_results(
    query: &str,
    documents: Vec<EventDocument>,
    limit: usize,
    offset: usize,
    estimated_total: Option<usize>,
) -> (r: SearchResults)
    ensures
        r.query@ == query@,
        r.limit == limit,
        r.offset == offset,
        r.estimated_total == match estimated_total { Some(n) => n, None => 0 },
        r.hits@.len() == decodable(documents@).len(),
        forall|i: int| 0 <= i < r.hits@.len() ==> hit_of(#[trigger] r.hits@[i], decodable(documents@)[i]),
{
    let ghost all = documents@;
    let mut rest = documents;
    let mut hits: Vec<EventSearchHit> = Vec::new();
    let ghost mut taken: int = 0;
    while rest.len() > 0
        invariant
            0 <= taken <= all.len(),
            rest@ == all.skip(taken),
            hits@.len() == decodable(all.take(taken)).len(),
            forall|i: int| 0 <= i < hits@.len() ==> hit_of(#[trigger] hits@[i], decodable(all.take(taken))[i]),
        decreases rest@.len(),
    {
        let doc = rest.remove(0);
        let ghost d = doc;
        proof {
            assert(d == all[taken]);
            assert(all.take(taken + 1).drop_last() =~= all.take(taken));
            assert(all.take(taken + 1).last() == all[taken]);
            reveal(Seq::filter);
        }
        match document_to_search_hit(doc) {
            Ok(hit) => {
                hits.push(hit);
            },
            Err(_) => {},
        }
        proof {
            taken = taken + 1;
            assert(rest@ =~= all.skip(taken));
        }
    }
    proof {
        assert(all.take(taken) =~= all);
    }
    SearchResults {
        query: query.to_owned(),
        hits,
        limit,
        offset,
        estimated_total: match estimated_total { Some(n) => n, None => 0 },
    }
}

/// Attributes the events index filters on.
pub fn filterable_attributes() -> (v: Vec<&'static str>)
    ensures v@.map_values(|a: &'static str| a@) == seq!["tenant_id"@, "category"@, "severity"@, "impact_score"@, "source"@, "occurred_at_unix"@],
{
    let v: Vec<&'static str> = vec!["tenant_id", "category", "severity", "impact_score", "source", "occurred_at_unix"];
    assert(v@.map_values(|a: &'static str| a@) =~= seq!["tenant_id"@, "category"@, "severity"@, "impact_score"@, "source"@, "occurred_at_unix"@]);
    v
}

/// Attributes the events index sorts on.
pub fn sortable_attributes() -> (v: Vec<&'static str>)
    ensures v@.map_values(|a: &'static str| a@) == seq!["occurred_at"@, "impact_score"@],
{
    let v: Vec<&'static str> = vec!["occurred_at", "impact_score"];
    assert(v@.map_values(|a: &'static str| a@) =~= seq!["occurred_at"@, "impact_score"@]);
    v
}

/// Attributes the events index searches, in ranking order.
pub fn searchable_attributes() -> (v: Vec<&'static str>)
    ensures v@.map_values(|a: &'static str| a@) == seq!["title"@, "summary"@, "place_name"@, "tags"@, "source"@, "category"@],
{
    let v: Vec<&'static str> = vec!["title", "summary", "place_name", "tags", "source", "category"];
    assert(v@.map_values(|a: &'static str| a@) =~= seq!["title"@, "summary"@, "place_name"@, "tags"@, "source"@, "category"@]);
    v
}

proof fn joined_starts_with_first(parts: Seq<Seq<char>>, sep: Seq<char>)
    requires parts.len() >= 1,
    ensures
        parts[0].len() <= joined(parts, sep).len(),
        joined(parts, sep).subrange(0, parts[0].len() as int) == parts[0],
    decreases parts.len(),
{
    if parts.len() > 1 {
        joined_starts_with_first(parts.drop_last(), sep);
        let j = joined(parts.drop_last(), sep);
        assert((j + sep + parts.last()).subrange(0, parts[0].len() as int) =~= j.subrange(0, parts[0].len() as int));
    }
}

/// Every search is tenant scoped: whatever the filters, the expression sent to
/// the index starts with the clause restricting hits to the caller's tenant
/// and the shared public-feed tenant, and every other clause is AND-ed to it.
pub proof fn search_is_tenant_scoped(f: SearchFilters, tenant: u128)
    ensures ({
        let e = joined(expression_clauses(f, tenant), " AND "@);
        &&& tenant_clause(tenant).len() <= e.len()
        &&& e.subrange(0, tenant_clause(tenant).len() as int) == tenant_clause(tenant)
    }),
{
    joined_starts_with_first(expression_clauses(f, tenant), " AND "@);
}

/// How many fields of a search filter are set.
pub open spec fn set_filter_fields(f: SearchFilters) -> int {
    (if f.categories@.len() > 0 { 1int } else { 0int })
    + (if f.severities@.len() > 0 { 1int } else { 0int })
    + (if f.sources@.len() > 0 { 1int } else { 0int })
    + (if f.impact_min is Some { 1int } else { 0int })
    + (if f.impact_max is Some { 1int } else { 0int })
    + (if f.occurred_after is Some { 1int } else { 0int })
    + (if f.occurred_before is Some { 1int } else { 0int })
}

proof fn concat_keeps_members(a: Seq<Seq<char>>, b: Seq<Seq<char>>)
    ensures
        forall|x: Seq<char>| a.contains(x) ==> #[trigger] (a + b).contains(x),
        forall|x: Seq<char>| b.contains(x) ==> #[trigger] (a + b).contains(x),
{
    assert forall|x: Seq<char>| a.contains(x) implies #[trigger] (a + b).contains(x) by {
        let i = choose|i: int| 0 <= i < a.len() && a[i] == x;
        assert((a + b)[i] == x);
    }
    assert forall|x: Seq<char>| b.contains(x) implies #[trigger] (a + b).contains(x) by {
        let i = choose|i: int| 0 <= i < b.len() && b[i] == x;
        assert((a + b)[a.len() + i] == x);
    }
}

/// The search filter is the tenant clause AND one clause per set filter
/// field, and nothing else: every category, severity and source restriction
/// is an `IN` list of its values, the impact bounds compare `impact_score`,
/// and `occurred_after` / `occurred_before` bound `occurred_at_unix` from
/// below / above by their epoch seconds. The expression that `to_expression`
/// returns joins these clauses with ` AND `.
pub proof fn search_clauses_follow_filters(f: SearchFilters, tenant: u128)
    ensures
        expression_clauses(f, tenant)[0] == tenant_clause(tenant),
        expression_clauses(f, tenant).len() == 1 + set_filter_fields(f),
        f.categories@.len() > 0 ==> expression_clauses(f, tenant).contains(
            in_clause("category"@, f.categories@.map_values(|c: Category| category_key(c)))),
        f.severities@.len() > 0 ==> expression_clauses(f, tenant).contains(
            in_clause("severity"@, f.severities@.map_values(|s: Severity| severity_key(s)))),
        f.sources@.len() > 0 ==> expression_clauses(f, tenant).contains(in_clause("source"@, strings_view(f.sources@))),
        f.impact_min is Some ==> expression_clauses(f, tenant).contains(
            "impact_score >= "@ + decimal(f.impact_min->0 as nat)),
        f.impact_max is Some ==> expression_clauses(f, tenant).contains(
            "impact_score <= "@ + decimal(f.impact_max->0 as nat)),
        f.occurred_after is Some ==> expression_clauses(f, tenant).contains(
            "occurred_at_unix >= "@ + signed_decimal(f.occurred_after->0.secs as int)),
        f.occurred_before is Some ==> expression_clauses(f, tenant).contains(
            "occurred_at_unix <= "@ + signed_decimal(f.occurred_before->0.secs as int)),
{
    let t = seq![tenant_clause(tenant)];
    let x1 = in_clause("category"@, f.categories@.map_values(|c: Category| category_key(c)));
    let x2 = in_clause("severity"@, f.severities@.map_values(|s: Severity| severity_key(s)));
    let x3 = in_clause("source"@, strings_view(f.sources@));
    let x4 = "impact_score >= "@ + decimal(f.impact_min->0 as nat);
    let x5 = "impact_score <= "@ + decimal(f.impact_max->0 as nat);
    let x6 = "occurred_at_unix >= "@ + signed_decimal(f.occurred_after->0.secs as int);
    let x7 = "occurred_at_unix <= "@ + signed_decimal(f.occurred_before->0.secs as int);
    let o1 = optional_clause(f.categories@.len() > 0, x1);
    let o2 = optional_clause(f.severities@.len() > 0, x2);
    let o3 = optional_clause(f.sources@.len() > 0, x3);
    let o4 = optional_clause(f.impact_min is Some, x4);
    let o5 = optional_clause(f.impact_max is Some, x5);
    let o6 = optional_clause(f.occurred_after is Some, x6);
    let o7 = optional_clause(f.occurred_before is Some, x7);
    let p1 = t + o1;
    let p2 = p1 + o2;
    let p3 = p2 + o3;
    let p4 = p3 + o4;
    let p5 = p4 + o5;
    let p6 = p5 + o6;
    let p7 = p6 + o7;
    assert(expression_clauses(f, tenant) == p7);
    assert(p1[0] == t[0]);
    assert(p2[0] == p1[0]);
    assert(p3[0] == p2[0]);
    assert(p4[0] == p3[0]);
    assert(p5[0] == p4[0]);
    assert(p6[0] == p5[0]);
    assert(p7[0] == p6[0]);
    concat_keeps_members(t, o1);
    concat_keeps_members(p1, o2);
    concat_keeps_members(p2, o3);
    concat_keeps_members(p3, o4);
    concat_keeps_members(p4, o5);
    concat_keeps_members(p5, o6);
    concat_keeps_members(p6, o7);
    assert(o1.len() > 0 ==> o1[0] == x1);
    assert(o2.len() > 0 ==> o2[0] == x2);
    assert(o3.len() > 0 ==> o3[0] == x3);
    assert(o4.len() > 0 ==> o4[0] == x4);
    assert(o5.len() > 0 ==> o5[0] == x5);
    assert(o6.len() > 0 ==> o6[0] == x6);
    assert(o7.len() > 0 ==> o7[0] == x7);
}

} // verus!
