//! Query-string rules of the event list, map and search endpoints: impact and
//! magnitude ranges, comma-separated dimension lists, sort keys, the viewport
//! box, paging bounds, and the filters they assemble into.

use vstd::prelude::*;
use crate::error::AppError;
use crate::event_store::{message_with, parse_category, parse_severity, EventBBox, EventListFilter,
    EventSort};
use crate::events::{Category, Severity, category_named, severity_named};
use crate::numbers::{Float64, Instant, float_gt};
use crate::search::{SearchFilters, SearchSort, sort_rules};
use crate::text::{split_csv, csv_tokens, strings_view, trim, trimmed, str_eq};

verus! {

/// Default page size of the event list.
pub const LIST_DEFAULT_LIMIT: i64 = 50;
/// Largest page size of the event list.
pub const LIST_MAX_LIMIT: i64 = 200;
/// Largest (and default) page size of the globe's map points.
pub const MAP_MAX_LIMIT: i64 = 100000;
/// Default page size of a search.
pub const SEARCH_DEFAULT_LIMIT: usize = 20;
/// Largest page size of a search.
pub const SEARCH_MAX_LIMIT: usize = 100;

// ---------------------------------------------------------------------------
// Impact and magnitude
// ---------------------------------------------------------------------------

/// Bound an impact score to 0–100, naming the offending field on error.
pub fn parse_impact(value: Option<i64>, field: &str) -> (r: Result<Option<u8>, AppError>)
    ensures
        value is None ==> r == Ok::<Option<u8>, AppError>(None),
        value matches Some(v) ==> (0 <= v <= 100 ==> r == Ok::<Option<u8>, AppError>(Some(v as u8))),
        value matches Some(v) ==> (!(0 <= v <= 100) ==> (r matches Err(e)
            && e matches AppError::BadRequest(m) && m@ == field@ + " must be between 0 and 100"@)),
{
    match value {
        None => Ok(None),
        Some(score) => {
            if 0 <= score && score <= 100 {
                Ok(Some(score as u8))
            } else {
                Err(AppError::BadRequest(message_with(field, " must be between 0 and 100")))
            }
        },
    }
}

/// Whether an impact range is inverted.
pub open spec fn impact_inverted(min: Option<u8>, max: Option<u8>) -> bool {
    match (min, max) {
        (Some(a), Some(b)) => a > b,
        _ => false,
    }
}

/// Whether an optional score is absent or within 0–100.
pub open spec fn score_in_range(v: Option<i64>) -> bool {
    match v { Some(x) => 0 <= x <= 100, None => true }
}

/// An optional score as a byte.
pub open spec fn score_of(v: Option<i64>) -> Option<u8> {
    match v { Some(x) => Some(x as u8), None => None }
}

/// The impact range of a query: `impact_min` (or its older alias
/// `min_impact` when absent) and `impact_max`, each 0–100, min not above max.
pub fn parse_impact_range(
    impact_min: Option<i64>,
    impact_max: Option<i64>,
    min_impact: Option<i64>,
) -> (r: Result<(Option<u8>, Option<u8>), AppError>)
    ensures ({
        let lo = if impact_min is Some { impact_min } else { min_impact };
        &&& !score_in_range(lo) ==> (r matches Err(e) && e matches AppError::BadRequest(m)
            && m@ == "impact_min must be between 0 and 100"@)
        &&& score_in_range(lo) && !score_in_range(impact_max) ==> (r matches Err(e)
            && e matches AppError::BadRequest(m) && m@ == "impact_max must be between 0 and 100"@)
        &&& score_in_range(lo) && score_in_range(impact_max)
            && impact_inverted(score_of(lo), score_of(impact_max))
            ==> (r matches Err(e) && e matches AppError::BadRequest(m)
            && m@ == "impact_min must be <= impact_max"@)
        &&& score_in_range(lo) && score_in_range(impact_max)
            && !impact_inverted(score_of(lo), score_of(impact_max))
            ==> r == Ok::<(Option<u8>, Option<u8>), AppError>((score_of(lo), score_of(impact_max)))
    }),
{
    proof {
        reveal_strlit("impact_min");
        reveal_strlit("impact_max");
        reveal_strlit(" must be between 0 and 100");
        reveal_strlit("impact_min must be between 0 and 100");
        reveal_strlit("impact_max must be between 0 and 100");
        assert("impact_min"@ + " must be between 0 and 100"@ =~= "impact_min must be between 0 and 100"@);
        assert("impact_max"@ + " must be between 0 and 100"@ =~= "impact_max must be between 0 and 100"@);
    }
    let lo = match impact_min {
        Some(v) => Some(v),
        None => min_impact,
    };
    let min = match parse_impact(lo, "impact_min") {
        Ok(v) => v,
        Err(e) => return Err(e),
    };
    let max = match parse_impact(impact_max, "impact_max") {
        Ok(v) => v,
        Err(e) => return Err(e),
    };
    match (min, max) {
        (Some(a), Some(b)) => {
            if a > b {
                return Err(AppError::bad_request("impact_min must be <= impact_max"));
            }
        },
        _ => {},
    }
    Ok((min, max))
}

/// Validate a magnitude range: min must not exceed max when both are given.
pub fn parse_magnitude_range(min: Option<Float64>, max: Option<Float64>)
    -> (r: Result<(Option<Float64>, Option<Float64>), AppError>)
    ensures
        (min matches Some(a) && max matches Some(b) && float_gt(a, b)) ==> (r matches Err(e)
            && e matches AppError::BadRequest(m) && m@ == "min_magnitude must be <= max_magnitude"@),
        !(min matches Some(a) && max matches Some(b) && float_gt(a, b))
            ==> r == Ok::<(Option<Float64>, Option<Float64>), AppError>((min, max)),
{
    match (min, max) {
        (Some(a), Some(b)) => {
            if a.gt(&b) {
                return Err(AppError::bad_request("min_magnitude must be <= max_magnitude"));
            }
        },
        _ => {},
    }
    Ok((min, max))
}

// ---------------------------------------------------------------------------
// Comma-separated dimensions
// ---------------------------------------------------------------------------

/// `i` is the first token that names no category.
pub open spec fn first_unknown_category(tokens: Seq<Seq<char>>, i: int) -> bool {
    &&& 0 <= i < tokens.len()
    &&& category_named(tokens[i]) is None
    &&& forall|j: int| 0 <= j < i ==> (#[trigger] category_named(tokens[j])) is Some
}

/// `i` is the first token that names no severity.
pub open spec fn first_unknown_severity(tokens: Seq<Seq<char>>, i: int) -> bool {
    &&& 0 <= i < tokens.len()
    &&& severity_named(tokens[i]) is None
    &&& forall|j: int| 0 <= j < i ==> (#[trigger] severity_named(tokens[j])) is Some
}

/// The tokens of an optional comma-separated list (none when absent).
pub open spec fn list_tokens(raw: Option<&str>) -> Seq<Seq<char>> {
    match raw {
        Some(s) => csv_tokens(s@),
        None => Seq::empty(),
    }
}

fn tokens_of(raw: Option<&str>) -> (out: Vec<String>)
    ensures strings_view(out@) == list_tokens(raw),
{
    match raw {
        Some(s) => split_csv(s),
        None => {
            let out: Vec<String> = Vec::new();
            assert(strings_view(out@) =~= Seq::<Seq<char>>::empty());
            out
        },
    }
}

/// Parse a comma-separated category list; blank or absent means no constraint.
pub fn parse_categories(raw: Option<&str>) -> (r: Result<Vec<Category>, AppError>)
    ensures ({
        let t = list_tokens(raw);
        &&& r matches Ok(v) ==> v@.len() == t.len()
            && forall|i: int| 0 <= i < t.len() ==> category_named(t[i]) == Some(#[trigger] v@[i])
        &&& r is Err <==> exists|i: int| first_unknown_category(t, i)
        &&& r matches Err(e) ==> exists|i: int| first_unknown_category(t, i)
            && (e matches AppError::BadRequest(m) && m@ == "unknown category: "@ + t[i])
    }),
{
    let tokens = tokens_of(raw);
    let ghost t = list_tokens(raw);
    let mut out: Vec<Category> = Vec::new();
    let mut i: usize = 0;
    while i < tokens.len()
        invariant
            t == list_tokens(raw),
            strings_view(tokens@) == t,
            i <= tokens@.len(),
            out@.len() == i,
            forall|j: int| 0 <= j < i ==> category_named(t[j]) == Some(#[trigger] out@[j]),
        decreases tokens@.len() - i,
    {
        assert(t.len() == tokens@.len());
        assert(t[i as int] == tokens@[i as int]@);
        match parse_category(tokens[i].as_str()) {
            Ok(c) => {
                out.push(c);
            },
            Err(_) => {
                proof {
                    assert forall|j: int| 0 <= j < i implies (#[trigger] category_named(t[j])) is Some by {
                        assert(category_named(t[j]) == Some(out@[j]));
                    }
                    assert(first_unknown_category(t, i as int));
                }
                let msg = message_with("unknown category: ", tokens[i].as_str());
                let e = AppError::BadRequest(msg);
                proof {
                    assert(e matches AppError::BadRequest(m) && m@ == "unknown category: "@ + t[i as int]);
                    assert(exists|k: int| first_unknown_category(t, k)
                        && (e matches AppError::BadRequest(m) && m@ == "unknown category: "@ + t[k]));
                    assert(first_unknown_category(list_tokens(raw), i as int));
                }
                return Err(e);
            },
        }
        i = i + 1;
    }
    proof {
        assert forall|k: int| !first_unknown_category(t, k) by {
            if 0 <= k < t.len() {
                assert(category_named(t[k]) == Some(out@[k]));
            }
        }
    }
    Ok(out)
}

/// Parse a comma-separated severity list; blank or absent means no constraint.
pub fn parse_severities(raw: Option<&str>) -> (r: Result<Vec<Severity>, AppError>)
    ensures ({
        let t = list_tokens(raw);
        &&& r matches Ok(v) ==> v@.len() == t.len()
            && forall|i: int| 0 <= i < t.len() ==> severity_named(t[i]) == Some(#[trigger] v@[i])
        &&& r is Err <==> exists|i: int| first_unknown_severity(t, i)
        &&& r matches Err(e) ==> exists|i: int| first_unknown_severity(t, i)
            && (e matches AppError::BadRequest(m) && m@ == "unknown severity: "@ + t[i])
    }),
{
    let tokens = tokens_of(raw);
    let ghost t = list_tokens(raw);
    let mut out: Vec<Severity> = Vec::new();
    let mut i: usize = 0;
    while i < tokens.len()
        invariant
            t == list_tokens(raw),
            strings_view(tokens@) == t,
            i <= tokens@.len(),
            out@.len() == i,
            forall|j: int| 0 <= j < i ==> severity_named(t[j]) == Some(#[trigger] out@[j]),
        decreases tokens@.len() - i,
    {
        assert(t.len() == tokens@.len());
        assert(t[i as int] == tokens@[i as int]@);
        match parse_severity(tokens[i].as_str()) {
            Ok(s) => {
                out.push(s);
            },
            Err(_) => {
                proof {
                    assert forall|j: int| 0 <= j < i implies (#[trigger] severity_named(t[j])) is Some by {
                        assert(severity_named(t[j]) == Some(out@[j]));
                    }
                    assert(first_unknown_severity(t, i as int));
                }
                let msg = message_with("unknown severity: ", tokens[i].as_str());
                let e = AppError::BadRequest(msg);
                proof {
                    assert(e matches AppError::BadRequest(m) && m@ == "unknown severity: "@ + t[i as int]);
                    assert(exists|k: int| first_unknown_severity(t, k)
                        && (e matches AppError::BadRequest(m) && m@ == "unknown severity: "@ + t[k]));
                    assert(first_unknown_severity(list_tokens(raw), i as int));
                }
                return Err(e);
            },
        }
        i = i + 1;
    }
    proof {
        assert forall|k: int| !first_unknown_severity(t, k) by {
            if 0 <= k < t.len() {
                assert(severity_named(t[k]) == Some(out@[k]));
            }
        }
    }
    Ok(out)
}

/// Parse a comma-separated source list; blank or absent means no constraint.
pub fn parse_sources(raw: Option<&str>) -> (v: Vec<String>)
    ensures strings_view(v@) == list_tokens(raw),
{
    tokens_of(raw)
}

// ---------------------------------------------------------------------------
// Sort keys
// ---------------------------------------------------------------------------

/// The event sort a (trimmed) key names; blank means the default.
pub open spec fn event_sort_named(key: Seq<char>) -> Option<EventSort> {
    if key == ""@ || key == "recent"@ {
        Some(EventSort::Recent)
    } else if key == "impact_desc"@ {
        Some(EventSort::ImpactDesc)
    } else if key == "magnitude_desc"@ {
        Some(EventSort::MagnitudeDesc)
    } else {
        None
    }
}

/// Parse the event sort order (defaults to most recent first).
pub fn parse_sort(raw: Option<&str>) -> (r: Result<EventSort, AppError>)
    ensures
        raw is None ==> r == Ok::<EventSort, AppError>(EventSort::Recent),
        raw matches Some(s) ==> match event_sort_named(trimmed(s@)) {
            Some(k) => r == Ok::<EventSort, AppError>(k),
            None => r matches Err(e) && e matches AppError::BadRequest(m)
                && m@ == "unknown sort: "@ + trimmed(s@),
        },
{
    match raw {
        None => Ok(EventSort::Recent),
        Some(s) => {
            let key = trim(s);
            if str_eq(key, "") || str_eq(key, "recent") {
                Ok(EventSort::Recent)
            } else if str_eq(key, "impact_desc") {
                Ok(EventSort::ImpactDesc)
            } else if str_eq(key, "magnitude_desc") {
                Ok(EventSort::MagnitudeDesc)
            } else {
                Err(AppError::BadRequest(message_with("unknown sort: ", key)))
            }
        },
    }
}

/// The search sort a (trimmed) key names: blank keeps relevance, and
/// magnitude (not indexed) falls back to relevance.
pub open spec fn search_sort_named(key: Seq<char>) -> Option<SearchSort> {
    if key == ""@ || key == "magnitude_desc"@ {
        Some(SearchSort::Relevance)
    } else if key == "recent"@ {
        Some(SearchSort::Recent)
    } else if key == "impact_desc"@ {
        Some(SearchSort::ImpactDesc)
    } else {
        None
    }
}

/// Parse the search sort order (defaults to relevance).
pub fn parse_search_sort(raw: Option<&str>) -> (r: Result<SearchSort, AppError>)
    ensures
        raw is None ==> r == Ok::<SearchSort, AppError>(SearchSort::Relevance),
        raw matches Some(s) ==> match search_sort_named(trimmed(s@)) {
            Some(k) => r == Ok::<SearchSort, AppError>(k),
            None => r matches Err(e) && e matches AppError::BadRequest(m)
                && m@ == "unknown sort: "@ + trimmed(s@),
        },
{
    match raw {
        None => Ok(SearchSort::Relevance),
        Some(s) => {
            let key = trim(s);
            if str_eq(key, "") || str_eq(key, "magnitude_desc") {
                Ok(SearchSort::Relevance)
            } else if str_eq(key, "recent") {
                Ok(SearchSort::Recent)
            } else if str_eq(key, "impact_desc") {
                Ok(SearchSort::ImpactDesc)
            } else {
                Err(AppError::BadRequest(message_with("unknown sort: ", key)))
            }
        },
    }
}

// ---------------------------------------------------------------------------
// Viewport box and paging
// ---------------------------------------------------------------------------

/// The viewport box: all four edges or none, each minimum not above its
/// maximum.
pub fn parse_bbox(
    min_lon: Option<Float64>,
    min_lat: Option<Float64>,
    max_lon: Option<Float64>,
    max_lat: Option<Float64>,
) -> (r: Result<Option<EventBBox>, AppError>)
    ensures
        match (min_lon, min_lat, max_lon, max_lat) {
            (None, None, None, None) => r == Ok::<Option<EventBBox>, AppError>(None),
            (Some(a), Some(b), Some(c), Some(d)) => if float_gt(a, c) || float_gt(b, d) {
                r matches Err(e) && e matches AppError::BadRequest(m)
                    && m@ == "invalid bbox: min must be <= max"@
            } else {
                r == Ok::<Option<EventBBox>, AppError>(Some(EventBBox {
                    min_lon: a, min_lat: b, max_lon: c, max_lat: d }))
            },
            _ => r matches Err(e) && e matches AppError::BadRequest(m)
                && m@ == "bbox requires min_lon, min_lat, max_lon, and max_lat together"@,
        },
{
    match (min_lon, min_lat, max_lon, max_lat) {
        (None, None, None, None) => Ok(None),
        (Some(a), Some(b), Some(c), Some(d)) => {
            if a.gt(&c) || b.gt(&d) {
                return Err(AppError::bad_request("invalid bbox: min must be <= max"));
            }
            Ok(Some(EventBBox { min_lon: a, min_lat: b, max_lon: c, max_lat: d }))
        },
        _ => Err(AppError::bad_request(
            "bbox requires min_lon, min_lat, max_lon, and max_lat together",
        )),
    }
}

/// `v` clamped into `[lo, hi]`.
pub open spec fn clamped(v: int, lo: int, hi: int) -> int {
    if v < lo { lo } else if v > hi { hi } else { v }
}

/// Page size and offset of the event list: size defaults to 50 and is kept
/// within 1–200; a missing or negative offset is 0.
pub fn list_page(limit: Option<i64>, offset: Option<i64>) -> (page: (i64, i64))
    ensures
        page.0 == clamped(match limit { Some(l) => l as int, None => LIST_DEFAULT_LIMIT as int },
            1, LIST_MAX_LIMIT as int),
        page.1 == match offset { Some(o) => if o < 0 { 0 } else { o as int }, None => 0 },
{
    let l = match limit { Some(l) => l, None => LIST_DEFAULT_LIMIT };
    let l = if l < 1 { 1 } else if l > LIST_MAX_LIMIT { LIST_MAX_LIMIT } else { l };
    let o = match offset { Some(o) => if o < 0 { 0 } else { o }, None => 0 };
    (l, o)
}

/// Page size and offset of the map points: size defaults to and is capped at
/// 100 000 (at least 1); a missing or negative offset is 0.
pub fn map_page(limit: Option<i64>, offset: Option<i64>) -> (page: (i64, i64))
    ensures
        page.0 == clamped(match limit { Some(l) => l as int, None => MAP_MAX_LIMIT as int },
            1, MAP_MAX_LIMIT as int),
        page.1 == match offset { Some(o) => if o < 0 { 0 } else { o as int }, None => 0 },
{
    let l = match limit { Some(l) => l, None => MAP_MAX_LIMIT };
    let l = if l < 1 { 1 } else if l > MAP_MAX_LIMIT { MAP_MAX_LIMIT } else { l };
    let o = match offset { Some(o) => if o < 0 { 0 } else { o }, None => 0 };
    (l, o)
}

/// Page size and offset of a search: size defaults to 20 and is kept within
/// 1–100; the offset defaults to 0.
pub fn search_page(limit: Option<usize>, offset: Option<usize>) -> (page: (usize, usize))
    ensures
        page.0 == clamped(match limit { Some(l) => l as int, None => SEARCH_DEFAULT_LIMIT as int },
            1, SEARCH_MAX_LIMIT as int),
        page.1 == match offset { Some(o) => o, None => 0 },
{
    let l = match limit { Some(l) => l, None => SEARCH_DEFAULT_LIMIT };
    let l = if l < 1 { 1 } else if l > SEARCH_MAX_LIMIT { SEARCH_MAX_LIMIT } else { l };
    let o = match offset { Some(o) => o, None => 0 };
    (l, o)
}

/// The search terms of a query: trimmed, and required.
pub fn search_terms(q: &str) -> (r: Result<&str, AppError>)
    ensures
        trimmed(q@).len() > 0 ==> (r matches Ok(t) && t@ == trimmed(q@)),
        trimmed(q@).len() == 0 ==> (r matches Err(e) && e matches AppError::BadRequest(m)
            && m@ == "query parameter q is required"@),
{
    let t = trim(q);
    if t.is_empty() {
        Err(AppError::bad_request("query parameter q is required"))
    } else {
        Ok(t)
    }
}

// ---------------------------------------------------------------------------
// Assembled requests
// ---------------------------------------------------------------------------

/// Query parameters of the event list and map endpoints.
pub struct ListEventsQuery {
    pub min_lon: Option<Float64>,
    pub min_lat: Option<Float64>,
    pub max_lon: Option<Float64>,
    pub max_lat: Option<Float64>,
    /// Comma-separated categories.
    pub category: Option<String>,
    /// Comma-separated severities.
    pub severity: Option<String>,
    /// Comma-separated source keys.
    pub source: Option<String>,
    pub occurred_after: Option<Instant>,
    pub occurred_before: Option<Instant>,
    pub impact_min: Option<i64>,
    pub impact_max: Option<i64>,
    /// Older alias of `impact_min`, used only when `impact_min` is absent.
    pub min_impact: Option<i64>,
    pub min_magnitude: Option<Float64>,
    pub max_magnitude: Option<Float64>,
    /// `recent` (default), `impact_desc` or `magnitude_desc`.
    pub sort: Option<String>,
    pub limit: Option<i64>,
    pub offset: Option<i64>,
}

/// Query parameters of the search endpoint.
pub struct SearchQuery {
    /// Search terms.
    pub q: String,
    pub category: Option<String>,
    pub severity: Option<String>,
    pub source: Option<String>,
    pub impact_min: Option<i64>,
    pub impact_max: Option<i64>,
    /// Older alias of `impact_min`.
    pub min_impact: Option<i64>,
    pub occurred_after: Option<Instant>,
    pub occurred_before: Option<Instant>,
    /// `recent`, `impact_desc`, or relevance (default; also for `magnitude_desc`).
    pub sort: Option<String>,
    pub limit: Option<usize>,
    pub offset: Option<usize>,
}

/// What a search runs with.
#[derive(Debug)]
pub struct SearchPlan {
    /// Trimmed search terms.
    pub terms: String,
    pub filters: SearchFilters,
    pub sort: SearchSort,
    pub limit: usize,
    pub offset: usize,
}

/// Tokens of an optional owned comma-separated list.
pub open spec fn owned_tokens(raw: Option<String>) -> Seq<Seq<char>> {
    match raw {
        Some(s) => csv_tokens(s@),
        None => Seq::empty(),
    }
}

fn as_str_opt(raw: &Option<String>) -> (r: Option<&str>)
    ensures list_tokens(r) == owned_tokens(*raw),
        match (r, *raw) {
            (Some(a), Some(b)) => a@ == b@,
            (None, None) => true,
            _ => false,
        },
{
    match raw {
        Some(s) => Some(s.as_str()),
        None => None,
    }
}

/// Whether the viewport edges form a valid box (or are all absent).
pub open spec fn bbox_valid(q: ListEventsQuery) -> bool {
    match (q.min_lon, q.min_lat, q.max_lon, q.max_lat) {
        (None, None, None, None) => true,
        (Some(a), Some(b), Some(c), Some(d)) => !float_gt(a, c) && !float_gt(b, d),
        _ => false,
    }
}

/// The viewport box of a valid query.
pub open spec fn bbox_of(q: ListEventsQuery) -> Option<EventBBox> {
    match (q.min_lon, q.min_lat, q.max_lon, q.max_lat) {
        (Some(a), Some(b), Some(c), Some(d)) => Some(EventBBox { min_lon: a, min_lat: b, max_lon: c, max_lat: d }),
        _ => None,
    }
}

/// The effective lower impact bound: `impact_min`, else its alias.
pub open spec fn impact_low(impact_min: Option<i64>, min_impact: Option<i64>) -> Option<i64> {
    if impact_min is Some { impact_min } else { min_impact }
}

/// Whether an impact range is acceptable.
pub open spec fn impact_valid(impact_min: Option<i64>, impact_max: Option<i64>, min_impact: Option<i64>) -> bool {
    let lo = impact_low(impact_min, min_impact);
    score_in_range(lo) && score_in_range(impact_max) && !impact_inverted(score_of(lo), score_of(impact_max))
}

/// Whether a magnitude range is acceptable.
pub open spec fn magnitude_valid(min: Option<Float64>, max: Option<Float64>) -> bool {
    match (min, max) {
        (Some(a), Some(b)) => !float_gt(a, b),
        _ => true,
    }
}

/// Whether every token of a list names a category.
pub open spec fn categories_valid(t: Seq<Seq<char>>) -> bool {
    forall|i: int| 0 <= i < t.len() ==> (#[trigger] category_named(t[i])) is Some
}

/// Whether every token of a list names a severity.
pub open spec fn severities_valid(t: Seq<Seq<char>>) -> bool {
    forall|i: int| 0 <= i < t.len() ==> (#[trigger] severity_named(t[i])) is Some
}

/// The event sort of an optional key (absent: most recent first).
pub open spec fn event_sort_of(raw: Option<String>) -> Option<EventSort> {
    match raw {
        Some(s) => event_sort_named(trimmed(s@)),
        None => Some(EventSort::Recent),
    }
}

/// The search sort of an optional key (absent: relevance).
pub open spec fn search_sort_of(raw: Option<String>) -> Option<SearchSort> {
    match raw {
        Some(s) => search_sort_named(trimmed(s@)),
        None => Some(SearchSort::Relevance),
    }
}

proof fn no_first_unknown_category(t: Seq<Seq<char>>)
    ensures categories_valid(t) <==> !exists|i: int| first_unknown_category(t, i),
{
    if !categories_valid(t) {
        let bad = choose|i: int| 0 <= i < t.len() && (#[trigger] category_named(t[i])) is None;
        first_bad_category(t, bad);
    }
}

proof fn first_bad_category(t: Seq<Seq<char>>, bad: int)
    requires 0 <= bad < t.len(), category_named(t[bad]) is None,
    ensures exists|i: int| first_unknown_category(t, i),
    decreases bad,
{
    if forall|j: int| 0 <= j < bad ==> (#[trigger] category_named(t[j])) is Some {
        assert(first_unknown_category(t, bad));
    } else {
        let earlier = choose|j: int| 0 <= j < bad && (#[trigger] category_named(t[j])) is None;
        first_bad_category(t, earlier);
    }
}

proof fn no_first_unknown_severity(t: Seq<Seq<char>>)
    ensures severities_valid(t) <==> !exists|i: int| first_unknown_severity(t, i),
{
    if !severities_valid(t) {
        let bad = choose|i: int| 0 <= i < t.len() && (#[trigger] severity_named(t[i])) is None;
        first_bad_severity(t, bad);
    }
}

proof fn first_bad_severity(t: Seq<Seq<char>>, bad: int)
    requires 0 <= bad < t.len(), severity_named(t[bad]) is None,
    ensures exists|i: int| first_unknown_severity(t, i),
    decreases bad,
{
    if forall|j: int| 0 <= j < bad ==> (#[trigger] severity_named(t[j])) is Some {
        assert(first_unknown_severity(t, bad));
    } else {
        let earlier = choose|j: int| 0 <= j < bad && (#[trigger] severity_named(t[j])) is None;
        first_bad_severity(t, earlier);
    }
}

/// Whether a list or map query passes every check.
pub open spec fn list_query_valid(q: ListEventsQuery) -> bool {
    &&& bbox_valid(q)
    &&& impact_valid(q.impact_min, q.impact_max, q.min_impact)
    &&& magnitude_valid(q.min_magnitude, q.max_magnitude)
    &&& categories_valid(owned_tokens(q.category))
    &&& severities_valid(owned_tokens(q.severity))
    &&& event_sort_of(q.sort) is Some
}

/// The filter a valid query describes for `tenant_id`, paged as given.
pub open spec fn filter_matches(f: EventListFilter, tenant_id: u128, q: ListEventsQuery, limit: int, offset: int) -> bool {
    let lo = impact_low(q.impact_min, q.min_impact);
    &&& f.tenant_id == tenant_id
    &&& f.bbox == bbox_of(q)
    &&& f.categories@.len() == owned_tokens(q.category).len()
    &&& forall|i: int| 0 <= i < f.categories@.len()
        ==> category_named(owned_tokens(q.category)[i]) == Some(#[trigger] f.categories@[i])
    &&& f.severities@.len() == owned_tokens(q.severity).len()
    &&& forall|i: int| 0 <= i < f.severities@.len()
        ==> severity_named(owned_tokens(q.severity)[i]) == Some(#[trigger] f.severities@[i])
    &&& strings_view(f.sources@) == owned_tokens(q.source)
    &&& f.occurred_after == q.occurred_after
    &&& f.occurred_before == q.occurred_before
    &&& f.impact_min == score_of(lo)
    &&& f.impact_max == score_of(q.impact_max)
    &&& f.min_magnitude == q.min_magnitude
    &&& f.max_magnitude == q.max_magnitude
    &&& Some(f.sort) == event_sort_of(q.sort)
    &&& f.limit == limit
    &&& f.offset == offset
}

/// What is wrong with the viewport edges, if anything.
pub open spec fn bbox_problem(q: ListEventsQuery) -> Option<Seq<char>> {
    match (q.min_lon, q.min_lat, q.max_lon, q.max_lat) {
        (None, None, None, None) => None,
        (Some(a), Some(b), Some(c), Some(d)) => if float_gt(a, c) || float_gt(b, d) {
            Some("invalid bbox: min must be <= max"@)
        } else {
            None
        },
        _ => Some("bbox requires min_lon, min_lat, max_lon, and max_lat together"@),
    }
}

/// What is wrong with an impact range, if anything (bounds first, then order).
pub open spec fn impact_problem(impact_min: Option<i64>, impact_max: Option<i64>, min_impact: Option<i64>)
    -> Option<Seq<char>>
{
    let lo = impact_low(impact_min, min_impact);
    if !score_in_range(lo) {
        Some("impact_min must be between 0 and 100"@)
    } else if !score_in_range(impact_max) {
        Some("impact_max must be between 0 and 100"@)
    } else if impact_inverted(score_of(lo), score_of(impact_max)) {
        Some("impact_min must be <= impact_max"@)
    } else {
        None
    }
}

/// What is wrong with a magnitude range, if anything.
pub open spec fn magnitude_problem(min: Option<Float64>, max: Option<Float64>) -> Option<Seq<char>> {
    if magnitude_valid(min, max) { None } else { Some("min_magnitude must be <= max_magnitude"@) }
}

/// The first token naming no category, reported.
pub open spec fn categories_problem(t: Seq<Seq<char>>) -> Option<Seq<char>> {
    if exists|i: int| first_unknown_category(t, i) {
        Some("unknown category: "@ + t[choose|i: int| first_unknown_category(t, i)])
    } else {
        None
    }
}

/// The first token naming no severity, reported.
pub open spec fn severities_problem(t: Seq<Seq<char>>) -> Option<Seq<char>> {
    if exists|i: int| first_unknown_severity(t, i) {
        Some("unknown severity: "@ + t[choose|i: int| first_unknown_severity(t, i)])
    } else {
        None
    }
}

/// An unknown event sort key, reported.
pub open spec fn sort_problem(raw: Option<String>) -> Option<Seq<char>> {
    match raw {
        Some(s) => if event_sort_named(trimmed(s@)) is None { Some("unknown sort: "@ + trimmed(s@)) } else { None },
        None => None,
    }
}

/// An unknown search sort key, reported.
pub open spec fn search_sort_problem(raw: Option<String>) -> Option<Seq<char>> {
    match raw {
        Some(s) => if search_sort_named(trimmed(s@)) is None { Some("unknown sort: "@ + trimmed(s@)) } else { None },
        None => None,
    }
}

/// The message of the first failing check of a list or map query (box,
/// impact, magnitude, categories, severities, sort), if one fails.
pub open spec fn list_query_problem(q: ListEventsQuery) -> Option<Seq<char>> {
    if bbox_problem(q) is Some {
        bbox_problem(q)
    } else if impact_problem(q.impact_min, q.impact_max, q.min_impact) is Some {
        impact_problem(q.impact_min, q.impact_max, q.min_impact)
    } else if magnitude_problem(q.min_magnitude, q.max_magnitude) is Some {
        magnitude_problem(q.min_magnitude, q.max_magnitude)
    } else if categories_problem(owned_tokens(q.category)) is Some {
        categories_problem(owned_tokens(q.category))
    } else if severities_problem(owned_tokens(q.severity)) is Some {
        severities_problem(owned_tokens(q.severity))
    } else {
        sort_problem(q.sort)
    }
}

/// The message of the first failing check of a search query (terms, impact,
/// categories, severities, sort), if one fails.
pub open spec fn search_query_problem(q: SearchQuery) -> Option<Seq<char>> {
    if trimmed(q.q@).len() == 0 {
        Some("query parameter q is required"@)
    } else if impact_problem(q.impact_min, q.impact_max, q.min_impact) is Some {
        impact_problem(q.impact_min, q.impact_max, q.min_impact)
    } else if categories_problem(owned_tokens(q.category)) is Some {
        categories_problem(owned_tokens(q.category))
    } else if severities_problem(owned_tokens(q.severity)) is Some {
        severities_problem(owned_tokens(q.severity))
    } else {
        search_sort_problem(q.sort)
    }
}

proof fn first_unknown_category_unique(t: Seq<Seq<char>>, i: int, j: int)
    requires first_unknown_category(t, i), first_unknown_category(t, j),
    ensures i == j,
{
    if i < j {
        assert(category_named(t[i]) is Some);
    } else if j < i {
        assert(category_named(t[j]) is Some);
    }
}

proof fn first_unknown_severity_unique(t: Seq<Seq<char>>, i: int, j: int)
    requires first_unknown_severity(t, i), first_unknown_severity(t, j),
    ensures i == j,
{
    if i < j {
        assert(severity_named(t[i]) is Some);
    } else if j < i {
        assert(severity_named(t[j]) is Some);
    }
}

/// The checks a list or map query goes through, in order (box, impact,
/// magnitude, categories, severities, sort), and the filter it describes.
fn event_filter(tenant_id: u128, q: &ListEventsQuery, limit: i64, offset: i64)
    -> (r: Result<EventListFilter, AppError>)
    ensures
        r is Ok <==> list_query_valid(*q),
        r is Ok <==> list_query_problem(*q) is None,
        r matches Ok(f) ==> filter_matches(f, tenant_id, *q, limit as int, offset as int),
        r matches Err(e) ==> (e matches AppError::BadRequest(m) && Some(m@) == list_query_problem(*q)),
{
    proof {
        no_first_unknown_category(owned_tokens(q.category));
        no_first_unknown_severity(owned_tokens(q.severity));
    }
    let bbox = match parse_bbox(q.min_lon, q.min_lat, q.max_lon, q.max_lat) {
        Ok(b) => b,
        Err(e) => return Err(e),
    };
    assert(bbox_problem(*q) is None);
    let (impact_min, impact_max) = match parse_impact_range(q.impact_min, q.impact_max, q.min_impact) {
        Ok(p) => p,
        Err(e) => return Err(e),
    };
    assert(impact_problem(q.impact_min, q.impact_max, q.min_impact) is None);
    let (min_magnitude, max_magnitude) = match parse_magnitude_range(q.min_magnitude, q.max_magnitude) {
        Ok(p) => p,
        Err(e) => return Err(e),
    };
    assert(magnitude_problem(q.min_magnitude, q.max_magnitude) is None);
    let categories = match parse_categories(as_str_opt(&q.category)) {
        Ok(v) => v,
        Err(e) => {
            proof {
                let t = owned_tokens(q.category);
                let i = choose|i: int| first_unknown_category(t, i)
                    && (e matches AppError::BadRequest(m) && m@ == "unknown category: "@ + t[i]);
                first_unknown_category_unique(t, i, choose|k: int| first_unknown_category(t, k));
            }
            return Err(e);
        },
    };
    assert(categories_problem(owned_tokens(q.category)) is None);
    let severities = match parse_severities(as_str_opt(&q.severity)) {
        Ok(v) => v,
        Err(e) => {
            proof {
                let t = owned_tokens(q.severity);
                let i = choose|i: int| first_unknown_severity(t, i)
                    && (e matches AppError::BadRequest(m) && m@ == "unknown severity: "@ + t[i]);
                first_unknown_severity_unique(t, i, choose|k: int| first_unknown_severity(t, k));
            }
            return Err(e);
        },
    };
    assert(severities_problem(owned_tokens(q.severity)) is None);
    let sources = parse_sources(as_str_opt(&q.source));
    let sort = match parse_sort(as_str_opt(&q.sort)) {
        Ok(s) => s,
        Err(e) => return Err(e),
    };
    Ok(EventListFilter {
        tenant_id,
        bbox,
        categories,
        severities,
        sources,
        occurred_after: q.occurred_after,
        occurred_before: q.occurred_before,
        impact_min,
        impact_max,
        min_magnitude,
        max_magnitude,
        sort,
        limit,
        offset,
    })
}

/// The filter of an event list request for the caller's tenant: every check
/// in order, then a page of 1–200 rows (50 by default) from a non-negative
/// offset.
pub fn list_filter(tenant_id: u128, q: &ListEventsQuery) -> (r: Result<EventListFilter, AppError>)
    ensures
        r is Ok <==> list_query_valid(*q),
        r matches Ok(f) ==> filter_matches(f, tenant_id, *q,
            clamped(match q.limit { Some(l) => l as int, None => LIST_DEFAULT_LIMIT as int },
                1, LIST_MAX_LIMIT as int),
            match q.offset { Some(o) => if o < 0 { 0 } else { o as int }, None => 0 }),
        r matches Err(e) ==> (e matches AppError::BadRequest(m) && Some(m@) == list_query_problem(*q)),
{
    let (limit, offset) = list_page(q.limit, q.offset);
    event_filter(tenant_id, q, limit, offset)
}

/// The filter of a map-points request for the caller's tenant, and whether
/// the total must be counted (only for the first page): every check in
/// order, then a page of up to 100 000 points from a non-negative offset.
pub fn map_filter(tenant_id: u128, q: &ListEventsQuery) -> (r: Result<(EventListFilter, bool), AppError>)
    ensures
        r is Ok <==> list_query_valid(*q),
        r matches Ok(p) ==> filter_matches(p.0, tenant_id, *q,
            clamped(match q.limit { Some(l) => l as int, None => MAP_MAX_LIMIT as int },
                1, MAP_MAX_LIMIT as int),
            match q.offset { Some(o) => if o < 0 { 0 } else { o as int }, None => 0 })
            && p.1 == (p.0.offset == 0),
        r matches Err(e) ==> (e matches AppError::BadRequest(m) && Some(m@) == list_query_problem(*q)),
{
    let (limit, offset) = map_page(q.limit, q.offset);
    match event_filter(tenant_id, q, limit, offset) {
        Ok(f) => Ok((f, offset == 0)),
        Err(e) => Err(e),
    }
}

/// Whether a search query passes every check.
pub open spec fn search_query_valid(q: SearchQuery) -> bool {
    &&& trimmed(q.q@).len() > 0
    &&& impact_valid(q.impact_min, q.impact_max, q.min_impact)
    &&& categories_valid(owned_tokens(q.category))
    &&& severities_valid(owned_tokens(q.severity))
    &&& search_sort_of(q.sort) is Some
}

/// What a search request runs with: the trimmed terms (required), then the
/// impact range, categories, severities and sources, the sort key, and a page
/// of 1–100 hits (20 by default).
pub fn search_request(q: &SearchQuery) -> (r: Result<SearchPlan, AppError>)
    ensures
        r is Ok <==> search_query_valid(*q),
        r is Ok <==> search_query_problem(*q) is None,
        r matches Err(e) ==> (e matches AppError::BadRequest(m) && Some(m@) == search_query_problem(*q)),
        r matches Ok(p) ==> {
            let f = p.filters;
            &&& p.terms@ == trimmed(q.q@)
            &&& f.categories@.len() == owned_tokens(q.category).len()
            &&& forall|i: int| 0 <= i < f.categories@.len()
                ==> category_named(owned_tokens(q.category)[i]) == Some(#[trigger] f.categories@[i])
            &&& f.severities@.len() == owned_tokens(q.severity).len()
            &&& forall|i: int| 0 <= i < f.severities@.len()
                ==> severity_named(owned_tokens(q.severity)[i]) == Some(#[trigger] f.severities@[i])
            &&& strings_view(f.sources@) == owned_tokens(q.source)
            &&& f.impact_min == score_of(impact_low(q.impact_min, q.min_impact))
            &&& f.impact_max == score_of(q.impact_max)
            &&& f.occurred_after == q.occurred_after
            &&& f.occurred_before == q.occurred_before
            &&& Some(p.sort) == search_sort_of(q.sort)
            &&& p.limit == clamped(match q.limit { Some(l) => l as int, None => SEARCH_DEFAULT_LIMIT as int },
                1, SEARCH_MAX_LIMIT as int)
            &&& p.offset == match q.offset { Some(o) => o, None => 0 }
        },
{
    proof {
        no_first_unknown_category(owned_tokens(q.category));
        no_first_unknown_severity(owned_tokens(q.severity));
    }
    let terms = match search_terms(q.q.as_str()) {
        Ok(t) => t.to_owned(),
        Err(e) => return Err(e),
    };
    let (impact_min, impact_max) = match parse_impact_range(q.impact_min, q.impact_max, q.min_impact) {
        Ok(p) => p,
        Err(e) => return Err(e),
    };
    assert(impact_problem(q.impact_min, q.impact_max, q.min_impact) is None);
    let categories = match parse_categories(as_str_opt(&q.category)) {
        Ok(v) => v,
        Err(e) => {
            proof {
                let t = owned_tokens(q.category);
                let i = choose|i: int| first_unknown_category(t, i)
                    && (e matches AppError::BadRequest(m) && m@ == "unknown category: "@ + t[i]);
                first_unknown_category_unique(t, i, choose|k: int| first_unknown_category(t, k));
            }
            return Err(e);
        },
    };
    assert(categories_problem(owned_tokens(q.category)) is None);
    let severities = match parse_severities(as_str_opt(&q.severity)) {
        Ok(v) => v,
        Err(e) => {
            proof {
                let t = owned_tokens(q.severity);
                let i = choose|i: int| first_unknown_severity(t, i)
                    && (e matches AppError::BadRequest(m) && m@ == "unknown severity: "@ + t[i]);
                first_unknown_severity_unique(t, i, choose|k: int| first_unknown_severity(t, k));
            }
            return Err(e);
        },
    };
    assert(severities_problem(owned_tokens(q.severity)) is None);
    let sources = parse_sources(as_str_opt(&q.source));
    let sort = match parse_search_sort(as_str_opt(&q.sort)) {
        Ok(s) => s,
        Err(e) => return Err(e),
    };
    let (limit, offset) = search_page(q.limit, q.offset);
    Ok(SearchPlan {
        terms,
        filters: SearchFilters {
            categories,
            severities,
            sources,
            impact_min,
            impact_max,
            occurred_after: q.occurred_after,
            occurred_before: q.occurred_before,
        },
        sort,
        limit,
        offset,
    })
}

/// Search honours the sort keys of the event list and orders hits the way the
/// list orders events: a key the list accepts is a key search accepts; the key
/// that sorts the list by impact (`impact_desc`) sorts hits by
/// `impact_score` descending, the key that names recency (`recent`) sorts them
/// by `occurred_at` descending; the blank key keeps relevance, and the
/// magnitude key, which the index cannot sort by, falls back to relevance.
pub proof fn search_sorts_like_the_list(key: Seq<char>)
    ensures
        search_sort_named(key) is Some <==> event_sort_named(key) is Some,
        event_sort_named(key) == Some(EventSort::ImpactDesc) ==> search_sort_named(key) is Some
            && sort_rules(search_sort_named(key)->0) == seq!["impact_score:desc"@],
        event_sort_named(key) == Some(EventSort::Recent) && key != ""@ ==> search_sort_named(key) is Some
            && sort_rules(search_sort_named(key)->0) == seq!["occurred_at:desc"@],
        key == ""@ || event_sort_named(key) == Some(EventSort::MagnitudeDesc)
            ==> search_sort_named(key) == Some(SearchSort::Relevance),
        key == "impact_desc"@ ==> event_sort_named(key) == Some(EventSort::ImpactDesc),
        key == "recent"@ ==> event_sort_named(key) == Some(EventSort::Recent),
{
    reveal_strlit("");
    reveal_strlit("recent");
    reveal_strlit("impact_desc");
    reveal_strlit("magnitude_desc");
    assert(""@.len() == 0 && "recent"@.len() == 6 && "impact_desc"@.len() == 11 && "magnitude_desc"@.len() == 14);
    assert("recent"@ != ""@ && "impact_desc"@ != ""@ && "magnitude_desc"@ != ""@);
    assert("impact_desc"@ != "recent"@ && "magnitude_desc"@ != "recent"@ && "magnitude_desc"@ != "impact_desc"@);
}

} // verus!
