//! The canonical event vocabulary: category, severity, lifecycle status and
//! verification state, each with its snake_case wire and storage key.

use vstd::prelude::*;
use crate::numbers::{Float32, Float64, Instant};

verus! {

/// Dimension of the event `embedding` vector.
pub const EMBEDDING_DIM: usize = 1024;

/// High-level classification of an event.
#[derive(Debug, Clone, Copy, PartialEq, Eq, Structural)]
pub enum Category {
    /// Seismic event (e.g. USGS earthquake).
    Earthquake,
    /// Generic incident not covered by a more specific category.
    Incident,
    /// Official alert or warning.
    Alert,
    /// Weather-related event.
    Weather,
    /// News-derived event.
    News,
    /// Armed conflict or violence.
    Conflict,
    /// Wildfire / bushfire.
    Wildfire,
    /// Anything not matching the above.
    Other,
}

/// Coarse severity tier, complementing the numeric impact score.
#[derive(Debug, Clone, Copy, PartialEq, Eq, Structural)]
pub enum Severity {
    /// Informational only.
    Info,
    /// Low severity.
    Low,
    /// Moderate severity.
    Moderate,
    /// High severity.
    High,
    /// Critical severity.
    Critical,
}

/// Lifecycle status of an event.
#[derive(Debug, Clone, Copy, PartialEq, Eq, Structural)]
pub enum EventStatus {
    /// Currently active / ongoing.
    Active,
    /// Resolved / concluded.
    Resolved,
    /// Archived (retained but inactive).
    Archived,
}

/// Trust/verification state of an event.
#[derive(Debug, Clone, Copy, PartialEq, Eq, Structural)]
pub enum VerificationStatus {
    /// Confirmed by a trusted source or analyst.
    Verified,
    /// Not yet verified (default).
    Unverified,
    /// Unconfirmed rumor.
    Rumor,
    /// Conflicting information; disputed.
    Disputed,
}

/// An arbitrary JSON document (GeoJSON area, original source payload).
#[verifier::external_type_specification]
#[verifier::external_body]
pub struct ExJsonValue(serde_json::Value);

/// A geographic point in WGS84; field order is (lon, lat).
#[derive(Debug, Clone, Copy, PartialEq, Eq, Structural)]
pub struct GeoPoint {
    /// Longitude in decimal degrees.
    pub lon: Float64,
    /// Latitude in decimal degrees.
    pub lat: Float64,
}

/// The canonical event record.
pub struct Event {
    /// Stable unique identifier.
    pub id: u128,
    /// Owning tenant.
    pub tenant_id: u128,
    /// Source system identifier (e.g. `"usgs"`).
    pub source: String,
    /// Source-native event id; `(tenant_id, source, source_event_id)` is the
    /// idempotency key for upserts.
    pub source_event_id: String,
    /// High-level category.
    pub category: Category,
    /// Coarse severity tier.
    pub severity: Severity,
    /// Normalized 0–100 impact score.
    pub impact_score: u8,
    /// Optional source magnitude.
    pub magnitude: Option<Float64>,
    /// Short human title.
    pub title: Option<String>,
    /// One- or two-sentence summary.
    pub summary: Option<String>,
    /// Full body text.
    pub body: Option<String>,
    /// Original-language source text.
    pub original_text: Option<String>,
    /// Translated text.
    pub translated_text: Option<String>,
    /// BCP-47 language tag of the original text.
    pub language: Option<String>,
    /// Primary point location.
    pub location: GeoPoint,
    /// Optional affected area as a GeoJSON Polygon.
    pub affected_area: Option<serde_json::Value>,
    /// ISO 3166-1 alpha-2 country code.
    pub country: Option<String>,
    /// Administrative region / state.
    pub region: Option<String>,
    /// Human-readable place name.
    pub place_name: Option<String>,
    /// When the event occurred.
    pub occurred_at: Instant,
    /// When the source first detected it.
    pub detected_at: Option<Instant>,
    /// When Geos ingested it.
    pub ingested_at: Instant,
    /// Lifecycle status.
    pub status: EventStatus,
    /// Trust/verification state.
    pub verification_status: VerificationStatus,
    /// Confidence in [0, 1].
    pub confidence: Float32,
    /// Free-form tags.
    pub tags: Vec<String>,
    /// Canonical source URL.
    pub url: Option<String>,
    /// Original source payload, always retained.
    pub raw: serde_json::Value,
    /// Semantic embedding (length `EMBEDDING_DIM`); absent until enriched.
    pub embedding: Option<Vec<Float32>>,
}

/// The snake_case key of a category.
pub open spec fn category_key(c: Category) -> Seq<char> {
    match c {
        Category::Earthquake => "earthquake"@,
        Category::Incident => "incident"@,
        Category::Alert => "alert"@,
        Category::Weather => "weather"@,
        Category::News => "news"@,
        Category::Conflict => "conflict"@,
        Category::Wildfire => "wildfire"@,
        Category::Other => "other"@,
    }
}

/// The snake_case key of a severity.
pub open spec fn severity_key(s: Severity) -> Seq<char> {
    match s {
        Severity::Info => "info"@,
        Severity::Low => "low"@,
        Severity::Moderate => "moderate"@,
        Severity::High => "high"@,
        Severity::Critical => "critical"@,
    }
}

/// The snake_case key of a status.
pub open spec fn status_key(s: EventStatus) -> Seq<char> {
    match s {
        EventStatus::Active => "active"@,
        EventStatus::Resolved => "resolved"@,
        EventStatus::Archived => "archived"@,
    }
}

/// The snake_case key of a verification state.
pub open spec fn verification_key(v: VerificationStatus) -> Seq<char> {
    match v {
        VerificationStatus::Verified => "verified"@,
        VerificationStatus::Unverified => "unverified"@,
        VerificationStatus::Rumor => "rumor"@,
        VerificationStatus::Disputed => "disputed"@,
    }
}

/// The category whose key is `s`, if any.
pub open spec fn category_named(s: Seq<char>) -> Option<Category> {
    if s == "earthquake"@ { Some(Category::Earthquake) }
    else if s == "incident"@ { Some(Category::Incident) }
    else if s == "alert"@ { Some(Category::Alert) }
    else if s == "weather"@ { Some(Category::Weather) }
    else if s == "news"@ { Some(Category::News) }
    else if s == "conflict"@ { Some(Category::Conflict) }
    else if s == "wildfire"@ { Some(Category::Wildfire) }
    else if s == "other"@ { Some(Category::Other) }
    else { None }
}

/// The severity whose key is `s`, if any.
pub open spec fn severity_named(s: Seq<char>) -> Option<Severity> {
    if s == "info"@ { Some(Severity::Info) }
    else if s == "low"@ { Some(Severity::Low) }
    else if s == "moderate"@ { Some(Severity::Moderate) }
    else if s == "high"@ { Some(Severity::High) }
    else if s == "critical"@ { Some(Severity::Critical) }
    else { None }
}

/// The status whose key is `s`, if any.
pub open spec fn status_named(s: Seq<char>) -> Option<EventStatus> {
    if s == "active"@ { Some(EventStatus::Active) }
    else if s == "resolved"@ { Some(EventStatus::Resolved) }
    else if s == "archived"@ { Some(EventStatus::Archived) }
    else { None }
}

/// The verification state whose key is `s`, if any.
pub open spec fn verification_named(s: Seq<char>) -> Option<VerificationStatus> {
    if s == "verified"@ { Some(VerificationStatus::Verified) }
    else if s == "unverified"@ { Some(VerificationStatus::Unverified) }
    else if s == "rumor"@ { Some(VerificationStatus::Rumor) }
    else if s == "disputed"@ { Some(VerificationStatus::Disputed) }
    else { None }
}


/// Reading a category's key gives the category back, and only its own key
/// names it.
pub proof fn category_keys_round_trip(c: Category, s: Seq<char>)
    ensures
        category_named(category_key(c)) == Some(c),
        category_named(s) == Some(c) ==> s == category_key(c),
{
    reveal_strlit("earthquake");
    reveal_strlit("incident");
    reveal_strlit("alert");
    reveal_strlit("weather");
    reveal_strlit("news");
    reveal_strlit("conflict");
    reveal_strlit("wildfire");
    reveal_strlit("other");
    assert forall|a: Category, b: Category| a != b implies category_key(a) != category_key(b) by {
        let x = category_key(a);
        let y = category_key(b);
        assert(x.len() != y.len() || x[0] != y[0] || x[1] != y[1] || x[2] != y[2]);
    }
    assert(category_key(c) == category_key(Category::Earthquake) ==> c == Category::Earthquake);
    assert(category_key(c) == category_key(Category::Incident) ==> c == Category::Incident);
    assert(category_key(c) == category_key(Category::Alert) ==> c == Category::Alert);
    assert(category_key(c) == category_key(Category::Weather) ==> c == Category::Weather);
    assert(category_key(c) == category_key(Category::News) ==> c == Category::News);
    assert(category_key(c) == category_key(Category::Conflict) ==> c == Category::Conflict);
    assert(category_key(c) == category_key(Category::Wildfire) ==> c == Category::Wildfire);
    assert(category_key(c) == category_key(Category::Other) ==> c == Category::Other);
}

/// Reading a severity's key gives the severity back, and only its own key
/// names it.
pub proof fn severity_keys_round_trip(v: Severity, s: Seq<char>)
    ensures
        severity_named(severity_key(v)) == Some(v),
        severity_named(s) == Some(v) ==> s == severity_key(v),
{
    reveal_strlit("info");
    reveal_strlit("low");
    reveal_strlit("moderate");
    reveal_strlit("high");
    reveal_strlit("critical");
    assert forall|a: Severity, b: Severity| a != b implies severity_key(a) != severity_key(b) by {
        let x = severity_key(a);
        let y = severity_key(b);
        assert(x.len() != y.len() || x[0] != y[0] || x[1] != y[1] || x[2] != y[2]);
    }
    assert(severity_key(v) == severity_key(Severity::Info) ==> v == Severity::Info);
    assert(severity_key(v) == severity_key(Severity::Low) ==> v == Severity::Low);
    assert(severity_key(v) == severity_key(Severity::Moderate) ==> v == Severity::Moderate);
    assert(severity_key(v) == severity_key(Severity::High) ==> v == Severity::High);
    assert(severity_key(v) == severity_key(Severity::Critical) ==> v == Severity::Critical);
}

/// Reading a status's key gives the status back, and only its own key names it.
pub proof fn status_keys_round_trip(v: EventStatus, s: Seq<char>)
    ensures
        status_named(status_key(v)) == Some(v),
        status_named(s) == Some(v) ==> s == status_key(v),
{
    reveal_strlit("active");
    reveal_strlit("resolved");
    reveal_strlit("archived");
    assert forall|a: EventStatus, b: EventStatus| a != b implies status_key(a) != status_key(b) by {
        let x = status_key(a);
        let y = status_key(b);
        assert(x.len() != y.len() || x[0] != y[0] || x[1] != y[1] || x[2] != y[2]);
    }
    assert(status_key(v) == status_key(EventStatus::Active) ==> v == EventStatus::Active);
    assert(status_key(v) == status_key(EventStatus::Resolved) ==> v == EventStatus::Resolved);
    assert(status_key(v) == status_key(EventStatus::Archived) ==> v == EventStatus::Archived);
}

/// Reading a verification state's key gives the state back, and only its own
/// key names it.
pub proof fn verification_keys_round_trip(v: VerificationStatus, s: Seq<char>)
    ensures
        verification_named(verification_key(v)) == Some(v),
        verification_named(s) == Some(v) ==> s == verification_key(v),
{
    reveal_strlit("verified");
    reveal_strlit("unverified");
    reveal_strlit("rumor");
    reveal_strlit("disputed");
    assert forall|a: VerificationStatus, b: VerificationStatus| a != b implies verification_key(a) != verification_key(b) by {
        let x = verification_key(a);
        let y = verification_key(b);
        assert(x.len() != y.len() || x[0] != y[0] || x[1] != y[1] || x[2] != y[2]);
    }
    assert(verification_key(v) == verification_key(VerificationStatus::Verified) ==> v == VerificationStatus::Verified);
    assert(verification_key(v) == verification_key(VerificationStatus::Unverified) ==> v == VerificationStatus::Unverified);
    assert(verification_key(v) == verification_key(VerificationStatus::Rumor) ==> v == VerificationStatus::Rumor);
    assert(verification_key(v) == verification_key(VerificationStatus::Disputed) ==> v == VerificationStatus::Disputed);
}

} // verus!
