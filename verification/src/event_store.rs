//! Storage-side event logic: enum <-> column text mappings, row decoding
//! checks, and the tenant-scoped SQL plans for listing, counting, mapping and
//! batch-upserting events.
//!
//! A plan is a sequence of SQL text fragments and bind values; the database
//! layer feeds it to a query builder part by part.

use vstd::prelude::*;
use crate::error::AppError;
use crate::events::{Event, GeoPoint, Category, Severity, EventStatus, VerificationStatus, category_key, severity_key, status_key, verification_key, category_named, severity_named, status_named, verification_named};
use crate::numbers::{Float32, Float64, Instant};
use crate::tenancy::SYSTEM_TENANT_ID;
use crate::text::{push_str, push_char, push_decimal, decimal, str_eq, strings_view};

verus! {

// ---------------------------------------------------------------------------
// Enum <-> column text
// ---------------------------------------------------------------------------

/// The Postgres `event_category` value of a category.
pub fn pg_category(value: Category) -> (s: &'static str)
    ensures s@ == category_key(value),
{
    match value {
        Category::Earthquake => "earthquake",
        Category::Incident => "incident",
        Category::Alert => "alert",
        Category::Weather => "weather",
        Category::News => "news",
        Category::Conflict => "conflict",
        Category::Wildfire => "wildfire",
        Category::Other => "other",
    }
}

/// The Postgres `event_severity` value of a severity.
pub fn pg_severity(value: Severity) -> (s: &'static str)
    ensures s@ == severity_key(value),
{
    match value {
        Severity::Info => "info",
        Severity::Low => "low",
        Severity::Moderate => "moderate",
        Severity::High => "high",
        Severity::Critical => "critical",
    }
}

/// The Postgres `event_status` value of a status.
pub fn pg_status(value: EventStatus) -> (s: &'static str)
    ensures s@ == status_key(value),
{
    match value {
        EventStatus::Active => "active",
        EventStatus::Resolved => "resolved",
        EventStatus::Archived => "archived",
    }
}

/// The Postgres `verification_status` value of a verification state.
pub fn pg_verification(value: VerificationStatus) -> (s: &'static str)
    ensures s@ == verification_key(value),
{
    match value {
        VerificationStatus::Verified => "verified",
        VerificationStatus::Unverified => "unverified",
        VerificationStatus::Rumor => "rumor",
        VerificationStatus::Disputed => "disputed",
    }
}

/// `prefix` followed by `detail`, as a new string.
pub fn message_with(prefix: &str, detail: &str) -> (m: String)
    ensures m@ == prefix@ + detail@,
{
    let mut m = String::new();
    push_str(&mut m, prefix);
    push_str(&mut m, detail);
    assert(m@ =~= prefix@ + detail@);
    m
}

/// Whether `e` is an internal error whose detail is `text`.
pub open spec fn internal_with(e: AppError, text: Seq<char>) -> bool {
    e matches AppError::Internal(m) && m@ == text
}

/// Read a stored category.
pub fn parse_category(value: &str) -> (r: Result<Category, AppError>)
    ensures
        r matches Ok(c) ==> category_named(value@) == Some(c),
        r is Err ==> category_named(value@) is None && internal_with(r->Err_0, "unknown category: "@ + value@),
{
    if str_eq(value, "earthquake") { Ok(Category::Earthquake) }
    else if str_eq(value, "incident") { Ok(Category::Incident) }
    else if str_eq(value, "alert") { Ok(Category::Alert) }
    else if str_eq(value, "weather") { Ok(Category::Weather) }
    else if str_eq(value, "news") { Ok(Category::News) }
    else if str_eq(value, "conflict") { Ok(Category::Conflict) }
    else if str_eq(value, "wildfire") { Ok(Category::Wildfire) }
    else if str_eq(value, "other") { Ok(Category::Other) }
    else { Err(AppError::Internal(message_with("unknown category: ", value))) }
}

/// Read a stored severity.
pub fn parse_severity(value: &str) -> (r: Result<Severity, AppError>)
    ensures
        r matches Ok(c) ==> severity_named(value@) == Some(c),
        r is Err ==> severity_named(value@) is None && internal_with(r->Err_0, "unknown severity: "@ + value@),
{
    if str_eq(value, "info") { Ok(Severity::Info) }
    else if str_eq(value, "low") { Ok(Severity::Low) }
    else if str_eq(value, "moderate") { Ok(Severity::Moderate) }
    else if str_eq(value, "high") { Ok(Severity::High) }
    else if str_eq(value, "critical") { Ok(Severity::Critical) }
    else { Err(AppError::Internal(message_with("unknown severity: ", value))) }
}

/// Read a stored lifecycle status.
pub fn parse_status(value: &str) -> (r: Result<EventStatus, AppError>)
    ensures
        r matches Ok(c) ==> status_named(value@) == Some(c),
        r is Err ==> status_named(value@) is None && internal_with(r->Err_0, "unknown status: "@ + value@),
{
    if str_eq(value, "active") { Ok(EventStatus::Active) }
    else if str_eq(value, "resolved") { Ok(EventStatus::Resolved) }
    else if str_eq(value, "archived") { Ok(EventStatus::Archived) }
    else { Err(AppError::Internal(message_with("unknown status: ", value))) }
}

/// Read a stored verification state.
pub fn parse_verification(value: &str) -> (r: Result<VerificationStatus, AppError>)
    ensures
        r matches Ok(c) ==> verification_named(value@) == Some(c),
        r is Err ==> verification_named(value@) is None
            && internal_with(r->Err_0, "unknown verification_status: "@ + value@),
        r matches Err(e) ==> e is Internal,
{
    if str_eq(value, "verified") { Ok(VerificationStatus::Verified) }
    else if str_eq(value, "unverified") { Ok(VerificationStatus::Unverified) }
    else if str_eq(value, "rumor") { Ok(VerificationStatus::Rumor) }
    else if str_eq(value, "disputed") { Ok(VerificationStatus::Disputed) }
    else { Err(AppError::Internal(message_with("unknown verification_status: ", value))) }
}

/// The enum-typed and bounded columns of a stored event row, decoded.
pub struct DecodedColumns {
    /// Category.
    pub category: Category,
    /// Severity tier.
    pub severity: Severity,
    /// Impact score, 0–255 as stored in an unsigned byte.
    pub impact_score: u8,
    /// Lifecycle status.
    pub status: EventStatus,
    /// Verification state.
    pub verification_status: VerificationStatus,
}

/// The message of the first column of a stored row that does not decode, in
/// column order (category, severity, impact score, status, verification).
pub open spec fn columns_problem(
    category: Seq<char>,
    severity: Seq<char>,
    impact_score: i16,
    status: Seq<char>,
    verification_status: Seq<char>,
) -> Option<Seq<char>> {
    if category_named(category) is None {
        Some("unknown category: "@ + category)
    } else if severity_named(severity) is None {
        Some("unknown severity: "@ + severity)
    } else if !(0 <= impact_score <= 255) {
        Some("invalid impact_score"@)
    } else if status_named(status) is None {
        Some("unknown status: "@ + status)
    } else if verification_named(verification_status) is None {
        Some("unknown verification_status: "@ + verification_status)
    } else {
        None
    }
}

/// Decode the text- and small-integer columns of an event row, failing on
/// the first unknown value in column order (category, severity, impact score,
/// status, verification status).
pub fn decode_event_columns(
    category: &str,
    severity: &str,
    impact_score: i16,
    status: &str,
    verification_status: &str,
) -> (r: Result<DecodedColumns, AppError>)
    ensures
        r is Ok <==> (category_named(category@) is Some && severity_named(severity@) is Some
            && 0 <= impact_score <= 255 && status_named(status@) is Some
            && verification_named(verification_status@) is Some),
        r matches Ok(d) ==> (Some(d.category) == category_named(category@)
            && Some(d.severity) == severity_named(severity@)
            && d.impact_score == impact_score
            && Some(d.status) == status_named(status@)
            && Some(d.verification_status) == verification_named(verification_status@)),
        r matches Err(e) ==> (columns_problem(category@, severity@, impact_score, status@,
            verification_status@) matches Some(m) && internal_with(e, m)),
{
    let category = parse_category(category)?;
    let severity = parse_severity(severity)?;
    if impact_score < 0 || impact_score > 255 {
        return Err(AppError::internal("invalid impact_score"));
    }
    let impact_score = impact_score as u8;
    let status = parse_status(status)?;
    let verification_status = parse_verification(verification_status)?;
    Ok(DecodedColumns { category, severity, impact_score, status, verification_status })
}

/// A stored event row as selected (enum columns as text, location split into lon/lat).
pub struct EventRow {
    /// Column `id`.
    pub id: u128,
    /// Column `tenant_id`.
    pub tenant_id: u128,
    /// Column `source`.
    pub source: String,
    /// Column `source_event_id`.
    pub source_event_id: String,
    /// Column `category`.
    pub category: String,
    /// Column `severity`.
    pub severity: String,
    /// Column `impact_score`.
    pub impact_score: i16,
    /// Column `magnitude`.
    pub magnitude: Option<Float64>,
    /// Column `title`.
    pub title: Option<String>,
    /// Column `summary`.
    pub summary: Option<String>,
    /// Column `body`.
    pub body: Option<String>,
    /// Column `original_text`.
    pub original_text: Option<String>,
    /// Column `translated_text`.
    pub translated_text: Option<String>,
    /// Column `language`.
    pub language: Option<String>,
    /// Column `lon`.
    pub lon: Float64,
    /// Column `lat`.
    pub lat: Float64,
    /// Column `country`.
    pub country: Option<String>,
    /// Column `region`.
    pub region: Option<String>,
    /// Column `place_name`.
    pub place_name: Option<String>,
    /// Column `occurred_at`.
    pub occurred_at: Instant,
    /// Column `detected_at`.
    pub detected_at: Option<Instant>,
    /// Column `ingested_at`.
    pub ingested_at: Instant,
    /// Column `status`.
    pub status: String,
    /// Column `verification_status`.
    pub verification_status: String,
    /// Column `confidence`.
    pub confidence: Float32,
    /// Column `tags`.
    pub tags: Vec<String>,
    /// Column `url`.
    pub url: Option<String>,
    /// Column `raw`.
    pub raw: serde_json::Value,
}

/// A stored event row of a list page, with the page's total match count.
pub struct EventListRow {
    /// Column `id`.
    pub id: u128,
    /// Column `tenant_id`.
    pub tenant_id: u128,
    /// Column `source`.
    pub source: String,
    /// Column `source_event_id`.
    pub source_event_id: String,
    /// Column `category`.
    pub category: String,
    /// Column `severity`.
    pub severity: String,
    /// Column `impact_score`.
    pub impact_score: i16,
    /// Column `magnitude`.
    pub magnitude: Option<Float64>,
    /// Column `title`.
    pub title: Option<String>,
    /// Column `summary`.
    pub summary: Option<String>,
    /// Column `body`.
    pub body: Option<String>,
    /// Column `original_text`.
    pub original_text: Option<String>,
    /// Column `translated_text`.
    pub translated_text: Option<String>,
    /// Column `language`.
    pub language: Option<String>,
    /// Column `lon`.
    pub lon: Float64,
    /// Column `lat`.
    pub lat: Float64,
    /// Column `country`.
    pub country: Option<String>,
    /// Column `region`.
    pub region: Option<String>,
    /// Column `place_name`.
    pub place_name: Option<String>,
    /// Column `occurred_at`.
    pub occurred_at: Instant,
    /// Column `detected_at`.
    pub detected_at: Option<Instant>,
    /// Column `ingested_at`.
    pub ingested_at: Instant,
    /// Column `status`.
    pub status: String,
    /// Column `verification_status`.
    pub verification_status: String,
    /// Column `confidence`.
    pub confidence: Float32,
    /// Column `tags`.
    pub tags: Vec<String>,
    /// Column `url`.
    pub url: Option<String>,
    /// Column `raw`.
    pub raw: serde_json::Value,
    /// Column `total_count`.
    pub total_count: i64,
}

/// Whether the row's text and small-integer columns decode.
pub open spec fn row_decodes(r: EventRow) -> bool {
    category_named(r.category@) is Some && severity_named(r.severity@) is Some
        && 0 <= r.impact_score <= 255 && status_named(r.status@) is Some
        && verification_named(r.verification_status@) is Some
}

/// The row a list-page row carries (its total count dropped).
pub open spec fn list_row_fields(l: EventListRow) -> EventRow {
    EventRow {
        id: l.id,
        tenant_id: l.tenant_id,
        source: l.source,
        source_event_id: l.source_event_id,
        category: l.category,
        severity: l.severity,
        impact_score: l.impact_score,
        magnitude: l.magnitude,
        title: l.title,
        summary: l.summary,
        body: l.body,
        original_text: l.original_text,
        translated_text: l.translated_text,
        language: l.language,
        lon: l.lon,
        lat: l.lat,
        country: l.country,
        region: l.region,
        place_name: l.place_name,
        occurred_at: l.occurred_at,
        detected_at: l.detected_at,
        ingested_at: l.ingested_at,
        status: l.status,
        verification_status: l.verification_status,
        confidence: l.confidence,
        tags: l.tags,
        url: l.url,
        raw: l.raw,
    }
}

impl EventRow {
    /// Decode a stored row into the canonical event (no affected area or
    /// embedding is selected); fails on an unknown enum value or an impact
    /// score outside a byte.
    pub fn into_event(self) -> (r: Result<Event, AppError>)
        ensures
            r is Ok <==> row_decodes(self),
            r matches Ok(e) ==> {
                &&& e.id == self.id
                &&& e.tenant_id == self.tenant_id
                &&& e.source == self.source
                &&& e.source_event_id == self.source_event_id
                &&& e.magnitude == self.magnitude
                &&& e.title == self.title
                &&& e.summary == self.summary
                &&& e.body == self.body
                &&& e.original_text == self.original_text
                &&& e.translated_text == self.translated_text
                &&& e.language == self.language
                &&& e.country == self.country
                &&& e.region == self.region
                &&& e.place_name == self.place_name
                &&& e.occurred_at == self.occurred_at
                &&& e.detected_at == self.detected_at
                &&& e.ingested_at == self.ingested_at
                &&& e.confidence == self.confidence
                &&& e.tags == self.tags
                &&& e.url == self.url
                &&& e.raw == self.raw
                &&& Some(e.category) == category_named(self.category@)
                &&& Some(e.severity) == severity_named(self.severity@)
                &&& e.impact_score == self.impact_score
                &&& e.location == (GeoPoint { lon: self.lon, lat: self.lat })
                &&& Some(e.status) == status_named(self.status@)
                &&& Some(e.verification_status) == verification_named(self.verification_status@)
                &&& e.affected_area is None
                &&& e.embedding is None
            },
            r matches Err(e) ==> (columns_problem(self.category@, self.severity@, self.impact_score,
                self.status@, self.verification_status@) matches Some(m) && internal_with(e, m)),
    {
        let d = decode_event_columns(&self.category, &self.severity, self.impact_score, &self.status,
            &self.verification_status)?;
        Ok(Event {
            id: self.id,
            tenant_id: self.tenant_id,
            source: self.source,
            source_event_id: self.source_event_id,
            category: d.category,
            severity: d.severity,
            impact_score: d.impact_score,
            magnitude: self.magnitude,
            title: self.title,
            summary: self.summary,
            body: self.body,
            original_text: self.original_text,
            translated_text: self.translated_text,
            language: self.language,
            location: GeoPoint { lon: self.lon, lat: self.lat },
            affected_area: None,
            country: self.country,
            region: self.region,
            place_name: self.place_name,
            occurred_at: self.occurred_at,
            detected_at: self.detected_at,
            ingested_at: self.ingested_at,
            status: d.status,
            verification_status: d.verification_status,
            confidence: self.confidence,
            tags: self.tags,
            url: self.url,
            raw: self.raw,
            embedding: None,
        })
    }
}

impl EventListRow {
    /// Decode a list-page row exactly as the plain row it carries.
    pub fn into_event(self) -> (r: Result<Event, AppError>)
        ensures
            r is Ok <==> row_decodes(list_row_fields(self)),
            r matches Ok(e) ==> {
                &&& e.id == list_row_fields(self).id
                &&& e.tenant_id == list_row_fields(self).tenant_id
                &&& e.source == list_row_fields(self).source
                &&& e.source_event_id == list_row_fields(self).source_event_id
                &&& e.magnitude == list_row_fields(self).magnitude
                &&& e.title == list_row_fields(self).title
                &&& e.summary == list_row_fields(self).summary
                &&& e.body == list_row_fields(self).body
                &&& e.original_text == list_row_fields(self).original_text
                &&& e.translated_text == list_row_fields(self).translated_text
                &&& e.language == list_row_fields(self).language
                &&& e.country == list_row_fields(self).country
                &&& e.region == list_row_fields(self).region
                &&& e.place_name == list_row_fields(self).place_name
                &&& e.occurred_at == list_row_fields(self).occurred_at
                &&& e.detected_at == list_row_fields(self).detected_at
                &&& e.ingested_at == list_row_fields(self).ingested_at
                &&& e.confidence == list_row_fields(self).confidence
                &&& e.tags == list_row_fields(self).tags
                &&& e.url == list_row_fields(self).url
                &&& e.raw == list_row_fields(self).raw
                &&& Some(e.category) == category_named(self.category@)
                &&& Some(e.severity) == severity_named(self.severity@)
                &&& e.impact_score == self.impact_score
                &&& e.location == (GeoPoint { lon: self.lon, lat: self.lat })
                &&& Some(e.status) == status_named(self.status@)
                &&& Some(e.verification_status) == verification_named(self.verification_status@)
            },
            r matches Err(e) ==> (columns_problem(list_row_fields(self).category@, list_row_fields(self).severity@, list_row_fields(self).impact_score,
                list_row_fields(self).status@, list_row_fields(self).verification_status@) matches Some(m) && internal_with(e, m)),
    {
        EventRow {
            id: self.id,
            tenant_id: self.tenant_id,
            source: self.source,
            source_event_id: self.source_event_id,
            category: self.category,
            severity: self.severity,
            impact_score: self.impact_score,
            magnitude: self.magnitude,
            title: self.title,
            summary: self.summary,
            body: self.body,
            original_text: self.original_text,
            translated_text: self.translated_text,
            language: self.language,
            lon: self.lon,
            lat: self.lat,
            country: self.country,
            region: self.region,
            place_name: self.place_name,
            occurred_at: self.occurred_at,
            detected_at: self.detected_at,
            ingested_at: self.ingested_at,
            status: self.status,
            verification_status: self.verification_status,
            confidence: self.confidence,
            tags: self.tags,
            url: self.url,
            raw: self.raw,
        }
        .into_event()
    }
}

// ---------------------------------------------------------------------------
// Query plans
// ---------------------------------------------------------------------------

/// A fixed piece of SQL text.
#[derive(Debug, Clone, Copy, PartialEq, Eq, Structural)]
pub enum Fragment {
    /// Full-row select for listing, up to the tenant list.
    ListSelect,
    /// Count select, up to the tenant list.
    CountSelect,
    /// Compact map-point select, up to the tenant list.
    MapSelect,
    /// `, `
    Comma,
    /// `)`
    CloseParen,
    /// Opens the bounding-box intersection test.
    BboxOpen,
    /// Closes the bounding-box envelope (SRID 4326).
    BboxClose,
    /// ` AND category = ANY(`
    CategoryAny,
    /// `::event_category[])`
    CategoryArrayCast,
    /// ` AND severity = ANY(`
    SeverityAny,
    /// `::event_severity[])`
    SeverityArrayCast,
    /// ` AND source = ANY(`
    SourceAny,
    /// ` AND occurred_at >= `
    OccurredAfter,
    /// ` AND occurred_at <= `
    OccurredBefore,
    /// ` AND impact_score >= `
    ImpactMin,
    /// ` AND impact_score <= `
    ImpactMax,
    /// ` AND magnitude IS NOT NULL`
    MagnitudeNotNull,
    /// ` AND magnitude >= `
    MagnitudeMin,
    /// ` AND magnitude <= `
    MagnitudeMax,
    /// Most recent first.
    OrderRecent,
    /// Highest impact first, nulls last, then most recent.
    OrderImpact,
    /// Highest magnitude first, nulls last, then most recent.
    OrderMagnitude,
    /// ` LIMIT `
    Limit,
    /// ` OFFSET `
    Offset,
    /// Multi-row insert head, up to `VALUES `.
    BackfillInsert,
    /// `(` opening one value row.
    RowOpen,
    /// `::event_category, `
    CategoryCast,
    /// `::event_severity, `
    SeverityCast,
    /// `, ST_SetSRID(ST_MakePoint(`
    PointOpen,
    /// `), 4326)::geography, `
    PointClose,
    /// `::event_status, `
    StatusCast,
    /// `::verification_status, `
    VerificationCast,
    /// `::jsonb, `
    JsonbCast,
    /// `::vector)` closing one value row.
    VectorCastClose,
    /// The idempotent `ON CONFLICT ... DO UPDATE` tail of the batch upsert.
    BackfillConflict,
}

/// Whether a fragment is a type cast that must directly follow its value.
pub open spec fn is_cast(f: Fragment) -> bool {
    f == Fragment::CategoryCast || f == Fragment::SeverityCast || f == Fragment::StatusCast
        || f == Fragment::VerificationCast || f == Fragment::JsonbCast
        || f == Fragment::VectorCastClose || f == Fragment::CategoryArrayCast
        || f == Fragment::SeverityArrayCast
}

/// SQL text of [`Fragment::ListSelect`].
pub const LIST_SELECT_SQL: &'static str = "
        SELECT
            id, tenant_id, source, source_event_id,
            category::text AS category, severity::text AS severity, impact_score,
            magnitude, title, summary, body, original_text, translated_text, language,
            ST_X(location::geometry) AS lon, ST_Y(location::geometry) AS lat,
            country, region, place_name,
            occurred_at, detected_at, ingested_at,
            status::text AS status, verification_status::text AS verification_status,
            confidence, tags, url, raw,
            COUNT(*) OVER() AS total_count
        FROM events
        WHERE tenant_id IN (";

/// SQL text of [`Fragment::CountSelect`].
pub const COUNT_SELECT_SQL: &'static str = "SELECT COUNT(*)::bigint FROM events WHERE tenant_id IN (";

/// SQL text of [`Fragment::MapSelect`].
pub const MAP_SELECT_SQL: &'static str = "
        SELECT
            id,
            category::text AS category,
            severity::text AS severity,
            impact_score,
            magnitude,
            ST_Y(location::geometry) AS lat,
            ST_X(location::geometry) AS lon,
            occurred_at
        FROM events
        WHERE tenant_id IN (";

/// SQL text of [`Fragment::Comma`].
pub const COMMA_SQL: &'static str = ", ";

/// SQL text of [`Fragment::CloseParen`].
pub const CLOSE_PAREN_SQL: &'static str = ")";

/// SQL text of [`Fragment::BboxOpen`].
pub const BBOX_OPEN_SQL: &'static str = " AND ST_Intersects(location::geometry, ST_MakeEnvelope(";

/// SQL text of [`Fragment::BboxClose`].
pub const BBOX_CLOSE_SQL: &'static str = ", 4326))";

/// SQL text of [`Fragment::CategoryAny`].
pub const CATEGORY_ANY_SQL: &'static str = " AND category = ANY(";

/// SQL text of [`Fragment::CategoryArrayCast`].
pub const CATEGORY_ARRAY_CAST_SQL: &'static str = "::event_category[])";

/// SQL text of [`Fragment::SeverityAny`].
pub const SEVERITY_ANY_SQL: &'static str = " AND severity = ANY(";

/// SQL text of [`Fragment::SeverityArrayCast`].
pub const SEVERITY_ARRAY_CAST_SQL: &'static str = "::event_severity[])";

/// SQL text of [`Fragment::SourceAny`].
pub const SOURCE_ANY_SQL: &'static str = " AND source = ANY(";

/// SQL text of [`Fragment::OccurredAfter`].
pub const OCCURRED_AFTER_SQL: &'static str = " AND occurred_at >= ";

/// SQL text of [`Fragment::OccurredBefore`].
pub const OCCURRED_BEFORE_SQL: &'static str = " AND occurred_at <= ";

/// SQL text of [`Fragment::ImpactMin`].
pub const IMPACT_MIN_SQL: &'static str = " AND impact_score >= ";

/// SQL text of [`Fragment::ImpactMax`].
pub const IMPACT_MAX_SQL: &'static str = " AND impact_score <= ";

/// SQL text of [`Fragment::MagnitudeNotNull`].
pub const MAGNITUDE_NOT_NULL_SQL: &'static str = " AND magnitude IS NOT NULL";

/// SQL text of [`Fragment::MagnitudeMin`].
pub const MAGNITUDE_MIN_SQL: &'static str = " AND magnitude >= ";

/// SQL text of [`Fragment::MagnitudeMax`].
pub const MAGNITUDE_MAX_SQL: &'static str = " AND magnitude <= ";

/// SQL text of [`Fragment::OrderRecent`].
pub const ORDER_RECENT_SQL: &'static str = " ORDER BY occurred_at DESC";

/// SQL text of [`Fragment::OrderImpact`].
pub const ORDER_IMPACT_SQL: &'static str = " ORDER BY impact_score DESC NULLS LAST, occurred_at DESC";

/// SQL text of [`Fragment::OrderMagnitude`].
pub const ORDER_MAGNITUDE_SQL: &'static str = " ORDER BY magnitude DESC NULLS LAST, occurred_at DESC";

/// SQL text of [`Fragment::Limit`].
pub const LIMIT_SQL: &'static str = " LIMIT ";

/// SQL text of [`Fragment::Offset`].
pub const OFFSET_SQL: &'static str = " OFFSET ";

/// SQL text of [`Fragment::BackfillInsert`].
pub const BACKFILL_INSERT_SQL: &'static str = "
        INSERT INTO events (
            id, tenant_id, source, source_event_id, category, severity, impact_score,
            magnitude, title, summary, body, original_text, translated_text, language,
            location, country, region, place_name,
            occurred_at, detected_at, ingested_at,
            status, verification_status, confidence,
            tags, url, raw, embedding
        ) VALUES ";

/// SQL text of [`Fragment::RowOpen`].
pub const ROW_OPEN_SQL: &'static str = "(";

/// SQL text of [`Fragment::CategoryCast`].
pub const CATEGORY_CAST_SQL: &'static str = "::event_category, ";

/// SQL text of [`Fragment::SeverityCast`].
pub const SEVERITY_CAST_SQL: &'static str = "::event_severity, ";

/// SQL text of [`Fragment::PointOpen`].
pub const POINT_OPEN_SQL: &'static str = ", ST_SetSRID(ST_MakePoint(";

/// SQL text of [`Fragment::PointClose`].
pub const POINT_CLOSE_SQL: &'static str = "), 4326)::geography, ";

/// SQL text of [`Fragment::StatusCast`].
pub const STATUS_CAST_SQL: &'static str = "::event_status, ";

/// SQL text of [`Fragment::VerificationCast`].
pub const VERIFICATION_CAST_SQL: &'static str = "::verification_status, ";

/// SQL text of [`Fragment::JsonbCast`].
pub const JSONB_CAST_SQL: &'static str = "::jsonb, ";

/// SQL text of [`Fragment::VectorCastClose`].
pub const VECTOR_CAST_CLOSE_SQL: &'static str = "::vector)";

/// SQL text of [`Fragment::BackfillConflict`].
pub const BACKFILL_CONFLICT_SQL: &'static str = "
        ON CONFLICT (tenant_id, source, source_event_id, occurred_at) DO UPDATE SET
            category = EXCLUDED.category,
            severity = EXCLUDED.severity,
            impact_score = EXCLUDED.impact_score,
            magnitude = EXCLUDED.magnitude,
            title = EXCLUDED.title,
            summary = EXCLUDED.summary,
            body = EXCLUDED.body,
            original_text = EXCLUDED.original_text,
            translated_text = EXCLUDED.translated_text,
            language = EXCLUDED.language,
            location = EXCLUDED.location,
            country = EXCLUDED.country,
            region = EXCLUDED.region,
            place_name = EXCLUDED.place_name,
            detected_at = EXCLUDED.detected_at,
            ingested_at = EXCLUDED.ingested_at,
            status = EXCLUDED.status,
            verification_status = EXCLUDED.verification_status,
            confidence = EXCLUDED.confidence,
            tags = EXCLUDED.tags,
            url = EXCLUDED.url,
            raw = EXCLUDED.raw,
            embedding = EXCLUDED.embedding
        ";

/// The SQL text of a fragment.
pub open spec fn fragment_text(f: Fragment) -> Seq<char> {
    match f {
        Fragment::ListSelect => LIST_SELECT_SQL@,
        Fragment::CountSelect => COUNT_SELECT_SQL@,
        Fragment::MapSelect => MAP_SELECT_SQL@,
        Fragment::Comma => COMMA_SQL@,
        Fragment::CloseParen => CLOSE_PAREN_SQL@,
        Fragment::BboxOpen => BBOX_OPEN_SQL@,
        Fragment::BboxClose => BBOX_CLOSE_SQL@,
        Fragment::CategoryAny => CATEGORY_ANY_SQL@,
        Fragment::CategoryArrayCast => CATEGORY_ARRAY_CAST_SQL@,
        Fragment::SeverityAny => SEVERITY_ANY_SQL@,
        Fragment::SeverityArrayCast => SEVERITY_ARRAY_CAST_SQL@,
        Fragment::SourceAny => SOURCE_ANY_SQL@,
        Fragment::OccurredAfter => OCCURRED_AFTER_SQL@,
        Fragment::OccurredBefore => OCCURRED_BEFORE_SQL@,
        Fragment::ImpactMin => IMPACT_MIN_SQL@,
        Fragment::ImpactMax => IMPACT_MAX_SQL@,
        Fragment::MagnitudeNotNull => MAGNITUDE_NOT_NULL_SQL@,
        Fragment::MagnitudeMin => MAGNITUDE_MIN_SQL@,
        Fragment::MagnitudeMax => MAGNITUDE_MAX_SQL@,
        Fragment::OrderRecent => ORDER_RECENT_SQL@,
        Fragment::OrderImpact => ORDER_IMPACT_SQL@,
        Fragment::OrderMagnitude => ORDER_MAGNITUDE_SQL@,
        Fragment::Limit => LIMIT_SQL@,
        Fragment::Offset => OFFSET_SQL@,
        Fragment::BackfillInsert => BACKFILL_INSERT_SQL@,
        Fragment::RowOpen => ROW_OPEN_SQL@,
        Fragment::CategoryCast => CATEGORY_CAST_SQL@,
        Fragment::SeverityCast => SEVERITY_CAST_SQL@,
        Fragment::PointOpen => POINT_OPEN_SQL@,
        Fragment::PointClose => POINT_CLOSE_SQL@,
        Fragment::StatusCast => STATUS_CAST_SQL@,
        Fragment::VerificationCast => VERIFICATION_CAST_SQL@,
        Fragment::JsonbCast => JSONB_CAST_SQL@,
        Fragment::VectorCastClose => VECTOR_CAST_CLOSE_SQL@,
        Fragment::BackfillConflict => BACKFILL_CONFLICT_SQL@,
    }
}

impl Fragment {
    /// The SQL text of this fragment.
    pub fn text(&self) -> (t: &'static str)
        ensures t@ == fragment_text(*self),
    {
        match self {
            Fragment::ListSelect => LIST_SELECT_SQL,
            Fragment::CountSelect => COUNT_SELECT_SQL,
            Fragment::MapSelect => MAP_SELECT_SQL,
            Fragment::Comma => COMMA_SQL,
            Fragment::CloseParen => CLOSE_PAREN_SQL,
            Fragment::BboxOpen => BBOX_OPEN_SQL,
            Fragment::BboxClose => BBOX_CLOSE_SQL,
            Fragment::CategoryAny => CATEGORY_ANY_SQL,
            Fragment::CategoryArrayCast => CATEGORY_ARRAY_CAST_SQL,
            Fragment::SeverityAny => SEVERITY_ANY_SQL,
            Fragment::SeverityArrayCast => SEVERITY_ARRAY_CAST_SQL,
            Fragment::SourceAny => SOURCE_ANY_SQL,
            Fragment::OccurredAfter => OCCURRED_AFTER_SQL,
            Fragment::OccurredBefore => OCCURRED_BEFORE_SQL,
            Fragment::ImpactMin => IMPACT_MIN_SQL,
            Fragment::ImpactMax => IMPACT_MAX_SQL,
            Fragment::MagnitudeNotNull => MAGNITUDE_NOT_NULL_SQL,
            Fragment::MagnitudeMin => MAGNITUDE_MIN_SQL,
            Fragment::MagnitudeMax => MAGNITUDE_MAX_SQL,
            Fragment::OrderRecent => ORDER_RECENT_SQL,
            Fragment::OrderImpact => ORDER_IMPACT_SQL,
            Fragment::OrderMagnitude => ORDER_MAGNITUDE_SQL,
            Fragment::Limit => LIMIT_SQL,
            Fragment::Offset => OFFSET_SQL,
            Fragment::BackfillInsert => BACKFILL_INSERT_SQL,
            Fragment::RowOpen => ROW_OPEN_SQL,
            Fragment::CategoryCast => CATEGORY_CAST_SQL,
            Fragment::SeverityCast => SEVERITY_CAST_SQL,
            Fragment::PointOpen => POINT_OPEN_SQL,
            Fragment::PointClose => POINT_CLOSE_SQL,
            Fragment::StatusCast => STATUS_CAST_SQL,
            Fragment::VerificationCast => VERIFICATION_CAST_SQL,
            Fragment::JsonbCast => JSONB_CAST_SQL,
            Fragment::VectorCastClose => VECTOR_CAST_CLOSE_SQL,
            Fragment::BackfillConflict => BACKFILL_CONFLICT_SQL,
        }
    }
}

/// A column of an event row bound in a batch upsert.
#[derive(Debug, Clone, Copy, PartialEq, Eq, Structural)]
pub enum Column {
    /// `id`
    Id,
    /// `tenant_id`
    TenantId,
    /// `source`
    Source,
    /// `source_event_id`
    SourceEventId,
    /// `category` (its column text)
    Category,
    /// `severity` (its column text)
    Severity,
    /// `impact_score` (as a small integer)
    ImpactScore,
    /// `magnitude`
    Magnitude,
    /// `title`
    Title,
    /// `summary`
    Summary,
    /// `body`
    Body,
    /// `original_text`
    OriginalText,
    /// `translated_text`
    TranslatedText,
    /// `language`
    Language,
    /// Location longitude.
    Lon,
    /// Location latitude.
    Lat,
    /// `country`
    Country,
    /// `region`
    Region,
    /// `place_name`
    PlaceName,
    /// `occurred_at`
    OccurredAt,
    /// `detected_at`
    DetectedAt,
    /// `ingested_at`
    IngestedAt,
    /// `status` (its column text)
    Status,
    /// `verification_status` (its column text)
    Verification,
    /// `confidence`
    Confidence,
    /// `tags`
    Tags,
    /// `url`
    Url,
    /// `raw` (JSON text)
    Raw,
    /// `embedding` (pgvector text literal)
    Embedding,
}

/// The single-event endpoint's answer to a fetch: the event when it belongs to
/// the caller's own tenant. A missing event and an event of any other tenant,
/// the shared system tenant included, are alike not found.
pub fn event_for_tenant(found: Option<Event>, tenant_id: u128) -> (r: Result<Event, AppError>)
    ensures
        r is Ok <==> (found matches Some(e) && e.tenant_id == tenant_id),
        r matches Ok(e) ==> found == Some(e),
        r matches Err(e) ==> (e matches AppError::NotFound(m) && m@ == "event not found"@),
{
    match found {
        Some(e) => {
            if e.tenant_id == tenant_id {
                Ok(e)
            } else {
                Err(AppError::not_found("event not found"))
            }
        },
        None => Err(AppError::not_found("event not found")),
    }
}

/// The value an event binds for one column of the batch upsert, borrowed
/// from the event where it is text, a list or JSON.
pub enum ColumnValue<'a> {
    /// A UUID, by its 128-bit value.
    Uuid(u128),
    /// Text.
    Text(&'a String),
    /// Optional text (`NULL` when absent).
    OptText(&'a Option<String>),
    /// The column text of an enum value, cast to its Postgres enum type.
    Label(&'static str),
    /// A small integer.
    SmallInt(i16),
    /// A double.
    Float(Float64),
    /// An optional double.
    OptFloat(Option<Float64>),
    /// A single-precision float.
    Real(Float32),
    /// A timestamp.
    Time(Instant),
    /// An optional timestamp.
    OptTime(Option<Instant>),
    /// A text array.
    Texts(&'a Vec<String>),
    /// A JSON document.
    Json(&'a serde_json::Value),
    /// An optional embedding, rendered as a pgvector literal.
    Embedding(&'a Option<Vec<Float32>>),
}

/// Whether `v` is the value that event `e` binds for column `c`: its field of
/// that name, enums by their column text, the impact score widened to a small
/// integer and the location split into longitude and latitude.
pub open spec fn binds_column(e: Event, c: Column, v: ColumnValue) -> bool {
    match c {
        Column::Id => v == ColumnValue::Uuid(e.id),
        Column::TenantId => v == ColumnValue::Uuid(e.tenant_id),
        Column::Source => v matches ColumnValue::Text(s) && *s == e.source,
        Column::SourceEventId => v matches ColumnValue::Text(s) && *s == e.source_event_id,
        Column::Category => v matches ColumnValue::Label(s) && s@ == category_key(e.category),
        Column::Severity => v matches ColumnValue::Label(s) && s@ == severity_key(e.severity),
        Column::ImpactScore => v == ColumnValue::SmallInt(e.impact_score as i16),
        Column::Magnitude => v == ColumnValue::OptFloat(e.magnitude),
        Column::Title => v matches ColumnValue::OptText(s) && *s == e.title,
        Column::Summary => v matches ColumnValue::OptText(s) && *s == e.summary,
        Column::Body => v matches ColumnValue::OptText(s) && *s == e.body,
        Column::OriginalText => v matches ColumnValue::OptText(s) && *s == e.original_text,
        Column::TranslatedText => v matches ColumnValue::OptText(s) && *s == e.translated_text,
        Column::Language => v matches ColumnValue::OptText(s) && *s == e.language,
        Column::Lon => v == ColumnValue::Float(e.location.lon),
        Column::Lat => v == ColumnValue::Float(e.location.lat),
        Column::Country => v matches ColumnValue::OptText(s) && *s == e.country,
        Column::Region => v matches ColumnValue::OptText(s) && *s == e.region,
        Column::PlaceName => v matches ColumnValue::OptText(s) && *s == e.place_name,
        Column::OccurredAt => v == ColumnValue::Time(e.occurred_at),
        Column::DetectedAt => v == ColumnValue::OptTime(e.detected_at),
        Column::IngestedAt => v == ColumnValue::Time(e.ingested_at),
        Column::Status => v matches ColumnValue::Label(s) && s@ == status_key(e.status),
        Column::Verification => v matches ColumnValue::Label(s) && s@ == verification_key(e.verification_status),
        Column::Confidence => v == ColumnValue::Real(e.confidence),
        Column::Tags => v matches ColumnValue::Texts(t) && *t == e.tags,
        Column::Url => v matches ColumnValue::OptText(s) && *s == e.url,
        Column::Raw => v matches ColumnValue::Json(j) && *j == e.raw,
        Column::Embedding => v matches ColumnValue::Embedding(x) && *x == e.embedding,
    }
}

/// The value event `e` binds for column `c` of the batch upsert.
pub fn column_value<'a>(e: &'a Event, c: Column) -> (v: ColumnValue<'a>)
    ensures binds_column(*e, c, v),
{
    match c {
        Column::Id => ColumnValue::Uuid(e.id),
        Column::TenantId => ColumnValue::Uuid(e.tenant_id),
        Column::Source => ColumnValue::Text(&e.source),
        Column::SourceEventId => ColumnValue::Text(&e.source_event_id),
        Column::Category => ColumnValue::Label(pg_category(e.category)),
        Column::Severity => ColumnValue::Label(pg_severity(e.severity)),
        Column::ImpactScore => ColumnValue::SmallInt(e.impact_score as i16),
        Column::Magnitude => ColumnValue::OptFloat(e.magnitude),
        Column::Title => ColumnValue::OptText(&e.title),
        Column::Summary => ColumnValue::OptText(&e.summary),
        Column::Body => ColumnValue::OptText(&e.body),
        Column::OriginalText => ColumnValue::OptText(&e.original_text),
        Column::TranslatedText => ColumnValue::OptText(&e.translated_text),
        Column::Language => ColumnValue::OptText(&e.language),
        Column::Lon => ColumnValue::Float(e.location.lon),
        Column::Lat => ColumnValue::Float(e.location.lat),
        Column::Country => ColumnValue::OptText(&e.country),
        Column::Region => ColumnValue::OptText(&e.region),
        Column::PlaceName => ColumnValue::OptText(&e.place_name),
        Column::OccurredAt => ColumnValue::Time(e.occurred_at),
        Column::DetectedAt => ColumnValue::OptTime(e.detected_at),
        Column::IngestedAt => ColumnValue::Time(e.ingested_at),
        Column::Status => ColumnValue::Label(pg_status(e.status)),
        Column::Verification => ColumnValue::Label(pg_verification(e.verification_status)),
        Column::Confidence => ColumnValue::Real(e.confidence),
        Column::Tags => ColumnValue::Texts(&e.tags),
        Column::Url => ColumnValue::OptText(&e.url),
        Column::Raw => ColumnValue::Json(&e.raw),
        Column::Embedding => ColumnValue::Embedding(&e.embedding),
    }
}

/// A value bound into a plan.
pub enum Arg {
    /// A UUID, by its 128-bit value.
    Uuid(u128),
    /// A double.
    Float(Float64),
    /// A text array.
    Texts(Vec<String>),
    /// A timestamp.
    Time(Instant),
    /// A `smallint`.
    SmallInt(i16),
    /// A `bigint`.
    BigInt(i64),
    /// A column of the batch row with the given index.
    Column(usize, Column),
}

/// One piece of a plan.
pub enum SqlPart {
    /// Fixed SQL text.
    Sql(Fragment),
    /// A bound value (a `$n` placeholder).
    Bind(Arg),
}

/// What a bound value denotes.
pub enum ArgView {
    /// A UUID value.
    Uuid(u128),
    /// A double.
    Float(Float64),
    /// A text array.
    Texts(Seq<Seq<char>>),
    /// A timestamp.
    Time(Instant),
    /// A `smallint`.
    SmallInt(i16),
    /// A `bigint`.
    BigInt(i64),
    /// A batch row column.
    Column(usize, Column),
}

/// What a plan piece denotes.
pub enum PartView {
    /// Fixed SQL text.
    Sql(Fragment),
    /// A bound value.
    Bind(ArgView),
}

/// The denotation of a bound value.
pub open spec fn arg_view(a: Arg) -> ArgView {
    match a {
        Arg::Uuid(u) => ArgView::Uuid(u),
        Arg::Float(f) => ArgView::Float(f),
        Arg::Texts(v) => ArgView::Texts(strings_view(v@)),
        Arg::Time(t) => ArgView::Time(t),
        Arg::SmallInt(i) => ArgView::SmallInt(i),
        Arg::BigInt(i) => ArgView::BigInt(i),
        Arg::Column(r, c) => ArgView::Column(r, c),
    }
}

/// The denotation of a plan piece.
pub open spec fn part_view(p: SqlPart) -> PartView {
    match p {
        SqlPart::Sql(f) => PartView::Sql(f),
        SqlPart::Bind(a) => PartView::Bind(arg_view(a)),
    }
}

/// The denotation of a plan.
pub open spec fn plan_view(ps: Seq<SqlPart>) -> Seq<PartView> {
    ps.map_values(|p: SqlPart| part_view(p))
}

/// Geographic bounding box (WGS84 degrees).
#[derive(Debug, Clone, Copy)]
pub struct EventBBox {
    /// Western longitude.
    pub min_lon: Float64,
    /// Southern latitude.
    pub min_lat: Float64,
    /// Eastern longitude.
    pub max_lon: Float64,
    /// Northern latitude.
    pub max_lat: Float64,
}

/// Result ordering for event lists; nulls always sort last.
#[derive(Debug, Clone, Copy, PartialEq, Eq, Structural)]
pub enum EventSort {
    /// Most recent first (default).
    Recent,
    /// Highest impact score first.
    ImpactDesc,
    /// Highest magnitude first.
    MagnitudeDesc,
}

impl Default for EventSort {
    fn default() -> (r: Self)
        ensures r == EventSort::Recent,
    {
        EventSort::Recent
    }
}

/// Tenant-scoped list filters. Multi-value dimensions are disjunctive within
/// themselves; an empty list means no constraint on that dimension.
#[derive(Debug)]
pub struct EventListFilter {
    /// Authenticated tenant (its UUID value).
    pub tenant_id: u128,
    /// Optional viewport bounding box.
    pub bbox: Option<EventBBox>,
    /// Categories to include; empty = all.
    pub categories: Vec<Category>,
    /// Severities to include; empty = all.
    pub severities: Vec<Severity>,
    /// Source keys to include; empty = all.
    pub sources: Vec<String>,
    /// Include events at or after this time.
    pub occurred_after: Option<Instant>,
    /// Include events at or before this time.
    pub occurred_before: Option<Instant>,
    /// Minimum impact score.
    pub impact_min: Option<u8>,
    /// Maximum impact score.
    pub impact_max: Option<u8>,
    /// Minimum magnitude (implies a magnitude is present).
    pub min_magnitude: Option<Float64>,
    /// Maximum magnitude (implies a magnitude is present).
    pub max_magnitude: Option<Float64>,
    /// Result ordering.
    pub sort: EventSort,
    /// Page size.
    pub limit: i64,
    /// Pagination offset.
    pub offset: i64,
}

/// Column keys of a list of categories.
pub open spec fn category_keys(cs: Seq<Category>) -> Seq<Seq<char>> {
    cs.map_values(|c: Category| category_key(c))
}

/// Column keys of a list of severities.
pub open spec fn severity_keys(ss: Seq<Severity>) -> Seq<Seq<char>> {
    ss.map_values(|s: Severity| severity_key(s))
}

/// The bounding-box predicate.
pub open spec fn bbox_parts(f: EventListFilter) -> Seq<PartView> {
    match f.bbox {
        Some(b) => seq![
            PartView::Sql(Fragment::BboxOpen),
            PartView::Bind(ArgView::Float(b.min_lon)),
            PartView::Sql(Fragment::Comma),
            PartView::Bind(ArgView::Float(b.min_lat)),
            PartView::Sql(Fragment::Comma),
            PartView::Bind(ArgView::Float(b.max_lon)),
            PartView::Sql(Fragment::Comma),
            PartView::Bind(ArgView::Float(b.max_lat)),
            PartView::Sql(Fragment::BboxClose),
        ],
        None => Seq::empty(),
    }
}

/// `open`, a bound value, `close` when `present`; nothing otherwise.
pub open spec fn bound_clause(present: bool, open: Fragment, arg: ArgView, close: Option<Fragment>) -> Seq<PartView> {
    if present {
        match close {
            Some(c) => seq![PartView::Sql(open), PartView::Bind(arg), PartView::Sql(c)],
            None => seq![PartView::Sql(open), PartView::Bind(arg)],
        }
    } else {
        Seq::empty()
    }
}

/// The multi-value dimension predicates: categories, severities, sources.
pub open spec fn dimension_parts(f: EventListFilter) -> Seq<PartView> {
    bound_clause(f.categories@.len() > 0, Fragment::CategoryAny,
        ArgView::Texts(category_keys(f.categories@)), Some(Fragment::CategoryArrayCast))
    + bound_clause(f.severities@.len() > 0, Fragment::SeverityAny,
        ArgView::Texts(severity_keys(f.severities@)), Some(Fragment::SeverityArrayCast))
    + bound_clause(f.sources@.len() > 0, Fragment::SourceAny,
        ArgView::Texts(strings_view(f.sources@)), Some(Fragment::CloseParen))
}

/// The time and impact range predicates.
pub open spec fn range_parts(f: EventListFilter) -> Seq<PartView> {
    bound_clause(f.occurred_after is Some, Fragment::OccurredAfter,
        ArgView::Time(f.occurred_after->0), None)
    + bound_clause(f.occurred_before is Some, Fragment::OccurredBefore,
        ArgView::Time(f.occurred_before->0), None)
    + bound_clause(f.impact_min is Some, Fragment::ImpactMin,
        ArgView::SmallInt(f.impact_min->0 as i16), None)
    + bound_clause(f.impact_max is Some, Fragment::ImpactMax,
        ArgView::SmallInt(f.impact_max->0 as i16), None)
}

/// The magnitude predicates: presence whenever a bound is set, then the bounds.
pub open spec fn magnitude_parts(f: EventListFilter) -> Seq<PartView> {
    magnitude_presence(f)
    + bound_clause(f.min_magnitude is Some, Fragment::MagnitudeMin,
        ArgView::Float(f.min_magnitude->0), None)
    + bound_clause(f.max_magnitude is Some, Fragment::MagnitudeMax,
        ArgView::Float(f.max_magnitude->0), None)
}

/// The filter predicates appended after the tenant clause, in order: bbox,
/// categories, severities, sources, time range, impact range, magnitude.
pub open spec fn predicate_parts(f: EventListFilter) -> Seq<PartView> {
    bbox_parts(f) + dimension_parts(f) + range_parts(f) + magnitude_parts(f)
}

/// The ordering clause; `occurred_at DESC` is always the last key.
pub open spec fn order_fragment(s: EventSort) -> Fragment {
    match s {
        EventSort::Recent => Fragment::OrderRecent,
        EventSort::ImpactDesc => Fragment::OrderImpact,
        EventSort::MagnitudeDesc => Fragment::OrderMagnitude,
    }
}

/// `WHERE tenant_id IN (caller, system)` after the given select head.
pub open spec fn tenant_head(select: Fragment, tenant: u128) -> Seq<PartView> {
    seq![
        PartView::Sql(select),
        PartView::Bind(ArgView::Uuid(tenant)),
        PartView::Sql(Fragment::Comma),
        PartView::Bind(ArgView::Uuid(SYSTEM_TENANT_ID)),
        PartView::Sql(Fragment::CloseParen),
    ]
}

/// `LIMIT $n OFFSET $m`.
pub open spec fn page_parts(f: EventListFilter) -> Seq<PartView> {
    seq![
        PartView::Sql(Fragment::Limit),
        PartView::Bind(ArgView::BigInt(f.limit)),
        PartView::Sql(Fragment::Offset),
        PartView::Bind(ArgView::BigInt(f.offset)),
    ]
}

/// The plan of the paginated event list.
pub open spec fn list_plan(f: EventListFilter) -> Seq<PartView> {
    tenant_head(Fragment::ListSelect, f.tenant_id) + predicate_parts(f)
        + seq![PartView::Sql(order_fragment(f.sort))] + page_parts(f)
}

/// The plan of the matching-row count.
pub open spec fn count_plan(f: EventListFilter) -> Seq<PartView> {
    tenant_head(Fragment::CountSelect, f.tenant_id) + predicate_parts(f)
}

/// The plan of the compact map-point list.
pub open spec fn map_plan(f: EventListFilter) -> Seq<PartView> {
    tenant_head(Fragment::MapSelect, f.tenant_id) + predicate_parts(f)
        + seq![PartView::Sql(order_fragment(f.sort))] + page_parts(f)
}

fn push_part(plan: &mut Vec<SqlPart>, p: SqlPart)
    ensures plan_view(final(plan)@) == plan_view(old(plan)@).push(part_view(p)),
{
    let ghost before = plan@;
    plan.push(p);
    assert(plan_view(plan@) =~= plan_view(before).push(part_view(p)));
}

fn append_parts(plan: &mut Vec<SqlPart>, more: Vec<SqlPart>)
    ensures plan_view(final(plan)@) == plan_view(old(plan)@) + plan_view(more@),
{
    let ghost before = plan@;
    let mut more = more;
    let ghost m = more@;
    plan.append(&mut more);
    assert(plan_view(plan@) =~= plan_view(before) + plan_view(m));
}

fn category_key_list(cs: &Vec<Category>) -> (out: Vec<String>)
    ensures strings_view(out@) == category_keys(cs@),
{
    let mut out: Vec<String> = Vec::new();
    let mut i: usize = 0;
    while i < cs.len()
        invariant
            i <= cs@.len(),
            strings_view(out@) == category_keys(cs@.subrange(0, i as int)),
        decreases cs@.len() - i,
    {
        let ghost before = out@;
        out.push(pg_category(cs[i]).to_owned());
        proof {
            assert(cs@.subrange(0, i + 1) =~= cs@.subrange(0, i as int).push(cs@[i as int]));
            assert(strings_view(out@) =~= strings_view(before).push(category_key(cs@[i as int])));
            assert(category_keys(cs@.subrange(0, i + 1)) =~= category_keys(cs@.subrange(0, i as int)).push(category_key(cs@[i as int])));
        }
        i = i + 1;
    }
    assert(cs@.subrange(0, cs@.len() as int) =~= cs@);
    out
}

fn severity_key_list(ss: &Vec<Severity>) -> (out: Vec<String>)
    ensures strings_view(out@) == severity_keys(ss@),
{
    let mut out: Vec<String> = Vec::new();
    let mut i: usize = 0;
    while i < ss.len()
        invariant
            i <= ss@.len(),
            strings_view(out@) == severity_keys(ss@.subrange(0, i as int)),
        decreases ss@.len() - i,
    {
        let ghost before = out@;
        out.push(pg_severity(ss[i]).to_owned());
        proof {
            assert(ss@.subrange(0, i + 1) =~= ss@.subrange(0, i as int).push(ss@[i as int]));
            assert(strings_view(out@) =~= strings_view(before).push(severity_key(ss@[i as int])));
            assert(severity_keys(ss@.subrange(0, i + 1)) =~= severity_keys(ss@.subrange(0, i as int)).push(severity_key(ss@[i as int])));
        }
        i = i + 1;
    }
    assert(ss@.subrange(0, ss@.len() as int) =~= ss@);
    out
}

/// A copy of a list of strings.
pub fn clone_strings(v: &Vec<String>) -> (out: Vec<String>)
    ensures strings_view(out@) == strings_view(v@),
{
    let mut out: Vec<String> = Vec::new();
    let mut i: usize = 0;
    while i < v.len()
        invariant
            i <= v@.len(),
            strings_view(out@) == strings_view(v@.subrange(0, i as int)),
        decreases v@.len() - i,
    {
        let ghost before = out@;
        out.push(v[i].clone());
        proof {
            assert(v@.subrange(0, i + 1) =~= v@.subrange(0, i as int).push(v@[i as int]));
            assert(strings_view(out@) =~= strings_view(before).push(v@[i as int]@));
            assert(strings_view(v@.subrange(0, i + 1)) =~= strings_view(v@.subrange(0, i as int)).push(v@[i as int]@));
        }
        i = i + 1;
    }
    assert(v@.subrange(0, v@.len() as int) =~= v@);
    out
}

fn push_bbox(plan: &mut Vec<SqlPart>, filter: &EventListFilter)
    ensures plan_view(final(plan)@) == plan_view(old(plan)@) + bbox_parts(*filter),
{
    if let Some(b) = filter.bbox {
        let v = vec![
            SqlPart::Sql(Fragment::BboxOpen),
            SqlPart::Bind(Arg::Float(b.min_lon)),
            SqlPart::Sql(Fragment::Comma),
            SqlPart::Bind(Arg::Float(b.min_lat)),
            SqlPart::Sql(Fragment::Comma),
            SqlPart::Bind(Arg::Float(b.max_lon)),
            SqlPart::Sql(Fragment::Comma),
            SqlPart::Bind(Arg::Float(b.max_lat)),
            SqlPart::Sql(Fragment::BboxClose),
        ];
        assert(plan_view(v@) =~= bbox_parts(*filter));
        append_parts(plan, v);
    } else {
        assert(plan_view(plan@) =~= plan_view(plan@) + bbox_parts(*filter));
    }
}

fn push_clause(plan: &mut Vec<SqlPart>, present: bool, open: Fragment, arg: Arg, close: Option<Fragment>,
    Ghost(av): Ghost<ArgView>)
    requires present ==> arg_view(arg) == av,
    ensures plan_view(final(plan)@) == plan_view(old(plan)@) + bound_clause(present, open, av, close),
{
    let ghost start = plan_view(plan@);
    if present {
        push_part(plan, SqlPart::Sql(open));
        push_part(plan, SqlPart::Bind(arg));
        match close {
            Some(c) => {
                push_part(plan, SqlPart::Sql(c));
            },
            None => {},
        }
        assert(plan_view(plan@) =~= start + bound_clause(present, open, av, close));
    } else {
        assert(plan_view(plan@) =~= start + bound_clause(present, open, av, close));
    }
}

/// The magnitude presence clause.
pub open spec fn magnitude_presence(f: EventListFilter) -> Seq<PartView> {
    if f.min_magnitude is Some || f.max_magnitude is Some {
        seq![PartView::Sql(Fragment::MagnitudeNotNull)]
    } else {
        Seq::empty()
    }
}

fn push_magnitude_presence(plan: &mut Vec<SqlPart>, filter: &EventListFilter)
    ensures plan_view(final(plan)@) == plan_view(old(plan)@) + magnitude_presence(*filter),
{
    let ghost start = plan_view(plan@);
    if filter.min_magnitude.is_some() || filter.max_magnitude.is_some() {
        push_part(plan, SqlPart::Sql(Fragment::MagnitudeNotNull));
    }
    assert(plan_view(plan@) =~= start + magnitude_presence(*filter));
}

fn dimension_plan(filter: &EventListFilter) -> (plan: Vec<SqlPart>)
    ensures plan_view(plan@) == dimension_parts(*filter),
{
    let mut plan: Vec<SqlPart> = Vec::new();
    let cats = if filter.categories.len() > 0 { category_key_list(&filter.categories) } else { Vec::new() };
    push_clause(&mut plan, filter.categories.len() > 0, Fragment::CategoryAny, Arg::Texts(cats),
        Some(Fragment::CategoryArrayCast), Ghost(ArgView::Texts(category_keys(filter.categories@))));
    assert(plan_view(plan@) =~= bound_clause(filter.categories@.len() > 0, Fragment::CategoryAny,
        ArgView::Texts(category_keys(filter.categories@)), Some(Fragment::CategoryArrayCast)));
    let sevs = if filter.severities.len() > 0 { severity_key_list(&filter.severities) } else { Vec::new() };
    push_clause(&mut plan, filter.severities.len() > 0, Fragment::SeverityAny, Arg::Texts(sevs),
        Some(Fragment::SeverityArrayCast), Ghost(ArgView::Texts(severity_keys(filter.severities@))));
    let srcs = clone_strings(&filter.sources);
    push_clause(&mut plan, filter.sources.len() > 0, Fragment::SourceAny, Arg::Texts(srcs),
        Some(Fragment::CloseParen), Ghost(ArgView::Texts(strings_view(filter.sources@))));
    plan
}

fn range_plan(filter: &EventListFilter) -> (plan: Vec<SqlPart>)
    ensures plan_view(plan@) == range_parts(*filter),
{
    let mut plan: Vec<SqlPart> = Vec::new();
    let after = match filter.occurred_after { Some(t) => t, None => Instant { secs: 0, nanos: 0 } };
    push_clause(&mut plan, filter.occurred_after.is_some(), Fragment::OccurredAfter, Arg::Time(after), None,
        Ghost(ArgView::Time(filter.occurred_after->0)));
    assert(plan_view(plan@) =~= bound_clause(filter.occurred_after is Some, Fragment::OccurredAfter,
        ArgView::Time(filter.occurred_after->0), None));
    let before = match filter.occurred_before { Some(t) => t, None => Instant { secs: 0, nanos: 0 } };
    push_clause(&mut plan, filter.occurred_before.is_some(), Fragment::OccurredBefore, Arg::Time(before), None,
        Ghost(ArgView::Time(filter.occurred_before->0)));
    let imin: i16 = match filter.impact_min { Some(v) => v as i16, None => 0 };
    push_clause(&mut plan, filter.impact_min.is_some(), Fragment::ImpactMin, Arg::SmallInt(imin), None,
        Ghost(ArgView::SmallInt(filter.impact_min->0 as i16)));
    let imax: i16 = match filter.impact_max { Some(v) => v as i16, None => 0 };
    push_clause(&mut plan, filter.impact_max.is_some(), Fragment::ImpactMax, Arg::SmallInt(imax), None,
        Ghost(ArgView::SmallInt(filter.impact_max->0 as i16)));
    plan
}

fn magnitude_plan(filter: &EventListFilter) -> (plan: Vec<SqlPart>)
    ensures plan_view(plan@) == magnitude_parts(*filter),
{
    let mut plan: Vec<SqlPart> = Vec::new();
    push_magnitude_presence(&mut plan, filter);
    assert(plan_view(plan@) =~= magnitude_presence(*filter));
    let mmin = match filter.min_magnitude { Some(v) => v, None => Float64 { bits: 0 } };
    push_clause(&mut plan, filter.min_magnitude.is_some(), Fragment::MagnitudeMin, Arg::Float(mmin), None,
        Ghost(ArgView::Float(filter.min_magnitude->0)));
    let mmax = match filter.max_magnitude { Some(v) => v, None => Float64 { bits: 0 } };
    push_clause(&mut plan, filter.max_magnitude.is_some(), Fragment::MagnitudeMax, Arg::Float(mmax), None,
        Ghost(ArgView::Float(filter.max_magnitude->0)));
    plan
}

fn predicate_plan(filter: &EventListFilter) -> (plan: Vec<SqlPart>)
    ensures plan_view(plan@) == predicate_parts(*filter),
{
    let mut plan: Vec<SqlPart> = Vec::new();
    push_bbox(&mut plan, filter);
    assert(plan_view(plan@) =~= bbox_parts(*filter));
    append_parts(&mut plan, dimension_plan(filter));
    append_parts(&mut plan, range_plan(filter));
    append_parts(&mut plan, magnitude_plan(filter));
    plan
}

/// Append the bbox, dimension and range predicates for `filter`.
pub fn push_event_filter_predicates(plan: &mut Vec<SqlPart>, filter: &EventListFilter)
    ensures plan_view(final(plan)@) == plan_view(old(plan)@) + predicate_parts(*filter),
{
    let more = predicate_plan(filter);
    append_parts(plan, more);
}

/// Append the `ORDER BY` clause.
pub fn push_event_order(plan: &mut Vec<SqlPart>, filter: &EventListFilter)
    ensures plan_view(final(plan)@) == plan_view(old(plan)@).push(PartView::Sql(order_fragment(filter.sort))),
{
    let f = match filter.sort {
        EventSort::Recent => Fragment::OrderRecent,
        EventSort::ImpactDesc => Fragment::OrderImpact,
        EventSort::MagnitudeDesc => Fragment::OrderMagnitude,
    };
    push_part(plan, SqlPart::Sql(f));
}

fn tenant_head_parts(select: Fragment, tenant: u128) -> (v: Vec<SqlPart>)
    ensures plan_view(v@) == tenant_head(select, tenant),
{
    let v = vec![
        SqlPart::Sql(select),
        SqlPart::Bind(Arg::Uuid(tenant)),
        SqlPart::Sql(Fragment::Comma),
        SqlPart::Bind(Arg::Uuid(SYSTEM_TENANT_ID)),
        SqlPart::Sql(Fragment::CloseParen),
    ];
    assert(plan_view(v@) =~= tenant_head(select, tenant));
    v
}

fn push_page(plan: &mut Vec<SqlPart>, filter: &EventListFilter)
    ensures plan_view(final(plan)@) == plan_view(old(plan)@) + page_parts(*filter),
{
    let v = vec![
        SqlPart::Sql(Fragment::Limit),
        SqlPart::Bind(Arg::BigInt(filter.limit)),
        SqlPart::Sql(Fragment::Offset),
        SqlPart::Bind(Arg::BigInt(filter.offset)),
    ];
    assert(plan_view(v@) =~= page_parts(*filter));
    append_parts(plan, v);
}

/// Plan of `list_events`: the caller's and the system tenant's rows matching
/// the filter, ordered, one page, with the full match count in each row.
pub fn list_events_query(filter: &EventListFilter) -> (plan: Vec<SqlPart>)
    ensures plan_view(plan@) == list_plan(*filter),
{
    let mut plan = tenant_head_parts(Fragment::ListSelect, filter.tenant_id);
    push_event_filter_predicates(&mut plan, filter);
    push_event_order(&mut plan, filter);
    push_page(&mut plan, filter);
    assert(plan_view(plan@) =~= list_plan(*filter));
    plan
}

/// Plan of `count_events`: the same tenant scope and predicates as the list.
pub fn count_events_query(filter: &EventListFilter) -> (plan: Vec<SqlPart>)
    ensures plan_view(plan@) == count_plan(*filter),
{
    let mut plan = tenant_head_parts(Fragment::CountSelect, filter.tenant_id);
    push_event_filter_predicates(&mut plan, filter);
    plan
}

/// Plan of the compact map-point page.
pub fn map_points_query(filter: &EventListFilter) -> (plan: Vec<SqlPart>)
    ensures plan_view(plan@) == map_plan(*filter),
{
    let mut plan = tenant_head_parts(Fragment::MapSelect, filter.tenant_id);
    push_event_filter_predicates(&mut plan, filter);
    push_event_order(&mut plan, filter);
    push_page(&mut plan, filter);
    assert(plan_view(plan@) =~= map_plan(*filter));
    plan
}


// ---------------------------------------------------------------------------
// Rendering
// ---------------------------------------------------------------------------

/// Number of bound values in a plan.
pub open spec fn bind_count(ps: Seq<PartView>) -> nat
    decreases ps.len(),
{
    if ps.len() == 0 {
        0
    } else {
        bind_count(ps.drop_last()) + (if ps.last() is Bind { 1nat } else { 0nat })
    }
}

/// The SQL text of a plan: fragments verbatim, the `n`-th bound value as `$n`.
pub open spec fn rendered(ps: Seq<PartView>) -> Seq<char>
    decreases ps.len(),
{
    if ps.len() == 0 {
        Seq::empty()
    } else {
        rendered(ps.drop_last()) + match ps.last() {
            PartView::Sql(f) => fragment_text(f),
            PartView::Bind(_) => seq!['$'] + decimal(bind_count(ps.drop_last()) + 1),
        }
    }
}

proof fn lemma_bind_count_le(ps: Seq<PartView>)
    ensures bind_count(ps) <= ps.len(),
    decreases ps.len(),
{
    if ps.len() > 0 {
        lemma_bind_count_le(ps.drop_last());
    }
}

/// The SQL text of a plan, with binds numbered `$1`, `$2`, ... in order.
pub fn render_sql(plan: &Vec<SqlPart>) -> (sql: String)
    ensures sql@ == rendered(plan_view(plan@)),
{
    let mut out = String::new();
    let mut binds: usize = 0;
    let mut i: usize = 0;
    while i < plan.len()
        invariant
            i <= plan@.len(),
            binds as nat == bind_count(plan_view(plan@.subrange(0, i as int))),
            out@ == rendered(plan_view(plan@.subrange(0, i as int))),
        decreases plan@.len() - i,
    {
        let ghost pre = plan_view(plan@.subrange(0, i as int));
        let ghost next = plan_view(plan@.subrange(0, i + 1));
        proof {
            assert(next.drop_last() =~= pre);
            assert(next.last() == part_view(plan@[i as int]));
            lemma_bind_count_le(pre);
        }
        match &plan[i] {
            SqlPart::Sql(f) => {
                push_str(&mut out, f.text());
            },
            SqlPart::Bind(_) => {
                binds = binds + 1;
                let ghost o = out@;
                push_char(&mut out, '$');
                push_decimal(&mut out, binds as u64);
                assert(out@ =~= o + (seq!['$'] + decimal(binds as nat)));
            },
        }
        i = i + 1;
    }
    assert(plan@.subrange(0, plan@.len() as int) =~= plan@);
    out
}

// ---------------------------------------------------------------------------
// Batch upsert
// ---------------------------------------------------------------------------

/// The columns of a value tuple in table order, each with the SQL text that
/// follows its value (a separator, or the type cast attached to it).
pub open spec fn row_columns() -> Seq<(Column, Fragment)> {
    seq![
        (Column::Id, Fragment::Comma),
        (Column::TenantId, Fragment::Comma),
        (Column::Source, Fragment::Comma),
        (Column::SourceEventId, Fragment::Comma),
        (Column::Category, Fragment::CategoryCast),
        (Column::Severity, Fragment::SeverityCast),
        (Column::ImpactScore, Fragment::Comma),
        (Column::Magnitude, Fragment::Comma),
        (Column::Title, Fragment::Comma),
        (Column::Summary, Fragment::Comma),
        (Column::Body, Fragment::Comma),
        (Column::OriginalText, Fragment::Comma),
        (Column::TranslatedText, Fragment::Comma),
        (Column::Language, Fragment::PointOpen),
        (Column::Lon, Fragment::Comma),
        (Column::Lat, Fragment::PointClose),
        (Column::Country, Fragment::Comma),
        (Column::Region, Fragment::Comma),
        (Column::PlaceName, Fragment::Comma),
        (Column::OccurredAt, Fragment::Comma),
        (Column::DetectedAt, Fragment::Comma),
        (Column::IngestedAt, Fragment::Comma),
        (Column::Status, Fragment::StatusCast),
        (Column::Verification, Fragment::VerificationCast),
        (Column::Confidence, Fragment::Comma),
        (Column::Tags, Fragment::Comma),
        (Column::Url, Fragment::Comma),
        (Column::Raw, Fragment::JsonbCast),
        (Column::Embedding, Fragment::VectorCastClose),
    ]
}

/// Each column's value followed by its trailing fragment.
pub open spec fn column_pairs(r: usize, cs: Seq<(Column, Fragment)>) -> Seq<PartView>
    decreases cs.len(),
{
    if cs.len() == 0 {
        Seq::empty()
    } else {
        column_pairs(r, cs.drop_last()) + seq![
            PartView::Bind(ArgView::Column(r, cs.last().0)),
            PartView::Sql(cs.last().1),
        ]
    }
}

/// The value tuple of batch row `r`: `(`, then every column bound in table
/// order with each type cast attached directly to the value it casts.
pub open spec fn row_parts(r: usize) -> Seq<PartView> {
    seq![PartView::Sql(Fragment::RowOpen)] + column_pairs(r, row_columns())
}

/// The value tuples of rows `0..n`, separated by `, `.
pub open spec fn row_list(n: nat) -> Seq<PartView>
    decreases n,
{
    if n == 0 {
        Seq::empty()
    } else if n == 1 {
        row_parts(0)
    } else {
        row_list((n - 1) as nat) + seq![PartView::Sql(Fragment::Comma)] + row_parts((n - 1) as usize)
    }
}

/// The plan of a multi-row idempotent upsert of `n` events.
pub open spec fn backfill_plan(n: nat) -> Seq<PartView> {
    seq![PartView::Sql(Fragment::BackfillInsert)] + row_list(n)
        + seq![PartView::Sql(Fragment::BackfillConflict)]
}

#[verifier::rlimit(50)]
fn row_plan(r: usize) -> (v: Vec<SqlPart>)
    ensures plan_view(v@) == row_parts(r),
{
    let v = vec![
        SqlPart::Sql(Fragment::RowOpen),
        SqlPart::Bind(Arg::Column(r, Column::Id)),
        SqlPart::Sql(Fragment::Comma),
        SqlPart::Bind(Arg::Column(r, Column::TenantId)),
        SqlPart::Sql(Fragment::Comma),
        SqlPart::Bind(Arg::Column(r, Column::Source)),
        SqlPart::Sql(Fragment::Comma),
        SqlPart::Bind(Arg::Column(r, Column::SourceEventId)),
        SqlPart::Sql(Fragment::Comma),
        SqlPart::Bind(Arg::Column(r, Column::Category)),
        SqlPart::Sql(Fragment::CategoryCast),
        SqlPart::Bind(Arg::Column(r, Column::Severity)),
        SqlPart::Sql(Fragment::SeverityCast),
        SqlPart::Bind(Arg::Column(r, Column::ImpactScore)),
        SqlPart::Sql(Fragment::Comma),
        SqlPart::Bind(Arg::Column(r, Column::Magnitude)),
        SqlPart::Sql(Fragment::Comma),
        SqlPart::Bind(Arg::Column(r, Column::Title)),
        SqlPart::Sql(Fragment::Comma),
        SqlPart::Bind(Arg::Column(r, Column::Summary)),
        SqlPart::Sql(Fragment::Comma),
        SqlPart::Bind(Arg::Column(r, Column::Body)),
        SqlPart::Sql(Fragment::Comma),
        SqlPart::Bind(Arg::Column(r, Column::OriginalText)),
        SqlPart::Sql(Fragment::Comma),
        SqlPart::Bind(Arg::Column(r, Column::TranslatedText)),
        SqlPart::Sql(Fragment::Comma),
        SqlPart::Bind(Arg::Column(r, Column::Language)),
        SqlPart::Sql(Fragment::PointOpen),
        SqlPart::Bind(Arg::Column(r, Column::Lon)),
        SqlPart::Sql(Fragment::Comma),
        SqlPart::Bind(Arg::Column(r, Column::Lat)),
        SqlPart::Sql(Fragment::PointClose),
        SqlPart::Bind(Arg::Column(r, Column::Country)),
        SqlPart::Sql(Fragment::Comma),
        SqlPart::Bind(Arg::Column(r, Column::Region)),
        SqlPart::Sql(Fragment::Comma),
        SqlPart::Bind(Arg::Column(r, Column::PlaceName)),
        SqlPart::Sql(Fragment::Comma),
        SqlPart::Bind(Arg::Column(r, Column::OccurredAt)),
        SqlPart::Sql(Fragment::Comma),
        SqlPart::Bind(Arg::Column(r, Column::DetectedAt)),
        SqlPart::Sql(Fragment::Comma),
        SqlPart::Bind(Arg::Column(r, Column::IngestedAt)),
        SqlPart::Sql(Fragment::Comma),
        SqlPart::Bind(Arg::Column(r, Column::Status)),
        SqlPart::Sql(Fragment::StatusCast),
        SqlPart::Bind(Arg::Column(r, Column::Verification)),
        SqlPart::Sql(Fragment::VerificationCast),
        SqlPart::Bind(Arg::Column(r, Column::Confidence)),
        SqlPart::Sql(Fragment::Comma),
        SqlPart::Bind(Arg::Column(r, Column::Tags)),
        SqlPart::Sql(Fragment::Comma),
        SqlPart::Bind(Arg::Column(r, Column::Url)),
        SqlPart::Sql(Fragment::Comma),
        SqlPart::Bind(Arg::Column(r, Column::Raw)),
        SqlPart::Sql(Fragment::JsonbCast),
        SqlPart::Bind(Arg::Column(r, Column::Embedding)),
        SqlPart::Sql(Fragment::VectorCastClose),
    ];
    proof {
        reveal_with_fuel(column_pairs, 30);
        assert(plan_view(v@) =~= row_parts(r));
    }
    v
}

/// Plan of one batch upsert of `rows` events: the insert head, one value tuple
/// per row (row `k` binds the columns of the batch's `k`-th event), and the
/// `ON CONFLICT` update tail.
pub fn build_backfill_upsert(rows: usize) -> (plan: Vec<SqlPart>)
    ensures plan_view(plan@) == backfill_plan(rows as nat),
{
    let mut plan: Vec<SqlPart> = Vec::new();
    push_part(&mut plan, SqlPart::Sql(Fragment::BackfillInsert));
    let mut r: usize = 0;
    while r < rows
        invariant
            r <= rows,
            plan_view(plan@) == seq![PartView::Sql(Fragment::BackfillInsert)] + row_list(r as nat),
        decreases rows - r,
    {
        let ghost before = plan_view(plan@);
        if r > 0 {
            push_part(&mut plan, SqlPart::Sql(Fragment::Comma));
        }
        append_parts(&mut plan, row_plan(r));
        proof {
            if r == 0 {
                assert(row_list(1) == row_parts(0));
                assert(plan_view(plan@) =~= seq![PartView::Sql(Fragment::BackfillInsert)] + row_list(1));
            } else {
                assert(row_list((r + 1) as nat) == row_list(r as nat) + seq![PartView::Sql(Fragment::Comma)] + row_parts(r));
                assert(plan_view(plan@) =~= seq![PartView::Sql(Fragment::BackfillInsert)] + row_list((r + 1) as nat));
            }
        }
        r = r + 1;
    }
    push_part(&mut plan, SqlPart::Sql(Fragment::BackfillConflict));
    assert(plan_view(plan@) =~= backfill_plan(rows as nat));
    plan
}

/// Events per batch round-trip.
pub const BACKFILL_BATCH_SIZE: usize = 50;

/// The half-open index ranges of consecutive batches of at most
/// `BACKFILL_BATCH_SIZE` events covering `0..total`.
pub open spec fn batch_ranges(total: nat) -> Seq<(nat, nat)> {
    Seq::new(((total + 49) / 50) as nat, |k: int| ((k * 50) as nat,
        if k * 50 + 50 <= total { (k * 50 + 50) as nat } else { total }))
}

/// Split `total` events into consecutive batches of at most 50.
pub fn backfill_batches(total: usize) -> (out: Vec<(usize, usize)>)
    ensures out@.map_values(|p: (usize, usize)| (p.0 as nat, p.1 as nat)) == batch_ranges(total as nat),
{
    let mut out: Vec<(usize, usize)> = Vec::new();
    let mut start: usize = 0;
    let mut k: usize = 0;
    let ghost count = ((total + 49) / 50) as nat;
    while start < total
        invariant
            count == ((total + 49) / 50) as nat,
            start <= total,
            start < total ==> start == k * 50 && k < count,
            start == total ==> k == count,
            out@.len() == k,
            forall|j: int| 0 <= j < k ==> ((#[trigger] out@[j]).0 as nat, out@[j].1 as nat) == batch_ranges(total as nat)[j],
        decreases total - start,
    {
        let end = if total - start >= 50 { start + 50 } else { total };
        out.push((start, end));
        start = end;
        k = k + 1;
    }
    assert(out@.map_values(|p: (usize, usize)| (p.0 as nat, p.1 as nat)) =~= batch_ranges(total as nat));
    out
}

// ---------------------------------------------------------------------------
// Laws of the plans
// ---------------------------------------------------------------------------

/// Whether a plan holds the fragment `x`.
pub open spec fn has_fragment(ps: Seq<PartView>, x: Fragment) -> bool {
    exists|i: int| 0 <= i < ps.len() && ps[i] == PartView::Sql(x)
}

/// Whether every bound UUID in a plan is `a` or `b`.
pub open spec fn uuids_within(ps: Seq<PartView>, a: u128, b: u128) -> bool {
    forall|i: int| 0 <= i < ps.len() ==> (#[trigger] ps[i] matches PartView::Bind(ArgView::Uuid(u)) ==> (u == a || u == b))
}

proof fn lemma_has_concat(a: Seq<PartView>, b: Seq<PartView>, x: Fragment)
    ensures has_fragment(a + b, x) <==> (has_fragment(a, x) || has_fragment(b, x)),
{
    if has_fragment(a + b, x) {
        let i = choose|i: int| 0 <= i < (a + b).len() && (a + b)[i] == PartView::Sql(x);
        if i >= a.len() {
            assert(b[i - a.len()] == PartView::Sql(x));
        }
    }
    if has_fragment(a, x) {
        let i = choose|i: int| 0 <= i < a.len() && a[i] == PartView::Sql(x);
        assert((a + b)[i] == PartView::Sql(x));
    }
    if has_fragment(b, x) {
        let i = choose|i: int| 0 <= i < b.len() && b[i] == PartView::Sql(x);
        assert((a + b)[a.len() + i] == PartView::Sql(x));
    }
}

proof fn lemma_uuids_concat(a: Seq<PartView>, b: Seq<PartView>, t: u128, s: u128)
    requires uuids_within(a, t, s), uuids_within(b, t, s),
    ensures uuids_within(a + b, t, s),
{
    assert forall|i: int| 0 <= i < (a + b).len() implies
        (#[trigger] (a + b)[i] matches PartView::Bind(ArgView::Uuid(u)) ==> (u == t || u == s)) by {
        if i >= a.len() {
            assert((a + b)[i] == b[i - a.len()]);
        } else {
            assert((a + b)[i] == a[i]);
        }
    }
}

/// Whether a plan binds no UUID at all.
pub open spec fn no_uuids(ps: Seq<PartView>) -> bool {
    forall|i: int| 0 <= i < ps.len() ==> !(#[trigger] ps[i] matches PartView::Bind(ArgView::Uuid(_)))
}

proof fn lemma_no_uuids_concat(a: Seq<PartView>, b: Seq<PartView>)
    requires no_uuids(a), no_uuids(b),
    ensures no_uuids(a + b),
{
    assert forall|i: int| 0 <= i < (a + b).len() implies
        !(#[trigger] (a + b)[i] matches PartView::Bind(ArgView::Uuid(_))) by {
        if i >= a.len() {
            assert((a + b)[i] == b[i - a.len()]);
        } else {
            assert((a + b)[i] == a[i]);
        }
    }
}

proof fn lemma_clause_has(present: bool, open: Fragment, arg: ArgView, close: Option<Fragment>, x: Fragment)
    ensures
        has_fragment(bound_clause(present, open, arg, close), x)
            <==> (present && (open == x || close == Some(x))),
        !(arg is Uuid) ==> no_uuids(bound_clause(present, open, arg, close)),
{
    let c = bound_clause(present, open, arg, close);
    if present {
        if open == x {
            assert(c[0] == PartView::Sql(x));
        }
        if close == Some(x) {
            assert(c[2] == PartView::Sql(x));
        }
    }
}

proof fn lemma_dimension_parts(f: EventListFilter, x: Fragment)
    ensures
        has_fragment(dimension_parts(f), x) <==> (
            (f.categories@.len() > 0 && (x == Fragment::CategoryAny || x == Fragment::CategoryArrayCast))
            || (f.severities@.len() > 0 && (x == Fragment::SeverityAny || x == Fragment::SeverityArrayCast))
            || (f.sources@.len() > 0 && (x == Fragment::SourceAny || x == Fragment::CloseParen))),
        no_uuids(dimension_parts(f)),
{
    let c1 = bound_clause(f.categories@.len() > 0, Fragment::CategoryAny,
        ArgView::Texts(category_keys(f.categories@)), Some(Fragment::CategoryArrayCast));
    let c2 = bound_clause(f.severities@.len() > 0, Fragment::SeverityAny,
        ArgView::Texts(severity_keys(f.severities@)), Some(Fragment::SeverityArrayCast));
    let c3 = bound_clause(f.sources@.len() > 0, Fragment::SourceAny,
        ArgView::Texts(strings_view(f.sources@)), Some(Fragment::CloseParen));
    lemma_clause_has(f.categories@.len() > 0, Fragment::CategoryAny,
        ArgView::Texts(category_keys(f.categories@)), Some(Fragment::CategoryArrayCast), x);
    lemma_clause_has(f.severities@.len() > 0, Fragment::SeverityAny,
        ArgView::Texts(severity_keys(f.severities@)), Some(Fragment::SeverityArrayCast), x);
    lemma_clause_has(f.sources@.len() > 0, Fragment::SourceAny,
        ArgView::Texts(strings_view(f.sources@)), Some(Fragment::CloseParen), x);
    lemma_has_concat(c1, c2, x);
    lemma_has_concat(c1 + c2, c3, x);
    lemma_no_uuids_concat(c1, c2);
    lemma_no_uuids_concat(c1 + c2, c3);
}

proof fn lemma_range_parts(f: EventListFilter, x: Fragment)
    ensures
        has_fragment(range_parts(f), x) <==> (
            (f.occurred_after is Some && x == Fragment::OccurredAfter)
            || (f.occurred_before is Some && x == Fragment::OccurredBefore)
            || (f.impact_min is Some && x == Fragment::ImpactMin)
            || (f.impact_max is Some && x == Fragment::ImpactMax)),
        no_uuids(range_parts(f)),
{
    let c4 = bound_clause(f.occurred_after is Some, Fragment::OccurredAfter,
        ArgView::Time(f.occurred_after->0), None);
    let c5 = bound_clause(f.occurred_before is Some, Fragment::OccurredBefore,
        ArgView::Time(f.occurred_before->0), None);
    let c6 = bound_clause(f.impact_min is Some, Fragment::ImpactMin,
        ArgView::SmallInt(f.impact_min->0 as i16), None);
    let c7 = bound_clause(f.impact_max is Some, Fragment::ImpactMax,
        ArgView::SmallInt(f.impact_max->0 as i16), None);
    lemma_clause_has(f.occurred_after is Some, Fragment::OccurredAfter, ArgView::Time(f.occurred_after->0), None, x);
    lemma_clause_has(f.occurred_before is Some, Fragment::OccurredBefore, ArgView::Time(f.occurred_before->0), None, x);
    lemma_clause_has(f.impact_min is Some, Fragment::ImpactMin, ArgView::SmallInt(f.impact_min->0 as i16), None, x);
    lemma_clause_has(f.impact_max is Some, Fragment::ImpactMax, ArgView::SmallInt(f.impact_max->0 as i16), None, x);
    lemma_has_concat(c4, c5, x);
    lemma_has_concat(c4 + c5, c6, x);
    lemma_has_concat(c4 + c5 + c6, c7, x);
    lemma_no_uuids_concat(c4, c5);
    lemma_no_uuids_concat(c4 + c5, c6);
    lemma_no_uuids_concat(c4 + c5 + c6, c7);
}

proof fn lemma_magnitude_parts(f: EventListFilter, x: Fragment)
    ensures
        has_fragment(magnitude_parts(f), x) <==> (
            ((f.min_magnitude is Some || f.max_magnitude is Some) && x == Fragment::MagnitudeNotNull)
            || (f.min_magnitude is Some && x == Fragment::MagnitudeMin)
            || (f.max_magnitude is Some && x == Fragment::MagnitudeMax)),
        no_uuids(magnitude_parts(f)),
{
    let m = magnitude_presence(f);
    let c9 = bound_clause(f.min_magnitude is Some, Fragment::MagnitudeMin,
        ArgView::Float(f.min_magnitude->0), None);
    let c10 = bound_clause(f.max_magnitude is Some, Fragment::MagnitudeMax,
        ArgView::Float(f.max_magnitude->0), None);
    if f.min_magnitude is Some || f.max_magnitude is Some {
        assert(m[0] == PartView::Sql(Fragment::MagnitudeNotNull));
    }
    lemma_clause_has(f.min_magnitude is Some, Fragment::MagnitudeMin, ArgView::Float(f.min_magnitude->0), None, x);
    lemma_clause_has(f.max_magnitude is Some, Fragment::MagnitudeMax, ArgView::Float(f.max_magnitude->0), None, x);
    lemma_has_concat(m, c9, x);
    lemma_has_concat(m + c9, c10, x);
    lemma_no_uuids_concat(m, c9);
    lemma_no_uuids_concat(m + c9, c10);
}

proof fn lemma_bbox_parts(f: EventListFilter, x: Fragment)
    ensures
        has_fragment(bbox_parts(f), x) <==> (f.bbox is Some
            && (x == Fragment::BboxOpen || x == Fragment::Comma || x == Fragment::BboxClose)),
        no_uuids(bbox_parts(f)),
{
    let b = bbox_parts(f);
    if f.bbox is Some {
        assert(b[0] == PartView::Sql(Fragment::BboxOpen));
        assert(b[2] == PartView::Sql(Fragment::Comma));
        assert(b[8] == PartView::Sql(Fragment::BboxClose));
    }
}

proof fn lemma_predicates(f: EventListFilter, x: Fragment)
    ensures
        has_fragment(predicate_parts(f), x) <==> (has_fragment(bbox_parts(f), x)
            || has_fragment(dimension_parts(f), x) || has_fragment(range_parts(f), x)
            || has_fragment(magnitude_parts(f), x)),
        no_uuids(predicate_parts(f)),
{
    let b = bbox_parts(f);
    let d = dimension_parts(f);
    let r = range_parts(f);
    let m = magnitude_parts(f);
    lemma_bbox_parts(f, x);
    lemma_dimension_parts(f, x);
    lemma_range_parts(f, x);
    lemma_magnitude_parts(f, x);
    lemma_has_concat(b, d, x);
    lemma_has_concat(b + d, r, x);
    lemma_has_concat(b + d + r, m, x);
    lemma_no_uuids_concat(b, d);
    lemma_no_uuids_concat(b + d, r);
    lemma_no_uuids_concat(b + d + r, m);
}

/// Multi-value dimensions constrain the query exactly when they are non-empty:
/// an empty category, severity or source list adds no `= ANY(...)` predicate,
/// and a non-empty one adds it.
pub proof fn empty_dimensions_add_no_predicate(f: EventListFilter)
    ensures
        has_fragment(predicate_parts(f), Fragment::CategoryAny) <==> f.categories@.len() > 0,
        has_fragment(predicate_parts(f), Fragment::SeverityAny) <==> f.severities@.len() > 0,
        has_fragment(predicate_parts(f), Fragment::SourceAny) <==> f.sources@.len() > 0,
{
    lemma_predicates(f, Fragment::CategoryAny);
    lemma_bbox_parts(f, Fragment::CategoryAny);
    lemma_dimension_parts(f, Fragment::CategoryAny);
    lemma_range_parts(f, Fragment::CategoryAny);
    lemma_magnitude_parts(f, Fragment::CategoryAny);
    lemma_predicates(f, Fragment::SeverityAny);
    lemma_bbox_parts(f, Fragment::SeverityAny);
    lemma_dimension_parts(f, Fragment::SeverityAny);
    lemma_range_parts(f, Fragment::SeverityAny);
    lemma_magnitude_parts(f, Fragment::SeverityAny);
    lemma_predicates(f, Fragment::SourceAny);
    lemma_bbox_parts(f, Fragment::SourceAny);
    lemma_dimension_parts(f, Fragment::SourceAny);
    lemma_range_parts(f, Fragment::SourceAny);
    lemma_magnitude_parts(f, Fragment::SourceAny);
}

/// An active magnitude bound also requires the event to have a magnitude:
/// `magnitude IS NOT NULL` is emitted exactly when either bound is set, so it
/// accompanies every magnitude bound.
pub proof fn magnitude_bound_implies_not_null(f: EventListFilter)
    ensures
        has_fragment(predicate_parts(f), Fragment::MagnitudeNotNull)
            <==> (f.min_magnitude is Some || f.max_magnitude is Some),
        has_fragment(predicate_parts(f), Fragment::MagnitudeMin) <==> f.min_magnitude is Some,
        has_fragment(predicate_parts(f), Fragment::MagnitudeMax) <==> f.max_magnitude is Some,
{
    lemma_predicates(f, Fragment::MagnitudeNotNull);
    lemma_bbox_parts(f, Fragment::MagnitudeNotNull);
    lemma_dimension_parts(f, Fragment::MagnitudeNotNull);
    lemma_range_parts(f, Fragment::MagnitudeNotNull);
    lemma_magnitude_parts(f, Fragment::MagnitudeNotNull);
    lemma_predicates(f, Fragment::MagnitudeMin);
    lemma_bbox_parts(f, Fragment::MagnitudeMin);
    lemma_dimension_parts(f, Fragment::MagnitudeMin);
    lemma_range_parts(f, Fragment::MagnitudeMin);
    lemma_magnitude_parts(f, Fragment::MagnitudeMin);
    lemma_predicates(f, Fragment::MagnitudeMax);
    lemma_bbox_parts(f, Fragment::MagnitudeMax);
    lemma_dimension_parts(f, Fragment::MagnitudeMax);
    lemma_range_parts(f, Fragment::MagnitudeMax);
    lemma_magnitude_parts(f, Fragment::MagnitudeMax);
}

proof fn lemma_tail_uuids(f: EventListFilter, t: u128, s: u128)
    ensures
        uuids_within(seq![PartView::Sql(order_fragment(f.sort))], t, s),
        uuids_within(page_parts(f), t, s),
        uuids_within(tenant_head(Fragment::ListSelect, f.tenant_id), f.tenant_id, SYSTEM_TENANT_ID),
        uuids_within(tenant_head(Fragment::CountSelect, f.tenant_id), f.tenant_id, SYSTEM_TENANT_ID),
        uuids_within(tenant_head(Fragment::MapSelect, f.tenant_id), f.tenant_id, SYSTEM_TENANT_ID),
{
}

proof fn lemma_widen(ps: Seq<PartView>, t: u128, s: u128)
    requires no_uuids(ps),
    ensures uuids_within(ps, t, s),
{
    assert forall|i: int| 0 <= i < ps.len() implies
        (#[trigger] ps[i] matches PartView::Bind(ArgView::Uuid(u)) ==> (u == t || u == s)) by {
        assert(!(ps[i] matches PartView::Bind(ArgView::Uuid(_))));
    }
}

/// Tenant isolation of the list query: it binds no tenant other than the
/// caller's own and the shared system tenant.
pub proof fn list_query_is_tenant_scoped(f: EventListFilter)
    ensures uuids_within(list_plan(f), f.tenant_id, SYSTEM_TENANT_ID),
{
    let t = f.tenant_id;
    let s = SYSTEM_TENANT_ID;
    lemma_predicates(f, Fragment::Comma);
    lemma_widen(predicate_parts(f), t, s);
    lemma_tail_uuids(f, t, s);
    let h = tenant_head(Fragment::ListSelect, t);
    let p = predicate_parts(f);
    let o = seq![PartView::Sql(order_fragment(f.sort))];
    lemma_uuids_concat(h, p, t, s);
    lemma_uuids_concat(h + p, o, t, s);
    lemma_uuids_concat(h + p + o, page_parts(f), t, s);
}

/// The count and the list share tenant scope and predicates: past the select
/// head, the count plan is a prefix of the list plan, and the map plan equals
/// the list plan.
pub proof fn count_and_map_share_list_scope(f: EventListFilter)
    ensures
        list_plan(f).subrange(1, count_plan(f).len() as int) == count_plan(f).subrange(1, count_plan(f).len() as int),
        map_plan(f).len() == list_plan(f).len(),
        map_plan(f).subrange(1, list_plan(f).len() as int) == list_plan(f).subrange(1, list_plan(f).len() as int),
{
    assert(list_plan(f).subrange(1, count_plan(f).len() as int) =~= count_plan(f).subrange(1, count_plan(f).len() as int));
    assert(map_plan(f).subrange(1, list_plan(f).len() as int) =~= list_plan(f).subrange(1, list_plan(f).len() as int));
}

/// Whether every type cast in a plan directly follows the value it casts.
pub open spec fn casts_follow_binds(ps: Seq<PartView>) -> bool {
    forall|i: int| 0 <= i < ps.len() && (#[trigger] ps[i] matches PartView::Sql(f) && is_cast(f))
        ==> i > 0 && ps[i - 1] is Bind
}

/// Number of value tuples opened in a plan.
pub open spec fn row_opens(ps: Seq<PartView>) -> nat
    decreases ps.len(),
{
    if ps.len() == 0 {
        0
    } else {
        row_opens(ps.drop_last()) + (if ps.last() == PartView::Sql(Fragment::RowOpen) { 1nat } else { 0nat })
    }
}

proof fn lemma_row_opens_concat(a: Seq<PartView>, b: Seq<PartView>)
    ensures row_opens(a + b) == row_opens(a) + row_opens(b),
    decreases b.len(),
{
    if b.len() == 0 {
        assert(a + b =~= a);
    } else {
        lemma_row_opens_concat(a, b.drop_last());
        assert((a + b).drop_last() =~= a + b.drop_last());
    }
}

proof fn lemma_casts_concat(a: Seq<PartView>, b: Seq<PartView>)
    requires
        casts_follow_binds(a),
        casts_follow_binds(b),
        b.len() > 0 ==> !(b[0] matches PartView::Sql(f) && is_cast(f)),
    ensures casts_follow_binds(a + b),
{
    assert forall|i: int| 0 <= i < (a + b).len() && (#[trigger] (a + b)[i] matches PartView::Sql(f) && is_cast(f))
        implies i > 0 && (a + b)[i - 1] is Bind by {
        if i >= a.len() {
            assert((a + b)[i] == b[i - a.len()]);
            if i - a.len() > 0 {
                assert((a + b)[i - 1] == b[i - a.len() - 1]);
            }
        } else {
            assert((a + b)[i] == a[i]);
            assert((a + b)[i - 1] == a[i - 1]);
        }
    }
}

proof fn lemma_column_pairs(r: usize, cs: Seq<(Column, Fragment)>)
    requires forall|i: int| 0 <= i < cs.len() ==> (#[trigger] cs[i]).1 != Fragment::RowOpen,
    ensures
        casts_follow_binds(column_pairs(r, cs)),
        row_opens(column_pairs(r, cs)) == 0,
        column_pairs(r, cs).len() > 0 ==> column_pairs(r, cs)[0] is Bind,
    decreases cs.len(),
{
    if cs.len() > 0 {
        let d = cs.drop_last();
        assert forall|i: int| 0 <= i < d.len() implies (#[trigger] d[i]).1 != Fragment::RowOpen by {
            assert(d[i] == cs[i]);
        }
        lemma_column_pairs(r, d);
        let a = column_pairs(r, d);
        let b = seq![PartView::Bind(ArgView::Column(r, cs.last().0)), PartView::Sql(cs.last().1)];
        assert(cs.last() == cs[cs.len() - 1]);
        lemma_casts_concat(a, b);
        lemma_row_opens_concat(a, b);
        reveal_with_fuel(row_opens, 3);
        if a.len() > 0 {
            assert((a + b)[0] == a[0]);
        }
    }
}

proof fn lemma_row_parts(r: usize)
    ensures
        casts_follow_binds(row_parts(r)),
        row_opens(row_parts(r)) == 1,
        row_parts(r)[0] == PartView::Sql(Fragment::RowOpen),
{
    let cs = row_columns();
    assert forall|i: int| 0 <= i < cs.len() implies (#[trigger] cs[i]).1 != Fragment::RowOpen by {
    }
    lemma_column_pairs(r, cs);
    let h = seq![PartView::Sql(Fragment::RowOpen)];
    lemma_casts_concat(h, column_pairs(r, cs));
    lemma_row_opens_concat(h, column_pairs(r, cs));
    reveal_with_fuel(row_opens, 2);
}

proof fn lemma_row_list(n: nat)
    ensures
        casts_follow_binds(row_list(n)),
        row_opens(row_list(n)) == n,
        row_list(n).len() > 0 ==> !(row_list(n)[0] matches PartView::Sql(f) && is_cast(f)),
    decreases n,
{
    if n == 1 {
        lemma_row_parts(0);
    } else if n > 1 {
        lemma_row_list((n - 1) as nat);
        lemma_row_parts((n - 1) as usize);
        let a = row_list((n - 1) as nat);
        let c = seq![PartView::Sql(Fragment::Comma)];
        let r = row_parts((n - 1) as usize);
        lemma_casts_concat(a, c);
        lemma_casts_concat(a + c, r);
        lemma_row_opens_concat(a, c);
        lemma_row_opens_concat(a + c, r);
        reveal_with_fuel(row_opens, 2);
        assert((a + c + r)[0] == a[0]);
    }
}

/// Every type cast in a batch upsert is attached to the value it casts (never
/// separated from it by a comma), and a batch of `n` events has exactly `n`
/// value tuples.
pub proof fn backfill_casts_attach_to_values(n: nat)
    ensures
        casts_follow_binds(backfill_plan(n)),
        row_opens(backfill_plan(n)) == n,
{
    lemma_row_list(n);
    let h = seq![PartView::Sql(Fragment::BackfillInsert)];
    let t = seq![PartView::Sql(Fragment::BackfillConflict)];
    lemma_casts_concat(h, row_list(n));
    lemma_casts_concat(h + row_list(n), t);
    lemma_row_opens_concat(h, row_list(n));
    lemma_row_opens_concat(h + row_list(n), t);
    reveal_with_fuel(row_opens, 2);
}

// ---------------------------------------------------------------------------
// Coordinates: longitude is x, latitude is y
// ---------------------------------------------------------------------------

/// Whether `p` holds, right after its tenant head, the viewport envelope of
/// `b` as `ST_MakeEnvelope` takes it: west, south, east, north, that is
/// `(xmin, ymin, xmax, ymax)` with longitude as x.
pub open spec fn envelope_after_head(p: Seq<PartView>, b: EventBBox) -> bool {
    &&& p.len() >= 14
    &&& p[5] == PartView::Sql(Fragment::BboxOpen)
    &&& p[6] == PartView::Bind(ArgView::Float(b.min_lon))
    &&& p[7] == PartView::Sql(Fragment::Comma)
    &&& p[8] == PartView::Bind(ArgView::Float(b.min_lat))
    &&& p[9] == PartView::Sql(Fragment::Comma)
    &&& p[10] == PartView::Bind(ArgView::Float(b.max_lon))
    &&& p[11] == PartView::Sql(Fragment::Comma)
    &&& p[12] == PartView::Bind(ArgView::Float(b.max_lat))
    &&& p[13] == PartView::Sql(Fragment::BboxClose)
}

/// A viewport restricts the list, the count and the map points alike to the
/// envelope whose corners are the box's western longitude and southern
/// latitude, then its eastern longitude and northern latitude: longitude is
/// always the x coordinate, bound before the latitude of the same corner.
pub proof fn viewport_envelope_is_lon_lat(f: EventListFilter)
    requires f.bbox is Some,
    ensures
        envelope_after_head(list_plan(f), f.bbox->0),
        envelope_after_head(count_plan(f), f.bbox->0),
        envelope_after_head(map_plan(f), f.bbox->0),
{
    let b = f.bbox->0;
    let p = predicate_parts(f);
    assert(p.subrange(0, 9) =~= bbox_parts(f));
    assert(p.len() >= 9);
    assert(list_plan(f).subrange(5, 14) =~= p.subrange(0, 9));
    assert(count_plan(f).subrange(5, 14) =~= p.subrange(0, 9));
    assert(map_plan(f).subrange(5, 14) =~= p.subrange(0, 9));
}

/// The columns of the events table in the order of the insert's column list;
/// the location column is given as its longitude, then its latitude (x, y).
pub open spec fn insert_column_order() -> Seq<Column> {
    seq![
        Column::Id, Column::TenantId, Column::Source, Column::SourceEventId, Column::Category,
        Column::Severity, Column::ImpactScore, Column::Magnitude, Column::Title, Column::Summary,
        Column::Body, Column::OriginalText, Column::TranslatedText, Column::Language,
        Column::Lon, Column::Lat,
        Column::Country, Column::Region, Column::PlaceName, Column::OccurredAt, Column::DetectedAt,
        Column::IngestedAt, Column::Status, Column::Verification, Column::Confidence, Column::Tags,
        Column::Url, Column::Raw, Column::Embedding,
    ]
}

proof fn column_pairs_layout(r: usize, cs: Seq<(Column, Fragment)>)
    ensures
        column_pairs(r, cs).len() == 2 * cs.len(),
        forall|k: int| 0 <= k < cs.len() ==> #[trigger] column_pairs(r, cs)[2 * k] == PartView::Bind(ArgView::Column(r, cs[k].0))
            && column_pairs(r, cs)[2 * k + 1] == PartView::Sql(cs[k].1),
    decreases cs.len(),
{
    if cs.len() > 0 {
        let d = cs.drop_last();
        column_pairs_layout(r, d);
        let c = column_pairs(r, cs);
        assert forall|k: int| 0 <= k < cs.len() implies #[trigger] c[2 * k] == PartView::Bind(ArgView::Column(r, cs[k].0))
            && c[2 * k + 1] == PartView::Sql(cs[k].1) by {
            if k < d.len() {
                assert(d[k] == cs[k]);
                assert(column_pairs(r, d)[2 * k] == PartView::Bind(ArgView::Column(r, d[k].0)));
            }
        }
    }
}

proof fn row_parts_layout(r: usize)
    ensures
        row_parts(r).len() == 59,
        forall|k: int| 0 <= k < 29 ==> #[trigger] row_parts(r)[1 + 2 * k] == PartView::Bind(ArgView::Column(r, row_columns()[k].0))
            && row_parts(r)[2 + 2 * k] == PartView::Sql(row_columns()[k].1),
{
    column_pairs_layout(r, row_columns());
    let c = column_pairs(r, row_columns());
    assert forall|k: int| 0 <= k < 29 implies #[trigger] row_parts(r)[1 + 2 * k] == PartView::Bind(ArgView::Column(r, row_columns()[k].0))
        && row_parts(r)[2 + 2 * k] == PartView::Sql(row_columns()[k].1) by {
        assert(row_parts(r)[1 + 2 * k] == c[2 * k]);
        assert(row_parts(r)[2 + 2 * k] == c[2 * k + 1]);
    }
}

proof fn row_list_layout(n: nat)
    requires n <= usize::MAX,
    ensures
        n > 0 ==> row_list(n).len() == 60 * n - 1,
        forall|r: int, j: int| 0 <= r < n && 0 <= j < 59 ==> #[trigger] row_list(n)[60 * r + j] == row_parts(r as usize)[j],
    decreases n,
{
    if n == 1 {
        row_parts_layout(0);
    } else if n > 1 {
        row_list_layout((n - 1) as nat);
        row_parts_layout((n - 1) as usize);
        let a = row_list((n - 1) as nat);
        assert forall|r: int, j: int| 0 <= r < n && 0 <= j < 59 implies #[trigger] row_list(n)[60 * r + j] == row_parts(r as usize)[j] by {
            if r < n - 1 {
                assert(a[60 * r + j] == row_parts(r as usize)[j]);
            }
        }
    }
}

/// Every value row of a batch upsert binds its event's columns in the order of
/// the insert's column list, so each value lands in its own column; in
/// particular the point is made from the longitude (x), then the latitude (y).
pub proof fn backfill_rows_follow_column_order(n: nat, r: int)
    requires 0 <= r < n, n <= usize::MAX,
    ensures
        forall|k: int| 0 <= k < 29 ==> #[trigger] backfill_plan(n)[1 + 60 * r + 1 + 2 * k]
            == PartView::Bind(ArgView::Column(r as usize, insert_column_order()[k])),
        backfill_plan(n)[1 + 60 * r + 28] == PartView::Sql(Fragment::PointOpen),
        backfill_plan(n)[1 + 60 * r + 29] == PartView::Bind(ArgView::Column(r as usize, Column::Lon)),
        backfill_plan(n)[1 + 60 * r + 30] == PartView::Sql(Fragment::Comma),
        backfill_plan(n)[1 + 60 * r + 31] == PartView::Bind(ArgView::Column(r as usize, Column::Lat)),
        backfill_plan(n)[1 + 60 * r + 32] == PartView::Sql(Fragment::PointClose),
{
    row_list_layout(n);
    row_parts_layout(r as usize);
    let p = backfill_plan(n);
    let l = row_list(n);
    assert(row_columns().map_values(|c: (Column, Fragment)| c.0) =~= insert_column_order());
    assert forall|j: int| 0 <= j < 59 implies #[trigger] p[1 + 60 * r + j] == row_parts(r as usize)[j] by {
        assert(l[60 * r + j] == row_parts(r as usize)[j]);
        assert(p[1 + 60 * r + j] == l[60 * r + j]);
    }
    assert forall|k: int| 0 <= k < 29 implies #[trigger] p[1 + 60 * r + 1 + 2 * k]
        == PartView::Bind(ArgView::Column(r as usize, insert_column_order()[k])) by {
        assert(p[1 + 60 * r + (1 + 2 * k)] == row_parts(r as usize)[1 + 2 * k]);
        assert(row_columns().map_values(|c: (Column, Fragment)| c.0)[k] == row_columns()[k].0);
    }
    assert(row_columns()[13].1 == Fragment::PointOpen);
    assert(row_parts(r as usize)[1 + 2 * 13int] == PartView::Bind(ArgView::Column(r as usize, row_columns()[13].0)));
    assert(p[1 + 60 * r + 28] == row_parts(r as usize)[2 + 2 * 13int]);
    assert(p[1 + 60 * r + 29] == row_parts(r as usize)[1 + 2 * 14int]);
    assert(p[1 + 60 * r + 30] == row_parts(r as usize)[2 + 2 * 14int]);
    assert(p[1 + 60 * r + 31] == row_parts(r as usize)[1 + 2 * 15int]);
    assert(p[1 + 60 * r + 32] == row_parts(r as usize)[2 + 2 * 15int]);
}

} // verus!
