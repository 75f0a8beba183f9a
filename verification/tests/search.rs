use geos::error::AppError;
use geos::events::{Category, Event, EventStatus, GeoPoint, Severity, VerificationStatus};
use geos::numbers::{Float32, Float64, Instant};
use geos::search::{
    category_str, document_to_search_hit, meili_in, severity_str, EventDocument, SearchFilters, SearchSort,
    EVENTS_INDEX,
};
use geos::event_store::{column_value, event_for_tenant, Column, ColumnValue};

fn sample_event(tenant_id: u128, event_id: u128, now: Instant) -> Event {
    Event {
        id: event_id,
        tenant_id,
        source: "usgs".to_owned(),
        source_event_id: "abc".to_owned(),
        category: Category::Earthquake,
        severity: Severity::High,
        impact_score: 80,
        magnitude: Some(Float64 { bits: 5.1f64.to_bits() }),
        title: Some("Quake".to_owned()),
        summary: None,
        body: None,
        original_text: None,
        translated_text: None,
        language: None,
        location: GeoPoint { lon: Float64 { bits: 1.0f64.to_bits() }, lat: Float64 { bits: 2.0f64.to_bits() } },
        affected_area: None,
        country: None,
        region: None,
        place_name: Some("Somewhere".to_owned()),
        occurred_at: now,
        detected_at: None,
        ingested_at: now,
        status: EventStatus::Active,
        verification_status: VerificationStatus::Unverified,
        confidence: Float32 { bits: 0.5f32.to_bits() },
        tags: vec!["test".to_owned()],
        url: None,
        raw: serde_json::Value::Object(serde_json::Map::new()),
        embedding: None,
    }
}

#[test]
fn event_document_maps_core_fields() {
    let now = Instant { secs: 1_720_000_123, nanos: 456 };
    let tenant_id = 0x0123_4567_89ab_cdef_0123_4567_89ab_cdefu128;
    let event_id = 0xfedc_ba98_7654_3210_fedc_ba98_7654_3210u128;
    let event = sample_event(tenant_id, event_id, now);

    let doc = EventDocument::from_event(&event);
    assert_eq!(doc.id, uuid::Uuid::from_u128(event_id).to_string());
    assert_eq!(doc.tenant_id, uuid::Uuid::from_u128(tenant_id).to_string());
    assert_eq!(doc.category, "earthquake");
    assert_eq!(doc.occurred_at_unix, now.secs);
    assert_eq!(doc.id, "fedcba98-7654-3210-fedc-ba9876543210");
}

#[test]
fn filter_expression_uses_in_and_numeric_time() {
    let tenant_id = 42u128;
    let filters = SearchFilters {
        categories: vec![Category::Earthquake, Category::Weather],
        severities: vec![],
        sources: vec!["usgs".to_owned()],
        impact_min: Some(20),
        impact_max: Some(90),
        occurred_after: Some(Instant { secs: 1_700_000_000, nanos: 0 }),
        occurred_before: None,
    };
    let expr = filters.to_expression(tenant_id);
    assert!(expr.contains("tenant_id ="), "{expr}");
    assert!(expr.contains("category IN [\"earthquake\", \"weather\"]"), "{expr}");
    assert!(expr.contains("source IN [\"usgs\"]"), "{expr}");
    assert!(expr.contains("impact_score >= 20"), "{expr}");
    assert!(expr.contains("impact_score <= 90"), "{expr}");
    assert!(expr.contains("occurred_at_unix >= 1700000000"), "{expr}");
}

#[test]
fn expression_is_scoped_to_tenant_or_system() {
    let expr = SearchFilters::default().to_expression(7);
    assert!(expr.contains("tenant_id = \"00000000-0000-0000-0000-000000000007\""), "{expr}");
    assert!(expr.contains("tenant_id = \"00000000-0000-4000-8000-000000000001\""), "{expr}");
    assert!(!expr.contains("category IN"), "{expr}");
}

#[test]
fn document_round_trips_to_hit() {
    let now = Instant { secs: 1_600_000_000, nanos: 0 };
    let event = sample_event(9, 10, now);
    let hit = document_to_search_hit(EventDocument::from_event(&event)).unwrap();
    assert_eq!(hit.id, 10);
    assert_eq!(hit.tenant_id, 9);
    assert_eq!(hit.category, Category::Earthquake);
    assert_eq!(hit.severity, Severity::High);
    assert_eq!(hit.impact_score, 80);
    assert_eq!(hit.occurred_at, now);
    assert_eq!(hit.title.as_deref(), Some("Quake"));
}

#[test]
fn corrupt_documents_are_internal_errors() {
    let mut doc = EventDocument::from_event(&sample_event(1, 2, Instant { secs: 0, nanos: 0 }));
    doc.category = "volcano".to_owned();
    match document_to_search_hit(doc) {
        Err(AppError::Internal(m)) => assert_eq!(m, "unknown category in index: volcano"),
        other => panic!("unexpected {:?}", other.is_ok()),
    }
    let mut doc = EventDocument::from_event(&sample_event(1, 2, Instant { secs: 0, nanos: 0 }));
    doc.id = "not-a-uuid".to_owned();
    doc.category = "volcano".to_owned();
    match document_to_search_hit(doc) {
        Err(AppError::Internal(m)) => assert_eq!(m, "invalid event id in search index"),
        other => panic!("unexpected {:?}", other.is_ok()),
    }
}

#[test]
fn in_clause_quotes_and_escapes() {
    let values = vec!["a\"b".to_owned(), "c".to_owned()];
    assert_eq!(meili_in("source", &values), "source IN [\"a\\\"b\", \"c\"]");
    let trailing = vec!["a\\".to_owned(), "x\\\"y".to_owned()];
    assert_eq!(meili_in("source", &trailing), "source IN [\"a\\\\\", \"x\\\\\\\"y\"]");
}

#[test]
fn sort_rules_and_index_keys() {
    assert!(SearchSort::Relevance.rules().is_empty());
    assert_eq!(SearchSort::Recent.rules(), vec!["occurred_at:desc"]);
    assert_eq!(SearchSort::ImpactDesc.rules(), vec!["impact_score:desc"]);
    assert_eq!(SearchSort::default(), SearchSort::Relevance);
    assert_eq!(category_str(Category::Wildfire), "wildfire");
    assert_eq!(severity_str(Severity::Moderate), "moderate");
    assert_eq!(EVENTS_INDEX, "events");
}

#[test]
fn column_values_follow_the_event() {
    let now = Instant { secs: 1_720_000_123, nanos: 456 };
    let event = sample_event(7, 9, now);
    assert!(matches!(column_value(&event, Column::Id), ColumnValue::Uuid(9)));
    assert!(matches!(column_value(&event, Column::TenantId), ColumnValue::Uuid(7)));
    assert!(matches!(column_value(&event, Column::Source), ColumnValue::Text(s) if s == "usgs"));
    assert!(matches!(column_value(&event, Column::Category), ColumnValue::Label("earthquake")));
    assert!(matches!(column_value(&event, Column::Severity), ColumnValue::Label("high")));
    assert!(matches!(column_value(&event, Column::ImpactScore), ColumnValue::SmallInt(80)));
    match column_value(&event, Column::Lon) {
        ColumnValue::Float(v) => assert_eq!(f64::from_bits(v.bits), 1.0),
        _ => panic!("longitude"),
    }
    match column_value(&event, Column::Lat) {
        ColumnValue::Float(v) => assert_eq!(f64::from_bits(v.bits), 2.0),
        _ => panic!("latitude"),
    }
    assert!(matches!(column_value(&event, Column::PlaceName), ColumnValue::OptText(Some(s)) if s == "Somewhere"));
    assert!(matches!(column_value(&event, Column::Summary), ColumnValue::OptText(None)));
    assert!(matches!(column_value(&event, Column::OccurredAt), ColumnValue::Time(t) if t == now));
    assert!(matches!(column_value(&event, Column::DetectedAt), ColumnValue::OptTime(None)));
    assert!(matches!(column_value(&event, Column::Status), ColumnValue::Label("active")));
    assert!(matches!(column_value(&event, Column::Verification), ColumnValue::Label("unverified")));
    assert!(matches!(column_value(&event, Column::Tags), ColumnValue::Texts(t) if t == &vec!["test".to_owned()]));
    assert!(matches!(column_value(&event, Column::Embedding), ColumnValue::Embedding(None)));
}

#[test]
fn single_event_is_visible_to_its_own_tenant_only() {
    let now = Instant { secs: 1_720_000_123, nanos: 0 };
    assert_eq!(event_for_tenant(Some(sample_event(7, 9, now)), 7).unwrap().id, 9);
    for found in [Some(sample_event(8, 9, now)), Some(sample_event(geos::tenancy::SYSTEM_TENANT_ID, 9, now)), None] {
        match event_for_tenant(found, 7) {
            Err(AppError::NotFound(m)) => assert_eq!(m, "event not found"),
            other => panic!("unexpected {:?}", other.map(|e| e.id)),
        }
    }
}
