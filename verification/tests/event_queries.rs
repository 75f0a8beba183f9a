use geos::event_store::{
    backfill_batches, build_backfill_upsert, count_events_query, list_events_query, map_points_query,
    render_sql, EventListFilter, EventSort, BACKFILL_BATCH_SIZE,
};
use geos::events::{Category, Severity};
use geos::numbers::{Float64, Instant};

fn base_filter() -> EventListFilter {
    EventListFilter {
        tenant_id: 0x11,
        bbox: None,
        categories: vec![],
        severities: vec![],
        sources: vec![],
        occurred_after: None,
        occurred_before: None,
        impact_min: None,
        impact_max: None,
        min_magnitude: None,
        max_magnitude: None,
        sort: EventSort::Recent,
        limit: 50,
        offset: 0,
    }
}

fn list_sql(filter: &EventListFilter) -> String {
    render_sql(&list_events_query(filter))
}

#[test]
fn empty_multi_filters_add_no_predicate() {
    let sql = list_sql(&base_filter());
    assert!(!sql.contains("ANY("), "empty vecs must not emit ANY(): {sql}");
    assert!(sql.contains("ORDER BY occurred_at DESC"));
}

#[test]
fn multi_value_filters_use_any() {
    let mut f = base_filter();
    f.categories = vec![Category::Earthquake, Category::Weather];
    f.severities = vec![Severity::High];
    f.sources = vec!["usgs".to_owned()];
    let sql = list_sql(&f);
    assert!(sql.contains("category = ANY("), "{sql}");
    assert!(sql.contains("severity = ANY("), "{sql}");
    assert!(sql.contains("source = ANY("), "{sql}");
}

#[test]
fn magnitude_bound_implies_not_null() {
    let mut f = base_filter();
    f.min_magnitude = Some(Float64 { bits: 4.0f64.to_bits() });
    let sql = list_sql(&f);
    assert!(sql.contains("magnitude IS NOT NULL"), "{sql}");
    assert!(sql.contains("magnitude >= "), "{sql}");
}

#[test]
fn sort_modes_use_nulls_last() {
    let mut f = base_filter();
    f.sort = EventSort::ImpactDesc;
    assert!(list_sql(&f).contains("impact_score DESC NULLS LAST"));
    f.sort = EventSort::MagnitudeDesc;
    assert!(list_sql(&f).contains("magnitude DESC NULLS LAST"));
}

#[test]
fn backfill_upsert_sql_casts_are_not_comma_separated() {
    let sql = render_sql(&build_backfill_upsert(2));
    assert!(!sql.contains(", ::"), "casts must attach to their bind, not be separate columns: {sql}");
    assert!(sql.contains("::event_category, "), "missing category cast: {sql}");
    assert!(sql.contains("::event_severity, "), "missing severity cast: {sql}");
    assert!(sql.contains(")::geography, "), "missing geography cast: {sql}");
    assert!(sql.contains("::event_status, "), "missing status cast: {sql}");
    assert!(sql.contains("::verification_status, "), "missing verification cast: {sql}");
    assert!(sql.contains("::jsonb, "), "missing jsonb cast: {sql}");
    assert_eq!(sql.matches("::vector)").count(), 2, "expected two value rows: {sql}");
    assert!(sql.contains("ON CONFLICT (tenant_id, source, source_event_id, occurred_at)"));
}

#[test]
fn list_query_is_scoped_to_tenant_and_system() {
    let sql = list_sql(&base_filter());
    assert!(sql.contains("tenant_id IN ($1, $2)"), "{sql}");
    assert!(sql.contains(" LIMIT $3 OFFSET $4"), "{sql}");
}

#[test]
fn every_bound_gets_its_placeholder() {
    let mut f = base_filter();
    f.categories = vec![Category::Earthquake];
    f.impact_min = Some(10);
    f.impact_max = Some(90);
    f.occurred_after = Some(Instant { secs: 1_700_000_000, nanos: 0 });
    let sql = list_sql(&f);
    assert!(sql.contains("category = ANY($3::event_category[])"), "{sql}");
    assert!(sql.contains("occurred_at >= $4"), "{sql}");
    assert!(sql.contains("impact_score >= $5"), "{sql}");
    assert!(sql.contains("impact_score <= $6"), "{sql}");
    assert!(sql.contains("LIMIT $7 OFFSET $8"), "{sql}");
}

#[test]
fn count_and_map_share_the_list_predicates() {
    let mut f = base_filter();
    f.sources = vec!["usgs".to_owned(), "nws".to_owned()];
    let count = render_sql(&count_events_query(&f));
    let map = render_sql(&map_points_query(&f));
    assert!(count.contains("source = ANY($3)"), "{count}");
    assert!(map.contains("source = ANY($3)"), "{map}");
    assert!(count.contains("COUNT(*)"), "{count}");
    assert!(!count.contains("ORDER BY"), "{count}");
}

#[test]
fn backfill_batches_cover_every_row_once() {
    assert_eq!(backfill_batches(0), vec![]);
    let batches = backfill_batches(2 * BACKFILL_BATCH_SIZE + 3);
    assert_eq!(batches, vec![(0, BACKFILL_BATCH_SIZE), (BACKFILL_BATCH_SIZE, 2 * BACKFILL_BATCH_SIZE),
        (2 * BACKFILL_BATCH_SIZE, 2 * BACKFILL_BATCH_SIZE + 3)]);
    assert_eq!(BACKFILL_BATCH_SIZE, 50);
}

#[test]
fn backfill_placeholders_count_all_columns() {
    let one = render_sql(&build_backfill_upsert(1));
    let two = render_sql(&build_backfill_upsert(2));
    assert!(one.contains("$29::vector)"), "{one}");
    assert!(two.contains("$58::vector)"), "{two}");
    assert!(!two.contains("$59"), "{two}");
}
