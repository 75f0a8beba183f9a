use geos::error::AppError;
use geos::event_store::EventSort;
use geos::events::{Category, Severity};
use geos::numbers::{Float64, Instant};
use geos::query::{
    list_filter, list_page, map_filter, map_page, parse_bbox, parse_categories, parse_impact,
    parse_impact_range, parse_magnitude_range, parse_search_sort, parse_severities, parse_sort, parse_sources,
    search_page, search_request, search_terms, ListEventsQuery, SearchQuery,
};
use geos::search::SearchSort;

fn f(v: f64) -> Float64 {
    Float64 { bits: v.to_bits() }
}

fn bad(r: Result<impl std::fmt::Debug, AppError>) -> String {
    match r {
        Err(AppError::BadRequest(m)) => m,
        other => panic!("expected a bad request, got {other:?}"),
    }
}

#[test]
fn impact_scores_are_bounded() {
    assert_eq!(parse_impact(None, "impact_min").unwrap(), None);
    assert_eq!(parse_impact(Some(0), "impact_min").unwrap(), Some(0));
    assert_eq!(parse_impact(Some(100), "impact_min").unwrap(), Some(100));
    assert_eq!(bad(parse_impact(Some(101), "impact_max")), "impact_max must be between 0 and 100");
    assert_eq!(bad(parse_impact(Some(-1), "impact_min")), "impact_min must be between 0 and 100");
}

#[test]
fn impact_range_uses_alias_and_order() {
    assert_eq!(parse_impact_range(None, Some(90), Some(20)).unwrap(), (Some(20), Some(90)));
    assert_eq!(parse_impact_range(Some(30), None, Some(20)).unwrap(), (Some(30), None));
    assert_eq!(bad(parse_impact_range(Some(80), Some(20), None)), "impact_min must be <= impact_max");
    assert_eq!(bad(parse_impact_range(None, Some(20), Some(200))), "impact_min must be between 0 and 100");
}

#[test]
fn magnitude_range_order() {
    assert!(parse_magnitude_range(Some(f(2.0)), Some(f(5.0))).is_ok());
    assert!(parse_magnitude_range(Some(f(2.0)), None).is_ok());
    assert_eq!(bad(parse_magnitude_range(Some(f(6.0)), Some(f(5.0)))), "min_magnitude must be <= max_magnitude");
    assert!(parse_magnitude_range(Some(f(f64::NAN)), Some(f(5.0))).is_ok());
}

#[test]
fn dimension_lists_parse_snake_case_tokens() {
    assert_eq!(parse_categories(None).unwrap(), vec![]);
    assert_eq!(parse_categories(Some(" , ")).unwrap(), vec![]);
    assert_eq!(
        parse_categories(Some("earthquake, weather")).unwrap(),
        vec![Category::Earthquake, Category::Weather]
    );
    assert_eq!(bad(parse_categories(Some("earthquake,volcano,nope"))), "unknown category: volcano");
    assert_eq!(parse_severities(Some("high")).unwrap(), vec![Severity::High]);
    assert_eq!(bad(parse_severities(Some("severe"))), "unknown severity: severe");
    assert_eq!(parse_sources(Some(" usgs ,, nws")), vec!["usgs".to_owned(), "nws".to_owned()]);
    assert!(parse_sources(None).is_empty());
}

#[test]
fn sort_keys() {
    assert_eq!(parse_sort(None).unwrap(), EventSort::Recent);
    assert_eq!(parse_sort(Some("  ")).unwrap(), EventSort::Recent);
    assert_eq!(parse_sort(Some(" impact_desc ")).unwrap(), EventSort::ImpactDesc);
    assert_eq!(parse_sort(Some("magnitude_desc")).unwrap(), EventSort::MagnitudeDesc);
    assert_eq!(bad(parse_sort(Some(" oldest "))), "unknown sort: oldest");
    assert_eq!(parse_search_sort(None).unwrap(), SearchSort::Relevance);
    assert_eq!(parse_search_sort(Some("magnitude_desc")).unwrap(), SearchSort::Relevance);
    assert_eq!(parse_search_sort(Some("recent")).unwrap(), SearchSort::Recent);
    assert_eq!(bad(parse_search_sort(Some("oldest"))), "unknown sort: oldest");
}

#[test]
fn bbox_all_or_nothing() {
    assert!(parse_bbox(None, None, None, None).unwrap().is_none());
    let b = parse_bbox(Some(f(-10.0)), Some(f(-5.0)), Some(f(10.0)), Some(f(5.0))).unwrap().unwrap();
    assert_eq!(b.max_lon, f(10.0));
    assert_eq!(
        bad(parse_bbox(Some(f(10.0)), Some(f(-5.0)), Some(f(-10.0)), Some(f(5.0)))),
        "invalid bbox: min must be <= max"
    );
    assert_eq!(
        bad(parse_bbox(Some(f(1.0)), None, None, None)),
        "bbox requires min_lon, min_lat, max_lon, and max_lat together"
    );
}

#[test]
fn paging_bounds() {
    assert_eq!(list_page(None, None), (50, 0));
    assert_eq!(list_page(Some(0), Some(-5)), (1, 0));
    assert_eq!(list_page(Some(1000), Some(7)), (200, 7));
    assert_eq!(map_page(None, None), (100_000, 0));
    assert_eq!(map_page(Some(200_000), Some(3)), (100_000, 3));
    assert_eq!(search_page(None, None), (20, 0));
    assert_eq!(search_page(Some(0), Some(4)), (1, 4));
    assert_eq!(search_page(Some(500), None), (100, 0));
}

fn list_query() -> ListEventsQuery {
    ListEventsQuery {
        min_lon: None,
        min_lat: None,
        max_lon: None,
        max_lat: None,
        category: None,
        severity: None,
        source: None,
        occurred_after: None,
        occurred_before: None,
        impact_min: None,
        impact_max: None,
        min_impact: None,
        min_magnitude: None,
        max_magnitude: None,
        sort: None,
        limit: None,
        offset: None,
    }
}

#[test]
fn list_filter_assembles_a_tenant_filter() {
    let mut q = list_query();
    q.category = Some("earthquake".to_owned());
    q.source = Some("usgs".to_owned());
    q.min_impact = Some(10);
    q.occurred_after = Some(Instant { secs: 5, nanos: 0 });
    q.sort = Some("impact_desc".to_owned());
    q.limit = Some(500);
    let filter = list_filter(33, &q).unwrap();
    assert_eq!(filter.tenant_id, 33);
    assert_eq!(filter.categories, vec![Category::Earthquake]);
    assert_eq!(filter.sources, vec!["usgs".to_owned()]);
    assert_eq!(filter.impact_min, Some(10));
    assert_eq!(filter.occurred_after, Some(Instant { secs: 5, nanos: 0 }));
    assert_eq!(filter.sort, EventSort::ImpactDesc);
    assert_eq!((filter.limit, filter.offset), (200, 0));
}

#[test]
fn list_filter_checks_in_order() {
    let mut q = list_query();
    q.min_lon = Some(f(1.0));
    q.category = Some("volcano".to_owned());
    assert_eq!(bad(list_filter(1, &q)), "bbox requires min_lon, min_lat, max_lon, and max_lat together");
    q.min_lon = None;
    assert_eq!(bad(list_filter(1, &q)), "unknown category: volcano");
}

#[test]
fn map_filter_counts_only_first_page() {
    let mut q = list_query();
    let (f0, with_count) = map_filter(1, &q).unwrap();
    assert!(with_count);
    assert_eq!(f0.limit, 100_000);
    q.offset = Some(100_000);
    let (_, with_count) = map_filter(1, &q).unwrap();
    assert!(!with_count);
}

fn search_query(q: &str) -> SearchQuery {
    SearchQuery {
        q: q.to_owned(),
        category: None,
        severity: None,
        source: None,
        impact_min: None,
        impact_max: None,
        min_impact: None,
        occurred_after: None,
        occurred_before: None,
        sort: None,
        limit: None,
        offset: None,
    }
}

#[test]
fn search_requests_need_terms() {
    assert_eq!(bad(search_request(&search_query("   "))), "query parameter q is required");
    assert_eq!(search_terms("  quake ").unwrap(), "quake");
    let mut q = search_query("  UniqueSearchMarker ");
    q.severity = Some("high,critical".to_owned());
    q.sort = Some("magnitude_desc".to_owned());
    let plan = search_request(&q).unwrap();
    assert_eq!(plan.terms, "UniqueSearchMarker");
    assert_eq!(plan.filters.severities, vec![Severity::High, Severity::Critical]);
    assert_eq!(plan.sort, SearchSort::Relevance);
    assert_eq!((plan.limit, plan.offset), (20, 0));
    q.impact_max = Some(500);
    assert_eq!(bad(search_request(&q)), "impact_max must be between 0 and 100");
}
