use geos::config::DEFAULT_IMAGERY_UPSTREAM_URL;
use geos::search::{collect_search_results, filterable_attributes, searchable_attributes, sortable_attributes, EventDocument};
use geos::numbers::{Float64, Instant};
use geos::storage::{
    classify_status, nos_claims, object_url, replace_all, storage_base, upstream_tile_url, ResponseClass,
    NOS_TOKEN_TTL_SECS,
};

#[test]
fn object_urls_join_base_bucket_and_key() {
    let base = storage_base("http://localhost:9000///");
    assert_eq!(base, "http://localhost:9000");
    assert_eq!(object_url(&base, "geos-tiles", "sentinel2/1/2/3.jpg"), "http://localhost:9000/geos-tiles/sentinel2/1/2/3.jpg");
}

#[test]
fn service_token_claims() {
    let c = nos_claims(1_000);
    assert_eq!(c.sub, "geos-api");
    assert_eq!(c.email, "geos-api@geos.internal");
    assert_eq!(c.role, "admin");
    assert_eq!(c.exp - c.iat, NOS_TOKEN_TTL_SECS);
    assert_eq!(NOS_TOKEN_TTL_SECS, 300);
}

#[test]
fn status_classes() {
    assert_eq!(classify_status(404), ResponseClass::Missing);
    assert_eq!(classify_status(200), ResponseClass::Success);
    assert_eq!(classify_status(204), ResponseClass::Success);
    assert_eq!(classify_status(500), ResponseClass::Failure);
    assert_eq!(classify_status(403), ResponseClass::Failure);
    assert_eq!(classify_status(301), ResponseClass::Failure);
}

#[test]
fn replacement_matches_std() {
    for (s, pat, with) in [("a{z}b{z}", "{z}", "7"), ("{z}{z}", "{z}", ""), ("zzz", "zz", "y"), ("", "x", "y"), ("é{x}é", "{x}", "ü"), ("abc", "", "x"), ("", "", "x"), ("é", "", "")] {
        assert_eq!(replace_all(s, pat, with), s.replace(pat, with), "{s}");
    }
    assert_eq!(replace_all("abc", "", "x"), "xaxbxcx");
}

#[test]
fn upstream_template_is_filled() {
    let url = upstream_tile_url(DEFAULT_IMAGERY_UPSTREAM_URL, 5, 10, 20);
    assert!(url.ends_with("/GoogleMapsCompatible/5/20/10.jpg"), "{url}");
    assert_eq!(upstream_tile_url("t/{z}/{x}/{y}", 1, 2, 3), "t/1/2/3");
}

fn doc(id: &str, category: &str) -> EventDocument {
    EventDocument {
        id: id.to_owned(),
        tenant_id: "00000000-0000-4000-8000-000000000001".to_owned(),
        source: "usgs".to_owned(),
        title: None,
        summary: None,
        place_name: None,
        tags: vec![],
        category: category.to_owned(),
        severity: "low".to_owned(),
        impact_score: 10,
        occurred_at: Instant { secs: 1, nanos: 0 },
        occurred_at_unix: 1,
        lat: Float64 { bits: 0 },
        lon: Float64 { bits: 0 },
    }
}

#[test]
fn search_results_drop_undecodable_documents() {
    let docs = vec![
        doc("00000000-0000-0000-0000-000000000001", "weather"),
        doc("broken", "weather"),
        doc("00000000-0000-0000-0000-000000000003", "volcano"),
        doc("00000000-0000-0000-0000-000000000004", "news"),
    ];
    let r = collect_search_results("q", docs, 20, 0, None);
    assert_eq!(r.hits.len(), 2);
    assert_eq!(r.hits[0].id, 1);
    assert_eq!(r.hits[1].id, 4);
    assert_eq!(r.estimated_total, 0);
    assert_eq!(r.query, "q");
    let r = collect_search_results("q", vec![], 5, 10, Some(42));
    assert_eq!((r.limit, r.offset, r.estimated_total), (5, 10, 42));
}

#[test]
fn index_settings() {
    assert_eq!(filterable_attributes(), vec!["tenant_id", "category", "severity", "impact_score", "source", "occurred_at_unix"]);
    assert_eq!(sortable_attributes(), vec!["occurred_at", "impact_score"]);
    assert_eq!(searchable_attributes()[0], "title");
}
