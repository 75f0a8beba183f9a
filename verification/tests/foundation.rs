use geos::api::{check_tiles_session, health_response, request_id_for, tiles_session};
use geos::auth::AuthContext;
use geos::config::{optional_zoom, require_secret, require_var, Config, EnvValues, DEFAULT_TILES_MAX_ZOOM};
use geos::error::AppError;
use geos::search::{document_to_search_hit, EventDocument};
use geos::numbers::{Float64, Instant};
use geos::tiles::tile_request;
use geos::query::search_terms;
use geos::text::{decimal_string, join, split_csv, strip_prefix, strip_suffix, trim_end_matches_char};

#[test]
fn error_envelope_codes_and_statuses() {
    let cases = vec![
        (AppError::unauthorized("u"), "unauthorized", 401u16, "u"),
        (AppError::forbidden("f"), "forbidden", 403, "f"),
        (AppError::not_found("n"), "not_found", 404, "n"),
        (AppError::bad_request("b"), "bad_request", 400, "b"),
        (AppError::conflict("c"), "conflict", 409, "c"),
        (AppError::rate_limited("r"), "rate_limited", 429, "r"),
        (AppError::internal("secret detail"), "internal", 500, "Internal server error"),
        (AppError::Config("db password".to_owned()), "config", 500, "Internal server error"),
    ];
    for (err, code, status, message) in cases {
        assert_eq!(err.code(), code);
        assert_eq!(err.status_code(), status);
        assert_eq!(err.client_message(), message);
        let env = err.envelope();
        assert_eq!(env.error.code, code);
        assert_eq!(env.error.message, message);
        assert!(env.error.fields.is_none());
    }
}

#[test]
fn validation_envelope_carries_fields() {
    let err = AppError::validation("password too short", vec![("password".to_owned(), "too short".to_owned())]);
    assert_eq!(err.code(), "validation");
    assert_eq!(err.status_code(), 422);
    let env = err.envelope();
    assert_eq!(env.error.message, "password too short");
    assert_eq!(env.error.fields, Some(vec![("password".to_owned(), "too short".to_owned())]));
    let empty = AppError::validation("bad", vec![]).envelope();
    assert!(empty.error.fields.is_none());
}

#[test]
fn validation_fields_form_a_sorted_map() {
    let pair = |k: &str, v: &str| (k.to_owned(), v.to_owned());
    let err = AppError::validation("bad", vec![pair("name", "1"), pair("email", "2"), pair("name", "3"), pair("Age", "4")]);
    match err {
        AppError::Validation { fields, .. } => {
            assert_eq!(fields, vec![pair("Age", "4"), pair("email", "2"), pair("name", "3")]);
        }
        other => panic!("unexpected {other:?}"),
    }
    let prefixed = AppError::validation("bad", vec![pair("ab", "1"), pair("a", "2"), pair("é", "3"), pair("z", "4")]);
    match prefixed {
        AppError::Validation { fields, .. } => {
            assert_eq!(fields, vec![pair("a", "2"), pair("ab", "1"), pair("z", "4"), pair("é", "3")]);
        }
        other => panic!("unexpected {other:?}"),
    }
}

#[test]
fn display_text_per_variant() {
    assert_eq!(AppError::internal("db down").to_string(), "internal error: db down");
    assert_eq!(AppError::unauthorized("x").to_string(), "unauthorized: x");
    assert_eq!(AppError::forbidden("x").to_string(), "forbidden: x");
    assert_eq!(AppError::not_found("x").to_string(), "not found: x");
    assert_eq!(AppError::bad_request("x").to_string(), "bad request: x");
    assert_eq!(AppError::validation("x", vec![]).to_string(), "validation failed: x");
    assert_eq!(AppError::conflict("x").to_string(), "conflict: x");
    assert_eq!(AppError::rate_limited("x").to_string(), "rate limited: x");
    assert_eq!(AppError::Config("x".to_owned()).to_string(), "configuration error: x");
    let e = AppError::internal("db down");
    assert_eq!(e.status_code(), 500);
    assert_eq!(e.code(), "internal");
    assert_eq!(e.envelope().error.message, "Internal server error");
}

fn env() -> EnvValues {
    EnvValues {
        database_url: Some("postgres://db".to_owned()),
        meili_url: Some("http://meili".to_owned()),
        meili_master_key: Some("m".repeat(32)),
        storage_url: Some("http://storage".to_owned()),
        jwt_secret: Some("j".repeat(40)),
        nos_jwt_secret: Some("n".repeat(32)),
        tiles_bucket: None,
        imagery_upstream_url: Some("  ".to_owned()),
        tiles_max_zoom: Some(" 6 ".to_owned()),
        bind_addr: None,
    }
}

fn config_message(r: Result<Config, AppError>) -> String {
    match r {
        Err(AppError::Config(m)) => m,
        Err(other) => panic!("unexpected {other:?}"),
        Ok(_) => panic!("expected a configuration error"),
    }
}

#[test]
fn config_from_values_applies_defaults() {
    let c = Config::from_values(&env()).unwrap();
    assert_eq!(c.tiles_bucket, "geos-tiles");
    assert_eq!(c.tiles_max_zoom, 6);
    assert_eq!(c.bind_addr, "0.0.0.0:8080");
    assert!(c.imagery_upstream_url.contains("{z}"));
    assert_eq!(DEFAULT_TILES_MAX_ZOOM, 12);
}

#[test]
fn config_rejects_missing_weak_and_bad_values() {
    let mut e = env();
    e.database_url = Some("   ".to_owned());
    assert_eq!(config_message(Config::from_values(&e)), "missing required environment variable: DATABASE_URL");
    let mut e = env();
    e.jwt_secret = Some("short".to_owned());
    assert_eq!(config_message(Config::from_values(&e)), "JWT_SECRET must be at least 32 characters");
    let mut e = env();
    e.meili_url = None;
    e.nos_jwt_secret = None;
    assert_eq!(config_message(Config::from_values(&e)), "missing required environment variable: MEILI_URL");
    let mut e = env();
    e.nos_jwt_secret = None;
    assert_eq!(config_message(Config::from_values(&e)), "missing required environment variable: NOS_JWT_SECRET");
    let mut e = env();
    e.tiles_max_zoom = Some("deep".to_owned());
    assert_eq!(config_message(Config::from_values(&e)), "TILES_MAX_ZOOM must be a non-negative integer");
    assert_eq!(require_var("X", &Some(" v ".to_owned())).unwrap(), " v ");
    assert!(require_secret("S", &Some("é".repeat(16))).is_ok());
    assert_eq!(optional_zoom("Z", &None, 9).unwrap(), 9);
}

fn document_with_id(id: &str) -> EventDocument {
    EventDocument {
        id: id.to_owned(),
        tenant_id: "12345678-9abc-def0-1234-56789abcdef0".to_owned(),
        source: "usgs".to_owned(),
        title: None,
        summary: None,
        place_name: None,
        tags: vec![],
        category: "news".to_owned(),
        severity: "info".to_owned(),
        impact_score: 1,
        occurred_at: Instant { secs: 0, nanos: 0 },
        occurred_at_unix: 0,
        lat: Float64 { bits: 0 },
        lon: Float64 { bits: 0 },
    }
}

#[test]
fn uuid_text_round_trips() {
    let hit = document_to_search_hit(document_with_id("12345678-9abc-def0-1234-56789abcdef0")).unwrap();
    assert_eq!(hit.id, 0x1234_5678_9abc_def0_1234_5678_9abc_def0u128);
    assert_eq!(hit.tenant_id, hit.id);
    assert!(document_to_search_hit(document_with_id("nope")).is_err());
}

#[test]
fn text_helpers() {
    assert_eq!(decimal_string(0), "0");
    assert_eq!(decimal_string(1_700_000_000), "1700000000");
    assert_eq!(search_terms("\t a b \n").unwrap(), "a b");
    assert_eq!(split_csv(" a, ,b ,"), vec!["a".to_owned(), "b".to_owned()]);
    assert_eq!(strip_prefix("Bearer x", "Bearer "), Some("x"));
    assert_eq!(strip_suffix("2.jpg", ".jpg"), Some("2"));
    assert_eq!(strip_suffix("2.png", ".jpg"), None);
    assert_eq!(trim_end_matches_char("http://x///", '/'), "http://x");
    assert_eq!(tile_request(1, 1, "4294967295", 2).unwrap().y, u32::MAX);
    assert!(tile_request(1, 1, "4294967296", 2).is_err());
    assert_eq!(tile_request(1, 1, "+1.jpg", 2).unwrap().y, 1);
    assert!(tile_request(1, 1, "-1", 2).is_err());
    assert_eq!(join(&vec!["a".to_owned(), "b".to_owned()], ", "), "a, b");
}

#[test]
fn api_bodies() {
    let h = health_response("0.1.0");
    assert_eq!(h.status, "ok");
    assert_eq!(h.version, "0.1.0");
    let s = tiles_session("tok".to_owned(), 6);
    assert_eq!(s.expires_in, 43_200);
    assert_eq!(s.max_zoom, 6);
    assert_eq!(request_id_for(Some("abc")), "abc");
    let generated = request_id_for(None);
    assert!(uuid::Uuid::parse_str(&generated).is_ok(), "{generated}");
    assert_eq!(generated.chars().nth(14), Some('4'), "{generated}");
    assert!(matches!(generated.chars().nth(19), Some('8' | '9' | 'a' | 'b')), "{generated}");
    let viewer = AuthContext {
        user_id: 1,
        tenant_id: 2,
        membership_id: 3,
        role: "viewer".to_owned(),
        permissions: vec!["events.read".to_owned()],
    };
    assert!(check_tiles_session(&viewer).is_ok());
    let nobody = AuthContext { permissions: vec![], ..viewer };
    assert!(matches!(check_tiles_session(&nobody), Err(AppError::Forbidden(_))));
}
