use geos::auth::AuthContext;
use geos::error::AppError;
use geos::event_store::EventSort;
use geos::numbers::{Float64, Instant};
use geos::saved_filters::{
    check_preset_write, current_version, full_impact, owned_preset, validate_name, SavedFilterBody,
    SavedFilterPayload, TimeRangePreset,
};

fn payload() -> SavedFilterPayload {
    SavedFilterPayload {
        version: 1,
        categories: vec![],
        severities: vec![],
        sources: vec![],
        impact_min: 0,
        impact_max: 100,
        magnitude_min: None,
        magnitude_max: None,
        time_range: TimeRangePreset::ThirtyDays,
        from: None,
        to: None,
        sort: EventSort::Recent,
    }
}

fn bad_request(r: Result<(), AppError>) -> String {
    match r {
        Err(AppError::BadRequest(m)) => m,
        other => panic!("expected a bad request, got {other:?}"),
    }
}

#[test]
fn defaults_validate() {
    assert!(payload().validate().is_ok());
}

#[test]
fn inverted_impact_range_is_rejected() {
    let mut p = payload();
    p.impact_min = 80;
    p.impact_max = 20;
    assert!(p.validate().is_err());
}

#[test]
fn custom_range_requires_endpoints() {
    let mut p = payload();
    p.time_range = TimeRangePreset::Custom;
    assert!(p.validate().is_err());
}

#[test]
fn payload_errors_name_the_problem() {
    let mut p = payload();
    p.impact_max = 101;
    assert_eq!(bad_request(p.validate()), "impact bounds must be within 0–100");

    let mut p = payload();
    p.impact_min = 80;
    p.impact_max = 20;
    assert_eq!(bad_request(p.validate()), "impactMin must be less than or equal to impactMax");

    let mut p = payload();
    p.magnitude_min = Some(Float64 { bits: 6.0f64.to_bits() });
    p.magnitude_max = Some(Float64 { bits: 2.5f64.to_bits() });
    assert_eq!(bad_request(p.validate()), "magnitudeMin must be less than or equal to magnitudeMax");

    let mut p = payload();
    p.time_range = TimeRangePreset::Custom;
    assert_eq!(bad_request(p.validate()), "custom time range requires from and to");

    let mut p = payload();
    p.time_range = TimeRangePreset::Custom;
    p.from = Some(Instant { secs: 200, nanos: 0 });
    p.to = Some(Instant { secs: 100, nanos: 0 });
    assert_eq!(bad_request(p.validate()), "custom range: from must be <= to");

    p.to = Some(Instant { secs: 200, nanos: 0 });
    assert!(p.validate().is_ok());
}

#[test]
fn payload_defaults() {
    assert_eq!(full_impact(), 100);
    assert_eq!(current_version(), 1);
    assert_eq!(TimeRangePreset::default(), TimeRangePreset::ThirtyDays);
    assert_eq!(EventSort::default(), EventSort::Recent);
}

#[test]
fn preset_names_are_trimmed_and_bounded() {
    assert_eq!(validate_name("  Quakes  ").unwrap(), "Quakes");
    match validate_name("   ") {
        Err(AppError::BadRequest(m)) => assert_eq!(m, "preset name is required"),
        other => panic!("unexpected {other:?}"),
    }
    let long = "é".repeat(81);
    match validate_name(&long) {
        Err(AppError::BadRequest(m)) => assert_eq!(m, "preset name must be 80 characters or fewer"),
        other => panic!("unexpected {other:?}"),
    }
    let exact = "é".repeat(80);
    assert_eq!(validate_name(&exact).unwrap(), exact.as_str());
}

fn caller(permissions: &[&str]) -> AuthContext {
    AuthContext {
        user_id: 1,
        tenant_id: 2,
        membership_id: 3,
        role: "analyst".to_owned(),
        permissions: permissions.iter().map(|p| p.to_string()).collect(),
    }
}

#[test]
fn preset_writes_need_manage_permission_then_valid_input() {
    let body = SavedFilterBody { name: " Mine ".to_owned(), filters: payload() };
    match check_preset_write(&caller(&["saved_filters.read"]), &body) {
        Err(AppError::Forbidden(m)) => assert_eq!(m, "insufficient permissions"),
        other => panic!("unexpected {other:?}"),
    }
    let manager = caller(&["saved_filters.read", "saved_filters.manage"]);
    assert_eq!(check_preset_write(&manager, &body).unwrap(), "Mine");

    let unnamed = SavedFilterBody { name: "".to_owned(), filters: payload() };
    assert!(matches!(check_preset_write(&manager, &unnamed), Err(AppError::BadRequest(_))));

    let mut bad = payload();
    bad.impact_min = 90;
    bad.impact_max = 10;
    let inverted = SavedFilterBody { name: "x".to_owned(), filters: bad };
    match check_preset_write(&manager, &inverted) {
        Err(AppError::BadRequest(m)) => assert_eq!(m, "impactMin must be less than or equal to impactMax"),
        other => panic!("unexpected {other:?}"),
    }
}

#[test]
fn foreign_presets_are_not_found() {
    assert_eq!(owned_preset(Some(5u32)).unwrap(), 5);
    match owned_preset::<u32>(None) {
        Err(AppError::NotFound(m)) => assert_eq!(m, "saved filter not found"),
        other => panic!("unexpected {other:?}"),
    }
}
