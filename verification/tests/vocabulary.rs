use geos::event_store::{pg_category, pg_severity, pg_status, pg_verification, parse_category, parse_status};
use geos::events::{Category, EventStatus, Severity, VerificationStatus};
use geos::impact::nws_alert;
use geos::rbac::{Permission, RolePreset};
use geos::tasks::{owner_role, tenant_role_seeds, WorkerTaskStatus};
use geos::error::AppError;

#[test]
fn pg_enum_strings_match_migration() {
    assert_eq!(pg_category(Category::Earthquake), "earthquake");
    assert_eq!(pg_severity(Severity::Critical), "critical");
    assert_eq!(pg_status(EventStatus::Active), "active");
    assert_eq!(pg_verification(VerificationStatus::Unverified), "unverified");
}

#[test]
fn worker_task_status_variants_exist() {
    assert_ne!(WorkerTaskStatus::Pending, WorkerTaskStatus::Running);
    assert_ne!(WorkerTaskStatus::Completed, WorkerTaskStatus::Failed);
}

#[test]
fn owner_preset_has_all_permissions() {
    assert_eq!(RolePreset::Owner.permissions().len(), Permission::all().len());
}

#[test]
fn nws_extreme_immediate_is_critical() {
    let (score, severity) = nws_alert(Some("Extreme"), Some("Immediate"));
    assert_eq!(score, 100);
    assert_eq!(severity, Severity::Critical);
}

#[test]
fn nws_severe_fixture_maps_high() {
    let (score, severity) = nws_alert(Some("Severe"), Some("Expected"));
    assert_eq!(score, 80);
    assert_eq!(severity, Severity::High);
}

#[test]
fn nws_unknown_terms_score_low() {
    let (score, severity) = nws_alert(None, None);
    assert_eq!(score, 15);
    assert_eq!(severity, Severity::Info);
    let (score, severity) = nws_alert(Some("Moderate"), Some("Future"));
    assert_eq!(score, 50);
    assert_eq!(severity, Severity::Moderate);
}

#[test]
fn nws_tiers_are_monotone_in_severity() {
    let order = ["Minor", "Moderate", "Severe", "Extreme"];
    let mut last = 0u8;
    for term in order.iter() {
        let (score, _) = nws_alert(Some(term), Some("Expected"));
        assert!(score >= last, "{term}");
        last = score;
    }
}

#[test]
fn stored_keys_parse_back() {
    assert_eq!(parse_category(pg_category(Category::Wildfire)).unwrap(), Category::Wildfire);
    assert_eq!(parse_status(pg_status(EventStatus::Archived)).unwrap(), EventStatus::Archived);
    match parse_category("volcano") {
        Err(AppError::Internal(m)) => assert_eq!(m, "unknown category: volcano"),
        other => panic!("unexpected {other:?}"),
    }
}

#[test]
fn permission_keys_are_distinct_and_dotted() {
    let all = Permission::all();
    for (i, p) in all.iter().enumerate() {
        assert!(p.as_str().contains('.'), "{}", p.as_str());
        for q in all.iter().skip(i + 1) {
            assert_ne!(p.as_str(), q.as_str());
        }
    }
}

#[test]
fn viewer_is_within_analyst_within_owner() {
    let owner: Vec<&str> = RolePreset::Owner.permissions().iter().map(|p| p.as_str()).collect();
    let analyst: Vec<&str> = RolePreset::Analyst.permissions().iter().map(|p| p.as_str()).collect();
    let viewer: Vec<&str> = RolePreset::Viewer.permissions().iter().map(|p| p.as_str()).collect();
    for key in viewer.iter() {
        assert!(analyst.contains(key), "{key}");
    }
    for key in analyst.iter() {
        assert!(owner.contains(key), "{key}");
    }
    assert!(viewer.len() < analyst.len());
    assert!(analyst.len() < owner.len());
}

#[test]
fn tenant_roles_are_seeded_from_presets() {
    let seeds = tenant_role_seeds();
    let presets = RolePreset::all();
    assert_eq!(seeds.len(), presets.len());
    for (seed, preset) in seeds.iter().zip(presets.iter()) {
        assert_eq!(seed.key, preset.key());
        assert_eq!(seed.name, preset.display_name());
        let expected: Vec<&str> = preset.permissions().iter().map(|p| p.as_str()).collect();
        assert_eq!(seed.permission_keys, expected);
    }
    assert_eq!(seeds[0].key, "owner");
}

#[test]
fn owner_role_is_found_or_refused() {
    let seeded = vec![(RolePreset::Owner, 7u128), (RolePreset::Analyst, 8), (RolePreset::Viewer, 9)];
    assert_eq!(owner_role(&seeded).unwrap(), 7);
    let without = vec![(RolePreset::Viewer, 9u128)];
    match owner_role(&without) {
        Err(AppError::Internal(m)) => assert_eq!(m, "owner role not seeded"),
        other => panic!("unexpected {other:?}"),
    }
}

#[test]
fn task_status_keys() {
    assert_eq!(WorkerTaskStatus::Pending.as_str(), "pending");
    assert_eq!(WorkerTaskStatus::Running.as_str(), "running");
    assert_eq!(WorkerTaskStatus::Completed.as_str(), "completed");
    assert_eq!(WorkerTaskStatus::Failed.as_str(), "failed");
}

#[test]
fn analyst_reads_everything_but_manages_no_tenant() {
    let analyst = RolePreset::Analyst.permissions();
    for p in Permission::all() {
        if p.as_str().ends_with(".read") {
            assert!(analyst.contains(&p), "{}", p.as_str());
        }
    }
    for p in [Permission::MembersManage, Permission::RbacManage, Permission::TenantSettingsManage] {
        assert!(!analyst.contains(&p), "{}", p.as_str());
    }
    assert!(analyst.contains(&Permission::RbacRead));
    assert!(analyst.contains(&Permission::TenantSettingsRead));
}
