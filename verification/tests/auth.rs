use geos::auth::{
    accept_access_claims, accept_tiles_claims, bearer_token, build_access_claims, build_tiles_claims,
    check_email_available, check_login_account, check_new_password, check_password_match, check_refresh_row,
    hash_refresh_token, membership_for_slug, mint_refresh_token, only_membership, owner_membership,
    refresh_expires_at, require_bearer, require_tiles_token, session_response, AuthContext, MembershipAuthRow,
    RefreshTokenRow, UserAuthRow, ACCESS_TOKEN_TTL_SECS, REFRESH_TOKEN_TTL_SECS, TILES_TOKEN_TTL_SECS,
};
use geos::error::AppError;
use geos::numbers::Instant;
use geos::rbac::Permission;

#[test]
fn refresh_token_hash_is_deterministic() {
    assert_eq!(hash_refresh_token("abc"), hash_refresh_token("abc"));
    assert_ne!(hash_refresh_token("abc"), hash_refresh_token("def"));
}

#[test]
fn refresh_hash_is_lowercase_sha256_hex() {
    assert_eq!(
        hash_refresh_token("abc"),
        "ba7816bf8f01cfea414140de5dae2223b00361a396177a9cb410ff61f20015ad"
    );
    assert_eq!(hash_refresh_token("").len(), 64);
}

#[test]
fn minted_refresh_tokens_are_uuids_with_their_hash() {
    let (raw, hash) = mint_refresh_token();
    assert!(uuid::Uuid::parse_str(&raw).is_ok(), "{raw}");
    assert_eq!(hash, hash_refresh_token(&raw));
    let (other, _) = mint_refresh_token();
    assert_ne!(raw, other);
}

fn member(permissions: &[&str]) -> AuthContext {
    AuthContext {
        user_id: 1,
        tenant_id: 2,
        membership_id: 3,
        role: "viewer".to_owned(),
        permissions: permissions.iter().map(|p| p.to_string()).collect(),
    }
}

#[test]
fn access_claims_round_trip_through_acceptance() {
    let claims = build_access_claims(1_000, 1, 2, 3, "owner".to_owned(), vec!["events.read".to_owned()]);
    assert_eq!(claims.typ, "access");
    assert_eq!(claims.iat, 1_000);
    assert_eq!(claims.exp, 1_000 + ACCESS_TOKEN_TTL_SECS);
    assert_eq!(ACCESS_TOKEN_TTL_SECS, 900);
    let accepted = accept_access_claims(Some(claims)).unwrap();
    assert_eq!(accepted.sub, 1);
    assert_eq!(accepted.permissions, vec!["events.read".to_owned()]);
}

#[test]
fn access_acceptance_rejects_missing_and_wrong_type() {
    match accept_access_claims(None) {
        Err(AppError::Unauthorized(m)) => assert_eq!(m, "invalid or expired access token"),
        other => panic!("unexpected {other:?}"),
    }
    let mut claims = build_access_claims(5, 1, 2, 3, "owner".to_owned(), vec![]);
    claims.typ = "tiles".to_owned();
    match accept_access_claims(Some(claims)) {
        Err(AppError::Unauthorized(m)) => assert_eq!(m, "invalid token type"),
        other => panic!("unexpected {other:?}"),
    }
}

#[test]
fn tiles_claims_need_type_and_audience() {
    let claims = build_tiles_claims(10, 4, 5);
    assert_eq!(claims.exp, 10 + TILES_TOKEN_TTL_SECS);
    assert_eq!(TILES_TOKEN_TTL_SECS, 12 * 60 * 60);
    assert!(accept_tiles_claims(Some(claims)).is_ok());
    let mut wrong = build_tiles_claims(10, 4, 5);
    wrong.aud = "web".to_owned();
    match accept_tiles_claims(Some(wrong)) {
        Err(AppError::Unauthorized(m)) => assert_eq!(m, "invalid token type"),
        other => panic!("unexpected {other:?}"),
    }
    match accept_tiles_claims(None) {
        Err(AppError::Unauthorized(m)) => assert_eq!(m, "invalid or expired tiles token"),
        other => panic!("unexpected {other:?}"),
    }
    match require_tiles_token(None) {
        Err(AppError::Unauthorized(m)) => assert_eq!(m, "missing tiles token"),
        other => panic!("unexpected {other:?}"),
    }
    assert_eq!(require_tiles_token(Some("t")).unwrap(), "t");
}

#[test]
fn permissions_are_checked_by_key() {
    let ctx = member(&["events.read", "search.read"]);
    assert!(ctx.require_permission(Permission::EventsRead).is_ok());
    match ctx.require_permission(Permission::SavedFiltersManage) {
        Err(AppError::Forbidden(m)) => assert_eq!(m, "insufficient permissions"),
        other => panic!("unexpected {other:?}"),
    }
    assert!(member(&[]).require_permission(Permission::EventsRead).is_err());
}

#[test]
fn bearer_header_parsing() {
    assert_eq!(bearer_token(Some("Bearer abc.def")), Some("abc.def"));
    assert_eq!(bearer_token(Some("bearer abc")), None);
    assert_eq!(bearer_token(None), None);
    assert_eq!(require_bearer(Some("Bearer x")).unwrap(), "x");
    match require_bearer(Some("Basic x")) {
        Err(AppError::Unauthorized(m)) => assert_eq!(m, "missing or invalid Authorization header"),
        other => panic!("unexpected {other:?}"),
    }
}

#[test]
fn password_policy_counts_bytes() {
    assert!(check_new_password("secure-password-12").is_ok());
    assert!(check_new_password("exactly12chr").is_ok());
    match check_new_password("short") {
        Err(AppError::Validation { message, fields }) => {
            assert_eq!(message, "password too short");
            assert_eq!(fields, vec![("password".to_owned(), "must be at least 12 characters".to_owned())]);
        }
        other => panic!("unexpected {other:?}"),
    }
    assert!(check_new_password("ééééé").is_err());
    assert!(check_new_password("éééééé").is_ok());
}

fn user(status: &str, hash: Option<&str>) -> UserAuthRow {
    UserAuthRow { id: 77, email: "a@b.c".to_owned(), password_hash: hash.map(str::to_owned), status: status.to_owned() }
}

#[test]
fn login_account_checks() {
    match check_login_account(None) {
        Err(AppError::Unauthorized(m)) => assert_eq!(m, "invalid email or password"),
        other => panic!("unexpected {other:?}"),
    }
    match check_login_account(Some(user("disabled", Some("h")))) {
        Err(AppError::Forbidden(m)) => assert_eq!(m, "account disabled"),
        other => panic!("unexpected {other:?}"),
    }
    match check_login_account(Some(user("active", None))) {
        Err(AppError::Unauthorized(m)) => assert_eq!(m, "invalid email or password"),
        other => panic!("unexpected {other:?}"),
    }
    assert_eq!(check_login_account(Some(user("active", Some("h")))).unwrap(), (77, "h".to_owned()));
    assert!(check_password_match(true).is_ok());
    assert!(matches!(check_password_match(false), Err(AppError::Unauthorized(_))));
}

#[test]
fn registration_and_refresh_checks() {
    assert!(check_email_available(None).is_ok());
    match check_email_available(Some(user("active", None))) {
        Err(AppError::Conflict(m)) => assert_eq!(m, "email already registered"),
        other => panic!("unexpected {other:?}"),
    }
    let row = RefreshTokenRow { id: 1, user_id: 2 };
    assert_eq!(check_refresh_row(Some(row)).unwrap(), row);
    match check_refresh_row(None) {
        Err(AppError::Unauthorized(m)) => assert_eq!(m, "invalid refresh token"),
        other => panic!("unexpected {other:?}"),
    }
    let owner = owner_membership(5, 6, "acme");
    assert_eq!(owner.role_key, "owner");
    assert_eq!(owner.tenant_slug, "acme");
}

fn membership(slug: &str) -> MembershipAuthRow {
    MembershipAuthRow { membership_id: 1, tenant_id: 2, tenant_slug: slug.to_owned(), role_key: "viewer".to_owned() }
}

#[test]
fn membership_resolution() {
    match only_membership(vec![]) {
        Err(AppError::Forbidden(m)) => assert_eq!(m, "no active tenant memberships"),
        other => panic!("unexpected {other:?}"),
    }
    assert_eq!(only_membership(vec![membership("a")]).unwrap().tenant_slug, "a");
    match only_membership(vec![membership("a"), membership("b")]) {
        Err(AppError::BadRequest(m)) => assert_eq!(m, "tenant_slug required when user belongs to multiple tenants"),
        other => panic!("unexpected {other:?}"),
    }
    match membership_for_slug(None) {
        Err(AppError::Forbidden(m)) => assert_eq!(m, "not a member of this tenant"),
        other => panic!("unexpected {other:?}"),
    }
    assert_eq!(membership_for_slug(Some(membership("z"))).unwrap().tenant_slug, "z");
}

#[test]
fn session_payload() {
    let keys = vec!["saved_filters.read".to_owned(), "saved_filters.manage".to_owned()];
    let r = session_response(9, membership("acme"), "acc".to_owned(), "ref".to_owned(), keys.clone());
    assert_eq!(r.permissions, keys);
    assert_eq!(r.token_type, "Bearer");
    assert_eq!(r.expires_in, 900);
    assert_eq!(r.user_id, 9);
    assert_eq!(r.tenant_slug, "acme");
    assert_eq!(r.role, "viewer");
    let t = refresh_expires_at(Instant { secs: 100, nanos: 7 });
    assert_eq!(t, Instant { secs: 100 + REFRESH_TOKEN_TTL_SECS as i64, nanos: 7 });
    assert_eq!(REFRESH_TOKEN_TTL_SECS, 7 * 24 * 60 * 60);
}
