use geos::auth::{hash_refresh_token, MembershipAuthRow, RefreshTokenRow, UserAuthRow};
use geos::error::AppError;
use geos::password::{hash_password, verify_password};
use geos::session_flow::{begin_login, begin_refresh, begin_register, AuthAction, AuthEvent, AuthFlow, AuthKind};

fn member(slug: &str) -> MembershipAuthRow {
    MembershipAuthRow { membership_id: 11, tenant_id: 22, tenant_slug: slug.to_owned(), role_key: "analyst".to_owned() }
}

fn user(status: &str, hash: Option<String>) -> UserAuthRow {
    UserAuthRow { id: 5, email: "a@b.c".to_owned(), password_hash: hash, status: status.to_owned() }
}

fn failure(step: (AuthFlow, AuthAction)) -> AppError {
    match step {
        (AuthFlow::Done, AuthAction::Fail(e)) => e,
        _ => panic!("expected a failure"),
    }
}

fn login_with(password: &str, row: Option<UserAuthRow>, slug: Option<&str>) -> (AuthFlow, AuthAction) {
    let (flow, action) = begin_login(password.to_owned(), slug.map(str::to_owned));
    assert!(matches!(action, AuthAction::FindUser));
    let event = AuthEvent::UserRow(row);
    assert!(flow.expects(&event));
    flow.step(event)
}

#[test]
fn login_bad_credentials_look_alike() {
    let hash = hash_password("secure-password-12").unwrap();
    for row in [None, Some(user("active", None)), Some(user("active", Some(hash.clone())))] {
        match failure(login_with("wrong-password-99", row, None)) {
            AppError::Unauthorized(m) => assert_eq!(m, "invalid email or password"),
            other => panic!("unexpected {other:?}"),
        }
    }
    match failure(login_with("secure-password-12", Some(user("disabled", Some(hash))), None)) {
        AppError::Forbidden(m) => assert_eq!(m, "account disabled"),
        other => panic!("unexpected {other:?}"),
    }
    match failure(login_with("x", Some(user("active", Some("garbage".to_owned()))), None)) {
        AppError::Internal(m) => assert_eq!(m, "stored hash invalid"),
        other => panic!("unexpected {other:?}"),
    }
}

#[test]
fn login_then_membership_issues_session() {
    let hash = hash_password("secure-password-12").unwrap();
    let (flow, action) = login_with("secure-password-12", Some(user("active", Some(hash.clone()))), Some("acme"));
    match action {
        AuthAction::FindMembership { user_id, tenant_slug } => {
            assert_eq!(user_id, 5);
            assert_eq!(tenant_slug, "acme");
        }
        _ => panic!("expected a membership lookup"),
    }
    let event = AuthEvent::MembershipBySlug(Some(member("acme")));
    assert!(flow.expects(&event));
    assert!(!flow.expects(&AuthEvent::Revoked));
    match flow.step(event) {
        (AuthFlow::Done, AuthAction::Issue { user_id, membership, kind }) => {
            assert_eq!(user_id, 5);
            assert_eq!(membership.tenant_slug, "acme");
            assert_eq!(kind, AuthKind::Login);
        }
        _ => panic!("expected a session"),
    }
    let (flow, action) = login_with("secure-password-12", Some(user("active", Some(hash))), None);
    assert!(matches!(action, AuthAction::ListMemberships { user_id: 5 }));
    match failure(flow.step(AuthEvent::MembershipBySlug(None))) {
        AppError::Forbidden(m) => assert_eq!(m, "not a member of this tenant"),
        other => panic!("unexpected {other:?}"),
    }
}

#[test]
fn register_checks_before_creating() {
    match failure(begin_register("short".to_owned(), "acme".to_owned())) {
        AppError::Validation { message, .. } => assert_eq!(message, "password too short"),
        other => panic!("unexpected {other:?}"),
    }
    let (flow, action) = begin_register("secure-password-12".to_owned(), "acme".to_owned());
    assert!(matches!(action, AuthAction::FindUser));
    match failure(flow.step(AuthEvent::UserRow(Some(user("active", None))))) {
        AppError::Conflict(m) => assert_eq!(m, "email already registered"),
        other => panic!("unexpected {other:?}"),
    }
    let (flow, _) = begin_register("secure-password-12".to_owned(), "acme".to_owned());
    let (flow, action) = flow.step(AuthEvent::UserRow(None));
    match action {
        AuthAction::CreateAccount { password_hash } => {
            assert_eq!(verify_password("secure-password-12", &password_hash).unwrap(), true);
            assert_eq!(verify_password("secure-password-13", &password_hash).unwrap(), false);
        }
        _ => panic!("expected account creation"),
    }
    let event = AuthEvent::AccountCreated { tenant_id: 1, user_id: 2, membership_id: 3 };
    assert!(flow.expects(&event));
    match flow.step(event) {
        (AuthFlow::Done, AuthAction::Issue { user_id, membership, kind }) => {
            assert_eq!(user_id, 2);
            assert_eq!((membership.membership_id, membership.tenant_id), (3, 1));
            assert_eq!(membership.tenant_slug, "acme");
            assert_eq!(membership.role_key, "owner");
            assert_eq!(kind, AuthKind::Register);
        }
        _ => panic!("expected a session"),
    }
}

#[test]
fn refresh_revokes_before_resolving() {
    let (flow, action) = begin_refresh("raw-token", None);
    match action {
        AuthAction::FindRefreshToken { token_hash } => assert_eq!(token_hash, hash_refresh_token("raw-token")),
        _ => panic!("expected a token lookup"),
    }
    match failure(flow.step(AuthEvent::RefreshRow(None))) {
        AppError::Unauthorized(m) => assert_eq!(m, "invalid refresh token"),
        other => panic!("unexpected {other:?}"),
    }
    let (flow, _) = begin_refresh("raw-token", None);
    let (flow, action) = flow.step(AuthEvent::RefreshRow(Some(RefreshTokenRow { id: 8, user_id: 9 })));
    assert!(matches!(action, AuthAction::RevokeRefreshToken { id: 8 }));
    let (flow, action) = flow.step(AuthEvent::Revoked);
    assert!(matches!(action, AuthAction::ListMemberships { user_id: 9 }));
    match failure(flow.step(AuthEvent::MembershipList(vec![member("a"), member("b")]))) {
        AppError::BadRequest(m) => assert_eq!(m, "tenant_slug required when user belongs to multiple tenants"),
        other => panic!("unexpected {other:?}"),
    }
    let (flow, _) = begin_refresh("raw-token", None);
    let (flow, _) = flow.step(AuthEvent::RefreshRow(Some(RefreshTokenRow { id: 8, user_id: 9 })));
    let (flow, _) = flow.step(AuthEvent::Revoked);
    match flow.step(AuthEvent::MembershipList(vec![member("only")])) {
        (AuthFlow::Done, AuthAction::Issue { user_id: 9, membership, kind: AuthKind::Refresh }) => {
            assert_eq!(membership.tenant_slug, "only");
        }
        _ => panic!("expected a session"),
    }
    let (flow, _) = begin_refresh("raw-token", None);
    let (flow, _) = flow.step(AuthEvent::RefreshRow(Some(RefreshTokenRow { id: 8, user_id: 9 })));
    let (flow, _) = flow.step(AuthEvent::Revoked);
    match failure(flow.step(AuthEvent::MembershipList(vec![]))) {
        AppError::Forbidden(m) => assert_eq!(m, "no active tenant memberships"),
        other => panic!("unexpected {other:?}"),
    }
}
