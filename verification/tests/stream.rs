use geos::auth::{build_access_claims, AccessClaims};
use geos::error::AppError;
use geos::stream::{
    missing_notified_event, stream_context, stream_step, stream_token, upsert_notification, EventNotifyAction,
    StreamAction, StreamInput, EVENT_NOTIFY_CHANNEL, STREAM_FORBIDDEN, STREAM_UNAUTHORIZED,
};

fn claims(permissions: &[&str]) -> AccessClaims {
    build_access_claims(1, 10, 20, 30, "viewer".to_owned(), permissions.iter().map(|p| p.to_string()).collect())
}

#[test]
fn stream_token_prefers_header() {
    assert_eq!(stream_token(Some("Bearer h"), Some("q")), Some("h"));
    assert_eq!(stream_token(Some("Basic h"), Some("q")), Some("q"));
    assert_eq!(stream_token(None, Some("q")), Some("q"));
    assert_eq!(stream_token(None, None), None);
}

#[test]
fn stream_access_is_401_then_403() {
    match stream_context(Err(AppError::unauthorized("invalid or expired access token"))) {
        Err(status) => assert_eq!(status, 401),
        Ok(_) => panic!("opened without a token"),
    }
    match stream_context(Ok(claims(&["search.read"]))) {
        Err(status) => assert_eq!(status, 403),
        Ok(_) => panic!("opened without events.read"),
    }
    let ctx = stream_context(Ok(claims(&["events.read"]))).unwrap();
    assert_eq!(ctx.tenant_id, 20);
    assert_eq!(ctx.user_id, 10);
    assert_eq!((STREAM_UNAUTHORIZED, STREAM_FORBIDDEN), (401, 403));
}

#[test]
fn notifications_of_other_tenants_are_not_forwarded() {
    match stream_step(5, StreamInput::Notification(upsert_notification(5, 99))) {
        StreamAction::Load { event_id } => assert_eq!(event_id, 99),
        other => panic!("unexpected {other:?}"),
    }
    assert!(matches!(stream_step(5, StreamInput::Notification(upsert_notification(6, 99))), StreamAction::Wait));
}

#[test]
fn session_reactions() {
    assert!(matches!(stream_step(1, StreamInput::Lagged), StreamAction::Wait));
    assert!(matches!(stream_step(1, StreamInput::HubClosed), StreamAction::Stop));
    assert!(matches!(stream_step(1, StreamInput::ClientClosed), StreamAction::Stop));
    assert!(matches!(stream_step(1, StreamInput::ClientError), StreamAction::Stop));
    assert!(matches!(stream_step(1, StreamInput::ClientMessage), StreamAction::Wait));
    assert!(matches!(stream_step(1, StreamInput::SendFailed), StreamAction::Stop));
    assert!(matches!(stream_step(1, StreamInput::LoadFailed), StreamAction::Skip));
    match stream_step(1, StreamInput::ClientPing(vec![1, 2])) {
        StreamAction::SendPong(p) => assert_eq!(p, vec![1, 2]),
        other => panic!("unexpected {other:?}"),
    }
    match stream_step(1, StreamInput::Loaded("{}".to_owned())) {
        StreamAction::SendText(t) => assert_eq!(t, "{}"),
        other => panic!("unexpected {other:?}"),
    }
}

#[test]
fn notification_payload() {
    let p = upsert_notification(1, 2);
    assert_eq!(p.tenant_id, 1);
    assert_eq!(p.event_id, 2);
    assert_eq!(p.action, EventNotifyAction::Upsert);
    assert_eq!(EVENT_NOTIFY_CHANNEL, "geos_event_upsert");
    match missing_notified_event() {
        AppError::Internal(m) => assert_eq!(m, "event missing after notification"),
        other => panic!("unexpected {other:?}"),
    }
}
