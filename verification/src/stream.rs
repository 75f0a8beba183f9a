//! Live event stream: the upsert notification payload, who may open a stream,
//! and the per-connection decisions of a stream session (which notifications
//! reach the client, pings, and when the session ends).

use vstd::prelude::*;
use crate::auth::{AccessClaims, AuthContext, bearer_token, grants};
use crate::error::AppError;
use crate::rbac::Permission;
use crate::text::without_prefix;

verus! {

/// Channel of event upsert notifications (`LISTEN` / `NOTIFY`).
pub const EVENT_NOTIFY_CHANNEL: &'static str = "geos_event_upsert";

/// Action carried on an event notification.
#[derive(Debug, Clone, Copy, PartialEq, Eq, Structural)]
pub enum EventNotifyAction {
    /// A canonical event row was inserted or updated.
    Upsert,
}

/// Payload of an event notification.
#[derive(Debug, Clone, Copy, PartialEq, Eq, Structural)]
pub struct EventNotifyPayload {
    /// Owning tenant, for isolation downstream.
    pub tenant_id: u128,
    /// Canonical event id.
    pub event_id: u128,
    /// What changed.
    pub action: EventNotifyAction,
}

/// The notification sent after an event row is persisted.
pub fn upsert_notification(tenant_id: u128, event_id: u128) -> (p: EventNotifyPayload)
    ensures p == (EventNotifyPayload { tenant_id, event_id, action: EventNotifyAction::Upsert }),
{
    EventNotifyPayload { tenant_id, event_id, action: EventNotifyAction::Upsert }
}

/// Kind tag of a pushed stream message.
pub const STREAM_UPSERT_KIND: &'static str = "event.upsert";

// ---------------------------------------------------------------------------
// Opening a stream
// ---------------------------------------------------------------------------

/// The token of a stream request: the `Authorization: Bearer` header first,
/// else the `token` query parameter (browsers cannot set socket headers).
pub fn stream_token<'a>(header: Option<&'a str>, query: Option<&'a str>) -> (t: Option<&'a str>)
    ensures
        match header {
            Some(h) => match without_prefix(h@, "Bearer "@) {
                Some(rest) => t matches Some(x) && x@ == rest,
                None => t == query,
            },
            None => t == query,
        },
{
    match bearer_token(header) {
        Some(t) => Some(t),
        None => query,
    }
}

/// HTTP status of a refused stream upgrade: 401 without a valid access token.
pub const STREAM_UNAUTHORIZED: u16 = 401;
/// HTTP status of a refused stream upgrade: 403 without `events.read`.
pub const STREAM_FORBIDDEN: u16 = 403;

/// Who may open a stream: the holder of an accepted access token that grants
/// `events.read`. Refusals are plain statuses (401, then 403).
pub fn stream_context(claims: Result<AccessClaims, AppError>) -> (r: Result<AuthContext, u16>)
    ensures
        claims is Err ==> r == Err::<AuthContext, u16>(STREAM_UNAUTHORIZED),
        claims matches Ok(c) ==> (!grants(c.permissions@, Permission::EventsRead)
            ==> r == Err::<AuthContext, u16>(STREAM_FORBIDDEN)),
        claims matches Ok(c) ==> (grants(c.permissions@, Permission::EventsRead)
            ==> (r matches Ok(ctx) && ctx.user_id == c.sub && ctx.tenant_id == c.tenant_id
                && ctx.membership_id == c.membership_id && ctx.role == c.role
                && ctx.permissions == c.permissions)),
{
    let claims = match claims {
        Ok(c) => c,
        Err(_) => return Err(STREAM_UNAUTHORIZED),
    };
    let ctx = AuthContext::from_claims(claims);
    match ctx.require_permission(Permission::EventsRead) {
        Ok(()) => Ok(ctx),
        Err(_) => Err(STREAM_FORBIDDEN),
    }
}

// ---------------------------------------------------------------------------
// A stream session
// ---------------------------------------------------------------------------

/// Something that happened on an open stream.
pub enum StreamInput {
    /// The hub delivered an upsert notification.
    Notification(EventNotifyPayload),
    /// The hub dropped notifications because this session fell behind.
    Lagged,
    /// The hub is gone.
    HubClosed,
    /// The client closed the socket (or its stream ended).
    ClientClosed,
    /// The client sent a ping with this payload.
    ClientPing(Vec<u8>),
    /// The client sent any other message.
    ClientMessage,
    /// Reading from the client failed.
    ClientError,
    /// The notified event was loaded and encoded as this text.
    Loaded(String),
    /// Loading or encoding the notified event failed.
    LoadFailed,
    /// Sending to the client failed.
    SendFailed,
}

/// What the session does next.
#[derive(Debug)]
pub enum StreamAction {
    /// Load event `event_id` of the session's tenant and encode it.
    Load { event_id: u128 },
    /// Send this text message to the client.
    SendText(String),
    /// Answer a ping with this payload.
    SendPong(Vec<u8>),
    /// Record that a notified event could not be pushed, and keep going.
    Skip,
    /// Keep waiting.
    Wait,
    /// End the session.
    Stop,
}

/// The session's answer to one input.
pub open spec fn stream_reaction(tenant_id: u128, input: StreamInput, action: StreamAction) -> bool {
    match input {
        StreamInput::Notification(p) => if p.tenant_id == tenant_id {
            action == (StreamAction::Load { event_id: p.event_id })
        } else {
            action is Wait
        },
        StreamInput::Lagged => action is Wait,
        StreamInput::HubClosed => action is Stop,
        StreamInput::ClientClosed => action is Stop,
        StreamInput::ClientPing(b) => action matches StreamAction::SendPong(c) && c@ == b@,
        StreamInput::ClientMessage => action is Wait,
        StreamInput::ClientError => action is Stop,
        StreamInput::Loaded(text) => action matches StreamAction::SendText(t) && t@ == text@,
        StreamInput::LoadFailed => action is Skip,
        StreamInput::SendFailed => action is Stop,
    }
}

/// React to one input of a session scoped to `tenant_id`.
pub fn stream_step(tenant_id: u128, input: StreamInput) -> (action: StreamAction)
    ensures stream_reaction(tenant_id, input, action),
{
    match input {
        StreamInput::Notification(p) => {
            if p.tenant_id == tenant_id {
                StreamAction::Load { event_id: p.event_id }
            } else {
                StreamAction::Wait
            }
        },
        StreamInput::Lagged => StreamAction::Wait,
        StreamInput::HubClosed => StreamAction::Stop,
        StreamInput::ClientClosed => StreamAction::Stop,
        StreamInput::ClientPing(b) => StreamAction::SendPong(b),
        StreamInput::ClientMessage => StreamAction::Wait,
        StreamInput::ClientError => StreamAction::Stop,
        StreamInput::Loaded(text) => StreamAction::SendText(text),
        StreamInput::LoadFailed => StreamAction::Skip,
        StreamInput::SendFailed => StreamAction::Stop,
    }
}

/// The error of a notified event that is no longer there.
pub fn missing_notified_event() -> (e: AppError)
    ensures e matches AppError::Internal(m) && m@ == "event missing after notification"@,
{
    AppError::internal("event missing after notification")
}

/// Tenant isolation of the stream: whatever the sequence of notifications, a
/// session only ever loads events whose notification names its own tenant.
pub proof fn stream_loads_only_own_tenant(
    tenant_id: u128,
    inputs: Seq<StreamInput>,
    actions: Seq<StreamAction>,
    i: int,
)
    requires
        inputs.len() == actions.len(),
        forall|k: int| 0 <= k < inputs.len() ==> #[trigger] stream_reaction(tenant_id, inputs[k], actions[k]),
        0 <= i < actions.len(),
        actions[i] is Load,
    ensures
        inputs[i] matches StreamInput::Notification(p) && p.tenant_id == tenant_id
            && actions[i] == (StreamAction::Load { event_id: p.event_id }),
{
    assert(stream_reaction(tenant_id, inputs[i], actions[i]));
}

} // verus!
