//! Plain request and response bodies of the HTTP API, and the small rules
//! that fill them: the health body, the tiles session, and request ids.

use vstd::prelude::*;
use crate::auth::{AuthContext, TILES_TOKEN_TTL_SECS, grants};
use crate::error::AppError;
use crate::ids::{hyphenated, is_v4, uuid_string, new_v4};
use crate::rbac::Permission;

verus! {

/// `POST /api/v1/auth/register` body.
pub struct RegisterRequest {
    pub email: String,
    /// Plaintext password (hashed server-side).
    pub password: String,
    pub display_name: Option<String>,
    /// New tenant display name.
    pub tenant_name: String,
    /// Unique tenant slug.
    pub tenant_slug: String,
}

/// `POST /api/v1/auth/login` body.
pub struct LoginRequest {
    pub email: String,
    pub password: String,
    /// Needed when the user belongs to several tenants.
    pub tenant_slug: Option<String>,
}

/// `POST /api/v1/auth/refresh` body.
pub struct RefreshRequest {
    /// Refresh token from an earlier login, registration or refresh.
    pub refresh_token: String,
    /// Optional tenant switch.
    pub tenant_slug: Option<String>,
}

/// Distinct sources present in the caller's visible events.
pub struct EventSourcesResponse {
    pub sources: Vec<String>,
}

/// Liveness body.
pub struct HealthResponse {
    /// Always `ok`.
    pub status: String,
    /// Service version.
    pub version: String,
}

/// The liveness body of a running service of the given version.
pub fn health_response(version: &str) -> (r: HealthResponse)
    ensures r.status@ == "ok"@, r.version@ == version@,
{
    HealthResponse { status: "ok".to_owned(), version: version.to_owned() }
}

/// Optional token of a stream request (browsers cannot set socket headers).
pub struct StreamAuthQuery {
    pub token: Option<String>,
}

/// Response of `GET /api/v1/tiles/session`.
pub struct TilesSessionResponse {
    /// Signed tiles token to embed in the imagery URL.
    pub token: String,
    /// Token lifetime in seconds.
    pub expires_in: u64,
    /// Highest zoom level the proxy serves.
    pub max_zoom: u32,
}

/// Query string of the public tile route.
pub struct TileTokenQuery {
    pub token: Option<String>,
}

/// Who may open a tiles session: viewing imagery is part of viewing the event
/// map, so it takes `events.read`.
pub fn check_tiles_session(auth: &AuthContext) -> (r: Result<(), AppError>)
    ensures
        r is Ok <==> grants(auth.permissions@, Permission::EventsRead),
        r matches Err(e) ==> (e matches AppError::Forbidden(m) && m@ == "insufficient permissions"@),
{
    auth.require_permission(Permission::EventsRead)
}

/// The tiles session answer for a signed token.
pub fn tiles_session(token: String, max_zoom: u32) -> (r: TilesSessionResponse)
    ensures r.token == token, r.expires_in == TILES_TOKEN_TTL_SECS, r.max_zoom == max_zoom,
{
    TilesSessionResponse { token, expires_in: TILES_TOKEN_TTL_SECS, max_zoom }
}

/// The correlation id of a request: the caller's `x-request-id`, else a fresh
/// random UUID.
pub fn request_id_for(header: Option<&str>) -> (id: String)
    ensures
        header matches Some(h) ==> id@ == h@,
        header is None ==> exists|u: u128| id@ == hyphenated(u) && is_v4(u),
{
    match header {
        Some(h) => h.to_owned(),
        None => uuid_string(new_v4()),
    }
}

} // verus!
