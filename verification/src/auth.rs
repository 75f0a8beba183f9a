//! Authentication logic: access and tiles token claims and their acceptance
//! rules, refresh-token hashing, the caller context with its permission check,
//! bearer-header parsing, the password policy, and the account and membership
//! checks of register / login / refresh.
//!
//! Signing and verifying tokens, reading the clock and talking to the database
//! happen around these functions; every decision between them is made here.

use vstd::prelude::*;
use vstd::utf8::encode_utf8;
use crate::error::{keys_sorted, pairs_view, AppError};
use crate::ids::{hyphenated, is_v4, uuid_string, new_v4};
use crate::numbers::Instant;
use crate::rbac::{Permission, permission_key};
use crate::text::{str_eq, strip_prefix, without_prefix};

verus! {

/// Access token lifetime in seconds (15 minutes).
pub const ACCESS_TOKEN_TTL_SECS: u64 = 900;

/// Refresh token lifetime in seconds (7 days).
pub const REFRESH_TOKEN_TTL_SECS: u64 = 604800;

/// Tiles token lifetime in seconds (12 hours).
pub const TILES_TOKEN_TTL_SECS: u64 = 43200;

/// Minimum password length in UTF-8 bytes.
pub const MIN_PASSWORD_BYTES: usize = 12;

// ---------------------------------------------------------------------------
// Claims
// ---------------------------------------------------------------------------

/// Claims of a short-lived access token.
#[derive(Debug)]
pub struct AccessClaims {
    /// Subject: the user id.
    pub sub: u128,
    /// Active tenant of the session.
    pub tenant_id: u128,
    /// Membership row id.
    pub membership_id: u128,
    /// Role key within the tenant.
    pub role: String,
    /// Granted permission keys.
    pub permissions: Vec<String>,
    /// Token type discriminator (`"access"`).
    pub typ: String,
    /// Expiry (Unix seconds).
    pub exp: u64,
    /// Issued at (Unix seconds).
    pub iat: u64,
}

/// Claims of a medium-lived tiles token: it only lets its bearer read imagery.
#[derive(Debug)]
pub struct TilesClaims {
    /// Subject: the user id that asked for the token.
    pub sub: u128,
    /// Tenant active when the token was minted (context only).
    pub tenant_id: u128,
    /// Audience (`"tiles"`).
    pub aud: String,
    /// Token type discriminator (`"tiles"`).
    pub typ: String,
    /// Expiry (Unix seconds).
    pub exp: u64,
    /// Issued at (Unix seconds).
    pub iat: u64,
}

/// Access claims issued at `now` (Unix seconds), valid for
/// `ACCESS_TOKEN_TTL_SECS`.
pub fn build_access_claims(
    now: u64,
    user_id: u128,
    tenant_id: u128,
    membership_id: u128,
    role: String,
    permissions: Vec<String>,
) -> (c: AccessClaims)
    requires now + ACCESS_TOKEN_TTL_SECS <= u64::MAX,
    ensures
        c.sub == user_id,
        c.tenant_id == tenant_id,
        c.membership_id == membership_id,
        c.role@ == role@,
        c.permissions@ == permissions@,
        c.typ@ == "access"@,
        c.iat == now,
        c.exp == now + ACCESS_TOKEN_TTL_SECS,
{
    AccessClaims {
        sub: user_id,
        tenant_id,
        membership_id,
        role,
        permissions,
        typ: "access".to_owned(),
        iat: now,
        exp: now + ACCESS_TOKEN_TTL_SECS,
    }
}

/// Tiles claims issued at `now` (Unix seconds), valid for
/// `TILES_TOKEN_TTL_SECS`.
pub fn build_tiles_claims(now: u64, user_id: u128, tenant_id: u128) -> (c: TilesClaims)
    requires now + TILES_TOKEN_TTL_SECS <= u64::MAX,
    ensures
        c.sub == user_id,
        c.tenant_id == tenant_id,
        c.aud@ == "tiles"@,
        c.typ@ == "tiles"@,
        c.iat == now,
        c.exp == now + TILES_TOKEN_TTL_SECS,
{
    TilesClaims {
        sub: user_id,
        tenant_id,
        aud: "tiles".to_owned(),
        typ: "tiles".to_owned(),
        iat: now,
        exp: now + TILES_TOKEN_TTL_SECS,
    }
}

/// Whether decoded access claims are of the access type.
pub open spec fn access_acceptable(c: AccessClaims) -> bool {
    c.typ@ == "access"@
}

/// Whether decoded tiles claims are of the tiles type and audience.
pub open spec fn tiles_acceptable(c: TilesClaims) -> bool {
    c.typ@ == "tiles"@ && c.aud@ == "tiles"@
}

/// The verdict on an access token, given what signature and expiry
/// verification produced (`None`: the token was malformed, forged or expired).
pub fn accept_access_claims(decoded: Option<AccessClaims>) -> (r: Result<AccessClaims, AppError>)
    ensures
        decoded is None ==> (r matches Err(e) && e matches AppError::Unauthorized(m)
            && m@ == "invalid or expired access token"@),
        decoded matches Some(c) ==> (!access_acceptable(c) ==> (r matches Err(e)
            && e matches AppError::Unauthorized(m) && m@ == "invalid token type"@)),
        decoded matches Some(c) ==> (access_acceptable(c) ==> r == Ok::<AccessClaims, AppError>(c)),
{
    match decoded {
        None => Err(AppError::unauthorized("invalid or expired access token")),
        Some(claims) => {
            if str_eq(claims.typ.as_str(), "access") {
                Ok(claims)
            } else {
                Err(AppError::unauthorized("invalid token type"))
            }
        },
    }
}

/// The verdict on a tiles token, given what signature and expiry verification
/// produced (`None`: the token was malformed, forged or expired).
pub fn accept_tiles_claims(decoded: Option<TilesClaims>) -> (r: Result<TilesClaims, AppError>)
    ensures
        decoded is None ==> (r matches Err(e) && e matches AppError::Unauthorized(m)
            && m@ == "invalid or expired tiles token"@),
        decoded matches Some(c) ==> (!tiles_acceptable(c) ==> (r matches Err(e)
            && e matches AppError::Unauthorized(m) && m@ == "invalid token type"@)),
        decoded matches Some(c) ==> (tiles_acceptable(c) ==> r == Ok::<TilesClaims, AppError>(c)),
{
    match decoded {
        None => Err(AppError::unauthorized("invalid or expired tiles token")),
        Some(claims) => {
            if str_eq(claims.typ.as_str(), "tiles") && str_eq(claims.aud.as_str(), "tiles") {
                Ok(claims)
            } else {
                Err(AppError::unauthorized("invalid token type"))
            }
        },
    }
}

/// The tiles token of a tile request, which must be present.
pub fn require_tiles_token(token: Option<&str>) -> (r: Result<&str, AppError>)
    ensures
        token matches Some(t) ==> r == Ok::<&str, AppError>(t),
        token is None ==> (r matches Err(e) && e matches AppError::Unauthorized(m)
            && m@ == "missing tiles token"@),
{
    match token {
        Some(t) => Ok(t),
        None => Err(AppError::unauthorized("missing tiles token")),
    }
}

// ---------------------------------------------------------------------------
// Refresh tokens
// ---------------------------------------------------------------------------

/// The SHA-256 digest of a byte string.
pub uninterp spec fn sha256_of(data: Seq<u8>) -> Seq<u8>;

/// SHA-256 of `data` (`sha2::Sha256::digest`): the digest, 32 bytes long.
#[verifier::external_body]
fn sha256(data: &[u8]) -> (d: Vec<u8>)
    ensures d@ == sha256_of(data@), d@.len() == 32,
{
    <sha2::Sha256 as sha2::Digest>::digest(data).to_vec()
}

/// Lowercase hexadecimal digit of a value below sixteen.
pub open spec fn lower_hex_digit(n: nat) -> char {
    if n < 10 { (('0' as int) + n) as char } else { (('a' as int) + n - 10) as char }
}

/// Lowercase hexadecimal text of a byte string: two digits per byte, high
/// nibble first.
pub open spec fn lower_hex(bytes: Seq<u8>) -> Seq<char>
    decreases bytes.len(),
{
    if bytes.len() == 0 {
        Seq::empty()
    } else {
        lower_hex(bytes.drop_last()) + seq![
            lower_hex_digit((bytes.last() / 16) as nat),
            lower_hex_digit((bytes.last() % 16) as nat),
        ]
    }
}

/// Lowercase hexadecimal text of `data` (`hex::encode`).
#[verifier::external_body]
fn hex_encode(data: &[u8]) -> (s: String)
    ensures s@ == lower_hex(data@),
{
    hex::encode(data)
}

/// The stored lookup hash of a refresh token: lowercase hex of the SHA-256 of
/// its UTF-8 bytes.
pub open spec fn refresh_hash(token: Seq<char>) -> Seq<char> {
    lower_hex(sha256_of(encode_utf8(token)))
}

proof fn lower_hex_len(bytes: Seq<u8>)
    ensures lower_hex(bytes).len() == 2 * bytes.len(),
    decreases bytes.len(),
{
    if bytes.len() > 0 {
        lower_hex_len(bytes.drop_last());
    }
}

/// Hash a refresh token for storage and lookup.
pub fn hash_refresh_token(token: &str) -> (h: String)
    ensures h@ == refresh_hash(token@), h@.len() == 64,
{
    let digest = sha256(token.as_bytes());
    let h = hex_encode(digest.as_slice());
    proof {
        lower_hex_len(digest@);
    }
    h
}

/// A fresh random refresh token (the text of a random UUID) and its hash.
pub fn mint_refresh_token() -> (pair: (String, String))
    ensures
        exists|id: u128| pair.0@ == hyphenated(id) && is_v4(id),
        pair.1@ == refresh_hash(pair.0@),
{
    let raw = uuid_string(new_v4());
    let hash = hash_refresh_token(raw.as_str());
    (raw, hash)
}

// ---------------------------------------------------------------------------
// Caller context
// ---------------------------------------------------------------------------

/// Caller identity and tenant scope taken from an accepted access token.
#[derive(Debug)]
pub struct AuthContext {
    /// Authenticated user id (`sub`).
    pub user_id: u128,
    /// Active tenant of the session.
    pub tenant_id: u128,
    /// Membership row id.
    pub membership_id: u128,
    /// Role key within the tenant.
    pub role: String,
    /// Granted permission keys.
    pub permissions: Vec<String>,
}

/// Whether a context's permission keys include `p`'s key.
pub open spec fn grants(permissions: Seq<String>, p: Permission) -> bool {
    exists|i: int| 0 <= i < permissions.len() && (#[trigger] permissions[i])@ == permission_key(p)
}

impl AuthContext {
    /// The context of an accepted access token.
    pub fn from_claims(claims: AccessClaims) -> (ctx: AuthContext)
        ensures
            ctx.user_id == claims.sub,
            ctx.tenant_id == claims.tenant_id,
            ctx.membership_id == claims.membership_id,
            ctx.role == claims.role,
            ctx.permissions == claims.permissions,
    {
        AuthContext {
            user_id: claims.sub,
            tenant_id: claims.tenant_id,
            membership_id: claims.membership_id,
            role: claims.role,
            permissions: claims.permissions,
        }
    }

    /// Require a permission: 403 unless the context holds its key.
    pub fn require_permission(&self, permission: Permission) -> (r: Result<(), AppError>)
        ensures
            grants(self.permissions@, permission) <==> r is Ok,
            r is Err ==> (r matches Err(e) && e matches AppError::Forbidden(m)
                && m@ == "insufficient permissions"@),
    {
        let key = permission.as_str();
        let mut i: usize = 0;
        while i < self.permissions.len()
            invariant
                i <= self.permissions@.len(),
                key@ == permission_key(permission),
                forall|j: int| 0 <= j < i ==> (#[trigger] self.permissions@[j])@ != key@,
            decreases self.permissions@.len() - i,
        {
            if str_eq(self.permissions[i].as_str(), key) {
                return Ok(());
            }
            i = i + 1;
        }
        Err(AppError::forbidden("insufficient permissions"))
    }
}

/// The token of an `Authorization` header value: what follows `Bearer `.
pub fn bearer_token(header: Option<&str>) -> (t: Option<&str>)
    ensures
        header is None ==> t is None,
        header matches Some(h) ==> match (without_prefix(h@, "Bearer "@), t) {
            (Some(rest), Some(tok)) => tok@ == rest,
            (None, None) => true,
            _ => false,
        },
{
    match header {
        Some(h) => strip_prefix(h, "Bearer "),
        None => None,
    }
}

/// The token an `Authorization` header carries, which must be present.
pub fn require_bearer(header: Option<&str>) -> (r: Result<&str, AppError>)
    ensures
        header matches Some(h) ==> match without_prefix(h@, "Bearer "@) {
            Some(rest) => r matches Ok(tok) && tok@ == rest,
            None => r matches Err(e) && e matches AppError::Unauthorized(m)
                && m@ == "missing or invalid Authorization header"@,
        },
        header is None ==> (r matches Err(e) && e matches AppError::Unauthorized(m)
            && m@ == "missing or invalid Authorization header"@),
{
    match bearer_token(header) {
        Some(t) => Ok(t),
        None => Err(AppError::unauthorized("missing or invalid Authorization header")),
    }
}

// ---------------------------------------------------------------------------
// Register / login / refresh decisions
// ---------------------------------------------------------------------------

/// A user row as the login path reads it.
pub struct UserAuthRow {
    pub id: u128,
    pub email: String,
    pub password_hash: Option<String>,
    pub status: String,
}

/// A membership row with what a session needs.
#[derive(Debug)]
pub struct MembershipAuthRow {
    pub membership_id: u128,
    pub tenant_id: u128,
    pub tenant_slug: String,
    pub role_key: String,
}

/// A valid (unrevoked, unexpired) refresh token row.
#[derive(Clone, Copy, PartialEq, Eq, Structural, Debug)]
pub struct RefreshTokenRow {
    pub id: u128,
    pub user_id: u128,
}

/// Successful authentication payload.
pub struct AuthResponse {
    /// Bearer access token.
    pub access_token: String,
    /// Opaque refresh token.
    pub refresh_token: String,
    /// Access token lifetime in seconds.
    pub expires_in: u64,
    /// Always `Bearer`.
    pub token_type: String,
    /// Authenticated user id.
    pub user_id: u128,
    /// Active tenant id.
    pub tenant_id: u128,
    /// Tenant slug.
    pub tenant_slug: String,
    /// Role key within the tenant.
    pub role: String,
    /// The permission keys granted to that role in the tenant.
    pub permissions: Vec<String>,
}

/// The password policy of registration: at least `MIN_PASSWORD_BYTES` bytes.
pub fn check_new_password(password: &str) -> (r: Result<(), AppError>)
    ensures
        r is Ok <==> encode_utf8(password@).len() >= MIN_PASSWORD_BYTES,
        r matches Err(e) ==> (e matches AppError::Validation { message, fields } && {
            &&& message@ == "password too short"@
            &&& fields@.len() == 1
            &&& fields@[0].0@ == "password"@
            &&& fields@[0].1@ == "must be at least 12 characters"@
            &&& keys_sorted(pairs_view(fields@))
        }),
{
    if password.as_bytes().len() < MIN_PASSWORD_BYTES {
        let mut fields: Vec<(String, String)> = Vec::new();
        fields.push(("password".to_owned(), "must be at least 12 characters".to_owned()));
        Err(AppError::Validation { message: "password too short".to_owned(), fields })
    } else {
        Ok(())
    }
}

/// Registration needs an email nobody uses yet.
pub fn check_email_available(existing: Option<UserAuthRow>) -> (r: Result<(), AppError>)
    ensures
        existing is None <==> r is Ok,
        r matches Err(e) ==> (e matches AppError::Conflict(m) && m@ == "email already registered"@),
{
    match existing {
        None => Ok(()),
        Some(_) => Err(AppError::conflict("email already registered")),
    }
}

/// The owner membership that registration creates.
pub fn owner_membership(membership_id: u128, tenant_id: u128, tenant_slug: &str) -> (m: MembershipAuthRow)
    ensures
        m.membership_id == membership_id,
        m.tenant_id == tenant_id,
        m.tenant_slug@ == tenant_slug@,
        m.role_key@ == "owner"@,
{
    MembershipAuthRow {
        membership_id,
        tenant_id,
        tenant_slug: tenant_slug.to_owned(),
        role_key: "owner".to_owned(),
    }
}

/// The login checks before the password: the account must exist, be active
/// and have a password; the answer is the user id and the stored hash.
pub fn check_login_account(user: Option<UserAuthRow>) -> (r: Result<(u128, String), AppError>)
    ensures
        user is None ==> (r matches Err(e) && e matches AppError::Unauthorized(m)
            && m@ == "invalid email or password"@),
        user matches Some(u) ==> (u.status@ != "active"@ ==> (r matches Err(e)
            && e matches AppError::Forbidden(m) && m@ == "account disabled"@)),
        user matches Some(u) ==> (u.status@ == "active"@ ==> match u.password_hash {
            None => r matches Err(e) && e matches AppError::Unauthorized(m)
                && m@ == "invalid email or password"@,
            Some(h) => r matches Ok(pair) && pair.0 == u.id && pair.1@ == h@,
        }),
{
    match user {
        None => Err(AppError::unauthorized("invalid email or password")),
        Some(u) => {
            if !str_eq(u.status.as_str(), "active") {
                return Err(AppError::forbidden("account disabled"));
            }
            match u.password_hash {
                None => Err(AppError::unauthorized("invalid email or password")),
                Some(h) => Ok((u.id, h)),
            }
        },
    }
}

/// The login check of the password verification outcome.
pub fn check_password_match(matches: bool) -> (r: Result<(), AppError>)
    ensures
        r is Ok <==> matches,
        r matches Err(e) ==> (e matches AppError::Unauthorized(m) && m@ == "invalid email or password"@),
{
    if matches { Ok(()) } else { Err(AppError::unauthorized("invalid email or password")) }
}

/// A refresh needs a valid stored token.
pub fn check_refresh_row(found: Option<RefreshTokenRow>) -> (r: Result<RefreshTokenRow, AppError>)
    ensures
        found matches Some(row) ==> r == Ok::<RefreshTokenRow, AppError>(row),
        found is None ==> (r matches Err(e) && e matches AppError::Unauthorized(m)
            && m@ == "invalid refresh token"@),
{
    match found {
        Some(row) => Ok(row),
        None => Err(AppError::unauthorized("invalid refresh token")),
    }
}

/// Membership resolution when the caller names a tenant: the user must be a
/// member of it.
pub fn membership_for_slug(found: Option<MembershipAuthRow>) -> (r: Result<MembershipAuthRow, AppError>)
    ensures
        found matches Some(m) ==> r == Ok::<MembershipAuthRow, AppError>(m),
        found is None ==> (r matches Err(e) && e matches AppError::Forbidden(m)
            && m@ == "not a member of this tenant"@),
{
    match found {
        Some(m) => Ok(m),
        None => Err(AppError::forbidden("not a member of this tenant")),
    }
}

/// Membership resolution when no tenant is named: the user's only active
/// membership; none is refused, and several need a tenant slug.
pub fn only_membership(memberships: Vec<MembershipAuthRow>) -> (r: Result<MembershipAuthRow, AppError>)
    ensures
        memberships@.len() == 0 ==> (r matches Err(e) && e matches AppError::Forbidden(m)
            && m@ == "no active tenant memberships"@),
        memberships@.len() == 1 ==> r == Ok::<MembershipAuthRow, AppError>(memberships@[0]),
        memberships@.len() > 1 ==> (r matches Err(e) && e matches AppError::BadRequest(m)
            && m@ == "tenant_slug required when user belongs to multiple tenants"@),
{
    let n = memberships.len();
    if n == 0 {
        Err(AppError::forbidden("no active tenant memberships"))
    } else if n == 1 {
        let mut memberships = memberships;
        let only = memberships.pop();
        match only {
            Some(m) => Ok(m),
            None => Err(AppError::internal("membership list unexpectedly empty")),
        }
    } else {
        Err(AppError::bad_request("tenant_slug required when user belongs to multiple tenants"))
    }
}

/// The expiry of a refresh token minted at `now`.
pub fn refresh_expires_at(now: Instant) -> (t: Instant)
    requires now.secs + REFRESH_TOKEN_TTL_SECS <= i64::MAX,
    ensures t.secs == now.secs + REFRESH_TOKEN_TTL_SECS, t.nanos == now.nanos,
{
    Instant { secs: now.secs + 604800i64, nanos: now.nanos }
}

/// The payload of a new session; `permissions` are the keys granted to the
/// membership's role, as they also stand in the access token's claims.
pub fn session_response(
    user_id: u128,
    membership: MembershipAuthRow,
    access_token: String,
    refresh_token: String,
    permissions: Vec<String>,
) -> (r: AuthResponse)
    ensures
        r.access_token == access_token,
        r.refresh_token == refresh_token,
        r.expires_in == ACCESS_TOKEN_TTL_SECS,
        r.token_type@ == "Bearer"@,
        r.user_id == user_id,
        r.tenant_id == membership.tenant_id,
        r.tenant_slug == membership.tenant_slug,
        r.role == membership.role_key,
        r.permissions == permissions,
{
    AuthResponse {
        access_token,
        refresh_token,
        expires_in: ACCESS_TOKEN_TTL_SECS,
        token_type: "Bearer".to_owned(),
        user_id,
        tenant_id: membership.tenant_id,
        tenant_slug: membership.tenant_slug,
        role: membership.role_key,
        permissions,
    }
}

// ---------------------------------------------------------------------------
// Laws
// ---------------------------------------------------------------------------

/// Claims built for a session are of the access type: once their signature is
/// verified, `accept_access_claims` hands them back unchanged.
pub proof fn built_access_claims_are_accepted(c: AccessClaims)
    requires c.typ@ == "access"@,
    ensures access_acceptable(c),
{
}

/// Claims built for a tiles token (audience and type `"tiles"`, as
/// `build_tiles_claims` makes them) are accepted: once their signature and
/// expiry are verified, `accept_tiles_claims` hands them back unchanged.
pub proof fn built_tiles_claims_are_accepted(c: TilesClaims)
    requires c.aud@ == "tiles"@, c.typ@ == "tiles"@,
    ensures tiles_acceptable(c),
{
}

/// Token types do not cross: claims of the tiles type are never accepted as
/// access claims, and access-type claims never pass the imagery proxy.
pub proof fn token_types_do_not_cross(a: AccessClaims, t: TilesClaims)
    ensures
        a.typ@ == "tiles"@ ==> !access_acceptable(a),
        t.typ@ == "access"@ ==> !tiles_acceptable(t),
{
    reveal_strlit("tiles");
    reveal_strlit("access");
    assert("tiles"@[0] != "access"@[0]);
}

} // verus!
