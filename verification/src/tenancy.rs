//! Tenancy and membership domain types. Identifiers are the 128-bit values of
//! their UUIDs; timestamps are [`Instant`]s.

use vstd::prelude::*;
use crate::numbers::Instant;

verus! {

/// Tenant that owns globally ingested public connector feeds (shared OSINT):
/// `00000000-0000-4000-8000-000000000001`.
pub const SYSTEM_TENANT_ID: u128 = 0x0000_0000_0000_4000_8000_0000_0000_0001u128;

/// Lifecycle status of a tenant.
#[derive(Debug, Clone, Copy, PartialEq, Eq, Structural)]
pub enum TenantStatus {
    /// Active and usable.
    Active,
    /// Suspended; access blocked but data retained.
    Suspended,
    /// Marked for deletion / offboarded.
    Deleted,
}

/// Lifecycle status of a user account.
#[derive(Debug, Clone, Copy, PartialEq, Eq, Structural)]
pub enum UserStatus {
    /// Active and able to authenticate.
    Active,
    /// Disabled; cannot authenticate.
    Disabled,
}

/// Status of a user's membership within a tenant.
#[derive(Debug, Clone, Copy, PartialEq, Eq, Structural)]
pub enum MembershipStatus {
    /// Active member.
    Active,
    /// Invited but not yet accepted.
    Invited,
    /// Suspended within this tenant.
    Suspended,
}

/// A tenant (organization / workspace).
pub struct Tenant {
    /// Unique identifier.
    pub id: u128,
    /// Display name.
    pub name: String,
    /// URL-safe, case-insensitive unique slug.
    pub slug: String,
    /// Lifecycle status.
    pub status: TenantStatus,
    /// Creation timestamp.
    pub created_at: Instant,
    /// Last-update timestamp.
    pub updated_at: Instant,
}

/// A global user account; it carries no credential material.
pub struct User {
    /// Unique identifier.
    pub id: u128,
    /// Case-insensitive unique email.
    pub email: String,
    /// Optional display name.
    pub display_name: Option<String>,
    /// Account status.
    pub status: UserStatus,
    /// Whether the email has been verified.
    pub email_verified: bool,
    /// Creation timestamp.
    pub created_at: Instant,
    /// Last-update timestamp.
    pub updated_at: Instant,
}

/// A per-tenant role.
pub struct Role {
    /// Unique identifier.
    pub id: u128,
    /// Owning tenant.
    pub tenant_id: u128,
    /// Stable role key, unique within the tenant.
    pub key: String,
    /// Human-readable name.
    pub name: String,
    /// Optional description.
    pub description: Option<String>,
    /// Whether this is a system preset (not deletable).
    pub is_system: bool,
    /// Creation timestamp.
    pub created_at: Instant,
}

/// A user's membership (and role) within one tenant.
pub struct Membership {
    /// Unique identifier.
    pub id: u128,
    /// Tenant the membership belongs to.
    pub tenant_id: u128,
    /// The member user.
    pub user_id: u128,
    /// The role granted to the member within this tenant.
    pub role_id: u128,
    /// Membership status.
    pub status: MembershipStatus,
    /// Creation timestamp.
    pub created_at: Instant,
    /// Last-update timestamp.
    pub updated_at: Instant,
}

} // verus!
