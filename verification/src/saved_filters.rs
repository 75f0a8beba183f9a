//! Saved filter presets and active-filter state: the validated, versioned
//! filter payload and the preset-name rules.

use vstd::prelude::*;
use crate::error::AppError;
use crate::event_store::EventSort;
use crate::events::{Category, Severity};
use crate::numbers::{Float64, Instant, float_gt, instant_le};
use crate::text::{trim, trimmed};
use crate::auth::{AuthContext, grants};
use crate::rbac::Permission;

verus! {

/// Time-range preset selected in the UI; `Custom` uses explicit `from`/`to`.
#[derive(Debug, Clone, Copy, PartialEq, Eq, Structural)]
pub enum TimeRangePreset {
    /// Last hour (`"1h"`).
    OneHour,
    /// Last 24 hours (`"24h"`).
    TwentyFourHours,
    /// Last 7 days (`"7d"`).
    SevenDays,
    /// Last 30 days (`"30d"`, the default).
    ThirtyDays,
    /// All time (`"all"`).
    All,
    /// Explicit custom range via `from`/`to` (`"custom"`).
    Custom,
}

impl Default for TimeRangePreset {
    fn default() -> (r: Self)
        ensures r == TimeRangePreset::ThirtyDays,
    {
        TimeRangePreset::ThirtyDays
    }
}

/// Default impact ceiling (the full range is 0–100).
pub fn full_impact() -> (r: u8)
    ensures r == 100,
{
    100
}

/// Current stored-filter schema version.
pub fn current_version() -> (r: i32)
    ensures r == 1,
{
    1
}

/// Filter payload persisted for presets and active state.
pub struct SavedFilterPayload {
    /// Forward-compat schema version.
    pub version: i32,
    /// Selected categories; empty = all.
    pub categories: Vec<Category>,
    /// Selected severities; empty = all.
    pub severities: Vec<Severity>,
    /// Selected source keys; empty = all.
    pub sources: Vec<String>,
    /// Lower impact bound (0–100).
    pub impact_min: u8,
    /// Upper impact bound (0–100).
    pub impact_max: u8,
    /// Lower magnitude bound; `None` = no lower bound.
    pub magnitude_min: Option<Float64>,
    /// Upper magnitude bound; `None` = no upper bound.
    pub magnitude_max: Option<Float64>,
    /// Time-range preset.
    pub time_range: TimeRangePreset,
    /// Custom-range start when `time_range` is `Custom`.
    pub from: Option<Instant>,
    /// Custom-range end when `time_range` is `Custom`.
    pub to: Option<Instant>,
    /// Result ordering.
    pub sort: EventSort,
}

/// The first rule a payload breaks, as the client message, or `None` when the
/// payload is well formed. Rules in order: impact bounds within 0–100, impact
/// range not inverted, magnitude range not inverted, and a custom time range
/// with both endpoints, in order.
pub open spec fn payload_problem(p: SavedFilterPayload) -> Option<Seq<char>> {
    if p.impact_min > 100 || p.impact_max > 100 {
        Some("impact bounds must be within 0–100"@)
    } else if p.impact_min > p.impact_max {
        Some("impactMin must be less than or equal to impactMax"@)
    } else if p.magnitude_min is Some && p.magnitude_max is Some
        && float_gt(p.magnitude_min->0, p.magnitude_max->0) {
        Some("magnitudeMin must be less than or equal to magnitudeMax"@)
    } else if p.time_range == TimeRangePreset::Custom {
        if p.from is Some && p.to is Some {
            if instant_le(p.from->0, p.to->0) { None } else { Some("custom range: from must be <= to"@) }
        } else {
            Some("custom time range requires from and to"@)
        }
    } else {
        None
    }
}

impl SavedFilterPayload {
    /// Reject malformed payloads (out-of-range bounds, inverted ranges, custom
    /// range missing or inverted endpoints) with a 400.
    pub fn validate(&self) -> (r: Result<(), AppError>)
        ensures
            r is Ok <==> payload_problem(*self) is None,
            r matches Err(e) ==> e matches AppError::BadRequest(m) && Some(m@) == payload_problem(*self),
            r is Ok ==> self.impact_min <= self.impact_max <= 100,
            r is Ok && self.time_range == TimeRangePreset::Custom ==>
                self.from is Some && self.to is Some && instant_le(self.from->0, self.to->0),
    {
        if self.impact_min > 100 || self.impact_max > 100 {
            return Err(AppError::bad_request("impact bounds must be within 0–100"));
        }
        if self.impact_min > self.impact_max {
            return Err(AppError::bad_request("impactMin must be less than or equal to impactMax"));
        }
        if let (Some(min), Some(max)) = (self.magnitude_min, self.magnitude_max) {
            if min.gt(&max) {
                return Err(AppError::bad_request("magnitudeMin must be less than or equal to magnitudeMax"));
            }
        }
        if self.time_range == TimeRangePreset::Custom {
            match (self.from, self.to) {
                (Some(from), Some(to)) => {
                    if !from.le(&to) {
                        return Err(AppError::bad_request("custom range: from must be <= to"));
                    }
                },
                _ => {
                    return Err(AppError::bad_request("custom time range requires from and to"));
                },
            }
        }
        Ok(())
    }
}

/// A stored preset row returned to clients.
pub struct SavedFilter {
    /// Preset id.
    pub id: u128,
    /// User-visible name (unique per user within a tenant).
    pub name: String,
    /// The captured filter.
    pub filters: SavedFilterPayload,
    /// Creation time.
    pub created_at: Instant,
    /// Last update time.
    pub updated_at: Instant,
}

/// Longest accepted preset name, in characters.
pub const MAX_PRESET_NAME_CHARS: usize = 80;

/// Check a preset name: trimmed, non-empty and at most 80 characters; returns
/// the trimmed name.
pub fn validate_name(name: &str) -> (r: Result<&str, AppError>)
    ensures
        r matches Ok(n) ==> n@ == trimmed(name@) && 0 < n@.len() <= 80,
        r is Ok <==> (0 < trimmed(name@).len() <= 80),
        trimmed(name@).len() == 0 ==> (r matches Err(AppError::BadRequest(m)) && m@ == "preset name is required"@),
        trimmed(name@).len() > 80 ==> (r matches Err(AppError::BadRequest(m))
            && m@ == "preset name must be 80 characters or fewer"@),
{
    let t = trim(name);
    if t.is_empty() {
        return Err(AppError::bad_request("preset name is required"));
    }
    if t.unicode_len() > MAX_PRESET_NAME_CHARS {
        return Err(AppError::bad_request("preset name must be 80 characters or fewer"));
    }
    Ok(t)
}

/// Body of a preset create or update.
pub struct SavedFilterBody {
    /// User-visible preset name.
    pub name: String,
    /// The captured filter.
    pub filters: SavedFilterPayload,
}

/// Checks of a preset create or update, in order: the caller may manage
/// presets (403), the name is valid, the payload is valid (400). The answer is
/// the trimmed name to store.
pub fn check_preset_write(auth: &AuthContext, body: &SavedFilterBody) -> (r: Result<String, AppError>)
    ensures
        !grants(auth.permissions@, Permission::SavedFiltersManage) ==> (r matches Err(e)
            && e matches AppError::Forbidden(m) && m@ == "insufficient permissions"@),
        grants(auth.permissions@, Permission::SavedFiltersManage) && trimmed(body.name@).len() == 0
            ==> (r matches Err(e) && e matches AppError::BadRequest(m) && m@ == "preset name is required"@),
        grants(auth.permissions@, Permission::SavedFiltersManage) && trimmed(body.name@).len() > 80
            ==> (r matches Err(e) && e matches AppError::BadRequest(m)
                && m@ == "preset name must be 80 characters or fewer"@),
        grants(auth.permissions@, Permission::SavedFiltersManage) && (0 < trimmed(body.name@).len() <= 80)
            ==> match payload_problem(body.filters) {
                Some(p) => r matches Err(e) && e matches AppError::BadRequest(m) && m@ == p,
                None => r matches Ok(n) && n@ == trimmed(body.name@),
            },
{
    match auth.require_permission(Permission::SavedFiltersManage) {
        Ok(()) => {},
        Err(e) => return Err(e),
    }
    let name = match validate_name(body.name.as_str()) {
        Ok(n) => n.to_owned(),
        Err(e) => return Err(e),
    };
    match body.filters.validate() {
        Ok(()) => Ok(name),
        Err(e) => Err(e),
    }
}

/// A preset update or delete concerns one of the caller's own presets; any
/// other (another user's, another tenant's, or none) is answered 404 without
/// telling which.
pub fn owned_preset<T>(found: Option<T>) -> (r: Result<T, AppError>)
    ensures
        found matches Some(v) ==> r == Ok::<T, AppError>(v),
        found is None ==> (r matches Err(e) && e matches AppError::NotFound(m)
            && m@ == "saved filter not found"@),
{
    match found {
        Some(v) => Ok(v),
        None => Err(AppError::not_found("saved filter not found")),
    }
}

} // verus!
