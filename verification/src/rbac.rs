//! Role-based access control: the permission catalog and the default role
//! presets seeded for every tenant.

use vstd::prelude::*;
use crate::text::without_suffix;

verus! {

/// A single, closed permission key; its dotted string form (e.g.
/// `"events.read"`) is the catalog key.
#[derive(Debug, Clone, Copy, PartialEq, Eq, Hash, Structural)]
#[non_exhaustive]
pub enum Permission {
    /// View events.
    EventsRead,
    /// Create manual events.
    EventsCreate,
    /// Edit events.
    EventsUpdate,
    /// Delete events.
    EventsDelete,
    /// Change event verification status.
    EventsVerify,
    /// View event relations and graph.
    RelationsRead,
    /// View entities.
    EntitiesRead,
    /// Run search queries.
    SearchRead,
    /// View saved filters.
    SavedFiltersRead,
    /// Create and edit saved filters.
    SavedFiltersManage,
    /// View areas of interest.
    AoiRead,
    /// Create and edit areas of interest.
    AoiManage,
    /// Add annotations to events.
    AnnotationsCreate,
    /// Export data (GeoJSON/CSV).
    ExportsCreate,
    /// View tenant members.
    MembersRead,
    /// Invite and manage tenant members.
    MembersManage,
    /// View roles and permissions.
    RbacRead,
    /// Create and edit roles and grants.
    RbacManage,
    /// View tenant settings.
    TenantSettingsRead,
    /// Edit tenant settings and billing.
    TenantSettingsManage,
}

/// The dotted catalog key of a permission.
pub open spec fn permission_key(p: Permission) -> Seq<char> {
    match p {
        Permission::EventsRead => "events.read"@,
        Permission::EventsCreate => "events.create"@,
        Permission::EventsUpdate => "events.update"@,
        Permission::EventsDelete => "events.delete"@,
        Permission::EventsVerify => "events.verify"@,
        Permission::RelationsRead => "relations.read"@,
        Permission::EntitiesRead => "entities.read"@,
        Permission::SearchRead => "search.read"@,
        Permission::SavedFiltersRead => "saved_filters.read"@,
        Permission::SavedFiltersManage => "saved_filters.manage"@,
        Permission::AoiRead => "aoi.read"@,
        Permission::AoiManage => "aoi.manage"@,
        Permission::AnnotationsCreate => "annotations.create"@,
        Permission::ExportsCreate => "exports.create"@,
        Permission::MembersRead => "members.read"@,
        Permission::MembersManage => "members.manage"@,
        Permission::RbacRead => "rbac.read"@,
        Permission::RbacManage => "rbac.manage"@,
        Permission::TenantSettingsRead => "tenant.settings.read"@,
        Permission::TenantSettingsManage => "tenant.settings.manage"@,
    }
}

/// Every permission in the catalog, in catalog order.
pub open spec fn all_permissions() -> Seq<Permission> {
    seq![
        Permission::EventsRead,
        Permission::EventsCreate,
        Permission::EventsUpdate,
        Permission::EventsDelete,
        Permission::EventsVerify,
        Permission::RelationsRead,
        Permission::EntitiesRead,
        Permission::SearchRead,
        Permission::SavedFiltersRead,
        Permission::SavedFiltersManage,
        Permission::AoiRead,
        Permission::AoiManage,
        Permission::AnnotationsCreate,
        Permission::ExportsCreate,
        Permission::MembersRead,
        Permission::MembersManage,
        Permission::RbacRead,
        Permission::RbacManage,
        Permission::TenantSettingsRead,
        Permission::TenantSettingsManage,
    ]
}

/// The read-only subset granted to viewers.
pub open spec fn viewer_permissions() -> Seq<Permission> {
    seq![
        Permission::EventsRead,
        Permission::RelationsRead,
        Permission::EntitiesRead,
        Permission::SearchRead,
        Permission::SavedFiltersRead,
        Permission::AoiRead,
        Permission::MembersRead,
    ]
}

/// Every read permission plus content authoring, granted to analysts.
pub open spec fn analyst_permissions() -> Seq<Permission> {
    seq![
        Permission::EventsRead,
        Permission::EventsCreate,
        Permission::EventsUpdate,
        Permission::EventsVerify,
        Permission::RelationsRead,
        Permission::EntitiesRead,
        Permission::SearchRead,
        Permission::SavedFiltersRead,
        Permission::SavedFiltersManage,
        Permission::AoiRead,
        Permission::AoiManage,
        Permission::AnnotationsCreate,
        Permission::ExportsCreate,
        Permission::MembersRead,
        Permission::RbacRead,
        Permission::TenantSettingsRead,
    ]
}

/// Permissions that manage the tenant itself: members, roles and settings.
pub open spec fn is_administration(p: Permission) -> bool {
    p == Permission::MembersManage || p == Permission::RbacManage || p == Permission::TenantSettingsManage
}

impl Permission {
    /// Every permission in the catalog, in catalog order.
    pub fn all() -> (v: Vec<Permission>)
        ensures v@ == all_permissions(),
    {
        let v = vec![
            Permission::EventsRead,
            Permission::EventsCreate,
            Permission::EventsUpdate,
            Permission::EventsDelete,
            Permission::EventsVerify,
            Permission::RelationsRead,
            Permission::EntitiesRead,
            Permission::SearchRead,
            Permission::SavedFiltersRead,
            Permission::SavedFiltersManage,
            Permission::AoiRead,
            Permission::AoiManage,
            Permission::AnnotationsCreate,
            Permission::ExportsCreate,
            Permission::MembersRead,
            Permission::MembersManage,
            Permission::RbacRead,
            Permission::RbacManage,
            Permission::TenantSettingsRead,
            Permission::TenantSettingsManage,
        ];
        assert(v@ =~= all_permissions());
        v
    }

    /// The dotted string key for this permission (catalog key).
    pub fn as_str(&self) -> (s: &'static str)
        ensures s@ == permission_key(*self),
    {
        match self {
            Permission::EventsRead => "events.read",
            Permission::EventsCreate => "events.create",
            Permission::EventsUpdate => "events.update",
            Permission::EventsDelete => "events.delete",
            Permission::EventsVerify => "events.verify",
            Permission::RelationsRead => "relations.read",
            Permission::EntitiesRead => "entities.read",
            Permission::SearchRead => "search.read",
            Permission::SavedFiltersRead => "saved_filters.read",
            Permission::SavedFiltersManage => "saved_filters.manage",
            Permission::AoiRead => "aoi.read",
            Permission::AoiManage => "aoi.manage",
            Permission::AnnotationsCreate => "annotations.create",
            Permission::ExportsCreate => "exports.create",
            Permission::MembersRead => "members.read",
            Permission::MembersManage => "members.manage",
            Permission::RbacRead => "rbac.read",
            Permission::RbacManage => "rbac.manage",
            Permission::TenantSettingsRead => "tenant.settings.read",
            Permission::TenantSettingsManage => "tenant.settings.manage",
        }
    }
}

/// The built-in role presets seeded for every new tenant.
#[derive(Debug, Clone, Copy, PartialEq, Eq, Structural)]
pub enum RolePreset {
    /// Full control including members, roles, and tenant settings/billing.
    Owner,
    /// Reads everything and authors content, but no administration.
    Analyst,
    /// Read-only access.
    Viewer,
}

/// Stable role key of a preset.
pub open spec fn role_key(r: RolePreset) -> Seq<char> {
    match r {
        RolePreset::Owner => "owner"@,
        RolePreset::Analyst => "analyst"@,
        RolePreset::Viewer => "viewer"@,
    }
}

/// Display name of a preset.
pub open spec fn role_display_name(r: RolePreset) -> Seq<char> {
    match r {
        RolePreset::Owner => "Owner"@,
        RolePreset::Analyst => "Analyst"@,
        RolePreset::Viewer => "Viewer"@,
    }
}

/// Permissions granted to a preset.
pub open spec fn preset_permissions(r: RolePreset) -> Seq<Permission> {
    match r {
        RolePreset::Owner => all_permissions(),
        RolePreset::Analyst => analyst_permissions(),
        RolePreset::Viewer => viewer_permissions(),
    }
}

/// All presets, in seeding order.
pub open spec fn all_presets() -> Seq<RolePreset> {
    seq![RolePreset::Owner, RolePreset::Analyst, RolePreset::Viewer]
}

impl RolePreset {
    /// All presets, in seeding order.
    pub fn all() -> (v: Vec<RolePreset>)
        ensures v@ == all_presets(),
    {
        let v = vec![RolePreset::Owner, RolePreset::Analyst, RolePreset::Viewer];
        assert(v@ =~= all_presets());
        v
    }

    /// Stable role key stored in `roles.key`.
    pub fn key(&self) -> (s: &'static str)
        ensures s@ == role_key(*self),
    {
        match self {
            RolePreset::Owner => "owner",
            RolePreset::Analyst => "analyst",
            RolePreset::Viewer => "viewer",
        }
    }

    /// Human-readable display name.
    pub fn display_name(&self) -> (s: &'static str)
        ensures s@ == role_display_name(*self),
    {
        match self {
            RolePreset::Owner => "Owner",
            RolePreset::Analyst => "Analyst",
            RolePreset::Viewer => "Viewer",
        }
    }

    /// The permissions granted to this preset: `Owner` holds every permission,
    /// `Viewer` the read-only subset, `Analyst` every read permission plus
    /// content authoring, without managing members, roles or settings.
    pub fn permissions(&self) -> (v: Vec<Permission>)
        ensures v@ == preset_permissions(*self),
    {
        match self {
            RolePreset::Owner => Permission::all(),
            RolePreset::Viewer => {
                let v = vec![
                    Permission::EventsRead,
                    Permission::RelationsRead,
                    Permission::EntitiesRead,
                    Permission::SearchRead,
                    Permission::SavedFiltersRead,
                    Permission::AoiRead,
                    Permission::MembersRead,
                ];
                assert(v@ =~= viewer_permissions());
                v
            },
            RolePreset::Analyst => {
                let v = vec![
                    Permission::EventsRead,
                    Permission::EventsCreate,
                    Permission::EventsUpdate,
                    Permission::EventsVerify,
                    Permission::RelationsRead,
                    Permission::EntitiesRead,
                    Permission::SearchRead,
                    Permission::SavedFiltersRead,
                    Permission::SavedFiltersManage,
                    Permission::AoiRead,
                    Permission::AoiManage,
                    Permission::AnnotationsCreate,
                    Permission::ExportsCreate,
                    Permission::MembersRead,
                    Permission::RbacRead,
                    Permission::TenantSettingsRead,
                ];
                assert(v@ =~= analyst_permissions());
                v
            },
        }
    }
}

/// The catalog lists every permission exactly once.
pub proof fn catalog_is_complete_and_distinct(p: Permission)
    ensures
        all_permissions().contains(p),
        all_permissions().no_duplicates(),
{
    let a = all_permissions();
    match p {
        Permission::EventsRead => assert(a[0] == p),
        Permission::EventsCreate => assert(a[1] == p),
        Permission::EventsUpdate => assert(a[2] == p),
        Permission::EventsDelete => assert(a[3] == p),
        Permission::EventsVerify => assert(a[4] == p),
        Permission::RelationsRead => assert(a[5] == p),
        Permission::EntitiesRead => assert(a[6] == p),
        Permission::SearchRead => assert(a[7] == p),
        Permission::SavedFiltersRead => assert(a[8] == p),
        Permission::SavedFiltersManage => assert(a[9] == p),
        Permission::AoiRead => assert(a[10] == p),
        Permission::AoiManage => assert(a[11] == p),
        Permission::AnnotationsCreate => assert(a[12] == p),
        Permission::ExportsCreate => assert(a[13] == p),
        Permission::MembersRead => assert(a[14] == p),
        Permission::MembersManage => assert(a[15] == p),
        Permission::RbacRead => assert(a[16] == p),
        Permission::RbacManage => assert(a[17] == p),
        Permission::TenantSettingsRead => assert(a[18] == p),
        Permission::TenantSettingsManage => assert(a[19] == p),
    }
}

/// Distinct permissions have distinct catalog keys, so a key names exactly
/// one permission.
pub proof fn permission_keys_are_distinct(p: Permission, q: Permission)
    requires permission_key(p) == permission_key(q),
    ensures p == q,
{
    reveal_strlit("events.read");
    reveal_strlit("events.create");
    reveal_strlit("events.update");
    reveal_strlit("events.delete");
    reveal_strlit("events.verify");
    reveal_strlit("relations.read");
    reveal_strlit("entities.read");
    reveal_strlit("search.read");
    reveal_strlit("saved_filters.read");
    reveal_strlit("saved_filters.manage");
    reveal_strlit("aoi.read");
    reveal_strlit("aoi.manage");
    reveal_strlit("annotations.create");
    reveal_strlit("exports.create");
    reveal_strlit("members.read");
    reveal_strlit("members.manage");
    reveal_strlit("rbac.read");
    reveal_strlit("rbac.manage");
    reveal_strlit("tenant.settings.read");
    reveal_strlit("tenant.settings.manage");
    if p != q {
        let a = permission_key(p);
        let b = permission_key(q);
        assert(a.len() != b.len() || a[0] != b[0] || a[1] != b[1] || a[2] != b[2] || a[4] != b[4]
            || a[7] != b[7] || a[8] != b[8] || a[9] != b[9] || a[10] != b[10] || a[14] != b[14]
            || a[15] != b[15] || a[16] != b[16]);
    }
}

/// The preset hierarchy: every viewer permission is an analyst permission,
/// every analyst permission is an owner permission, and the owner holds the
/// whole catalog.
pub proof fn presets_are_nested(p: Permission)
    ensures
        preset_permissions(RolePreset::Viewer).contains(p) ==> preset_permissions(RolePreset::Analyst).contains(p),
        preset_permissions(RolePreset::Analyst).contains(p) ==> preset_permissions(RolePreset::Owner).contains(p),
        preset_permissions(RolePreset::Owner).contains(p),
{
    catalog_is_complete_and_distinct(p);
    let v = viewer_permissions();
    let a = analyst_permissions();
    if v.contains(p) {
        let i = choose|i: int| 0 <= i < v.len() && v[i] == p;
        assert(a.contains(p)) by {
            if i == 0 { assert(a[0] == p); } else if i == 1 { assert(a[4] == p); }
            else if i == 2 { assert(a[5] == p); } else if i == 3 { assert(a[6] == p); }
            else if i == 4 { assert(a[7] == p); } else if i == 5 { assert(a[9] == p); }
            else { assert(a[13] == p); }
        }
    }
}

/// Analysts manage no members, roles or tenant settings; viewers hold only
/// permissions whose key ends in `.read`.
pub proof fn analyst_and_viewer_limits(p: Permission)
    ensures
        preset_permissions(RolePreset::Analyst).contains(p) ==> !is_administration(p),
        preset_permissions(RolePreset::Viewer).contains(p) ==> without_suffix(permission_key(p), ".read"@) is Some,
{
    let v = viewer_permissions();
    let a = analyst_permissions();
    if a.contains(p) {
        let i = choose|i: int| 0 <= i < a.len() && a[i] == p;
        assert(!is_administration(a[i]));
    }
    if v.contains(p) {
        reveal_strlit(".read");
        reveal_strlit("events.read");
        reveal_strlit("relations.read");
        reveal_strlit("entities.read");
        reveal_strlit("search.read");
        reveal_strlit("saved_filters.read");
        reveal_strlit("aoi.read");
        reveal_strlit("members.read");
        let i = choose|i: int| 0 <= i < v.len() && v[i] == p;
        let k = permission_key(p);
        assert(k.subrange(k.len() - 5, k.len() as int) =~= ".read"@);
    }
}

/// Analysts can read everything: every permission whose key ends in `.read`
/// belongs to the analyst preset.
pub proof fn analyst_reads_everything(p: Permission)
    requires
        without_suffix(permission_key(p), ".read"@) is Some,
    ensures
        preset_permissions(RolePreset::Analyst).contains(p),
{
    let a = analyst_permissions();
    let k = permission_key(p);
    reveal_strlit(".read");
    reveal_strlit("events.create");
    reveal_strlit("events.update");
    reveal_strlit("events.delete");
    reveal_strlit("events.verify");
    reveal_strlit("saved_filters.manage");
    reveal_strlit("aoi.manage");
    reveal_strlit("annotations.create");
    reveal_strlit("exports.create");
    reveal_strlit("members.manage");
    reveal_strlit("rbac.manage");
    reveal_strlit("tenant.settings.manage");
    match p {
        Permission::EventsRead => assert(a[0] == p),
        Permission::RelationsRead => assert(a[4] == p),
        Permission::EntitiesRead => assert(a[5] == p),
        Permission::SearchRead => assert(a[6] == p),
        Permission::SavedFiltersRead => assert(a[7] == p),
        Permission::AoiRead => assert(a[9] == p),
        Permission::MembersRead => assert(a[13] == p),
        Permission::RbacRead => assert(a[14] == p),
        Permission::TenantSettingsRead => assert(a[15] == p),
        Permission::EventsCreate => assert(a[1] == p),
        Permission::EventsUpdate => assert(a[2] == p),
        Permission::EventsVerify => assert(a[3] == p),
        Permission::SavedFiltersManage => assert(a[8] == p),
        Permission::AoiManage => assert(a[10] == p),
        Permission::AnnotationsCreate => assert(a[11] == p),
        Permission::ExportsCreate => assert(a[12] == p),
        _ => {
            assert(k.subrange(k.len() - 5, k.len() as int)[4] == k[k.len() - 1]);
        },
    }
}

} // verus!
