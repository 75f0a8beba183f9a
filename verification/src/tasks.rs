//! Tenant provisioning and the worker task queue: the roles and permission
//! grants a new tenant is seeded with, the owner role it hands its first
//! member, and the rows of the Postgres-backed task queue.

use vstd::prelude::*;
use crate::error::AppError;
use crate::numbers::Instant;
use crate::rbac::{Permission, RolePreset, all_presets, preset_permissions, role_key,
    role_display_name, permission_key};

verus! {

// ---------------------------------------------------------------------------
// Tenant provisioning
// ---------------------------------------------------------------------------

/// One system role to insert for a new tenant, with its permission keys.
pub struct RoleSeed {
    /// The preset the role comes from.
    pub preset: RolePreset,
    /// Role key (`owner`, `analyst`, `viewer`).
    pub key: &'static str,
    /// Display name.
    pub name: &'static str,
    /// Permission keys granted to the role, in catalog order.
    pub permission_keys: Vec<&'static str>,
}

/// The permission keys of a list of permissions.
pub open spec fn keys_of(ps: Seq<Permission>) -> Seq<Seq<char>> {
    ps.map_values(|p: Permission| permission_key(p))
}

/// The grants of one seeded role.
pub open spec fn seed_matches(s: RoleSeed, p: RolePreset) -> bool {
    &&& s.preset == p
    &&& s.key@ == role_key(p)
    &&& s.name@ == role_display_name(p)
    &&& s.permission_keys@.map_values(|k: &'static str| k@) == keys_of(preset_permissions(p))
}

fn role_seed(preset: RolePreset) -> (s: RoleSeed)
    ensures seed_matches(s, preset),
{
    let perms = preset.permissions();
    let mut keys: Vec<&'static str> = Vec::new();
    let mut i: usize = 0;
    while i < perms.len()
        invariant
            perms@ == preset_permissions(preset),
            i <= perms@.len(),
            keys@.len() == i,
            forall|j: int| 0 <= j < i ==> (#[trigger] keys@[j])@ == permission_key(perms@[j]),
        decreases perms@.len() - i,
    {
        keys.push(perms[i].as_str());
        i = i + 1;
    }
    let s = RoleSeed { preset, key: preset.key(), name: preset.display_name(), permission_keys: keys };
    assert(s.permission_keys@.map_values(|k: &'static str| k@) =~= keys_of(preset_permissions(preset)));
    s
}

/// The system roles a new tenant is seeded with: one per preset, in preset
/// order, each with exactly its preset's permission keys.
pub fn tenant_role_seeds() -> (seeds: Vec<RoleSeed>)
    ensures
        seeds@.len() == all_presets().len(),
        forall|i: int| 0 <= i < seeds@.len() ==> seed_matches(#[trigger] seeds@[i], all_presets()[i]),
{
    let presets = RolePreset::all();
    let mut seeds: Vec<RoleSeed> = Vec::new();
    let mut i: usize = 0;
    while i < presets.len()
        invariant
            presets@ == all_presets(),
            i <= presets@.len(),
            seeds@.len() == i,
            forall|j: int| 0 <= j < i ==> seed_matches(#[trigger] seeds@[j], all_presets()[j]),
        decreases presets@.len() - i,
    {
        seeds.push(role_seed(presets[i]));
        i = i + 1;
    }
    seeds
}

/// The owner role among the seeded roles (preset, role id), which the first
/// member of a tenant receives.
pub fn owner_role(seeded: &Vec<(RolePreset, u128)>) -> (r: Result<u128, AppError>)
    ensures
        (exists|i: int| 0 <= i < seeded@.len() && (#[trigger] seeded@[i]).0 == RolePreset::Owner)
            <==> r is Ok,
        r matches Ok(id) ==> exists|i: int| 0 <= i < seeded@.len()
            && (#[trigger] seeded@[i]).0 == RolePreset::Owner && seeded@[i].1 == id
            && forall|j: int| i < j < seeded@.len() ==> (#[trigger] seeded@[j]).0 != RolePreset::Owner,
        r matches Err(e) ==> (e matches AppError::Internal(m) && m@ == "owner role not seeded"@),
{
    let mut found: Option<u128> = None;
    let mut i: usize = 0;
    while i < seeded.len()
        invariant
            i <= seeded@.len(),
            found is None <==> forall|j: int| 0 <= j < i ==> (#[trigger] seeded@[j]).0 != RolePreset::Owner,
            found matches Some(id) ==> exists|k: int| 0 <= k < i && (#[trigger] seeded@[k]).0 == RolePreset::Owner
                && seeded@[k].1 == id
                && forall|j: int| k < j < i ==> (#[trigger] seeded@[j]).0 != RolePreset::Owner,
        decreases seeded@.len() - i,
    {
        let (preset, id) = seeded[i];
        if preset == RolePreset::Owner {
            found = Some(id);
            assert(seeded@[i as int].0 == RolePreset::Owner);
        }
        i = i + 1;
    }
    match found {
        Some(id) => Ok(id),
        None => Err(AppError::internal("owner role not seeded")),
    }
}

// ---------------------------------------------------------------------------
// Worker task queue
// ---------------------------------------------------------------------------

/// Lifecycle status of a queued task.
#[derive(Debug, Clone, Copy, PartialEq, Eq, Structural)]
pub enum WorkerTaskStatus {
    /// Waiting to be claimed.
    Pending,
    /// Claimed and executing.
    Running,
    /// Finished successfully.
    Completed,
    /// Exhausted its attempts or failed permanently.
    Failed,
}

/// The stored key of a task status.
pub open spec fn task_status_key(s: WorkerTaskStatus) -> Seq<char> {
    match s {
        WorkerTaskStatus::Pending => "pending"@,
        WorkerTaskStatus::Running => "running"@,
        WorkerTaskStatus::Completed => "completed"@,
        WorkerTaskStatus::Failed => "failed"@,
    }
}

impl WorkerTaskStatus {
    /// The stored key of the status (`worker_task_status`).
    pub fn as_str(&self) -> (s: &'static str)
        ensures s@ == task_status_key(*self),
    {
        match self {
            WorkerTaskStatus::Pending => "pending",
            WorkerTaskStatus::Running => "running",
            WorkerTaskStatus::Completed => "completed",
            WorkerTaskStatus::Failed => "failed",
        }
    }
}

/// A claimed or fetched task.
pub struct WorkerTask {
    pub id: u128,
    /// Tenant scope of the work.
    pub tenant_id: u128,
    /// Handler key (e.g. `ingest_usgs_live`).
    pub task_type: String,
    /// Handler-specific JSON payload.
    pub payload: serde_json::Value,
    /// Attempts so far (incremented on claim).
    pub attempts: i16,
    /// Attempts allowed before the task is marked failed.
    pub max_attempts: i16,
}

/// A task to enqueue (a no-op while one with the same dedupe key is pending or
/// running for the tenant).
pub struct EnqueueTask {
    pub tenant_id: u128,
    pub task_type: String,
    pub payload: serde_json::Value,
    /// Dedupe key.
    pub dedupe_key: String,
    /// When the task becomes eligible.
    pub run_at: Instant,
    /// Higher runs first among ready tasks.
    pub priority: i16,
}

/// The row returned by a claim.
pub struct ClaimedTaskRow {
    pub id: u128,
    pub tenant_id: u128,
    pub task_type: String,
    pub payload: serde_json::Value,
    pub attempts: i16,
    pub max_attempts: i16,
}

impl ClaimedTaskRow {
    /// The task a claimed row describes, field for field.
    pub fn into_worker_task(self) -> (t: WorkerTask)
        ensures
            t.id == self.id,
            t.tenant_id == self.tenant_id,
            t.task_type == self.task_type,
            t.payload == self.payload,
            t.attempts == self.attempts,
            t.max_attempts == self.max_attempts,
    {
        WorkerTask {
            id: self.id,
            tenant_id: self.tenant_id,
            task_type: self.task_type,
            payload: self.payload,
            attempts: self.attempts,
            max_attempts: self.max_attempts,
        }
    }
}

} // verus!
