//! The order of the register, login and refresh requests, as a machine from
//! state and event to next state and action. The service performs each
//! action (a database read or write, or issuing the session) and hands the
//! outcome back as the next event.
//!
//! Every check runs before any write: an account is created only after the
//! password policy and the email check, a refresh token is revoked only once
//! it was found valid, and a session is issued only after the password and the
//! membership checks. A failed check ends the request with its error.

use vstd::prelude::*;
use vstd::utf8::encode_utf8;
use crate::auth::{
    check_email_available, check_login_account, check_new_password, check_password_match, check_refresh_row,
    hash_refresh_token, membership_for_slug, only_membership, owner_membership, refresh_hash, MembershipAuthRow,
    RefreshTokenRow, UserAuthRow, MIN_PASSWORD_BYTES,
};
use crate::error::{error_code, error_message, AppError};
use crate::password::{argon2_matches, hash_password, is_hash_of, phc_parses, verify_password};

verus! {

/// Which request a session is issued for; the audit entry is named after it.
#[derive(Debug, Clone, Copy, PartialEq, Eq, Structural)]
pub enum AuthKind {
    Register,
    Login,
    Refresh,
}

/// Where a request stands.
#[allow(inconsistent_fields)]
pub enum AuthFlow {
    /// Login: waiting for the user row of the email.
    LoginAwaitUser { password: String, tenant_slug: Option<String> },
    /// Registration: waiting for the user row of the email, which must be absent.
    RegisterAwaitUser { password: String, tenant_slug: String },
    /// Registration: waiting for the new tenant, user and owner membership.
    RegisterAwaitAccount { tenant_slug: String },
    /// Refresh: waiting for the valid stored token.
    RefreshAwaitRow { tenant_slug: Option<String> },
    /// Refresh: waiting for the old token's revocation.
    RefreshAwaitRevoke { user_id: u128, tenant_slug: Option<String> },
    /// Waiting for the membership the session is issued in.
    AwaitMembership { user_id: u128, kind: AuthKind },
    /// The request is answered.
    Done,
}

/// What the service reports back.
pub enum AuthEvent {
    /// The user row of the request's email, if any.
    UserRow(Option<UserAuthRow>),
    /// The tenant, user and owner membership that registration created.
    AccountCreated { tenant_id: u128, user_id: u128, membership_id: u128 },
    /// The valid stored refresh token of the presented hash, if any.
    RefreshRow(Option<RefreshTokenRow>),
    /// The old refresh token is revoked.
    Revoked,
    /// The user's membership in the named tenant, if any.
    MembershipBySlug(Option<MembershipAuthRow>),
    /// The user's active memberships.
    MembershipList(Vec<MembershipAuthRow>),
}

/// What the service does next.
pub enum AuthAction {
    /// Read the user row of the request's email.
    FindUser,
    /// Create the tenant, the user with this password hash, and the owner membership.
    CreateAccount { password_hash: String },
    /// Read the valid stored refresh token with this hash.
    FindRefreshToken { token_hash: String },
    /// Revoke the stored refresh token.
    RevokeRefreshToken { id: u128 },
    /// Read the user's membership in the named tenant.
    FindMembership { user_id: u128, tenant_slug: String },
    /// Read the user's active memberships.
    ListMemberships { user_id: u128 },
    /// Write the audit entry of `kind` and issue the session.
    Issue { user_id: u128, membership: MembershipAuthRow, kind: AuthKind },
    /// Answer the request with this error.
    Fail(AppError),
}

/// Whether `flow` waits for an event of the kind of `event`.
pub open spec fn flow_expects(flow: AuthFlow, event: AuthEvent) -> bool {
    match flow {
        AuthFlow::LoginAwaitUser { .. } | AuthFlow::RegisterAwaitUser { .. } => event is UserRow,
        AuthFlow::RegisterAwaitAccount { .. } => event is AccountCreated,
        AuthFlow::RefreshAwaitRow { .. } => event is RefreshRow,
        AuthFlow::RefreshAwaitRevoke { .. } => event is Revoked,
        AuthFlow::AwaitMembership { .. } => event is MembershipBySlug || event is MembershipList,
        AuthFlow::Done => false,
    }
}

/// The request ends with an error of this code and message.
pub open spec fn fails_with(r: (AuthFlow, AuthAction), code: Seq<char>, message: Seq<char>) -> bool {
    &&& r.0 is Done
    &&& r.1 matches AuthAction::Fail(e)
    &&& error_code(e) == code
    &&& error_message(e) == message
}

/// The request goes on to the membership of `user_id`: in the named tenant,
/// or the only one when no tenant is named.
pub open spec fn asks_membership(r: (AuthFlow, AuthAction), user_id: u128, tenant_slug: Option<String>, kind: AuthKind) -> bool {
    &&& r.0 == (AuthFlow::AwaitMembership { user_id, kind })
    &&& match tenant_slug {
        Some(s) => r.1 matches AuthAction::FindMembership { user_id: u, tenant_slug: t } && u == user_id && t@ == s@,
        None => r.1 == (AuthAction::ListMemberships { user_id }),
    }
}

/// The login step on the user row: unknown email, missing password hash and
/// wrong password all fail alike; a disabled account is refused first; a
/// stored hash that does not parse is an internal error; a matching password
/// goes on to the membership.
pub open spec fn login_outcome(
    password: Seq<char>,
    tenant_slug: Option<String>,
    user: Option<UserAuthRow>,
    r: (AuthFlow, AuthAction),
) -> bool {
    match user {
        None => fails_with(r, "unauthorized"@, "invalid email or password"@),
        Some(u) => if u.status@ != "active"@ {
            fails_with(r, "forbidden"@, "account disabled"@)
        } else {
            match u.password_hash {
                None => fails_with(r, "unauthorized"@, "invalid email or password"@),
                Some(h) => if !phc_parses(h@) {
                    fails_with(r, "internal"@, "stored hash invalid"@)
                } else if !argon2_matches(password, h@) {
                    fails_with(r, "unauthorized"@, "invalid email or password"@)
                } else {
                    asks_membership(r, u.id, tenant_slug, AuthKind::Login)
                },
            }
        },
    }
}

/// The registration step on the user row: a taken email is a conflict;
/// otherwise the password is hashed and the account created with that hash.
pub open spec fn register_outcome(
    password: Seq<char>,
    tenant_slug: String,
    user: Option<UserAuthRow>,
    r: (AuthFlow, AuthAction),
) -> bool {
    match user {
        Some(_) => fails_with(r, "conflict"@, "email already registered"@),
        None => fails_with(r, "internal"@, "password hash failed"@) || {
            &&& r.0 == (AuthFlow::RegisterAwaitAccount { tenant_slug })
            &&& r.1 matches AuthAction::CreateAccount { password_hash: h }
            &&& is_hash_of(password, h@)
        },
    }
}

/// The step on a membership answer: a missing named membership is refused, a
/// list needs exactly one entry; the session is issued in the membership.
pub open spec fn membership_outcome(user_id: u128, kind: AuthKind, event: AuthEvent, r: (AuthFlow, AuthAction)) -> bool {
    match event {
        AuthEvent::MembershipBySlug(found) => match found {
            None => fails_with(r, "forbidden"@, "not a member of this tenant"@),
            Some(m) => r.0 is Done && r.1 == (AuthAction::Issue { user_id, membership: m, kind }),
        },
        AuthEvent::MembershipList(v) => if v@.len() == 0 {
            fails_with(r, "forbidden"@, "no active tenant memberships"@)
        } else if v@.len() == 1 {
            r.0 is Done && r.1 == (AuthAction::Issue { user_id, membership: v@[0], kind })
        } else {
            fails_with(r, "bad_request"@, "tenant_slug required when user belongs to multiple tenants"@)
        },
        _ => false,
    }
}

/// Login starts by reading the user row of the email.
pub fn begin_login(password: String, tenant_slug: Option<String>) -> (r: (AuthFlow, AuthAction))
    ensures
        r.0 == (AuthFlow::LoginAwaitUser { password, tenant_slug }),
        r.1 is FindUser,
{
    (AuthFlow::LoginAwaitUser { password, tenant_slug }, AuthAction::FindUser)
}

/// Registration checks the password policy, then reads the user row of the
/// email.
pub fn begin_register(password: String, tenant_slug: String) -> (r: (AuthFlow, AuthAction))
    ensures
        encode_utf8(password@).len() >= MIN_PASSWORD_BYTES ==> r.0 == (AuthFlow::RegisterAwaitUser { password, tenant_slug })
            && r.1 is FindUser,
        encode_utf8(password@).len() < MIN_PASSWORD_BYTES ==> fails_with(r, "validation"@, "password too short"@),
{
    match check_new_password(password.as_str()) {
        Ok(()) => (AuthFlow::RegisterAwaitUser { password, tenant_slug }, AuthAction::FindUser),
        Err(e) => (AuthFlow::Done, AuthAction::Fail(e)),
    }
}

/// Refresh starts by reading the stored token with the presented token's hash.
pub fn begin_refresh(refresh_token: &str, tenant_slug: Option<String>) -> (r: (AuthFlow, AuthAction))
    ensures
        r.0 == (AuthFlow::RefreshAwaitRow { tenant_slug }),
        r.1 matches AuthAction::FindRefreshToken { token_hash: h } && h@ == refresh_hash(refresh_token@),
{
    let token_hash = hash_refresh_token(refresh_token);
    (AuthFlow::RefreshAwaitRow { tenant_slug }, AuthAction::FindRefreshToken { token_hash })
}

fn ask_membership(user_id: u128, tenant_slug: Option<String>, kind: AuthKind) -> (r: (AuthFlow, AuthAction))
    ensures asks_membership(r, user_id, tenant_slug, kind),
{
    let next = AuthFlow::AwaitMembership { user_id, kind };
    match tenant_slug {
        Some(s) => (next, AuthAction::FindMembership { user_id, tenant_slug: s }),
        None => (next, AuthAction::ListMemberships { user_id }),
    }
}

fn fail(e: AppError) -> (r: (AuthFlow, AuthAction))
    ensures r.0 is Done, r.1 == AuthAction::Fail(e),
{
    (AuthFlow::Done, AuthAction::Fail(e))
}

impl AuthFlow {
    /// Whether this state waits for an event of the kind of `event`.
    pub fn expects(&self, event: &AuthEvent) -> (b: bool)
        ensures b == flow_expects(*self, *event),
    {
        match self {
            AuthFlow::LoginAwaitUser { .. } | AuthFlow::RegisterAwaitUser { .. } => matches!(event, AuthEvent::UserRow(_)),
            AuthFlow::RegisterAwaitAccount { .. } => matches!(event, AuthEvent::AccountCreated { .. }),
            AuthFlow::RefreshAwaitRow { .. } => matches!(event, AuthEvent::RefreshRow(_)),
            AuthFlow::RefreshAwaitRevoke { .. } => matches!(event, AuthEvent::Revoked),
            AuthFlow::AwaitMembership { .. } => matches!(event, AuthEvent::MembershipBySlug(_) | AuthEvent::MembershipList(_)),
            AuthFlow::Done => false,
        }
    }

    /// The next state and action on the event this state waits for.
    pub fn step(self, event: AuthEvent) -> (r: (AuthFlow, AuthAction))
        requires flow_expects(self, event),
        ensures
            match self {
                AuthFlow::LoginAwaitUser { password, tenant_slug } => event matches AuthEvent::UserRow(u)
                    && login_outcome(password@, tenant_slug, u, r),
                AuthFlow::RegisterAwaitUser { password, tenant_slug } => event matches AuthEvent::UserRow(u)
                    && register_outcome(password@, tenant_slug, u, r),
                AuthFlow::RegisterAwaitAccount { tenant_slug } => event matches AuthEvent::AccountCreated {
                    tenant_id, user_id, membership_id } && {
                    &&& r.0 is Done
                    &&& r.1 matches AuthAction::Issue { user_id: u, membership: m, kind }
                    &&& u == user_id && kind == AuthKind::Register
                    &&& m.membership_id == membership_id && m.tenant_id == tenant_id
                    &&& m.tenant_slug@ == tenant_slug@ && m.role_key@ == "owner"@
                },
                AuthFlow::RefreshAwaitRow { tenant_slug } => event matches AuthEvent::RefreshRow(found) && match found {
                    None => fails_with(r, "unauthorized"@, "invalid refresh token"@),
                    Some(row) => r.0 == (AuthFlow::RefreshAwaitRevoke { user_id: row.user_id, tenant_slug })
                        && r.1 == (AuthAction::RevokeRefreshToken { id: row.id }),
                },
                AuthFlow::RefreshAwaitRevoke { user_id, tenant_slug } => asks_membership(r, user_id, tenant_slug, AuthKind::Refresh),
                AuthFlow::AwaitMembership { user_id, kind } => membership_outcome(user_id, kind, event, r),
                AuthFlow::Done => false,
            },
    {
        match self {
            AuthFlow::LoginAwaitUser { password, tenant_slug } => {
                let user = match event {
                    AuthEvent::UserRow(u) => u,
                    _ => { return fail(AppError::internal("unexpected event")); },
                };
                let (user_id, hash) = match check_login_account(user) {
                    Ok(pair) => pair,
                    Err(e) => { return fail(e); },
                };
                let matches = match verify_password(password.as_str(), hash.as_str()) {
                    Ok(b) => b,
                    Err(e) => { return fail(e); },
                };
                match check_password_match(matches) {
                    Ok(()) => ask_membership(user_id, tenant_slug, AuthKind::Login),
                    Err(e) => fail(e),
                }
            },
            AuthFlow::RegisterAwaitUser { password, tenant_slug } => {
                let user = match event {
                    AuthEvent::UserRow(u) => u,
                    _ => { return fail(AppError::internal("unexpected event")); },
                };
                if let Err(e) = check_email_available(user) {
                    return fail(e);
                }
                match hash_password(password.as_str()) {
                    Ok(h) => (AuthFlow::RegisterAwaitAccount { tenant_slug }, AuthAction::CreateAccount { password_hash: h }),
                    Err(e) => fail(e),
                }
            },
            AuthFlow::RegisterAwaitAccount { tenant_slug } => match event {
                AuthEvent::AccountCreated { tenant_id, user_id, membership_id } => {
                    let membership = owner_membership(membership_id, tenant_id, tenant_slug.as_str());
                    (AuthFlow::Done, AuthAction::Issue { user_id, membership, kind: AuthKind::Register })
                },
                _ => fail(AppError::internal("unexpected event")),
            },
            AuthFlow::RefreshAwaitRow { tenant_slug } => match event {
                AuthEvent::RefreshRow(found) => match check_refresh_row(found) {
                    Ok(row) => (
                        AuthFlow::RefreshAwaitRevoke { user_id: row.user_id, tenant_slug },
                        AuthAction::RevokeRefreshToken { id: row.id },
                    ),
                    Err(e) => fail(e),
                },
                _ => fail(AppError::internal("unexpected event")),
            },
            AuthFlow::RefreshAwaitRevoke { user_id, tenant_slug } => ask_membership(user_id, tenant_slug, AuthKind::Refresh),
            AuthFlow::AwaitMembership { user_id, kind } => match event {
                AuthEvent::MembershipBySlug(found) => match membership_for_slug(found) {
                    Ok(m) => (AuthFlow::Done, AuthAction::Issue { user_id, membership: m, kind }),
                    Err(e) => fail(e),
                },
                AuthEvent::MembershipList(v) => match only_membership(v) {
                    Ok(m) => (AuthFlow::Done, AuthAction::Issue { user_id, membership: m, kind }),
                    Err(e) => fail(e),
                },
                _ => fail(AppError::internal("unexpected event")),
            },
            AuthFlow::Done => fail(AppError::internal("unexpected event")),
        }
    }
}

// ---------------------------------------------------------------------------
// Laws
// ---------------------------------------------------------------------------

/// Login does not tell which credential was wrong: an unknown email, an
/// account without a password and a wrong password all end with the same
/// `invalid email or password`, and none of them reaches a write.
pub proof fn bad_credentials_look_alike(
    password: Seq<char>,
    tenant_slug: Option<String>,
    user: Option<UserAuthRow>,
    r: (AuthFlow, AuthAction),
)
    requires
        login_outcome(password, tenant_slug, user, r),
        match user {
            None => true,
            Some(u) => u.status@ == "active"@ && match u.password_hash {
                None => true,
                Some(h) => phc_parses(h@) && !argon2_matches(password, h@),
            },
        },
    ensures
        fails_with(r, "unauthorized"@, "invalid email or password"@),
{
}

/// A password hashed at registration logs in: when the stored hash of an
/// active account is a hash of the password presented, login goes on to the
/// membership instead of failing.
pub proof fn registered_password_logs_in(
    password: Seq<char>,
    tenant_slug: Option<String>,
    u: UserAuthRow,
    r: (AuthFlow, AuthAction),
)
    requires
        u.status@ == "active"@,
        u.password_hash matches Some(h) && is_hash_of(password, h@),
        login_outcome(password, tenant_slug, Some(u), r),
    ensures
        asks_membership(r, u.id, tenant_slug, AuthKind::Login),
{
}

} // verus!
