//! Admin requests: their bodies, the administrator gate, and the GC query.
use vstd::prelude::*;
use crate::auth::{authenticate_user, first_match};
use crate::permissions::{admin, is_admin};
use crate::state::{Permission, User, UserView};
use crate::text::pair_view;
use crate::users::UserStore;

verus! {

/// Body of `POST /admin/users`.
#[derive(Debug)]
pub struct CreateUserRequest {
    pub username: String,
    pub password: String,
    pub permissions: Vec<Permission>,
}

/// Body of `POST /admin/users/{username}/permissions`.
#[derive(Debug)]
pub struct AddPermissionRequest {
    pub repository: String,
    pub tag: String,
    pub actions: Vec<String>,
}

/// Body of `POST /admin/permissions`.
#[derive(Debug)]
pub struct AddPermissionWithUsernameRequest {
    pub username: String,
    pub repository: String,
    pub tag: String,
    pub actions: Vec<String>,
}

/// Query of `POST /admin/gc`.
#[derive(Debug)]
pub struct GcQuery {
    pub dry_run: bool,
    pub grace_period_hours: u64,
}

/// The grace period, in hours, when the query gives none.
pub fn default_grace_period() -> (r: u64)
    ensures
        r == 24,
{
    24
}

impl GcQuery {
    /// The query with neither parameter given: no dry run, 24 hours.
    pub fn defaults() -> (r: GcQuery)
        ensures
            !r.dry_run,
            r.grace_period_hours == 24,
    {
        GcQuery { dry_run: false, grace_period_hours: default_grace_period() }
    }
}

impl CreateUserRequest {
    /// The user the request creates.
    pub fn into_user(self) -> (r: User)
        ensures
            r.username == self.username,
            r.password == self.password,
            r.permissions == self.permissions,
    {
        User { username: self.username, password: self.password, permissions: self.permissions }
    }
}

impl AddPermissionRequest {
    /// The permission the request grants.
    pub fn into_permission(self) -> (r: Permission)
        ensures
            r.repository == self.repository,
            r.tag == self.tag,
            r.actions == self.actions,
    {
        Permission { repository: self.repository, tag: self.tag, actions: self.actions }
    }
}

impl AddPermissionWithUsernameRequest {
    /// The user named and the permission the request grants.
    pub fn into_parts(self) -> (r: (String, Permission))
        ensures
            r.0 == self.username,
            r.1.repository == self.repository,
            r.1.tag == self.tag,
            r.1.actions == self.actions,
    {
        (
            self.username,
            Permission { repository: self.repository, tag: self.tag, actions: self.actions },
        )
    }
}

/// Who may use the admin endpoints.
#[derive(Debug)]
pub enum AdminAccess {
    /// An authenticated administrator.
    Granted(User),
    /// No credentials, or unknown ones: 401.
    Unauthorized,
    /// An authenticated user that is not an administrator: 403.
    Forbidden,
}

/// The spec form of an admin gate outcome, as for request decisions.
pub open spec fn admin_access_view(a: AdminAccess) -> Option<Option<UserView>> {
    match a {
        AdminAccess::Unauthorized => None,
        AdminAccess::Forbidden => Some(None),
        AdminAccess::Granted(u) => Some(Some(u@)),
    }
}

/// The admin gate for credentials `creds`.
pub open spec fn admin_decision(users: Seq<UserView>, creds: Option<(Seq<char>, Seq<char>)>) -> Option<
    Option<UserView>,
> {
    match creds {
        None => None,
        Some(c) => match first_match(users, c) {
            None => None,
            Some(u) => if admin(u) {
                Some(Some(u))
            } else {
                Some(None)
            },
        },
    }
}

/// Authenticates and requires the administrator capability.
pub fn check_admin(store: &UserStore, credentials: Option<(String, String)>) -> (r: AdminAccess)
    ensures
        admin_access_view(r) == admin_decision(store@, pair_view(credentials)),
{
    match authenticate_user(store, credentials) {
        None => AdminAccess::Unauthorized,
        Some(user) => {
            if is_admin(&user) {
                AdminAccess::Granted(user)
            } else {
                AdminAccess::Forbidden
            }
        },
    }
}

} // verus!
