//! The guard of each operation: what a caller needs before the operation reads a
//! sensitive field or writes anything.
//!
//! A guard is decided before the operation touches its resource. Where it fails the
//! request ends with the rejection it gives.

use vstd::prelude::*;
use crate::auth::AuthUser;
use crate::error::Rejection;
use crate::permission_check::{
    access_or_self, permission_outcome, require_permission, require_permission_or_self,
    roles_view, Access, RoleLookup, RoleLookupView,
};
use crate::permissions::Permission;
use crate::text::str_eq;

verus! {

/// The decision on an operation that the owner of a resource may always perform and
/// everyone else only with `required`.
pub open spec fn access_or_owner(
    is_owner: bool,
    required: u32,
    lookup: Option<RoleLookupView>,
) -> Access {
    if is_owner {
        Access::Granted
    } else {
        match lookup {
            None => Access::NeedRoles,
            Some(answer) => match permission_outcome(required, answer) {
                Ok(_) => Access::Granted,
                Err(e) => Access::Denied(e),
            },
        }
    }
}

/// The decision on listing applications: the full listing asks for `APP_READ`, the
/// plain one for nothing.
pub open spec fn app_listing_access(all: bool, lookup: Option<RoleLookupView>) -> Access {
    access_or_owner(!all, Permission::APP_READ, lookup)
}

/// The decision on showing the permissions of the role `role_id`: the caller needs
/// `ROLE_MANAGE`, and has to hold that role itself.
pub open spec fn role_permissions_outcome(
    lookup: RoleLookupView,
    held: Seq<Seq<char>>,
    role_id: Seq<char>,
) -> Result<(), Rejection> {
    match permission_outcome(Permission::ROLE_MANAGE, lookup) {
        Err(e) => Err(e),
        Ok(_) => if held.contains(role_id) {
            Ok(())
        } else {
            Err(Rejection::Forbidden)
        },
    }
}

/// Whether the owner of a resource, or else a caller with `required`, may go ahead.
/// `is_owner` is what the store answered when asked whether the caller owns the
/// resource; `lookup` is the role store's answer, or `None` as long as it has not
/// been asked. The role store needs to be asked only where the step returned is
/// `NeedRoles`.
pub fn require_permission_or_owner(
    is_owner: bool,
    required: Permission,
    lookup: Option<&RoleLookup>,
) -> (access: Access)
    ensures
        access == access_or_owner(is_owner, required@, roles_view(lookup)),
{
    if is_owner {
        return Access::Granted;
    }
    match lookup {
        None => Access::NeedRoles,
        Some(answer) => match require_permission(required, answer) {
            Ok(_) => Access::Granted,
            Err(e) => Access::Denied(e),
        },
    }
}

/// The guard of the user search: `USER_READ`.
pub fn search_users_guard(lookup: &RoleLookup) -> (r: Result<(), Rejection>)
    ensures
        r == permission_outcome(Permission::USER_READ, lookup@),
{
    require_permission(Permission::from_bits_retain(Permission::USER_READ), lookup)
}

/// The guard of the application listing: `APP_READ` for the full listing, nothing
/// for the plain one.
pub fn get_all_apps_guard(all: bool, lookup: Option<&RoleLookup>) -> (access: Access)
    ensures
        access == app_listing_access(all, roles_view(lookup)),
{
    require_permission_or_owner(!all, Permission::from_bits_retain(Permission::APP_READ), lookup)
}

/// The guard of replacing and of patching an application: `APP_UPDATE`.
pub fn update_app_guard(lookup: &RoleLookup) -> (r: Result<(), Rejection>)
    ensures
        r == permission_outcome(Permission::APP_UPDATE, lookup@),
{
    require_permission(Permission::from_bits_retain(Permission::APP_UPDATE), lookup)
}

/// The guard of deleting an application: `APP_DELETE`.
pub fn delete_app_guard(lookup: &RoleLookup) -> (r: Result<(), Rejection>)
    ensures
        r == permission_outcome(Permission::APP_DELETE, lookup@),
{
    require_permission(Permission::from_bits_retain(Permission::APP_DELETE), lookup)
}

/// The guard of showing the permissions of the user `target_user_id`: the user
/// itself, or `USER_READ`.
pub fn user_permissions_guard(
    auth_user: &AuthUser,
    target_user_id: &str,
    lookup: Option<&RoleLookup>,
) -> (access: Access)
    ensures
        access == access_or_self(
            auth_user.user_id@,
            Permission::USER_READ,
            target_user_id@,
            roles_view(lookup),
        ),
{
    require_permission_or_self(
        auth_user,
        Permission::from_bits_retain(Permission::USER_READ),
        target_user_id,
        lookup,
    )
}

/// Whether `role_id` is among `held`.
pub fn role_is_held(held: &Vec<String>, role_id: &str) -> (yes: bool)
    ensures
        yes == held.deep_view().contains(role_id@),
{
    let mut i: usize = 0;
    while i < held.len()
        invariant
            i <= held.len(),
            forall|k: int| 0 <= k < i ==> #[trigger] held.deep_view()[k] != role_id@,
        decreases held.len() - i,
    {
        if str_eq(held[i].as_str(), role_id) {
            assert(held.deep_view()[i as int] == role_id@);
            return true;
        }
        i += 1;
    }
    false
}

/// The guard of showing the permissions of the role `role_id`: `ROLE_MANAGE`, for a
/// caller that holds that role. `held` are the ids of the caller's roles.
pub fn role_permissions_guard(lookup: &RoleLookup, held: &Vec<String>, role_id: &str) -> (r:
    Result<(), Rejection>)
    ensures
        r == role_permissions_outcome(lookup@, held.deep_view(), role_id@),
{
    match require_permission(Permission::from_bits_retain(Permission::ROLE_MANAGE), lookup) {
        Err(e) => Err(e),
        Ok(_) => {
            if !role_is_held(held, role_id) {
                return Err(Rejection::Forbidden);
            }
            Ok(())
        },
    }
}

/// The owner of a resource is let through whatever is asked for, and before the
/// role store is asked; everyone else exactly when the roles hold what is asked for.
pub proof fn lemma_owner_access(is_owner: bool, required: u32, answer: RoleLookupView)
    ensures
        is_owner ==> access_or_owner(is_owner, required, None) == Access::Granted,
        is_owner ==> access_or_owner(is_owner, required, Some(answer)) == Access::Granted,
        !is_owner ==> access_or_owner(is_owner, required, None) == Access::NeedRoles,
        !is_owner ==> (access_or_owner(is_owner, required, Some(answer)) == Access::Granted
            <==> permission_outcome(required, answer) is Ok),
{
}

} // verus!
