use unique_api::auth::AuthUser;
use unique_api::error::{entity_outcome, Fetched, Rejection};
use unique_api::permission_check::{
    effective_permissions, get_user_permissions, require_permission,
    require_permission_or_self, role_mask, Access, RoleLookup,
};
use unique_api::permissions::Permission;

fn user(id: &str) -> AuthUser {
    AuthUser { user_id: id.to_string(), session_id: "s-1".to_string(), is_system: Some(false) }
}

fn perm(bits: u32) -> Permission {
    Permission::from_bits_retain(bits)
}

#[test]
fn effective_permissions_are_the_union_of_the_roles() {
    assert_eq!(effective_permissions(&vec![0b0001, 0b0010]).bits(), 0b0011);
    assert_eq!(effective_permissions(&vec![]).bits(), 0);
    assert_eq!(effective_permissions(&vec![0]).bits(), 0);
    assert_eq!(effective_permissions(&vec![5, 5, 5]).bits(), 5);
    assert_eq!(effective_permissions(&vec![1 << 24, 1 << 8, 1]).bits(), (1 << 24) | (1 << 8) | 1);
    assert_eq!(effective_permissions(&vec![2, 1]), effective_permissions(&vec![1, 2]));
}

#[test]
fn effective_permissions_keep_bits_without_a_name() {
    assert_eq!(effective_permissions(&vec![1 << 5]).bits(), 1 << 5);
    assert_eq!(effective_permissions(&vec![i32::MIN]).bits(), 1 << 31);
    assert_eq!(effective_permissions(&vec![-1]).bits(), u32::MAX);
    assert_eq!(effective_permissions(&vec![i32::MIN, 1]).bits(), (1 << 31) | 1);
}

#[test]
fn role_mask_reads_the_column_as_unsigned() {
    assert_eq!(role_mask(0), 0);
    assert_eq!(role_mask(1), 1);
    assert_eq!(role_mask(i32::MAX), 0x7FFF_FFFF);
    assert_eq!(role_mask(-1), u32::MAX);
    assert_eq!(role_mask(i32::MIN), 0x8000_0000);
    assert_eq!(role_mask(-2), 0xFFFF_FFFE);
}

#[test]
fn get_user_permissions_tells_the_answers_apart() {
    assert_eq!(get_user_permissions(&RoleLookup::StoreError), Err(Rejection::InternalError));
    assert_eq!(get_user_permissions(&RoleLookup::UserMissing), Ok(Permission::empty()));
    assert_eq!(get_user_permissions(&RoleLookup::Roles(vec![])), Ok(Permission::empty()));
    assert_eq!(get_user_permissions(&RoleLookup::Roles(vec![1, 2])), Ok(perm(3)));
}

#[test]
fn require_permission_needs_every_bit() {
    let roles = RoleLookup::Roles(vec![0b0001, 0b0100]);
    assert_eq!(require_permission(perm(0b0001), &roles), Ok(()));
    assert_eq!(require_permission(perm(0b0101), &roles), Ok(()));
    assert_eq!(require_permission(perm(0b0111), &roles), Err(Rejection::Forbidden));
    assert_eq!(require_permission(perm(0b0010), &roles), Err(Rejection::Forbidden));
    assert_eq!(require_permission(Permission::empty(), &roles), Ok(()));
    assert_eq!(require_permission(Permission::empty(), &RoleLookup::Roles(vec![])), Ok(()));
}

#[test]
fn require_permission_reports_store_failure_as_such() {
    let p = perm(Permission::USER_READ);
    assert_eq!(require_permission(p, &RoleLookup::StoreError), Err(Rejection::InternalError));
    assert_eq!(require_permission(p, &RoleLookup::UserMissing), Err(Rejection::Forbidden));
    assert_eq!(require_permission(Permission::empty(), &RoleLookup::UserMissing), Ok(()));
    assert_eq!(
        require_permission(Permission::empty(), &RoleLookup::StoreError),
        Err(Rejection::InternalError)
    );
}

#[test]
fn role_manage_granted_then_revoked() {
    let role_manage = perm(Permission::ROLE_MANAGE);
    assert_eq!(Permission::ROLE_MANAGE, 1 << 24);
    let mut roles: Vec<i32> = Vec::new();
    assert_eq!(
        require_permission(role_manage, &RoleLookup::Roles(roles.clone())),
        Err(Rejection::Forbidden)
    );
    roles.push(1 << 24);
    assert_eq!(require_permission(role_manage, &RoleLookup::Roles(roles.clone())), Ok(()));
    roles.pop();
    assert_eq!(
        require_permission(role_manage, &RoleLookup::Roles(roles.clone())),
        Err(Rejection::Forbidden)
    );
}

#[test]
fn self_access_needs_no_roles() {
    let u = user("u-1");
    let p = perm(Permission::USER_UPDATE);
    assert_eq!(require_permission_or_self(&u, p, "u-1", None), Access::Granted);
    assert_eq!(
        require_permission_or_self(&u, p, "u-1", Some(&RoleLookup::Roles(vec![]))),
        Access::Granted
    );
    assert_eq!(
        require_permission_or_self(&u, p, "u-1", Some(&RoleLookup::StoreError)),
        Access::Granted
    );
    assert_eq!(
        require_permission_or_self(&u, p, "u-1", Some(&RoleLookup::UserMissing)),
        Access::Granted
    );
    assert_eq!(require_permission_or_self(&u, perm(u32::MAX), "u-1", None), Access::Granted);
}

#[test]
fn access_to_another_user_goes_by_the_roles() {
    let u = user("u-1");
    let p = perm(Permission::USER_UPDATE);
    assert_eq!(require_permission_or_self(&u, p, "u-2", None), Access::NeedRoles);
    assert_eq!(
        require_permission_or_self(&u, p, "u-2", Some(&RoleLookup::Roles(vec![4]))),
        Access::Granted
    );
    assert_eq!(
        require_permission_or_self(&u, p, "u-2", Some(&RoleLookup::Roles(vec![1, 2]))),
        Access::Denied(Rejection::Forbidden)
    );
    assert_eq!(
        require_permission_or_self(&u, p, "u-2", Some(&RoleLookup::Roles(vec![]))),
        Access::Denied(Rejection::Forbidden)
    );
    assert_eq!(
        require_permission_or_self(&u, p, "u-2", Some(&RoleLookup::StoreError)),
        Access::Denied(Rejection::InternalError)
    );
    assert_eq!(
        require_permission_or_self(&u, p, "u-2", Some(&RoleLookup::UserMissing)),
        Access::Denied(Rejection::Forbidden)
    );
}

#[test]
fn user_ids_are_compared_exactly() {
    let u = user("u-1");
    let p = perm(Permission::USER_READ);
    assert_eq!(require_permission_or_self(&u, p, "U-1", None), Access::NeedRoles);
    assert_eq!(require_permission_or_self(&u, p, "u-1 ", None), Access::NeedRoles);
    assert_eq!(require_permission_or_self(&u, p, "", None), Access::NeedRoles);
    assert_eq!(require_permission_or_self(&user(""), p, "", None), Access::Granted);
}

#[test]
fn rejections_map_to_their_status() {
    assert_eq!(Rejection::Unauthorized.status_code(), 401);
    assert_eq!(Rejection::Forbidden.status_code(), 403);
    assert_eq!(Rejection::NotFound.status_code(), 404);
    assert_eq!(Rejection::InternalError.status_code(), 500);
}

#[test]
fn entity_outcome_keeps_store_failure_and_absence_apart() {
    assert_eq!(entity_outcome(Fetched::<u8>::StoreError), Err(Rejection::InternalError));
    assert_eq!(entity_outcome(Fetched::<u8>::Missing), Err(Rejection::NotFound));
    assert_eq!(entity_outcome(Fetched::Found(7u8)), Ok(7));
    assert_eq!(entity_outcome(Fetched::Found("x".to_string())), Ok("x".to_string()));
}

#[test]
fn system_principal_without_user_row_has_no_permission() {
    let system = AuthUser {
        user_id: "system".to_string(),
        session_id: "system".to_string(),
        is_system: Some(true),
    };
    let answer = RoleLookup::UserMissing;
    assert_eq!(get_user_permissions(&answer), Ok(Permission::empty()));
    assert_eq!(get_user_permissions(&answer), get_user_permissions(&RoleLookup::Roles(vec![])));
    assert_eq!(
        require_permission_or_self(&system, perm(Permission::USER_READ), "u-1", Some(&answer)),
        Access::Denied(Rejection::Forbidden)
    );
    assert_eq!(
        require_permission_or_self(&system, Permission::empty(), "u-1", Some(&answer)),
        Access::Granted
    );
}

#[test]
fn authorization_never_ends_as_unauthorized_or_not_found() {
    let answers =
        [RoleLookup::StoreError, RoleLookup::UserMissing, RoleLookup::Roles(vec![]), RoleLookup::Roles(vec![7])];
    for answer in &answers {
        for bits in [0u32, 1, 7, 8, u32::MAX] {
            let r = require_permission(perm(bits), answer);
            assert!(r != Err(Rejection::Unauthorized) && r != Err(Rejection::NotFound));
            assert_eq!(r == Err(Rejection::InternalError), matches!(answer, RoleLookup::StoreError));
        }
    }
}
