//! Authorization: a principal's effective permissions, computed from the masks of
//! its roles, and the decisions taken on them.
//!
//! Nothing is kept between two checks: each decision is taken on the roles that
//! the store answered with for this check, so a role that was revoked counts no
//! longer at the next one.

use vstd::prelude::*;
use crate::auth::AuthUser;
use crate::error::Rejection;
use crate::permissions::Permission;
use crate::text::str_eq;

verus! {

/// What the role store answered when asked for the roles of a principal's user.
#[derive(Clone, Debug)]
pub enum RoleLookup {
    /// The store failed.
    StoreError,
    /// The store holds no row for the user, and so no role: the system principal is
    /// such a user.
    UserMissing,
    /// The `permission` column of each role assigned to the user.
    Roles(Vec<i32>),
}

/// What a `RoleLookup` holds.
pub enum RoleLookupView {
    StoreError,
    UserMissing,
    Roles(Seq<i32>),
}

impl View for RoleLookup {
    type V = RoleLookupView;

    open spec fn view(&self) -> RoleLookupView {
        match self {
            RoleLookup::StoreError => RoleLookupView::StoreError,
            RoleLookup::UserMissing => RoleLookupView::UserMissing,
            RoleLookup::Roles(masks) => RoleLookupView::Roles(masks@),
        }
    }
}

/// One step of an authorization that may be settled without the role store.
#[derive(Clone, Copy, Debug, PartialEq, Eq, Structural)]
pub enum Access {
    /// The operation may go ahead.
    Granted,
    /// The request ends here, before anything is read or written.
    Denied(Rejection),
    /// The roles of the principal's user have to be fetched before the decision can
    /// be taken.
    NeedRoles,
}

/// The mask that a role's `permission` column stands for: the same 32 bits, read as
/// an unsigned number. Bits without a name are kept.
pub open spec fn mask_of(permission: i32) -> u32 {
    permission as u32
}

/// The union of the masks of `roles`.
pub open spec fn union_of(roles: Seq<i32>) -> u32
    decreases roles.len(),
{
    if roles.len() == 0 {
        0
    } else {
        union_of(roles.drop_last()) | mask_of(roles.last())
    }
}

/// The effective permissions that follow from the store's answer: the union of the
/// roles' masks, which is the empty set where the store holds no role or no row for
/// the user. Only a failure of the store leads to a rejection.
pub open spec fn permissions_outcome(lookup: RoleLookupView) -> Result<u32, Rejection> {
    match lookup {
        RoleLookupView::StoreError => Err(Rejection::InternalError),
        RoleLookupView::UserMissing => Ok(0u32),
        RoleLookupView::Roles(masks) => Ok(union_of(masks)),
    }
}

/// Whether the store's answer lets an operation that asks for `required` go ahead.
pub open spec fn permission_outcome(required: u32, lookup: RoleLookupView) -> Result<
    (),
    Rejection,
> {
    match permissions_outcome(lookup) {
        Err(e) => Err(e),
        Ok(effective) => if effective & required == required {
            Ok(())
        } else {
            Err(Rejection::Forbidden)
        },
    }
}

/// What the store answered, if it was asked yet.
pub open spec fn roles_view(lookup: Option<&RoleLookup>) -> Option<RoleLookupView> {
    match lookup {
        Some(answer) => Some(answer@),
        None => None,
    }
}

/// The decision on an operation that the principal may always perform on its own
/// resource and otherwise only with `required`.
pub open spec fn access_or_self(
    user_id: Seq<char>,
    required: u32,
    target_user_id: Seq<char>,
    lookup: Option<RoleLookupView>,
) -> Access {
    if user_id == target_user_id {
        Access::Granted
    } else {
        match lookup {
            None => Access::NeedRoles,
            Some(answer) => match permission_outcome(required, answer) {
                Ok(_) => Access::Granted,
                Err(e) => Access::Denied(e),
            },
        }
    }
}

/// The mask that a role's `permission` column stands for.
pub fn role_mask(permission: i32) -> (mask: u32)
    ensures
        mask == mask_of(permission),
{
    #[verifier::truncate]
    (permission as u32)
}

/// The effective permissions of a user with these roles: the union of their masks,
/// and the empty set for a user without roles.
pub fn effective_permissions(roles: &Vec<i32>) -> (effective: Permission)
    ensures
        effective@ == union_of(roles@),
{
    let mut effective = Permission::empty();
    let mut i: usize = 0;
    while i < roles.len()
        invariant
            i <= roles.len(),
            effective@ == union_of(roles@.take(i as int)),
        decreases roles.len() - i,
    {
        effective.insert(Permission::from_bits_retain(role_mask(roles[i])));
        proof {
            assert(roles@.take(i + 1).drop_last() =~= roles@.take(i as int));
        }
        i += 1;
    }
    proof {
        assert(roles@.take(roles@.len() as int) =~= roles@);
    }
    effective
}

/// The effective permissions of the principal whose roles the store answered with:
/// the empty set for a principal without roles or without a user row. A failure of
/// the store is reported as such, never as an empty set.
pub fn get_user_permissions(lookup: &RoleLookup) -> (r: Result<Permission, Rejection>)
    ensures
        match r {
            Ok(effective) => permissions_outcome(lookup@) == Ok::<u32, Rejection>(effective@),
            Err(e) => permissions_outcome(lookup@) == Err::<u32, Rejection>(e),
        },
{
    match lookup {
        RoleLookup::StoreError => Err(Rejection::InternalError),
        RoleLookup::UserMissing => Ok(Permission::empty()),
        RoleLookup::Roles(masks) => Ok(effective_permissions(masks)),
    }
}

/// Whether the principal whose roles the store answered with may perform an
/// operation that asks for `required`.
pub fn require_permission(required: Permission, lookup: &RoleLookup) -> (r: Result<(), Rejection>)
    ensures
        r == permission_outcome(required@, lookup@),
{
    match get_user_permissions(lookup) {
        Err(e) => Err(e),
        Ok(effective) => {
            if !effective.contains(required) {
                return Err(Rejection::Forbidden);
            }
            Ok(())
        },
    }
}

/// Whether `auth_user` may perform an operation on a resource of the user
/// `target_user_id`: always on its own, otherwise only with `required`. `lookup` is
/// the role store's answer, or `None` as long as the store has not been asked. The
/// store needs to be asked only where the step returned is `NeedRoles`.
pub fn require_permission_or_self(
    auth_user: &AuthUser,
    required: Permission,
    target_user_id: &str,
    lookup: Option<&RoleLookup>,
) -> (access: Access)
    ensures
        access == access_or_self(
            auth_user.user_id@,
            required@,
            target_user_id@,
            roles_view(lookup),
        ),
{
    if str_eq(auth_user.user_id.as_str(), target_user_id) {
        return Access::Granted;
    }
    match lookup {
        None => Access::NeedRoles,
        Some(answer) => match require_permission(required, answer) {
            Ok(_) => Access::Granted,
            Err(e) => Access::Denied(e),
        },
    }
}

/// On its own resource a principal is let through whatever is asked for and
/// whatever roles it has, and before the role store is asked.
pub proof fn lemma_self_access(
    user_id: Seq<char>,
    required: u32,
    lookup: Option<RoleLookupView>,
)
    ensures
        access_or_self(user_id, required, user_id, lookup) == Access::Granted,
        access_or_self(user_id, required, user_id, None) == Access::Granted,
{
}

/// On the resource of another user a principal is let through exactly when the
/// store answers with roles and the union of their masks holds every bit asked for.
pub proof fn lemma_access_to_other(
    user_id: Seq<char>,
    required: u32,
    target_user_id: Seq<char>,
    answer: RoleLookupView,
)
    requires
        user_id != target_user_id,
    ensures
        access_or_self(user_id, required, target_user_id, Some(answer)) == Access::Granted <==> (
        permissions_outcome(answer) matches Ok(effective) && effective & required == required),
        answer matches RoleLookupView::Roles(masks) ==> (access_or_self(
            user_id,
            required,
            target_user_id,
            Some(answer),
        ) == if union_of(masks) & required == required {
            Access::Granted
        } else {
            Access::Denied(Rejection::Forbidden)
        }),
        access_or_self(user_id, required, target_user_id, None) == Access::NeedRoles,
{
}

/// A principal without a user row has the empty permission set, as a principal
/// without roles has: it is let through where nothing is asked for and is forbidden
/// everything else.
pub proof fn lemma_no_user_row(required: u32)
    ensures
        permissions_outcome(RoleLookupView::UserMissing) == Ok::<u32, Rejection>(0u32),
        permissions_outcome(RoleLookupView::UserMissing) == permissions_outcome(
            RoleLookupView::Roles(Seq::empty()),
        ),
        permission_outcome(required, RoleLookupView::UserMissing) == if required == 0 {
            Ok::<(), Rejection>(())
        } else {
            Err::<(), Rejection>(Rejection::Forbidden)
        },
{
    assert((0u32 & required == required) == (required == 0)) by (bit_vector);
}

/// An authorization ends in one of three ways: the caller is let through, is
/// forbidden, or the store failed, and the store failed exactly when the outcome is
/// an internal error. It never ends as a failed authentication or a missing entity.
pub proof fn lemma_authorization_outcomes(required: u32, answer: RoleLookupView)
    ensures
        permission_outcome(required, answer) is Ok || permission_outcome(required, answer) == Err::<
            (),
            Rejection,
        >(Rejection::Forbidden) || permission_outcome(required, answer) == Err::<(), Rejection>(
            Rejection::InternalError,
        ),
        (answer is StoreError) == (permission_outcome(required, answer) == Err::<(), Rejection>(
            Rejection::InternalError,
        )),
        (answer is StoreError) == (permissions_outcome(answer) is Err),
{
}

/// The union over no roles is the empty mask, and each further role adds its bits.
pub proof fn lemma_union_of_push(roles: Seq<i32>, permission: i32)
    ensures
        union_of(Seq::<i32>::empty()) == 0,
        union_of(roles.push(permission)) == union_of(roles) | mask_of(permission),
{
    assert(roles.push(permission).drop_last() =~= roles);
}

/// The union holds every bit of every role.
pub proof fn lemma_union_of_covers(roles: Seq<i32>, i: int)
    requires
        0 <= i < roles.len(),
    ensures
        union_of(roles) & mask_of(roles[i]) == mask_of(roles[i]),
    decreases roles.len(),
{
    let rest = union_of(roles.drop_last());
    let last = mask_of(roles.last());
    if i == roles.len() - 1 {
        assert((rest | last) & last == last) by (bit_vector);
    } else {
        lemma_union_of_covers(roles.drop_last(), i);
        let m = mask_of(roles[i]);
        assert(rest & m == m ==> (rest | last) & m == m) by (bit_vector);
    }
}

/// The union holds no bit that no role holds.
pub proof fn lemma_union_of_origin(roles: Seq<i32>, bits: u32)
    requires
        union_of(roles) & bits != 0,
    ensures
        exists|i: int| 0 <= i < roles.len() && mask_of(#[trigger] roles[i]) & bits != 0,
    decreases roles.len(),
{
    if roles.len() == 0 {
        assert(0u32 & bits == 0) by (bit_vector);
    } else {
        let rest = union_of(roles.drop_last());
        let last = mask_of(roles.last());
        assert((rest | last) & bits != 0 ==> rest & bits != 0 || last & bits != 0)
            by (bit_vector);
        if last & bits != 0 {
            assert(mask_of(roles[roles.len() - 1]) & bits != 0);
        } else {
            lemma_union_of_origin(roles.drop_last(), bits);
            let i = choose|i: int|
                0 <= i < roles.drop_last().len() && mask_of(#[trigger] roles.drop_last()[i])
                    & bits != 0;
            assert(roles.drop_last()[i] == roles[i]);
        }
    }
}

} // verus!
