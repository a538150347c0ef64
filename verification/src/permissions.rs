//! The permission bitmask: its named bits and the conversion between names and bits.
//!
//! Bits 0-7 belong to user management, 8-15 to application management, 16-23 to
//! system configuration and 24-31 to roles and security. A mask may hold bits that
//! have no name yet; nothing here rejects such a mask.

use vstd::prelude::*;
use crate::text::str_eq;

verus! {

/// The names of the permissions, as they appear in requests and responses.
pub struct PermissionString;

impl PermissionString {
    pub const USER_READ: &'static str = "USER_READ";

    pub const USER_CREATE: &'static str = "USER_CREATE";

    pub const USER_UPDATE: &'static str = "USER_UPDATE";

    pub const USER_DELETE: &'static str = "USER_DELETE";

    pub const USER_DISABLE: &'static str = "USER_DISABLE";

    pub const APP_READ: &'static str = "APP_READ";

    pub const APP_CREATE: &'static str = "APP_CREATE";

    pub const APP_UPDATE: &'static str = "APP_UPDATE";

    pub const APP_DELETE: &'static str = "APP_DELETE";

    pub const APP_SECRET_ROTATE: &'static str = "APP_SECRET_ROTATE";

    pub const TOKEN_REVOKE: &'static str = "TOKEN_REVOKE";

    pub const AUDIT_READ: &'static str = "AUDIT_READ";

    pub const CONFIG_UPDATE: &'static str = "CONFIG_UPDATE";

    pub const KEY_MANAGE: &'static str = "KEY_MANAGE";

    pub const ROLE_MANAGE: &'static str = "ROLE_MANAGE";

    pub const PERMISSION_MANAGE: &'static str = "PERMISSION_MANAGE";

    pub const SESSION_MANAGE: &'static str = "SESSION_MANAGE";

    pub const MFA_MANAGE: &'static str = "MFA_MANAGE";
}

/// A set of permissions, packed into the 32 bits of an unsigned integer.
#[derive(Clone, Copy, Debug, PartialEq, Eq, Hash, Structural)]
pub struct Permission {
    bits: u32,
}

impl View for Permission {
    type V = u32;

    closed spec fn view(&self) -> u32 {
        self.bits
    }
}

/// How many permissions have a name.
pub const KNOWN_COUNT: usize = 18;

/// The bits of all named permissions together.
pub const KNOWN_MASK: u32 = 0x0F1D_1F1F;

/// The bit of the named permission at position `i` of the table.
pub open spec fn known_bit(i: int) -> u32 {
    if i == 0 {
        Permission::USER_READ
    } else if i == 1 {
        Permission::USER_CREATE
    } else if i == 2 {
        Permission::USER_UPDATE
    } else if i == 3 {
        Permission::USER_DELETE
    } else if i == 4 {
        Permission::USER_DISABLE
    } else if i == 5 {
        Permission::APP_READ
    } else if i == 6 {
        Permission::APP_CREATE
    } else if i == 7 {
        Permission::APP_UPDATE
    } else if i == 8 {
        Permission::APP_DELETE
    } else if i == 9 {
        Permission::APP_SECRET_ROTATE
    } else if i == 10 {
        Permission::TOKEN_REVOKE
    } else if i == 11 {
        Permission::AUDIT_READ
    } else if i == 12 {
        Permission::CONFIG_UPDATE
    } else if i == 13 {
        Permission::KEY_MANAGE
    } else if i == 14 {
        Permission::ROLE_MANAGE
    } else if i == 15 {
        Permission::PERMISSION_MANAGE
    } else if i == 16 {
        Permission::SESSION_MANAGE
    } else {
        Permission::MFA_MANAGE
    }
}

/// The name of the permission at position `i` of the table.
pub open spec fn known_name(i: int) -> Seq<char> {
    if i == 0 {
        PermissionString::USER_READ@
    } else if i == 1 {
        PermissionString::USER_CREATE@
    } else if i == 2 {
        PermissionString::USER_UPDATE@
    } else if i == 3 {
        PermissionString::USER_DELETE@
    } else if i == 4 {
        PermissionString::USER_DISABLE@
    } else if i == 5 {
        PermissionString::APP_READ@
    } else if i == 6 {
        PermissionString::APP_CREATE@
    } else if i == 7 {
        PermissionString::APP_UPDATE@
    } else if i == 8 {
        PermissionString::APP_DELETE@
    } else if i == 9 {
        PermissionString::APP_SECRET_ROTATE@
    } else if i == 10 {
        PermissionString::TOKEN_REVOKE@
    } else if i == 11 {
        PermissionString::AUDIT_READ@
    } else if i == 12 {
        PermissionString::CONFIG_UPDATE@
    } else if i == 13 {
        PermissionString::KEY_MANAGE@
    } else if i == 14 {
        PermissionString::ROLE_MANAGE@
    } else if i == 15 {
        PermissionString::PERMISSION_MANAGE@
    } else if i == 16 {
        PermissionString::SESSION_MANAGE@
    } else {
        PermissionString::MFA_MANAGE@
    }
}

/// Whether `name` is the name of a permission.
pub open spec fn is_known_name(name: Seq<char>) -> bool {
    exists|i: int| 0 <= i < KNOWN_COUNT && known_name(i) == name
}

/// The position in the table of the permission called `name`.
pub open spec fn index_of_name(name: Seq<char>) -> int {
    choose|i: int| 0 <= i < KNOWN_COUNT && known_name(i) == name
}

/// The bit that `name` stands for, if it is the name of a permission.
pub open spec fn bit_of_name(name: Seq<char>) -> Option<u32> {
    if is_known_name(name) {
        Some(known_bit(index_of_name(name)))
    } else {
        None
    }
}

/// The names of the first `n` permissions of the table whose bit is set in `bits`,
/// in table order.
pub open spec fn names_upto(bits: u32, n: int) -> Seq<Seq<char>>
    decreases n,
{
    if n <= 0 {
        Seq::empty()
    } else if bits & known_bit(n - 1) != 0 {
        names_upto(bits, n - 1).push(known_name(n - 1))
    } else {
        names_upto(bits, n - 1)
    }
}

/// The union of the bits of the first `n` permissions of the table that are set in
/// `bits`.
pub open spec fn mask_upto(bits: u32, n: int) -> u32
    decreases n,
{
    if n <= 0 {
        0
    } else if bits & known_bit(n - 1) != 0 {
        mask_upto(bits, n - 1) | known_bit(n - 1)
    } else {
        mask_upto(bits, n - 1)
    }
}

/// The names of all permissions set in `bits`, in table order.
pub open spec fn names_of(bits: u32) -> Seq<Seq<char>> {
    names_upto(bits, KNOWN_COUNT as int)
}

/// The part of `bits` that has a name.
pub open spec fn recognized_mask(bits: u32) -> u32 {
    mask_upto(bits, KNOWN_COUNT as int)
}

/// Two sets are equal exactly when their masks are.
pub proof fn lemma_equal_masks(p: Permission, q: Permission)
    ensures
        (p@ == q@) == (p == q),
{
}

impl Permission {
    /// Bit 0: read other users.
    pub const USER_READ: u32 = 0x0000_0001;

    /// Bit 1: create users.
    pub const USER_CREATE: u32 = 0x0000_0002;

    /// Bit 2: update other users, password invalidation included.
    pub const USER_UPDATE: u32 = 0x0000_0004;

    /// Bit 3: delete other users.
    pub const USER_DELETE: u32 = 0x0000_0008;

    /// Bit 4: disable users.
    pub const USER_DISABLE: u32 = 0x0000_0010;

    /// Bit 8: read applications owned by others.
    pub const APP_READ: u32 = 0x0000_0100;

    /// Bit 9: create applications.
    pub const APP_CREATE: u32 = 0x0000_0200;

    /// Bit 10: update applications owned by others.
    pub const APP_UPDATE: u32 = 0x0000_0400;

    /// Bit 11: delete applications owned by others.
    pub const APP_DELETE: u32 = 0x0000_0800;

    /// Bit 12: reissue an application's client secret.
    pub const APP_SECRET_ROTATE: u32 = 0x0000_1000;

    /// Bit 16: revoke tokens.
    pub const TOKEN_REVOKE: u32 = 0x0001_0000;

    /// Bit 18: read the audit log.
    pub const AUDIT_READ: u32 = 0x0004_0000;

    /// Bit 19: change global settings such as the authentication flow and signing keys.
    pub const CONFIG_UPDATE: u32 = 0x0008_0000;

    /// Bit 20: add and remove signing keys.
    pub const KEY_MANAGE: u32 = 0x0010_0000;

    /// Bit 24: create, edit and delete roles.
    pub const ROLE_MANAGE: u32 = 0x0100_0000;

    /// Bit 25: manage which permissions are assigned.
    pub const PERMISSION_MANAGE: u32 = 0x0200_0000;

    /// Bit 26: manage sessions, forced logout included.
    pub const SESSION_MANAGE: u32 = 0x0400_0000;

    /// Bit 27: manage multi-factor authentication, resets included.
    pub const MFA_MANAGE: u32 = 0x0800_0000;

    /// The set that holds no permission.
    pub fn empty() -> (p: Permission)
        ensures
            p@ == 0u32,
    {
        Permission { bits: 0 }
    }

    /// The set that holds exactly the bits of `bits`, named or not.
    pub fn from_bits_retain(bits: u32) -> (p: Permission)
        ensures
            p@ == bits,
    {
        Permission { bits }
    }

    /// The raw mask.
    pub fn bits(&self) -> (b: u32)
        ensures
            b == self@,
    {
        self.bits
    }

    /// The set of all bits of `bits` that have a name.
    pub fn from_bits_truncate(bits: u32) -> (p: Permission)
        ensures
            p@ == bits & KNOWN_MASK,
    {
        Permission { bits: bits & KNOWN_MASK }
    }

    /// The set that holds exactly the bits of `bits`, unless one of them has no name.
    pub fn from_bits(bits: u32) -> (p: Option<Permission>)
        ensures
            bits & !KNOWN_MASK == 0 ==> (p matches Some(q) && q@ == bits),
            bits & !KNOWN_MASK != 0 ==> p is None,
    {
        if bits & !KNOWN_MASK == 0 {
            Some(Permission { bits })
        } else {
            None
        }
    }

    /// The set of all named permissions.
    pub fn all() -> (p: Permission)
        ensures
            p@ == KNOWN_MASK,
    {
        Permission { bits: KNOWN_MASK }
    }

    /// Whether no bit is set.
    pub fn is_empty(&self) -> (b: bool)
        ensures
            b == (self@ == 0u32),
    {
        self.bits == 0
    }

    /// Whether every bit of `other` is set in `self`.
    pub fn contains(&self, other: Permission) -> (b: bool)
        ensures
            b == (self@ & other@ == other@),
    {
        self.bits & other.bits == other.bits
    }

    /// Whether `self` and `other` share a bit.
    pub fn intersects(&self, other: Permission) -> (b: bool)
        ensures
            b == (self@ & other@ != 0u32),
    {
        self.bits & other.bits != 0
    }

    /// The bits of `self` and of `other` together.
    pub fn union(self, other: Permission) -> (p: Permission)
        ensures
            p@ == self@ | other@,
    {
        Permission { bits: self.bits | other.bits }
    }

    /// Adds the bits of `other` to `self`.
    pub fn insert(&mut self, other: Permission)
        ensures
            final(self)@ == old(self)@ | other@,
    {
        self.bits = self.bits | other.bits;
    }

    /// The single-bit set that `s` names. The match is exact and case-sensitive.
    pub fn from_str(s: &str) -> (p: Option<Permission>)
        ensures
            match bit_of_name(s@) {
                Some(bit) => p matches Some(q) && q@ == bit,
                None => p is None,
            },
    {
        let mut i: usize = 0;
        while i < KNOWN_COUNT
            invariant
                i <= KNOWN_COUNT,
                forall|k: int| 0 <= k < i ==> known_name(k) != s@,
            decreases KNOWN_COUNT - i,
        {
            let (bit, name) = known_entry(i);
            if str_eq(s, name) {
                proof {
                    let j = index_of_name(s@);
                    if j != i {
                        lemma_names_distinct(i as int, j);
                    }
                }
                return Some(Permission { bits: bit });
            }
            i += 1;
        }
        None
    }

    /// Whether `s` names a permission and that permission is in `self`.
    pub fn contains_str(&self, s: &str) -> (b: bool)
        ensures
            b == match bit_of_name(s@) {
                Some(bit) => self@ & bit == bit,
                None => false,
            },
    {
        match Permission::from_str(s) {
            Some(p) => self.contains(p),
            None => false,
        }
    }

    /// The names of the permissions set in `bits`, in table order, and the part of
    /// `bits` that those names cover. Bits without a name are left to the caller.
    pub fn names_from_bits(bits: u32) -> (r: (Vec<String>, u32))
        ensures
            r.0.deep_view() == names_of(bits),
            r.0.deep_view().no_duplicates(),
            r.1 == recognized_mask(bits),
            r.1 == bits & KNOWN_MASK,
    {
        let mut res: Vec<String> = Vec::new();
        let mut mask: u32 = 0;
        let mut i: usize = 0;
        assert(res.deep_view() =~= names_upto(bits, 0));
        while i < KNOWN_COUNT
            invariant
                i <= KNOWN_COUNT,
                res.deep_view() == names_upto(bits, i as int),
                mask == mask_upto(bits, i as int),
            decreases KNOWN_COUNT - i,
        {
            let (b, name) = known_entry(i);
            if (bits & b) != 0 {
                let ghost before = res.deep_view();
                res.push(name.to_owned());
                mask = mask | b;
                assert(res.deep_view() =~= before.push(name@));
            }
            i += 1;
        }
        proof {
            lemma_names_no_duplicates(bits);
            lemma_recognized_mask(bits);
        }
        (res, mask)
    }
}

/// The bit and the name at position `i` of the table.
fn known_entry(i: usize) -> (entry: (u32, &'static str))
    requires
        i < KNOWN_COUNT,
    ensures
        entry.0 == known_bit(i as int),
        entry.1@ == known_name(i as int),
{
    match i {
        0 => (Permission::USER_READ, PermissionString::USER_READ),
        1 => (Permission::USER_CREATE, PermissionString::USER_CREATE),
        2 => (Permission::USER_UPDATE, PermissionString::USER_UPDATE),
        3 => (Permission::USER_DELETE, PermissionString::USER_DELETE),
        4 => (Permission::USER_DISABLE, PermissionString::USER_DISABLE),
        5 => (Permission::APP_READ, PermissionString::APP_READ),
        6 => (Permission::APP_CREATE, PermissionString::APP_CREATE),
        7 => (Permission::APP_UPDATE, PermissionString::APP_UPDATE),
        8 => (Permission::APP_DELETE, PermissionString::APP_DELETE),
        9 => (Permission::APP_SECRET_ROTATE, PermissionString::APP_SECRET_ROTATE),
        10 => (Permission::TOKEN_REVOKE, PermissionString::TOKEN_REVOKE),
        11 => (Permission::AUDIT_READ, PermissionString::AUDIT_READ),
        12 => (Permission::CONFIG_UPDATE, PermissionString::CONFIG_UPDATE),
        13 => (Permission::KEY_MANAGE, PermissionString::KEY_MANAGE),
        14 => (Permission::ROLE_MANAGE, PermissionString::ROLE_MANAGE),
        15 => (Permission::PERMISSION_MANAGE, PermissionString::PERMISSION_MANAGE),
        16 => (Permission::SESSION_MANAGE, PermissionString::SESSION_MANAGE),
        _ => (Permission::MFA_MANAGE, PermissionString::MFA_MANAGE),
    }
}

/// No two permissions of the table share a name.
pub proof fn lemma_names_distinct(i: int, j: int)
    requires
        0 <= i < KNOWN_COUNT,
        0 <= j < KNOWN_COUNT,
        i != j,
    ensures
        known_name(i) != known_name(j),
{
    reveal_strlit("USER_READ");
    reveal_strlit("USER_CREATE");
    reveal_strlit("USER_UPDATE");
    reveal_strlit("USER_DELETE");
    reveal_strlit("USER_DISABLE");
    reveal_strlit("APP_READ");
    reveal_strlit("APP_CREATE");
    reveal_strlit("APP_UPDATE");
    reveal_strlit("APP_DELETE");
    reveal_strlit("APP_SECRET_ROTATE");
    reveal_strlit("TOKEN_REVOKE");
    reveal_strlit("AUDIT_READ");
    reveal_strlit("CONFIG_UPDATE");
    reveal_strlit("KEY_MANAGE");
    reveal_strlit("ROLE_MANAGE");
    reveal_strlit("PERMISSION_MANAGE");
    reveal_strlit("SESSION_MANAGE");
    reveal_strlit("MFA_MANAGE");
    let a = known_name(i);
    let b = known_name(j);
    if a.len() == b.len() {
        assert(a[0] != b[0] || a[1] != b[1] || a[2] != b[2] || a[5] != b[5] || a[6] != b[6]);
    }
}

/// Whether `b` is the bit of a named permission.
pub open spec fn is_known_bit(b: u32) -> bool {
    b == 0x0000_0001u32
        || b == 0x0000_0002u32
        || b == 0x0000_0004u32
        || b == 0x0000_0008u32
        || b == 0x0000_0010u32
        || b == 0x0000_0100u32
        || b == 0x0000_0200u32
        || b == 0x0000_0400u32
        || b == 0x0000_0800u32
        || b == 0x0000_1000u32
        || b == 0x0001_0000u32
        || b == 0x0004_0000u32
        || b == 0x0008_0000u32
        || b == 0x0010_0000u32
        || b == 0x0100_0000u32
        || b == 0x0200_0000u32
        || b == 0x0400_0000u32
        || b == 0x0800_0000u32
}

/// The bits of the first `n` permissions of the table together.
pub open spec fn prefix_mask(n: int) -> u32 {
    if n == 0 {
        0x0000_0000
    } else if n == 1 {
        0x0000_0001
    } else if n == 2 {
        0x0000_0003
    } else if n == 3 {
        0x0000_0007
    } else if n == 4 {
        0x0000_000F
    } else if n == 5 {
        0x0000_001F
    } else if n == 6 {
        0x0000_011F
    } else if n == 7 {
        0x0000_031F
    } else if n == 8 {
        0x0000_071F
    } else if n == 9 {
        0x0000_0F1F
    } else if n == 10 {
        0x0000_1F1F
    } else if n == 11 {
        0x0001_1F1F
    } else if n == 12 {
        0x0005_1F1F
    } else if n == 13 {
        0x000D_1F1F
    } else if n == 14 {
        0x001D_1F1F
    } else if n == 15 {
        0x011D_1F1F
    } else if n == 16 {
        0x031D_1F1F
    } else if n == 17 {
        0x071D_1F1F
    } else {
        KNOWN_MASK
    }
}

/// Whether exactly one bit of `b` is set.
pub open spec fn is_single_bit(b: u32) -> bool {
    b != 0 && b & ((b - 1) as u32) == 0
}

/// A named permission is exactly one bit: a mask meets it only by holding it, and
/// two named permissions that meet are the same bit.
proof fn lemma_single_bit(b: u32, x: u32)
    by (bit_vector)
    requires
        is_known_bit(b),
    ensures
        b != 0,
        b & ((b - 1) as u32) == 0,
        x & b != 0 ==> x & b == b,
        is_known_bit(x) && x & b != 0 ==> x == b,
{
}

/// Every entry of the table holds exactly one bit, and no two entries hold the same
/// bit.
pub proof fn lemma_bits_distinct(i: int, j: int)
    requires
        0 <= i < KNOWN_COUNT,
        0 <= j < KNOWN_COUNT,
    ensures
        is_known_bit(known_bit(i)),
        is_single_bit(known_bit(i)),
        (known_bit(i) & known_bit(j) != 0) == (i == j),
        (known_bit(i) == known_bit(j)) == (i == j),
{
    lemma_single_bit(known_bit(i), known_bit(j));
    lemma_single_bit(known_bit(j), known_bit(i));
    assert(known_bit(i) & known_bit(i) == known_bit(i)) by (bit_vector);
}

/// Each prefix of the table covers the one before it and the bit that it adds.
proof fn lemma_prefix_step(n: int)
    requires
        1 <= n <= KNOWN_COUNT,
    ensures
        prefix_mask(n) == prefix_mask(n - 1) | known_bit(n - 1),
{
    assert(0x0000_0001u32 == 0x0000_0000u32 | 0x0000_0001u32
            && 0x0000_0003u32 == 0x0000_0001u32 | 0x0000_0002u32
            && 0x0000_0007u32 == 0x0000_0003u32 | 0x0000_0004u32
            && 0x0000_000Fu32 == 0x0000_0007u32 | 0x0000_0008u32
            && 0x0000_001Fu32 == 0x0000_000Fu32 | 0x0000_0010u32
            && 0x0000_011Fu32 == 0x0000_001Fu32 | 0x0000_0100u32
            && 0x0000_031Fu32 == 0x0000_011Fu32 | 0x0000_0200u32
            && 0x0000_071Fu32 == 0x0000_031Fu32 | 0x0000_0400u32
            && 0x0000_0F1Fu32 == 0x0000_071Fu32 | 0x0000_0800u32
            && 0x0000_1F1Fu32 == 0x0000_0F1Fu32 | 0x0000_1000u32
            && 0x0001_1F1Fu32 == 0x0000_1F1Fu32 | 0x0001_0000u32
            && 0x0005_1F1Fu32 == 0x0001_1F1Fu32 | 0x0004_0000u32
            && 0x000D_1F1Fu32 == 0x0005_1F1Fu32 | 0x0008_0000u32
            && 0x001D_1F1Fu32 == 0x000D_1F1Fu32 | 0x0010_0000u32
            && 0x011D_1F1Fu32 == 0x001D_1F1Fu32 | 0x0100_0000u32
            && 0x031D_1F1Fu32 == 0x011D_1F1Fu32 | 0x0200_0000u32
            && 0x071D_1F1Fu32 == 0x031D_1F1Fu32 | 0x0400_0000u32
            && 0x0F1D_1F1Fu32 == 0x071D_1F1Fu32 | 0x0800_0000u32) by (bit_vector);
}

/// The part of `bits` that the first `n` entries of the table recognize is the part
/// of `bits` that lies in their mask.
proof fn lemma_mask_upto(bits: u32, n: int)
    requires
        0 <= n <= KNOWN_COUNT,
    ensures
        mask_upto(bits, n) == bits & prefix_mask(n),
    decreases n,
{
    if n == 0 {
        assert(bits & 0 == 0) by (bit_vector);
    } else {
        lemma_mask_upto(bits, n - 1);
        lemma_prefix_step(n);
        let b = known_bit(n - 1);
        let m = prefix_mask(n - 1);
        lemma_bits_distinct(n - 1, n - 1);
        lemma_single_bit(b, bits);
        assert(bits & b == b ==> (bits & m) | b == bits & (m | b)) by (bit_vector);
        assert(bits & b == 0 ==> bits & m == bits & (m | b)) by (bit_vector);
    }
}

/// The recognized part of a mask is the mask restricted to the bits that have a
/// name.
pub proof fn lemma_recognized_mask(bits: u32)
    ensures
        recognized_mask(bits) == bits & KNOWN_MASK,
{
    lemma_mask_upto(bits, KNOWN_COUNT as int);
}

/// Whether `name` is the name of one of the first `n` permissions of the table.
pub open spec fn named_before(name: Seq<char>, n: int) -> bool {
    exists|j: int| 0 <= j < n && known_name(j) == name
}

/// The names found among the first `n` entries are names of those entries, and none
/// occurs twice.
proof fn lemma_names_upto(bits: u32, n: int)
    requires
        0 <= n <= KNOWN_COUNT,
    ensures
        names_upto(bits, n).no_duplicates(),
        forall|k: int|
            0 <= k < names_upto(bits, n).len() ==> named_before(
                #[trigger] names_upto(bits, n)[k],
                n,
            ),
    decreases n,
{
    if n > 0 {
        lemma_names_upto(bits, n - 1);
        let rest = names_upto(bits, n - 1);
        assert forall|k: int| 0 <= k < rest.len() implies rest[k] != known_name(n - 1) by {
            let j = choose|j: int| 0 <= j < n - 1 && known_name(j) == rest[k];
            lemma_names_distinct(j, n - 1);
        }
        assert forall|k: int| 0 <= k < names_upto(bits, n).len() implies named_before(
            #[trigger] names_upto(bits, n)[k],
            n,
        ) by {
            if k < rest.len() {
                let j = choose|j: int| 0 <= j < n - 1 && known_name(j) == rest[k];
                assert(0 <= j < n && known_name(j) == rest[k]);
            } else {
                assert(0 <= n - 1 < n && known_name(n - 1) == names_upto(bits, n)[k]);
            }
        }
    }
}

/// No name occurs twice among the names of a mask.
pub proof fn lemma_names_no_duplicates(bits: u32)
    ensures
        names_of(bits).no_duplicates(),
{
    lemma_names_upto(bits, KNOWN_COUNT as int);
}

/// `name` is among the names of `bits` exactly when it names a permission whose bit
/// is set in `bits`.
proof fn lemma_names_upto_contains(bits: u32, n: int, i: int)
    requires
        0 <= n <= KNOWN_COUNT,
        0 <= i < KNOWN_COUNT,
    ensures
        names_upto(bits, n).contains(known_name(i)) == (i < n && bits & known_bit(i) != 0),
    decreases n,
{
    if n > 0 {
        lemma_names_upto_contains(bits, n - 1, i);
        let rest = names_upto(bits, n - 1);
        if i != n - 1 {
            lemma_names_distinct(i, n - 1);
        }
        if bits & known_bit(n - 1) != 0 {
            let all = rest.push(known_name(n - 1));
            if all.contains(known_name(i)) {
                let k = choose|k: int| 0 <= k < all.len() && all[k] == known_name(i);
                if k < rest.len() {
                    assert(rest[k] == known_name(i));
                }
            }
            if rest.contains(known_name(i)) {
                let k = choose|k: int| 0 <= k < rest.len() && rest[k] == known_name(i);
                assert(all[k] == known_name(i));
            }
            if i == n - 1 {
                assert(all[rest.len() as int] == known_name(i));
            }
        }
    }
}

/// The names of the single bit of a named permission are that permission's name and
/// nothing else.
proof fn lemma_names_of_known_bit(i: int, n: int)
    requires
        0 <= i < KNOWN_COUNT,
        0 <= n <= KNOWN_COUNT,
    ensures
        names_upto(known_bit(i), n) == if n > i {
            seq![known_name(i)]
        } else {
            Seq::<Seq<char>>::empty()
        },
    decreases n,
{
    if n > 0 {
        lemma_names_of_known_bit(i, n - 1);
        lemma_bits_distinct(i, n - 1);
        if n - 1 == i {
            assert(Seq::<Seq<char>>::empty().push(known_name(i)) =~= seq![known_name(i)]);
        }
    }
}

/// The bit that a permission's name stands for is the bit of its table entry.
pub proof fn lemma_bit_of_known_name(i: int)
    requires
        0 <= i < KNOWN_COUNT,
    ensures
        is_known_name(known_name(i)),
        index_of_name(known_name(i)) == i,
        bit_of_name(known_name(i)) == Some(known_bit(i)),
{
    let j = index_of_name(known_name(i));
    if j != i {
        lemma_names_distinct(i, j);
    }
}

/// Converting a permission's name to its bit and that bit back to names gives the
/// one name that was started from.
pub proof fn lemma_name_round_trip(name: Seq<char>)
    requires
        is_known_name(name),
    ensures
        bit_of_name(name) is Some,
        names_of(bit_of_name(name)->0) == seq![name],
{
    let i = index_of_name(name);
    lemma_names_of_known_bit(i, KNOWN_COUNT as int);
}

/// The recognized part of a mask is the union of the named bits that the mask
/// holds: it holds each of them and no bit beside them, and the names of the mask
/// are the names of exactly those bits, each once.
pub proof fn lemma_names_and_mask(bits: u32, i: int)
    requires
        0 <= i < KNOWN_COUNT,
    ensures
        recognized_mask(bits) == bits & KNOWN_MASK,
        names_of(bits).no_duplicates(),
        names_of(bits).contains(known_name(i)) == (bits & known_bit(i) != 0),
        (recognized_mask(bits) & known_bit(i) == known_bit(i)) == (bits & known_bit(i) != 0),
{
    lemma_recognized_mask(bits);
    lemma_names_no_duplicates(bits);
    lemma_names_upto_contains(bits, KNOWN_COUNT as int, i);
    lemma_bits_distinct(i, i);
    let b = known_bit(i);
    lemma_single_bit(b, bits);
    lemma_single_bit(b, KNOWN_MASK);
    lemma_prefix_contains(i);
    assert(KNOWN_MASK & b == b ==> (bits & KNOWN_MASK) & b == bits & b) by (bit_vector);
}

/// Every named bit lies in the mask of all named bits.
proof fn lemma_prefix_contains(i: int)
    requires
        0 <= i < KNOWN_COUNT,
    ensures
        KNOWN_MASK & known_bit(i) == known_bit(i),
{
    let b = known_bit(i);
    assert(is_known_bit(b) ==> KNOWN_MASK & b == b) by (bit_vector);
}

impl core::ops::BitOr for Permission {
    type Output = Permission;

    /// The bits of `self` and of `rhs` together.
    fn bitor(self, rhs: Permission) -> (p: Permission)
        ensures
            p@ == self@ | rhs@,
    {
        Permission { bits: self.bits | rhs.bits }
    }
}

impl vstd::std_specs::ops::BitOrSpecImpl for Permission {
    open spec fn obeys_bitor_spec() -> bool {
        true
    }

    open spec fn bitor_req(self, rhs: Permission) -> bool {
        true
    }

    closed spec fn bitor_spec(self, rhs: Permission) -> Permission {
        Permission { bits: self.bits | rhs.bits }
    }
}

/// Every name among the names of a mask is the name of a permission.
pub proof fn lemma_names_are_known(bits: u32, k: int)
    requires
        0 <= k < names_of(bits).len(),
    ensures
        is_known_name(names_of(bits)[k]),
{
    lemma_names_upto(bits, KNOWN_COUNT as int);
    assert(named_before(names_of(bits)[k], KNOWN_COUNT as int));
}

/// The names found among the first `n` entries stand in the order of the table.
proof fn lemma_names_upto_order(bits: u32, n: int, a: int, b: int)
    requires
        0 <= n <= KNOWN_COUNT,
        0 <= a < b < names_upto(bits, n).len(),
    ensures
        index_of_name(names_upto(bits, n)[a]) < index_of_name(names_upto(bits, n)[b]) < n,
    decreases n,
{
    let rest = names_upto(bits, n - 1);
    lemma_names_upto(bits, n - 1);
    if b < rest.len() {
        lemma_names_upto_order(bits, n - 1, a, b);
    } else {
        let j = choose|j: int| 0 <= j < n - 1 && known_name(j) == rest[a];
        lemma_bit_of_known_name(j);
        lemma_bit_of_known_name(n - 1);
    }
}

/// The names of a mask stand in the order of the table: of two of them, the one
/// that comes first is the one whose permission comes first in the table.
pub proof fn lemma_names_in_table_order(bits: u32, a: int, b: int)
    requires
        0 <= a < b < names_of(bits).len(),
    ensures
        index_of_name(names_of(bits)[a]) < index_of_name(names_of(bits)[b]),
{
    lemma_names_upto_order(bits, KNOWN_COUNT as int, a, b);
}

} // verus!
