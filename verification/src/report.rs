//! Permission introspection: a mask as the list of names that a response shows,
//! with a made-up name for every bit that has none.

use vstd::prelude::*;
use vstd::string::StringExecFns;
use crate::permission_check::{mask_of, role_mask, union_of};
use crate::permissions::{is_known_name, known_bit, known_name, names_of, names_upto};
use crate::permissions::{lemma_names_are_known, lemma_names_no_duplicates, recognized_mask};
use crate::permissions::{Permission, KNOWN_COUNT, KNOWN_MASK};
use crate::permissions::lemma_recognized_mask;

verus! {

/// The decimal digit `d`.
pub open spec fn digit(d: int) -> char {
    if d == 0 {
        '0'
    } else if d == 1 {
        '1'
    } else if d == 2 {
        '2'
    } else if d == 3 {
        '3'
    } else if d == 4 {
        '4'
    } else if d == 5 {
        '5'
    } else if d == 6 {
        '6'
    } else if d == 7 {
        '7'
    } else if d == 8 {
        '8'
    } else {
        '9'
    }
}

/// `n` in decimal digits, without leading zeros.
pub open spec fn decimal(n: nat) -> Seq<char>
    decreases n,
{
    if n < 10 {
        seq![digit(n as int)]
    } else {
        decimal(n / 10).push(digit((n % 10) as int))
    }
}

/// The name under which the bit at position `index` is shown when it has no name
/// of its own.
pub open spec fn synthetic_name(index: nat) -> Seq<char> {
    "PERMISSION_"@ + decimal(index)
}

/// The made-up names of the bits of `rest` at the positions below `n`, in ascending
/// order of position.
pub open spec fn synthetic_upto(rest: u32, n: nat) -> Seq<Seq<char>>
    decreases n,
{
    if n == 0 {
        Seq::empty()
    } else if rest & (1u32 << ((n - 1) as u32)) != 0 {
        synthetic_upto(rest, (n - 1) as nat).push(synthetic_name((n - 1) as nat))
    } else {
        synthetic_upto(rest, (n - 1) as nat)
    }
}

/// The names under which `bits` is shown: the names of its named bits in table
/// order, then a made-up name for each of its other bits in ascending order of
/// position.
pub open spec fn permission_text(bits: u32) -> Seq<Seq<char>> {
    names_of(bits) + synthetic_upto(bits & !recognized_mask(bits), 32)
}

/// The bits that get a made-up name are those outside the mask of all named bits.
pub proof fn lemma_permission_text(bits: u32)
    ensures
        permission_text(bits) == names_of(bits) + synthetic_upto(bits & !KNOWN_MASK, 32),
{
    lemma_recognized_mask(bits);
    assert(bits & !(bits & KNOWN_MASK) == bits & !KNOWN_MASK) by (bit_vector);
}

/// The decimal digit `d` as a string.
fn digit_str(d: u32) -> (s: &'static str)
    requires
        d < 10,
    ensures
        s@ == seq![digit(d as int)],
{
    proof {
        reveal_strlit("0");
        reveal_strlit("1");
        reveal_strlit("2");
        reveal_strlit("3");
        reveal_strlit("4");
        reveal_strlit("5");
        reveal_strlit("6");
        reveal_strlit("7");
        reveal_strlit("8");
        reveal_strlit("9");
    }
    let s = match d {
        0 => "0",
        1 => "1",
        2 => "2",
        3 => "3",
        4 => "4",
        5 => "5",
        6 => "6",
        7 => "7",
        8 => "8",
        _ => "9",
    };
    assert(s@ =~= seq![digit(d as int)]);
    s
}

/// `n` in decimal digits.
pub fn decimal_string(n: u32) -> (s: String)
    ensures
        s@ == decimal(n as nat),
    decreases n,
{
    if n < 10 {
        digit_str(n).to_owned()
    } else {
        let mut s = decimal_string(n / 10);
        s.append(digit_str(n % 10));
        s
    }
}

/// The made-up name of the bit at position `index`.
pub fn synthetic_permission_name(index: u32) -> (name: String)
    ensures
        name@ == synthetic_name(index as nat),
{
    let mut name = "PERMISSION_".to_owned();
    let digits = decimal_string(index);
    name.append(digits.as_str());
    name
}

/// The names under which `bits` is shown.
pub fn permission_names(bits: u32) -> (text: Vec<String>)
    ensures
        text.deep_view() == permission_text(bits),
        text.deep_view().no_duplicates(),
        text@.len() == count_bits(bits, 32),
{
    let (mut text, known_mask) = Permission::names_from_bits(bits);
    let remaining: u32 = bits & !known_mask;
    let ghost names = text.deep_view();
    let mut i: u32 = 0;
    assert(text.deep_view() =~= names + synthetic_upto(remaining, 0));
    while i < 32
        invariant
            i <= 32,
            text.deep_view() == names + synthetic_upto(remaining, i as nat),
        decreases 32 - i,
    {
        if (remaining & (1u32 << i)) != 0 {
            let ghost before = text.deep_view();
            text.push(synthetic_permission_name(i));
            assert(text.deep_view() =~= before.push(synthetic_name(i as nat)));
            assert(text.deep_view() =~= names + synthetic_upto(remaining, (i + 1) as nat));
        }
        i += 1;
    }
    proof {
        lemma_permission_text_no_duplicates(bits);
        lemma_permission_text_len(bits);
    }
    text
}

/// The body of the response that shows a set of permissions.
#[derive(Clone, Debug)]
pub struct PermissionsResponse {
    /// The mask, as the signed number that the store holds.
    pub permissions_bit: i64,
    /// The names under which the mask is shown.
    pub permissions_text: Vec<String>,
}

/// The union of the `permission` columns of `roles`, each widened to 64 bits with
/// its sign.
pub open spec fn union_wide(roles: Seq<i32>) -> i64
    decreases roles.len(),
{
    if roles.len() == 0 {
        0
    } else {
        union_wide(roles.drop_last()) | (roles.last() as i64)
    }
}

/// The low 32 bits of the widened union are the union of the masks.
pub proof fn lemma_union_wide_low_bits(roles: Seq<i32>)
    ensures
        union_wide(roles) as u32 == union_of(roles),
    decreases roles.len(),
{
    if roles.len() == 0 {
        assert(0i64 as u32 == 0u32) by (bit_vector);
    } else {
        lemma_union_wide_low_bits(roles.drop_last());
        let a = union_wide(roles.drop_last());
        let p = roles.last();
        assert((a | (p as i64)) as u32 == (a as u32) | (p as u32)) by (bit_vector);
    }
}

/// The permissions of one role, as a response shows them.
pub fn role_permissions(permission: i32) -> (response: PermissionsResponse)
    ensures
        response.permissions_bit == permission,
        response.permissions_text.deep_view() == permission_text(mask_of(permission)),
{
    PermissionsResponse {
        permissions_bit: permission as i64,
        permissions_text: permission_names(role_mask(permission)),
    }
}

/// The permissions of a user with these roles, as a response shows them.
pub fn user_permissions(roles: &Vec<i32>) -> (response: PermissionsResponse)
    ensures
        response.permissions_bit == union_wide(roles@),
        response.permissions_text.deep_view() == permission_text(union_of(roles@)),
{
    let mut permissions_bit: i64 = 0;
    let mut i: usize = 0;
    while i < roles.len()
        invariant
            i <= roles.len(),
            permissions_bit == union_wide(roles@.take(i as int)),
        decreases roles.len() - i,
    {
        permissions_bit = permissions_bit | (roles[i] as i64);
        proof {
            assert(roles@.take(i + 1).drop_last() =~= roles@.take(i as int));
        }
        i += 1;
    }
    proof {
        assert(roles@.take(roles@.len() as int) =~= roles@);
        lemma_union_wide_low_bits(roles@);
    }
    let mask: u32 = #[verifier::truncate]
    (permissions_bit as u32);
    PermissionsResponse { permissions_bit, permissions_text: permission_names(mask) }
}

/// How many of the `n` lowest bits of `b` are set.
pub open spec fn count_bits(b: u32, n: nat) -> nat
    decreases n,
{
    if n == 0 {
        0
    } else if b & (1u32 << ((n - 1) as u32)) != 0 {
        count_bits(b, (n - 1) as nat) + 1
    } else {
        count_bits(b, (n - 1) as nat)
    }
}

/// How many of the first `n` permissions of the table have their bit set in `bits`.
pub open spec fn count_named(bits: u32, n: int) -> nat
    decreases n,
{
    if n <= 0 {
        0
    } else if bits & known_bit(n - 1) != 0 {
        count_named(bits, n - 1) + 1
    } else {
        count_named(bits, n - 1)
    }
}

/// There is one name for each of the first `n` permissions of the table whose bit
/// is set.
proof fn lemma_names_upto_len(bits: u32, n: int)
    requires
        0 <= n <= KNOWN_COUNT,
    ensures
        names_upto(bits, n).len() == count_named(bits, n),
    decreases n,
{
    if n > 0 {
        lemma_names_upto_len(bits, n - 1);
    }
}

/// There is one made-up name for each set bit.
proof fn lemma_synthetic_upto_len(rest: u32, n: nat)
    ensures
        synthetic_upto(rest, n).len() == count_bits(rest, n),
    decreases n,
{
    if n > 0 {
        lemma_synthetic_upto_len(rest, (n - 1) as nat);
    }
}

/// The set bits of a mask are those inside `m` and those outside it.
proof fn lemma_count_bits_split(b: u32, m: u32, n: nat)
    requires
        n <= 32,
    ensures
        count_bits(b, n) == count_bits(b & m, n) + count_bits(b & !m, n),
    decreases n,
{
    if n > 0 {
        lemma_count_bits_split(b, m, (n - 1) as nat);
        let k = (n - 1) as u32;
        assert(((b & m) & (1u32 << k) != 0 || (b & !m) & (1u32 << k) != 0) == (b & (1u32 << k)
            != 0) && !((b & m) & (1u32 << k) != 0 && (b & !m) & (1u32 << k) != 0))
            by (bit_vector)
            requires
                k < 32,
        ;
    }
}

/// The named bits that a mask holds are as many as the table entries whose bit it
/// holds.
proof fn lemma_count_named(bits: u32)
    ensures
        count_bits(bits & KNOWN_MASK, 32) == count_named(bits, KNOWN_COUNT as int),
{
    let named = bits & KNOWN_MASK;
    assert(((bits & KNOWN_MASK) & (1u32 << 0u32) != 0) == (bits & 0x0000_0001u32 != 0)
            && ((bits & KNOWN_MASK) & (1u32 << 1u32) != 0) == (bits & 0x0000_0002u32 != 0)
            && ((bits & KNOWN_MASK) & (1u32 << 2u32) != 0) == (bits & 0x0000_0004u32 != 0)
            && ((bits & KNOWN_MASK) & (1u32 << 3u32) != 0) == (bits & 0x0000_0008u32 != 0)
            && ((bits & KNOWN_MASK) & (1u32 << 4u32) != 0) == (bits & 0x0000_0010u32 != 0)
            && (bits & KNOWN_MASK) & (1u32 << 5u32) == 0
            && (bits & KNOWN_MASK) & (1u32 << 6u32) == 0
            && (bits & KNOWN_MASK) & (1u32 << 7u32) == 0
            && ((bits & KNOWN_MASK) & (1u32 << 8u32) != 0) == (bits & 0x0000_0100u32 != 0)
            && ((bits & KNOWN_MASK) & (1u32 << 9u32) != 0) == (bits & 0x0000_0200u32 != 0)
            && ((bits & KNOWN_MASK) & (1u32 << 10u32) != 0) == (bits & 0x0000_0400u32 != 0)
            && ((bits & KNOWN_MASK) & (1u32 << 11u32) != 0) == (bits & 0x0000_0800u32 != 0)
            && ((bits & KNOWN_MASK) & (1u32 << 12u32) != 0) == (bits & 0x0000_1000u32 != 0)
            && (bits & KNOWN_MASK) & (1u32 << 13u32) == 0
            && (bits & KNOWN_MASK) & (1u32 << 14u32) == 0
            && (bits & KNOWN_MASK) & (1u32 << 15u32) == 0
            && ((bits & KNOWN_MASK) & (1u32 << 16u32) != 0) == (bits & 0x0001_0000u32 != 0)
            && (bits & KNOWN_MASK) & (1u32 << 17u32) == 0
            && ((bits & KNOWN_MASK) & (1u32 << 18u32) != 0) == (bits & 0x0004_0000u32 != 0)
            && ((bits & KNOWN_MASK) & (1u32 << 19u32) != 0) == (bits & 0x0008_0000u32 != 0)
            && ((bits & KNOWN_MASK) & (1u32 << 20u32) != 0) == (bits & 0x0010_0000u32 != 0)
            && (bits & KNOWN_MASK) & (1u32 << 21u32) == 0
            && (bits & KNOWN_MASK) & (1u32 << 22u32) == 0
            && (bits & KNOWN_MASK) & (1u32 << 23u32) == 0
            && ((bits & KNOWN_MASK) & (1u32 << 24u32) != 0) == (bits & 0x0100_0000u32 != 0)
            && ((bits & KNOWN_MASK) & (1u32 << 25u32) != 0) == (bits & 0x0200_0000u32 != 0)
            && ((bits & KNOWN_MASK) & (1u32 << 26u32) != 0) == (bits & 0x0400_0000u32 != 0)
            && ((bits & KNOWN_MASK) & (1u32 << 27u32) != 0) == (bits & 0x0800_0000u32 != 0)
            && (bits & KNOWN_MASK) & (1u32 << 28u32) == 0
            && (bits & KNOWN_MASK) & (1u32 << 29u32) == 0
            && (bits & KNOWN_MASK) & (1u32 << 30u32) == 0
            && (bits & KNOWN_MASK) & (1u32 << 31u32) == 0) by (bit_vector);
    assert(count_bits(named, 0) == count_named(bits, 0));
    assert(count_bits(named, 1) == count_named(bits, 1));
    assert(count_bits(named, 2) == count_named(bits, 2));
    assert(count_bits(named, 3) == count_named(bits, 3));
    assert(count_bits(named, 4) == count_named(bits, 4));
    assert(count_bits(named, 5) == count_named(bits, 5));
    assert(count_bits(named, 6) == count_named(bits, 5));
    assert(count_bits(named, 7) == count_named(bits, 5));
    assert(count_bits(named, 8) == count_named(bits, 5));
    assert(count_bits(named, 9) == count_named(bits, 6));
    assert(count_bits(named, 10) == count_named(bits, 7));
    assert(count_bits(named, 11) == count_named(bits, 8));
    assert(count_bits(named, 12) == count_named(bits, 9));
    assert(count_bits(named, 13) == count_named(bits, 10));
    assert(count_bits(named, 14) == count_named(bits, 10));
    assert(count_bits(named, 15) == count_named(bits, 10));
    assert(count_bits(named, 16) == count_named(bits, 10));
    assert(count_bits(named, 17) == count_named(bits, 11));
    assert(count_bits(named, 18) == count_named(bits, 11));
    assert(count_bits(named, 19) == count_named(bits, 12));
    assert(count_bits(named, 20) == count_named(bits, 13));
    assert(count_bits(named, 21) == count_named(bits, 14));
    assert(count_bits(named, 22) == count_named(bits, 14));
    assert(count_bits(named, 23) == count_named(bits, 14));
    assert(count_bits(named, 24) == count_named(bits, 14));
    assert(count_bits(named, 25) == count_named(bits, 15));
    assert(count_bits(named, 26) == count_named(bits, 16));
    assert(count_bits(named, 27) == count_named(bits, 17));
    assert(count_bits(named, 28) == count_named(bits, 18));
    assert(count_bits(named, 29) == count_named(bits, 18));
    assert(count_bits(named, 30) == count_named(bits, 18));
    assert(count_bits(named, 31) == count_named(bits, 18));
    assert(count_bits(named, 32) == count_named(bits, 18));
}

/// A mask is shown under as many names as it has set bits, and as many of them are
/// names of the table as it has set bits with a name.
pub proof fn lemma_permission_text_len(bits: u32)
    ensures
        names_of(bits).len() == count_bits(bits & KNOWN_MASK, 32),
        permission_text(bits).len() == count_bits(bits, 32),
{
    lemma_names_upto_len(bits, KNOWN_COUNT as int);
    lemma_count_named(bits);
    lemma_permission_text(bits);
    lemma_synthetic_upto_len(bits & !KNOWN_MASK, 32);
    lemma_count_bits_split(bits, KNOWN_MASK, 32);
}

/// A number below 100 is written with one digit or with two.
proof fn lemma_decimal_small(n: nat)
    requires
        n < 100,
    ensures
        decimal(n) == if n < 10 {
            seq![digit(n as int)]
        } else {
            seq![digit(n as int / 10), digit(n as int % 10)]
        },
{
    if n >= 10 {
        assert(decimal(n / 10) == seq![digit(n as int / 10)]);
        assert(seq![digit(n as int / 10)].push(digit(n as int % 10)) =~= seq![
            digit(n as int / 10),
            digit(n as int % 10),
        ]);
    }
}

/// Two bit positions have different made-up names.
pub proof fn lemma_synthetic_names_distinct(i: nat, j: nat)
    requires
        i < 100,
        j < 100,
        i != j,
    ensures
        synthetic_name(i) != synthetic_name(j),
{
    let prefix = "PERMISSION_"@;
    let a = decimal(i);
    let b = decimal(j);
    lemma_decimal_small(i);
    lemma_decimal_small(j);
    if prefix + a == prefix + b {
        assert((prefix + a).skip(prefix.len() as int) =~= a);
        assert((prefix + b).skip(prefix.len() as int) =~= b);
        assert(a.len() == b.len());
        assert(a[0] == b[0]);
        if i >= 10 {
            assert(a[1] == b[1]);
        }
        assert(false);
    }
}

/// No made-up name is the name of a permission.
pub proof fn lemma_synthetic_name_is_unknown(i: nat)
    requires
        i < 100,
    ensures
        !is_known_name(synthetic_name(i)),
{
    reveal_strlit("PERMISSION_");
    reveal_strlit("USER_READ");
    reveal_strlit("USER_CREATE");
    reveal_strlit("USER_UPDATE");
    reveal_strlit("USER_DELETE");
    reveal_strlit("USER_DISABLE");
    reveal_strlit("APP_READ");
    reveal_strlit("APP_CREATE");
    reveal_strlit("APP_UPDATE");
    reveal_strlit("APP_DELETE");
    reveal_strlit("APP_SECRET_ROTATE");
    reveal_strlit("TOKEN_REVOKE");
    reveal_strlit("AUDIT_READ");
    reveal_strlit("CONFIG_UPDATE");
    reveal_strlit("KEY_MANAGE");
    reveal_strlit("ROLE_MANAGE");
    reveal_strlit("PERMISSION_MANAGE");
    reveal_strlit("SESSION_MANAGE");
    reveal_strlit("MFA_MANAGE");
    lemma_decimal_small(i);
    let name = synthetic_name(i);
    assert(name.len() == 12 || name.len() == 13);
    assert(name[0] == 'P');
    assert forall|j: int| 0 <= j < KNOWN_COUNT implies known_name(j) != name by {
        let known = known_name(j);
        if known.len() == name.len() {
            assert(known[0] != name[0]);
        }
    }
}

/// The made-up names found among the positions below `n` are names of those
/// positions, and none occurs twice.
proof fn lemma_synthetic_upto(rest: u32, n: nat)
    requires
        n <= 32,
    ensures
        synthetic_upto(rest, n).no_duplicates(),
        forall|k: int|
            0 <= k < synthetic_upto(rest, n).len() ==> exists|position: nat|
                position < n && #[trigger] synthetic_upto(rest, n)[k] == synthetic_name(position),
    decreases n,
{
    if n > 0 {
        let before = synthetic_upto(rest, (n - 1) as nat);
        let all = synthetic_upto(rest, n);
        lemma_synthetic_upto(rest, (n - 1) as nat);
        assert forall|k: int| 0 <= k < before.len() implies before[k] != synthetic_name(
            (n - 1) as nat,
        ) by {
            let position = choose|position: nat|
                position < n - 1 && before[k] == synthetic_name(position);
            lemma_synthetic_names_distinct(position, (n - 1) as nat);
        }
        assert forall|k: int| 0 <= k < all.len() implies exists|position: nat|
            position < n && #[trigger] all[k] == synthetic_name(position) by {
            if k < before.len() {
                let position = choose|position: nat|
                    position < n - 1 && before[k] == synthetic_name(position);
                assert(position < n && all[k] == synthetic_name(position));
            } else {
                let position = (n - 1) as nat;
                assert(position < n && all[k] == synthetic_name(position));
            }
        }
    }
}

/// No name occurs twice among the names under which a mask is shown.
pub proof fn lemma_permission_text_no_duplicates(bits: u32)
    ensures
        permission_text(bits).no_duplicates(),
{
    let names = names_of(bits);
    let made_up = synthetic_upto(bits & !recognized_mask(bits), 32);
    lemma_names_no_duplicates(bits);
    lemma_synthetic_upto(bits & !recognized_mask(bits), 32);
    assert forall|i: int, j: int| 0 <= i < names.len() && 0 <= j < made_up.len() implies names[i]
        != made_up[j] by {
        lemma_names_are_known(bits, i);
        let position = choose|position: nat|
            position < 32 && made_up[j] == synthetic_name(position);
        lemma_synthetic_name_is_unknown(position);
    }
    vstd::seq_lib::lemma_no_dup_in_concat(names, made_up);
}

} // verus!
