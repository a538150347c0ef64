use unique_api::permissions::{Permission, PermissionString, KNOWN_COUNT, KNOWN_MASK};

const TABLE: [(u32, &str); 18] = [
    (1 << 0, "USER_READ"),
    (1 << 1, "USER_CREATE"),
    (1 << 2, "USER_UPDATE"),
    (1 << 3, "USER_DELETE"),
    (1 << 4, "USER_DISABLE"),
    (1 << 8, "APP_READ"),
    (1 << 9, "APP_CREATE"),
    (1 << 10, "APP_UPDATE"),
    (1 << 11, "APP_DELETE"),
    (1 << 12, "APP_SECRET_ROTATE"),
    (1 << 16, "TOKEN_REVOKE"),
    (1 << 18, "AUDIT_READ"),
    (1 << 19, "CONFIG_UPDATE"),
    (1 << 20, "KEY_MANAGE"),
    (1 << 24, "ROLE_MANAGE"),
    (1 << 25, "PERMISSION_MANAGE"),
    (1 << 26, "SESSION_MANAGE"),
    (1 << 27, "MFA_MANAGE"),
];

#[test]
fn bit_constants_follow_the_layout() {
    assert_eq!(Permission::USER_READ, 1 << 0);
    assert_eq!(Permission::USER_CREATE, 1 << 1);
    assert_eq!(Permission::USER_UPDATE, 1 << 2);
    assert_eq!(Permission::USER_DELETE, 1 << 3);
    assert_eq!(Permission::USER_DISABLE, 1 << 4);
    assert_eq!(Permission::APP_READ, 1 << 8);
    assert_eq!(Permission::APP_CREATE, 1 << 9);
    assert_eq!(Permission::APP_UPDATE, 1 << 10);
    assert_eq!(Permission::APP_DELETE, 1 << 11);
    assert_eq!(Permission::APP_SECRET_ROTATE, 1 << 12);
    assert_eq!(Permission::TOKEN_REVOKE, 1 << 16);
    assert_eq!(Permission::AUDIT_READ, 1 << 18);
    assert_eq!(Permission::CONFIG_UPDATE, 1 << 19);
    assert_eq!(Permission::KEY_MANAGE, 1 << 20);
    assert_eq!(Permission::ROLE_MANAGE, 1 << 24);
    assert_eq!(Permission::PERMISSION_MANAGE, 1 << 25);
    assert_eq!(Permission::SESSION_MANAGE, 1 << 26);
    assert_eq!(Permission::MFA_MANAGE, 1 << 27);
}

#[test]
fn known_mask_is_the_union_of_the_table() {
    let mut all = 0u32;
    for (bit, _) in TABLE {
        assert_eq!(bit.count_ones(), 1);
        assert_eq!(all & bit, 0);
        all |= bit;
    }
    assert_eq!(all, KNOWN_MASK);
    assert_eq!(KNOWN_MASK, 0x0F1D_1F1F);
    assert_eq!(KNOWN_COUNT, TABLE.len());
    assert_eq!(Permission::all().bits(), all);
}

#[test]
fn name_constants_spell_their_own_name() {
    assert_eq!(PermissionString::USER_READ, "USER_READ");
    assert_eq!(PermissionString::APP_SECRET_ROTATE, "APP_SECRET_ROTATE");
    assert_eq!(PermissionString::KEY_MANAGE, "KEY_MANAGE");
    assert_eq!(PermissionString::MFA_MANAGE, "MFA_MANAGE");
}

#[test]
fn from_str_maps_every_name_to_its_bit() {
    for (bit, name) in TABLE {
        let p = Permission::from_str(name);
        assert_eq!(p, Some(Permission::from_bits_retain(bit)));
    }
}

#[test]
fn from_str_rejects_other_strings() {
    assert_eq!(Permission::from_str(""), None);
    assert_eq!(Permission::from_str("user_read"), None);
    assert_eq!(Permission::from_str("User_Read"), None);
    assert_eq!(Permission::from_str("USER_READ "), None);
    assert_eq!(Permission::from_str(" USER_READ"), None);
    assert_eq!(Permission::from_str("USER_REA"), None);
    assert_eq!(Permission::from_str("USER_READS"), None);
    assert_eq!(Permission::from_str("PERMISSION_31"), None);
    assert_eq!(Permission::from_str("USER_READ|USER_CREATE"), None);
    assert_eq!(Permission::from_str("ＵＳＥＲ_READ"), None);
}

#[test]
fn name_round_trips_through_its_bit() {
    for (_, name) in TABLE {
        let p = Permission::from_str(name).unwrap();
        let (names, mask) = Permission::names_from_bits(p.bits());
        assert_eq!(names, vec![name.to_string()]);
        assert_eq!(mask, p.bits());
    }
}

#[test]
fn contains_str_tests_the_named_bit() {
    let p = Permission::from_bits_retain(Permission::USER_READ | Permission::ROLE_MANAGE);
    assert!(p.contains_str("USER_READ"));
    assert!(p.contains_str("ROLE_MANAGE"));
    assert!(!p.contains_str("USER_CREATE"));
    assert!(!p.contains_str("role_manage"));
    assert!(!p.contains_str("NO_SUCH_PERMISSION"));
    assert!(!Permission::empty().contains_str("USER_READ"));
    assert!(!Permission::from_bits_retain(u32::MAX).contains_str("PERMISSION_31"));
    for (_, name) in TABLE {
        assert!(Permission::all().contains_str(name));
        assert!(Permission::from_bits_retain(u32::MAX).contains_str(name));
    }
}

#[test]
fn names_from_bits_of_two_low_bits() {
    let (names, mask) = Permission::names_from_bits(0b11);
    assert_eq!(names, vec!["USER_READ".to_string(), "USER_CREATE".to_string()]);
    assert_eq!(mask, 0b11);
}

#[test]
fn names_from_bits_leaves_unknown_bits_out() {
    let (names, mask) = Permission::names_from_bits(0x0000_0001 | (1 << 31));
    assert!(names.contains(&"USER_READ".to_string()));
    assert_eq!(names, vec!["USER_READ".to_string()]);
    assert_eq!(mask, 1);
}

#[test]
fn names_from_bits_of_nothing() {
    assert_eq!(Permission::names_from_bits(0), (Vec::<String>::new(), 0));
    assert_eq!(Permission::names_from_bits(!KNOWN_MASK), (Vec::<String>::new(), 0));
}

#[test]
fn names_from_bits_of_everything_is_the_table() {
    let (names, mask) = Permission::names_from_bits(u32::MAX);
    let expected: Vec<String> = TABLE.iter().map(|(_, n)| n.to_string()).collect();
    assert_eq!(names, expected);
    assert_eq!(mask, KNOWN_MASK);
}

#[test]
fn names_from_bits_matches_the_table_on_many_masks() {
    let mut bits: u32 = 0x9E37_79B9;
    for _ in 0..2000 {
        bits = bits.wrapping_mul(1_664_525).wrapping_add(1_013_904_223);
        let (names, mask) = Permission::names_from_bits(bits);
        let expected: Vec<String> =
            TABLE.iter().filter(|(b, _)| bits & b != 0).map(|(_, n)| n.to_string()).collect();
        assert_eq!(names, expected);
        assert_eq!(mask, bits & KNOWN_MASK);
        let mut seen = names.clone();
        seen.sort();
        seen.dedup();
        assert_eq!(seen.len(), names.len());
    }
}

#[test]
fn set_operations_are_bitwise() {
    let a = Permission::from_bits_retain(0b0101);
    let b = Permission::from_bits_retain(0b0100);
    let c = Permission::from_bits_retain(0b0010);
    assert!(a.contains(b));
    assert!(!b.contains(a));
    assert!(!a.contains(c));
    assert!(a.contains(Permission::empty()));
    assert!(a.intersects(b));
    assert!(!a.intersects(c));
    assert_eq!(a.union(c).bits(), 0b0111);
    assert_eq!((a | c).bits(), 0b0111);
    assert_eq!(a | b, a);
    assert_eq!((a | Permission::empty()).bits(), 0b0101);
    assert_eq!(a.union(b), a);
    assert!(Permission::empty().is_empty());
    assert!(!a.is_empty());
    let mut d = Permission::empty();
    d.insert(a);
    d.insert(c);
    assert_eq!(d.bits(), 0b0111);
}

#[test]
fn from_bits_refuses_unknown_bits_and_retain_keeps_them() {
    assert_eq!(Permission::from_bits(0b11), Some(Permission::from_bits_retain(0b11)));
    assert_eq!(Permission::from_bits(0), Some(Permission::empty()));
    assert_eq!(Permission::from_bits(1 << 31), None);
    assert_eq!(Permission::from_bits(1 | (1 << 5)), None);
    assert_eq!(Permission::from_bits_truncate(1 | (1 << 5) | (1 << 31)).bits(), 1);
    assert_eq!(Permission::from_bits_retain(1 | (1 << 31)).bits(), 1 | (1 << 31));
    assert_eq!(Permission::from_bits_retain(u32::MAX).bits(), u32::MAX);
}
