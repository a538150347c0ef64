use unique_api::report::{
    decimal_string, permission_names, role_permissions, synthetic_permission_name,
    user_permissions,
};

fn strings(names: &[&str]) -> Vec<String> {
    names.iter().map(|n| n.to_string()).collect()
}

#[test]
fn decimal_string_agrees_with_to_string() {
    for n in [0u32, 1, 9, 10, 11, 31, 99, 100, 101, 4095, 1_000_000, u32::MAX] {
        assert_eq!(decimal_string(n), n.to_string());
    }
}

#[test]
fn synthetic_names_carry_the_bit_index() {
    assert_eq!(synthetic_permission_name(0), "PERMISSION_0");
    assert_eq!(synthetic_permission_name(5), "PERMISSION_5");
    assert_eq!(synthetic_permission_name(17), "PERMISSION_17");
    assert_eq!(synthetic_permission_name(31), "PERMISSION_31");
}

#[test]
fn unknown_high_bit_is_shown_after_the_names() {
    assert_eq!(
        permission_names(0x0000_0001 | (1 << 31)),
        strings(&["USER_READ", "PERMISSION_31"])
    );
}

#[test]
fn names_come_in_table_order_then_unknown_bits_ascending() {
    assert_eq!(permission_names(0), Vec::<String>::new());
    assert_eq!(permission_names(0b11), strings(&["USER_READ", "USER_CREATE"]));
    assert_eq!(
        permission_names((1 << 30) | (1 << 24) | (1 << 17) | (1 << 5) | (1 << 1)),
        strings(&["USER_CREATE", "ROLE_MANAGE", "PERMISSION_5", "PERMISSION_17", "PERMISSION_30"])
    );
    assert_eq!(
        permission_names(0xF0E2_E0E0),
        strings(&[
            "PERMISSION_5",
            "PERMISSION_6",
            "PERMISSION_7",
            "PERMISSION_13",
            "PERMISSION_14",
            "PERMISSION_15",
            "PERMISSION_17",
            "PERMISSION_21",
            "PERMISSION_22",
            "PERMISSION_23",
            "PERMISSION_28",
            "PERMISSION_29",
            "PERMISSION_30",
            "PERMISSION_31",
        ])
    );
    assert_eq!(permission_names(u32::MAX).len(), 32);
}

#[test]
fn role_permissions_keep_the_stored_number() {
    let r = role_permissions(3);
    assert_eq!(r.permissions_bit, 3);
    assert_eq!(r.permissions_text, strings(&["USER_READ", "USER_CREATE"]));
    let negative = role_permissions(i32::MIN | 1);
    assert_eq!(negative.permissions_bit, i64::from(i32::MIN) + 1);
    assert_eq!(negative.permissions_text, strings(&["USER_READ", "PERMISSION_31"]));
    let all = role_permissions(-1);
    assert_eq!(all.permissions_bit, -1);
    assert_eq!(all.permissions_text.len(), 32);
}

#[test]
fn user_permissions_union_the_roles() {
    let r = user_permissions(&vec![0b0001, 0b0010]);
    assert_eq!(r.permissions_bit, 3);
    assert_eq!(r.permissions_text, strings(&["USER_READ", "USER_CREATE"]));
    let none = user_permissions(&vec![]);
    assert_eq!(none.permissions_bit, 0);
    assert!(none.permissions_text.is_empty());
    let wide = user_permissions(&vec![1 << 24, i32::MIN]);
    assert_eq!(wide.permissions_bit, i64::from(i32::MIN) | (1 << 24));
    assert_eq!(wide.permissions_text, strings(&["ROLE_MANAGE", "PERMISSION_31"]));
}

#[test]
fn every_set_bit_is_shown_once() {
    let mut bits: u32 = 0x1234_5678;
    for _ in 0..2000 {
        bits = bits.wrapping_mul(1_664_525).wrapping_add(1_013_904_223);
        let text = permission_names(bits);
        assert_eq!(text.len() as u32, bits.count_ones());
        let mut seen = text.clone();
        seen.sort();
        seen.dedup();
        assert_eq!(seen.len(), text.len());
    }
    assert_eq!(permission_names(u32::MAX).len(), 32);
    assert_eq!(permission_names(0).len(), 0);
}
