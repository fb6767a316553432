use token_checker::utils::Utils;

#[test]
fn no_flags_no_names() {
    assert_eq!(Utils::get_user_flags(0), Vec::<String>::new());
}

#[test]
fn single_flag_is_named() {
    assert_eq!(Utils::get_user_flags(1), vec!["Discord Employee".to_string()]);
    assert_eq!(Utils::get_user_flags(1 << 22), vec!["Active Developer".to_string()]);
}

#[test]
fn flags_come_in_the_order_of_the_table() {
    assert_eq!(
        Utils::get_user_flags((1 << 17) | (1 << 6) | (1 << 9)),
        vec![
            "House Bravery Member".to_string(),
            "Early Nitro Supporter".to_string(),
            "Early Verified Bot Developer".to_string(),
        ]
    );
}

#[test]
fn bits_without_a_name_are_passed_over() {
    assert_eq!(Utils::get_user_flags(1 << 4), Vec::<String>::new());
    assert_eq!(Utils::get_user_flags((1 << 4) | 2), vec!["Partnered Server Owner".to_string()]);
}

#[test]
fn negative_flags_carry_every_bit() {
    assert_eq!(Utils::get_user_flags(-1).len(), 15);
}

#[test]
fn permissions_are_read_from_a_numeral() {
    assert_eq!(
        Utils::get_user_permissions("8"),
        vec!["Administrator".to_string()]
    );
    assert_eq!(
        Utils::get_user_permissions("2051"),
        vec![
            "Create Instant Invite".to_string(),
            "Kick Members".to_string(),
            "Send Messages".to_string(),
        ]
    );
}

#[test]
fn high_permission_bits_are_named() {
    assert_eq!(
        Utils::get_user_permissions("1125899906842624"),
        vec!["Use External Apps".to_string()]
    );
}

#[test]
fn text_that_is_no_numeral_grants_nothing() {
    assert_eq!(Utils::get_user_permissions("admin"), Vec::<String>::new());
    assert_eq!(Utils::get_user_permissions(""), Vec::<String>::new());
    assert_eq!(Utils::get_user_permissions("0"), Vec::<String>::new());
}

#[test]
fn numeral_beyond_128_bits_grants_nothing() {
    assert_eq!(
        Utils::get_user_permissions("170141183460469231731687303715884105728"),
        Vec::<String>::new()
    );
}

#[test]
fn relationship_kinds_are_named() {
    assert_eq!(Utils::friend_type_label(1), "Friend");
    assert_eq!(Utils::friend_type_label(2), "Blocked");
    assert_eq!(Utils::friend_type_label(3), "Incoming friend request");
    assert_eq!(Utils::friend_type_label(4), "Outgoing friend request");
}

#[test]
fn other_relationship_kinds_are_unknown() {
    assert_eq!(Utils::friend_type_label(0), "Unknown type");
    assert_eq!(Utils::friend_type_label(99), "Unknown type");
    assert_eq!(Utils::friend_type_label(-1), "Unknown type");
}
