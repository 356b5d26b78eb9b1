use loomox::text::{
    before_first_of, chars_of, concat3, decimal_string, eq_ignore_ascii_case, join_strings,
    last_index_of, matches_at, parse_unsigned_in, remove_char, same_text, split_once_at,
    strip_prefix_of, zero_padded_decimal,
};
use loomox::naming::{class_for_names, parse_group_name, provisioned_label_for};

fn parse(s: &str, max: u64) -> Option<u64> {
    let chars = chars_of(s);
    parse_unsigned_in(&chars, 0, chars.len(), max)
}

#[test]
fn decimal_notation() {
    assert_eq!(decimal_string(0), "0");
    assert_eq!(decimal_string(42), "42");
    assert_eq!(decimal_string(900), "900");
    assert_eq!(decimal_string(u64::MAX), "18446744073709551615");
}

#[test]
fn zero_padding_to_three_digits() {
    assert_eq!(zero_padded_decimal(7, 3), "007");
    assert_eq!(zero_padded_decimal(42, 3), "042");
    assert_eq!(zero_padded_decimal(123, 3), "123");
    assert_eq!(zero_padded_decimal(1234, 3), "1234");
    assert_eq!(zero_padded_decimal(0, 3), "000");
}

#[test]
fn parsing_unsigned_numbers() {
    assert_eq!(parse("17", u32::MAX as u64), Some(17));
    assert_eq!(parse("+17", u32::MAX as u64), Some(17));
    assert_eq!(parse("007", u32::MAX as u64), Some(7));
    assert_eq!(parse("4294967295", u32::MAX as u64), Some(4294967295));
    assert_eq!(parse("4294967296", u32::MAX as u64), None);
    assert_eq!(parse("-1", u32::MAX as u64), None);
    assert_eq!(parse("", u32::MAX as u64), None);
    assert_eq!(parse("+", u32::MAX as u64), None);
    assert_eq!(parse("1a", u32::MAX as u64), None);
    assert_eq!(parse(" 1", u32::MAX as u64), None);
    assert_eq!(parse("18446744073709551615", u64::MAX), Some(u64::MAX));
    assert_eq!(parse("18446744073709551616", u64::MAX), None);
}

#[test]
fn reading_back_a_decimal_notation() {
    for n in [0u64, 1, 9, 10, 99, 100, 4294967295] {
        assert_eq!(parse(&decimal_string(n), u32::MAX as u64), Some(n));
    }
}

#[test]
fn searching_text() {
    let chars = chars_of("a_grp1_grp2");
    let pat = chars_of("_grp");
    assert_eq!(last_index_of(&chars, &pat), Some(6));
    assert!(matches_at(&chars, 1, &pat));
    assert!(!matches_at(&chars, 2, &pat));
    assert_eq!(last_index_of(&chars_of("abc"), &pat), None);
    assert_eq!(last_index_of(&chars_of("_gr"), &pat), None);
}

#[test]
fn stripping_and_splitting() {
    assert_eq!(strip_prefix_of("ugr_x", "ugr_"), Some("x".to_string()));
    assert_eq!(strip_prefix_of("ug", "ugr_"), None);
    assert_eq!(strip_prefix_of("xugr_", "ugr_"), None);
    assert_eq!(
        split_once_at("admin:pa:ss", ':'),
        Some(("admin".to_string(), "pa:ss".to_string()))
    );
    assert_eq!(split_once_at("admin", ':'), None);
    assert_eq!(before_first_of("alice@pve", '@'), "alice");
    assert_eq!(before_first_of("root@pam@x", '@'), "root");
    assert_eq!(before_first_of("nobody", '@'), "nobody");
}

#[test]
fn removing_dashes_and_comparing_case() {
    assert_eq!(remove_char("inf-23-a", '-'), "inf23a");
    assert_eq!(remove_char("---", '-'), "");
    assert!(eq_ignore_ascii_case("M306", "m306"));
    assert!(!eq_ignore_ascii_case("M306", "m307"));
    assert!(!eq_ignore_ascii_case("M306", "M3066"));
    assert!(!eq_ignore_ascii_case("Ä", "ä"));
    assert!(same_text("abc", "abc"));
    assert!(!same_text("abc", "abd"));
}

#[test]
fn case_conversion_follows_unicode() {
    assert_eq!(parse_group_name("ugr_m306ä_inf_grp1").unwrap().module, "M306Ä");
    assert_eq!(parse_group_name("ugr_straße_inf_grp1").unwrap().module, "STRASSE");
    assert_eq!(class_for_names("INF-23A"), "inf23a");
    assert_eq!(provisioned_label_for("M306", "INF-23A", 2), "m306_inf23a_grp2");
}

#[test]
fn joining_and_concatenating() {
    let parts = vec!["anna".to_string(), "ben".to_string(), "cem".to_string()];
    assert_eq!(join_strings(&parts, ","), "anna,ben,cem");
    assert_eq!(join_strings(&Vec::new(), ","), "");
    assert_eq!(join_strings(&vec!["solo".to_string()], ","), "solo");
    assert_eq!(concat3("a", "b", "c"), "abc");
}
