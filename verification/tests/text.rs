use fraudswarm::embedding::embedding_to_pgvector;
use fraudswarm::text::{
    chars_of, format_fixed, format_integer, format_money_plain, format_padded, format_unsigned,
    join_strings, list_contains, magnitude_of, round_quotient, same_text, str_contains,
};

#[test]
fn unsigned_numbers_are_written_in_decimal() {
    assert_eq!(format_unsigned(0), "0");
    assert_eq!(format_unsigned(7), "7");
    assert_eq!(format_unsigned(10), "10");
    assert_eq!(format_unsigned(12345), "12345");
    assert_eq!(format_unsigned(u128::MAX), u128::MAX.to_string());
}

#[test]
fn signed_numbers_carry_their_sign() {
    assert_eq!(format_integer(0), "0");
    assert_eq!(format_integer(42), "42");
    assert_eq!(format_integer(-42), "-42");
    assert_eq!(format_integer(i128::MIN), i128::MIN.to_string());
    assert_eq!(format_integer(i128::MAX), i128::MAX.to_string());
}

#[test]
fn padded_digits_keep_their_width() {
    assert_eq!(format_padded(5, 2), "05");
    assert_eq!(format_padded(45, 2), "45");
    assert_eq!(format_padded(12345, 2), "45");
    assert_eq!(format_padded(7, 0), "");
    assert_eq!(format_padded(0, 3), "000");
}

#[test]
fn magnitude_covers_the_whole_range() {
    assert_eq!(magnitude_of(0), 0);
    assert_eq!(magnitude_of(17), 17);
    assert_eq!(magnitude_of(-17), 17);
    assert_eq!(magnitude_of(i128::MIN), 1u128 << 127);
    assert_eq!(magnitude_of(i128::MAX), (1u128 << 127) - 1);
}

#[test]
fn quotients_round_to_nearest_ties_to_even() {
    assert_eq!(round_quotient(0, 3), 0);
    assert_eq!(round_quotient(7, 2), 4);
    assert_eq!(round_quotient(5, 2), 2);
    assert_eq!(round_quotient(1, 2), 0);
    assert_eq!(round_quotient(3, 2), 2);
    assert_eq!(round_quotient(10, 3), 3);
    assert_eq!(round_quotient(11, 3), 4);
    assert_eq!(round_quotient(u128::MAX, 1), u128::MAX);
    assert_eq!(round_quotient(u128::MAX, u64::MAX), (1u128 << 64) + 1);
}

#[test]
fn fixed_point_with_two_decimals() {
    assert_eq!(format_fixed(12345, 1, 2), "123.45");
    assert_eq!(format_fixed(8550, 1, 2), "85.50");
    assert_eq!(format_fixed(5, 1, 2), "0.05");
    assert_eq!(format_fixed(0, 1, 2), "0.00");
    assert_eq!(format_fixed(-5, 1, 2), "-0.05");
    assert_eq!(format_fixed(-250000, 1, 2), "-2500.00");
}

#[test]
fn fixed_point_rounds_a_quotient() {
    // 2.5 minutes, 3.5 minutes: ties go to the even neighbour.
    assert_eq!(format_fixed(150_000_000, 60_000_000, 0), "2");
    assert_eq!(format_fixed(210_000_000, 60_000_000, 0), "4");
    assert_eq!(format_fixed(149_999_999, 60_000_000, 0), "2");
    assert_eq!(format_fixed(150_000_001, 60_000_000, 0), "3");
    // Half an hour and a quarter of an hour, to one decimal.
    assert_eq!(format_fixed(1_800_000_000, 360_000_000, 1), "0.5");
    assert_eq!(format_fixed(900_000_000, 360_000_000, 1), "0.2");
    // A mean of cents.
    assert_eq!(format_fixed(1000, 3, 2), "3.33");
    assert_eq!(format_fixed(2000, 3, 2), "6.67");
}

#[test]
fn fixed_point_keeps_the_sign_of_a_value_that_rounds_to_zero() {
    assert_eq!(format_fixed(-30_000_000, 60_000_000, 0), "-0");
    assert_eq!(format_fixed(-1, 3, 1), "-0.0");
    assert_eq!(format_fixed(-90_000_000, 60_000_000, 0), "-2");
}

#[test]
fn plain_money_drops_trailing_zeros() {
    assert_eq!(format_money_plain(8550), "85.5");
    assert_eq!(format_money_plain(250000), "2500");
    assert_eq!(format_money_plain(89999), "899.99");
    assert_eq!(format_money_plain(5), "0.05");
    assert_eq!(format_money_plain(50), "0.5");
    assert_eq!(format_money_plain(0), "0");
    assert_eq!(format_money_plain(-100), "-1");
    assert_eq!(format_money_plain(-1205), "-12.05");
    assert_eq!(format_money_plain(i64::MIN), "-92233720368547758.08");
}

#[test]
fn strings_are_taken_apart_into_characters() {
    assert_eq!(chars_of(""), Vec::<char>::new());
    assert_eq!(chars_of("abc"), vec!['a', 'b', 'c']);
    assert_eq!(chars_of("\u{26a0}\u{fe0f} x"), vec!['\u{26a0}', '\u{fe0f}', ' ', 'x']);
}

#[test]
fn joining_puts_the_separator_between_parts() {
    let none: Vec<String> = Vec::new();
    assert_eq!(join_strings(&none, "; "), "");
    assert_eq!(join_strings(&vec!["a".to_string()], "; "), "a");
    assert_eq!(join_strings(&vec!["a".to_string(), "b".to_string()], "; "), "a; b");
    assert_eq!(
        join_strings(&vec!["a".to_string(), "".to_string(), "c".to_string()], ","),
        "a,,c"
    );
}

#[test]
fn substring_search_finds_every_position() {
    assert!(str_contains("FRAUD RING DETECTED", "FRAUD RING DETECTED"));
    assert!(str_contains("\u{26a0}\u{fe0f} FRAUD RING DETECTED: x", "FRAUD RING DETECTED"));
    assert!(str_contains("xxFRAUD RING DETECTED", "FRAUD RING DETECTED"));
    assert!(!str_contains("FRAUD RING DETECTE", "FRAUD RING DETECTED"));
    assert!(!str_contains("fraud ring detected", "FRAUD RING DETECTED"));
    assert!(!str_contains("", "F"));
    assert!(str_contains("", ""));
    assert!(str_contains("abc", ""));
    assert!(str_contains("aab", "ab"));
    assert!(!str_contains("ab", "abc"));
}

#[test]
fn text_equality_is_by_characters() {
    assert!(same_text("XX", "XX"));
    assert!(!same_text("XX", "xx"));
    assert!(!same_text("XX", "XXX"));
    assert!(same_text("", ""));
}

#[test]
fn list_membership_is_exact() {
    let list = vec!["groceries".to_string(), "gas".to_string()];
    assert!(list_contains(&list, &"gas".to_string()));
    assert!(!list_contains(&list, &"Gas".to_string()));
    assert!(!list_contains(&Vec::new(), &"gas".to_string()));
}

#[test]
fn vector_literal_has_brackets_and_commas() {
    let components = vec!["0.1".to_string(), "-0.25".to_string(), "3".to_string()];
    assert_eq!(embedding_to_pgvector(&components), "[0.1,-0.25,3]");
    assert_eq!(embedding_to_pgvector(&vec!["1".to_string()]), "[1]");
    assert_eq!(embedding_to_pgvector(&Vec::new()), "[]");
}

#[test]
fn vector_literal_matches_float_rendering() {
    let embedding: Vec<f32> = vec![0.5, -0.25, 1.0];
    let components: Vec<String> = embedding.iter().map(|v| v.to_string()).collect();
    assert_eq!(embedding_to_pgvector(&components), "[0.5,-0.25,1]");
}
