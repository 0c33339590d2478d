use portfolio_api::text::{
    decimal_text, extension_of, joined, padded3_text, same_text, signed_decimal_text,
};

#[test]
fn decimal_text_writes_digits_without_leading_zeros() {
    assert_eq!(decimal_text(0), "0");
    assert_eq!(decimal_text(7), "7");
    assert_eq!(decimal_text(10), "10");
    assert_eq!(decimal_text(12345), "12345");
    assert_eq!(decimal_text(u64::MAX), "18446744073709551615");
}

#[test]
fn signed_decimal_text_writes_the_sign() {
    assert_eq!(signed_decimal_text(0), "0");
    assert_eq!(signed_decimal_text(-42), "-42");
    assert_eq!(signed_decimal_text(1700000000000), "1700000000000");
    assert_eq!(signed_decimal_text(i64::MAX), "9223372036854775807");
    assert_eq!(signed_decimal_text(i64::MIN), "-9223372036854775808");
}

#[test]
fn padded3_text_fills_to_three_digits() {
    assert_eq!(padded3_text(0), "000");
    assert_eq!(padded3_text(7), "007");
    assert_eq!(padded3_text(42), "042");
    assert_eq!(padded3_text(99), "099");
    assert_eq!(padded3_text(100), "100");
    assert_eq!(padded3_text(1000), "1000");
}

#[test]
fn extension_is_what_follows_the_last_dot() {
    assert_eq!(extension_of("photo.jpg"), "jpg");
    assert_eq!(extension_of("a.b.c"), "c");
    assert_eq!(extension_of(".period"), "period");
    assert_eq!(extension_of("trailing."), "");
    assert_eq!(extension_of("résumé.pdf"), "pdf");
    assert_eq!(extension_of("файл.картинка"), "картинка");
}

#[test]
fn extension_of_a_name_without_dot_is_the_name() {
    assert_eq!(extension_of("photo"), "photo");
    assert_eq!(extension_of(""), "");
}

#[test]
fn joined_puts_one_text_after_the_other() {
    assert_eq!(joined("", ""), "");
    assert_eq!(joined("Error: ", "boom"), "Error: boom");
    assert_eq!(joined("a", ""), "a");
}

#[test]
fn same_text_compares_characters() {
    assert!(same_text("name", "name"));
    assert!(!same_text("name", "Name"));
    assert!(!same_text("name", "names"));
    assert!(same_text("", ""));
}
