use portfolio_api::example::{
    add_numbers, calculate, calculate_length, change_string, divide, read_number_from_string,
    Pair, Rectangle,
};

#[test]
fn add_numbers_adds() {
    assert_eq!(add_numbers(5, 3), 8);
    assert_eq!(add_numbers(-5, 3), -2);
    assert_eq!(add_numbers(i32::MAX, 0), i32::MAX);
    assert_eq!(add_numbers(i32::MIN, i32::MAX), -1);
}

#[test]
fn calculate_gives_sum_and_difference() {
    assert_eq!(calculate(10, 4), (14, 6));
    assert_eq!(calculate(-3, 4), (1, -7));
}

#[test]
fn calculate_length_counts_bytes() {
    assert_eq!(calculate_length(&String::from("borrowing")), 9);
    assert_eq!(calculate_length(&String::new()), 0);
    assert_eq!(calculate_length(&String::from("é")), 2);
}

#[test]
fn change_string_appends_world() {
    let mut s = String::from("hello");
    change_string(&mut s);
    assert_eq!(s, "hello, world!");
    let mut empty = String::new();
    change_string(&mut empty);
    assert_eq!(empty, ", world!");
}

#[test]
fn rectangle_area_and_fit() {
    let rect = Rectangle { width: 30, height: 50 };
    assert_eq!(rect.area(), 1500);
    assert!(rect.can_hold(&Rectangle { width: 10, height: 40 }));
    assert!(!rect.can_hold(&Rectangle { width: 30, height: 40 }));
    assert!(!rect.can_hold(&Rectangle { width: 10, height: 50 }));
    assert!(!rect.can_hold(&Rectangle { width: 40, height: 10 }));
}

#[test]
fn rectangle_square_has_equal_sides() {
    let square = Rectangle::square(20);
    assert_eq!(square, Rectangle { width: 20, height: 20 });
    assert_eq!(square.area(), 400);
    assert_eq!(Rectangle::square(65535).area(), 4294836225);
}

#[test]
fn divide_rounds_toward_zero() {
    assert_eq!(divide(10, 2), Ok(5));
    assert_eq!(divide(7, 2), Ok(3));
    assert_eq!(divide(-7, 2), Ok(-3));
    assert_eq!(divide(7, -2), Ok(-3));
    assert_eq!(divide(-7, -2), Ok(3));
    assert_eq!(divide(0, 5), Ok(0));
    assert_eq!(divide(i32::MIN, 1), Ok(i32::MIN));
    assert_eq!(divide(i32::MIN, 2), Ok(-1073741824));
    assert_eq!(divide(i32::MAX, -1), Ok(-i32::MAX));
}

#[test]
fn divide_by_zero_is_an_error() {
    assert_eq!(divide(10, 0), Err(String::from("Division by zero")));
    assert_eq!(divide(0, 0), Err(String::from("Division by zero")));
}

#[test]
fn read_number_from_string_reads_decimal() {
    assert_eq!(read_number_from_string("42").ok(), Some(42));
    assert_eq!(read_number_from_string("+5").ok(), Some(5));
    assert_eq!(read_number_from_string("-0").ok(), Some(0));
    assert_eq!(read_number_from_string("007").ok(), Some(7));
    assert_eq!(read_number_from_string("2147483647").ok(), Some(i32::MAX));
    assert_eq!(read_number_from_string("-2147483648").ok(), Some(i32::MIN));
}

#[test]
fn read_number_from_string_refuses_other_text() {
    assert!(read_number_from_string("abc").is_err());
    assert!(read_number_from_string("").is_err());
    assert!(read_number_from_string("-").is_err());
    assert!(read_number_from_string("+").is_err());
    assert!(read_number_from_string(" 42").is_err());
    assert!(read_number_from_string("42 ").is_err());
    assert!(read_number_from_string("4_2").is_err());
    assert!(read_number_from_string("--4").is_err());
    assert!(read_number_from_string("٤٢").is_err());
}

#[test]
fn read_number_from_string_refuses_what_does_not_fit() {
    assert!(read_number_from_string("2147483648").is_err());
    assert!(read_number_from_string("-2147483649").is_err());
    assert!(read_number_from_string("99999999999999999999").is_err());
}

#[test]
fn pair_new_keeps_both_values() {
    let pair = Pair::new(5, 10);
    assert_eq!(pair.x, 5);
    assert_eq!(pair.y, 10);
    let texts = Pair::new("a", "b");
    assert_eq!((texts.x, texts.y), ("a", "b"));
}
