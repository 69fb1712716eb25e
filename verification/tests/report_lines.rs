use shared_counter::report::{numeral_text, read_line, write_line};

#[test]
fn numeral_of_zero_is_one_digit() {
    assert_eq!(numeral_text(0), "0");
}

#[test]
fn numeral_of_each_digit() {
    let digits = ["0", "1", "2", "3", "4", "5", "6", "7", "8", "9"];
    for (v, text) in digits.iter().enumerate() {
        assert_eq!(numeral_text(v as i32), *text);
    }
}

#[test]
fn numeral_has_no_leading_zero() {
    assert_eq!(numeral_text(10), "10");
    assert_eq!(numeral_text(100), "100");
    assert_eq!(numeral_text(1005), "1005");
    assert_eq!(numeral_text(20), "20");
}

#[test]
fn numeral_of_a_negative_value_has_a_minus_sign() {
    assert_eq!(numeral_text(-1), "-1");
    assert_eq!(numeral_text(-120), "-120");
}

#[test]
fn numeral_of_the_extremes() {
    assert_eq!(numeral_text(i32::MAX), "2147483647");
    assert_eq!(numeral_text(i32::MIN), "-2147483648");
}

#[test]
fn numeral_agrees_with_the_usual_formatting() {
    let mut v: i32 = -5000;
    while v <= 5000 {
        assert_eq!(numeral_text(v), format!("{}", v));
        v += 7;
    }
    for v in [i32::MIN, i32::MIN + 1, -1_000_000_007, 999_999_999, 1_000_000_000, i32::MAX - 1] {
        assert_eq!(numeral_text(v), format!("{}", v));
    }
}

#[test]
fn read_line_has_the_exact_wording() {
    assert_eq!(read_line(0), "Read value as 0");
    assert_eq!(read_line(3), "Read value as 3");
    assert_eq!(read_line(20), "Read value as 20");
    assert_eq!(read_line(-4), "Read value as -4");
}

#[test]
fn write_line_has_the_exact_wording() {
    assert_eq!(write_line(1), "Incremented value by 1 to 1");
    assert_eq!(write_line(20), "Incremented value by 1 to 20");
    assert_eq!(write_line(-7), "Incremented value by 1 to -7");
}
