use vitals_monitor::db::{param_rows, DbError, ParamRow};
use vitals_monitor::models::VitalSigns;
use vitals_monitor::text::{
    append_decimal, append_thousandths, chars_of, contains, decimal_string, join_strings,
    parse_i32,
};

fn thousandths(n: i64) -> String {
    let mut s = String::new();
    append_thousandths(&mut s, n);
    s
}

#[test]
fn decimal_numerals() {
    assert_eq!(decimal_string(0), "0");
    assert_eq!(decimal_string(7), "7");
    assert_eq!(decimal_string(10), "10");
    assert_eq!(decimal_string(-1), "-1");
    assert_eq!(decimal_string(2147483647), "2147483647");
    assert_eq!(decimal_string(-2147483648), "-2147483648");
    assert_eq!(decimal_string(i64::MAX), "9223372036854775807");
    assert_eq!(decimal_string(i64::MIN), "-9223372036854775808");
    for n in [-12345i64, -100, -9, 0, 9, 100, 1009, 987654321] {
        assert_eq!(decimal_string(n), n.to_string());
    }
}

#[test]
fn append_decimal_keeps_what_stands_before() {
    let mut s = "HR:".to_string();
    append_decimal(&mut s, 70);
    assert_eq!(s, "HR:70");
    append_decimal(&mut s, -3);
    assert_eq!(s, "HR:70-3");
}

#[test]
fn fixed_point_numerals() {
    assert_eq!(thousandths(0), "0.000");
    assert_eq!(thousandths(7), "0.007");
    assert_eq!(thousandths(-7), "-0.007");
    assert_eq!(thousandths(1500), "1.500");
    assert_eq!(thousandths(-1500), "-1.500");
    assert_eq!(thousandths(36600), "36.600");
    assert_eq!(thousandths(40000), "40.000");
    assert_eq!(thousandths(999), "0.999");
    assert_eq!(thousandths(1000), "1.000");
    assert_eq!(thousandths(1001), "1.001");
    assert_eq!(thousandths(12345678), "12345.678");
    assert_eq!(thousandths(i64::MIN), "-9223372036854775.808");
}

#[test]
fn join_puts_the_separator_between_neighbours() {
    let parts = |v: &[&str]| v.iter().map(|s| s.to_string()).collect::<Vec<String>>();
    assert_eq!(join_strings(&parts(&[]), "; "), "");
    assert_eq!(join_strings(&parts(&["a"]), "; "), "a");
    assert_eq!(join_strings(&parts(&["a", "b"]), "; "), "a; b");
    assert_eq!(join_strings(&parts(&["a", "", "c"]), ","), "a,,c");
    assert_eq!(join_strings(&parts(&["", ""]), "-"), "-");
}

#[test]
fn contains_finds_a_pattern_anywhere() {
    assert!(contains("client disconnected", "disconnected"));
    assert!(contains("disconnected", "disconnected"));
    assert!(contains("abc", ""));
    assert!(contains("", ""));
    assert!(contains("aab", "ab"));
    assert!(contains("gr\u{fc}\u{df}e disconnected \u{2603}", "disconnected"));
    assert!(!contains("", "a"));
    assert!(!contains("disconnecte", "disconnected"));
    assert!(!contains("abc", "ac"));
}

#[test]
fn chars_of_keeps_every_character() {
    assert_eq!(chars_of(""), Vec::<char>::new());
    assert_eq!(chars_of("a\u{e9}\u{2603}"), vec!['a', '\u{e9}', '\u{2603}']);
}

#[test]
fn parse_i32_reads_signed_numerals() {
    assert_eq!(parse_i32("0"), Some(0));
    assert_eq!(parse_i32("-0"), Some(0));
    assert_eq!(parse_i32("+17"), Some(17));
    assert_eq!(parse_i32("0042"), Some(42));
    assert_eq!(parse_i32("2147483647"), Some(i32::MAX));
    assert_eq!(parse_i32("-2147483648"), Some(i32::MIN));
    assert_eq!(parse_i32("2147483648"), None);
    assert_eq!(parse_i32("+2147483648"), None);
    assert_eq!(parse_i32("-2147483649"), None);
    assert_eq!(parse_i32("21474836470"), None);
    for text in ["", "-", "+", "+-1", "1 ", " 1", "1a", "a", "1.0", "\u{661}", "1,0"] {
        assert_eq!(parse_i32(text), None);
    }
}

#[test]
fn parse_i32_agrees_with_the_numerals_written() {
    for n in [i32::MIN, -1000, -1, 0, 1, 9, 10, 99, 100, 123456789, i32::MAX] {
        assert_eq!(parse_i32(&decimal_string(i64::from(n))), Some(n));
        assert_eq!(parse_i32(&n.to_string()), Some(n));
    }
}

#[test]
fn param_rows_carry_the_number_of_the_reading() {
    let mut vitals = VitalSigns::new("patient1".to_string());
    assert!(param_rows(42, &vitals).is_empty());
    vitals.additional_params =
        vec![("CVP".to_string(), 8200), ("PAP_systolic".to_string(), 21750)];
    assert_eq!(
        param_rows(42, &vitals),
        vec![
            ParamRow { vitals_id: 42, param_name: "CVP".to_string(), param_value: 8200 },
            ParamRow { vitals_id: 42, param_name: "PAP_systolic".to_string(), param_value: 21750 },
        ]
    );
}

#[test]
fn db_error_sentence() {
    let error = DbError::OperationError("no such table: vitals".to_string());
    assert_eq!(error.message(), "Database operation failed: no such table: vitals");
}
