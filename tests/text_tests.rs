use container_runtime::text::{i64_to_decimal, parse_i32_in, parse_pid_list, u64_to_decimal};

#[test]
fn decimal_rendering() {
    assert_eq!(u64_to_decimal(0), "0");
    assert_eq!(u64_to_decimal(67108864), "67108864");
    assert_eq!(u64_to_decimal(u64::MAX), "18446744073709551615");
    assert_eq!(i64_to_decimal(-42), "-42");
    assert_eq!(i64_to_decimal(i64::MIN), "-9223372036854775808");
}

#[test]
fn i32_parsing() {
    let b = b"+17-5 2147483647 2147483648 -2147483648 -";
    assert_eq!(parse_i32_in(b, 0, 3), Some(17));
    assert_eq!(parse_i32_in(b, 3, 5), Some(-5));
    assert_eq!(parse_i32_in(b, 6, 16), Some(i32::MAX));
    assert_eq!(parse_i32_in(b, 17, 27), None);
    assert_eq!(parse_i32_in(b, 28, 39), Some(i32::MIN));
    assert_eq!(parse_i32_in(b, 40, 41), None);
    assert_eq!(parse_i32_in(b, 0, 0), None);
}

#[test]
fn pid_lists() {
    assert_eq!(parse_pid_list(b""), Some(vec![]));
    assert_eq!(parse_pid_list(b"1\n22\n333\n"), Some(vec![1, 22, 333]));
    assert_eq!(parse_pid_list(b"1\r\n2"), Some(vec![1, 2]));
    assert_eq!(parse_pid_list(b"1\n\n2\n"), None);
    assert_eq!(parse_pid_list(b"x\n"), None);
    assert_eq!(parse_pid_list(b"\n"), None);
}
