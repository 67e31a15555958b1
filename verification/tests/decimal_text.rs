use sql_shell::decimal::{integer_text, natural_text};

#[test]
fn zero_is_a_single_digit() {
    assert_eq!(integer_text(0), "0");
    assert_eq!(natural_text(0), "0");
}

#[test]
fn single_digits() {
    let expected = ["0", "1", "2", "3", "4", "5", "6", "7", "8", "9"];
    for (n, text) in expected.iter().enumerate() {
        assert_eq!(natural_text(n as u64), *text);
        assert_eq!(integer_text(n as i64), *text);
    }
}

#[test]
fn several_digits_most_significant_first() {
    assert_eq!(integer_text(10), "10");
    assert_eq!(integer_text(42), "42");
    assert_eq!(integer_text(100), "100");
    assert_eq!(integer_text(12345), "12345");
    assert_eq!(integer_text(9007199254740993), "9007199254740993");
}

#[test]
fn negative_numbers_carry_a_minus_sign() {
    assert_eq!(integer_text(-1), "-1");
    assert_eq!(integer_text(-10), "-10");
    assert_eq!(integer_text(-907), "-907");
}

#[test]
fn extreme_values() {
    assert_eq!(integer_text(i64::MAX), "9223372036854775807");
    assert_eq!(integer_text(i64::MIN), "-9223372036854775808");
    assert_eq!(natural_text(u64::MAX), "18446744073709551615");
}

#[test]
fn agrees_with_the_standard_formatting() {
    let mut n: i64 = -5000;
    while n <= 5000 {
        assert_eq!(integer_text(n), n.to_string());
        n += 1;
    }
    let mut p: i64 = 1;
    for _ in 0..62 {
        assert_eq!(integer_text(p), p.to_string());
        assert_eq!(integer_text(-p), (-p).to_string());
        assert_eq!(integer_text(p - 1), (p - 1).to_string());
        p *= 2;
    }
}
