use agrotour_ai::decimal::decimal_text;

#[test]
fn decimal_text_of_zero() {
    assert_eq!(decimal_text(0), "0");
}

#[test]
fn decimal_text_of_single_digits() {
    let expected = ["0", "1", "2", "3", "4", "5", "6", "7", "8", "9"];
    for (n, text) in expected.iter().enumerate() {
        assert_eq!(decimal_text(n as i32), *text);
    }
}

#[test]
fn decimal_text_keeps_inner_and_trailing_zeros() {
    assert_eq!(decimal_text(10), "10");
    assert_eq!(decimal_text(40), "40");
    assert_eq!(decimal_text(1005), "1005");
    assert_eq!(decimal_text(1000000), "1000000");
}

#[test]
fn decimal_text_of_negative_numbers() {
    assert_eq!(decimal_text(-1), "-1");
    assert_eq!(decimal_text(-40), "-40");
    assert_eq!(decimal_text(-120), "-120");
}

#[test]
fn decimal_text_of_the_extremes() {
    assert_eq!(decimal_text(i32::MAX), "2147483647");
    assert_eq!(decimal_text(i32::MIN), "-2147483648");
}

#[test]
fn decimal_text_agrees_with_display() {
    let mut n: i32 = -70000;
    while n <= 70000 {
        assert_eq!(decimal_text(n), format!("{}", n));
        n += 7;
    }
    let mut k: i64 = i32::MIN as i64;
    while k <= i32::MAX as i64 {
        assert_eq!(decimal_text(k as i32), format!("{}", k));
        k += 9876543;
    }
}

#[test]
fn decimal_text_reads_back_as_the_number() {
    for n in [0, 5, -5, 99, 100, -100, 123456789, i32::MAX, i32::MIN] {
        assert_eq!(decimal_text(n).parse::<i32>(), Ok(n));
    }
}

#[test]
fn decimal_text_differs_for_different_numbers() {
    assert_ne!(decimal_text(1), decimal_text(-1));
    assert_ne!(decimal_text(10), decimal_text(100));
    assert_ne!(decimal_text(12), decimal_text(21));
}
