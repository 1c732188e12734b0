use minus::number::{count_digits, digit_char, push_decimal, push_right_aligned, push_spaces};

#[test]
fn digit_char_gives_the_ten_digits() {
    let digits: String = (0..10u8).map(digit_char).collect();
    assert_eq!(digits, "0123456789");
}

#[test]
fn count_digits_counts_decimal_digits() {
    assert_eq!(count_digits(0), 1);
    assert_eq!(count_digits(9), 1);
    assert_eq!(count_digits(10), 2);
    assert_eq!(count_digits(99), 2);
    assert_eq!(count_digits(100), 3);
    assert_eq!(count_digits(110), 3);
    assert_eq!(count_digits(usize::MAX), usize::MAX.to_string().len());
}

#[test]
fn push_decimal_appends_the_numeral() {
    for n in [0usize, 7, 10, 42, 100, 9999, 10000, 65535, usize::MAX] {
        let mut out = String::from("n=");
        push_decimal(&mut out, n);
        assert_eq!(out, format!("n={}", n));
    }
}

#[test]
fn push_spaces_appends_spaces() {
    let mut out = String::from("x");
    push_spaces(&mut out, 3);
    assert_eq!(out, "x   ");
    push_spaces(&mut out, 0);
    assert_eq!(out, "x   ");
}

#[test]
fn push_right_aligned_pads_on_the_left() {
    let mut out = String::new();
    push_right_aligned(&mut out, 96, 3);
    assert_eq!(out, " 96");
    let mut out = String::new();
    push_right_aligned(&mut out, 100, 3);
    assert_eq!(out, "100");
    let mut out = String::new();
    push_right_aligned(&mut out, 7, 1);
    assert_eq!(out, "7");
    // A numeral that is wider than the field is not cut.
    let mut out = String::new();
    push_right_aligned(&mut out, 1234, 2);
    assert_eq!(out, "1234");
    let mut out = String::new();
    push_right_aligned(&mut out, 5, 0);
    assert_eq!(out, "5");
}
