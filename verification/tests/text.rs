use dirlist::text::{decimal_string, pad_left_string};

#[test]
fn decimal_numbers() {
    assert_eq!(decimal_string(0), "0");
    assert_eq!(decimal_string(7), "7");
    assert_eq!(decimal_string(9), "9");
    assert_eq!(decimal_string(10), "10");
    assert_eq!(decimal_string(101), "101");
    assert_eq!(decimal_string(1234567890), "1234567890");
    assert_eq!(decimal_string(u64::MAX), "18446744073709551615");
}

#[test]
fn decimal_agrees_with_the_standard_library() {
    for n in 0u64..2000 {
        assert_eq!(decimal_string(n), n.to_string());
        assert_eq!(decimal_string(n * 7919 + 13), (n * 7919 + 13).to_string());
    }
}

#[test]
fn padding_moves_a_text_to_the_right() {
    assert_eq!(pad_left_string("42", 5), "   42");
    assert_eq!(pad_left_string("12345", 5), "12345");
    assert_eq!(pad_left_string("", 3), "   ");
    assert_eq!(pad_left_string("x", 1), "x");
    assert_eq!(pad_left_string("x", 0), "x");
    assert_eq!(pad_left_string("", 0), "");
}

#[test]
fn padding_never_cuts() {
    assert_eq!(pad_left_string("123456", 5), "123456");
    assert_eq!(pad_left_string("a longer text", 2), "a longer text");
}

#[test]
fn padding_counts_characters() {
    // Two characters, though more bytes: three spaces fill the field of five.
    assert_eq!(pad_left_string("\u{e9}\u{e8}", 5), "   \u{e9}\u{e8}");
}
