use inquire::text::{
    ascii_lower, center, decimal, digit, int_log10, lowercase, pad_left, repeat_char,
    signed_decimal,
};

fn chars(text: &str) -> Vec<char> {
    text.chars().collect()
}

#[test]
fn digits_and_decimals() {
    assert_eq!(digit(0), '0');
    assert_eq!(digit(9), '9');
    assert_eq!(decimal(0), chars("0"));
    assert_eq!(decimal(7), chars("7"));
    assert_eq!(decimal(10), chars("10"));
    assert_eq!(decimal(12345), chars("12345"));
    assert_eq!(decimal(usize::MAX), chars(&usize::MAX.to_string()));
}

#[test]
fn signed_decimals() {
    assert_eq!(signed_decimal(0), chars("0"));
    assert_eq!(signed_decimal(2024), chars("2024"));
    assert_eq!(signed_decimal(-44), chars("-44"));
    assert_eq!(signed_decimal(i32::MIN), chars("-2147483648"));
    assert_eq!(signed_decimal(i32::MAX), chars("2147483647"));
}

#[test]
fn number_of_digits() {
    assert_eq!(int_log10(0), 0);
    assert_eq!(int_log10(1), 1);
    assert_eq!(int_log10(9), 1);
    assert_eq!(int_log10(10), 2);
    assert_eq!(int_log10(999), 3);
    assert_eq!(int_log10(1000), 4);
    assert_eq!(int_log10(usize::MAX), usize::MAX.to_string().len());
}

#[test]
fn padding_and_centering() {
    assert_eq!(pad_left(&chars("7"), 3, ' '), "  7");
    assert_eq!(pad_left(&chars("7"), 3, '0'), "007");
    assert_eq!(pad_left(&chars("1234"), 3, ' '), "1234");
    assert_eq!(pad_left(&chars(""), 0, ' '), "");
    assert_eq!(center(&chars("ab"), 6), "  ab  ");
    assert_eq!(center(&chars("abc"), 6), " abc  ");
    assert_eq!(center(&chars("abcdefg"), 6), "abcdefg");
    assert_eq!(center(&chars("march 2024"), 20), format!("{:^20}", "march 2024"));
    assert_eq!(center(&chars("september 2024"), 20), format!("{:^20}", "september 2024"));
    assert_eq!(repeat_char('*', 3), "***");
    assert_eq!(repeat_char('*', 0), "");
}

#[test]
fn ascii_lower_case() {
    assert_eq!(ascii_lower('A'), 'a');
    assert_eq!(ascii_lower('Z'), 'z');
    assert_eq!(ascii_lower('a'), 'a');
    assert_eq!(ascii_lower('@'), '@');
    assert_eq!(ascii_lower('['), '[');
    assert_eq!(ascii_lower('\u{c9}'), '\u{c9}');
    assert_eq!(lowercase("March 1st"), chars("march 1st"));
}
