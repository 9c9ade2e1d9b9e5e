use tls_stub::decimal::push_decimal;

fn text_of(n: usize) -> Vec<u8> {
    let mut out = Vec::new();
    push_decimal(&mut out, n);
    out
}

#[test]
fn zero_is_a_single_digit() {
    assert_eq!(text_of(0), b"0".to_vec());
}

#[test]
fn single_digits() {
    assert_eq!(text_of(7), b"7".to_vec());
    assert_eq!(text_of(9), b"9".to_vec());
}

#[test]
fn several_digits_most_significant_first() {
    assert_eq!(text_of(10), b"10".to_vec());
    assert_eq!(text_of(200), b"200".to_vec());
    assert_eq!(text_of(2048), b"2048".to_vec());
    assert_eq!(text_of(65535), b"65535".to_vec());
    assert_eq!(text_of(1_000_000), b"1000000".to_vec());
}

#[test]
fn largest_number_is_written_in_full() {
    assert_eq!(text_of(usize::MAX), usize::MAX.to_string().into_bytes());
}

#[test]
fn decimal_text_matches_the_standard_formatting() {
    for n in (0..5000usize).chain([9_999, 10_000, 99_999, 100_000, 123_456_789]) {
        assert_eq!(text_of(n), n.to_string().into_bytes());
    }
}

#[test]
fn digits_are_appended_to_what_is_there() {
    let mut out = b"length: ".to_vec();
    push_decimal(&mut out, 42);
    assert_eq!(out, b"length: 42".to_vec());
    push_decimal(&mut out, 0);
    assert_eq!(out, b"length: 420".to_vec());
}
