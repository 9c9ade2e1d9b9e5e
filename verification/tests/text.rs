use tls_stub::text::{body_from_contents, request_text};

#[test]
fn valid_request_reads_as_it_was_sent() {
    let request = b"GET / HTTP/1.1\r\nHost: localhost\r\n\r\n";
    assert_eq!(request_text(request), "GET / HTTP/1.1\r\nHost: localhost\r\n\r\n");
}

#[test]
fn empty_request_is_empty_text() {
    assert_eq!(request_text(b""), "");
}

#[test]
fn request_with_many_byte_characters_is_decoded() {
    let request = "caf\u{e9} \u{2603}".as_bytes();
    assert_eq!(request_text(request), "caf\u{e9} \u{2603}");
}

#[test]
fn invalid_bytes_in_a_request_are_replaced() {
    assert_eq!(request_text(&[0xff]), "\u{fffd}");
    assert_eq!(request_text(b"ab\xffcd"), "ab\u{fffd}cd");
    assert_eq!(request_text(b"Hello \xF0\x90\x80World"), "Hello \u{fffd}World");
}

#[test]
fn binary_request_still_has_a_text() {
    let request: Vec<u8> = (0u8..=255).collect();
    let text = request_text(&request);
    assert!(text.starts_with("\u{0}\u{1}\u{2}"));
    assert!(text.contains('\u{fffd}'));
}

#[test]
fn valid_contents_are_served_byte_for_byte() {
    let contents = "{\"ok\": true, \"name\": \"Zo\u{eb}\"}\n".as_bytes();
    assert_eq!(body_from_contents(contents), contents.to_vec());
    assert_eq!(body_from_contents(b""), Vec::<u8>::new());
}

#[test]
fn invalid_contents_become_valid_text() {
    assert_eq!(body_from_contents(&[0xff]), vec![0xef, 0xbf, 0xbd]);
    assert_eq!(body_from_contents(b"a\xffb"), b"a\xef\xbf\xbdb".to_vec());
    let body = body_from_contents(&[0x80, 0x41, 0xc3]);
    assert!(String::from_utf8(body.clone()).is_ok());
    assert_eq!(body, "\u{fffd}A\u{fffd}".as_bytes().to_vec());
}
