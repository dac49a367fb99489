use route_proxy::diagnostics::{format_body, format_headers, format_message};
use route_proxy::message::Header;
use route_proxy::request_handler::find_broken_pattern;
use route_proxy::settings::SvcDetails;

fn header(name: &str, value: &[u8]) -> Header {
    Header { name: name.to_string(), value: value.to_vec() }
}

fn rule_with(pattern: &str) -> SvcDetails {
    SvcDetails::new(pattern.to_string(), "http://b:1".to_string(), Vec::new(), String::new())
}

#[test]
fn header_lines_keep_order_and_duplicates() {
    let headers =
        vec![header("accept", b"*/*"), header("x-a", b"1"), header("x-a", b"two\twords")];
    assert_eq!(format_headers(&headers), "accept: */*\nx-a: 1\nx-a: two\twords\n");
    assert_eq!(format_headers(&Vec::new()), "");
}

#[test]
fn header_value_outside_visible_ascii_gets_placeholder() {
    assert_eq!(format_headers(&vec![header("x", &[0xff])]), "x: <invalid UTF-8>\n");
    assert_eq!(format_headers(&vec![header("x", &[b'a', 127])]), "x: <invalid UTF-8>\n");
    assert_eq!(format_headers(&vec![header("x", &[b'a', 10])]), "x: <invalid UTF-8>\n");
    assert_eq!(format_headers(&vec![header("x", "é".as_bytes())]), "x: <invalid UTF-8>\n");
    assert_eq!(format_headers(&vec![header("x", b" ~")]), "x:  ~\n");
}

#[test]
fn body_that_is_no_text_gets_placeholder() {
    assert_eq!(format_body(&b"hello".to_vec()), "hello");
    assert_eq!(format_body(&"héllo ✓".as_bytes().to_vec()), "héllo ✓");
    assert_eq!(format_body(&vec![0xc3, 0x28]), "<invalid UTF-8>");
    assert_eq!(format_body(&Vec::new()), "");
}

#[test]
fn message_text_has_label_headers_and_body() {
    let headers = vec![header("host", b"a")];
    assert_eq!(
        format_message("Response", &headers, &b"ok".to_vec()),
        "Response:\nHeaders:\nhost: a\n\nBody:\nok"
    );
}

#[test]
fn broken_pattern_is_found_at_load_time() {
    assert_eq!(find_broken_pattern(&Vec::new()), None);
    assert_eq!(find_broken_pattern(&vec![rule_with("^/a"), rule_with("b$")]), None);
    assert_eq!(
        find_broken_pattern(&vec![rule_with("^/a"), rule_with("("), rule_with("[")]),
        Some(1)
    );
}
