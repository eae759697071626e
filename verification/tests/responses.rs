use hello_http::request::Classification;
use hello_http::response::{push_decimal, render, respond, response_for, ASCII_ZERO};

const OK: &[u8] =
    b"HTTP/1.1 200 OK\r\nContent-Length: 13\r\nContent-Type: text/plain\r\n\r\nHello, World!";
const NOT_FOUND: &[u8] =
    b"HTTP/1.1 404 NOT FOUND\r\nContent-Length: 9\r\nContent-Type: text/plain\r\n\r\nNot Found";

fn decimal(n: usize) -> Vec<u8> {
    let mut out = Vec::new();
    push_decimal(&mut out, n);
    out
}

/// Splits a response into status line, announced body length and body.
fn parts(response: &[u8]) -> (Vec<u8>, usize, Vec<u8>) {
    let blank = response.windows(4).position(|w| w == b"\r\n\r\n").unwrap();
    let head = std::str::from_utf8(&response[..blank]).unwrap();
    let mut lines = head.split("\r\n");
    let status_line = lines.next().unwrap().as_bytes().to_vec();
    let length = lines.next().unwrap().strip_prefix("Content-Length: ").unwrap();
    assert_eq!(lines.next(), Some("Content-Type: text/plain"));
    assert_eq!(lines.next(), None);
    (status_line, length.parse().unwrap(), response[blank + 4..].to_vec())
}

#[test]
fn root_request_gets_the_exact_ok_response() {
    assert_eq!(respond(b"GET / HTTP/1.1\r\nHost: x\r\n\r\n"), OK);
}

#[test]
fn other_path_gets_the_exact_not_found_response() {
    assert_eq!(respond(b"GET /foo HTTP/1.1\r\n\r\n"), NOT_FOUND);
}

#[test]
fn empty_request_gets_the_not_found_response() {
    assert_eq!(respond(b""), NOT_FOUND);
}

#[test]
fn malformed_request_gets_the_not_found_response() {
    assert_eq!(respond(b"\xff\xfe\xfd"), NOT_FOUND);
    assert_eq!(respond(&[0u8; 1024]), NOT_FOUND);
}

#[test]
fn http_1_0_root_request_gets_the_ok_response() {
    assert_eq!(respond(b"GET / HTTP/1.0\r\n\r\n"), OK);
}

#[test]
fn each_class_has_its_fixed_response() {
    assert_eq!(response_for(Classification::Match), OK);
    assert_eq!(response_for(Classification::NoMatch), NOT_FOUND);
}

#[test]
fn status_line_and_body_follow_the_class() {
    let (status_line, length, body) = parts(&response_for(Classification::Match));
    assert_eq!(status_line, b"HTTP/1.1 200 OK");
    assert_eq!(body, b"Hello, World!");
    assert_eq!(length, 13);
    let (status_line, length, body) = parts(&response_for(Classification::NoMatch));
    assert_eq!(status_line, b"HTTP/1.1 404 NOT FOUND");
    assert_eq!(body, b"Not Found");
    assert_eq!(length, 9);
}

#[test]
fn render_lays_out_status_headers_and_body() {
    assert_eq!(
        render(b"HTTP/1.1 200 OK", b"hi"),
        b"HTTP/1.1 200 OK\r\nContent-Length: 2\r\nContent-Type: text/plain\r\n\r\nhi"
    );
}

#[test]
fn render_announces_an_empty_body_as_zero() {
    assert_eq!(
        render(b"HTTP/1.1 204 No Content", b""),
        b"HTTP/1.1 204 No Content\r\nContent-Length: 0\r\nContent-Type: text/plain\r\n\r\n"
    );
}

#[test]
fn render_counts_bytes_not_characters() {
    let body = "\u{20ac}\u{e9}".as_bytes();
    assert_eq!(body.len(), 5);
    assert_eq!(
        render(b"HTTP/1.1 200 OK", body),
        b"HTTP/1.1 200 OK\r\nContent-Length: 5\r\nContent-Type: text/plain\r\n\r\n\xe2\x82\xac\xc3\xa9"
    );
}

#[test]
fn announced_length_is_the_length_of_the_body() {
    for len in [0usize, 1, 9, 10, 13, 99, 100, 101, 999, 1000, 1024, 65536] {
        let body = vec![b'x'; len];
        let response = render(b"HTTP/1.1 200 OK", &body);
        let (status_line, announced, rest) = parts(&response);
        assert_eq!(status_line, b"HTTP/1.1 200 OK");
        assert_eq!(announced, len);
        assert_eq!(rest, body);
    }
}

#[test]
fn body_is_carried_unchanged() {
    let body: Vec<u8> = (0..=255u8).collect();
    let response = render(b"S", &body);
    assert!(response.starts_with(b"S\r\nContent-Length: 256\r\nContent-Type: text/plain\r\n\r\n"));
    assert!(response.ends_with(&body));
    assert_eq!(response.len(), 1 + 2 + 16 + 3 + 2 + 24 + 4 + 256);
}

#[test]
fn decimal_of_small_numbers() {
    assert_eq!(decimal(0), b"0");
    assert_eq!(decimal(7), b"7");
    assert_eq!(decimal(9), b"9");
    assert_eq!(decimal(10), b"10");
    assert_eq!(decimal(13), b"13");
    assert_eq!(decimal(99), b"99");
    assert_eq!(decimal(100), b"100");
    assert_eq!(decimal(1024), b"1024");
    assert_eq!(decimal(1_000_000), b"1000000");
}

#[test]
fn decimal_of_the_largest_number() {
    assert_eq!(decimal(usize::MAX), usize::MAX.to_string().as_bytes());
}

#[test]
fn decimal_agrees_with_the_standard_formatting() {
    let mut n: usize = 1;
    while n < usize::MAX / 7 {
        assert_eq!(decimal(n), n.to_string().as_bytes());
        assert_eq!(decimal(n - 1), (n - 1).to_string().as_bytes());
        n *= 7;
    }
}

#[test]
fn decimal_is_appended_to_what_is_there() {
    let mut out = b"n=".to_vec();
    push_decimal(&mut out, 405);
    assert_eq!(out, b"n=405");
    push_decimal(&mut out, 0);
    assert_eq!(out, b"n=4050");
}

#[test]
fn ascii_zero_is_the_digit_zero() {
    assert_eq!(ASCII_ZERO, b'0');
}
