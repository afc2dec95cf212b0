use dsh_desktop::probe::{answer_is_ok, last_colon_field, parse_port, parse_url_line, port_of_url, probe_request};

#[test]
fn url_line_is_recognised() {
    assert_eq!(parse_url_line("dsh web: http://127.0.0.1:53001").as_deref(), Some("http://127.0.0.1:53001"));
    assert_eq!(
        parse_url_line("dsh web: http://127.0.0.1:53001 (LAN: http://192.168.1.5:53001)").as_deref(),
        Some("http://127.0.0.1:53001")
    );
}

#[test]
fn other_lines_are_not_urls() {
    assert_eq!(parse_url_line("loading plugins..."), None);
    assert_eq!(parse_url_line(" dsh web: http://127.0.0.1:1"), None);
    assert_eq!(parse_url_line("dsh web: http://localhost:1"), None);
    assert_eq!(parse_url_line("dsh web: http://127.0.0.1:"), None);
    assert_eq!(parse_url_line(""), None);
}

#[test]
fn ports_parse_like_u16() {
    assert_eq!(parse_port("53001"), Some(53001));
    assert_eq!(parse_port("+80"), Some(80));
    assert_eq!(parse_port("0065535"), Some(65535));
    assert_eq!(parse_port("65536"), None);
    assert_eq!(parse_port("99999999999"), None);
    assert_eq!(parse_port(""), None);
    assert_eq!(parse_port("+"), None);
    assert_eq!(parse_port("-1"), None);
    assert_eq!(parse_port("8a"), None);
    assert_eq!(parse_port("８０"), None);
}

#[test]
fn port_of_url_takes_last_field() {
    assert_eq!(port_of_url("http://127.0.0.1:53001"), Some(53001));
    assert_eq!(port_of_url("http://127.0.0.1"), None);
    assert_eq!(port_of_url("1420"), Some(1420));
    assert_eq!(last_colon_field("a:b:c"), "c");
    assert_eq!(last_colon_field("abc"), "abc");
    assert_eq!(last_colon_field("abc:"), "");
}

#[test]
fn probe_request_text() {
    assert_eq!(probe_request(53001), "GET / HTTP/1.0\r\nHost: 127.0.0.1:53001\r\n\r\n");
    assert_eq!(probe_request(0), "GET / HTTP/1.0\r\nHost: 127.0.0.1:0\r\n\r\n");
}

#[test]
fn only_2xx_and_3xx_answers_pass() {
    assert!(answer_is_ok(b"HTTP/1.1 200 OK\r\n"));
    assert!(answer_is_ok(b"HTTP/1.0 302 Found"));
    assert!(answer_is_ok(b"HTTP/1.1 2"));
    assert!(!answer_is_ok(b"HTTP/1.1 404 Not Found"));
    assert!(!answer_is_ok(b"HTTP/1.1 500"));
    assert!(!answer_is_ok(b"HTTP/2 200"));
    assert!(!answer_is_ok(b"HTTP/1.1 "));
    assert!(!answer_is_ok(b""));
}
