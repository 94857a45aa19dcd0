use hive_kernel::http::{header_end, http_response, parse_request_head, route, Route};

#[test]
fn head_ends_at_first_blank_line() {
    let buf = b"GET / HTTP/1.1\r\nHost: x\r\n\r\nbody\r\n\r\n";
    assert_eq!(header_end(buf), Some(23));
    assert_eq!(header_end(b"GET / HTTP/1.1\r\nHost: x\r\n"), None);
    assert_eq!(header_end(b"\r\n\r"), None);
    assert_eq!(header_end(b"\r\n\r\n"), Some(0));
}

#[test]
fn request_line_and_content_length() {
    let head = b"POST /api/audit HTTP/1.1\r\nHost: x\r\ncOnTeNt-LeNgTh:  42 \r\nContent-Length: 7";
    let h = parse_request_head(head).unwrap();
    assert_eq!(h.method, "POST");
    assert_eq!(h.path, "/api/audit");
    // the first Content-Length header counts
    assert_eq!(h.content_length, 42);
}

#[test]
fn content_length_values() {
    let len = |value: &str| {
        let head = format!("POST /api/audit HTTP/1.1\r\nContent-Length:{}", value);
        parse_request_head(head.as_bytes()).unwrap().content_length
    };
    assert_eq!(len(" +5"), 5);
    assert_eq!(len(" -5"), 0);
    assert_eq!(len(" +"), 0);
    assert_eq!(len(""), 0);
    assert_eq!(len(" 12abc"), 0);
    assert_eq!(len(" 5:6"), 5);
    assert_eq!(len("\t0009\t"), 9);
    assert_eq!(len(" 99999999999999999999999"), 0);
    // no Content-Length header at all
    let h = parse_request_head(b"POST /api/audit HTTP/1.1\r\nHost: x").unwrap();
    assert_eq!(h.content_length, 0);
    // a later valid header is not consulted once the first is malformed
    let h = parse_request_head(b"POST / HTTP/1.1\r\nContent-Length: x\r\nContent-Length: 3").unwrap();
    assert_eq!(h.content_length, 0);
}

#[test]
fn short_request_lines_are_dropped() {
    assert!(parse_request_head(b"").is_none());
    assert!(parse_request_head(b"GET").is_none());
    assert!(parse_request_head(b"   \r\nHost: x").is_none());
    let h = parse_request_head(b"  GET\t/index.html  HTTP/1.1").unwrap();
    assert_eq!(h.method, "GET");
    assert_eq!(h.path, "/index.html");
}

#[test]
fn invalid_utf8_is_replaced() {
    let h = parse_request_head(b"GET /a\xffb HTTP/1.1").unwrap();
    assert_eq!(h.path, "/a\u{fffd}b");
    assert_eq!(route(&h.method, &h.path), Route::NotFound);
}

#[test]
fn routes() {
    assert_eq!(route("GET", "/"), Route::Dashboard);
    assert_eq!(route("GET", "/index.html"), Route::Dashboard);
    assert_eq!(route("POST", "/api/audit"), Route::Audit);
    assert_eq!(route("GET", "/api/audit"), Route::NotFound);
    assert_eq!(route("POST", "/"), Route::NotFound);
    assert_eq!(route("get", "/"), Route::NotFound);
}

#[test]
fn responses_count_body_bytes() {
    assert_eq!(
        http_response("404 Not Found", "text/plain", "404 Not Found"),
        "HTTP/1.1 404 Not Found\r\nContent-Type: text/plain\r\nContent-Length: 13\r\nConnection: close\r\n\r\n404 Not Found"
    );
    let r = http_response("200 OK", "text/html; charset=utf-8", "é✨");
    assert!(r.contains("\r\nContent-Length: 5\r\n"));
    assert!(r.ends_with("\r\n\r\né✨"));
}
