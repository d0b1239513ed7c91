use dtu_at_http::parser::{
    build_head_line, contains_at_error, contains_http_fail, contains_http_ready, contains_ok,
    parse_fs_http_code, parse_status_code,
};
use dtu_at_http::scan::{parse_u16_from_prefix, parse_usize_from_prefix};
use dtu_at_http::types::HttpHeader;
use dtu_at_http::util::find_subslice;

#[test]
fn find_subslice_finds_leftmost() {
    assert_eq!(find_subslice(b"abcabc", b"bc"), Some(1));
    assert_eq!(find_subslice(b"abcabc", b"abc"), Some(0));
    assert_eq!(find_subslice(b"abcabc", b"cab"), Some(2));
    assert_eq!(find_subslice(b"abcabc", b"abcabc"), Some(0));
}

#[test]
fn find_subslice_rejects_empty_and_long_needles() {
    assert_eq!(find_subslice(b"abc", b""), None);
    assert_eq!(find_subslice(b"", b""), None);
    assert_eq!(find_subslice(b"ab", b"abc"), None);
    assert_eq!(find_subslice(b"abc", b"x"), None);
}

#[test]
fn head_line_single_header() {
    let headers = [HttpHeader::new("Content-Type", "application/json")];
    let line = build_head_line(&headers, None).unwrap();
    assert_eq!(line, "Content-Type: application/json[0D][0A]");
}

#[test]
fn head_line_empty_without_headers_and_token() {
    assert_eq!(build_head_line(&[], None).unwrap(), "");
}

#[test]
fn head_line_joins_headers_and_token() {
    let headers = [HttpHeader::new("A", "1"), HttpHeader::new("B", "2")];
    let line = build_head_line(&headers, Some("tok")).unwrap();
    assert_eq!(line, "A: 1[0D][0A]B: 2[0D][0A]Authorization: Bearer tok[0D][0A]");
    let only_token = build_head_line(&[], Some("tok")).unwrap();
    assert_eq!(only_token, "Authorization: Bearer tok[0D][0A]");
}

#[test]
fn head_line_rejects_empty_name() {
    let headers = [HttpHeader::new("A", "1"), HttpHeader::new("", "2")];
    assert_eq!(build_head_line(&headers, None), Err("header name 不能为空"));
}

#[test]
fn head_line_length_limit() {
    // "N: " + value + "[0D][0A]" is 3 + value + 8 bytes.
    let fits = "v".repeat(245);
    let headers = [HttpHeader::new("N", &fits)];
    assert_eq!(build_head_line(&headers, None).unwrap().len(), 256);
    let over = "v".repeat(246);
    let headers = [HttpHeader::new("N", &over)];
    assert_eq!(
        build_head_line(&headers, None),
        Err("HTTP 头超过 AT+HTPHD 256 字节限制")
    );
}

#[test]
fn head_line_limit_counts_bytes_not_chars() {
    // 123 two-byte characters: 3 + 246 + 8 = 257 bytes, 134 characters.
    let value = "é".repeat(123);
    let headers = [HttpHeader::new("N", &value)];
    assert!(build_head_line(&headers, None).is_err());
}

#[test]
fn ok_marker_forms() {
    assert!(contains_ok(b"\r\nOK\r\n"));
    assert!(contains_ok(b"garbageOK\n"));
    assert!(contains_ok(b"...FS@HTTP OK:1"));
    assert!(contains_ok(b"x\nOK\ny"));
    assert!(contains_ok(b"OK\r\n"));
    assert!(!contains_ok(b"OK"));
    assert!(!contains_ok(b""));
    assert!(!contains_ok(b"OKAY\r\nmore"));
}

#[test]
fn error_marker_forms() {
    assert!(contains_at_error(b"ERROR\r\n"));
    assert!(!contains_ok(b"ERROR\r\n"));
    assert!(contains_at_error(b"+ERR:3"));
    assert!(!contains_at_error(b"\r\nOK\r\n"));
    assert!(!contains_at_error(b"ERR"));
}

#[test]
fn ready_and_fail_markers() {
    assert!(contains_http_ready(b"abc FS@HTTP OK:1"));
    assert!(!contains_http_ready(b"FS@HTTP OK"));
    assert!(contains_http_fail(b"\r\nFS@HTTP FAIL:7\r\n"));
    assert!(!contains_http_fail(b"FS@HTTP OK:"));
}

#[test]
fn status_from_http_status_line() {
    assert_eq!(parse_status_code(b"HTTP/1.1 404 Not Found\r\n\r\nbody"), Some(404));
}

#[test]
fn status_from_vendor_marker() {
    let raw = b"FS@HTTP SUCCESS CODE:0,200\r\nHELLO\r\nFS@HTTP OK:";
    assert_eq!(parse_status_code(raw), Some(200));
}

#[test]
fn status_uses_last_comma_of_marker_line() {
    assert_eq!(parse_status_code(b"FS@HTTP CLIENT ERROR CODE:1,2,404\r\n500"), Some(404));
    assert_eq!(parse_fs_http_code(b"xxFS@HTTP INFO CODE:7,  101 z", b"FS@HTTP INFO CODE:"), Some(101));
    assert_eq!(parse_fs_http_code(b"FS@HTTP INFO CODE:101", b"FS@HTTP INFO CODE:"), None);
    assert_eq!(parse_fs_http_code(b"FS@HTTP INFO CODE:1,\r\n200", b"FS@HTTP INFO CODE:"), None);
}

#[test]
fn status_marker_priority_and_fallback() {
    let raw = b"FS@HTTP SERVER ERROR CODE:0,500\r\nFS@HTTP INFO CODE:0,100\r\n";
    assert_eq!(parse_status_code(raw), Some(100));
    let raw = b"FS@HTTP INFO CODE:none\r\nHTTP/1.1 201 Created\r\n";
    assert_eq!(parse_status_code(raw), Some(201));
    assert_eq!(parse_status_code(b"nothing here"), None);
    assert_eq!(parse_status_code(b"HTTP/1.1"), None);
}

#[test]
fn number_prefix_parsing() {
    assert_eq!(parse_u16_from_prefix(b"  200 OK"), Some(200));
    assert_eq!(parse_u16_from_prefix(b"abc"), None);
    assert_eq!(parse_u16_from_prefix(b""), None);
    assert_eq!(parse_u16_from_prefix(b"65535"), Some(65535));
    assert_eq!(parse_u16_from_prefix(b"65536"), Some(65535));
    assert_eq!(parse_u16_from_prefix(b"99999999999999999999999"), Some(65535));
    assert_eq!(parse_u16_from_prefix(b"12x34"), Some(12));
    assert_eq!(parse_usize_from_prefix(b"007;"), Some(7));
    assert_eq!(
        parse_usize_from_prefix(b"999999999999999999999999999999"),
        Some(usize::MAX)
    );
}
