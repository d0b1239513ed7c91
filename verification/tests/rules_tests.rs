use dtu_at_http::command::{channel_command, config_command, push_bytes, push_decimal, CONFIG_COMMANDS};
use dtu_at_http::diag::{bytes_to_hex, response_preview, Preview, PREVIEW_LEN};
use dtu_at_http::exchange::{
    classify_ack, classify_escape, classify_followup, classify_primary, classify_ready,
    classify_reply, finish_response, payload_bytes, short_poll_timeout, validate_request,
    EscapeVerdict, FollowupVerdict, PrimaryVerdict, ReadyVerdict, POLL_FIRST_TIMEOUT_CAP,
    PROBE_FIRST_TIMEOUT,
};
use dtu_at_http::framer::{FrameVerdict, Framer};
use dtu_at_http::scan::{scan_backward, scan_forward, ByteClass};
use dtu_at_http::types::{
    DtuAtError, DtuAtHttpConfig, HttpDataType, HttpHeader, HttpMethod, HttpRequest,
};
use dtu_at_http::util::{ends_with, starts_with, window_matches};

#[test]
fn validation_rejects_each_fault_independently() {
    let good = HttpRequest::new(HttpMethod::Get, "http://h/");
    let config = DtuAtHttpConfig::default();
    assert_eq!(validate_request(&config, &good), Ok(()));

    let mut c = config;
    c.channel = 0;
    assert_eq!(validate_request(&c, &good), Err(DtuAtError::InvalidConfig("channel 必须在 1~4")));
    c.channel = 5;
    assert_eq!(validate_request(&c, &good), Err(DtuAtError::InvalidConfig("channel 必须在 1~4")));
    c.channel = 4;
    assert_eq!(validate_request(&c, &good), Ok(()));

    let empty = HttpRequest::new(HttpMethod::Get, "");
    assert_eq!(validate_request(&config, &empty), Err(DtuAtError::InvalidConfig("url 不能为空")));

    let mut c = config;
    c.max_response_len = 0;
    assert_eq!(
        validate_request(&c, &good),
        Err(DtuAtError::InvalidConfig("max_response_len 不能为 0"))
    );
    c.max_response_len = 1;
    assert_eq!(validate_request(&c, &good), Ok(()));
}

#[test]
fn validation_reports_the_first_fault() {
    let mut c = DtuAtHttpConfig::default();
    c.channel = 9;
    c.max_response_len = 0;
    let empty = HttpRequest::new(HttpMethod::Get, "");
    assert_eq!(validate_request(&c, &empty), Err(DtuAtError::InvalidConfig("channel 必须在 1~4")));
    c.channel = 2;
    assert_eq!(validate_request(&c, &empty), Err(DtuAtError::InvalidConfig("url 不能为空")));
}

#[test]
fn poll_timeout_is_clamped() {
    assert_eq!(POLL_FIRST_TIMEOUT_CAP, 800);
    assert_eq!(PROBE_FIRST_TIMEOUT, 2000);
    assert_eq!(short_poll_timeout(0), 0);
    assert_eq!(short_poll_timeout(700), 700);
    assert_eq!(short_poll_timeout(800), 800);
    assert_eq!(short_poll_timeout(801), 800);
    assert_eq!(short_poll_timeout(u64::MAX), 800);
}

#[test]
fn acknowledgement_verdicts() {
    assert_eq!(classify_ack(b"\r\nOK\r\n"), Ok(()));
    assert_eq!(classify_ack(b"+CREG: 1\r\nOK\r\n"), Ok(()));
    assert_eq!(classify_ack(b"ERROR\r\n"), Err(DtuAtError::AtRejected));
    assert_eq!(classify_ack(b"\r\nOK\r\nERR:1"), Err(DtuAtError::AtRejected));
    assert_eq!(classify_ack(b"whatever"), Err(DtuAtError::BadResponse));
    assert_eq!(classify_ack(b""), Err(DtuAtError::BadResponse));
}

#[test]
fn reply_is_handed_back_when_acknowledged() {
    assert_eq!(classify_reply(b"+CREG: 0,1\r\nOK\r\n".to_vec()), Ok(b"+CREG: 0,1\r\nOK\r\n".to_vec()));
    assert_eq!(classify_reply(b"ERROR".to_vec()), Err(DtuAtError::AtRejected));
    assert_eq!(classify_reply(b"+CREG: 0,1".to_vec()), Err(DtuAtError::BadResponse));
}

#[test]
fn escape_verdicts() {
    assert_eq!(classify_escape(Ok(b"\r\nOK\r\n"), false), EscapeVerdict::Ready);
    assert_eq!(classify_escape(Ok(b"\r\nOK\r\n"), true), EscapeVerdict::Ready);
    assert_eq!(classify_escape(Ok(b"ERROR"), true), EscapeVerdict::Probe);
    assert_eq!(classify_escape(Ok(b"ERROR"), false), EscapeVerdict::Fail(DtuAtError::BadResponse));
    assert_eq!(classify_escape(Ok(b""), true), EscapeVerdict::Probe);
    assert_eq!(classify_escape(Err(DtuAtError::Timeout), true), EscapeVerdict::Probe);
    assert_eq!(
        classify_escape(Err(DtuAtError::Timeout), false),
        EscapeVerdict::Fail(DtuAtError::Timeout)
    );
    assert_eq!(
        classify_escape(Err(DtuAtError::Transport), true),
        EscapeVerdict::Fail(DtuAtError::Transport)
    );
    assert_eq!(
        classify_escape(Err(DtuAtError::ResponseTooLarge), true),
        EscapeVerdict::Fail(DtuAtError::ResponseTooLarge)
    );
}

#[test]
fn ready_verdicts() {
    assert_eq!(classify_ready(b"FS@HTTP OK:1"), ReadyVerdict::Ready);
    assert_eq!(classify_ready(b"booting..."), ReadyVerdict::Pending);
    assert_eq!(classify_ready(b"\r\nOK\r\n"), ReadyVerdict::Pending);
    assert_eq!(classify_ready(b"FS@HTTP FAIL:2"), ReadyVerdict::Fail(DtuAtError::BadResponse));
    assert_eq!(
        classify_ready(b"FS@HTTP OK:1 FS@HTTP FAIL:2"),
        ReadyVerdict::Fail(DtuAtError::BadResponse)
    );
    assert_eq!(
        classify_ready(b"FS@HTTP FAIL:2 ERROR"),
        ReadyVerdict::Fail(DtuAtError::AtRejected)
    );
}

#[test]
fn primary_verdicts() {
    assert_eq!(classify_primary(Ok(b"x"), false), PrimaryVerdict::Accept);
    assert_eq!(classify_primary(Ok(b""), true), PrimaryVerdict::Accept);
    assert_eq!(classify_primary(Err(DtuAtError::Timeout), true), PrimaryVerdict::Resend);
    assert_eq!(
        classify_primary(Err(DtuAtError::Timeout), false),
        PrimaryVerdict::Fail(DtuAtError::Timeout)
    );
    assert_eq!(
        classify_primary(Err(DtuAtError::Transport), true),
        PrimaryVerdict::Fail(DtuAtError::Transport)
    );
}

#[test]
fn followup_verdicts() {
    assert_eq!(classify_followup(Ok(b""), false, 0, 10), FollowupVerdict::PollAgain);
    assert_eq!(classify_followup(Ok(b""), true, 0, 10), FollowupVerdict::Stop);
    assert_eq!(classify_followup(Err(DtuAtError::Timeout), false, 3, 10), FollowupVerdict::PollAgain);
    assert_eq!(classify_followup(Err(DtuAtError::Timeout), true, 3, 10), FollowupVerdict::Stop);
    assert_eq!(
        classify_followup(Err(DtuAtError::Transport), true, 3, 10),
        FollowupVerdict::Fail(DtuAtError::Transport)
    );
    assert_eq!(classify_followup(Ok(b"FS@x"), false, 6, 10), FollowupVerdict::AppendAndPoll);
    assert_eq!(classify_followup(Ok(b"data"), false, 6, 10), FollowupVerdict::AppendAndStop);
    assert_eq!(classify_followup(Ok(b"FS"), true, 6, 10), FollowupVerdict::AppendAndStop);
    assert_eq!(
        classify_followup(Ok(b"FS@xy"), false, 6, 10),
        FollowupVerdict::Fail(DtuAtError::ResponseTooLarge)
    );
    assert_eq!(
        classify_followup(Ok(b"x"), true, 10, 10),
        FollowupVerdict::Fail(DtuAtError::ResponseTooLarge)
    );
    assert_eq!(
        classify_followup(Ok(b"x"), true, 11, 10),
        FollowupVerdict::Fail(DtuAtError::ResponseTooLarge)
    );
    assert_eq!(classify_followup(Ok(b""), true, 11, 10), FollowupVerdict::Stop);
}

#[test]
fn empty_payload_becomes_a_space() {
    assert_eq!(payload_bytes(b""), b" ".to_vec());
    assert_eq!(payload_bytes(b"{\"a\":1}"), b"{\"a\":1}".to_vec());
    assert_eq!(payload_bytes(b" "), b" ".to_vec());
}

#[test]
fn finishing_enforces_the_body_policy() {
    let resp = finish_response(b"HTTP/1.1 200 OK\r\n\r\nhello".to_vec(), true).unwrap();
    assert_eq!(resp.status_code, Some(200));
    assert_eq!(resp.raw, b"HTTP/1.1 200 OK\r\n\r\nhello".to_vec());
    assert_eq!(
        finish_response(b"HTTP/1.1 200 OK\r\n\r\n".to_vec(), true),
        Err(DtuAtError::BodyMissing)
    );
    assert_eq!(
        finish_response(b"HTTP/1.1 201 Created\r\nContent-Length: 0\r\n\r\n".to_vec(), true),
        Err(DtuAtError::BodyMissing)
    );
    assert!(finish_response(b"HTTP/1.1 200 OK\r\n\r\n".to_vec(), false).is_ok());
    assert!(finish_response(b"HTTP/1.1 204 No Content\r\n\r\n".to_vec(), true).is_ok());
    assert!(finish_response(b"HTTP/1.1 304 Not Modified\r\n\r\n".to_vec(), true).is_ok());
    assert!(finish_response(b"HTTP/1.1 500 Oops\r\n\r\n".to_vec(), true).is_ok());
    let resp = finish_response(Vec::new(), true).unwrap();
    assert_eq!(resp.status_code, None);
}

#[test]
fn framer_gathers_until_silence() {
    let mut framer = Framer::new(2000, 250, 10);
    assert_eq!(framer.timeout(), 2000);
    assert_eq!(framer.on_timeout(), FrameVerdict::Fail(DtuAtError::Timeout));
    assert_eq!(framer.on_data(b"abc"), FrameVerdict::Continue);
    assert_eq!(framer.timeout(), 250);
    assert_eq!(framer.on_data(b"defg"), FrameVerdict::Continue);
    assert_eq!(framer.on_timeout(), FrameVerdict::Complete);
    assert_eq!(framer.into_message(), b"abcdefg".to_vec());
}

#[test]
fn framer_never_exceeds_its_cap() {
    let mut framer = Framer::new(1, 1, 5);
    assert_eq!(framer.on_data(b"abc"), FrameVerdict::Continue);
    assert_eq!(framer.on_data(b"def"), FrameVerdict::Fail(DtuAtError::ResponseTooLarge));
    assert_eq!(framer.buf, b"abc".to_vec());
    assert_eq!(framer.on_data(b"de"), FrameVerdict::Continue);
    assert_eq!(framer.buf.len(), 5);
    assert_eq!(framer.on_data(b"f"), FrameVerdict::Fail(DtuAtError::ResponseTooLarge));
    assert_eq!(framer.on_data(b""), FrameVerdict::Complete);
    assert_eq!(framer.into_message(), b"abcde".to_vec());
    let mut framer = Framer::new(1, 1, 0);
    assert_eq!(framer.on_data(b"x"), FrameVerdict::Fail(DtuAtError::ResponseTooLarge));
    let mut overfull = Framer { buf: b"abc".to_vec(), got_any: true, first_timeout: 1, idle_timeout: 1, max_len: 2 };
    assert_eq!(overfull.on_data(b"x"), FrameVerdict::Fail(DtuAtError::ResponseTooLarge));
    assert_eq!(overfull.buf, b"abc".to_vec());
}

#[test]
fn framer_end_of_stream_before_data() {
    let mut framer = Framer::new(7, 9, 5);
    assert_eq!(framer.on_data(b""), FrameVerdict::Complete);
    assert_eq!(framer.timeout(), 7);
    assert_eq!(framer.into_message(), Vec::<u8>::new());
}

#[test]
fn decimal_rendering() {
    let render = |n: u64| {
        let mut out = b"n=".to_vec();
        push_decimal(&mut out, n);
        String::from_utf8(out).unwrap()
    };
    assert_eq!(render(0), "n=0");
    assert_eq!(render(7), "n=7");
    assert_eq!(render(10), "n=10");
    assert_eq!(render(255), "n=255");
    assert_eq!(render(65535), "n=65535");
    assert_eq!(render(u64::MAX), "n=18446744073709551615");
    let mut out = b"ab".to_vec();
    push_bytes(&mut out, b"cd");
    push_bytes(&mut out, b"");
    assert_eq!(out, b"abcd".to_vec());
}

#[test]
fn command_lines() {
    assert_eq!(channel_command("AT+X", 3, b"arg"), b"AT+X3=arg".to_vec());
    assert_eq!(channel_command("AT+X", 200, b""), b"AT+X200=".to_vec());
    assert_eq!(CONFIG_COMMANDS, 7);
    let headers = [HttpHeader::new("A", "b")];
    let request = HttpRequest::new(HttpMethod::Post, "http://\u{e9}/")
        .with_headers(&headers)
        .with_data_type(HttpDataType::Query);
    let mut config = DtuAtHttpConfig::default();
    config.channel = 2;
    config.response_filter_mask = 1;
    config.request_timeout_secs = 30;
    let line = |k: u8| config_command(k, &config, &request).unwrap().map(|l| String::from_utf8(l).unwrap());
    assert_eq!(line(0).as_deref(), Some("AT+WKMOD2=HTTP"));
    assert_eq!(line(1).as_deref(), Some("AT+HTPTP2=POST"));
    assert_eq!(line(2).as_deref(), Some("AT+HTPURL2=http://\u{e9}/"));
    assert_eq!(line(3).as_deref(), Some("AT+HTPHD2=A: b[0D][0A]"));
    assert_eq!(line(4).as_deref(), Some("AT+HTPPK2=1"));
    assert_eq!(line(5).as_deref(), Some("AT+HTPTIM2=30"));
    assert_eq!(line(6).as_deref(), Some("AT+HTPDT2=QUERY"));
    let bare = HttpRequest::new(HttpMethod::Get, "u");
    assert_eq!(config_command(3, &config, &bare), Ok(None));
    assert_eq!(config_command(7, &config, &bare), Ok(None));
    assert_eq!(config_command(255, &config, &request), Ok(None));
    assert_eq!(config_command(1, &config, &bare), Ok(Some(b"AT+HTPTP2=GET".to_vec())));
    assert_eq!(config_command(6, &config, &bare), Ok(Some(b"AT+HTPDT2=BODY".to_vec())));
    let nameless = [HttpHeader::new("", "b")];
    let bad = HttpRequest::new(HttpMethod::Get, "u").with_headers(&nameless);
    assert_eq!(
        config_command(3, &config, &bad),
        Err(DtuAtError::InvalidConfig("header name 不能为空"))
    );
}

#[test]
fn hex_rendering() {
    assert_eq!(bytes_to_hex(b""), "");
    assert_eq!(bytes_to_hex(&[0x00]), "00");
    assert_eq!(bytes_to_hex(&[0x0a, 0xff, 0x9c]), "0A FF 9C");
    assert_eq!(bytes_to_hex(b"AZ"), "41 5A");
}

#[test]
fn previews() {
    assert_eq!(response_preview(b"\r\nOK\r\n"), Preview::Text("\r\nOK\r\n".to_string()));
    assert_eq!(response_preview(b""), Preview::Text(String::new()));
    assert_eq!(response_preview(&[0x4f, 0xff]), Preview::Hex("4F FF".to_string()));
    assert_eq!(PREVIEW_LEN, 160);
    let long = vec![b'a'; 200];
    assert_eq!(response_preview(&long), Preview::Text("a".repeat(160)));
    // A character cut in two by the cap makes the head invalid.
    let mut cut = vec![b'a'; 159];
    cut.extend("\u{e9}".as_bytes());
    match response_preview(&cut) {
        Preview::Hex(hex) => assert!(hex.ends_with("61 C3")),
        other => panic!("unexpected preview {:?}", other),
    }
}

#[test]
fn scans() {
    let data = b"ab, cd,\r\n12x";
    assert_eq!(scan_forward(data, 0, ByteClass::Exactly(b','), true), 2);
    assert_eq!(scan_forward(data, 3, ByteClass::Exactly(b','), true), 6);
    assert_eq!(scan_forward(data, 7, ByteClass::Exactly(b','), true), 12);
    assert_eq!(scan_forward(data, 0, ByteClass::LineBreak, true), 7);
    assert_eq!(scan_forward(data, 7, ByteClass::Gap, false), 9);
    assert_eq!(scan_forward(data, 9, ByteClass::Digit, false), 11);
    assert_eq!(scan_forward(data, 12, ByteClass::Digit, false), 12);
    assert_eq!(scan_forward(data, 13, ByteClass::Digit, false), 12);
    assert_eq!(scan_forward(data, usize::MAX, ByteClass::Digit, true), 12);
    assert_eq!(scan_forward(b" \t x", 0, ByteClass::Blank, false), 3);
    assert_eq!(scan_backward(data, 0, 12, ByteClass::Exactly(b','), true), 7);
    assert_eq!(scan_backward(data, 0, 6, ByteClass::Exactly(b','), true), 3);
    assert_eq!(scan_backward(data, 0, 2, ByteClass::Exactly(b','), true), 0);
    assert_eq!(scan_backward(b"x \n", 0, 3, ByteClass::Whitespace, false), 1);
    assert_eq!(scan_backward(b"x \n", 1, 3, ByteClass::Whitespace, false), 1);
    assert!(ByteClass::Whitespace.contains(0x0c));
    assert!(!ByteClass::Gap.contains(0x0c));
    assert!(!ByteClass::Whitespace.contains(0x0b));
    assert!(ByteClass::Digit.contains(b'0') && ByteClass::Digit.contains(b'9'));
    assert!(!ByteClass::Digit.contains(b'/') && !ByteClass::Digit.contains(b':'));
}

#[test]
fn prefixes_and_suffixes() {
    assert!(starts_with(b"FS@HTTP", b"FS@"));
    assert!(!starts_with(b"FS", b"FS@"));
    assert!(starts_with(b"abc", b""));
    assert!(ends_with(b"xxOK\n", b"OK\n"));
    assert!(!ends_with(b"K\n", b"OK\n"));
    assert!(window_matches(b"abcd", b"bc", 1));
    assert!(!window_matches(b"abcd", b"bc", 2));
    assert!(window_matches(b"abcd", b"", 4));
    assert!(!window_matches(b"abcd", b"", 5));
    assert!(!window_matches(b"abcd", b"cde", 2));
    assert!(!window_matches(b"abcd", b"d", usize::MAX));
}

#[test]
fn request_builders() {
    let request = HttpRequest::new(HttpMethod::Get, "http://h/");
    assert_eq!(request.method, HttpMethod::Get);
    assert_eq!(request.url, "http://h/");
    assert!(request.headers.is_empty());
    assert!(request.body.is_empty());
    assert_eq!(request.bearer_token, None);
    assert_eq!(request.data_type, HttpDataType::Body);
    let headers = [HttpHeader::new("A", "b"), HttpHeader::new("C", "d")];
    let request = request
        .with_headers(&headers)
        .with_body(b"xyz")
        .with_bearer_token("tok")
        .with_data_type(HttpDataType::Query);
    assert_eq!(request.headers, &headers[..]);
    assert_eq!(request.headers[1], HttpHeader { name: "C", value: "d" });
    assert_eq!(request.body, b"xyz");
    assert_eq!(request.bearer_token, Some("tok"));
    assert_eq!(request.data_type, HttpDataType::Query);
    assert_eq!(request.method, HttpMethod::Get);
    assert_eq!(request.url, "http://h/");
    assert_eq!(HttpMethod::Get.as_at(), "GET");
    assert_eq!(HttpMethod::Post.as_at(), "POST");
    assert_eq!(HttpDataType::Body.as_at(), "BODY");
    assert_eq!(HttpDataType::Query.as_at(), "QUERY");
}

#[test]
fn default_configuration() {
    let c = DtuAtHttpConfig::default();
    assert_eq!(c.channel, 1);
    assert_eq!(c.request_timeout_secs, 10);
    assert_eq!(c.response_filter_mask, 3);
    assert!(c.require_body_on_success);
    assert_eq!(c.cmd_guard_time, 1200);
    assert_eq!(c.at_first_timeout, 2000);
    assert_eq!(c.at_idle_timeout, 250);
    assert_eq!(c.http_first_timeout, 60_000);
    assert_eq!(c.http_idle_timeout, 300);
    assert_eq!(c.http_followup_first_timeout, 700);
    assert_eq!(c.http_followup_timeout, 20_000);
    assert_eq!(c.http_ready_timeout, 25_000);
    assert_eq!(c.enter_cmd_timeout, 60_000);
    assert_eq!(c.enter_cmd_poll, 2000);
    assert_eq!(c.max_request_attempts, 2);
    assert!(!c.enable_modem_debug_urc);
    assert!(!c.query_link_status_before_send);
    assert!(!c.retry_payload_on_http_timeout);
    assert_eq!(c.post_entm_settle_time, 500);
    assert_eq!(c.max_response_len, 4096);
    assert!(c.enable_command_probe_fallback);
}

#[test]
fn error_messages() {
    assert_eq!(DtuAtError::Transport.as_str(), "transport error");
    assert_eq!(DtuAtError::Timeout.as_str(), "timeout");
    assert_eq!(DtuAtError::WriteZero.as_str(), "write returned zero");
    assert_eq!(DtuAtError::InvalidConfig("why").as_str(), "why");
    assert_eq!(DtuAtError::AtRejected.as_str(), "AT rejected (ERR/ERROR)");
    assert_eq!(DtuAtError::BadResponse.as_str(), "AT response missing OK");
    assert_eq!(DtuAtError::ResponseTooLarge.as_str(), "response too large");
    assert_eq!(DtuAtError::BodyMissing.as_str(), "http body missing");
    assert_eq!(DtuAtError::HttpFail(3).as_str(), "DTU HTTP FAIL (TLS/connection error)");
}
