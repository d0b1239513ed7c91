//! The request, response, configuration and error model of the client.

use crate::body::{declared_length, extract_body, http_body_of, parse_content_length, split_framed};
use vstd::prelude::*;

verus! {

/// HTTP request method. The modem's command set knows GET and POST only.
#[derive(Debug, Clone, Copy, PartialEq, Eq, Structural)]
pub enum HttpMethod {
    Get,
    Post,
}

impl HttpMethod {
    /// The method as the set-method command spells it.
    pub open spec fn at_name(self) -> Seq<char> {
        match self {
            HttpMethod::Get => "GET"@,
            HttpMethod::Post => "POST"@,
        }
    }

    /// The method as the set-method command spells it.
    pub fn as_at(self) -> (r: &'static str)
        ensures
            r@ == self.at_name(),
    {
        match self {
            HttpMethod::Get => "GET",
            HttpMethod::Post => "POST",
        }
    }
}

/// How the modem hands the payload to the server: as the request body or as
/// the query string.
#[derive(Debug, Clone, Copy, PartialEq, Eq, Structural)]
pub enum HttpDataType {
    Body,
    Query,
}

impl HttpDataType {
    /// The tag as the set-data-type command spells it.
    pub open spec fn at_name(self) -> Seq<char> {
        match self {
            HttpDataType::Body => "BODY"@,
            HttpDataType::Query => "QUERY"@,
        }
    }

    /// The tag as the set-data-type command spells it.
    pub fn as_at(self) -> (r: &'static str)
        ensures
            r@ == self.at_name(),
    {
        match self {
            HttpDataType::Body => "BODY",
            HttpDataType::Query => "QUERY",
        }
    }
}

/// One request header. The order of headers in a request is the order in
/// which they reach the wire.
#[derive(Debug, Clone, Copy, PartialEq, Eq)]
pub struct HttpHeader<'a> {
    pub name: &'a str,
    pub value: &'a str,
}

impl<'a> HttpHeader<'a> {
    /// A header with the given name, such as `"Content-Type"`, and value.
    pub fn new(name: &'a str, value: &'a str) -> (h: Self)
        ensures
            h.name == name,
            h.value == value,
    {
        Self { name, value }
    }
}

/// A borrowed view of one HTTP request, valid for the call that sends it.
#[derive(Debug, Clone, Copy)]
pub struct HttpRequest<'a> {
    pub method: HttpMethod,
    pub url: &'a str,
    pub headers: &'a [HttpHeader<'a>],
    pub body: &'a [u8],
    pub bearer_token: Option<&'a str>,
    pub data_type: HttpDataType,
}

impl<'a> HttpRequest<'a> {
    /// A request with no headers, an empty body, no bearer token and the
    /// payload sent as the body.
    pub fn new(method: HttpMethod, url: &'a str) -> (r: Self)
        ensures
            r.method == method,
            r.url == url,
            r.headers@.len() == 0,
            r.body@.len() == 0,
            r.bearer_token is None,
            r.data_type == HttpDataType::Body,
    {
        Self {
            method,
            url,
            headers: &[],
            body: &[],
            bearer_token: None,
            data_type: HttpDataType::Body,
        }
    }

    /// The same request with `headers` as its header list.
    pub fn with_headers(self, headers: &'a [HttpHeader<'a>]) -> (r: Self)
        ensures
            r == (Self { headers, ..self }),
    {
        let mut r = self;
        r.headers = headers;
        r
    }

    /// The same request with `body` as its payload.
    pub fn with_body(self, body: &'a [u8]) -> (r: Self)
        ensures
            r == (Self { body, ..self }),
    {
        let mut r = self;
        r.body = body;
        r
    }

    /// The same request with a bearer token, rendered as an `Authorization`
    /// header after the listed headers.
    pub fn with_bearer_token(self, token: &'a str) -> (r: Self)
        ensures
            r == (Self { bearer_token: Some(token), ..self }),
    {
        let mut r = self;
        r.bearer_token = Some(token);
        r
    }

    /// The same request with `data_type` as its data-type tag.
    pub fn with_data_type(self, data_type: HttpDataType) -> (r: Self)
        ensures
            r == (Self { data_type, ..self }),
    {
        let mut r = self;
        r.data_type = data_type;
        r
    }
}

/// The text that lossy UTF-8 decoding makes of `bytes`: the decoded text where
/// `bytes` is valid UTF-8, and otherwise the text in which each invalid
/// sequence has become the replacement character.
pub uninterp spec fn lossy_text(bytes: Seq<u8>) -> Seq<char>;

/// Decodes `bytes` with `String::from_utf8_lossy`. The result is a function of
/// the bytes alone; for valid UTF-8 it is the text that the bytes encode.
#[verifier::external_body]
fn decode_lossy(bytes: &[u8]) -> (text: String)
    ensures
        text@ == lossy_text(bytes@),
        vstd::utf8::valid_utf8(bytes@) ==> text@ == vstd::utf8::decode_utf8(bytes@),
{
    String::from_utf8_lossy(bytes).into_owned()
}

/// A response: the status code, if one was recognised, and every byte that
/// arrived. Body and declared length are read out of the raw bytes on demand.
#[derive(Debug, Clone, PartialEq, Eq)]
pub struct HttpResponse {
    pub status_code: Option<u16>,
    pub raw: Vec<u8>,
}

/// The mathematical content of a response.
pub struct ResponseModel {
    pub status_code: Option<u16>,
    pub raw: Seq<u8>,
}

impl View for HttpResponse {
    type V = ResponseModel;

    open spec fn view(&self) -> ResponseModel {
        ResponseModel { status_code: self.status_code, raw: self.raw@ }
    }
}

impl HttpResponse {
    /// The status code is one of 200 to 299.
    pub open spec fn success(self) -> bool {
        self.status_code matches Some(code) && 200 <= code <= 299
    }

    /// Whether the status code is one of 200 to 299.
    pub fn is_success(&self) -> (r: bool)
        ensures
            r == self.success(),
    {
        match self.status_code {
            Some(code) => 200 <= code && code <= 299,
            None => false,
        }
    }

    /// The raw bytes as text, invalid UTF-8 replaced.
    pub fn as_utf8_lossy(&self) -> (text: String)
        ensures
            text@ == lossy_text(self.raw@),
            vstd::utf8::valid_utf8(self.raw@) ==> text@ == vstd::utf8::decode_utf8(self.raw@),
    {
        decode_lossy(self.raw.as_slice())
    }

    /// The body of the response, if it has one (see `http_body_of`).
    pub fn http_body(&self) -> (r: Option<&[u8]>)
        ensures
            match r {
                Some(body) => http_body_of(self.raw@) == Some(body@),
                None => http_body_of(self.raw@) is None,
            },
    {
        extract_body(self.raw.as_slice())
    }

    /// The content length that the response declares in the header block
    /// behind its HTTP status line.
    pub fn declared_content_length(&self) -> (r: Option<usize>)
        ensures
            r == declared_length(self.raw@),
    {
        match split_framed(self.raw.as_slice()) {
            Some((header, _)) => parse_content_length(header),
            None => None,
        }
    }
}

/// Tunables of the client. All durations are in milliseconds.
#[derive(Debug, Clone, Copy, PartialEq, Eq)]
pub struct DtuAtHttpConfig {
    /// Modem channel, 1 to 4; it numbers the per-channel commands.
    pub channel: u8,
    /// Request timeout in seconds that the modem itself applies.
    pub request_timeout_secs: u16,
    /// Response filter mask (3 returns headers and body).
    pub response_filter_mask: u8,
    /// Whether a 2xx response must carry a body; 204 and 304 are exempt.
    pub require_body_on_success: bool,
    /// Silence kept before the escape sequence.
    pub cmd_guard_time: u64,
    /// Wait for the first byte of a command's reply.
    pub at_first_timeout: u64,
    /// Idle gap that ends a command's reply.
    pub at_idle_timeout: u64,
    /// Wait for the first byte of the HTTP response.
    pub http_first_timeout: u64,
    /// Idle gap that ends a burst of the HTTP response.
    pub http_idle_timeout: u64,
    /// Wait for the first byte in each poll for trailing data.
    pub http_followup_first_timeout: u64,
    /// Overall time allowed for collecting trailing data.
    pub http_followup_timeout: u64,
    /// Overall time allowed for the modem to report that it is ready.
    pub http_ready_timeout: u64,
    /// Overall time allowed for reaching command mode.
    pub enter_cmd_timeout: u64,
    /// Interval between command-mode probes.
    pub enter_cmd_poll: u64,
    /// Attempts per request, the first included.
    pub max_request_attempts: u8,
    /// Turn on the modem's debug notifications before sending.
    pub enable_modem_debug_urc: bool,
    /// Query the link status before sending.
    pub query_link_status_before_send: bool,
    /// Resend the payload once when the HTTP response times out.
    pub retry_payload_on_http_timeout: bool,
    /// Wait between the ready report and the payload.
    pub post_entm_settle_time: u64,
    /// Largest response, in bytes, that a request may accumulate.
    pub max_response_len: usize,
    /// Probe with a bare `AT` when the escape sequence is not acknowledged.
    pub enable_command_probe_fallback: bool,
}

impl Default for DtuAtHttpConfig {
    fn default() -> (c: Self)
        ensures
            c == (DtuAtHttpConfig {
                channel: 1,
                request_timeout_secs: 10,
                response_filter_mask: 3,
                require_body_on_success: true,
                cmd_guard_time: 1200,
                at_first_timeout: 2000,
                at_idle_timeout: 250,
                http_first_timeout: 60000,
                http_idle_timeout: 300,
                http_followup_first_timeout: 700,
                http_followup_timeout: 20000,
                http_ready_timeout: 25000,
                enter_cmd_timeout: 60000,
                enter_cmd_poll: 2000,
                max_request_attempts: 2,
                enable_modem_debug_urc: false,
                query_link_status_before_send: false,
                retry_payload_on_http_timeout: false,
                post_entm_settle_time: 500,
                max_response_len: 4096,
                enable_command_probe_fallback: true,
            }),
    {
        DtuAtHttpConfig {
            channel: 1,
            request_timeout_secs: 10,
            response_filter_mask: 3,
            require_body_on_success: true,
            cmd_guard_time: 1200,
            at_first_timeout: 2000,
            at_idle_timeout: 250,
            http_first_timeout: 60000,
            http_idle_timeout: 300,
            http_followup_first_timeout: 700,
            http_followup_timeout: 20000,
            http_ready_timeout: 25000,
            enter_cmd_timeout: 60000,
            enter_cmd_poll: 2000,
            max_request_attempts: 2,
            enable_modem_debug_urc: false,
            query_link_status_before_send: false,
            retry_payload_on_http_timeout: false,
            post_entm_settle_time: 500,
            max_response_len: 4096,
            enable_command_probe_fallback: true,
        }
    }
}

/// Everything that can end a request without a response.
#[derive(Debug, Clone, Copy, PartialEq, Eq)]
pub enum DtuAtError {
    /// The transport reported an I/O failure.
    Transport,
    /// No data arrived within the required window.
    Timeout,
    /// The transport accepted no byte of a write.
    WriteZero,
    /// The caller's configuration or request is unusable; carries the reason.
    InvalidConfig(&'static str),
    /// The modem answered with an explicit error marker.
    AtRejected,
    /// The expected marker is missing from the modem's answer.
    BadResponse,
    /// The response outgrew the configured cap.
    ResponseTooLarge,
    /// A success status arrived without the body that the policy requires.
    BodyMissing,
    /// The modem reported a failure of its own HTTP or TLS layer; carries its
    /// code.
    HttpFail(u8),
}

impl DtuAtError {
    /// The message of each error, as `as_str` returns it.
    pub open spec fn message(self) -> Seq<char> {
        match self {
            DtuAtError::Transport => "transport error"@,
            DtuAtError::Timeout => "timeout"@,
            DtuAtError::WriteZero => "write returned zero"@,
            DtuAtError::InvalidConfig(msg) => msg@,
            DtuAtError::AtRejected => "AT rejected (ERR/ERROR)"@,
            DtuAtError::BadResponse => "AT response missing OK"@,
            DtuAtError::ResponseTooLarge => "response too large"@,
            DtuAtError::BodyMissing => "http body missing"@,
            DtuAtError::HttpFail(_) => "DTU HTTP FAIL (TLS/connection error)"@,
        }
    }

    /// A short description of the error; for `InvalidConfig`, its reason.
    pub fn as_str(&self) -> (r: &'static str)
        ensures
            r@ == self.message(),
    {
        match self {
            DtuAtError::Transport => "transport error",
            DtuAtError::Timeout => "timeout",
            DtuAtError::WriteZero => "write returned zero",
            DtuAtError::InvalidConfig(msg) => msg,
            DtuAtError::AtRejected => "AT rejected (ERR/ERROR)",
            DtuAtError::BadResponse => "AT response missing OK",
            DtuAtError::ResponseTooLarge => "response too large",
            DtuAtError::BodyMissing => "http body missing",
            DtuAtError::HttpFail(_) => "DTU HTTP FAIL (TLS/connection error)",
        }
    }
}

} // verus!
