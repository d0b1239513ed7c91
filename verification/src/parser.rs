//! Recognition of the modem's response markers, status-code extraction and
//! the encoding of the header argument.

use crate::scan::{
    capped, leading_number, parse_u16_from_prefix, scan, scan_back, scan_backward, scan_forward,
    ByteClass,
};
use crate::types::HttpHeader;
use crate::util::{
    ends_with, find_subslice, first_match, has_match, has_suffix, lemma_first_match_none,
};
use vstd::prelude::*;
use vstd::string::*;

verus! {

/// The longest header argument, in bytes, that the set-headers command takes.
pub const MAX_HEAD_LINE_LEN: usize = 256;

/// The reason reported for a header whose name is empty.
pub open spec fn empty_header_name_reason() -> &'static str {
    "header name 不能为空"
}

/// The reason reported for a header argument over `MAX_HEAD_LINE_LEN` bytes.
pub open spec fn head_line_too_long_reason() -> &'static str {
    "HTTP 头超过 AT+HTPHD 256 字节限制"
}

/// The token that stands for a line break inside the header argument.
pub open spec fn break_token() -> Seq<char> {
    "[0D][0A]"@
}

/// One header as the header argument renders it, break token included.
pub open spec fn header_text(h: HttpHeader) -> Seq<char> {
    h.name@ + ": "@ + h.value@ + break_token()
}

/// The listed headers in order, each followed by the break token.
pub open spec fn header_lines(headers: Seq<HttpHeader>) -> Seq<char>
    decreases headers.len(),
{
    if headers.len() == 0 {
        Seq::empty()
    } else {
        header_lines(headers.drop_last()) + header_text(headers.last())
    }
}

/// The `Authorization` header that a bearer token becomes, break token
/// included; empty without a token.
pub open spec fn bearer_text(token: Option<&str>) -> Seq<char> {
    match token {
        Some(t) => "Authorization: Bearer "@ + t@ + break_token(),
        None => Seq::empty(),
    }
}

/// The header argument: the listed headers, then the bearer token's
/// `Authorization` header, each terminated by the break token.
pub open spec fn head_line(headers: Seq<HttpHeader>, token: Option<&str>) -> Seq<char> {
    header_lines(headers) + bearer_text(token)
}

/// Some listed header has an empty name.
pub open spec fn has_empty_name(headers: Seq<HttpHeader>) -> bool {
    exists|i: int| 0 <= i < headers.len() && (#[trigger] headers[i]).name@.len() == 0
}

/// Number of bytes that `text` takes on the wire.
pub open spec fn wire_len(text: Seq<char>) -> nat {
    vstd::utf8::encode_utf8(text).len()
}

/// What encoding the header argument yields: the reason for refusing it, or
/// its text. An empty header name is refused first; otherwise an argument of
/// more than `MAX_HEAD_LINE_LEN` bytes is.
pub open spec fn head_line_outcome(headers: Seq<HttpHeader>, token: Option<&str>) -> Result<
    Seq<char>,
    &'static str,
> {
    if has_empty_name(headers) {
        Err(empty_header_name_reason())
    } else if wire_len(head_line(headers, token)) > MAX_HEAD_LINE_LEN {
        Err(head_line_too_long_reason())
    } else {
        Ok(head_line(headers, token))
    }
}

/// Encodes the header argument of the set-headers command. The result is
/// empty when there is neither a header nor a token. Fails when a header's
/// name is empty, and otherwise when the argument is longer than
/// `MAX_HEAD_LINE_LEN` bytes.
pub fn build_head_line(headers: &[HttpHeader<'_>], bearer_token: Option<&str>) -> (r: Result<
    String,
    &'static str,
>)
    ensures
        match r {
            Ok(line) => head_line_outcome(headers@, bearer_token) == Ok::<
                Seq<char>,
                &'static str,
            >(line@),
            Err(reason) => head_line_outcome(headers@, bearer_token) == Err::<
                Seq<char>,
                &'static str,
            >(reason),
        },
{
    let mut out = String::new();
    let n = headers.len();
    let mut i: usize = 0;
    while i < n
        invariant
            n == headers@.len(),
            i <= n,
            out@ == header_lines(headers@.subrange(0, i as int)),
            forall|k: int| 0 <= k < i ==> (#[trigger] headers@[k]).name@.len() != 0,
        decreases n - i,
    {
        let h = headers[i];
        if h.name.is_empty() {
            return Err("header name 不能为空");
        }
        let ghost before = out@;
        out.append(h.name);
        out.append(": ");
        out.append(h.value);
        out.append("[0D][0A]");
        proof {
            let next = headers@.subrange(0, i + 1);
            assert(next.drop_last() =~= headers@.subrange(0, i as int));
            assert(next.last() == h);
            assert(out@ =~= before + header_text(h));
        }
        i += 1;
    }
    let ghost listed = out@;
    match bearer_token {
        Some(token) => {
            out.append("Authorization: Bearer ");
            out.append(token);
            out.append("[0D][0A]");
        },
        None => {},
    }
    proof {
        assert(headers@.subrange(0, n as int) =~= headers@);
        assert(out@ =~= listed + bearer_text(bearer_token));
    }
    if out.as_str().as_bytes().len() > MAX_HEAD_LINE_LEN {
        return Err("HTTP 头超过 AT+HTPHD 256 字节限制");
    }
    Ok(out)
}

/// The modem's report that it is ready for the payload.
pub open spec fn ready_marker() -> Seq<u8> {
    "FS@HTTP OK:".spec_bytes()
}

/// The modem's report that its own HTTP layer failed.
pub open spec fn fail_marker() -> Seq<u8> {
    "FS@HTTP FAIL:".spec_bytes()
}

/// A buffer counts as acknowledged when it holds `OK` on a line of its own,
/// ends with `OK` and a line break, or holds the ready marker.
pub open spec fn is_ok(buf: Seq<u8>) -> bool {
    ||| has_match(buf, "\r\nOK\r\n".spec_bytes())
    ||| has_match(buf, "\nOK\n".spec_bytes())
    ||| has_suffix(buf, "OK\r\n".spec_bytes())
    ||| has_suffix(buf, "OK\n".spec_bytes())
    ||| has_match(buf, ready_marker())
}

/// A buffer counts as rejected when it holds `ERR:` or `ERROR` anywhere.
pub open spec fn is_at_error(buf: Seq<u8>) -> bool {
    has_match(buf, "ERR:".spec_bytes()) || has_match(buf, "ERROR".spec_bytes())
}

/// Whether a non-empty `needle` occurs in `buf`.
pub fn contains_bytes(buf: &[u8], needle: &[u8]) -> (r: bool)
    ensures
        r == has_match(buf@, needle@),
{
    proof {
        lemma_first_match_none(buf@, needle@);
    }
    find_subslice(buf, needle).is_some()
}

/// Whether `buf` holds an acknowledgement (see `is_ok`).
pub fn contains_ok(buf: &[u8]) -> (r: bool)
    ensures
        r == is_ok(buf@),
{
    contains_bytes(buf, "\r\nOK\r\n".as_bytes()) || contains_bytes(buf, "\nOK\n".as_bytes())
        || ends_with(buf, "OK\r\n".as_bytes()) || ends_with(buf, "OK\n".as_bytes())
        || contains_bytes(buf, "FS@HTTP OK:".as_bytes())
}

/// Whether `buf` holds the ready marker.
pub fn contains_http_ready(buf: &[u8]) -> (r: bool)
    ensures
        r == has_match(buf@, ready_marker()),
{
    contains_bytes(buf, "FS@HTTP OK:".as_bytes())
}

/// Whether `buf` holds the modem's failure marker.
pub fn contains_http_fail(buf: &[u8]) -> (r: bool)
    ensures
        r == has_match(buf@, fail_marker()),
{
    contains_bytes(buf, "FS@HTTP FAIL:".as_bytes())
}

/// Whether `buf` holds an error marker (see `is_at_error`).
pub fn contains_at_error(buf: &[u8]) -> (r: bool)
    ensures
        r == is_at_error(buf@),
{
    contains_bytes(buf, "ERR:".as_bytes()) || contains_bytes(buf, "ERROR".as_bytes())
}

/// The five notification markers that carry a status code, in the order in
/// which they are tried.
pub open spec fn code_markers() -> Seq<Seq<u8>> {
    seq![
        "FS@HTTP INFO CODE:".spec_bytes(),
        "FS@HTTP SUCCESS CODE:".spec_bytes(),
        "FS@HTTP REDIRECT CODE:".spec_bytes(),
        "FS@HTTP CLIENT ERROR CODE:".spec_bytes(),
        "FS@HTTP SERVER ERROR CODE:".spec_bytes(),
    ]
}

/// The `k`-th code marker.
pub fn code_marker(k: usize) -> (m: &'static [u8])
    requires
        k < 5,
    ensures
        m@ == code_markers()[k as int],
{
    if k == 0 {
        "FS@HTTP INFO CODE:".as_bytes()
    } else if k == 1 {
        "FS@HTTP SUCCESS CODE:".as_bytes()
    } else if k == 2 {
        "FS@HTTP REDIRECT CODE:".as_bytes()
    } else if k == 3 {
        "FS@HTTP CLIENT ERROR CODE:".as_bytes()
    } else {
        "FS@HTTP SERVER ERROR CODE:".as_bytes()
    }
}

/// The first run of digits in `data` as a status code, saturating at
/// `u16::MAX`.
pub open spec fn number_u16(data: Seq<u8>) -> Option<u16> {
    match leading_number(data) {
        Some(w) => Some(capped(w, u16::MAX as nat) as u16),
        None => None,
    }
}

/// The code on the line of the first occurrence of `marker`: the line runs
/// from the marker to the next line break, and the code is the first run of
/// digits after the line's last comma. `None` without the marker, without a
/// comma on its line, or without a digit behind that comma.
pub open spec fn marker_line_code(raw: Seq<u8>, marker: Seq<u8>) -> Option<u16> {
    match first_match(raw, marker) {
        None => None,
        Some(idx) => {
            let end = scan(raw, idx, ByteClass::LineBreak, true);
            let after = scan_back(raw, idx, end, ByteClass::Exactly(0x2c), true);
            if after == idx {
                None
            } else {
                number_u16(raw.subrange(after, end))
            }
        },
    }
}

/// The code of the first marker, from the `k`-th on, whose line yields one.
pub open spec fn first_marker_code(raw: Seq<u8>, k: int) -> Option<u16>
    decreases 5 - k,
{
    if k < 0 || k >= 5 {
        None
    } else {
        match marker_line_code(raw, code_markers()[k]) {
            Some(code) => Some(code),
            None => first_marker_code(raw, k + 1),
        }
    }
}

/// The code of an HTTP status line: the first run of digits after the first
/// space that follows the first `HTTP/1.`.
pub open spec fn status_line_code(raw: Seq<u8>) -> Option<u16> {
    match first_match(raw, "HTTP/1.".spec_bytes()) {
        None => None,
        Some(idx) => {
            let space = scan(raw, idx, ByteClass::Exactly(0x20), true);
            if space >= raw.len() {
                None
            } else {
                number_u16(raw.subrange(space + 1, raw.len() as int))
            }
        },
    }
}

/// The status code of a response: that of the first code marker that yields
/// one, else that of the HTTP status line.
pub open spec fn status_code_of(raw: Seq<u8>) -> Option<u16> {
    match first_marker_code(raw, 0) {
        Some(code) => Some(code),
        None => status_line_code(raw),
    }
}

/// Extracts the code from the line of the first occurrence of `marker`.
pub fn parse_fs_http_code(raw: &[u8], marker: &[u8]) -> (r: Option<u16>)
    ensures
        r == marker_line_code(raw@, marker@),
{
    let idx = match find_subslice(raw, marker) {
        Some(idx) => idx,
        None => {
            return None;
        },
    };
    let end = scan_forward(raw, idx, ByteClass::LineBreak, true);
    let after = scan_backward(raw, idx, end, ByteClass::Exactly(0x2c), true);
    if after == idx {
        return None;
    }
    parse_u16_from_prefix(vstd::slice::slice_subrange(raw, after, end))
}

/// Extracts the status code of a response (see `status_code_of`).
pub fn parse_status_code(raw: &[u8]) -> (r: Option<u16>)
    ensures
        r == status_code_of(raw@),
{
    let mut k: usize = 0;
    while k < 5
        invariant
            k <= 5,
            first_marker_code(raw@, 0) == first_marker_code(raw@, k as int),
        decreases 5 - k,
    {
        match parse_fs_http_code(raw, code_marker(k)) {
            Some(code) => {
                return Some(code);
            },
            None => {},
        }
        k += 1;
    }
    match find_subslice(raw, "HTTP/1.".as_bytes()) {
        Some(idx) => {
            let space = scan_forward(raw, idx, ByteClass::Exactly(0x20), true);
            if space < raw.len() {
                parse_u16_from_prefix(vstd::slice::slice_subrange(raw, space + 1, raw.len()))
            } else {
                None
            }
        },
        None => None,
    }
}

/// Markers whose lines yield no code are passed over.
proof fn lemma_first_marker_code_skips(raw: Seq<u8>, j: int, k: int)
    requires
        0 <= j <= k <= 5,
        forall|i: int| j <= i < k ==> marker_line_code(raw, #[trigger] code_markers()[i]) is None,
    ensures
        first_marker_code(raw, j) == first_marker_code(raw, k),
    decreases k - j,
{
    if j < k {
        assert(marker_line_code(raw, code_markers()[j]) is None);
        lemma_first_marker_code_skips(raw, j + 1, k);
    }
}

/// Where exactly one of the five code markers occurs in a response, and its
/// line holds a comma with a digit somewhere behind the last one, the status
/// code is the number behind that last comma.
pub proof fn lemma_single_marker_decides_status(raw: Seq<u8>, k: int)
    requires
        0 <= k < 5,
        has_match(raw, code_markers()[k]),
        forall|i: int| 0 <= i < 5 && i != k ==> !has_match(raw, #[trigger] code_markers()[i]),
        marker_line_code(raw, code_markers()[k]) is Some,
    ensures
        status_code_of(raw) == marker_line_code(raw, code_markers()[k]),
        first_match(raw, code_markers()[k]) matches Some(idx) && status_code_of(raw)
            == number_u16(
            raw.subrange(
                scan_back(
                    raw,
                    idx,
                    scan(raw, idx, ByteClass::LineBreak, true),
                    ByteClass::Exactly(0x2c),
                    true,
                ),
                scan(raw, idx, ByteClass::LineBreak, true),
            ),
        ),
{
    assert forall|i: int| 0 <= i < k implies marker_line_code(
        raw,
        #[trigger] code_markers()[i],
    ) is None by {
        lemma_first_match_none(raw, code_markers()[i]);
    }
    lemma_first_marker_code_skips(raw, 0, k);
}

} // verus!
