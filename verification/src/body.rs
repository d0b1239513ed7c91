//! Location of the body and of the declared content length inside the raw
//! bytes of a response.

use crate::parser::{code_marker, code_markers};
use crate::scan::{
    capped, leading_number, parse_usize_from_prefix, scan, scan_back, scan_backward, scan_forward,
    ByteClass,
};
use crate::util::{find_subslice, first_match, has_prefix, starts_with};
use vstd::prelude::*;
use vstd::slice::slice_subrange;
use vstd::string::*;

verus! {

/// The tag that opens every notification of the modem.
pub open spec fn notification_tag() -> Seq<u8> {
    "FS@".spec_bytes()
}

/// The part of `s` from index `from` to its end.
pub open spec fn tail(s: Seq<u8>, from: int) -> Seq<u8> {
    s.subrange(from, s.len() as int)
}

/// The end of the header block of `http` and the length of the separator
/// behind it: the first blank line written with `\r\n\r\n`, else the first
/// written with `\n\n`.
pub open spec fn header_boundary(http: Seq<u8>) -> Option<(int, int)> {
    match first_match(http, "\r\n\r\n".spec_bytes()) {
        Some(idx) => Some((idx, 4)),
        None => match first_match(http, "\n\n".spec_bytes()) {
            Some(idx) => Some((idx, 2)),
            None => None,
        },
    }
}

/// Finds the end of the header block of `http` and the length of the
/// separator behind it.
pub fn find_header_boundary(http: &[u8]) -> (r: Option<(usize, usize)>)
    ensures
        match r {
            Some((end, sep)) => header_boundary(http@) == Some((end as int, sep as int)),
            None => header_boundary(http@) is None,
        },
        r matches Some((end, sep)) ==> end + sep <= http@.len(),
{
    match find_subslice(http, "\r\n\r\n".as_bytes()) {
        Some(idx) => {
            proof {
                reveal_strlit("\r\n\r\n");
                lemma_ascii_len("\r\n\r\n");
            }
            return Some((idx, 4));
        },
        None => {},
    }
    match find_subslice(http, "\n\n".as_bytes()) {
        Some(idx) => {
            proof {
                reveal_strlit("\n\n");
                lemma_ascii_len("\n\n");
            }
            Some((idx, 2))
        },
        None => None,
    }
}

/// An ASCII string takes one byte per character.
proof fn lemma_ascii_len(s: &str)
    requires
        is_ascii(s),
    ensures
        s.spec_bytes().len() == s@.len(),
{
    is_ascii_spec_bytes(s);
}

/// The lower-case form of an ASCII letter; any other byte unchanged.
pub open spec fn lower(b: u8) -> u8 {
    if 0x41 <= b <= 0x5a {
        (b + 0x20) as u8
    } else {
        b
    }
}

/// The lower-case form of an ASCII letter; any other byte unchanged.
pub fn to_lower(b: u8) -> (r: u8)
    ensures
        r == lower(b),
{
    if 0x41 <= b && b <= 0x5a {
        b + 0x20
    } else {
        b
    }
}

/// `line` begins with `prefix`, ASCII letters compared without regard to case.
pub open spec fn has_prefix_ignoring_case(line: Seq<u8>, prefix: Seq<u8>) -> bool {
    &&& prefix.len() <= line.len()
    &&& forall|k: int| 0 <= k < prefix.len() ==> lower(#[trigger] line[k]) == lower(prefix[k])
}

/// Whether `line` begins with `prefix`, ASCII letters compared without regard
/// to case.
pub fn eq_ascii_case_prefix(line: &[u8], prefix: &[u8]) -> (r: bool)
    ensures
        r == has_prefix_ignoring_case(line@, prefix@),
{
    let n = prefix.len();
    if line.len() < n {
        return false;
    }
    let mut k: usize = 0;
    while k < n
        invariant
            n == prefix@.len(),
            n <= line@.len(),
            k <= n,
            forall|j: int| 0 <= j < k ==> lower(#[trigger] line@[j]) == lower(prefix@[j]),
        decreases n - k,
    {
        if to_lower(line[k]) != to_lower(prefix[k]) {
            return false;
        }
        k += 1;
    }
    true
}

/// The name of the length header, colon included.
pub open spec fn length_header_name() -> Seq<u8> {
    "Content-Length:".spec_bytes()
}

/// The first run of digits in `data` as a length, saturating at `usize::MAX`.
pub open spec fn number_usize(data: Seq<u8>) -> Option<usize> {
    match leading_number(data) {
        Some(w) => Some(capped(w, usize::MAX as nat) as usize),
        None => None,
    }
}

/// The length that the header block declares, reading its lines from index
/// `i` on. Lines end at `\n`. The first line that begins with the length
/// header's name, in any case, decides: the result is the first run of digits
/// behind the name on that line, or `None` when the line holds no digit.
pub open spec fn content_length_from(header: Seq<u8>, i: int) -> Option<usize>
    decreases header.len() - i,
    via content_length_from_decreases
{
    if i < 0 || i >= header.len() {
        None
    } else {
        let line_end = scan(header, i, ByteClass::Exactly(0x0a), true);
        let line = header.subrange(i, line_end);
        if has_prefix_ignoring_case(line, length_header_name()) {
            number_usize(tail(line, length_header_name().len() as int))
        } else if line_end >= header.len() {
            None
        } else {
            content_length_from(header, line_end + 1)
        }
    }
}

/// A line ends at or behind its start, so reading on from behind its end
/// moves forward.
#[via_fn]
proof fn content_length_from_decreases(header: Seq<u8>, i: int) {
    if 0 <= i < header.len() {
        crate::scan::lemma_scan_stops(header, i, ByteClass::Exactly(0x0a), true);
    }
}

/// The length that the header block declares (see `content_length_from`).
pub open spec fn content_length(header: Seq<u8>) -> Option<usize> {
    content_length_from(header, 0)
}

/// Reads the declared length out of a header block.
pub fn parse_content_length(header: &[u8]) -> (r: Option<usize>)
    ensures
        r == content_length(header@),
{
    let n = header.len();
    let name = "Content-Length:".as_bytes();
    let mut i: usize = 0;
    while i < n
        invariant
            n == header@.len(),
            i <= n,
            name@ == length_header_name(),
            content_length(header@) == content_length_from(header@, i as int),
        decreases n - i,
    {
        let line_end = scan_forward(header, i, ByteClass::Exactly(0x0a), true);
        let line = slice_subrange(header, i, line_end);
        if eq_ascii_case_prefix(line, name) {
            return parse_usize_from_prefix(slice_subrange(line, name.len(), line.len()));
        }
        i = if line_end < n {
            line_end + 1
        } else {
            n
        };
    }
    None
}

/// `data` without the ASCII whitespace at its two ends.
pub open spec fn trimmed(data: Seq<u8>) -> Seq<u8> {
    let start = scan(data, 0, ByteClass::Whitespace, false);
    let end = scan_back(data, start, data.len() as int, ByteClass::Whitespace, false);
    data.subrange(start, end)
}

/// Strips ASCII whitespace from both ends of `data`.
pub fn trim_ascii_whitespace(data: &[u8]) -> (r: &[u8])
    ensures
        r@ == trimmed(data@),
{
    let start = scan_forward(data, 0, ByteClass::Whitespace, false);
    let end = scan_backward(data, start, data.len(), ByteClass::Whitespace, false);
    slice_subrange(data, start, end)
}

/// Where the content that starts at `pos` ends: before the first notification
/// tag that follows a `\r\n`, else before the first that follows a `\n`, else
/// before the first tag anywhere behind `pos`, else at the end of `raw`.
pub open spec fn content_end(raw: Seq<u8>, pos: int) -> int {
    match first_match(tail(raw, pos), "\r\nFS@".spec_bytes()) {
        Some(rel) => pos + rel,
        None => match first_match(tail(raw, pos), "\nFS@".spec_bytes()) {
            Some(rel) => pos + rel,
            None => if pos + 1 < raw.len() {
                match first_match(tail(raw, pos + 1), notification_tag()) {
                    Some(rel) => pos + 1 + rel,
                    None => raw.len() as int,
                }
            } else {
                raw.len() as int
            },
        },
    }
}

/// The content that the notification opened by `marker` carries: behind the
/// first comma after the marker, the digits and then the blanks and line
/// breaks that follow are skipped; the content runs from there to
/// `content_end` and is trimmed. `None` without the marker, without the
/// comma, when nothing is left behind the skipped bytes, or when the trimmed
/// content is empty or is itself a notification.
pub open spec fn notification_content(raw: Seq<u8>, marker: Seq<u8>) -> Option<Seq<u8>> {
    match first_match(raw, marker) {
        None => None,
        Some(idx) => {
            let comma = scan(raw, idx + marker.len(), ByteClass::Exactly(0x2c), true);
            let digits_end = scan(raw, comma + 1, ByteClass::Digit, false);
            let pos = scan(raw, digits_end, ByteClass::Gap, false);
            let content = trimmed(raw.subrange(pos, content_end(raw, pos)));
            if comma >= raw.len() || pos >= raw.len() || content.len() == 0 || has_prefix(
                content,
                notification_tag(),
            ) {
                None
            } else {
                Some(content)
            }
        },
    }
}

/// The content of the first code marker, from the `k`-th on, that carries any.
pub open spec fn first_notification_content(raw: Seq<u8>, k: int) -> Option<Seq<u8>>
    decreases 5 - k,
{
    if k < 0 || k >= 5 {
        None
    } else {
        match notification_content(raw, code_markers()[k]) {
            Some(content) => Some(content),
            None => first_notification_content(raw, k + 1),
        }
    }
}

/// Finds where the content that starts at `pos` ends.
fn find_content_end(raw: &[u8], pos: usize) -> (end: usize)
    requires
        pos < raw@.len(),
    ensures
        end == content_end(raw@, pos as int),
        pos <= end <= raw@.len(),
{
    let n = raw.len();
    let rest = slice_subrange(raw, pos, n);
    match find_subslice(rest, "\r\nFS@".as_bytes()) {
        Some(rel) => {
            return pos + rel;
        },
        None => {},
    }
    match find_subslice(rest, "\nFS@".as_bytes()) {
        Some(rel) => {
            return pos + rel;
        },
        None => {},
    }
    if pos + 1 < n {
        match find_subslice(slice_subrange(raw, pos + 1, n), "FS@".as_bytes()) {
            Some(rel) => {
                return pos + 1 + rel;
            },
            None => {},
        }
    }
    n
}

/// Extracts the content of the notification opened by `marker`.
fn extract_marker_content<'a>(raw: &'a [u8], marker: &[u8]) -> (r: Option<&'a [u8]>)
    ensures
        match r {
            Some(content) => notification_content(raw@, marker@) == Some(content@),
            None => notification_content(raw@, marker@) is None,
        },
{
    let n = raw.len();
    let idx = match find_subslice(raw, marker) {
        Some(idx) => idx,
        None => {
            return None;
        },
    };
    let comma = scan_forward(raw, idx + marker.len(), ByteClass::Exactly(0x2c), true);
    if comma >= n {
        return None;
    }
    let digits_end = scan_forward(raw, comma + 1, ByteClass::Digit, false);
    let pos = scan_forward(raw, digits_end, ByteClass::Gap, false);
    if pos >= n {
        return None;
    }
    let end = find_content_end(raw, pos);
    let content = trim_ascii_whitespace(slice_subrange(raw, pos, end));
    if content.len() == 0 || starts_with(content, "FS@".as_bytes()) {
        return None;
    }
    Some(content)
}

/// Extracts the content that a status notification carries: that of the first
/// code marker, in their fixed order, that carries any.
pub fn extract_urc_style_body(raw: &[u8]) -> (r: Option<&[u8]>)
    ensures
        match r {
            Some(content) => first_notification_content(raw@, 0) == Some(content@),
            None => first_notification_content(raw@, 0) is None,
        },
{
    let mut k: usize = 0;
    while k < 5
        invariant
            k <= 5,
            first_notification_content(raw@, 0) == first_notification_content(raw@, k as int),
        decreases 5 - k,
    {
        match extract_marker_content(raw, code_marker(k)) {
            Some(content) => {
                return Some(content);
            },
            None => {},
        }
        k += 1;
    }
    None
}

/// The marker that opens an HTTP status line.
pub open spec fn status_line_marker() -> Seq<u8> {
    "HTTP/1.".spec_bytes()
}

/// The header block and the bytes behind it, for a response with an HTTP
/// status line: the response is read from the first status-line marker on,
/// and split at the header boundary. `None` without the marker or without a
/// boundary behind it.
pub open spec fn framed_parts(raw: Seq<u8>) -> Option<(Seq<u8>, Seq<u8>)> {
    match first_match(raw, status_line_marker()) {
        None => None,
        Some(start) => {
            let http = tail(raw, start);
            match header_boundary(http) {
                None => None,
                Some((end, sep)) => Some((http.subrange(0, end), tail(http, end + sep))),
            }
        },
    }
}

/// The content length that a response declares in the header block behind its
/// HTTP status line.
pub open spec fn declared_length(raw: Seq<u8>) -> Option<usize> {
    match framed_parts(raw) {
        Some((header, _)) => content_length(header),
        None => None,
    }
}

/// The body of a response.
///
/// With an HTTP status line and a header boundary behind it: none when the
/// bytes behind the boundary begin with the notification tag; with a declared
/// length, that many bytes, or all there are when fewer arrived (so a declared
/// length of zero gives the empty body); without one, what is there, or none
/// when nothing is.
///
/// Otherwise, with a header boundary anywhere: the bytes behind it, or none
/// when they begin with the notification tag.
///
/// Otherwise the content of a status notification.
pub open spec fn http_body_of(raw: Seq<u8>) -> Option<Seq<u8>> {
    match framed_parts(raw) {
        Some((header, rest)) => {
            if has_prefix(rest, notification_tag()) {
                None
            } else {
                match content_length(header) {
                    Some(n) => if rest.len() >= n {
                        Some(rest.subrange(0, n as int))
                    } else {
                        Some(rest)
                    },
                    None => if rest.len() == 0 {
                        None
                    } else {
                        Some(rest)
                    },
                }
            }
        },
        None => match header_boundary(raw) {
            Some((end, sep)) => if has_prefix(tail(raw, end + sep), notification_tag()) {
                None
            } else {
                Some(tail(raw, end + sep))
            },
            None => first_notification_content(raw, 0),
        },
    }
}

/// Splits a response with an HTTP status line into its header block and the
/// bytes behind the header boundary.
pub fn split_framed(raw: &[u8]) -> (r: Option<(&[u8], &[u8])>)
    ensures
        match r {
            Some((header, rest)) => framed_parts(raw@) == Some((header@, rest@)),
            None => framed_parts(raw@) is None,
        },
{
    let start = match find_subslice(raw, "HTTP/1.".as_bytes()) {
        Some(start) => start,
        None => {
            return None;
        },
    };
    let http = slice_subrange(raw, start, raw.len());
    match find_header_boundary(http) {
        Some((end, sep)) => Some(
            (slice_subrange(http, 0, end), slice_subrange(http, end + sep, http.len())),
        ),
        None => None,
    }
}

/// Extracts the body of a response (see `http_body_of`).
pub fn extract_body(raw: &[u8]) -> (r: Option<&[u8]>)
    ensures
        match r {
            Some(body) => http_body_of(raw@) == Some(body@),
            None => http_body_of(raw@) is None,
        },
{
    match split_framed(raw) {
        Some((header, rest)) => {
            if starts_with(rest, "FS@".as_bytes()) {
                return None;
            }
            return match parse_content_length(header) {
                Some(n) => if rest.len() >= n {
                    Some(slice_subrange(rest, 0, n))
                } else {
                    Some(rest)
                },
                None => if rest.len() == 0 {
                    None
                } else {
                    Some(rest)
                },
            };
        },
        None => {},
    }
    let n = raw.len();
    match find_header_boundary(raw) {
        Some((end, sep)) => {
            let rest = slice_subrange(raw, end + sep, n);
            if starts_with(rest, "FS@".as_bytes()) {
                None
            } else {
                Some(rest)
            }
        },
        None => extract_urc_style_body(raw),
    }
}

/// A response that declares a content length of zero has the empty body,
/// unless the bytes behind its header boundary are a notification.
pub proof fn lemma_zero_length_gives_empty_body(raw: Seq<u8>)
    requires
        declared_length(raw) == Some(0usize),
        framed_parts(raw) matches Some((_, rest)) && !has_prefix(rest, notification_tag()),
    ensures
        http_body_of(raw) == Some(Seq::<u8>::empty()),
{
    let parts = framed_parts(raw).unwrap();
    let rest = parts.1;
    assert(rest.subrange(0, 0) =~= Seq::<u8>::empty());
}

} // verus!
