//! Previews of response bytes for a diagnostics sink. They are for the eye
//! only: nothing in the protocol depends on them.

use vstd::prelude::*;
use vstd::slice::slice_subrange;
use vstd::string::*;
use vstd::utf8::{decode_utf8, valid_utf8};

verus! {

/// Most bytes of a response that a preview shows.
pub const PREVIEW_LEN: usize = 160;

/// The upper-case hexadecimal digit of a value below sixteen.
pub open spec fn hex_digit(n: int) -> char {
    if n < 10 {
        (0x30 + n) as char
    } else {
        (0x41 + n - 10) as char
    }
}

/// The two hexadecimal digits of a byte.
pub open spec fn hex_pair(b: u8) -> Seq<char> {
    seq![hex_digit(b as int / 16), hex_digit(b as int % 16)]
}

/// The bytes of `data` as pairs of hexadecimal digits with a space between
/// one pair and the next.
pub open spec fn hex_text(data: Seq<u8>) -> Seq<char>
    decreases data.len(),
{
    if data.len() == 0 {
        Seq::empty()
    } else if data.len() == 1 {
        hex_pair(data[0])
    } else {
        hex_text(data.drop_last()) + seq![' '] + hex_pair(data.last())
    }
}

/// The hexadecimal digit of a value below sixteen, as text.
fn hex_digit_str(n: u8) -> (r: &'static str)
    requires
        n < 16,
    ensures
        r@ == seq![hex_digit(n as int)],
{
    proof {
        reveal_strlit("0");
        reveal_strlit("1");
        reveal_strlit("2");
        reveal_strlit("3");
        reveal_strlit("4");
        reveal_strlit("5");
        reveal_strlit("6");
        reveal_strlit("7");
        reveal_strlit("8");
        reveal_strlit("9");
        reveal_strlit("A");
        reveal_strlit("B");
        reveal_strlit("C");
        reveal_strlit("D");
        reveal_strlit("E");
        reveal_strlit("F");
    }
    let r = if n == 0 {
        "0"
    } else if n == 1 {
        "1"
    } else if n == 2 {
        "2"
    } else if n == 3 {
        "3"
    } else if n == 4 {
        "4"
    } else if n == 5 {
        "5"
    } else if n == 6 {
        "6"
    } else if n == 7 {
        "7"
    } else if n == 8 {
        "8"
    } else if n == 9 {
        "9"
    } else if n == 10 {
        "A"
    } else if n == 11 {
        "B"
    } else if n == 12 {
        "C"
    } else if n == 13 {
        "D"
    } else if n == 14 {
        "E"
    } else {
        "F"
    };
    proof {
        assert(r@ =~= seq![hex_digit(n as int)]);
    }
    r
}

/// Renders `data` as upper-case hexadecimal, two digits a byte, the bytes
/// separated by single spaces.
pub fn bytes_to_hex(data: &[u8]) -> (text: String)
    ensures
        text@ == hex_text(data@),
{
    let mut out = String::new();
    let n = data.len();
    let mut i: usize = 0;
    while i < n
        invariant
            n == data@.len(),
            i <= n,
            out@ == hex_text(data@.subrange(0, i as int)),
        decreases n - i,
    {
        let ghost before = out@;
        if i > 0 {
            out.append(" ");
        }
        let b = data[i];
        out.append(hex_digit_str(b / 16));
        out.append(hex_digit_str(b % 16));
        proof {
            reveal_strlit(" ");
            let next = data@.subrange(0, i + 1);
            assert(next.drop_last() =~= data@.subrange(0, i as int));
            assert(next.last() == b);
            if i > 0 {
                assert(out@ =~= before + seq![' '] + hex_pair(b));
            } else {
                assert(out@ =~= hex_pair(b));
            }
        }
        i += 1;
    }
    proof {
        assert(data@.subrange(0, n as int) =~= data@);
    }
    out
}

/// Reads `bytes` as text with `core::str::from_utf8`: the text that the bytes
/// encode where they are valid UTF-8, and nothing where they are not.
#[verifier::external_body]
fn utf8_text(bytes: &[u8]) -> (r: Option<&str>)
    ensures
        r is Some <==> valid_utf8(bytes@),
        r matches Some(text) ==> text@ == decode_utf8(bytes@),
{
    core::str::from_utf8(bytes).ok()
}

/// A preview of response bytes.
#[derive(Debug, Clone, PartialEq, Eq)]
pub enum Preview {
    /// The previewed bytes as the text that they encode.
    Text(String),
    /// The previewed bytes in hexadecimal, for bytes that are no valid text.
    Hex(String),
}

/// The part of `buf` that a preview shows: its first `PREVIEW_LEN` bytes.
pub open spec fn preview_head(buf: Seq<u8>) -> Seq<u8> {
    if buf.len() > PREVIEW_LEN {
        buf.subrange(0, PREVIEW_LEN as int)
    } else {
        buf
    }
}

/// Previews `buf`: its first `PREVIEW_LEN` bytes, as text where they are
/// valid UTF-8 and in hexadecimal where they are not.
pub fn response_preview(buf: &[u8]) -> (preview: Preview)
    ensures
        match preview {
            Preview::Text(text) => valid_utf8(preview_head(buf@)) && text@ == decode_utf8(
                preview_head(buf@),
            ),
            Preview::Hex(text) => !valid_utf8(preview_head(buf@)) && text@ == hex_text(
                preview_head(buf@),
            ),
        },
{
    let head = if buf.len() > PREVIEW_LEN {
        slice_subrange(buf, 0, PREVIEW_LEN)
    } else {
        buf
    };
    match utf8_text(head) {
        Some(text) => Preview::Text(text.to_owned()),
        None => Preview::Hex(bytes_to_hex(head)),
    }
}

} // verus!
