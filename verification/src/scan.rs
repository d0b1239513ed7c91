//! Byte classes and the linear scans that the parsers are built from.

use vstd::prelude::*;

verus! {

/// A set of byte values that a scan looks for or skips.
#[derive(Clone, Copy, Debug)]
pub enum ByteClass {
    /// Exactly the given byte.
    Exactly(u8),
    /// Carriage return or line feed.
    LineBreak,
    /// An ASCII decimal digit.
    Digit,
    /// Space or horizontal tab.
    Blank,
    /// Space, horizontal tab, carriage return or line feed.
    Gap,
    /// ASCII whitespace: space, tab, line feed, form feed or carriage return.
    Whitespace,
}

impl ByteClass {
    /// Membership of `b` in the class.
    pub open spec fn has(self, b: u8) -> bool {
        match self {
            ByteClass::Exactly(x) => b == x,
            ByteClass::LineBreak => b == 0x0d || b == 0x0a,
            ByteClass::Digit => 0x30 <= b <= 0x39,
            ByteClass::Blank => b == 0x20 || b == 0x09,
            ByteClass::Gap => b == 0x20 || b == 0x09 || b == 0x0d || b == 0x0a,
            ByteClass::Whitespace => b == 0x20 || b == 0x09 || b == 0x0a || b == 0x0c || b
                == 0x0d,
        }
    }

    /// Tests whether `b` belongs to the class.
    pub fn contains(self, b: u8) -> (r: bool)
        ensures
            r == self.has(b),
    {
        match self {
            ByteClass::Exactly(x) => b == x,
            ByteClass::LineBreak => b == 0x0d || b == 0x0a,
            ByteClass::Digit => 0x30 <= b && b <= 0x39,
            ByteClass::Blank => b == 0x20 || b == 0x09,
            ByteClass::Gap => b == 0x20 || b == 0x09 || b == 0x0d || b == 0x0a,
            ByteClass::Whitespace => b == 0x20 || b == 0x09 || b == 0x0a || b == 0x0c || b
                == 0x0d,
        }
    }
}

/// `e` is where a forward scan from `from` stops: the first index at or after
/// `from` whose byte's membership in `class` equals `want`, or the length of
/// `s` when there is none.
pub open spec fn stops_at(s: Seq<u8>, from: int, class: ByteClass, want: bool, e: int) -> bool {
    &&& from <= e <= s.len()
    &&& forall|k: int| from <= k < e ==> class.has(#[trigger] s[k]) != want
    &&& e < s.len() ==> class.has(s[e]) == want
}

/// The stopping index of a forward scan (see `stops_at`).
pub open spec fn scan(s: Seq<u8>, from: int, class: ByteClass, want: bool) -> int
    decreases s.len() - from,
{
    if from < 0 || from >= s.len() {
        s.len() as int
    } else if class.has(s[from]) == want {
        from
    } else {
        scan(s, from + 1, class, want)
    }
}

/// `e` is where a backward scan over `s[lo..hi]` stops: every byte of
/// `s[e..hi]` has membership unequal to `want`, and `e` is `lo` or the byte
/// just below `e` has membership `want`.
pub open spec fn stops_back_at(
    s: Seq<u8>,
    lo: int,
    hi: int,
    class: ByteClass,
    want: bool,
    e: int,
) -> bool {
    &&& lo <= e <= hi
    &&& forall|k: int| e <= k < hi ==> class.has(#[trigger] s[k]) != want
    &&& e > lo ==> class.has(s[e - 1]) == want
}

/// The stopping index of a backward scan (see `stops_back_at`).
pub open spec fn scan_back(s: Seq<u8>, lo: int, hi: int, class: ByteClass, want: bool) -> int
    decreases hi - lo,
{
    if hi <= lo || hi > s.len() || lo < 0 {
        lo
    } else if class.has(s[hi - 1]) == want {
        hi
    } else {
        scan_back(s, lo, hi - 1, class, want)
    }
}

/// The recursive scan stops exactly where `stops_at` says.
pub proof fn lemma_scan_stops(s: Seq<u8>, from: int, class: ByteClass, want: bool)
    requires
        0 <= from <= s.len(),
    ensures
        stops_at(s, from, class, want, scan(s, from, class, want)),
    decreases s.len() - from,
{
    if from < s.len() && class.has(s[from]) != want {
        lemma_scan_stops(s, from + 1, class, want);
    }
}

/// A stopping index is unique, so any index that `stops_at` accepts is the scan.
pub proof fn lemma_scan_unique(s: Seq<u8>, from: int, class: ByteClass, want: bool, e: int)
    requires
        0 <= from,
        stops_at(s, from, class, want, e),
    ensures
        scan(s, from, class, want) == e,
{
    lemma_scan_stops(s, from, class, want);
    let r = scan(s, from, class, want);
    if r < e {
        assert(class.has(s[r]) != want);
    }
    if e < r {
        assert(class.has(s[e]) != want);
    }
}

/// The recursive backward scan stops exactly where `stops_back_at` says.
pub proof fn lemma_scan_back_stops(s: Seq<u8>, lo: int, hi: int, class: ByteClass, want: bool)
    requires
        0 <= lo <= hi <= s.len(),
    ensures
        stops_back_at(s, lo, hi, class, want, scan_back(s, lo, hi, class, want)),
    decreases hi - lo,
{
    if lo < hi && class.has(s[hi - 1]) != want {
        lemma_scan_back_stops(s, lo, hi - 1, class, want);
    }
}

/// Scans forward from `from` and returns the first index whose byte's
/// membership in `class` equals `want`, or the length when there is none.
pub fn scan_forward(data: &[u8], from: usize, class: ByteClass, want: bool) -> (e: usize)
    ensures
        e == scan(data@, from as int, class, want),
        from <= data@.len() ==> stops_at(data@, from as int, class, want, e as int),
        e <= data@.len(),
{
    let n = data.len();
    if from > n {
        return n;
    }
    let mut i: usize = from;
    while i < n && class.contains(data[i]) != want
        invariant
            n == data@.len(),
            from <= i <= n,
            forall|k: int| from <= k < i ==> class.has(#[trigger] data@[k]) != want,
        decreases n - i,
    {
        i += 1;
    }
    proof {
        lemma_scan_unique(data@, from as int, class, want, i as int);
    }
    i
}

/// Scans `data[lo..hi]` backward from `hi` and returns the index just above
/// the last byte whose membership in `class` equals `want`, or `lo` when there
/// is none.
pub fn scan_backward(data: &[u8], lo: usize, hi: usize, class: ByteClass, want: bool) -> (e:
    usize)
    requires
        lo <= hi <= data@.len(),
    ensures
        e == scan_back(data@, lo as int, hi as int, class, want),
        stops_back_at(data@, lo as int, hi as int, class, want, e as int),
{
    let mut i: usize = hi;
    while i > lo && class.contains(data[i - 1]) != want
        invariant
            lo <= i <= hi <= data@.len(),
            scan_back(data@, lo as int, hi as int, class, want) == scan_back(
                data@,
                lo as int,
                i as int,
                class,
                want,
            ),
        decreases i - lo,
    {
        i -= 1;
    }
    proof {
        lemma_scan_back_stops(data@, lo as int, hi as int, class, want);
    }
    i
}

/// The number that a run of ASCII digits writes in base ten.
pub open spec fn decimal_value(digits: Seq<u8>) -> nat
    decreases digits.len(),
{
    if digits.len() == 0 {
        0
    } else {
        decimal_value(digits.drop_last()) * 10 + (digits.last() - 0x30) as nat
    }
}

/// The first run of decimal digits in `data`, as a number: bytes before the
/// first digit are skipped, and the run ends at the first non-digit after it.
/// `None` when `data` holds no digit.
pub open spec fn leading_number(data: Seq<u8>) -> Option<nat> {
    let start = scan(data, 0, ByteClass::Digit, true);
    let end = scan(data, start, ByteClass::Digit, false);
    if start >= data.len() {
        None
    } else {
        Some(decimal_value(data.subrange(start, end)))
    }
}

/// `v`, or `cap` where `v` is larger.
pub open spec fn capped(v: nat, cap: nat) -> nat {
    if v > cap {
        cap
    } else {
        v
    }
}

/// The first run of decimal digits in `data`, saturating at `cap`.
fn parse_capped(data: &[u8], cap: u64) -> (r: Option<u64>)
    requires
        cap >= 9,
    ensures
        match leading_number(data@) {
            Some(w) => r == Some(capped(w, cap as nat) as u64),
            None => r is None,
        },
{
    let n = data.len();
    let start = scan_forward(data, 0, ByteClass::Digit, true);
    if start >= n {
        return None;
    }
    let end = scan_forward(data, start, ByteClass::Digit, false);
    let mut value: u64 = 0;
    let mut i: usize = start;
    while i < end
        invariant
            cap >= 9,
            start <= i <= end <= data@.len(),
            forall|k: int| start <= k < end ==> ByteClass::Digit.has(#[trigger] data@[k]),
            value == capped(decimal_value(data@.subrange(start as int, i as int)), cap as nat),
        decreases end - i,
    {
        let d: u64 = (data[i] - 0x30) as u64;
        proof {
            assert(ByteClass::Digit.has(data@[i as int]));
            let next = data@.subrange(start as int, i + 1);
            assert(next.drop_last() =~= data@.subrange(start as int, i as int));
            assert(next.last() == data@[i as int]);
        }
        if value > (cap - d) / 10 {
            value = cap;
        } else {
            value = value * 10 + d;
        }
        i += 1;
    }
    Some(value)
}

/// Parses the first run of decimal digits in `data` as a `u16`, saturating at
/// `u16::MAX`. `None` when `data` holds no digit.
pub fn parse_u16_from_prefix(data: &[u8]) -> (r: Option<u16>)
    ensures
        match leading_number(data@) {
            Some(w) => r == Some(capped(w, u16::MAX as nat) as u16),
            None => r is None,
        },
{
    match parse_capped(data, 0xffff) {
        Some(v) => Some(v as u16),
        None => None,
    }
}

/// Parses the first run of decimal digits in `data` as a `usize`, saturating
/// at `usize::MAX`. `None` when `data` holds no digit.
pub fn parse_usize_from_prefix(data: &[u8]) -> (r: Option<usize>)
    ensures
        match leading_number(data@) {
            Some(w) => r == Some(capped(w, usize::MAX as nat) as usize),
            None => r is None,
        },
{
    match parse_capped(data, usize::MAX as u64) {
        Some(v) => Some(v as usize),
        None => None,
    }
}

} // verus!
