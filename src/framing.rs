use vstd::prelude::*;

use crate::error::ErrorKind;
use crate::status::StatusCode;

verus! {

/// The head of a response (status line and header block) must lie within
/// this many leading bytes of the spool.
pub const HEAD_LIMIT: usize = 32768;

/// The bytes that `str::split_whitespace` treats as separators on ASCII
/// text: space, tab, line feed, vertical tab, form feed, carriage return.
pub open spec fn is_ws(c: u8) -> bool {
    c == 32 || (9 <= c && c <= 13)
}

pub open spec fn is_digit(c: u8) -> bool {
    48 <= c && c <= 57
}

/// How many leading bytes of `b` the head is searched in.
pub open spec fn head_window(b: Seq<u8>) -> int {
    if b.len() < HEAD_LIMIT {
        b.len() as int
    } else {
        HEAD_LIMIT as int
    }
}

/// The first index in `[i, end)` that holds a line feed, or `end` if none does.
pub open spec fn scan_lf(b: Seq<u8>, end: int, i: int) -> int
    decreases end - i,
{
    if i >= end {
        end
    } else if b[i] == 10 {
        i
    } else {
        scan_lf(b, end, i + 1)
    }
}

/// The first index in `[i, end)` that is not whitespace, or `end`.
pub open spec fn skip_ws(b: Seq<u8>, end: int, i: int) -> int
    decreases end - i,
{
    if i >= end {
        end
    } else if is_ws(b[i]) {
        skip_ws(b, end, i + 1)
    } else {
        i
    }
}

/// The first index in `[i, end)` that is whitespace, or `end`.
pub open spec fn skip_field(b: Seq<u8>, end: int, i: int) -> int
    decreases end - i,
{
    if i >= end {
        end
    } else if is_ws(b[i]) {
        i
    } else {
        skip_field(b, end, i + 1)
    }
}

/// The token characters that a header name is made of.
pub open spec fn is_tchar(c: u8) -> bool {
    (48 <= c && c <= 57) || (65 <= c && c <= 90) || (97 <= c && c <= 122) || c == 33 || (35 <= c
        && c <= 39) || c == 42 || c == 43 || c == 45 || c == 46 || (94 <= c && c <= 96) || c == 124
        || c == 126
}

/// The first index in `[i, end)` that is not a token character, or `end`.
pub open spec fn scan_name(b: Seq<u8>, end: int, i: int) -> int
    decreases end - i,
{
    if i >= end {
        end
    } else if is_tchar(b[i]) {
        scan_name(b, end, i + 1)
    } else {
        i
    }
}

pub open spec fn no_cr(b: Seq<u8>, lo: int, hi: int) -> bool {
    forall|i: int| lo <= i < hi ==> #[trigger] b[i] != 13
}

/// `b[lo..hi]` is a header line without its `CR LF`: a non-empty name of
/// token characters, a colon, and a value with no carriage return.
pub open spec fn header_line_ok(b: Seq<u8>, lo: int, hi: int) -> bool {
    let c = scan_name(b, hi, lo);
    lo < c && c < hi && b[c] == 58 && no_cr(b, c + 1, hi)
}

/// Reads header lines from `p` on, within `b[..end]`: the offset just past
/// the empty line (`CR LF`) that ends the block, `HeadersTooLong` if a line
/// does not end within the window, `BadHeader` for a line that is not
/// `name: value` ending in `CR LF`.
pub open spec fn header_block_end(b: Seq<u8>, end: int, p: int) -> Result<int, ErrorKind>
    decreases end - p,
{
    if p + 1 < end && b[p] == 13 && b[p + 1] == 10 {
        Ok(p + 2)
    } else {
        let e = scan_lf(b, end, p);
        if e >= end {
            Err(ErrorKind::HeadersTooLong)
        } else if !(p < e && b[e - 1] == 13 && header_line_ok(b, p, e - 1)) {
            Err(ErrorKind::BadHeader)
        } else {
            header_block_end(b, end, e + 1)
        }
    }
}

pub open spec fn all_digits(b: Seq<u8>, lo: int, hi: int) -> bool {
    forall|i: int| lo <= i < hi ==> is_digit(#[trigger] b[i])
}

/// The decimal number written by the digits `b[lo..hi]`.
pub open spec fn digits_value(b: Seq<u8>, lo: int, hi: int) -> nat
    decreases hi - lo,
{
    if hi <= lo {
        0
    } else {
        digits_value(b, lo, hi - 1) * 10 + (b[hi - 1] - 48) as nat
    }
}

/// What framing makes of the leading bytes of a spool: the status code and
/// the offset of the first body byte, or the reason it fails.
///
/// The status line runs up to the first line feed, which a carriage return
/// precedes; its first field is the protocol version, its second the code.
/// The header block of `name: value` lines follows, each ending in `CR LF`,
/// and ends with an empty line.
pub open spec fn head_of(b: Seq<u8>) -> Result<(u16, int), ErrorKind> {
    let n = head_window(b);
    let lf = scan_lf(b, n, 0);
    if lf >= n {
        Err(ErrorKind::StatusLineTooLong)
    } else {
        let v0 = skip_ws(b, lf, 0);
        let v1 = skip_field(b, lf, v0);
        let c0 = skip_ws(b, lf, v1);
        let c1 = skip_field(b, lf, c0);
        if lf < 1 || b[lf - 1] != 13 || v0 >= lf || c0 >= lf {
            Err(ErrorKind::BadStatusLine)
        } else if !all_digits(b, c0, c1) || digits_value(b, c0, c1) > 65535 {
            Err(ErrorKind::BadStatusCode)
        } else {
            match header_block_end(b, n, lf + 1) {
                Ok(header_end) => Ok((digits_value(b, c0, c1) as u16, header_end)),
                Err(e) => Err(e),
            }
        }
    }
}

/// The parsed head of a response.
#[derive(Clone, Copy, Debug, PartialEq, Eq, Structural)]
pub struct Head {
    pub status: StatusCode,
    /// Offset in the spool of the first body byte.
    pub header_end: usize,
}

fn find_lf(b: &[u8], end: usize, start: usize) -> (r: usize)
    requires
        start <= end <= b@.len(),
    ensures
        r == scan_lf(b@, end as int, start as int),
        start <= r <= end,
{
    let mut i: usize = start;
    while i < end
        invariant
            start <= i <= end,
            end <= b@.len(),
            scan_lf(b@, end as int, i as int) == scan_lf(b@, end as int, start as int),
        decreases end - i,
    {
        if b[i] == 10 {
            return i;
        }
        i = i + 1;
    }
    i
}

fn is_ws_byte(c: u8) -> (r: bool)
    ensures
        r == is_ws(c),
{
    c == 32 || (9 <= c && c <= 13)
}

fn skip_spaces(b: &[u8], end: usize, start: usize) -> (r: usize)
    requires
        start <= end <= b@.len(),
    ensures
        r == skip_ws(b@, end as int, start as int),
        start <= r <= end,
{
    let mut i: usize = start;
    while i < end
        invariant
            start <= i <= end,
            end <= b@.len(),
            skip_ws(b@, end as int, i as int) == skip_ws(b@, end as int, start as int),
        decreases end - i,
    {
        if !is_ws_byte(b[i]) {
            return i;
        }
        i = i + 1;
    }
    i
}

fn skip_token(b: &[u8], end: usize, start: usize) -> (r: usize)
    requires
        start <= end <= b@.len(),
    ensures
        r == skip_field(b@, end as int, start as int),
        start <= r <= end,
{
    let mut i: usize = start;
    while i < end
        invariant
            start <= i <= end,
            end <= b@.len(),
            skip_field(b@, end as int, i as int) == skip_field(b@, end as int, start as int),
        decreases end - i,
    {
        if is_ws_byte(b[i]) {
            return i;
        }
        i = i + 1;
    }
    i
}

/// The number written by `b[lo..hi]`, if it is all digits and fits in 16 bits.
fn code_value(b: &[u8], lo: usize, hi: usize) -> (r: Option<u16>)
    requires
        lo <= hi <= b@.len(),
    ensures
        match r {
            Some(v) => all_digits(b@, lo as int, hi as int) && digits_value(
                b@,
                lo as int,
                hi as int,
            ) <= 65535 && v == digits_value(b@, lo as int, hi as int),
            None => !(all_digits(b@, lo as int, hi as int) && digits_value(
                b@,
                lo as int,
                hi as int,
            ) <= 65535),
        },
{
    // `v` is the value so far, saturated at 65536.
    let mut v: u32 = 0;
    let mut i: usize = lo;
    while i < hi
        invariant
            lo <= i <= hi,
            hi <= b@.len(),
            all_digits(b@, lo as int, i as int),
            v <= 65536,
            v == 65536 <==> digits_value(b@, lo as int, i as int) >= 65536,
            v < 65536 ==> v == digits_value(b@, lo as int, i as int),
        decreases hi - i,
    {
        let c = b[i];
        if c < 48 || c > 57 {
            assert(!is_digit(b@[i as int]));
            return None;
        }
        let d: u32 = (c - 48) as u32;
        assert(digits_value(b@, lo as int, i + 1) == digits_value(b@, lo as int, i as int) * 10
            + d);
        if v > 6553 {
            v = 65536;
        } else {
            v = v * 10 + d;
            if v > 65536 {
                v = 65536;
            }
        }
        i = i + 1;
    }
    if v > 65535 {
        None
    } else {
        Some(v as u16)
    }
}

fn is_tchar_byte(c: u8) -> (r: bool)
    ensures
        r == is_tchar(c),
{
    (48 <= c && c <= 57) || (65 <= c && c <= 90) || (97 <= c && c <= 122) || c == 33 || (35 <= c
        && c <= 39) || c == 42 || c == 43 || c == 45 || c == 46 || (94 <= c && c <= 96) || c == 124
        || c == 126
}

fn find_name_end(b: &[u8], end: usize, start: usize) -> (r: usize)
    requires
        start <= end <= b@.len(),
    ensures
        r == scan_name(b@, end as int, start as int),
        start <= r <= end,
{
    let mut i: usize = start;
    while i < end
        invariant
            start <= i <= end,
            end <= b@.len(),
            scan_name(b@, end as int, i as int) == scan_name(b@, end as int, start as int),
        decreases end - i,
    {
        if !is_tchar_byte(b[i]) {
            return i;
        }
        i = i + 1;
    }
    i
}

fn check_header_line(b: &[u8], lo: usize, hi: usize) -> (r: bool)
    requires
        lo <= hi <= b@.len(),
    ensures
        r == header_line_ok(b@, lo as int, hi as int),
{
    let c = find_name_end(b, hi, lo);
    if !(lo < c && c < hi && b[c] == 58) {
        return false;
    }
    let mut i: usize = c + 1;
    while i < hi
        invariant
            c + 1 <= i <= hi,
            hi <= b@.len(),
            lo < c < hi,
            b@[c as int] == 58,
            c == scan_name(b@, hi as int, lo as int),
            no_cr(b@, c + 1, i as int),
        decreases hi - i,
    {
        if b[i] == 13 {
            assert(c + 1 <= i < hi && b@[i as int] == 13);
            assert(!no_cr(b@, c + 1, hi as int));
            return false;
        }
        i = i + 1;
    }
    true
}

fn find_header_end(b: &[u8], end: usize, start: usize) -> (r: Result<usize, ErrorKind>)
    requires
        start <= end <= b@.len(),
        end <= HEAD_LIMIT,
    ensures
        match r {
            Ok(h) => header_block_end(b@, end as int, start as int) == Ok::<int, ErrorKind>(
                h as int,
            ),
            Err(e) => header_block_end(b@, end as int, start as int) == Err::<int, ErrorKind>(e),
        },
{
    let mut p: usize = start;
    loop
        invariant
            start <= p <= end,
            end <= b@.len(),
            end <= HEAD_LIMIT,
            header_block_end(b@, end as int, p as int) == header_block_end(
                b@,
                end as int,
                start as int,
            ),
        decreases end - p,
    {
        if p + 1 < end && b[p] == 13 && b[p + 1] == 10 {
            return Ok(p + 2);
        }
        let e = find_lf(b, end, p);
        if e >= end {
            return Err(ErrorKind::HeadersTooLong);
        }
        if !(p < e && b[e - 1] == 13 && check_header_line(b, p, e - 1)) {
            return Err(ErrorKind::BadHeader);
        }
        p = e + 1;
    }
}

/// Frames a response from the leading bytes of its spool: finds the status
/// code and the offset at which the body begins.
pub fn parse_head(buf: &[u8]) -> (r: Result<Head, ErrorKind>)
    ensures
        match r {
            Ok(h) => head_of(buf@) == Ok::<(u16, int), ErrorKind>(
                (h.status.code, h.header_end as int),
            ),
            Err(e) => head_of(buf@) == Err::<(u16, int), ErrorKind>(e),
        },
{
    let n: usize = if buf.len() < HEAD_LIMIT {
        buf.len()
    } else {
        HEAD_LIMIT
    };
    let lf = find_lf(buf, n, 0);
    if lf >= n {
        return Err(ErrorKind::StatusLineTooLong);
    }
    let v0 = skip_spaces(buf, lf, 0);
    let v1 = skip_token(buf, lf, v0);
    let c0 = skip_spaces(buf, lf, v1);
    let c1 = skip_token(buf, lf, c0);
    if lf < 1 || buf[lf - 1] != 13 || v0 >= lf || c0 >= lf {
        return Err(ErrorKind::BadStatusLine);
    }
    let code = match code_value(buf, c0, c1) {
        Some(c) => c,
        None => {
            return Err(ErrorKind::BadStatusCode);
        },
    };
    let header_end = match find_header_end(buf, n, lf + 1) {
        Ok(h) => h,
        Err(e) => {
            return Err(e);
        },
    };
    Ok(Head { status: StatusCode::new(code), header_end })
}

proof fn lemma_block_end(b: Seq<u8>, end: int, p: int)
    requires
        2 <= p <= end,
        b[p - 2] == 13,
        b[p - 1] == 10,
        header_block_end(b, end, p) is Ok,
    ensures
        ({
            let q = header_block_end(b, end, p)->Ok_0;
            &&& p + 2 <= q <= end
            &&& b[q - 4] == 13 && b[q - 3] == 10 && b[q - 2] == 13 && b[q - 1] == 10
        }),
    decreases end - p,
{
    if !(p + 1 < end && b[p] == 13 && b[p + 1] == 10) {
        let e = scan_lf(b, end, p);
        lemma_scan_lf(b, end, p);
        lemma_block_end(b, end, e + 1);
    }
}

/// Whenever framing succeeds, the body offset lies within the spool, the
/// status line ends in `CR LF`, and the head ends with `CR LF CR LF`.
pub proof fn lemma_head_in_spool(b: Seq<u8>)
    requires
        head_of(b) is Ok,
    ensures
        ({
            let header_end = head_of(b)->Ok_0.1;
            let lf = scan_lf(b, head_window(b), 0);
            &&& 1 <= lf && lf + 3 <= header_end <= b.len()
            &&& b[lf - 1] == 13 && b[lf] == 10
            &&& b[header_end - 4] == 13 && b[header_end - 3] == 10
            &&& b[header_end - 2] == 13 && b[header_end - 1] == 10
        }),
{
    let n = head_window(b);
    let lf = scan_lf(b, n, 0);
    lemma_scan_lf(b, n, 0);
    lemma_block_end(b, n, lf + 1);
}

proof fn lemma_scan_lf(b: Seq<u8>, end: int, i: int)
    requires
        0 <= i <= end,
    ensures
        i <= scan_lf(b, end, i) <= end,
        scan_lf(b, end, i) < end ==> b[scan_lf(b, end, i)] == 10,
    decreases end - i,
{
    if i < end && b[i] != 10 {
        lemma_scan_lf(b, end, i + 1);
    }
}

} // verus!
