//! The transfer engine: how a probe response classifies a resource, how a
//! `Content-Range` value is read, and how one segment moves the range window.
use vstd::prelude::*;
use crate::error::HttpError;
use crate::message::{header_value, utf8, TransferResponse};
use crate::text::{
    decimal, decimal_string, find_folded, contains_folded, parse_usize, parse_usize_spec,
    trim, trim_bounds,
};

verus! {

/// The most bytes that one request of a segmented fetch asks for.
pub const MAX_BLOCK_SIZE: usize = 1_000_000;

/// What a size probe tells of a resource.
#[derive(Debug, Clone, Copy, PartialEq, Eq, Structural)]
pub enum FileSize {
    Sized(usize),
    Chunked,
}

/// `e` is a `BadResponse` with status `code` and message `msg`.
pub open spec fn is_bad_response(e: HttpError, code: usize, msg: Seq<char>) -> bool {
    match e {
        HttpError::BadResponse(c, m) => c == code && m@ == msg,
        _ => false,
    }
}

/// `e` is a `ParseError` with message `msg`.
pub open spec fn is_parse_error(e: HttpError, msg: Seq<char>) -> bool {
    match e {
        HttpError::ParseError(m) => m@ == msg,
        _ => false,
    }
}

/// How a probe response is read.
pub enum ProbeVerdict {
    /// The status is not 200.
    BadStatus,
    /// `Content-Length` holds a size.
    Length(usize),
    /// `Content-Length` is there but holds no size.
    BadLength(Seq<char>),
    /// No `Content-Length`, and `Transfer-Encoding` names chunked framing.
    Chunked,
    /// Neither header tells the size.
    Unknown,
}

pub open spec fn probe_verdict(r: TransferResponse) -> ProbeVerdict {
    if r.status != 200 {
        ProbeVerdict::BadStatus
    } else {
        match header_value(r.headers@, utf8("Content-Length"@)) {
            Some(v) => match parse_usize_spec(utf8(v)) {
                Some(n) => ProbeVerdict::Length(n),
                None => ProbeVerdict::BadLength(v),
            },
            None => match header_value(r.headers@, utf8("Transfer-Encoding"@)) {
                Some(v) => if contains_folded(utf8(v), utf8("chunk"@)) {
                    ProbeVerdict::Chunked
                } else {
                    ProbeVerdict::Unknown
                },
                None => ProbeVerdict::Unknown,
            },
        }
    }
}

/// Classifies a resource from the response to its size probe.
pub fn classify_probe(r: &TransferResponse) -> (res: Result<FileSize, HttpError>)
    ensures
        match probe_verdict(*r) {
            ProbeVerdict::BadStatus => res is Err && is_bad_response(res->Err_0, r.status, r.message@),
            ProbeVerdict::Length(n) => res == Ok::<FileSize, HttpError>(FileSize::Sized(n)),
            ProbeVerdict::BadLength(v) => res is Err && is_parse_error(
                res->Err_0,
                "invalid Content-Length value: "@ + v,
            ),
            ProbeVerdict::Chunked => res == Ok::<FileSize, HttpError>(FileSize::Chunked),
            ProbeVerdict::Unknown => res is Err && is_bad_response(
                res->Err_0,
                r.status,
                r.message@ + ": Cannot determine resource size from headers."@,
            ),
        },
{
    if r.status != 200 {
        return Err(HttpError::BadResponse(r.status, r.message.clone()));
    }
    match r.header("Content-Length") {
        Some(v) => {
            let bytes = v.as_str().as_bytes();
            match parse_usize(bytes, 0, bytes.len()) {
                Some(n) => {
                    assert(bytes@.subrange(0, bytes@.len() as int) =~= bytes@);
                    Ok(FileSize::Sized(n))
                },
                None => {
                    assert(bytes@.subrange(0, bytes@.len() as int) =~= bytes@);
                    let m = "invalid Content-Length value: ".to_owned().concat(v.as_str());
                    Err(HttpError::ParseError(m))
                },
            }
        },
        None => {
            let chunked = match r.header("Transfer-Encoding") {
                Some(v) => find_folded(v.as_str().as_bytes(), "chunk".as_bytes()),
                None => false,
            };
            if chunked {
                Ok(FileSize::Chunked)
            } else {
                let m = r.message.clone().concat(": Cannot determine resource size from headers.");
                Err(HttpError::BadResponse(r.status, m))
            }
        },
    }
}

/// `v` without a leading range unit `bytes`.
pub open spec fn strip_unit(v: Seq<u8>) -> Seq<u8> {
    if v.len() >= 5 && v.subrange(0, 5) == seq![98u8, 121u8, 116u8, 101u8, 115u8] {
        v.subrange(5, v.len() as int)
    } else {
        v
    }
}

pub open spec fn is_range_sep(b: u8) -> bool {
    b == 45 || b == 47
}

/// `v` split at every `-` and `/`.
pub open spec fn pieces(v: Seq<u8>) -> Seq<Seq<u8>>
    decreases v.len(),
{
    if v.len() == 0 {
        seq![Seq::empty()]
    } else {
        let p = pieces(v.drop_last());
        if is_range_sep(v.last()) {
            p.push(Seq::empty())
        } else {
            p.update(p.len() - 1, p.last().push(v.last()))
        }
    }
}

/// The pieces that read as numbers, in order; the others are skipped.
pub open spec fn numbers(ps: Seq<Seq<u8>>) -> Seq<usize>
    decreases ps.len(),
{
    if ps.len() == 0 {
        Seq::empty()
    } else {
        let r = numbers(ps.drop_last());
        match parse_usize_spec(ps.last()) {
            Some(n) => r.push(n),
            None => r,
        }
    }
}

/// The first three numbers of a `Content-Range` value, once its unit is
/// stripped and its whitespace trimmed; none where there are fewer.
pub open spec fn content_range_spec(v: Seq<u8>) -> Option<(usize, usize, usize)> {
    let n = numbers(pieces(trim(strip_unit(v))));
    if n.len() >= 3 {
        Some((n[0], n[1], n[2]))
    } else {
        None
    }
}

/// Reads a `Content-Range` value such as `bytes 0-999/2000`.
pub fn parse_content_range(v: &[u8]) -> (r: Option<(usize, usize, usize)>)
    ensures
        r == content_range_spec(v@),
{
    let len = v.len();
    let mut lo: usize = 0;
    if len >= 5 && v[0] == 98 && v[1] == 121 && v[2] == 116 && v[3] == 101 && v[4] == 115 {
        lo = 5;
        assert(v@.subrange(0, 5) =~= seq![98u8, 121u8, 116u8, 101u8, 115u8]);
    } else {
        assert(len >= 5 ==> v@.subrange(0, 5) != seq![98u8, 121u8, 116u8, 101u8, 115u8]) by {
            if len >= 5 {
                let s = v@.subrange(0, 5);
                assert(s[0] == v@[0] && s[1] == v@[1] && s[2] == v@[2] && s[3] == v@[3] && s[4]
                    == v@[4]);
            }
        }
        assert(v@.subrange(0, len as int) =~= v@);
    }
    assert(v@.subrange(lo as int, len as int) == strip_unit(v@));
    let (a, b) = trim_bounds(v, lo, len);
    let ghost body = v@.subrange(a as int, b as int);
    let mut tokens: Vec<usize> = Vec::new();
    let ghost mut done: Seq<Seq<u8>> = Seq::empty();
    let mut ps = a;
    let mut i = a;
    assert(v@.subrange(a as int, a as int) =~= Seq::<u8>::empty());
    assert(pieces(v@.subrange(a as int, a as int)) =~= done.push(v@.subrange(a as int, a as int)));
    while i < b
        invariant
            a <= ps <= i <= b <= v@.len(),
            body == v@.subrange(a as int, b as int),
            pieces(v@.subrange(a as int, i as int)) == done.push(v@.subrange(ps as int, i as int)),
            tokens@ == numbers(done),
        decreases b - i,
    {
        let c = v[i];
        let ghost cur = v@.subrange(ps as int, i as int);
        assert(v@.subrange(a as int, i + 1).drop_last() =~= v@.subrange(a as int, i as int));
        if c == 45 || c == 47 {
            let t = parse_usize(v, ps, i);
            assert(done.push(cur).drop_last() =~= done);
            match t {
                Some(n) => {
                    tokens.push(n);
                },
                None => {},
            }
            proof {
                done = done.push(cur);
            }
            ps = i + 1;
            assert(v@.subrange(ps as int, i + 1) =~= Seq::<u8>::empty());
        } else {
            assert(v@.subrange(ps as int, i + 1) =~= cur.push(c));
            assert(done.push(cur).update(done.len() as int, cur.push(c)) =~= done.push(
                v@.subrange(ps as int, i + 1),
            ));
        }
        i = i + 1;
    }
    let ghost cur = v@.subrange(ps as int, b as int);
    let last = parse_usize(v, ps, b);
    assert(done.push(cur).drop_last() =~= done);
    match last {
        Some(n) => {
            tokens.push(n);
        },
        None => {},
    }
    if tokens.len() >= 3 {
        Some((tokens[0], tokens[1], tokens[2]))
    } else {
        None
    }
}

/// The span that the next request of a segmented fetch asks for.
#[derive(Debug, Clone, Copy, PartialEq, Eq, Structural)]
pub struct RangeWindow {
    pub start: usize,
    pub end: usize,
    pub total: usize,
}

/// The state of a segmented fetch: the window, and how many bytes the
/// server has reported as sent so far.
#[derive(Debug, Clone, Copy, PartialEq, Eq, Structural)]
pub struct SegmentedFetch {
    pub window: RangeWindow,
    pub total_read: usize,
}

/// The `Range` value that asks for the window `w`: `bytes=<start>-<end>/<total>`.
pub open spec fn range_value_spec(w: RangeWindow) -> Seq<char> {
    "bytes="@ + decimal(w.start as nat) + "-"@ + decimal(w.end as nat) + "/"@ + decimal(
        w.total as nat,
    )
}

/// How the response to one segment request is read.
pub enum SegmentVerdict {
    /// The status is neither 200 nor 206.
    BadStatus,
    /// There is no `Content-Range` header.
    MissingRange,
    /// The `Content-Range` value holds no span that the window can take.
    Unsupported(Seq<char>),
    /// The server sent the bytes `start..=end` of a resource of `total` bytes.
    Accepted(usize, usize, usize),
}

/// A reported span `a..=b` of a resource of `t` bytes fits the window `w`:
/// it is ordered, lies within both sizes, and does not end before the start.
pub open spec fn accepts(w: RangeWindow, a: usize, b: usize, t: usize) -> bool {
    a <= b && b < t && b < w.total && w.start <= b + 1
}

pub open spec fn segment_verdict(f: SegmentedFetch, r: TransferResponse) -> SegmentVerdict {
    if r.status != 200 && r.status != 206 {
        SegmentVerdict::BadStatus
    } else {
        match header_value(r.headers@, utf8("Content-Range"@)) {
            None => SegmentVerdict::MissingRange,
            Some(v) => match content_range_spec(utf8(v)) {
                Some((a, b, t)) => if accepts(f.window, a, b, t) {
                    SegmentVerdict::Accepted(a, b, t)
                } else {
                    SegmentVerdict::Unsupported(v)
                },
                None => SegmentVerdict::Unsupported(v),
            },
        }
    }
}

/// The message of the error for a segment response without `Content-Range`.
pub open spec fn missing_range_message() -> Seq<char> {
    "Missing expected header: `Content-Range`"@
}

/// The message of the error for a `Content-Range` value `v` that is refused.
pub open spec fn unsupported_range_message(v: Seq<char>) -> Seq<char> {
    "Unsupported value for header `Content-Range`: "@ + v
}

/// The state after the server reported the span `a..=b`: the next window
/// starts after `b`, its end grows by one block up to the total, and the
/// count of bytes read grows by the span's length (saturating).
pub open spec fn advance(f: SegmentedFetch, a: usize, b: usize) -> SegmentedFetch {
    let w = f.window;
    let end = if w.end + MAX_BLOCK_SIZE > w.total {
        w.total
    } else {
        (w.end + MAX_BLOCK_SIZE) as usize
    };
    let read = if f.total_read + (b - a + 1) > usize::MAX {
        usize::MAX
    } else {
        (f.total_read + (b - a + 1)) as usize
    };
    SegmentedFetch { window: RangeWindow { start: (b + 1) as usize, end, total: w.total }, total_read: read }
}

impl SegmentedFetch {
    /// The window stays ordered, `start <= end <= total`; as it starts at the
    /// total and grows capped by it, its end is always the total.
    pub open spec fn wf(self) -> bool {
        self.window.start <= self.window.end == self.window.total
    }

    pub open spec fn done(self) -> bool {
        self.total_read >= self.window.total
    }

    /// The first state of a fetch of `total` bytes: the window spans it all.
    pub fn new(total: usize) -> (r: SegmentedFetch)
        ensures
            r == (SegmentedFetch {
                window: RangeWindow { start: 0, end: total, total },
                total_read: 0,
            }),
            r.wf(),
    {
        SegmentedFetch { window: RangeWindow { start: 0, end: total, total }, total_read: 0 }
    }

    /// Whether all bytes have been reported as read.
    pub fn is_done(&self) -> (r: bool)
        ensures
            r == self.done(),
    {
        self.total_read >= self.window.total
    }

    /// The `Range` value for the current window.
    pub fn range_value(&self) -> (r: String)
        ensures
            r@ == range_value_spec(self.window),
    {
        let s = "bytes=".to_owned().concat(decimal_string(self.window.start).as_str());
        let s = s.concat("-").concat(decimal_string(self.window.end).as_str());
        let s = s.concat("/").concat(decimal_string(self.window.total).as_str());
        s
    }

    /// Takes the response to the request for the current window. On success
    /// the window advances as the reported span says; the body is the
    /// caller's to append. On failure the state stays as it was.
    pub fn on_response(&mut self, r: &TransferResponse) -> (res: Result<(), HttpError>)
        requires
            old(self).wf(),
        ensures
            final(self).wf(),
            match segment_verdict(*old(self), *r) {
                SegmentVerdict::BadStatus => *final(self) == *old(self) && res is Err
                    && is_bad_response(res->Err_0, r.status, r.message@),
                SegmentVerdict::MissingRange => *final(self) == *old(self) && res is Err
                    && is_bad_response(res->Err_0, r.status, missing_range_message()),
                SegmentVerdict::Unsupported(v) => *final(self) == *old(self) && res is Err
                    && is_bad_response(res->Err_0, r.status, unsupported_range_message(v)),
                SegmentVerdict::Accepted(a, b, t) => res is Ok && *final(self) == advance(
                    *old(self),
                    a,
                    b,
                ),
            },
    {
        if r.status != 200 && r.status != 206 {
            return Err(HttpError::BadResponse(r.status, r.message.clone()));
        }
        let value = match r.header("Content-Range") {
            Some(v) => v,
            None => {
                let m = "Missing expected header: `Content-Range`".to_owned();
                return Err(HttpError::BadResponse(r.status, m));
            },
        };
        let parsed = parse_content_range(value.as_str().as_bytes());
        match parsed {
            Some((a, b, t)) => {
                let w = self.window;
                if a <= b && b < t && b < w.total && w.start <= b + 1 {
                    let span = b - a + 1;
                    let read = if self.total_read > usize::MAX - span {
                        usize::MAX
                    } else {
                        self.total_read + span
                    };
                    let end = if w.total - w.end < MAX_BLOCK_SIZE {
                        w.total
                    } else {
                        w.end + MAX_BLOCK_SIZE
                    };
                    self.window = RangeWindow { start: b + 1, end, total: w.total };
                    self.total_read = read;
                    return Ok(());
                }
            },
            None => {},
        }
        let m = "Unsupported value for header `Content-Range`: ".to_owned().concat(
            value.as_str(),
        );
        Err(HttpError::BadResponse(r.status, m))
    }
}

} // verus!
