use vstd::prelude::*;

use crate::error::ErrorKind;
use crate::framing::{head_of, lemma_head_in_spool, parse_head};
use crate::status::StatusCode;

verus! {

/// A framed response over its spool: the status, where the body begins, how
/// long the spool is, and the read cursor. The cursor never moves before
/// the body, so header bytes are never read through a response.
#[derive(Clone, Copy, Debug, PartialEq, Eq, Structural)]
pub struct Response {
    status: StatusCode,
    header_end: u64,
    spool_len: u64,
    pos: u64,
}

/// A span of the spool to read: `count` bytes from offset `start`.
#[derive(Clone, Copy, Debug, PartialEq, Eq, Structural)]
pub struct Span {
    pub start: u64,
    pub count: u64,
}

impl Response {
    pub closed spec fn status_spec(self) -> StatusCode {
        self.status
    }

    pub closed spec fn header_end_spec(self) -> u64 {
        self.header_end
    }

    pub closed spec fn spool_len_spec(self) -> u64 {
        self.spool_len
    }

    pub closed spec fn pos_spec(self) -> u64 {
        self.pos
    }

    /// The cursor stands within the body.
    pub open spec fn inv(self) -> bool {
        self.header_end_spec() <= self.pos_spec() <= self.spool_len_spec()
    }

    /// The span that a read of at most `max` bytes covers.
    pub open spec fn span_of(self, max: u64) -> Span {
        let left = self.spool_len_spec() - self.pos_spec();
        Span {
            start: self.pos_spec(),
            count: if max < left {
                max
            } else {
                left as u64
            },
        }
    }

    /// Frames a spool of `spool_len` bytes whose leading bytes are `head`
    /// (all of the spool, or at least its first `HEAD_LIMIT` bytes). The
    /// cursor starts at the first body byte.
    pub fn frame(head: &[u8], spool_len: u64) -> (r: Result<Response, ErrorKind>)
        requires
            head@.len() <= spool_len,
        ensures
            match r {
                Ok(resp) => {
                    &&& head_of(head@) == Ok::<(u16, int), ErrorKind>(
                        (resp.status_spec().code, resp.header_end_spec() as int),
                    )
                    &&& resp.inv()
                    &&& resp.spool_len_spec() == spool_len
                    &&& resp.pos_spec() == resp.header_end_spec()
                },
                Err(e) => head_of(head@) == Err::<(u16, int), ErrorKind>(e),
            },
    {
        match parse_head(head) {
            Ok(h) => {
                proof {
                    lemma_head_in_spool(head@);
                }
                let header_end = h.header_end as u64;
                Ok(Response { status: h.status, header_end, spool_len, pos: header_end })
            },
            Err(e) => Err(e),
        }
    }

    pub fn status(&self) -> (r: StatusCode)
        ensures
            r == self.status_spec(),
    {
        self.status
    }

    /// Offset in the spool of the first body byte.
    pub fn header_end(&self) -> (r: u64)
        ensures
            r == self.header_end_spec(),
    {
        self.header_end
    }

    pub fn spool_len(&self) -> (r: u64)
        ensures
            r == self.spool_len_spec(),
    {
        self.spool_len
    }

    /// Offset in the spool of the next byte to read.
    pub fn position(&self) -> (r: u64)
        ensures
            r == self.pos_spec(),
    {
        self.pos
    }

    /// Moves the cursor back to the first body byte.
    pub fn rewind(&mut self)
        requires
            old(self).inv(),
        ensures
            final(self).inv(),
            final(self).pos_spec() == final(self).header_end_spec(),
            final(self).status_spec() == old(self).status_spec(),
            final(self).header_end_spec() == old(self).header_end_spec(),
            final(self).spool_len_spec() == old(self).spool_len_spec(),
    {
        self.pos = self.header_end;
    }

    /// Reads at most `max` bytes: returns the span of the spool that holds
    /// them and moves the cursor past it. The span never reaches before the
    /// body nor past the end of the spool; it is empty at the end.
    pub fn next_read(&mut self, max: u64) -> (r: Span)
        requires
            old(self).inv(),
        ensures
            r == old(self).span_of(max),
            final(self).inv(),
            old(self).header_end_spec() <= r.start,
            r.start + r.count <= old(self).spool_len_spec(),
            final(self).pos_spec() == r.start + r.count,
            final(self).status_spec() == old(self).status_spec(),
            final(self).header_end_spec() == old(self).header_end_spec(),
            final(self).spool_len_spec() == old(self).spool_len_spec(),
    {
        let left = self.spool_len - self.pos;
        let count = if max < left {
            max
        } else {
            left
        };
        let start = self.pos;
        self.pos = self.pos + count;
        Span { start, count }
    }

    /// The state of `self` after `rewind`.
    pub closed spec fn rewound(self) -> Response {
        Response { pos: self.header_end, ..self }
    }

    /// Two cursors over one spool that differ only in how much they have
    /// read.
    pub closed spec fn same_spool(self, other: Response) -> bool {
        self.status == other.status && self.header_end == other.header_end && self.spool_len
            == other.spool_len
    }

    /// `rewind` is what `rewound` describes.
    pub proof fn lemma_rewind_is_rewound(before: Response, after: Response)
        requires
            before.inv(),
            after.pos_spec() == after.header_end_spec(),
            after.status_spec() == before.status_spec(),
            after.header_end_spec() == before.header_end_spec(),
            after.spool_len_spec() == before.spool_len_spec(),
        ensures
            after == before.rewound(),
    {
    }

    /// However many reads and rewinds came before, a read right after a
    /// rewind covers the same span of the spool as the first read after
    /// any other rewind.
    pub proof fn lemma_rewind_idempotent(a: Response, b: Response, max: u64)
        requires
            a.same_spool(b),
        ensures
            a.rewound() == b.rewound(),
            a.rewound().span_of(max) == b.rewound().span_of(max),
            a.rewound().rewound() == a.rewound(),
    {
    }

    /// The first read from a freshly framed response starts at the first
    /// body byte.
    pub proof fn lemma_first_read_is_body(r: Response, max: u64)
        requires
            r.inv(),
            r.pos_spec() == r.header_end_spec(),
        ensures
            r.span_of(max).start == r.header_end_spec(),
            r.span_of(max).start + r.span_of(max).count <= r.spool_len_spec(),
    {
    }
}

} // verus!
