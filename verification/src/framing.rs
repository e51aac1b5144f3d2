//! Where one document ends on the wire.
//!
//! A document is sent as lines and is over at a line that holds the
//! end-of-document marker, three full stops, and nothing else. The body of a
//! request is everything before that line. A body may hold at most
//! `MAX_REQUEST_BYTES` bytes, so that no client can make the service store
//! without end.

use crate::protocol::Reason;
use vstd::prelude::*;

verus! {

/// The most bytes that the body of one request may hold.
pub const MAX_REQUEST_BYTES: usize = 65536;

/// A line without its line end: a line feed, or a carriage return and a line
/// feed.
pub open spec fn strip_line_end(line: Seq<u8>) -> Seq<u8> {
    if line.len() >= 2 && line[line.len() - 2] == 13 && line[line.len() - 1] == 10 {
        line.take(line.len() - 2)
    } else if line.len() >= 1 && line[line.len() - 1] == 10 {
        line.take(line.len() - 1)
    } else {
        line
    }
}

/// Whether a line is the end-of-document marker.
pub open spec fn is_sentinel_line(line: Seq<u8>) -> bool {
    let text = strip_line_end(line);
    text.len() == 3 && text[0] == 46 && text[1] == 46 && text[2] == 46
}

/// Whether a line is the end-of-document marker.
pub fn sentinel_line(line: &[u8]) -> (r: bool)
    ensures
        r == is_sentinel_line(line@),
{
    let n: usize = line.len();
    let end: usize = if n >= 2 && line[n - 2] == 13 && line[n - 1] == 10 {
        n - 2
    } else if n >= 1 && line[n - 1] == 10 {
        n - 1
    } else {
        n
    };
    assert(strip_line_end(line@) =~= line@.take(end as int));
    end == 3 && line[0] == 46 && line[1] == 46 && line[2] == 46
}

/// How far the reading of a request has come.
#[derive(Clone, Copy, Debug, PartialEq, Eq, Structural)]
pub enum FrameState {
    /// The end-of-document line has not come yet.
    Reading,
    /// The body is complete.
    Complete,
    /// The body grew over the limit.
    TooLarge,
}

/// What a reader of one request holds.
pub struct FrameModel {
    pub body: Seq<u8>,
    pub state: FrameState,
}

/// The reader after one more line: the marker completes the body, any other
/// line is added to it, unless that takes it over the limit. Once complete or
/// too large, nothing changes any more.
pub open spec fn frame_step(f: FrameModel, line: Seq<u8>) -> FrameModel {
    if f.state != FrameState::Reading {
        f
    } else if is_sentinel_line(line) {
        FrameModel { body: f.body, state: FrameState::Complete }
    } else if f.body.len() + line.len() > 65536 {
        FrameModel { body: f.body, state: FrameState::TooLarge }
    } else {
        FrameModel { body: f.body + line, state: FrameState::Reading }
    }
}

/// The reader after a run of lines.
pub open spec fn frame_run(f: FrameModel, lines: Seq<Seq<u8>>) -> FrameModel
    decreases lines.len(),
{
    if lines.len() == 0 {
        f
    } else {
        frame_run(frame_step(f, lines[0]), lines.drop_first())
    }
}

/// The lines one after the other.
pub open spec fn concat(lines: Seq<Seq<u8>>) -> Seq<u8>
    decreases lines.len(),
{
    if lines.len() == 0 {
        Seq::empty()
    } else {
        lines[0] + concat(lines.drop_first())
    }
}

/// The reader of one request: it is fed the lines as they arrive.
#[derive(Debug)]
pub struct Framer {
    body: Vec<u8>,
    state: FrameState,
}

impl View for Framer {
    type V = FrameModel;

    closed spec fn view(&self) -> FrameModel {
        FrameModel { body: self.body@, state: self.state }
    }
}

impl Framer {
    /// A reader that has seen nothing yet.
    pub fn new() -> (r: Framer)
        ensures
            r@ == (FrameModel { body: Seq::empty(), state: FrameState::Reading }),
    {
        Framer { body: Vec::new(), state: FrameState::Reading }
    }

    /// Takes one more line, and says where the reading stands after it.
    pub fn push_line(&mut self, line: &[u8]) -> (r: FrameState)
        ensures
            final(self)@ == frame_step(old(self)@, line@),
            r == final(self)@.state,
    {
        match self.state {
            FrameState::Reading => {
                if sentinel_line(line) {
                    self.state = FrameState::Complete;
                } else if line.len() > MAX_REQUEST_BYTES || self.body.len() > MAX_REQUEST_BYTES
                    - line.len() {
                    self.state = FrameState::TooLarge;
                } else {
                    self.body.extend_from_slice(line);
                }
            },
            _ => {},
        }
        assert(self@.body =~= frame_step(old(self)@, line@).body);
        self.state
    }

    /// Where the reading stands.
    pub fn state(&self) -> (r: FrameState)
        ensures
            r == self@.state,
    {
        self.state
    }

    /// Ends the reading: the body where it is complete; else the reason why
    /// there is none, which is that the input ended early or that the body
    /// was too large.
    pub fn finish(self) -> (r: Result<Vec<u8>, Reason>)
        ensures
            match self@.state {
                FrameState::Complete => r matches Ok(body) && body@ == self@.body,
                FrameState::Reading => r == Err::<Vec<u8>, Reason>(Reason::Incomplete),
                FrameState::TooLarge => r == Err::<Vec<u8>, Reason>(Reason::TooLarge),
            },
    {
        match self.state {
            FrameState::Complete => Ok(self.body),
            FrameState::Reading => Err(Reason::Incomplete),
            FrameState::TooLarge => Err(Reason::TooLarge),
        }
    }
}

/// A response on the wire: the encoded document, closed by a line feed where
/// it does not end in one, then the end-of-document line.
pub open spec fn framed_response(encoded: Seq<u8>) -> Seq<u8> {
    if encoded.len() > 0 && encoded.last() != 10 {
        encoded + seq![10u8, 46u8, 46u8, 46u8, 10u8]
    } else {
        encoded + seq![46u8, 46u8, 46u8, 10u8]
    }
}

/// Puts the end-of-document line behind an encoded response.
pub fn frame_response(encoded: &[u8]) -> (r: Vec<u8>)
    ensures
        r@ == framed_response(encoded@),
{
    let mut out: Vec<u8> = Vec::new();
    out.extend_from_slice(encoded);
    if encoded.len() > 0 && encoded[encoded.len() - 1] != 10 {
        out.push(10);
    }
    out.push(46);
    out.push(46);
    out.push(46);
    out.push(10);
    assert(out@ =~= framed_response(encoded@));
    out
}

/// Once a reader is complete or too large, no line changes it.
pub proof fn lemma_frame_is_final(f: FrameModel, lines: Seq<Seq<u8>>)
    requires
        f.state != FrameState::Reading,
    ensures
        frame_run(f, lines) == f,
    decreases lines.len(),
{
    if lines.len() > 0 {
        lemma_frame_is_final(f, lines.drop_first());
    }
}

/// The body of a request is exactly what came before the first
/// end-of-document line, as long as that is within the limit; what comes
/// after that line is not read.
pub proof fn law_body_precedes_sentinel(
    f: FrameModel,
    before: Seq<Seq<u8>>,
    end: Seq<u8>,
    after: Seq<Seq<u8>>,
)
    requires
        f.state == FrameState::Reading,
        forall|i: int| 0 <= i < before.len() ==> !is_sentinel_line(#[trigger] before[i]),
        is_sentinel_line(end),
        f.body.len() + concat(before).len() <= 65536,
    ensures
        frame_run(f, before.push(end) + after) == (FrameModel {
            body: f.body + concat(before),
            state: FrameState::Complete,
        }),
    decreases before.len(),
{
    let lines = before.push(end) + after;
    if before.len() == 0 {
        assert(lines[0] == end);
        assert(f.body + concat(before) =~= f.body);
        lemma_frame_is_final(frame_step(f, end), lines.drop_first());
    } else {
        let rest = before.drop_first();
        assert(lines[0] == before[0]);
        assert(lines.drop_first() =~= rest.push(end) + after);
        let next = frame_step(f, before[0]);
        assert forall|i: int| 0 <= i < rest.len() implies !is_sentinel_line(#[trigger] rest[i]) by {
            assert(rest[i] == before[i + 1]);
        }
        assert(next.body == f.body + before[0]);
        law_body_precedes_sentinel(next, rest, end, after);
        assert((f.body + before[0]) + concat(rest) =~= f.body + concat(before));
    }
}

/// A body over the limit is refused: the reader ends as too large, and has
/// stored nothing beyond the limit.
pub proof fn law_body_is_bounded(f: FrameModel, line: Seq<u8>)
    requires
        f.body.len() <= 65536,
    ensures
        frame_step(f, line).body.len() <= 65536,
        f.state == FrameState::Reading && !is_sentinel_line(line) && f.body.len() + line.len()
            > 65536 ==> frame_step(f, line).state == FrameState::TooLarge,
{
}

/// The end of a framed response is an end-of-document line.
pub proof fn law_response_ends_with_sentinel(encoded: Seq<u8>)
    ensures
        framed_response(encoded).len() >= 4,
        is_sentinel_line(
            framed_response(encoded).subrange(
                framed_response(encoded).len() - 4,
                framed_response(encoded).len() as int,
            ),
        ),
{
    let r = framed_response(encoded);
    let tail = r.subrange(r.len() - 4, r.len() as int);
    assert(tail =~= seq![46u8, 46u8, 46u8, 10u8]);
    assert(strip_line_end(tail) =~= seq![46u8, 46u8, 46u8]);
}

} // verus!
