//! The line extractor: it takes what successive reads of a connection
//! return and keeps the first line, never more than the request capacity.

use crate::bytes::{append, clip, find, is_span, lemma_span, span};
use crate::limits::{CHUNK_LEN, CR, REQUEST_CAP};
use vstd::prelude::*;

verus! {

/// The first line of a stream: its bytes up to the first carriage return,
/// which is left out, and at most `REQUEST_CAP` of them.
pub open spec fn first_line(stream: Seq<u8>) -> Seq<u8> {
    clip(stream.take(span(stream, CR) as int), REQUEST_CAP as nat)
}

/// Whether another read follows a chunk that came when `have` bytes were
/// held: the chunk holds no carriage return, all of it fits, and it is
/// no shorter than a full chunk.
pub open spec fn goes_on(have: nat, chunk: Seq<u8>) -> bool {
    &&& !chunk.contains(CR)
    &&& have + chunk.len() <= REQUEST_CAP
    &&& chunk.len() >= CHUNK_LEN
}

/// What one read of the connection returned.
pub enum ReadOutcome<'a> {
    /// The bytes that were read; none at the end of the stream.
    Bytes(&'a [u8]),
    /// The read failed.
    Failed,
}

/// An extraction that has not come to its end: it holds all that was read
/// so far.
pub struct LineExtractor {
    line: Vec<u8>,
}

/// What an extraction is after one read.
pub enum Extraction {
    /// Another read is due.
    More(LineExtractor),
    /// The extraction ended with this line.
    Done(Vec<u8>),
}

/// While no carriage return was read and the capacity is not exceeded, the
/// first line of what was read and of one more chunk is known from the
/// chunk alone.
pub proof fn lemma_first_line_append(stream: Seq<u8>, chunk: Seq<u8>)
    requires
        !stream.contains(CR),
        stream.len() <= REQUEST_CAP,
    ensures
        first_line(stream + chunk) == stream + clip(
            chunk.take(span(chunk, CR) as int),
            (REQUEST_CAP - stream.len()) as nat,
        ),
        goes_on(stream.len(), chunk) ==> first_line(stream + chunk) == stream + chunk,
{
    let whole = stream + chunk;
    let k = span(chunk, CR) as int;
    lemma_span(chunk, CR);
    lemma_span(whole, CR);
    assert(is_span(whole, CR, stream.len() + k)) by {
        assert forall|j: int| 0 <= j < stream.len() + k implies whole[j] != CR by {
            if j < stream.len() {
                assert(stream.contains(stream[j]));
            } else {
                assert(whole[j] == chunk[j - stream.len()]);
            }
        }
        if stream.len() + k < whole.len() {
            assert(whole[stream.len() + k] == chunk[k]);
        }
    }
    assert(whole.take(stream.len() + k) =~= stream + chunk.take(k));
    assert(first_line(whole) =~= stream + clip(
        chunk.take(k),
        (REQUEST_CAP - stream.len()) as nat,
    ));
    if goes_on(stream.len(), chunk) {
        assert(k == chunk.len()) by {
            if k < chunk.len() {
                assert(chunk.contains(chunk[k]));
            }
        }
        assert(chunk.take(k) =~= chunk);
    }
}

/// Two byte strings without a carriage return make one without.
proof fn lemma_no_stop(stream: Seq<u8>, chunk: Seq<u8>)
    requires
        !stream.contains(CR),
        span(chunk, CR) == chunk.len(),
    ensures
        !chunk.contains(CR),
        !(stream + chunk).contains(CR),
{
    lemma_span(chunk, CR);
    let whole = stream + chunk;
    if whole.contains(CR) {
        let j = choose|j: int| 0 <= j < whole.len() && whole[j] == CR;
        if j < stream.len() {
            assert(stream.contains(stream[j]));
        } else {
            assert(chunk[j - stream.len()] == CR);
        }
    }
}

impl LineExtractor {
    #[verifier::type_invariant]
    spec fn inv(&self) -> bool {
        !self.line@.contains(CR) && self.line@.len() <= REQUEST_CAP
    }

    /// The bytes that were read so far.
    pub closed spec fn view(&self) -> Seq<u8> {
        self.line@
    }

    /// An extraction before its first read.
    pub fn new() -> (extractor: LineExtractor)
        ensures
            extractor@ == Seq::<u8>::empty(),
    {
        LineExtractor { line: Vec::with_capacity(REQUEST_CAP) }
    }

    /// Takes what one read returned. A failed read ends the extraction with
    /// what is held. Of the bytes of a read, those before the first carriage
    /// return are kept, as far as the capacity allows; the extraction goes on
    /// only when the whole chunk was kept and the chunk was a full one.
    pub fn feed(self, outcome: ReadOutcome<'_>) -> (next: Extraction)
        ensures
            match outcome {
                ReadOutcome::Failed => next matches Extraction::Done(line) && line@ == self@,
                ReadOutcome::Bytes(chunk) => if goes_on(self@.len(), chunk@) {
                    next matches Extraction::More(extractor) && extractor@ == self@ + chunk@
                } else {
                    next matches Extraction::Done(line) && line@ == first_line(self@ + chunk@)
                },
            },
            first_line(self@) == self@,
            next matches Extraction::Done(line) ==> line@.len() <= REQUEST_CAP && !line@.contains(
                CR,
            ),
    {
        proof {
            use_type_invariant(&self);
            lemma_first_line_append(self@, Seq::empty());
            assert(self@ + Seq::<u8>::empty() =~= self@);
            match outcome {
                ReadOutcome::Failed => {},
                ReadOutcome::Bytes(chunk) => {
                    lemma_first_line_bounded(self@ + chunk@);
                },
            }
        }
        let mut line = self.line;
        match outcome {
            ReadOutcome::Failed => Extraction::Done(line),
            ReadOutcome::Bytes(chunk) => {
                let room: usize = REQUEST_CAP - line.len();
                let mut size: usize = find(chunk, CR);
                let whole: bool = size == chunk.len() && size <= room;
                if size > room {
                    size = room;
                }
                proof {
                    lemma_first_line_append(line@, chunk@);
                    lemma_span(chunk@, CR);
                    assert(chunk@.subrange(0, size as int) =~= clip(
                        chunk@.take(span(chunk@, CR) as int),
                        room as nat,
                    ));
                    if whole {
                        lemma_no_stop(line@, chunk@);
                    }
                }
                append(&mut line, &chunk[0..size]);
                if whole && chunk.len() >= CHUNK_LEN {
                    Extraction::More(LineExtractor { line })
                } else {
                    Extraction::Done(line)
                }
            },
        }
    }
}

/// The first line of a stream is a prefix of the stream, holds no carriage
/// return and is never longer than the request capacity.
pub proof fn lemma_first_line_bounded(stream: Seq<u8>)
    ensures
        first_line(stream).is_prefix_of(stream),
        !first_line(stream).contains(CR),
        first_line(stream).len() <= REQUEST_CAP,
{
    lemma_span(stream, CR);
    let line = first_line(stream);
    assert(line =~= stream.subrange(0, line.len() as int));
    if line.contains(CR) {
        let j = choose|j: int| 0 <= j < line.len() && line[j] == CR;
        assert(stream[j] == CR);
    }
}

/// A stream in which a carriage return stands within the request capacity
/// gives the bytes before that carriage return, whatever follows it.
pub proof fn lemma_line_ends_at_stop(line: Seq<u8>, rest: Seq<u8>)
    requires
        !line.contains(CR),
        line.len() <= REQUEST_CAP,
    ensures
        first_line(line + seq![CR] + rest) == line,
{
    let stream = line + seq![CR] + rest;
    lemma_span(stream, CR);
    assert(is_span(stream, CR, line.len() as int)) by {
        assert forall|j: int| 0 <= j < line.len() implies stream[j] != CR by {
            assert(line.contains(line[j]));
        }
    }
    assert(stream.take(line.len() as int) =~= line);
}

/// A stream of the request capacity or more without a carriage return is
/// taken and cut to the capacity: one of exactly that many bytes is kept
/// whole.
pub proof fn lemma_full_line(stream: Seq<u8>)
    requires
        !stream.contains(CR),
        stream.len() >= REQUEST_CAP,
    ensures
        first_line(stream) == stream.take(REQUEST_CAP as int),
        stream.len() == REQUEST_CAP ==> first_line(stream) == stream,
{
    lemma_span(stream, CR);
    assert(span(stream, CR) == stream.len()) by {
        if span(stream, CR) < stream.len() {
            assert(stream.contains(stream[span(stream, CR) as int]));
        }
    }
    assert(stream.take(stream.len() as int) =~= stream);
    assert(first_line(stream) =~= stream.take(REQUEST_CAP as int));
}

} // verus!
