//! The connection handler: one connection goes through reading, deciding,
//! writing and closing, once each and in this order. Reading is the work of
//! the line extractor. Each state that follows is a type of its own, and a
//! step consumes the state it leaves, so that no state is entered twice.

use crate::http::request::{status_of, RequestMessage};
use crate::http::response::{lemma_catalog_fits, wire};
use crate::limits::RESPONSE_CAP;
use vstd::prelude::*;

verus! {

/// The bytes that answer a raw line: the wire form of its status.
pub open spec fn reply(raw: Seq<u8>) -> Seq<u8> {
    wire(status_of(raw).said())
}

/// Parses a raw line, decides its status and serializes the response.
pub fn respond(raw: &[u8]) -> (out: Vec<u8>)
    ensures
        out@ == reply(raw@),
        out@.len() <= RESPONSE_CAP,
{
    let request = RequestMessage::from(raw);
    let response = request.response(raw);
    proof {
        lemma_catalog_fits(status_of(raw@));
    }
    response.to_bytes()
}

/// How the write of the response ended.
#[derive(Clone, Copy, Debug, PartialEq, Eq, Structural)]
pub enum WriteOutcome {
    /// All bytes were written.
    Written,
    /// The write failed because it would have blocked.
    WouldBlock,
    /// The write failed for another reason.
    Failed,
}

/// The line is complete and waits for its status.
pub struct Deciding {
    line: Vec<u8>,
}

/// The response waits to be written.
pub struct Writing {
    bytes: Vec<u8>,
}

/// The connection is flushed where `flush` says so, errors ignored, and
/// then shut down in both directions, errors ignored.
pub struct Closing {
    pub flush: bool,
}

impl Deciding {
    /// The line that was extracted.
    pub closed spec fn view(&self) -> Seq<u8> {
        self.line@
    }

    /// Takes the line with which the reading ended, whatever it holds: a
    /// read that failed or returned nothing leaves a line that is empty or
    /// cut short, and the handler goes on with it.
    pub fn new(line: Vec<u8>) -> (deciding: Deciding)
        ensures
            deciding@ == line@,
    {
        Deciding { line }
    }

    /// The line that was extracted.
    pub fn line(&self) -> (line: &[u8])
        ensures
            line@ == self@,
    {
        self.line.as_slice()
    }

    /// Decides the status of the line and passes on to writing with the
    /// bytes of the response.
    pub fn decide(self) -> (writing: Writing)
        ensures
            writing@ == reply(self@),
            writing@.len() <= RESPONSE_CAP,
    {
        Writing { bytes: respond(self.line.as_slice()) }
    }
}

impl Writing {
    /// The bytes that are to be written.
    pub closed spec fn view(&self) -> Seq<u8> {
        self.bytes@
    }

    /// The bytes that are to be written, all of them, in one attempt.
    pub fn bytes(&self) -> (bytes: &[u8])
        ensures
            bytes@ == self@,
    {
        self.bytes.as_slice()
    }

    /// Takes how the write ended and passes on to closing. The connection is
    /// flushed after a write that succeeded or would have blocked, and not
    /// after one that failed otherwise.
    pub fn on_write(self, outcome: WriteOutcome) -> (closing: Closing)
        ensures
            closing.flush == (outcome != WriteOutcome::Failed),
    {
        match outcome {
            WriteOutcome::Written => Closing { flush: true },
            WriteOutcome::WouldBlock => Closing { flush: true },
            WriteOutcome::Failed => Closing { flush: false },
        }
    }
}

} // verus!
